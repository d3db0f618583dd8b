//! Parsing and classifying path templates.
//!
//! A path template is split into literal text and maximal `{...}` tokens
//! (shortest match from each `{` to the next `}`).  Each token is assigned
//! a role by a fixed lexical rule: a token whose text contains `roomId` is
//! room-scoped, one containing `userId` is user-scoped, anything else is
//! unclassified and filled with fuzzer-chosen data at probe time.

use vstd::prelude::*;
use crate::probe::{PathPiece, PathToken, PieceView, TokenRole};
use crate::text::{find_char, find_char_from, lemma_find_char_props, spec_contains, str_contains};

verus! {

/// The fixed lexical rule assigning a role to one token's text.
pub open spec fn spec_role(t: Seq<char>) -> TokenRole {
    if spec_contains(t, "roomId"@) {
        TokenRole::RoomScoped
    } else if spec_contains(t, "userId"@) {
        TokenRole::UserScoped
    } else {
        TokenRole::Unclassified
    }
}

/// Classify one `{...}` token's text.
pub fn classify_token(text: &str) -> (r: TokenRole)
    ensures
        r == spec_role(text@),
{
    if str_contains(text, "roomId") {
        TokenRole::RoomScoped
    } else if str_contains(text, "userId") {
        TokenRole::UserScoped
    } else {
        TokenRole::Unclassified
    }
}

/// The parse of a path template from position `from` on: every maximal
/// brace-delimited token becomes a classified token piece, the text
/// around the tokens literal pieces.  A `{` without a matching `}` is
/// literal text.
pub open spec fn spec_pieces_from(s: Seq<char>, from: int) -> Seq<PieceView>
    decreases s.len() - from,
    via spec_pieces_from_dec
{
    if from < 0 || from >= s.len() {
        Seq::empty()
    } else {
        let ob = find_char(s, '{', from);
        let cb = if ob >= 0 {
            find_char(s, '}', ob + 1)
        } else {
            -1
        };
        if ob < 0 || cb < 0 {
            seq![PieceView::Literal(s.subrange(from, s.len() as int))]
        } else {
            let tok = s.subrange(ob + 1, cb);
            let rest = seq![PieceView::Token(tok, spec_role(tok))] + spec_pieces_from(s, cb + 1);
            if ob > from {
                seq![PieceView::Literal(s.subrange(from, ob))] + rest
            } else {
                rest
            }
        }
    }
}

#[via_fn]
proof fn spec_pieces_from_dec(s: Seq<char>, from: int) {
    if 0 <= from < s.len() {
        let ob = find_char(s, '{', from);
        if ob >= 0 {
            lemma_find_char_props(s, '{', from);
            lemma_find_char_props(s, '}', ob + 1);
        }
    }
}

/// The parse of a whole path template.
pub open spec fn spec_pieces(s: Seq<char>) -> Seq<PieceView> {
    spec_pieces_from(s, 0)
}

/// Parse a (trimmed) path template into literal and token pieces.
pub fn parse_template(s: &str) -> (r: Vec<PathPiece>)
    ensures
        r.deep_view() == spec_pieces(s@),
{
    let len: usize = s.unicode_len();
    let mut r: Vec<PathPiece> = Vec::new();
    let mut cursor: usize = 0;
    while cursor < len
        invariant
            len == s@.len(),
            0 <= cursor <= len,
            r.deep_view() + spec_pieces_from(s@, cursor as int) == spec_pieces_from(s@, 0),
        decreases len - cursor,
    {
        let ghost prev = r.deep_view();
        let ghost at = cursor as int;
        proof {
            lemma_find_char_props(s@, '{', at);
        }
        let tail_literal: bool;
        match find_char_from(s, '{', cursor) {
            Option::None => {
                tail_literal = true;
            },
            Option::Some(ob) => {
                proof {
                    lemma_find_char_props(s@, '}', ob as int + 1);
                }
                match find_char_from(s, '}', ob + 1) {
                    Option::None => {
                        tail_literal = true;
                    },
                    Option::Some(cb) => {
                        tail_literal = false;
                        if ob > cursor {
                            let lit = s.substring_char(cursor, ob).to_owned();
                            r.push(PathPiece::Literal(lit));
                            assert(r.deep_view() =~= prev.push(
                                PieceView::Literal(s@.subrange(at, ob as int)),
                            ));
                        }
                        let text = s.substring_char(ob + 1, cb).to_owned();
                        let role = classify_token(text.as_str());
                        let ghost mid = r.deep_view();
                        r.push(PathPiece::Token(PathToken { text, role }));
                        assert(r.deep_view() =~= mid.push(
                            PieceView::Token(
                                s@.subrange(ob as int + 1, cb as int),
                                spec_role(s@.subrange(ob as int + 1, cb as int)),
                            ),
                        ));
                        cursor = cb + 1;
                        assert(r.deep_view() + spec_pieces_from(s@, cursor as int)
                            =~= spec_pieces_from(s@, 0));
                    },
                }
            },
        }
        if tail_literal {
            let lit = s.substring_char(cursor, len).to_owned();
            r.push(PathPiece::Literal(lit));
            assert(r.deep_view() =~= prev.push(
                PieceView::Literal(s@.subrange(at, s@.len() as int)),
            ));
            cursor = len;
            assert(spec_pieces_from(s@, cursor as int) =~= Seq::<PieceView>::empty());
            assert(r.deep_view() + spec_pieces_from(s@, cursor as int) =~= spec_pieces_from(
                s@,
                0,
            ));
        }
    }
    assert(spec_pieces_from(s@, len as int) =~= Seq::<PieceView>::empty());
    assert(r.deep_view() =~= r.deep_view() + spec_pieces_from(s@, len as int));
    r
}

// ---------------------------------------------------------------------------
// Token lists derived from a parsed template
// ---------------------------------------------------------------------------

/// Whether a piece is a token piece.
pub open spec fn is_token_piece(p: PieceView) -> bool {
    p is Token
}

/// The text of a token piece.
pub open spec fn piece_text(p: PieceView) -> Seq<char> {
    p->Token_0
}

/// The texts of all `{...}` tokens of a parsed template, in order.
pub open spec fn token_texts(pieces: Seq<PieceView>) -> Seq<Seq<char>> {
    pieces.filter(|p: PieceView| is_token_piece(p)).map_values(|p: PieceView| piece_text(p))
}

/// Whether a piece is a token that a fuzzer-supplied substitution is
/// produced for.
pub open spec fn is_unclassified_piece(p: PieceView) -> bool {
    p matches PieceView::Token(_, TokenRole::Unclassified)
}

/// The texts of the unclassified tokens of a parsed template, in order.
pub open spec fn unclassified_texts(pieces: Seq<PieceView>) -> Seq<Seq<char>> {
    pieces.filter(|p: PieceView| is_unclassified_piece(p)).map_values(
        |p: PieceView| piece_text(p),
    )
}

/// The number of unclassified tokens of a parsed template.
pub open spec fn unclassified_count(pieces: Seq<PieceView>) -> int {
    unclassified_texts(pieces).len() as int
}

pub proof fn lemma_unclassified_count_le(pieces: Seq<PieceView>)
    ensures
        0 <= unclassified_count(pieces) <= pieces.len(),
{
    pieces.lemma_filter_len(|p: PieceView| is_unclassified_piece(p));
}

/// Every token piece carries the role the fixed lexical rule assigns to
/// its text.  This holds of every parsed template.
pub open spec fn roles_consistent(pieces: Seq<PieceView>) -> bool {
    forall|i: int|
        0 <= i < pieces.len() ==> (#[trigger] pieces[i] matches PieceView::Token(t, role) ==> role
            == spec_role(t))
}

pub proof fn lemma_spec_pieces_roles_consistent(s: Seq<char>, from: int)
    ensures
        roles_consistent(spec_pieces_from(s, from)),
    decreases s.len() - from,
{
    if from < 0 || from >= s.len() {
    } else {
        let ob = find_char(s, '{', from);
        let cb = if ob >= 0 {
            find_char(s, '}', ob + 1)
        } else {
            -1
        };
        if ob < 0 || cb < 0 {
        } else {
            lemma_find_char_props(s, '{', from);
            lemma_find_char_props(s, '}', ob + 1);
            lemma_spec_pieces_roles_consistent(s, cb + 1);
        }
    }
}

/// A token text is filled by the fuzzer exactly when the lexical rule
/// matches neither `roomId` nor `userId`.
pub open spec fn fuzzer_filled(t: Seq<char>) -> bool {
    !spec_contains(t, "roomId"@) && !spec_contains(t, "userId"@)
}

proof fn lemma_unclassified_filter(pieces: Seq<PieceView>)
    requires
        roles_consistent(pieces),
    ensures
        unclassified_texts(pieces) == token_texts(pieces).filter(|t: Seq<char>| fuzzer_filled(t)),
    decreases pieces.len(),
{
    reveal(Seq::filter);
    let text_of = |p: PieceView| piece_text(p);
    let is_tok = |p: PieceView| is_token_piece(p);
    let is_unc = |p: PieceView| is_unclassified_piece(p);
    let filled = |t: Seq<char>| fuzzer_filled(t);
    if pieces.len() == 0 {
        assert(pieces.filter(is_tok) =~= Seq::<PieceView>::empty());
        assert(pieces.filter(is_unc) =~= Seq::<PieceView>::empty());
        assert(unclassified_texts(pieces) =~= Seq::<Seq<char>>::empty());
        assert(token_texts(pieces).filter(filled) =~= Seq::<Seq<char>>::empty());
    } else {
        let front = pieces.drop_last();
        let last = pieces.last();
        assert(roles_consistent(front)) by {
            assert(forall|i: int| 0 <= i < front.len() ==> front[i] == pieces[i]);
        }
        lemma_unclassified_filter(front);
        // Relate each filter/map stage on `pieces` to the same stage on `front`.
        if is_tok(last) {
            assert(pieces.filter(is_tok) == front.filter(is_tok).push(last));
            assert(token_texts(pieces) =~= token_texts(front).push(text_of(last)));
            if is_unc(last) {
                assert(pieces.filter(is_unc) == front.filter(is_unc).push(last));
                assert(unclassified_texts(pieces) =~= unclassified_texts(front).push(
                    text_of(last),
                ));
                assert(last matches PieceView::Token(t, role) && role == spec_role(t)
                    && role == TokenRole::Unclassified);
                assert(filled(text_of(last)));
                assert(token_texts(pieces).filter(filled) =~= token_texts(front).filter(
                    filled,
                ).push(text_of(last))) by {
                    assert(token_texts(pieces).drop_last() =~= token_texts(front));
                }
            } else {
                assert(pieces.filter(is_unc) == front.filter(is_unc));
                assert(unclassified_texts(pieces) =~= unclassified_texts(front));
                assert(last matches PieceView::Token(t, role) && role == spec_role(t)
                    && role != TokenRole::Unclassified);
                assert(!filled(text_of(last)));
                assert(token_texts(pieces).filter(filled) =~= token_texts(front).filter(
                    filled,
                )) by {
                    assert(token_texts(pieces).drop_last() =~= token_texts(front));
                    assert(token_texts(pieces).last() == text_of(last));
                }
            }
        } else {
            assert(pieces.filter(is_tok) == front.filter(is_tok));
            assert(pieces.filter(is_unc) == front.filter(is_unc));
            assert(token_texts(pieces) =~= token_texts(front));
            assert(unclassified_texts(pieces) =~= unclassified_texts(front));
        }
    }
}

/// The classifier is a deterministic function of the template: for every
/// path template, the fuzzer-filled substitution slots are exactly the
/// template's `{...}` tokens minus those matching `roomId` or `userId`,
/// in their original left-to-right order.
pub proof fn lemma_classifier_deterministic(tpl: Seq<char>)
    ensures
        unclassified_texts(spec_pieces(tpl)) == token_texts(spec_pieces(tpl)).filter(
            |t: Seq<char>| fuzzer_filled(t),
        ),
{
    lemma_spec_pieces_roles_consistent(tpl, 0);
    lemma_unclassified_filter(spec_pieces(tpl));
}

} // verus!
