//! Probe-time decision logic.
//!
//! A probe invocation is split between this library and the embedding
//! program: the library decides, from the probe artifact and one fuzzer
//! candidate input, exactly which request to perform (URL, method, auth
//! header, JSON body) or that the candidate short-circuits to an expected
//! outcome; the embedding program performs the round trip and hands the
//! status and body text back to the response classifier.

use vstd::prelude::*;
use crate::json::JsonValue;
use crate::model::Flow;
use crate::paths::{is_unclassified_piece, piece_text, unclassified_count, unclassified_texts};
use crate::probe::{BodyShape, Method, PathPiece, PieceView, Probe, ProbeView, ShapeView,
    TokenRole};
use crate::text::{sanitize_path_value, spec_sanitize};
use crate::MAX_PATH_VALUE_BYTES;

verus! {

// ---------------------------------------------------------------------------
// Candidate inputs
// ---------------------------------------------------------------------------

/// One candidate input for a probe, as produced by the input-search
/// engine: a single opaque body, or one value per flattened field, plus
/// one string per unclassified path token.
pub struct ProbeInput {
    /// The single opaque JSON body of an `Opaque`-shaped probe.
    pub body_value: Option<JsonValue>,
    /// One opaque JSON value per flattened body field, in field order.
    pub body_fields: Vec<JsonValue>,
    /// One string per unclassified path token, in token order.
    pub path_values: Vec<String>,
}

/// Whether a candidate input conforms to a probe's input shape.
pub open spec fn spec_input_matches(p: ProbeView, input: ProbeInput) -> bool {
    &&& input.path_values@.len() == unclassified_count(p.pieces)
    &&& match p.body_shape {
        ShapeView::NoBody => input.body_value is None && input.body_fields@.len() == 0,
        ShapeView::Opaque => input.body_value is Some && input.body_fields@.len() == 0,
        ShapeView::Fields(names) => input.body_value is None && input.body_fields@.len()
            == names.len(),
    }
}

/// Count the fuzzer-filled path substitutions of a parsed template.
pub fn count_unclassified(pieces: &Vec<PathPiece>) -> (r: usize)
    ensures
        r as int == unclassified_count(pieces.deep_view()),
{
    let ghost dv = pieces.deep_view();
    let n: usize = pieces.len();
    let mut c: usize = 0;
    let mut i: usize = 0;
    while i < n
        invariant
            dv == pieces.deep_view(),
            n == pieces@.len(),
            0 <= i <= n,
            c as int == unclassified_count(dv.take(i as int)),
        decreases n - i,
    {
        proof {
            reveal(Seq::filter);
            assert(dv.take(i as int + 1).drop_last() =~= dv.take(i as int));
            assert(dv.take(i as int + 1).last() == dv[i as int]);
            crate::paths::lemma_unclassified_count_le(dv.take(i as int));
        }
        let unclass: bool = match &pieces[i] {
            PathPiece::Token(t) => match t.role {
                TokenRole::Unclassified => true,
                _ => false,
            },
            _ => false,
        };
        if unclass {
            c = c + 1;
        }
        proof {
            let t1 = dv.take(i as int + 1);
            let pred = |p: PieceView| is_unclassified_piece(p);
            if unclass {
                assert(t1.filter(pred) =~= dv.take(i as int).filter(pred).push(t1.last()));
            } else {
                assert(t1.filter(pred) =~= dv.take(i as int).filter(pred));
            }
        }
        i = i + 1;
    }
    assert(dv.take(n as int) =~= dv);
    c
}

/// Whether a candidate input conforms to a probe's input shape; the
/// embedding program checks this before planning a request.
pub fn input_matches(probe: &Probe, input: &ProbeInput) -> (r: bool)
    ensures
        r == spec_input_matches(probe@, *input),
{
    let count = count_unclassified(&probe.pieces);
    if input.path_values.len() != count {
        return false;
    }
    match &probe.body_shape {
        BodyShape::NoBody => input.body_value.is_none() && input.body_fields.len() == 0,
        BodyShape::Opaque => input.body_value.is_some() && input.body_fields.len() == 0,
        BodyShape::Fields(names) => input.body_value.is_none() && input.body_fields.len()
            == names.len(),
    }
}

/// The texts of a probe's fuzzer-filled path tokens, in order.  The
/// room- and user-scoped tokens never appear here: their substitutions
/// come from the session, not from the fuzz input.
pub fn unclassified_params(probe: &Probe) -> (r: Vec<String>)
    ensures
        r.deep_view() == unclassified_texts(probe@.pieces),
{
    let ghost dv = probe@.pieces;
    let n: usize = probe.pieces.len();
    let mut r: Vec<String> = Vec::new();
    let mut i: usize = 0;
    while i < n
        invariant
            dv == probe@.pieces,
            n == probe.pieces@.len(),
            0 <= i <= n,
            r.deep_view() == unclassified_texts(dv.take(i as int)),
        decreases n - i,
    {
        proof {
            reveal(Seq::filter);
            assert(dv.take(i as int + 1).drop_last() =~= dv.take(i as int));
            assert(dv.take(i as int + 1).last() == dv[i as int]);
        }
        let ghost prev = r.deep_view();
        let mut pushed: bool = false;
        match &probe.pieces[i] {
            PathPiece::Token(t) => {
                match t.role {
                    TokenRole::Unclassified => {
                        r.push(t.text.clone());
                        pushed = true;
                        assert(r.deep_view() =~= prev.push(piece_text(dv[i as int])));
                    },
                    _ => {},
                }
            },
            _ => {},
        }
        proof {
            let t1 = dv.take(i as int + 1);
            let pred = |p: PieceView| is_unclassified_piece(p);
            if pushed {
                assert(t1.filter(pred) =~= dv.take(i as int).filter(pred).push(t1.last()));
                assert(unclassified_texts(t1) =~= unclassified_texts(dv.take(i as int)).push(
                    piece_text(dv[i as int]),
                ));
            } else {
                assert(t1.filter(pred) =~= dv.take(i as int).filter(pred));
                assert(unclassified_texts(t1) =~= unclassified_texts(dv.take(i as int)));
            }
        }
        i = i + 1;
    }
    assert(dv.take(n as int) =~= dv);
    r
}

// ---------------------------------------------------------------------------
// Request planning
// ---------------------------------------------------------------------------

/// The request a probe performs for one candidate input.
pub struct RequestPlan {
    pub method: Method,
    /// The full request URL: server base followed by the substituted
    /// path.
    pub url: String,
    /// The bearer token to attach as `Authorization: Bearer <token>`,
    /// where the operation requires it.
    pub auth_bearer: Option<String>,
    /// The JSON body to send, where the operation declares one.
    pub body: Option<JsonValue>,
}

/// The outcome of planning: a request to perform, or an immediate
/// expected verdict without any round trip.
pub enum PlanOutcome {
    Request(RequestPlan),
    /// An opaque-body probe whose candidate value is not a JSON object
    /// reports an expected outcome without sending anything: an
    /// object-shaped body is a transport precondition, and such
    /// candidates are not interesting inputs.
    SkipPass,
}

/// The substituted request path of a parsed template: literals kept,
/// room- and user-scoped tokens replaced by the session's identifiers,
/// and each unclassified token replaced by the next sanitized
/// fuzzer-chosen value, in order.
pub open spec fn spec_subst(
    pieces: Seq<PieceView>,
    room: Seq<char>,
    user: Seq<char>,
    vals: Seq<Seq<char>>,
) -> Seq<char>
    decreases pieces.len(),
{
    if pieces.len() == 0 {
        Seq::empty()
    } else {
        match pieces.last() {
            PieceView::Literal(t) => spec_subst(pieces.drop_last(), room, user, vals) + t,
            PieceView::Token(t, role) => {
                if role == TokenRole::RoomScoped {
                    spec_subst(pieces.drop_last(), room, user, vals) + room
                } else if role == TokenRole::UserScoped {
                    spec_subst(pieces.drop_last(), room, user, vals) + user
                } else if vals.len() > 0 {
                    spec_subst(pieces.drop_last(), room, user, vals.drop_last()) + spec_sanitize(
                        vals.last(),
                        MAX_PATH_VALUE_BYTES as int,
                    )
                } else {
                    spec_subst(pieces.drop_last(), room, user, vals)
                }
            },
        }
    }
}

/// How a plan's body relates to the probe's shape and the candidate
/// input: no body, the candidate's own (object-shaped) opaque value, or
/// an object holding exactly the flattened fields with the candidate's
/// values.
pub open spec fn spec_body_matches(
    shape: ShapeView,
    input: ProbeInput,
    body: Option<JsonValue>,
) -> bool {
    match shape {
        ShapeView::NoBody => body is None,
        ShapeView::Opaque => body == input.body_value && (body matches Some(v)
            && v.spec_is_object()),
        ShapeView::Fields(names) => body matches Some(b) && b matches JsonValue::Obj(pairs)
            && pairs@.len() == names.len() && (forall|k: int|
            0 <= k < names.len() ==> ((#[trigger] pairs@[k]).0@ == names[k] && pairs@[k].1
                == input.body_fields@[k])),
    }
}

proof fn lemma_unclassified_remaining(pieces: Seq<PieceView>, i: int)
    requires
        0 <= i < pieces.len(),
        is_unclassified_piece(pieces[i]),
    ensures
        unclassified_count(pieces.take(i)) < unclassified_count(pieces),
{
    let pred = |p: PieceView| is_unclassified_piece(p);
    assert(pieces =~= pieces.take(i) + pieces.skip(i));
    Seq::<PieceView>::filter_distributes_over_add(pieces.take(i), pieces.skip(i), pred);
    assert(pieces.skip(i)[0] == pieces[i]);
    pieces.skip(i).lemma_filter_contains(pred, 0);
    crate::paths::lemma_unclassified_count_le(pieces.take(i));
}

/// Decide the request one candidate input leads to.  The URL is the
/// server base followed by the substituted path; the auth header carries
/// the session token exactly when the operation's security demands it;
/// the body follows the flattened shape.  An opaque-shaped probe whose
/// candidate body is not an object performs no request at all.
pub fn plan_request(
    probe: &Probe,
    input: ProbeInput,
    server: &String,
    token: &String,
    room_id: &String,
    user_id: &String,
) -> (r: PlanOutcome)
    requires
        spec_input_matches(probe@, input),
    ensures
        (r is SkipPass) == (probe@.body_shape is Opaque && !(input.body_value matches Some(v)
            && v.spec_is_object())),
        r matches PlanOutcome::Request(plan) ==> ({
            &&& plan.method == probe@.method
            &&& plan.url@ == server@ + spec_subst(
                probe@.pieces,
                room_id@,
                user_id@,
                input.path_values.deep_view(),
            )
            &&& plan.auth_bearer.deep_view() == (if probe@.requires_auth {
                Option::Some(token@)
            } else {
                Option::<Seq<char>>::None
            })
            &&& spec_body_matches(probe@.body_shape, input, plan.body)
        }),
{
    let ghost pv = probe@;
    let ghost vals0 = input.path_values.deep_view();
    // Assemble the body first: an opaque non-object short-circuits.
    let mut fields = input.body_fields;
    let body: Option<JsonValue> = match &probe.body_shape {
        BodyShape::NoBody => None,
        BodyShape::Opaque => {
            match input.body_value {
                Option::Some(v) => {
                    if !v.is_object() {
                        return PlanOutcome::SkipPass;
                    }
                    Some(v)
                },
                Option::None => vstd::pervasive::unreached(),
            }
        },
        BodyShape::Fields(names) => {
            let n: usize = names.len();
            let ghost fields0 = fields@;
            let mut pairs: Vec<(String, JsonValue)> = Vec::new();
            let mut i: usize = 0;
            while i < n
                invariant
                    pv.body_shape matches ShapeView::Fields(ns) && ns == names.deep_view(),
                    n == names@.len(),
                    fields0.len() == n,
                    0 <= i <= n,
                    fields@ == fields0.skip(i as int),
                    pairs@.len() == i,
                    forall|k: int| 0 <= k < i ==> ((#[trigger] pairs@[k]).0@
                        == names.deep_view()[k] && pairs@[k].1 == fields0[k]),
                decreases n - i,
            {
                assert(fields0.skip(i as int)[0] == fields0[i as int]);
                assert(fields0.skip(i as int).drop_first() =~= fields0.skip(i as int + 1));
                let key = names[i].clone();
                let v = fields.remove(0);
                pairs.push((key, v));
                i = i + 1;
            }
            Some(JsonValue::Obj(pairs))
        },
    };
    // Substitute the path template into the full request URL.
    let mut url = server.clone();
    let ghost base = server@;
    let mut vals = input.path_values;
    let np: usize = probe.pieces.len();
    let mut i: usize = 0;
    let mut k: usize = 0;
    while i < np
        invariant
            pv == probe@,
            np == probe.pieces@.len(),
            0 <= i <= np,
            k as int == unclassified_count(pv.pieces.take(i as int)),
            vals0.len() == unclassified_count(pv.pieces),
            vals.deep_view() == vals0.skip(k as int),
            url@ == base + spec_subst(
                pv.pieces.take(i as int),
                room_id@,
                user_id@,
                vals0.take(k as int),
            ),
        decreases np - i,
    {
        proof {
            reveal(Seq::filter);
            assert(pv.pieces.take(i as int + 1).drop_last() =~= pv.pieces.take(i as int));
            assert(pv.pieces.take(i as int + 1).last() == pv.pieces[i as int]);
        }
        let ghost t1 = pv.pieces.take(i as int + 1);
        let ghost pred = |p: PieceView| is_unclassified_piece(p);
        match &probe.pieces[i] {
            PathPiece::Literal(t) => {
                url.append(t.as_str());
                proof {
                    assert(t1.filter(pred) =~= pv.pieces.take(i as int).filter(pred));
                }
            },
            PathPiece::Token(tok) => {
                match tok.role {
                    TokenRole::RoomScoped => {
                        url.append(room_id.as_str());
                        proof {
                            assert(t1.filter(pred) =~= pv.pieces.take(i as int).filter(pred));
                        }
                    },
                    TokenRole::UserScoped => {
                        url.append(user_id.as_str());
                        proof {
                            assert(t1.filter(pred) =~= pv.pieces.take(i as int).filter(pred));
                        }
                    },
                    TokenRole::Unclassified => {
                        proof {
                            lemma_unclassified_remaining(pv.pieces, i as int);
                            assert((k as int) < vals0.len());
                            assert(vals.deep_view().len() == vals@.len());
                        }
                        let ghost pre_vals = vals@;
                        let ghost pre_deep = vals.deep_view();
                        let raw = vals.remove(0);
                        proof {
                            assert(raw == pre_vals[0]);
                            assert(pre_deep[0] == pre_vals[0].deep_view());
                            assert(raw@ == vals0[k as int]);
                            assert(vals@ =~= pre_vals.drop_first());
                            assert(pre_deep.len() == pre_vals.len());
                            assert(vals.deep_view().len() == vals@.len());
                            assert(vals@.len() == pre_vals.len() - 1);
                            assert forall|j: int| 0 <= j < vals@.len() implies #[trigger] vals
                                .deep_view()[j] == vals0.skip(k as int + 1)[j] by {
                                assert(vals@[j] == pre_vals[j + 1]);
                                assert(vals.deep_view()[j] == vals@[j].deep_view());
                                assert(pre_deep[j + 1] == pre_vals[j + 1].deep_view());
                                assert(pre_deep[j + 1] == vals0.skip(k as int)[j + 1]);
                                assert(vals0.skip(k as int)[j + 1] == vals0[k as int + 1 + j]);
                                assert(vals0.skip(k as int + 1)[j] == vals0[k as int + 1 + j]);
                            }
                            assert(vals.deep_view() =~= vals0.skip(k as int + 1));
                        }
                        let clean = sanitize_path_value(raw.as_str(), MAX_PATH_VALUE_BYTES);
                        url.append(clean.as_str());
                        k = k + 1;
                        proof {
                            assert(t1.filter(pred) =~= pv.pieces.take(i as int).filter(
                                pred,
                            ).push(t1.last()));
                            assert(vals0.take(k as int).drop_last() =~= vals0.take(
                                k as int - 1,
                            ));
                        }
                    },
                }
            },
        }
        i = i + 1;
    }
    assert(pv.pieces.take(np as int) =~= pv.pieces);
    assert(vals0.take(k as int) =~= vals0);
    // Attach the bearer token exactly where the operation demands it.
    let auth_bearer: Option<String> = if probe.requires_auth {
        Some(token.clone())
    } else {
        None
    };
    PlanOutcome::Request(RequestPlan { method: probe.method, url, auth_bearer, body })
}

// ---------------------------------------------------------------------------
// Login-flow support
// ---------------------------------------------------------------------------

/// Whether the advertised login flows include password login.  The
/// session performs its one-time login round trip only when they do.
pub fn flows_support_password(flows: &Vec<Flow>) -> (r: bool)
    ensures
        r == (exists|i: int|
            0 <= i < flows@.len() && (#[trigger] flows@[i].type_)@ == "m.login.password"@),
{
    let n: usize = flows.len();
    let mut i: usize = 0;
    while i < n
        invariant
            n == flows@.len(),
            0 <= i <= n,
            forall|k: int| 0 <= k < i ==> (#[trigger] flows@[k].type_)@ != "m.login.password"@,
        decreases n - i,
    {
        if crate::text::str_eq(flows[i].type_.as_str(), "m.login.password") {
            assert((flows@[i as int].type_)@ == "m.login.password"@);
            return true;
        }
        i = i + 1;
    }
    false
}

} // verus!
