//! The allowed-outcome policy: parsing an operation's declared status
//! codes and classifying a concrete response against them, with a fixed,
//! document-independent list of benign error-message fragments that mark
//! a rejection as documented server behaviour rather than a bug.

use vstd::prelude::*;
use crate::model::OpenapiResponse;
use crate::text::{all_digits, digits_val, parse_status_code, spec_contains, str_contains};

verus! {

/// The verdict a probe reports for one response.
#[derive(Debug, Clone, Copy, PartialEq, Eq, Structural)]
pub enum Verdict {
    /// The outcome is expected: declared status, or a benign rejection.
    Pass,
    /// The outcome is anomalous and surfaced as a discovered failure.
    Fail,
}

/// The fixed list of benign error-message fragments.  A response whose
/// body contains any of these is a documented rejection of generated
/// input, not a discovered failure, whatever its status code.
pub open spec fn benign_list() -> Seq<Seq<char>> {
    seq![
        "Unknown login type"@,
        "Invalid login submission"@,
        "Invalid username or password"@,
        "M_UNRECOGNIZED"@,
        "M_ROOM_IN_USE"@,
        "Invalid characters in room alias"@,
        "M_UNSUPPORTED_ROOM_VERSION"@,
        "Invalid user_id"@,
        "is not a valid preset"@,
        "You are not allowed to set others state"@,
        "JSON integer out of range"@,
        " too large"@,
    ]
}

/// The benign fragments as executable strings.
pub fn benign_substrings() -> (r: Vec<&'static str>)
    ensures
        r.deep_view() == benign_list(),
{
    let r: Vec<&'static str> = vec![
        "Unknown login type",
        "Invalid login submission",
        "Invalid username or password",
        "M_UNRECOGNIZED",
        "M_ROOM_IN_USE",
        "Invalid characters in room alias",
        "M_UNSUPPORTED_ROOM_VERSION",
        "Invalid user_id",
        "is not a valid preset",
        "You are not allowed to set others state",
        "JSON integer out of range",
        " too large",
    ];
    assert(r.deep_view() =~= benign_list());
    r
}

/// Whether a response body contains at least one benign fragment.
pub open spec fn spec_benign(body: Seq<char>) -> bool {
    exists|i: int| 0 <= i < benign_list().len() && spec_contains(body, #[trigger] benign_list()[i])
}

/// The classification of one response: a declared status code passes; a
/// non-declared status passes only when the body text holds a benign
/// fragment; everything else, including an unreadable body, fails.
pub open spec fn spec_classify(codes: Seq<u16>, status: u16, body: Option<Seq<char>>) -> Verdict {
    if codes.contains(status) {
        Verdict::Pass
    } else if body is Some && spec_benign(body->0) {
        Verdict::Pass
    } else {
        Verdict::Fail
    }
}

fn code_allowed(codes: &Vec<u16>, status: u16) -> (r: bool)
    ensures
        r == codes@.contains(status),
{
    let mut i: usize = 0;
    while i < codes.len()
        invariant
            0 <= i <= codes@.len(),
            forall|k: int| 0 <= k < i ==> codes@[k] != status,
        decreases codes@.len() - i,
    {
        if codes[i] == status {
            return true;
        }
        i = i + 1;
    }
    false
}

fn body_is_benign(body: &str) -> (r: bool)
    ensures
        r == spec_benign(body@),
{
    let pats = benign_substrings();
    let mut i: usize = 0;
    while i < pats.len()
        invariant
            pats.deep_view() == benign_list(),
            0 <= i <= pats@.len(),
            forall|k: int| 0 <= k < i ==> !spec_contains(body@, #[trigger] benign_list()[k]),
        decreases pats@.len() - i,
    {
        if str_contains(body, pats[i]) {
            assert(spec_contains(body@, benign_list()[i as int]));
            return true;
        }
        i = i + 1;
    }
    false
}

/// Classify one response against an operation's allowed outcomes.  `body`
/// is the response text, or `None` where the body could not be read; an
/// unreadable body never passes on its own.
pub fn classify_response(codes: &Vec<u16>, status: u16, body: Option<&String>) -> (r: Verdict)
    ensures
        r == spec_classify(codes@, status, body.deep_view()),
{
    if code_allowed(codes, status) {
        return Verdict::Pass;
    }
    match body {
        Option::Some(text) => {
            if body_is_benign(text.as_str()) {
                Verdict::Pass
            } else {
                Verdict::Fail
            }
        },
        Option::None => Verdict::Fail,
    }
}

// ---------------------------------------------------------------------------
// Building the allowed-status list of an operation
// ---------------------------------------------------------------------------

/// The parsed status codes of a responses map from entry `i` on, in
/// declaration order, or the first key that does not parse as an unsigned
/// 16-bit integer.
pub open spec fn spec_codes_from(rs: Seq<(String, OpenapiResponse)>, i: int) -> Result<
    Seq<u16>,
    Seq<char>,
>
    decreases rs.len() - i,
{
    if i < 0 || i >= rs.len() {
        Ok(Seq::empty())
    } else {
        let key = rs[i].0@;
        if key.len() > 0 && all_digits(key) && digits_val(key) <= 65535 {
            match spec_codes_from(rs, i + 1) {
                Ok(rest) => Ok(seq![digits_val(key) as u16] + rest),
                Err(e) => Err(e),
            }
        } else {
            Err(key)
        }
    }
}

/// The parsed status codes of a responses map, or the first non-numeric
/// key.
pub open spec fn spec_codes(rs: Seq<(String, OpenapiResponse)>) -> Result<Seq<u16>, Seq<char>> {
    spec_codes_from(rs, 0)
}

spec fn prepend_codes(acc: Seq<u16>, r: Result<Seq<u16>, Seq<char>>) -> Result<
    Seq<u16>,
    Seq<char>,
> {
    match r {
        Ok(rest) => Ok(acc + rest),
        Err(e) => Err(e),
    }
}

/// Parse every response-map key as a status code, in declaration order.
/// Returns the offending key where one is not an unsigned 16-bit numeral:
/// such a key is a fatal load error for the operation.
pub fn build_allowed_codes(rs: &Vec<(String, OpenapiResponse)>) -> (r: Result<Vec<u16>, String>)
    ensures
        r matches Ok(v) ==> (spec_codes(rs@) matches Ok(s) && v@ == s),
        r matches Err(k) ==> (spec_codes(rs@) matches Err(e) && k@ == e),
{
    let mut acc: Vec<u16> = Vec::new();
    let mut i: usize = 0;
    let n: usize = rs.len();
    while i < n
        invariant
            n == rs@.len(),
            0 <= i <= n,
            prepend_codes(acc@, spec_codes_from(rs@, i as int)) == spec_codes(rs@),
        decreases n - i,
    {
        let key: &String = &rs[i].0;
        match parse_status_code(key.as_str()) {
            Option::None => {
                return Err(key.clone());
            },
            Option::Some(code) => {
                let ghost old_acc = acc@;
                acc.push(code);
                proof {
                    if let Ok(rest) = spec_codes_from(rs@, i as int + 1) {
                        assert(old_acc + (seq![code] + rest) =~= acc@ + rest);
                    }
                }
                i = i + 1;
            },
        }
    }
    assert(acc@ =~= acc@ + Seq::<u16>::empty());
    Ok(acc)
}

} // verus!
