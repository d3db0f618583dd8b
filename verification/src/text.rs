//! Character-level utilities shared by the compiler stages: substring
//! search, template trimming, decimal status-code parsing, and the
//! sanitization applied to fuzzer-chosen path substitutions.

use vstd::prelude::*;

verus! {

// ---------------------------------------------------------------------------
// Substring search
// ---------------------------------------------------------------------------

/// The pattern `p` occurs in `t` starting at position `i`.
pub open spec fn is_sub_at(t: Seq<char>, p: Seq<char>, i: int) -> bool {
    0 <= i && i + p.len() <= t.len() && t.subrange(i, i + p.len() as int) == p
}

/// The pattern `p` occurs somewhere in `t`.
pub open spec fn spec_contains(t: Seq<char>, p: Seq<char>) -> bool {
    exists|i: int| is_sub_at(t, p, i)
}

fn pat_at(t: &str, p: &str, i: usize) -> (r: bool)
    requires
        i + p@.len() <= t@.len(),
        t@.len() <= usize::MAX,
    ensures
        r == is_sub_at(t@, p@, i as int),
{
    let plen: usize = p.unicode_len();
    let mut j: usize = 0;
    while j < plen
        invariant
            plen == p@.len(),
            i + plen <= t@.len(),
            t@.len() <= usize::MAX,
            0 <= j <= plen,
            forall|k: int| 0 <= k < j ==> t@[i + k] == p@[k],
        decreases plen - j,
    {
        if t.get_char(i + j) != p.get_char(j) {
            assert(t@.subrange(i as int, i + plen as int)[j as int] != p@[j as int]);
            return false;
        }
        j = j + 1;
    }
    assert(t@.subrange(i as int, i + plen as int) =~= p@);
    true
}

/// Whether the text `t` contains the pattern `p` as a contiguous run of
/// characters.
pub fn str_contains(t: &str, p: &str) -> (r: bool)
    ensures
        r == spec_contains(t@, p@),
{
    let tlen: usize = t.unicode_len();
    let plen: usize = p.unicode_len();
    if plen > tlen {
        assert(forall|i: int| !is_sub_at(t@, p@, i));
        return false;
    }
    let mut i: usize = 0;
    loop
        invariant
            tlen == t@.len(),
            plen == p@.len(),
            plen <= tlen,
            0 <= i <= tlen - plen,
            forall|k: int| 0 <= k < i ==> !is_sub_at(t@, p@, k),
        decreases tlen - plen - i,
    {
        if pat_at(t, p, i) {
            return true;
        }
        if i == tlen - plen {
            assert(forall|k: int| k > tlen - plen ==> !is_sub_at(t@, p@, k));
            return false;
        }
        i = i + 1;
    }
}

/// Whether two string slices hold the same characters.
pub fn str_eq(a: &str, b: &str) -> (r: bool)
    ensures
        r == (a@ == b@),
{
    let alen: usize = a.unicode_len();
    let blen: usize = b.unicode_len();
    if alen != blen {
        return false;
    }
    let mut i: usize = 0;
    while i < alen
        invariant
            alen == a@.len(),
            alen == b@.len(),
            0 <= i <= alen,
            forall|k: int| 0 <= k < i ==> a@[k] == b@[k],
        decreases alen - i,
    {
        if a.get_char(i) != b.get_char(i) {
            return false;
        }
        i = i + 1;
    }
    assert(a@ =~= b@);
    true
}

// ---------------------------------------------------------------------------
// Finding single characters
// ---------------------------------------------------------------------------

/// Index of the first occurrence of `c` in `s` at or after `from`, or `-1`
/// if there is none.
pub open spec fn find_char(s: Seq<char>, c: char, from: int) -> int
    decreases s.len() - from,
{
    if from < 0 || from >= s.len() {
        -1
    } else if s[from] == c {
        from
    } else {
        find_char(s, c, from + 1)
    }
}

pub proof fn lemma_find_char_props(s: Seq<char>, c: char, from: int)
    requires
        0 <= from,
    ensures
        find_char(s, c, from) == -1 ==> (forall|k: int| from <= k < s.len() ==> s[k] != c),
        find_char(s, c, from) != -1 ==> from <= find_char(s, c, from) < s.len() && s[find_char(
            s,
            c,
            from,
        )] == c,
    decreases s.len() - from,
{
    if from < s.len() && s[from] != c {
        lemma_find_char_props(s, c, from + 1);
    }
}

/// Find the first occurrence of `c` in `s` at or after position `from`.
pub fn find_char_from(s: &str, c: char, from: usize) -> (r: Option<usize>)
    requires
        from <= s@.len(),
    ensures
        r matches Some(i) ==> from <= i < s@.len() && i as int == find_char(s@, c, from as int),
        r is None ==> find_char(s@, c, from as int) == -1,
{
    let len: usize = s.unicode_len();
    let mut i: usize = from;
    while i < len
        invariant
            len == s@.len(),
            from <= i <= len,
            find_char(s@, c, from as int) == find_char(s@, c, i as int),
        decreases len - i,
    {
        if s.get_char(i) == c {
            return Some(i);
        }
        i = i + 1;
    }
    None
}

// ---------------------------------------------------------------------------
// Building strings one character at a time
// ---------------------------------------------------------------------------

/// Relies on `String::push` from std: appends the given character to the
/// end of the string.
#[verifier::external_body]
pub fn push_char(s: &mut String, c: char)
    ensures
        final(s)@ == old(s)@.push(c),
{
    s.push(c);
}

// ---------------------------------------------------------------------------
// Template trimming
// ---------------------------------------------------------------------------

/// The whitespace characters removed from the ends of a path template.
pub open spec fn is_template_ws(c: char) -> bool {
    c == ' ' || c == '\t' || c == '\n' || c == '\r'
}

/// Index of the first non-whitespace character at or after `i`, or the
/// length of `s` if none exists.
pub open spec fn trim_start_idx(s: Seq<char>, i: int) -> int
    decreases s.len() - i,
{
    if i < 0 || i >= s.len() {
        s.len() as int
    } else if is_template_ws(s[i]) {
        trim_start_idx(s, i + 1)
    } else {
        i
    }
}

/// One past the index of the last non-whitespace character strictly below
/// `i`, or `0` if none exists.
pub open spec fn trim_end_idx(s: Seq<char>, i: int) -> int
    decreases i,
{
    if i <= 0 || i > s.len() {
        0
    } else if is_template_ws(s[i - 1]) {
        trim_end_idx(s, i - 1)
    } else {
        i
    }
}

proof fn lemma_trim_end_bounds(s: Seq<char>, i: int)
    requires
        0 <= i <= s.len(),
    ensures
        0 <= trim_end_idx(s, i) <= i,
    decreases i,
{
    if i > 0 && is_template_ws(s[i - 1]) {
        lemma_trim_end_bounds(s, i - 1);
    }
}

/// `s` with leading and trailing whitespace removed.
pub open spec fn spec_trim(s: Seq<char>) -> Seq<char> {
    let a = trim_start_idx(s, 0);
    let b = trim_end_idx(s, s.len() as int);
    if a <= b {
        s.subrange(a, b)
    } else {
        Seq::empty()
    }
}

fn is_ws_exec(c: char) -> (r: bool)
    ensures
        r == is_template_ws(c),
{
    c == ' ' || c == '\t' || c == '\n' || c == '\r'
}

/// Remove leading and trailing whitespace from a path template.
pub fn trim_template(s: &str) -> (r: String)
    ensures
        r@ == spec_trim(s@),
{
    let len: usize = s.unicode_len();
    let mut a: usize = 0;
    while a < len && is_ws_exec(s.get_char(a))
        invariant
            len == s@.len(),
            0 <= a <= len,
            trim_start_idx(s@, 0) == trim_start_idx(s@, a as int),
            forall|k: int| 0 <= k < a ==> is_template_ws(s@[k]),
        decreases len - a,
    {
        a = a + 1;
    }
    assert(trim_start_idx(s@, a as int) == a as int);
    if a == len {
        let r = String::new();
        proof {
            lemma_trim_end_bounds(s@, s@.len() as int);
            if s@.len() > 0 && trim_end_idx(s@, s@.len() as int) == s@.len() {
                assert(is_template_ws(s@[s@.len() - 1]));
                lemma_trim_end_bounds(s@, s@.len() - 1);
            }
            assert(r@ =~= spec_trim(s@));
        }
        return r;
    }
    let mut b: usize = len;
    while b > a && is_ws_exec(s.get_char(b - 1))
        invariant
            len == s@.len(),
            a < len,
            !is_template_ws(s@[a as int]),
            a < b <= len,
            trim_end_idx(s@, len as int) == trim_end_idx(s@, b as int),
        decreases b,
    {
        b = b - 1;
    }
    assert(trim_end_idx(s@, b as int) == b as int);
    let piece = s.substring_char(a, b);
    piece.to_owned()
}

// ---------------------------------------------------------------------------
// Decimal status codes
// ---------------------------------------------------------------------------

/// An ASCII decimal digit.
pub open spec fn is_digit(c: char) -> bool {
    '0' <= c && c <= '9'
}

/// Every character of `s` is an ASCII decimal digit.
pub open spec fn all_digits(s: Seq<char>) -> bool {
    forall|i: int| 0 <= i < s.len() ==> is_digit(#[trigger] s[i])
}

/// Numeric value of a digit character.
pub open spec fn digit_val(c: char) -> int {
    c as int - '0' as int
}

/// Value of `s` read as a decimal numeral.
pub open spec fn digits_val(s: Seq<char>) -> int
    decreases s.len(),
{
    if s.len() == 0 {
        0
    } else {
        digits_val(s.drop_last()) * 10 + digit_val(s.last())
    }
}

proof fn lemma_digits_val_nonneg(s: Seq<char>)
    requires
        all_digits(s),
    ensures
        digits_val(s) >= 0,
    decreases s.len(),
{
    if s.len() > 0 {
        assert(all_digits(s.drop_last()));
        lemma_digits_val_nonneg(s.drop_last());
    }
}

proof fn lemma_digits_val_monotone(s: Seq<char>, i: int)
    requires
        all_digits(s),
        0 <= i <= s.len(),
    ensures
        digits_val(s.subrange(0, i)) <= digits_val(s),
    decreases s.len() - i,
{
    if i < s.len() {
        lemma_digits_val_monotone(s, i + 1);
        let p = s.subrange(0, i + 1);
        assert(p.drop_last() =~= s.subrange(0, i));
        assert(all_digits(s.subrange(0, i)));
        lemma_digits_val_nonneg(s.subrange(0, i));
        assert(digits_val(p) == digits_val(s.subrange(0, i)) * 10 + digit_val(s[i]));
    } else {
        assert(s.subrange(0, i) =~= s);
    }
}

fn digit_exec(c: char) -> (r: Option<u32>)
    ensures
        r matches Some(v) ==> is_digit(c) && v as int == digit_val(c),
        r is None ==> !is_digit(c),
{
    if '0' <= c && c <= '9' {
        Some(c as u32 - '0' as u32)
    } else {
        None
    }
}

/// Parse a response-map key as an unsigned 16-bit status code.  Returns
/// `None` exactly when the key is empty, holds a non-digit character, or
/// exceeds the 16-bit range.
pub fn parse_status_code(s: &str) -> (r: Option<u16>)
    ensures
        r matches Some(v) ==> s@.len() > 0 && all_digits(s@) && digits_val(s@) == v as int,
        r is None ==> s@.len() == 0 || !all_digits(s@) || digits_val(s@) > 65535,
{
    let len: usize = s.unicode_len();
    if len == 0 {
        return None;
    }
    let mut acc: u32 = 0;
    let mut i: usize = 0;
    while i < len
        invariant
            len == s@.len(),
            0 <= i <= len,
            all_digits(s@.subrange(0, i as int)),
            acc as int == digits_val(s@.subrange(0, i as int)),
            acc <= 65535,
        decreases len - i,
    {
        let c = s.get_char(i);
        match digit_exec(c) {
            None => {
                assert(!is_digit(s@[i as int]));
                return None;
            },
            Some(d) => {
                let ghost p = s@.subrange(0, i as int + 1);
                assert(p.drop_last() =~= s@.subrange(0, i as int));
                assert(p.last() == s@[i as int]);
                acc = acc * 10 + d;
                i = i + 1;
                assert(acc as int == digits_val(s@.subrange(0, i as int)));
                if acc > 65535 {
                    proof {
                        if all_digits(s@) {
                            lemma_digits_val_monotone(s@, i as int);
                        }
                    }
                    return None;
                }
            },
        }
    }
    assert(s@.subrange(0, len as int) =~= s@);
    Some(acc as u16)
}

// ---------------------------------------------------------------------------
// Sanitizing fuzzer-chosen path substitutions
// ---------------------------------------------------------------------------

/// Number of bytes the UTF-8 encoding of `c` occupies.
pub open spec fn char_bytes(c: char) -> int {
    if (c as u32) < 0x80 {
        1
    } else if (c as u32) < 0x800 {
        2
    } else if (c as u32) < 0x10000 {
        3
    } else {
        4
    }
}

/// Total number of bytes the UTF-8 encoding of `s` occupies.
pub open spec fn utf8_bytes(s: Seq<char>) -> int
    decreases s.len(),
{
    if s.len() == 0 {
        0
    } else {
        utf8_bytes(s.drop_last()) + char_bytes(s.last())
    }
}

/// Index at which a greedy left-to-right scan starting at `i` with `budget`
/// bytes left stops taking characters.
pub open spec fn keep_from(s: Seq<char>, i: int, budget: int) -> int
    decreases s.len() - i,
{
    if i < 0 || i >= s.len() || char_bytes(s[i]) > budget {
        i
    } else {
        keep_from(s, i + 1, budget - char_bytes(s[i]))
    }
}

/// The longest prefix of `s` whose UTF-8 encoding fits in `max` bytes.
pub open spec fn spec_truncate(s: Seq<char>, max: int) -> Seq<char> {
    s.subrange(0, keep_from(s, 0, max))
}

proof fn lemma_keep_from_bounds(s: Seq<char>, i: int, budget: int)
    requires
        0 <= i <= s.len(),
    ensures
        i <= keep_from(s, i, budget) <= s.len(),
    decreases s.len() - i,
{
    if i < s.len() && char_bytes(s[i]) <= budget {
        lemma_keep_from_bounds(s, i + 1, budget - char_bytes(s[i]));
    }
}

/// A character admissible inside a substituted path segment: anything but
/// a path separator or NUL.
pub open spec fn keep_path_char(c: char) -> bool {
    c != '/' && c != '\0'
}

/// `s` with path separators and NUL characters removed.
pub open spec fn spec_strip(s: Seq<char>) -> Seq<char>
    decreases s.len(),
{
    if s.len() == 0 {
        Seq::empty()
    } else if keep_path_char(s.last()) {
        spec_strip(s.drop_last()).push(s.last())
    } else {
        spec_strip(s.drop_last())
    }
}

/// The sanitization applied to a fuzzer-chosen path substitution before it
/// is interpolated into the request path: truncate to `max` UTF-8 bytes on
/// a character boundary, then drop `/` and NUL.  This only protects the
/// shape of the URL; it is not a security boundary.
pub open spec fn spec_sanitize(s: Seq<char>, max: int) -> Seq<char> {
    spec_strip(spec_truncate(s, max))
}

fn char_size(c: char) -> (n: u32)
    ensures
        n as int == char_bytes(c),
{
    if (c as u32) < 0x80 {
        1
    } else if (c as u32) < 0x800 {
        2
    } else if (c as u32) < 0x10000 {
        3
    } else {
        4
    }
}

/// Sanitize a fuzzer-chosen path substitution (see [`spec_sanitize`]).
pub fn sanitize_path_value(s: &str, max: usize) -> (r: String)
    ensures
        r@ == spec_sanitize(s@, max as int),
{
    let len: usize = s.unicode_len();
    let mut budget: usize = max;
    let mut k: usize = 0;
    while k < len
        invariant
            len == s@.len(),
            0 <= k <= len,
            budget <= max,
            keep_from(s@, 0, max as int) == keep_from(s@, k as int, budget as int),
        ensures
            0 <= k <= len,
            keep_from(s@, 0, max as int) == k as int,
        decreases len - k,
    {
        let c = s.get_char(k);
        let sz = char_size(c);
        if sz as usize > budget {
            assert(keep_from(s@, k as int, budget as int) == k as int);
            break;
        }
        budget = budget - sz as usize;
        k = k + 1;
    }
    let mut r = String::new();
    let mut j: usize = 0;
    while j < k
        invariant
            len == s@.len(),
            0 <= j <= k <= len,
            r@ == spec_strip(s@.subrange(0, j as int)),
        decreases k - j,
    {
        let c = s.get_char(j);
        let ghost p = s@.subrange(0, j as int + 1);
        assert(p.drop_last() =~= s@.subrange(0, j as int));
        assert(p.last() == s@[j as int]);
        if c != '/' && c != '\0' {
            push_char(&mut r, c);
        }
        j = j + 1;
    }
    assert(s@.subrange(0, k as int) =~= spec_truncate(s@, max as int));
    r
}

/// `s` with NUL characters removed.
pub open spec fn spec_strip_nul(s: Seq<char>) -> Seq<char>
    decreases s.len(),
{
    if s.len() == 0 {
        Seq::empty()
    } else if s.last() == '\0' {
        spec_strip_nul(s.drop_last())
    } else {
        spec_strip_nul(s.drop_last()).push(s.last())
    }
}

/// Remove NUL characters from a string.
pub fn strip_nul(s: &str) -> (r: String)
    ensures
        r@ == spec_strip_nul(s@),
{
    let len: usize = s.unicode_len();
    let mut r = String::new();
    let mut i: usize = 0;
    while i < len
        invariant
            len == s@.len(),
            0 <= i <= len,
            r@ == spec_strip_nul(s@.subrange(0, i as int)),
        decreases len - i,
    {
        let c = s.get_char(i);
        let ghost p = s@.subrange(0, i as int + 1);
        assert(p.drop_last() =~= s@.subrange(0, i as int));
        assert(p.last() == s@[i as int]);
        if c != '\0' {
            push_char(&mut r, c);
        }
        i = i + 1;
    }
    assert(s@.subrange(0, len as int) =~= s@);
    r
}

// ---------------------------------------------------------------------------
// Property-key normalization helpers
// ---------------------------------------------------------------------------

/// `s` with every `.` replaced by `_`, so that dotted property keys become
/// path-separated identifiers before case normalization.
pub open spec fn spec_underscore_dots(s: Seq<char>) -> Seq<char> {
    s.map_values(|c: char| if c == '.' { '_' } else { c })
}

/// Replace every `.` in `s` with `_`.
pub fn underscore_dots(s: &str) -> (r: String)
    ensures
        r@ == spec_underscore_dots(s@),
{
    let len: usize = s.unicode_len();
    let mut r = String::new();
    let mut i: usize = 0;
    while i < len
        invariant
            len == s@.len(),
            0 <= i <= len,
            r@ == spec_underscore_dots(s@.subrange(0, i as int)),
        decreases len - i,
    {
        let c = s.get_char(i);
        if c == '.' {
            push_char(&mut r, '_');
        } else {
            push_char(&mut r, c);
        }
        i = i + 1;
        assert(r@ =~= spec_underscore_dots(s@.subrange(0, i as int)));
    }
    assert(s@.subrange(0, len as int) =~= s@);
    r
}

} // verus!
