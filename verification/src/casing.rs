//! Case normalization of operation identifiers and property keys, done by
//! the `convert_case` crate behind a named result.

use vstd::prelude::*;
use convert_case::{Case, Casing};

verus! {

/// The snake_case form of a string as computed by `convert_case`.  The
/// conversion is a pure function of the input characters, so naming its
/// result keeps probe names stable across recompilations.
pub uninterp spec fn snake_of(s: Seq<char>) -> Seq<char>;

/// Relies on `convert_case`'s `Casing::to_case` with `Case::Snake`: splits
/// the input on the crate's default word boundaries, lowercases each word
/// and joins the words with underscores, depending on the input alone.
#[verifier::external_body]
pub(crate) fn to_snake_case(s: &str) -> (r: String)
    ensures
        r@ == snake_of(s@),
{
    s.to_case(Case::Snake)
}

} // verus!
