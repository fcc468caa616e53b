use vstd::prelude::*;
use crate::error::{outcome, CoercionError, Expected};
use crate::number::{decimal, i32_of, i32_text, parse_i32};
use crate::variants::{variant_of, Variants};

verus! {

/// The variant whose id the text writes.
pub open spec fn decoded(t: Seq<char>, ids: Seq<i32>) -> Option<int> {
    match i32_of(t) {
        Some(id) => variant_of(ids, id),
        None => None,
    }
}

/// What a refused cell was expected to be: an integer at all, or the id
/// of a variant.
pub open spec fn refusal(t: Seq<char>) -> Expected {
    if i32_of(t) is Some { Expected::KnownId } else { Expected::Integer }
}

/// Reads a variant by its integer id; an unknown id is an error.
pub fn deserialize(raw: &str, variants: &Variants) -> (r: Result<usize, CoercionError>)
    ensures
        decoded(raw@, variants.ids@) matches Some(k) ==> r == Ok::<usize, CoercionError>(k as usize),
        decoded(raw@, variants.ids@) is None ==> outcome(r, raw@, None, refusal(raw@)),
{
    match parse_i32(raw) {
        Some(id) => match variants.variant(id) {
            Some(k) => Ok(k),
            None => Err(CoercionError::new(raw, Expected::KnownId)),
        },
        None => Err(CoercionError::new(raw, Expected::Integer)),
    }
}

/// Writes a variant as its id.
pub fn serialize(k: usize, variants: &Variants) -> (r: String)
    requires
        k < variants.ids@.len(),
    ensures
        r@ == decimal(variants.ids@[k as int] as int),
{
    i32_text(variants.id(k))
}

} // verus!
