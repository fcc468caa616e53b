use vstd::prelude::*;
use crate::enum_from_id::decoded;
use crate::error::{outcome, CoercionError, Expected};
use crate::number::{decimal, i32_of, i32_text, parse_i32};
use crate::variants::Variants;

verus! {

/// Reads a variant by its integer id, falling back to the variant
/// `fallback` for an unknown id; text that writes no integer is an error.
pub fn deserialize(raw: &str, variants: &Variants, fallback: usize) -> (r: Result<usize, CoercionError>)
    ensures
        i32_of(raw@) is None ==> outcome(r, raw@, None, Expected::Integer),
        decoded(raw@, variants.ids@) matches Some(k) ==> r == Ok::<usize, CoercionError>(k as usize),
        i32_of(raw@) is Some && decoded(raw@, variants.ids@) is None ==> r == Ok::<usize, CoercionError>(
            fallback,
        ),
{
    match parse_i32(raw) {
        Some(id) => match variants.variant(id) {
            Some(k) => Ok(k),
            None => Ok(fallback),
        },
        None => Err(CoercionError::new(raw, Expected::Integer)),
    }
}

/// Writes a variant as its id.
pub fn serialize(k: usize, variants: &Variants) -> (r: String)
    requires
        k < variants.ids@.len(),
    ensures
        r@ == decimal(variants.ids@[k as int] as int),
{
    i32_text(variants.id(k))
}

/// An id that no variant has is an error for `enum_from_id`, absent for
/// `enum_from_id_opt`, and the fallback variant for this codec.
pub proof fn unknown_id(t: Seq<char>, ids: Seq<i32>)
    requires
        i32_of(t) is Some,
        crate::variants::variant_of(ids, i32_of(t)->Some_0) is None,
    ensures
        decoded(t, ids) is None,
        crate::enum_from_id::refusal(t) == Expected::KnownId,
{
}

} // verus!
