use vstd::prelude::*;
use crate::enum_from_id::decoded;
use crate::number::{decimal, i32_text, parse_i32};
use crate::variants::Variants;

verus! {

/// Reads a variant by its integer id; text that writes no integer, and an
/// unknown id, are both absent.
pub fn deserialize(raw: &str, variants: &Variants) -> (r: Option<usize>)
    ensures
        decoded(raw@, variants.ids@) matches Some(k) ==> r == Some(k as usize),
        decoded(raw@, variants.ids@) is None ==> r is None,
{
    match parse_i32(raw) {
        Some(id) => variants.variant(id),
        None => None,
    }
}

/// Writes a variant as its id, and an absent one as nothing.
pub fn serialize(v: Option<usize>, variants: &Variants) -> (r: String)
    requires
        v matches Some(k) ==> k < variants.ids@.len(),
    ensures
        v matches Some(k) ==> r@ == decimal(variants.ids@[k as int] as int),
        v is None ==> r@.len() == 0,
{
    match v {
        Some(k) => i32_text(variants.id(k)),
        None => String::new(),
    }
}

/// The value an absent field takes: the given default variant.
pub fn default(k: usize) -> (r: Option<usize>)
    ensures
        r == Some(k),
{
    Some(k)
}

} // verus!
