use vstd::prelude::*;
use crate::number::{decimal, i32_text};

verus! {

/// Writes an id in decimal, and the id 0, which stands for none, as nothing.
pub fn serialize_id_empty(v: i32) -> (r: String)
    ensures
        v == 0 ==> r@.len() == 0,
        v != 0 ==> r@ == decimal(v as int),
{
    if v == 0 {
        String::new()
    } else {
        i32_text(v)
    }
}

} // verus!
