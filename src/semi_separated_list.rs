use vstd::prelude::*;
use crate::text::{split_on, split_text, texts};

verus! {

/// Cuts the text at each `;`; never fails.
pub fn deserialize(raw: &str) -> (r: Vec<String>)
    ensures
        texts(r@) == split_on(raw@, ';'),
{
    split_text(raw, ';')
}

} // verus!
