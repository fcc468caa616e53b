use vstd::prelude::*;
use crate::text::same_text;

verus! {

/// `""` and `"NULL"` are absent; any other text is kept as it is.
pub open spec fn is_null(t: Seq<char>) -> bool {
    t == ""@ || t == "NULL"@
}

/// Keeps the text of a cell, or nothing where the cell is empty or `NULL`.
pub fn deserialize(raw: &str) -> (r: Option<String>)
    ensures
        is_null(raw@) ==> r is None,
        !is_null(raw@) ==> r is Some && r->Some_0@ == raw@,
{
    if same_text(raw, "") || same_text(raw, "NULL") {
        None
    } else {
        Some(raw.to_owned())
    }
}

} // verus!
