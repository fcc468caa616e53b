use vstd::prelude::*;
use crate::error::{outcome, CoercionError, Expected};
use crate::text::same_text;

verus! {

/// `""`, `"NULL"` and `"0"` are false; any other text is true.
pub open spec fn decoded(t: Seq<char>) -> bool {
    !(t == ""@ || t == "NULL"@ || t == "0"@)
}

pub open spec fn encoded(v: bool) -> Seq<char> {
    if v { "1"@ } else { "0"@ }
}

/// Reads a flag that is set whenever the cell holds a value.
pub fn deserialize(raw: &str) -> (r: bool)
    ensures
        r == decoded(raw@),
{
    !(same_text(raw, "") || same_text(raw, "NULL") || same_text(raw, "0"))
}

/// Writes a flag as one or zero.
pub fn serialize(v: bool) -> (r: &'static str)
    ensures
        r@ == encoded(v),
{
    if v { "1" } else { "0" }
}

/// Reading back what `serialize` wrote gives the same flag.
pub proof fn round_trip(v: bool)
    ensures
        decoded(encoded(v)) == v,
{
        reveal_strlit("1");
        reveal_strlit("0");
        reveal_strlit("");
        reveal_strlit("NULL");
        assert("1"@[0] != "0"@[0]);
        assert("1"@.len() != ""@.len());
        assert("1"@.len() != "NULL"@.len());
        assert("0"@.len() != ""@.len());
        assert("0"@.len() != "NULL"@.len());
        assert(""@.len() != "NULL"@.len());
}

} // verus!
