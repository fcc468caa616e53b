use vstd::prelude::*;
use crate::error::{outcome, CoercionError, Expected};
use crate::text::same_text;

verus! {

/// `"1"` and `"true"` are true, `"0"` and `"false"` are false.
pub open spec fn decoded(t: Seq<char>) -> Option<bool> {
    if t == "1"@ || t == "true"@ {
        Some(true)
    } else if t == "0"@ || t == "false"@ {
        Some(false)
    } else {
        None
    }
}

pub open spec fn encoded(v: bool) -> Seq<char> {
    if v { "1"@ } else { "0"@ }
}

/// Reads a flag written as one or zero.
pub fn deserialize(raw: &str) -> (r: Result<bool, CoercionError>)
    ensures
        outcome(r, raw@, decoded(raw@), Expected::OneOrZero),
{
    if same_text(raw, "1") || same_text(raw, "true") {
        Ok(true)
    } else if same_text(raw, "0") || same_text(raw, "false") {
        Ok(false)
    } else {
        Err(CoercionError::new(raw, Expected::OneOrZero))
    }
}

/// Writes a flag as one or zero.
pub fn serialize(v: bool) -> (r: &'static str)
    ensures
        r@ == encoded(v),
{
    if v { "1" } else { "0" }
}

/// Reading back what `serialize` wrote gives the same flag.
pub proof fn round_trip(v: bool)
    ensures
        decoded(encoded(v)) == Some(v),
{
        reveal_strlit("1");
        reveal_strlit("0");
        reveal_strlit("true");
        assert("1"@[0] != "0"@[0]);
        assert("1"@.len() != "true"@.len());
        assert("0"@.len() != "true"@.len());
}

} // verus!
