use vstd::prelude::*;
use crate::error::{outcome, CoercionError, Expected};
use crate::text::same_text;

verus! {

/// `"True"` and `"true"` are true, `"False"` and `"false"` are false.
pub open spec fn decoded(t: Seq<char>) -> Option<bool> {
    if t == "True"@ || t == "true"@ {
        Some(true)
    } else if t == "False"@ || t == "false"@ {
        Some(false)
    } else {
        None
    }
}

pub open spec fn encoded(v: bool) -> Seq<char> {
    if v { "True"@ } else { "False"@ }
}

/// Reads a flag written as `True` or `False`.
pub fn deserialize(raw: &str) -> (r: Result<bool, CoercionError>)
    ensures
        outcome(r, raw@, decoded(raw@), Expected::TrueOrFalse),
{
    if same_text(raw, "True") || same_text(raw, "true") {
        Ok(true)
    } else if same_text(raw, "False") || same_text(raw, "false") {
        Ok(false)
    } else {
        Err(CoercionError::new(raw, Expected::TrueOrFalse))
    }
}

/// Writes a flag as `True` or `False`.
pub fn serialize(v: bool) -> (r: &'static str)
    ensures
        r@ == encoded(v),
{
    if v { "True" } else { "False" }
}

/// Reading back what `serialize` wrote gives the same flag.
pub proof fn round_trip(v: bool)
    ensures
        decoded(encoded(v)) == Some(v),
{
        reveal_strlit("True");
        reveal_strlit("False");
        reveal_strlit("true");
        assert("True"@.len() != "False"@.len());
        assert("True"@[0] != "true"@[0]);
        assert("False"@.len() != "true"@.len());
}

} // verus!
