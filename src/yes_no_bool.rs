use vstd::prelude::*;
use crate::error::{outcome, CoercionError, Expected};
use crate::text::same_text;

verus! {

/// `"Yes"` is true and `"No"` is false.
pub open spec fn decoded(t: Seq<char>) -> Option<bool> {
    if t == "Yes"@ {
        Some(true)
    } else if t == "No"@ {
        Some(false)
    } else {
        None
    }
}

pub open spec fn encoded(v: bool) -> Seq<char> {
    if v { "Yes"@ } else { "No"@ }
}

/// Reads a flag written as `Yes` or `No`.
pub fn deserialize(raw: &str) -> (r: Result<bool, CoercionError>)
    ensures
        outcome(r, raw@, decoded(raw@), Expected::YesOrNo),
{
    if same_text(raw, "Yes") {
        Ok(true)
    } else if same_text(raw, "No") {
        Ok(false)
    } else {
        Err(CoercionError::new(raw, Expected::YesOrNo))
    }
}

/// Writes a flag as `Yes` or `No`.
pub fn serialize(v: bool) -> (r: &'static str)
    ensures
        r@ == encoded(v),
{
    if v { "Yes" } else { "No" }
}

/// Reading back what `serialize` wrote gives the same flag.
pub proof fn round_trip(v: bool)
    ensures
        decoded(encoded(v)) == Some(v),
{
        reveal_strlit("Yes");
        reveal_strlit("No");
        assert("Yes"@.len() != "No"@.len());
}

} // verus!
