use vstd::prelude::*;
use crate::error::{outcome, CoercionError, Expected};
use crate::text::same_text;

verus! {

/// `"Yes"` and `"No"` are present flags, `""` and `"NA"` are absent; any
/// other text is refused.
pub open spec fn decoded(t: Seq<char>) -> Option<Option<bool>> {
    if t == "Yes"@ {
        Some(Some(true))
    } else if t == "No"@ {
        Some(Some(false))
    } else if t == ""@ || t == "NA"@ {
        Some(None)
    } else {
        None
    }
}

pub open spec fn encoded(v: Option<bool>) -> Seq<char> {
    match v {
        Some(true) => "Yes"@,
        Some(false) => "No"@,
        None => ""@,
    }
}

/// Reads an optional flag written as `Yes` or `No`.
pub fn deserialize(raw: &str) -> (r: Result<Option<bool>, CoercionError>)
    ensures
        outcome(r, raw@, decoded(raw@), Expected::YesOrNo),
{
    if same_text(raw, "Yes") {
        Ok(Some(true))
    } else if same_text(raw, "No") {
        Ok(Some(false))
    } else if same_text(raw, "") || same_text(raw, "NA") {
        Ok(None)
    } else {
        Err(CoercionError::new(raw, Expected::YesOrNo))
    }
}

/// Writes an optional flag as `Yes`, `No` or nothing.
pub fn serialize(v: Option<bool>) -> (r: &'static str)
    ensures
        r@ == encoded(v),
{
    match v {
        Some(true) => "Yes",
        Some(false) => "No",
        None => "",
    }
}

/// Reading back what `serialize` wrote gives the same optional flag.
pub proof fn round_trip(v: Option<bool>)
    ensures
        decoded(encoded(v)) == Some(v),
{
        reveal_strlit("Yes");
        reveal_strlit("No");
        reveal_strlit("");
        reveal_strlit("NA");
        assert("Yes"@.len() != "No"@.len());
        assert("Yes"@.len() != ""@.len());
        assert("Yes"@.len() != "NA"@.len());
        assert("No"@.len() != ""@.len());
        assert("No"@[1] != "NA"@[1]);
        assert(""@.len() != "NA"@.len());
}

} // verus!
