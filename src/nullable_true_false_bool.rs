use vstd::prelude::*;
use crate::error::{outcome, CoercionError, Expected};
use crate::text::same_text;

verus! {

/// `"1"`, `"true"`, `"True"` are true; `"0"`, `"false"`, `"False"` are
/// false; `""` and `"NA"` are absent; any other text is refused.
pub open spec fn decoded(t: Seq<char>) -> Option<Option<bool>> {
    if t == "1"@ || t == "true"@ || t == "True"@ {
        Some(Some(true))
    } else if t == "0"@ || t == "false"@ || t == "False"@ {
        Some(Some(false))
    } else if t == ""@ || t == "NA"@ {
        Some(None)
    } else {
        None
    }
}

pub open spec fn encoded(v: Option<bool>) -> Seq<char> {
    match v {
        Some(true) => "True"@,
        Some(false) => "False"@,
        None => ""@,
    }
}

/// Reads an optional flag written as true or false.
pub fn deserialize(raw: &str) -> (r: Result<Option<bool>, CoercionError>)
    ensures
        outcome(r, raw@, decoded(raw@), Expected::TrueOrFalse),
{
    if same_text(raw, "1") || same_text(raw, "true") || same_text(raw, "True") {
        Ok(Some(true))
    } else if same_text(raw, "0") || same_text(raw, "false") || same_text(raw, "False") {
        Ok(Some(false))
    } else if same_text(raw, "") || same_text(raw, "NA") {
        Ok(None)
    } else {
        Err(CoercionError::new(raw, Expected::TrueOrFalse))
    }
}

/// Writes an optional flag as `True`, `False` or nothing.
pub fn serialize(v: Option<bool>) -> (r: &'static str)
    ensures
        r@ == encoded(v),
{
    match v {
        Some(true) => "True",
        Some(false) => "False",
        None => "",
    }
}

/// Reading back what `serialize` wrote gives the same optional flag.
pub proof fn round_trip(v: Option<bool>)
    ensures
        decoded(encoded(v)) == Some(v),
{
        reveal_strlit("1");
        reveal_strlit("true");
        reveal_strlit("True");
        reveal_strlit("0");
        reveal_strlit("false");
        reveal_strlit("False");
        reveal_strlit("");
        reveal_strlit("NA");
        assert("1"@.len() != "true"@.len());
        assert("1"@.len() != "True"@.len());
        assert("1"@[0] != "0"@[0]);
        assert("1"@.len() != "false"@.len());
        assert("1"@.len() != "False"@.len());
        assert("1"@.len() != ""@.len());
        assert("1"@.len() != "NA"@.len());
        assert("true"@[0] != "True"@[0]);
        assert("true"@.len() != "0"@.len());
        assert("true"@.len() != "false"@.len());
        assert("true"@.len() != "False"@.len());
        assert("true"@.len() != ""@.len());
        assert("true"@.len() != "NA"@.len());
        assert("True"@.len() != "0"@.len());
        assert("True"@.len() != "false"@.len());
        assert("True"@.len() != "False"@.len());
        assert("True"@.len() != ""@.len());
        assert("True"@.len() != "NA"@.len());
        assert("0"@.len() != "false"@.len());
        assert("0"@.len() != "False"@.len());
        assert("0"@.len() != ""@.len());
        assert("0"@.len() != "NA"@.len());
        assert("false"@[0] != "False"@[0]);
        assert("false"@.len() != ""@.len());
        assert("false"@.len() != "NA"@.len());
        assert("False"@.len() != ""@.len());
        assert("False"@.len() != "NA"@.len());
        assert(""@.len() != "NA"@.len());
}

} // verus!
