use vstd::prelude::*;
use crate::error::{outcome, CoercionError, Expected};
use crate::text::same_text;

verus! {

/// `"1"` and `"true"` are true, `"0"` and `"false"` are false; any other
/// text is absent.
pub open spec fn decoded(t: Seq<char>) -> Option<bool> {
    if t == "1"@ || t == "true"@ {
        Some(true)
    } else if t == "0"@ || t == "false"@ {
        Some(false)
    } else {
        None
    }
}

pub open spec fn encoded(v: Option<bool>) -> Seq<char> {
    match v {
        Some(true) => "1"@,
        Some(false) => "0"@,
        None => ""@,
    }
}

/// Reads an optional flag written as one or zero; never fails.
pub fn deserialize(raw: &str) -> (r: Option<bool>)
    ensures
        r == decoded(raw@),
{
    if same_text(raw, "1") || same_text(raw, "true") {
        Some(true)
    } else if same_text(raw, "0") || same_text(raw, "false") {
        Some(false)
    } else {
        None
    }
}

/// Writes an optional flag as one, zero or nothing.
pub fn serialize(v: Option<bool>) -> (r: &'static str)
    ensures
        r@ == encoded(v),
{
    match v {
        Some(true) => "1",
        Some(false) => "0",
        None => "",
    }
}

/// Reading back what `serialize` wrote gives the same optional flag.
pub proof fn round_trip(v: Option<bool>)
    ensures
        decoded(encoded(v)) == v,
{
        reveal_strlit("1");
        reveal_strlit("0");
        reveal_strlit("");
        reveal_strlit("true");
        reveal_strlit("false");
        assert("1"@[0] != "0"@[0]);
        assert("1"@.len() != ""@.len());
        assert("1"@.len() != "true"@.len());
        assert("1"@.len() != "false"@.len());
        assert("0"@.len() != ""@.len());
        assert("0"@.len() != "true"@.len());
        assert("0"@.len() != "false"@.len());
        assert(""@.len() != "true"@.len());
        assert(""@.len() != "false"@.len());
        assert("true"@.len() != "false"@.len());
}

pub fn default_true() -> (r: Option<bool>)
    ensures
        r == Some(true),
{
    Some(true)
}

pub fn default_false() -> (r: Option<bool>)
    ensures
        r == Some(false),
{
    Some(false)
}

} // verus!
