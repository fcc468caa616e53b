use vstd::prelude::*;
use crate::number::{digits_value, i32_of, parse_i32};

verus! {

/// The integer `1` is true and `0` is false; anything else is absent.
pub open spec fn decoded(t: Seq<char>) -> Option<bool> {
    match i32_of(t) {
        Some(i) => if i == 1 { Some(true) } else if i == 0 { Some(false) } else { None },
        None => None,
    }
}

pub open spec fn encoded(v: Option<bool>) -> Seq<char> {
    match v {
        Some(true) => "1"@,
        Some(false) => "0"@,
        None => ""@,
    }
}

/// Reads an optional flag written as the integer one or zero; never fails.
pub fn deserialize(raw: &str) -> (r: Option<bool>)
    ensures
        r == decoded(raw@),
{
    match parse_i32(raw) {
        Some(1) => Some(true),
        Some(0) => Some(false),
        _ => None,
    }
}

/// Writes an optional flag as one, zero or nothing.
pub fn serialize(v: Option<bool>) -> (r: &'static str)
    ensures
        r@ == encoded(v),
{
    match v {
        Some(true) => "1",
        Some(false) => "0",
        None => "",
    }
}

/// Reading back what `serialize` wrote gives the same optional flag.
pub proof fn round_trip(v: Option<bool>)
    ensures
        decoded(encoded(v)) == v,
{
    reveal_strlit("1");
    reveal_strlit("0");
    reveal_strlit("");
    reveal_with_fuel(digits_value, 2);
    assert(digits_value("1"@) == 1) by {
        assert("1"@.drop_last() =~= Seq::<char>::empty());
    };
    assert(digits_value("0"@) == 0) by {
        assert("0"@.drop_last() =~= Seq::<char>::empty());
    };
}

pub fn default_true() -> (r: Option<bool>)
    ensures
        r == Some(true),
{
    Some(true)
}

pub fn default_false() -> (r: Option<bool>)
    ensures
        r == Some(false),
{
    Some(false)
}

} // verus!
