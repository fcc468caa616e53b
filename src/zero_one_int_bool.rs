use vstd::prelude::*;
use crate::error::{outcome, CoercionError, Expected};
use crate::number::{i32_of, parse_i32};

verus! {

/// The integer `1` is true and `0` is false.
pub open spec fn decoded(t: Seq<char>) -> Option<bool> {
    match i32_of(t) {
        Some(i) => if i == 1 { Some(true) } else if i == 0 { Some(false) } else { None },
        None => None,
    }
}

/// What a refused cell was expected to be: an integer at all, or one of
/// the two flag values.
pub open spec fn refusal(t: Seq<char>) -> Expected {
    if i32_of(t) is Some { Expected::OneOrZero } else { Expected::Integer }
}

/// Reads a flag written as the integer one or zero.
pub fn deserialize(raw: &str) -> (r: Result<bool, CoercionError>)
    ensures
        outcome(r, raw@, decoded(raw@), refusal(raw@)),
{
    match parse_i32(raw) {
        Some(1) => Ok(true),
        Some(0) => Ok(false),
        Some(_) => Err(CoercionError::new(raw, Expected::OneOrZero)),
        None => Err(CoercionError::new(raw, Expected::Integer)),
    }
}

} // verus!
