use vstd::prelude::*;
use crate::error::{outcome, CoercionError, Expected};

verus! {

/// Keeps the text of a cell that must not be empty.
pub fn deserialize(raw: &str) -> (r: Result<String, CoercionError>)
    ensures
        raw@.len() == 0 ==> outcome(r, raw@, None, Expected::NonEmpty),
        raw@.len() > 0 ==> r is Ok && r->Ok_0@ == raw@,
{
    if raw.is_empty() {
        Err(CoercionError::new(raw, Expected::NonEmpty))
    } else {
        Ok(raw.to_owned())
    }
}

} // verus!
