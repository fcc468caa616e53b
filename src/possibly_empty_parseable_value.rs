use vstd::prelude::*;
use crate::error::CoercionError;

verus! {

/// Takes an empty cell for an absent value, and reads any other with
/// `parse`, whose error is passed on.
pub fn deserialize<T, F: Fn(&str) -> Result<T, CoercionError>>(raw: &str, parse: F) -> (r: Result<
    Option<T>,
    CoercionError,
>)
    requires
        raw@.len() > 0 ==> parse.requires((raw,)),
    ensures
        raw@.len() == 0 ==> r matches Ok(None),
        raw@.len() > 0 ==> match r {
            Ok(Some(v)) => parse.ensures((raw,), Ok::<T, CoercionError>(v)),
            Err(e) => parse.ensures((raw,), Err::<T, CoercionError>(e)),
            Ok(None) => false,
        },
{
    if raw.is_empty() {
        Ok(None)
    } else {
        match parse(raw) {
            Ok(v) => Ok(Some(v)),
            Err(e) => Err(e),
        }
    }
}

} // verus!
