use vstd::prelude::*;
use crate::error::CoercionError;

verus! {

/// Decodes with `inner`, and takes any failure of it for an absent value.
pub fn deserialize<T, F: Fn(&str) -> Result<T, CoercionError>>(raw: &str, inner: F) -> (r: Option<T>)
    requires
        inner.requires((raw,)),
    ensures
        r matches Some(v) ==> inner.ensures((raw,), Ok::<T, CoercionError>(v)),
        r is None ==> exists|e: CoercionError| inner.ensures((raw,), Err::<T, CoercionError>(e)),
{
    match inner(raw) {
        Ok(v) => Some(v),
        Err(_) => None,
    }
}

} // verus!
