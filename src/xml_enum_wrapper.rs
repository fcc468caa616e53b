use vstd::prelude::*;
use crate::error::CoercionError;

verus! {

/// An enumeration value that an XML element carries as its content.
#[derive(Clone, Debug, PartialEq)]
pub struct XmlEnumWrapper<T> {
    pub inner: T,
}

impl<T> XmlEnumWrapper<T> {
    pub fn new(inner: T) -> (r: Self)
        ensures
            r.inner == inner,
    {
        XmlEnumWrapper { inner }
    }

    /// The value that a decoded element carries.
    pub fn deserialize_inner(wrapper: Self) -> (r: T)
        ensures
            r == wrapper.inner,
    {
        wrapper.inner
    }

    /// The value that an element carries, or nothing where the element
    /// could not be decoded.
    pub fn deserialize_nullable_inner(decoded: Result<Self, CoercionError>) -> (r: Option<T>)
        ensures
            decoded matches Ok(w) ==> r == Some(w.inner),
            decoded is Err ==> r is None,
    {
        match decoded {
            Ok(w) => Some(w.inner),
            Err(_) => None,
        }
    }
}

} // verus!
