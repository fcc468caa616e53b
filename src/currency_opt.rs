use vstd::prelude::*;
use crate::currency::amount_of;
use crate::decimal::is_float_literal;
use crate::error::{CoercionError, Expected};

verus! {

/// Reads an optional sum of money: an empty cell is absent, any other is
/// read as `currency` reads it.
pub fn deserialize(raw: &str) -> (r: Result<Option<String>, CoercionError>)
    ensures
        raw@.len() == 0 ==> r == Ok::<Option<String>, CoercionError>(None),
        raw@.len() > 0 && is_float_literal(amount_of(raw@)) ==> r is Ok && r->Ok_0 is Some
            && r->Ok_0->Some_0@ == amount_of(raw@),
        raw@.len() > 0 && !is_float_literal(amount_of(raw@)) ==> r is Err && r->Err_0.raw@ == amount_of(raw@)
            && r->Err_0.expected == Expected::Number,
{
    if raw.is_empty() {
        Ok(None)
    } else {
        match crate::currency::deserialize(raw) {
            Ok(a) => Ok(Some(a)),
            Err(e) => Err(e),
        }
    }
}

} // verus!
