use vstd::prelude::*;
use crate::decimal::{is_float_literal, is_float_text};
use crate::error::{CoercionError, Expected};
use crate::text::{chars_of, push_char, trim, trimmed};

verus! {

pub open spec fn is_currency_mark(c: char) -> bool {
    c == '$' || c == ','
}

/// The amount that the text writes: the text without its surrounding white
/// space, and without any `$` or `,` at all.
pub open spec fn amount_of(t: Seq<char>) -> Seq<char> {
    trimmed(t).filter(|c: char| !is_currency_mark(c))
}

/// Strips the surrounding white space and every `$` and `,` from the text.
pub fn amount(raw: &str) -> (r: String)
    ensures
        r@ == amount_of(raw@),
{
    let t = trim(raw);
    let v = chars_of(t.as_str());
    let mut r = String::new();
    let mut i: usize = 0;
    while i < v.len()
        invariant
            v@ == trimmed(raw@),
            i <= v@.len(),
            r@ == v@.subrange(0, i as int).filter(|c: char| !is_currency_mark(c)),
        decreases v@.len() - i,
    {
        let c = v[i];
        assert(v@.subrange(0, i + 1).drop_last() =~= v@.subrange(0, i as int));
        let ghost sub = v@.subrange(0, i + 1);
        assert(sub.len() > 0 && sub.last() == c);
        proof {
            reveal_with_fuel(Seq::filter, 1);
        }
        assert(sub.filter(|c: char| !is_currency_mark(c)) == if !is_currency_mark(c) {
            sub.drop_last().filter(|c: char| !is_currency_mark(c)).push(c)
        } else {
            sub.drop_last().filter(|c: char| !is_currency_mark(c))
        });
        if c != '$' && c != ',' {
            push_char(&mut r, c);
        }
        i = i + 1;
    }
    assert(v@.subrange(0, v@.len() as int) =~= v@);
    r
}

/// Reads a sum of money such as `$1,234.56`: the text of its amount, which
/// `str::parse::<f64>` accepts, or an error where it would refuse it.
pub fn deserialize(raw: &str) -> (r: Result<String, CoercionError>)
    ensures
        is_float_literal(amount_of(raw@)) ==> r is Ok && r->Ok_0@ == amount_of(raw@),
        !is_float_literal(amount_of(raw@)) ==> r is Err && r->Err_0.raw@ == amount_of(raw@)
            && r->Err_0.expected == Expected::Number,
{
    let a = amount(raw);
    if is_float_text(a.as_str()) {
        Ok(a)
    } else {
        Err(CoercionError::new(a.as_str(), Expected::Number))
    }
}

} // verus!
