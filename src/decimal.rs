use vstd::prelude::*;
use crate::number::{all_digits, is_digit};
use crate::text::same_text;

verus! {

/// `t` spells the same word as `lower`, letter by letter in either case.
pub open spec fn word_no_case(t: Seq<char>, lower: Seq<char>, upper: Seq<char>) -> bool {
    &&& t.len() == lower.len()
    &&& lower.len() == upper.len()
    &&& forall|i: int| 0 <= i < t.len() ==> t[i] == lower[i] || t[i] == upper[i]
}

pub open spec fn is_mantissa_char(c: char) -> bool {
    is_digit(c) || c == '.'
}

/// The length of the run of digits and points that `t` starts with.
pub open spec fn mantissa_len(t: Seq<char>) -> nat
    decreases t.len(),
{
    if t.len() > 0 && is_mantissa_char(t[0]) {
        1 + mantissa_len(t.drop_first())
    } else {
        0
    }
}

pub open spec fn count_points(t: Seq<char>) -> nat
    decreases t.len(),
{
    if t.len() == 0 {
        0
    } else {
        count_points(t.drop_last()) + if t.last() == '.' { 1nat } else { 0nat }
    }
}

pub open spec fn has_digit(t: Seq<char>) -> bool {
    exists|i: int| 0 <= i < t.len() && is_digit(#[trigger] t[i])
}

/// Digits with at most one decimal point among them, at least one digit.
pub open spec fn is_mantissa(m: Seq<char>) -> bool {
    count_points(m) <= 1 && has_digit(m)
}

pub open spec fn without_sign(t: Seq<char>) -> Seq<char> {
    if t.len() > 0 && (t[0] == '+' || t[0] == '-') { t.drop_first() } else { t }
}

/// `e` or `E`, an optional sign, and one or more digits.
pub open spec fn is_exponent(x: Seq<char>) -> bool {
    &&& x.len() > 0
    &&& (x[0] == 'e' || x[0] == 'E')
    &&& without_sign(x.drop_first()).len() > 0
    &&& all_digits(without_sign(x.drop_first()))
}

/// The text that `str::parse::<f64>` accepts, as its documentation gives
/// the grammar: an optional sign, then `inf`, `infinity` or `nan` in any
/// case, or digits with at most one decimal point and at least one digit,
/// followed by an optional exponent.
pub open spec fn is_float_literal(t: Seq<char>) -> bool {
    let u = without_sign(t);
    let k = mantissa_len(u) as int;
    ||| word_no_case(u, "inf"@, "INF"@)
    ||| word_no_case(u, "infinity"@, "INFINITY"@)
    ||| word_no_case(u, "nan"@, "NAN"@)
    ||| is_mantissa(u.subrange(0, k)) && (k == u.len() || is_exponent(u.subrange(k, u.len() as int)))
}

proof fn lemma_mantissa_len(u: Seq<char>, m: int)
    requires
        0 <= m <= u.len(),
        forall|j: int| 0 <= j < m ==> is_mantissa_char(#[trigger] u[j]),
        m == u.len() || !is_mantissa_char(u[m]),
    ensures
        mantissa_len(u) == m,
    decreases m,
{
    if m > 0 {
        let d = u.drop_first();
        assert forall|j: int| 0 <= j < m - 1 implies is_mantissa_char(#[trigger] d[j]) by {
            assert(d[j] == u[j + 1]);
        };
        lemma_mantissa_len(d, m - 1);
    }
}

fn word_no_case_exec(v: &Vec<char>, from: usize, lower: &str, upper: &str) -> (r: bool)
    requires
        from <= v@.len(),
    ensures
        r == word_no_case(v@.subrange(from as int, v@.len() as int), lower@, upper@),
{
    let n = v.len();
    let len = lower.unicode_len();
    if n - from != len || upper.unicode_len() != len {
        return false;
    }
    let ghost u = v@.subrange(from as int, n as int);
    let mut i: usize = 0;
    while i < len
        invariant
            n == v@.len(),
            u == v@.subrange(from as int, n as int),
            n - from == len,
            len == lower@.len(),
            len == upper@.len(),
            i <= len,
            forall|j: int| 0 <= j < i ==> u[j] == lower@[j] || u[j] == upper@[j],
        decreases len - i,
    {
        let c = v[from + i];
        if c != lower.get_char(i) && c != upper.get_char(i) {
            assert(u[i as int] == c);
            return false;
        }
        i = i + 1;
    }
    true
}

/// Whether `str::parse::<f64>` accepts the text.
pub fn is_float_text(s: &str) -> (r: bool)
    ensures
        r == is_float_literal(s@),
{
    let v = crate::text::chars_of(s);
    let n = v.len();
    let start: usize = if n > 0 && (v[0] == '+' || v[0] == '-') { 1 } else { 0 };
    let ghost u = without_sign(s@);
    assert(u =~= v@.subrange(start as int, n as int));
    if word_no_case_exec(&v, start, "inf", "INF") || word_no_case_exec(&v, start, "infinity", "INFINITY")
        || word_no_case_exec(&v, start, "nan", "NAN") {
        return true;
    }
    let mut i: usize = start;
    let mut points: usize = 0;
    let mut digit = false;
    while i < n && (('0' <= v[i] && v[i] <= '9') || v[i] == '.')
        invariant
            n == v@.len(),
            start <= i <= n,
            u == v@.subrange(start as int, n as int),
            u == without_sign(s@),
            !word_no_case(u, "inf"@, "INF"@),
            !word_no_case(u, "infinity"@, "INFINITY"@),
            !word_no_case(u, "nan"@, "NAN"@),
            forall|j: int| start <= j < i ==> is_mantissa_char(#[trigger] v@[j]),
            points == count_points(v@.subrange(start as int, i as int)),
            points <= i - start,
            digit == has_digit(v@.subrange(start as int, i as int)),
        decreases n - i,
    {
        let ghost before = v@.subrange(start as int, i as int);
        let ghost after = v@.subrange(start as int, i + 1);
        assert(after.drop_last() =~= before);
        assert(after.last() == v@[i as int]);
        if v[i] == '.' {
            points = points + 1;
        } else {
            assert(is_digit(after[i - start]));
            digit = true;
        }
        assert(has_digit(after) == (has_digit(before) || is_digit(v@[i as int]))) by {
            if has_digit(after) && !is_digit(v@[i as int]) {
                let j = choose|j: int| 0 <= j < after.len() && is_digit(#[trigger] after[j]);
                assert(before[j] == after[j]);
            }
            if has_digit(before) {
                let j = choose|j: int| 0 <= j < before.len() && is_digit(#[trigger] before[j]);
                assert(after[j] == before[j]);
            }
        };
        i = i + 1;
    }
    proof {
        assert forall|j: int| 0 <= j < i - start implies is_mantissa_char(#[trigger] u[j]) by {
            assert(u[j] == v@[start + j]);
        };
        lemma_mantissa_len(u, i - start);
        assert(u.subrange(0, i - start) =~= v@.subrange(start as int, i as int));
    }
    if points > 1 || !digit {
        return false;
    }
    if i == n {
        return true;
    }
    // what follows the mantissa must be an exponent
    let ghost x = u.subrange(i - start, u.len() as int);
    assert(x =~= v@.subrange(i as int, n as int));
    if v[i] != 'e' && v[i] != 'E' {
        return false;
    }
    let mut j: usize = i + 1;
    if j < n && (v[j] == '+' || v[j] == '-') {
        j = j + 1;
    }
    let ghost w = without_sign(x.drop_first());
    assert(w =~= v@.subrange(j as int, n as int));
    if j == n {
        return false;
    }
    let first = j;
    assert(is_float_literal(s@) == all_digits(w));
    while j < n
        invariant
            is_float_literal(s@) == all_digits(w),
            n == v@.len(),
            first <= j <= n,
            w == v@.subrange(first as int, n as int),
            forall|k: int| first <= k < j ==> is_digit(#[trigger] v@[k]),
        decreases n - j,
    {
        if !('0' <= v[j] && v[j] <= '9') {
            assert(w[j - first] == v@[j as int]);
            return false;
        }
        j = j + 1;
    }
    assert forall|k: int| 0 <= k < w.len() implies is_digit(#[trigger] w[k]) by {
        assert(w[k] == v@[first + k]);
    };
    true
}

} // verus!
