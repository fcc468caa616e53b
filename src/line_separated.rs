use vstd::prelude::*;
use crate::text::{push_char, split_on, split_text, texts};

verus! {

/// A line without the carriage return that ended it, if any.
pub open spec fn without_cr(p: Seq<char>) -> Seq<char> {
    if p.len() > 0 && p.last() == '\r' { p.drop_last() } else { p }
}

/// The lines of `t`: the pieces between newlines, each without a trailing
/// carriage return. A final newline ends the last line and starts none.
pub open spec fn lines(t: Seq<char>) -> Seq<Seq<char>> {
    let p = split_on(t, '\n');
    let kept = if t.len() > 0 && t.last() == '\n' { p.drop_last() } else { p };
    kept.map_values(|x: Seq<char>| without_cr(x))
}

fn strip_cr(s: &String) -> (r: String)
    ensures
        r@ == without_cr(s@),
{
    let v = crate::text::chars_of(s.as_str());
    let n = v.len();
    let end: usize = if n > 0 && v[n - 1] == '\r' { n - 1 } else { n };
    let r = crate::text::text_of(&v, 0, end);
    assert(r@ =~= without_cr(s@));
    r
}

/// Cuts the text into lines; never fails.
pub fn deserialize(raw: &str) -> (r: Vec<String>)
    ensures
        texts(r@) == lines(raw@),
{
    let parts = split_text(raw, '\n');
    let ends_with_newline = raw.unicode_len() > 0 && raw.get_char(raw.unicode_len() - 1) == '\n';
    let count = if ends_with_newline { parts.len() - 1 } else { parts.len() };
    proof {
        crate::text::lemma_split_on_len(raw@, '\n');
    }
    let mut out: Vec<String> = Vec::new();
    let mut i: usize = 0;
    let ghost kept = if ends_with_newline { split_on(raw@, '\n').drop_last() } else { split_on(raw@, '\n') };
    while i < count
        invariant
            i <= count <= parts@.len(),
            kept.len() == count,
            texts(parts@) == split_on(raw@, '\n'),
            forall|k: int| 0 <= k < count ==> kept[k] == #[trigger] split_on(raw@, '\n')[k],
            texts(out@) == kept.map_values(|x: Seq<char>| without_cr(x)).subrange(0, i as int),
        decreases count - i,
    {
        let line = strip_cr(&parts[i]);
        let ghost prev = out@;
        out.push(line);
        assert(texts(parts@)[i as int] == parts@[i as int]@);
        assert(kept.map_values(|x: Seq<char>| without_cr(x))[i as int] == without_cr(kept[i as int]));
        assert(texts(out@) =~= texts(prev).push(line@));
        assert(texts(out@) =~= kept.map_values(|x: Seq<char>| without_cr(x)).subrange(0, i + 1));
        i = i + 1;
    }
    assert(texts(out@) =~= lines(raw@));
    out
}

} // verus!
