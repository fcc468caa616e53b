use vstd::prelude::*;
use crate::text::{split_on, split_text, texts, trim, trimmed};

verus! {

/// The pieces between commas, each without white space around it.
pub open spec fn pieces(t: Seq<char>) -> Seq<Seq<char>> {
    split_on(t, ',').map_values(|p: Seq<char>| trimmed(p))
}

/// Cuts the text at each `,` and trims each piece; never fails.
pub fn deserialize(raw: &str) -> (r: Vec<String>)
    ensures
        texts(r@) == pieces(raw@),
{
    let parts = split_text(raw, ',');
    let mut out: Vec<String> = Vec::new();
    let mut i: usize = 0;
    while i < parts.len()
        invariant
            i <= parts@.len(),
            texts(parts@) == split_on(raw@, ','),
            texts(out@) == pieces(raw@).subrange(0, i as int),
        decreases parts@.len() - i,
    {
        let piece = trim(parts[i].as_str());
        let ghost prev = out@;
        out.push(piece);
        assert(texts(parts@)[i as int] == parts@[i as int]@);
        assert(pieces(raw@)[i as int] == trimmed(split_on(raw@, ',')[i as int]));
        assert(texts(out@) =~= texts(prev).push(piece@));
        assert(texts(out@) =~= pieces(raw@).subrange(0, i + 1));
        i = i + 1;
    }
    assert(texts(out@) =~= pieces(raw@));
    out
}

} // verus!
