use vstd::prelude::*;

verus! {

/// A closed set of enumeration variants, each known by an integer id:
/// variant `k` has id `ids[k]`.
#[derive(Clone, Debug, PartialEq)]
pub struct Variants {
    pub ids: Vec<i32>,
}

/// The first variant with the id `id`, if any has it.
pub open spec fn variant_of(ids: Seq<i32>, id: i32) -> Option<int> {
    if exists|k: int| is_first_with(ids, id, k) {
        Some(choose|k: int| is_first_with(ids, id, k))
    } else {
        None
    }
}

pub open spec fn is_first_with(ids: Seq<i32>, id: i32, k: int) -> bool {
    &&& 0 <= k < ids.len()
    &&& ids[k] == id
    &&& forall|j: int| 0 <= j < k ==> ids[j] != id
}

impl Variants {
    pub fn new(ids: Vec<i32>) -> (r: Variants)
        ensures
            r.ids@ == ids@,
    {
        Variants { ids }
    }

    /// The variant that has the id `id`.
    pub fn variant(&self, id: i32) -> (r: Option<usize>)
        ensures
            r matches Some(k) ==> variant_of(self.ids@, id) == Some(k as int),
            r is None ==> variant_of(self.ids@, id) is None,
    {
        let mut i: usize = 0;
        while i < self.ids.len()
            invariant
                i <= self.ids@.len(),
                forall|j: int| 0 <= j < i ==> self.ids@[j] != id,
            decreases self.ids@.len() - i,
        {
            if self.ids[i] == id {
                assert(is_first_with(self.ids@, id, i as int));
                proof {
                    let k = choose|k: int| is_first_with(self.ids@, id, k);
                    assert(k == i) by {
                        if k < i {
                            assert(self.ids@[k] != id);
                        } else if k > i {
                            assert(self.ids@[i as int] != id);
                        }
                    };
                }
                return Some(i);
            }
            i = i + 1;
        }
        None
    }

    /// The id of variant `k`.
    pub fn id(&self, k: usize) -> (r: i32)
        requires
            k < self.ids@.len(),
        ensures
            r == self.ids@[k as int],
    {
        self.ids[k]
    }
}

} // verus!
