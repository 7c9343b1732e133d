//! Extension bag: a small type-keyed store. Keys are the numeric
//! identity a caller assigns to each stored kind, values are opaque
//! handles; the typed-lookup machinery around it is a collaborator,
//! only the keyed store itself lives here.

use vstd::prelude::*;

verus! {

/// Key-indexed store of opaque handles. At most one entry per key.
#[derive(Debug)]
pub struct Extensions {
    entries: Vec<(u64, u64)>,
}

impl Extensions {
    /// The entries, in insertion order.
    pub closed spec fn view(self) -> Seq<(u64, u64)> {
        self.entries@
    }

    /// Each key occurs at most once.
    pub open spec fn wf(self) -> bool {
        forall|i: int, j: int|
            0 <= i < j < self.view().len() ==> (#[trigger] self.view()[i]).0 != (
            #[trigger] self.view()[j]).0
    }

    /// Whether the key is present.
    pub open spec fn spec_contains(self, key: u64) -> bool {
        exists|i: int| 0 <= i < self.view().len() && (#[trigger] self.view()[i]).0 == key
    }

    /// Create an empty bag.
    pub fn new() -> (r: Extensions)
        ensures
            r.view() == Seq::<(u64, u64)>::empty(),
            r.wf(),
    {
        Extensions { entries: Vec::new() }
    }

    /// Number of entries.
    pub fn len(&self) -> (r: usize)
        ensures
            r == self.view().len(),
    {
        self.entries.len()
    }

    /// Look the key up.
    pub fn get(&self, key: u64) -> (r: Option<u64>)
        ensures
            match r {
                Some(v) => exists|i: int|
                    0 <= i < self.view().len() && #[trigger] self.view()[i] == (key, v),
                None => !self.spec_contains(key),
            },
    {
        let mut i: usize = 0;
        while i < self.entries.len()
            invariant
                0 <= i <= self.view().len(),
                forall|j: int| 0 <= j < i ==> (#[trigger] self.view()[j]).0 != key,
            decreases self.entries.len() - i,
        {
            if self.entries[i].0 == key {
                return Some(self.entries[i].1);
            }
            i += 1;
        }
        None
    }

    /// Copy the bag.
    pub fn duplicate(&self) -> (r: Extensions)
        ensures
            r.view() == self.view(),
    {
        Extensions { entries: crate::dup::copy_vec(&self.entries) }
    }

    /// Store a value under a key that is not yet present.
    pub fn insert(&mut self, key: u64, value: u64)
        requires
            old(self).wf(),
            !old(self).spec_contains(key),
        ensures
            final(self).wf(),
            final(self).view() == old(self).view().push((key, value)),
    {
        self.entries.push((key, value));
    }
}

} // verus!
