//! Path parameters captured while matching a request path against a
//! route pattern: named segments in registration order.

use vstd::prelude::*;

verus! {

/// Container for url parameters. A variable segment is specified in
/// the pattern as `{identifier}`; the matched value is stored here
/// under that identifier.
#[derive(Debug)]
pub struct PathParams {
    pub items: Vec<(String, String)>,
}

impl PathParams {
    /// The bindings as (name, value) character sequences, in capture
    /// order.
    pub open spec fn view(self) -> Seq<(Seq<char>, Seq<char>)> {
        self.items@.map_values(|p: (String, String)| (p.0@, p.1@))
    }

    /// Whether a binding with the given name is present.
    pub open spec fn spec_contains(self, name: Seq<char>) -> bool {
        exists|i: int| 0 <= i < self.view().len() && (#[trigger] self.view()[i]).0 == name
    }

    /// Create an empty container.
    pub fn new() -> (r: PathParams)
        ensures
            r.view() == Seq::<(Seq<char>, Seq<char>)>::empty(),
    {
        let r = PathParams { items: Vec::new() };
        proof {
            assert(r.view() =~= Seq::<(Seq<char>, Seq<char>)>::empty());
        }
        r
    }

    /// Wrap already-captured bindings.
    pub fn from_pairs(items: Vec<(String, String)>) -> (r: PathParams)
        ensures
            r.view() == items@.map_values(|p: (String, String)| (p.0@, p.1@)),
    {
        PathParams { items }
    }

    /// Number of bindings.
    pub fn len(&self) -> (r: usize)
        ensures
            r == self.view().len(),
    {
        self.items.len()
    }

    /// Whether no binding was captured.
    pub fn is_empty(&self) -> (r: bool)
        ensures
            r == (self.view().len() == 0),
    {
        self.items.len() == 0
    }

    /// Append a binding.
    pub fn add(&mut self, name: String, value: String)
        ensures
            final(self).view() == old(self).view().push((name@, value@)),
    {
        self.items.push((name, value));
        proof {
            assert(final(self).view() =~= old(self).view().push((name@, value@)));
        }
    }

    /// Copy the container.
    pub fn duplicate(&self) -> (r: PathParams)
        ensures
            r.view() == self.view(),
    {
        PathParams { items: crate::dup::copy_string_pairs(&self.items) }
    }

    /// The first value bound to the given name, if any.
    pub fn get(&self, name: &str) -> (r: Option<&String>)
        ensures
            match r {
                Some(v) => exists|i: int|
                    0 <= i < self.view().len() && self.view()[i].0 == name@ && self.view()[i].1
                        == v@ && (forall|j: int| 0 <= j < i ==> self.view()[j].0 != name@),
                None => !self.spec_contains(name@),
            },
    {
        let wanted: String = name.to_owned();
        let mut i: usize = 0;
        while i < self.items.len()
            invariant
                0 <= i <= self.view().len(),
                wanted@ == name@,
                forall|j: int| 0 <= j < i ==> self.view()[j].0 != name@,
            decreases self.items.len() - i,
        {
            if self.items[i].0 == wanted {
                proof {
                    assert(self.view()[i as int].0 == name@ && self.view()[i as int].1
                        == self.items@[i as int].1@);
                }
                return Some(&self.items[i].1);
            }
            i += 1;
        }
        None
    }
}

} // verus!
