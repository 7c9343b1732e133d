//! Guards: pure predicates over the request head that accept or
//! reject a route beyond path structure. Evaluation is synchronous
//! and side-effect free; a guard list accepts only when every guard
//! does.

use vstd::prelude::*;

use crate::http::Method;
use crate::request::RequestHead;

verus! {

/// A guard condition over the request head.
#[derive(Debug)]
pub enum Guard {
    /// Accepts requests of exactly this method.
    MethodIs(Method),
    /// Accepts requests carrying a header with exactly this name and
    /// value.
    HeaderEq(String, String),
    /// Accepts every request.
    Always,
    /// Accepts no request.
    Never,
}

impl Guard {
    /// What the guard accepts, as a predicate over the head.
    pub open spec fn accepts(self, head: RequestHead) -> bool {
        match self {
            Guard::MethodIs(m) => head.method == m,
            Guard::HeaderEq(n, v) => exists|i: int|
                0 <= i < head.headers.view().len() && (#[trigger] head.headers.view()[i]) == (
                n@,
                v@,
                ),
            Guard::Always => true,
            Guard::Never => false,
        }
    }

    /// Evaluate the guard against a request head.
    #[verifier::loop_isolation(false)]
    pub fn check(&self, head: &RequestHead) -> (r: bool)
        ensures
            r == self.accepts(*head),
    {
        match self {
            Guard::MethodIs(m) => head.method == *m,
            Guard::HeaderEq(n, v) => {
                let count: usize = head.headers.len();
                let mut i: usize = 0;
                while i < count
                    invariant
                        0 <= i <= count,
                        count == head.headers.view().len(),
                        forall|j: int| 0 <= j < i ==> #[trigger] head.headers.view()[j] != (n@, v@),
                    decreases count - i,
                {
                    let item = head.headers.item(i);
                    if item.0 == *n && item.1 == *v {
                        proof {
                            assert(head.headers.view()[i as int] == (n@, v@));
                        }
                        return true;
                    }
                    i += 1;
                }
                false
            },
            Guard::Always => true,
            Guard::Never => false,
        }
    }
}

/// Whether every guard of the list accepts the head.
pub open spec fn all_accept(guards: Seq<Guard>, head: RequestHead) -> bool {
    forall|i: int| 0 <= i < guards.len() ==> (#[trigger] guards[i]).accepts(head)
}

/// Evaluate a guard list: short-circuiting conjunction in list order,
/// so the first failing guard excludes the route.
pub fn check_all(guards: &Vec<Guard>, head: &RequestHead) -> (r: bool)
    ensures
        r == all_accept(guards@, *head),
{
    let mut i: usize = 0;
    while i < guards.len()
        invariant
            0 <= i <= guards@.len(),
            forall|j: int| 0 <= j < i ==> (#[trigger] guards@[j]).accepts(*head),
        decreases guards@.len() - i,
    {
        if !guards[i].check(head) {
            return false;
        }
        i += 1;
    }
    true
}

} // verus!
