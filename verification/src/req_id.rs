//! Request-id assignment.  Every logical call gets an id that is never
//! reused within the process lifetime; the active-message execution layer
//! registers the call's internal half under that id and assumes freshness
//! while the registration is live.

use vstd::prelude::*;

verus! {

/// A monotonically increasing id source.  The ghost `issued` set records
/// every id handed out, and well-formedness keeps each of them strictly
/// below the next id, so a fresh id can never collide with an earlier one.
///
/// Callers that create requests from several threads serialize access to the
/// counter externally.
pub struct IdCounter {
    next: usize,
    issued: Ghost<Set<usize>>,
}

impl IdCounter {
    /// The id the next call will be assigned.
    pub closed spec fn next_spec(&self) -> usize {
        self.next
    }

    /// Every id assigned so far.
    pub closed spec fn issued_ids(&self) -> Set<usize> {
        self.issued@
    }

    /// Every assigned id lies strictly below the next one.
    pub open spec fn wf(&self) -> bool {
        forall|i: usize| self.issued_ids().contains(i) ==> i < self.next_spec()
    }

    pub fn new() -> (r: Self)
        ensures
            r.wf(),
            r.issued_ids() == Set::<usize>::empty(),
            r.next_spec() == 0,
    {
        IdCounter { next: 0, issued: Ghost(Set::empty()) }
    }

    /// Assign the next id: fresh with respect to everything assigned before.
    pub fn next_id(&mut self) -> (r: usize)
        requires
            old(self).wf(),
            old(self).next_spec() < usize::MAX,
        ensures
            final(self).wf(),
            r == old(self).next_spec(),
            !old(self).issued_ids().contains(r),
            final(self).issued_ids() == old(self).issued_ids().insert(r),
            final(self).next_spec() == old(self).next_spec() + 1,
    {
        let id = self.next;
        self.next = self.next + 1;
        let ghost issued = self.issued@.insert(id);
        self.issued = Ghost(issued);
        proof {
            assert forall|i: usize| self.issued_ids().contains(i) implies i < self.next_spec() by {
                if i != id {
                    assert(old(self).issued_ids().contains(i));
                }
            }
        }
        id
    }
}

/// Law: ids are never reused.  An id just assigned differs from every id
/// assigned before it, so the ids of any sequence of created calls are
/// pairwise distinct.
pub proof fn lemma_ids_pairwise_distinct(
    pre: IdCounter,
    post: IdCounter,
    id: usize,
    earlier: usize,
)
    requires
        pre.wf(),
        !pre.issued_ids().contains(id),
        post.issued_ids() == pre.issued_ids().insert(id),
        pre.issued_ids().contains(earlier),
    ensures
        earlier != id,
{
}

} // verus!
