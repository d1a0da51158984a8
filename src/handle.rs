//! The lifecycle of engine handles, as the caller tracks it.
//!
//! Each handle of a family goes Unallocated -> Live -> Freed. A handle is
//! live from the success of its allocating call until its free is issued.
//! The policy here: an operation on a handle that is not live is rejected,
//! a second free of the same handle is rejected as a fault and never
//! forwarded, and the engine may hand out a freed id again.
use vstd::prelude::*;
use std::collections::HashSet;

verus! {

broadcast use vstd::std_specs::hash::group_hash_axioms;

/// Why the ledger refused a handle.
#[derive(Clone, Copy, Debug, PartialEq, Eq, Structural)]
pub enum HandleError {
    /// The handle was never issued, or was freed already.
    NotLive(usize),
    /// The engine issued an id that is still live.
    AlreadyLive(usize),
}

/// The live set after the engine issues `id`; `None` if `id` is live.
pub open spec fn spec_issue(live: Set<usize>, id: usize) -> Option<Set<usize>> {
    if live.contains(id) {
        None
    } else {
        Some(live.insert(id))
    }
}

/// The live set after `id` is freed; `None` if `id` is not live.
pub open spec fn spec_release(live: Set<usize>, id: usize) -> Option<Set<usize>> {
    if live.contains(id) {
        Some(live.remove(id))
    } else {
        None
    }
}

/// The live handles of one resource family.
pub struct HandleLedger {
    live: HashSet<usize>,
}

impl View for HandleLedger {
    type V = Set<usize>;

    closed spec fn view(&self) -> Set<usize> {
        self.live@
    }
}

impl HandleLedger {
    /// A ledger with no live handle.
    pub fn new() -> (r: Self)
        ensures
            r@ == Set::<usize>::empty(),
    {
        HandleLedger { live: HashSet::new() }
    }

    /// Whether `id` is live.
    pub fn is_live(&self, id: usize) -> (r: bool)
        ensures
            r == self@.contains(id),
    {
        self.live.contains(&id)
    }

    /// Accepts an operation on `id` only while `id` is live.
    pub fn check(&self, id: usize) -> (r: core::result::Result<(), HandleError>)
        ensures
            r is Ok <==> self@.contains(id),
            r is Err ==> r == Err::<(), HandleError>(HandleError::NotLive(id)),
    {
        if self.live.contains(&id) {
            Ok(())
        } else {
            Err(HandleError::NotLive(id))
        }
    }

    /// Records that the engine issued `id` by a successful allocation.
    pub fn issue(&mut self, id: usize) -> (r: core::result::Result<(), HandleError>)
        ensures
            match spec_issue(old(self)@, id) {
                Some(live) => r is Ok && final(self)@ == live,
                None => r == Err::<(), HandleError>(HandleError::AlreadyLive(id)) && final(self)@
                    == old(self)@,
            },
    {
        if self.live.contains(&id) {
            Err(HandleError::AlreadyLive(id))
        } else {
            self.live.insert(id);
            Ok(())
        }
    }

    /// Records the free of `id`. Only a live handle may be freed, and only
    /// once: on `Ok` the caller issues the free call, on `Err` it must not.
    pub fn release(&mut self, id: usize) -> (r: core::result::Result<(), HandleError>)
        ensures
            match spec_release(old(self)@, id) {
                Some(live) => r is Ok && final(self)@ == live,
                None => r == Err::<(), HandleError>(HandleError::NotLive(id)) && final(self)@
                    == old(self)@,
            },
    {
        if self.live.remove(&id) {
            Ok(())
        } else {
            Err(HandleError::NotLive(id))
        }
    }
}

/// Once a handle is allocated and freed, it is no longer live: operations
/// on it and a second free are rejected. Its id may then be issued afresh,
/// while a live id is never issued twice.
pub proof fn lemma_freed_handle_rejected(live: Set<usize>, h: usize)
    requires
        !live.contains(h),
    ensures
        spec_issue(live, h) matches Some(allocated) && {
            &&& allocated.contains(h)
            &&& spec_issue(allocated, h) is None
            &&& spec_release(allocated, h) matches Some(freed) && {
                &&& !freed.contains(h)
                &&& spec_release(freed, h) is None
                &&& spec_issue(freed, h) is Some
            }
        },
{
    assert(live.insert(h).remove(h) =~= live);
}

} // verus!
