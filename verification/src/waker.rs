//! Single-slot, deduplicating wake handle.

use std::task::Waker;
use vstd::prelude::*;

verus! {

/// `core::task::Waker`, carried through as an opaque handle.
#[verifier::external_type_specification]
#[verifier::external_body]
pub struct ExWaker(Waker);

/// The waiting party that a handle wakes.
pub uninterp spec fn wake_target(w: Waker) -> int;

/// `Waker::will_wake`: a `true` answer guarantees that both handles wake the
/// same waiting party; `false` guarantees nothing.
pub assume_specification[ Waker::will_wake ](a: &Waker, b: &Waker) -> (same: bool)
    ensures
        same ==> wake_target(*a) == wake_target(*b),
;

/// `Waker::clone`: the copy wakes the same waiting party as `w`.
pub assume_specification[ <Waker as Clone>::clone ](w: &Waker) -> (copy: Waker)
    ensures
        wake_target(copy) == wake_target(*w),
;

/// `Waker::wake`: consumes the handle; nothing is promised of the effect.
pub assume_specification[ Waker::wake ](w: Waker);

/// The registration after `target` has been registered: `target` is
/// pending, whoever was before.
pub open spec fn after_register(slot: Option<int>, target: int) -> Option<int> {
    Some(target)
}

/// The registration after a wake: nobody is pending.
pub open spec fn after_wake(slot: Option<int>) -> Option<int> {
    None
}

/// Holds at most one pending wake handle.
#[derive(Debug)]
pub struct WakerRegistration {
    waker: Option<Waker>,
}

impl View for WakerRegistration {
    type V = Option<int>;

    /// The waiting party whose wake is pending, if any.
    closed spec fn view(&self) -> Option<int> {
        match self.waker {
            Some(w) => Some(wake_target(w)),
            None => None,
        }
    }
}

impl WakerRegistration {
    /// An empty registration.
    pub fn new() -> (r: Self)
        ensures
            r@ is None,
    {
        Self { waker: None }
    }

    /// Records `w` as the pending wake handle, replacing any other.
    ///
    /// A handle already held for the same waiting party is kept as it is.
    pub fn register(&mut self, w: &Waker)
        ensures
            final(self)@ == after_register(old(self)@, wake_target(*w)),
    {
        match self.waker {
            Some(ref w2) if (w2.will_wake(w)) => {},
            _ => self.waker = Some(w.clone()),
        }
    }

    /// Empties the slot and hands out the handle that was pending: the one
    /// that a wake is owed to.
    pub fn take(&mut self) -> (pending: Option<Waker>)
        ensures
            final(self)@ == after_wake(old(self)@),
            match pending {
                Some(w) => old(self)@ == Some(wake_target(w)),
                None => old(self)@ is None,
            },
    {
        self.waker.take()
    }

    /// Wakes the pending handle, if any, and empties the slot.
    pub fn wake(&mut self)
        ensures
            final(self)@ == after_wake(old(self)@),
    {
        if let Some(w) = self.take() {
            w.wake()
        }
    }
}

/// Registering the same waiting party twice in a row leaves the
/// registration as the first call left it.
pub proof fn law_register_same_twice(slot: Option<int>, target: int)
    ensures
        after_register(after_register(slot, target), target) == after_register(slot, target),
{
}

/// After two registrations the later party is the one pending, and so the
/// one that a wake reaches; the wake leaves nobody pending, so that a second
/// wake reaches nobody.
pub proof fn law_latest_registration_is_woken(slot: Option<int>, earlier: int, later: int)
    ensures
        after_register(after_register(slot, earlier), later) == Some(later),
        after_wake(after_register(after_register(slot, earlier), later)) is None,
{
}

} // verus!
