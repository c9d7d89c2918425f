//! The raw mutual-exclusion flag underlying every cell in this crate.
//!
//! On bare metal this flag is an atomic boolean driven by a test-and-set
//! loop; here it is modelled as an explicit state machine. `try_lock` is
//! one test-and-set attempt, and `lock` is an acquisition that is only
//! permitted when it can succeed: a context that re-acquires a lock it
//! already holds would spin forever with no scheduler to rescue it, so
//! that call is excluded by precondition rather than detected at run time.

use vstd::prelude::*;

verus! {

/// A busy-wait mutual-exclusion flag.
///
/// Invariant: at most one holder exists between a successful acquisition
/// and its matching release. Not re-entrant; no timeout, no cancellation.
pub struct SpinLock {
    locked: bool,
}

impl SpinLock {
    /// True while some caller holds the lock.
    pub closed spec fn is_locked(self) -> bool {
        self.locked
    }

    /// A fresh lock is held by nobody.
    pub fn new() -> (s: Self)
        ensures
            !s.is_locked(),
    {
        SpinLock { locked: false }
    }

    /// One test-and-set attempt: the flag is set unconditionally, and the
    /// attempt wins exactly when the flag was clear before.
    pub fn try_lock(&mut self) -> (acquired: bool)
        ensures
            acquired == !old(self).is_locked(),
            final(self).is_locked(),
            old(self).is_locked() ==> *final(self) == *old(self),
    {
        let was_locked = self.locked;
        self.locked = true;
        !was_locked
    }

    /// Acquire the lock. The caller must not already hold it: a second
    /// acquisition before the matching release never returns (the attempt
    /// spins until a release that cannot happen), so it is ruled out here.
    pub fn lock(&mut self)
        requires
            !old(self).is_locked(),
        ensures
            final(self).is_locked(),
    {
        let acquired = self.try_lock();
        assert(acquired);
    }

    /// Release the lock. On hardware this is a store with release
    /// ordering, making every write of the critical section visible to
    /// the next acquirer; the guarded cells above state that visibility.
    pub fn unlock(&mut self)
        ensures
            !final(self).is_locked(),
    {
        self.locked = false;
    }
}

impl Default for SpinLock {
    fn default() -> (s: Self)
        ensures
            !s.is_locked(),
    {
        SpinLock::new()
    }
}

} // verus!
