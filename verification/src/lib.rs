//! Synchronization and hardware-memory primitives for a freestanding
//! environment: a busy-wait lock, a guarded cell with a scope-bound guard,
//! exactly-once and lazy initialization cells built on it, and a volatile
//! cell for memory-mapped registers.

pub mod once_lock;
pub mod raw;
pub mod volatile;

use vstd::prelude::*;

verus! {

/// A cell guarded by a raw spin lock: the payload is reachable only
/// through the guard returned by a successful acquisition.
///
/// While the lock is held the payload lives in the guard, not in the
/// cell; `unlock` moves it back. The well-formedness predicate `wf` ties
/// the two together: the cell's slot is empty exactly while a guard is
/// out.
pub struct SpinLock<T> {
    lock: raw::SpinLock,
    inner: Option<T>,
}

/// Exclusive access to the payload of a locked [`SpinLock`]. Returning it
/// to [`SpinLock::unlock`] releases the lock and stores the (possibly
/// updated) payload back into the cell.
pub struct SpinLockGuard<T> {
    inner: T,
}

impl<T> SpinLockGuard<T> {
    /// The payload currently carried by the guard.
    pub closed spec fn value(self) -> T {
        self.inner
    }

    /// Read access to the payload.
    pub fn get(&self) -> (r: &T)
        ensures
            *r == self.value(),
    {
        &self.inner
    }

    /// Write access to the payload.
    pub fn borrow_mut(&mut self) -> (r: &mut T)
        ensures
            *r == old(self).value(),
            final(self).value() == *final(r),
    {
        &mut self.inner
    }

    /// Overwrite the payload.
    pub fn set(&mut self, value: T)
        ensures
            final(self).value() == value,
    {
        self.inner = value;
    }

    /// Consume the guard, keeping the payload but abandoning the lock:
    /// the cell this guard came from stays locked forever. Normal use
    /// returns the guard to [`SpinLock::unlock`] instead.
    pub fn into_inner(self) -> (v: T)
        ensures
            v == self.value(),
    {
        self.inner
    }
}

/// One acquisition of a guarded cell: the cell goes from free to held and
/// the guard carries the payload the cell held before.
pub open spec fn acquire_step<T>(
    pre: SpinLock<T>,
    post: SpinLock<T>,
    guard: SpinLockGuard<T>,
) -> bool {
    &&& !pre.is_locked()
    &&& post.is_locked()
    &&& guard.value() == pre.value()
}

/// One release of a guarded cell: the cell goes from held to free and now
/// holds whatever the guard carried at release time.
pub open spec fn release_step<T>(
    pre: SpinLock<T>,
    post: SpinLock<T>,
    guard: SpinLockGuard<T>,
) -> bool {
    &&& pre.is_locked()
    &&& !post.is_locked()
    &&& post.value() == guard.value()
}

impl<T> SpinLock<T> {
    /// True while some caller holds a guard for this cell.
    pub closed spec fn is_locked(self) -> bool {
        self.lock.is_locked()
    }

    /// The payload stored in the cell; meaningful while the cell is free.
    pub closed spec fn value(self) -> T
        recommends
            !self.is_locked(),
    {
        self.inner->0
    }

    /// Well-formedness: the payload slot is empty exactly while the lock
    /// is held (the payload is then in the outstanding guard).
    pub closed spec fn wf(self) -> bool {
        self.lock.is_locked() <==> self.inner is None
    }

    /// A new cell is free and holds `value`.
    pub fn new(value: T) -> (s: Self)
        ensures
            s.wf(),
            !s.is_locked(),
            s.value() == value,
    {
        SpinLock { lock: raw::SpinLock::new(), inner: Some(value) }
    }

    /// Consume the cell and hand the payload back. A cell with an
    /// outstanding guard has no payload to give, so it must be free.
    pub fn into_inner(self) -> (v: T)
        requires
            self.wf(),
            !self.is_locked(),
        ensures
            v == self.value(),
    {
        self.inner.unwrap()
    }

    /// Acquire the lock and take exclusive access to the payload. The
    /// caller must not already hold this lock: re-entry spins forever.
    pub fn lock(&mut self) -> (guard: SpinLockGuard<T>)
        requires
            old(self).wf(),
            !old(self).is_locked(),
        ensures
            final(self).wf(),
            acquire_step(*old(self), *final(self), guard),
    {
        self.lock.lock();
        let v = self.inner.take().unwrap();
        SpinLockGuard { inner: v }
    }

    /// One non-blocking acquisition attempt: yields a guard exactly when
    /// the cell is free, and leaves a held cell untouched.
    pub fn try_lock(&mut self) -> (guard: Option<SpinLockGuard<T>>)
        requires
            old(self).wf(),
        ensures
            final(self).wf(),
            guard is Some <==> !old(self).is_locked(),
            old(self).is_locked() ==> *final(self) == *old(self),
            guard matches Some(g) ==> acquire_step(*old(self), *final(self), g),
    {
        let acquired = self.lock.try_lock();
        if acquired {
            let v = self.inner.take().unwrap();
            Some(SpinLockGuard { inner: v })
        } else {
            None
        }
    }

    /// Release the lock, storing the guard's payload back into the cell.
    /// Every write made through the guard is thereby visible to the next
    /// acquirer; on hardware the release-ordered store makes that hold
    /// across execution contexts.
    pub fn unlock(&mut self, guard: SpinLockGuard<T>)
        requires
            old(self).wf(),
            old(self).is_locked(),
        ensures
            final(self).wf(),
            release_step(*old(self), *final(self), guard),
    {
        self.inner = Some(guard.into_inner());
        self.lock.unlock();
    }
}

/// Mutual exclusion: while a guard from one acquisition is outstanding,
/// no second acquisition of the same cell can take place; only a release
/// can make the cell acquirable again.
pub proof fn lemma_no_second_acquire<T>(
    s0: SpinLock<T>,
    s1: SpinLock<T>,
    s2: SpinLock<T>,
    g1: SpinLockGuard<T>,
    g2: SpinLockGuard<T>,
)
    requires
        acquire_step(s0, s1, g1),
    ensures
        !acquire_step(s1, s2, g2),
{
}

/// Release-then-acquire visibility: the payload a releasing context
/// leaves behind — including every write it made through its guard — is
/// exactly the payload the next acquirer's guard carries.
pub proof fn lemma_release_then_acquire<T>(
    s0: SpinLock<T>,
    s1: SpinLock<T>,
    s2: SpinLock<T>,
    writer: SpinLockGuard<T>,
    reader: SpinLockGuard<T>,
)
    requires
        release_step(s0, s1, writer),
        acquire_step(s1, s2, reader),
    ensures
        reader.value() == writer.value(),
{
}

} // verus!
