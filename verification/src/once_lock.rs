//! Exactly-once initialization on top of the guarded [`SpinLock`] cell.
//!
//! [`OnceMutex`] guards an optional value: the first locker supplies it
//! through an initializer run inside the critical section, every later
//! locker observes that same value. [`Lazy`] stores the initializer itself
//! at construction time in a slot that is consumed by the first lock; the
//! slot's validity is tracked through the stored option — the
//! well-formedness predicate keeps the two from drifting apart, so at
//! teardown an unconsumed initializer is dropped exactly once and a
//! consumed one is never touched again.

use crate::SpinLock;
use crate::SpinLockGuard;
use vstd::prelude::*;

verus! {

/// A guarded cell whose value is supplied by the first locker's
/// initializer and observed unchanged by every later locker.
pub struct OnceMutex<T> {
    inner: SpinLock<Option<T>>,
}

/// Exclusive access to the payload of a locked [`OnceMutex`]. The
/// initialize-if-needed step has already run, so the value is certainly
/// present.
pub struct OnceMutexGuard<T> {
    guard: SpinLockGuard<Option<T>>,
}

impl<T> OnceMutexGuard<T> {
    /// The guard always carries a present value.
    pub closed spec fn wf(self) -> bool {
        self.guard.value() is Some
    }

    /// The value the guard gives access to.
    pub closed spec fn value(self) -> T {
        self.guard.value()->0
    }

    /// Read access to the value.
    pub fn get(&self) -> (r: &T)
        requires
            self.wf(),
        ensures
            *r == self.value(),
    {
        self.guard.get().as_ref().unwrap()
    }

    /// Write access to the value.
    pub fn borrow_mut(&mut self) -> (r: &mut T)
        requires
            old(self).wf(),
        ensures
            *r == old(self).value(),
            final(self).wf(),
            final(self).value() == *final(r),
    {
        match self.guard.borrow_mut() {
            Some(v) => v,
            None => vstd::pervasive::unreached(),
        }
    }

    /// Overwrite the value.
    pub fn set(&mut self, value: T)
        ensures
            final(self).wf(),
            final(self).value() == value,
    {
        self.guard.set(Some(value));
    }
}

/// One acquisition of a [`OnceMutex`]: `ran_init` says whether this was
/// the initializing lock — true exactly when the cell was still empty —
/// and an already-initialized cell hands its memoized value to the guard.
pub open spec fn once_acquire_step<T>(
    pre: OnceMutex<T>,
    post: OnceMutex<T>,
    guard: OnceMutexGuard<T>,
    ran_init: bool,
) -> bool {
    &&& !pre.is_locked()
    &&& post.is_locked()
    &&& guard.wf()
    &&& ran_init == (pre.contents() is None)
    &&& (pre.contents() matches Some(v) ==> guard.value() == v)
}

/// One release of a [`OnceMutex`]: the cell becomes free and initialized,
/// holding the value the guard carried at release time.
pub open spec fn once_release_step<T>(
    pre: OnceMutex<T>,
    post: OnceMutex<T>,
    guard: OnceMutexGuard<T>,
) -> bool {
    &&& pre.is_locked()
    &&& !post.is_locked()
    &&& post.contents() == Some(guard.value())
}

impl<T> OnceMutex<T> {
    /// True while some caller holds a guard for this cell.
    pub closed spec fn is_locked(self) -> bool {
        self.inner.is_locked()
    }

    /// The stored option; meaningful while the cell is free. `None` is
    /// the uninitialized state, `Some` the initialized one.
    pub closed spec fn contents(self) -> Option<T> {
        self.inner.value()
    }

    /// Well-formedness of the underlying guarded cell.
    pub closed spec fn wf(self) -> bool {
        self.inner.wf()
    }

    /// A new cell is free and uninitialized.
    pub fn new() -> (s: Self)
        ensures
            s.wf(),
            !s.is_locked(),
            s.contents() is None,
    {
        OnceMutex { inner: SpinLock::new(None) }
    }

    /// Acquire the lock; if the cell is still empty, run `init` inside
    /// the critical section and store its result. Concurrent callers
    /// serialize on the lock, so only the first to observe the empty cell
    /// runs its initializer; everyone else observes the stored value.
    pub fn lock_or_init<F: FnOnce() -> T>(&mut self, init: F) -> (guard: OnceMutexGuard<T>)
        requires
            old(self).wf(),
            !old(self).is_locked(),
            old(self).contents() is None ==> call_requires(init, ()),
        ensures
            final(self).wf(),
            once_acquire_step(
                *old(self),
                *final(self),
                guard,
                old(self).contents() is None,
            ),
            old(self).contents() is None ==> call_ensures(init, (), guard.value()),
    {
        let mut guard = self.inner.lock();
        if guard.get().is_none() {
            guard.set(Some(init()));
        }
        OnceMutexGuard { guard }
    }

    /// [`Self::lock_or_init`] with the type's default value as the
    /// initializer.
    pub fn lock(&mut self) -> (guard: OnceMutexGuard<T>) where T: Default
        requires
            old(self).wf(),
            !old(self).is_locked(),
        ensures
            final(self).wf(),
            once_acquire_step(
                *old(self),
                *final(self),
                guard,
                old(self).contents() is None,
            ),
            old(self).contents() is None ==> call_ensures(T::default, (), guard.value()),
    {
        let mut guard = self.inner.lock();
        if guard.get().is_none() {
            guard.set(Some(T::default()));
        }
        OnceMutexGuard { guard }
    }

    /// Release the lock, storing the guard's value back: the cell is
    /// initialized from here on.
    pub fn unlock(&mut self, guard: OnceMutexGuard<T>)
        requires
            old(self).wf(),
            old(self).is_locked(),
            guard.wf(),
        ensures
            final(self).wf(),
            once_release_step(*old(self), *final(self), guard),
    {
        self.inner.unlock(guard.guard);
    }
}

impl<T> Default for OnceMutex<T> {
    fn default() -> (s: Self)
        ensures
            s.wf(),
            !s.is_locked(),
            s.contents() is None,
    {
        OnceMutex::new()
    }
}

/// Exactly-once initialization: over two successive lock/release rounds
/// on one cell, the initializer cannot run in both — once the first round
/// has stored a value, the second observes it instead of initializing —
/// and, when the first round's critical section leaves the value as it
/// found it, both rounds observe the same value.
pub proof fn lemma_exactly_once_initialization<T>(
    s0: OnceMutex<T>,
    s1: OnceMutex<T>,
    s2: OnceMutex<T>,
    s3: OnceMutex<T>,
    g1: OnceMutexGuard<T>,
    g2: OnceMutexGuard<T>,
    r1: bool,
    r2: bool,
)
    requires
        once_acquire_step(s0, s1, g1, r1),
        once_release_step(s1, s2, g1),
        once_acquire_step(s2, s3, g2, r2),
    ensures
        !r2,
        g2.value() == g1.value(),
{
}

/// Idempotent memoization: locking an already-initialized cell never runs
/// an initializer and observes the memoized value.
pub proof fn lemma_memoized_lock_skips_init<T>(
    s0: OnceMutex<T>,
    s1: OnceMutex<T>,
    g: OnceMutexGuard<T>,
    ran_init: bool,
    v: T,
)
    requires
        s0.contents() == Some(v),
        once_acquire_step(s0, s1, g, ran_init),
    ensures
        !ran_init,
        g.value() == v,
{
}

/// Like [`OnceMutex`], but the initializer is supplied once, at
/// construction time, and stored in a slot that the first lock consumes.
///
/// The slot has no flag of its own: whether it still holds a live
/// initializer is tracked through the stored option, and [`Lazy::wf`]
/// keeps the two in step. Because the slot is an option, teardown of a
/// never-locked cell drops the initializer exactly once, and teardown of
/// a resolved cell — whose slot is already empty — never touches it
/// again.
pub struct Lazy<T, F> {
    lock: SpinLock<Option<T>>,
    init: Option<F>,
}

/// Exclusive access to the payload of a locked [`Lazy`]. The
/// initialize-if-needed step has already run, so the value is certainly
/// present.
pub struct LazyGuard<T> {
    guard: SpinLockGuard<Option<T>>,
}

impl<T> LazyGuard<T> {
    /// The guard always carries a present value.
    pub closed spec fn wf(self) -> bool {
        self.guard.value() is Some
    }

    /// The value the guard gives access to.
    pub closed spec fn value(self) -> T {
        self.guard.value()->0
    }

    /// Read access to the value.
    pub fn get(&self) -> (r: &T)
        requires
            self.wf(),
        ensures
            *r == self.value(),
    {
        self.guard.get().as_ref().unwrap()
    }

    /// Write access to the value.
    pub fn borrow_mut(&mut self) -> (r: &mut T)
        requires
            old(self).wf(),
        ensures
            *r == old(self).value(),
            final(self).wf(),
            final(self).value() == *final(r),
    {
        match self.guard.borrow_mut() {
            Some(v) => v,
            None => vstd::pervasive::unreached(),
        }
    }

    /// Overwrite the value.
    pub fn set(&mut self, value: T)
        ensures
            final(self).wf(),
            final(self).value() == value,
    {
        self.guard.set(Some(value));
    }
}

/// One acquisition of a [`Lazy`] cell: `ran_init` is true exactly when
/// this lock resolved the cell by consuming and running the stored
/// initializer; either way the slot is spent afterwards, and an
/// already-resolved cell hands its memoized value to the guard.
pub open spec fn lazy_acquire_step<T, F: FnOnce() -> T>(
    pre: Lazy<T, F>,
    post: Lazy<T, F>,
    guard: LazyGuard<T>,
    ran_init: bool,
) -> bool {
    &&& !pre.is_locked()
    &&& post.is_locked()
    &&& guard.wf()
    &&& ran_init == (pre.contents() is None)
    &&& (pre.contents() matches Some(v) ==> guard.value() == v)
    &&& (ran_init ==> call_ensures(pre.initializer()->0, (), guard.value()))
    &&& post.initializer() is None
}

/// One release of a [`Lazy`] cell: the cell becomes free and resolved,
/// holding the value the guard carried at release time; the initializer
/// slot is left alone.
pub open spec fn lazy_release_step<T, F>(
    pre: Lazy<T, F>,
    post: Lazy<T, F>,
    guard: LazyGuard<T>,
) -> bool {
    &&& pre.is_locked()
    &&& !post.is_locked()
    &&& post.contents() == Some(guard.value())
    &&& post.initializer() == pre.initializer()
}

impl<T, F> Lazy<T, F> {
    /// True while some caller holds a guard for this cell.
    pub closed spec fn is_locked(self) -> bool {
        self.lock.is_locked()
    }

    /// The stored option; meaningful while the cell is free. `None` is
    /// the pending state, `Some` the resolved one.
    pub closed spec fn contents(self) -> Option<T> {
        self.lock.value()
    }

    /// The initializer slot: `Some` while the capability is still live,
    /// `None` once it has been consumed.
    pub closed spec fn initializer(self) -> Option<F> {
        self.init
    }

    /// Well-formedness. Beyond the underlying cell's own invariant, the
    /// initializer slot is live exactly while the cell is still pending:
    /// a lock in progress or a resolved cell has a spent slot. This is
    /// the invariant whose violation would leak the initializer or
    /// dispose of it twice.
    pub closed spec fn wf(self) -> bool {
        &&& self.lock.wf()
        &&& (self.is_locked() ==> self.init is None)
        &&& (!self.is_locked() ==> (self.init is Some <==> self.lock.value() is None))
    }
}

impl<T, F: FnOnce() -> T> Lazy<T, F> {
    /// A new cell is free, pending, and owns `init` in its slot.
    pub fn new(init: F) -> (s: Self)
        ensures
            s.wf(),
            !s.is_locked(),
            s.contents() is None,
            s.initializer() == Some(init),
    {
        Lazy { lock: SpinLock::new(None), init: Some(init) }
    }

    /// Acquire the lock; on the first call, move the initializer out of
    /// its slot — spending it permanently — and store the value it
    /// produces. Later calls find the value present and leave the spent
    /// slot alone.
    pub fn lock(&mut self) -> (guard: LazyGuard<T>)
        requires
            old(self).wf(),
            !old(self).is_locked(),
            old(self).contents() is None ==> call_requires(old(self).initializer()->0, ()),
        ensures
            final(self).wf(),
            lazy_acquire_step(
                *old(self),
                *final(self),
                guard,
                old(self).contents() is None,
            ),
    {
        let mut guard = self.lock.lock();
        if guard.get().is_none() {
            let init = self.init.take().unwrap();
            guard.set(Some(init()));
        }
        LazyGuard { guard }
    }

    /// Release the lock, storing the guard's value back: the cell is
    /// resolved from here on.
    pub fn unlock(&mut self, guard: LazyGuard<T>)
        requires
            old(self).wf(),
            old(self).is_locked(),
            guard.wf(),
        ensures
            final(self).wf(),
            lazy_release_step(*old(self), *final(self), guard),
    {
        self.lock.unlock(guard.guard);
    }
}

/// Correct disposal of an unused initializer: a well-formed pending cell
/// still owns its initializer — the slot holds exactly one live
/// capability, so tearing the cell down at this point drops it exactly
/// once and runs it never.
pub proof fn lemma_pending_cell_owns_initializer<T, F>(s: Lazy<T, F>)
    requires
        s.wf(),
        !s.is_locked(),
        s.contents() is None,
    ensures
        s.initializer() is Some,
{
}

/// Correct disposal of a consumed initializer: once a well-formed cell is
/// resolved, its initializer slot is empty — the capability was moved out
/// by the resolving lock, so teardown cannot dispose of it a second time.
pub proof fn lemma_resolved_cell_spent_initializer<T, F>(s: Lazy<T, F>)
    requires
        s.wf(),
        !s.is_locked(),
        s.contents() is Some,
    ensures
        s.initializer() is None,
{
}

/// Exactly-once initialization for [`Lazy`]: over two successive
/// lock/release rounds, the stored initializer cannot be consumed by
/// both — after the first round the slot stays spent — and, when the
/// first round's critical section leaves the value as it found it, both
/// rounds observe the same value.
pub proof fn lemma_lazy_exactly_once_initialization<T, F: FnOnce() -> T>(
    s0: Lazy<T, F>,
    s1: Lazy<T, F>,
    s2: Lazy<T, F>,
    s3: Lazy<T, F>,
    g1: LazyGuard<T>,
    g2: LazyGuard<T>,
    r1: bool,
    r2: bool,
)
    requires
        lazy_acquire_step(s0, s1, g1, r1),
        lazy_release_step(s1, s2, g1),
        lazy_acquire_step(s2, s3, g2, r2),
    ensures
        !r2,
        s2.initializer() is None,
        g2.value() == g1.value(),
{
}

/// Idempotent memoization for [`Lazy`]: locking an already-resolved cell
/// consumes no initializer and observes the memoized value.
pub proof fn lemma_lazy_memoized_lock_skips_init<T, F: FnOnce() -> T>(
    s0: Lazy<T, F>,
    s1: Lazy<T, F>,
    g: LazyGuard<T>,
    ran_init: bool,
    v: T,
)
    requires
        s0.contents() == Some(v),
        lazy_acquire_step(s0, s1, g, ran_init),
    ensures
        !ran_init,
        g.value() == v,
{
}

} // verus!
