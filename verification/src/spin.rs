//! A value behind the spin lock of `spinning_top`.
//!
//! The lock and its guard are generic over traits of `lock_api`, which Verus
//! cannot take as bounds, so both are kept whole inside structs that Verus does
//! not look into. Nothing is claimed of the protected value: between two
//! acquisitions any thread may have changed it. What holds of it is what its own
//! type guarantees.

use vstd::prelude::*;
use spinning_top::guard::SpinlockGuard;
use spinning_top::Spinlock;

verus! {

/// A `spinning_top::Spinlock` and the value it protects.
#[verifier::external_body]
#[verifier::reject_recursive_types(T)]
pub struct SpinLock<T> {
    inner: Spinlock<T>,
}

/// A `spinning_top::guard::SpinlockGuard`: proof that the lock is held, and the
/// only way to the protected value.
#[verifier::external_body]
#[verifier::reject_recursive_types(T)]
pub struct SpinGuard<'a, T> {
    inner: SpinlockGuard<'a, T>,
}

impl<T> SpinLock<T> {
    /// `Spinlock::new`: an unlocked lock around `value`.
    #[verifier::external_body]
    pub(crate) fn new(value: T) -> SpinLock<T> {
        SpinLock { inner: Spinlock::new(value) }
    }

    /// `Spinlock::lock`: spins until the lock is acquired. It never returns on a
    /// thread that already holds this lock, so callers here release the guard
    /// before they acquire again.
    #[verifier::external_body]
    pub(crate) fn lock(&self) -> SpinGuard<'_, T> {
        SpinGuard { inner: self.inner.lock() }
    }
}

impl<'a, T> SpinGuard<'a, T> {
    /// The guard's `DerefMut`: exclusive access to the protected value for as
    /// long as the guard is borrowed.
    #[verifier::external_body]
    pub(crate) fn value(&mut self) -> &mut T {
        &mut self.inner
    }

    /// Drops the guard, which releases the lock.
    #[verifier::external_body]
    pub(crate) fn unlock(self) {
        drop(self.inner)
    }
}

} // verus!
