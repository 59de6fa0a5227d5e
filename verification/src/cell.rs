use vstd::prelude::*;

verus! {

#[verifier::external_type_specification]
#[verifier::external_body]
#[verifier::reject_recursive_types(T)]
#[verifier::reject_recursive_types(R)]
pub struct ExSpinMutex<T: ?Sized, R>(spin::mutex::Mutex<T, R>);

#[verifier::external_type_specification]
#[verifier::external_body]
pub struct ExSpinRelax(spin::relax::Spin);

/// Relies on spin::Mutex::new: creates the lock in its unlocked state,
/// wrapping the given value.
#[verifier::external_body]
fn mutex_new<T>(value: T) -> (m: spin::Mutex<T>) {
    spin::Mutex::new(value)
}

/// Relies on spin::Mutex::lock: spins until the lock is free, acquires it,
/// and returns a guard through which the protected value can be mutated; the
/// guard releases the lock when it drops, here after `f` returns. The value
/// the guard exposes is whatever the completed critical sections before this
/// one left behind, so of the result only this much holds of every outcome:
/// it is an output that `f` can produce from some value of the payload type.
#[verifier::external_body]
fn lock_apply<T, U, F: FnOnce(&mut T) -> U>(m: &spin::Mutex<T>, f: F) -> (r: U)
    requires
        forall|t: &mut T| call_requires(f, (t,)),
    ensures
        exists|t: &mut T| call_ensures(f, (t,), r),
{
    let mut guard = m.lock();
    f(&mut *guard)
}

/// A lock-protected container owning exactly one instance of `T`. All
/// mutation of the payload goes through [`ExclusiveCell::access`], which
/// serializes it: at most one closure runs against the payload at any
/// instant, and the mutations of one completed critical section are visible
/// to the next one that begins.
#[verifier::reject_recursive_types(T)]
pub struct ExclusiveCell<T> {
    inner: spin::Mutex<T>,
}

impl<T> ExclusiveCell<T> {
    /// Wraps `value` as the cell's payload; the lock starts out free. The
    /// payload is created once, here, and mutated in place thereafter: it is
    /// never replaced wholesale.
    pub fn new(value: T) -> (cell: Self) {
        ExclusiveCell { inner: mutex_new(value) }
    }

    /// Runs `f` with exclusive mutable access to the payload and returns its
    /// result, blocking (by spinning) while another thread holds the lock.
    /// No fairness is guaranteed: a waiter may starve under sustained
    /// contention.
    ///
    /// `f` must never, directly or transitively, re-enter `access` on this
    /// same cell before returning: the lock is not re-entrant, and such a
    /// call spins forever against the lock its own caller holds.
    pub fn access<U, F: FnOnce(&mut T) -> U>(&self, f: F) -> (r: U)
        requires
            forall|t: &mut T| call_requires(f, (t,)),
        ensures
            exists|t: &mut T| call_ensures(f, (t,), r),
    {
        lock_apply(&self.inner, f)
    }
}

} // verus!
