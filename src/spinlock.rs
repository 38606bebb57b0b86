//! A spinning lock on one flag.
//!
//! A locker swaps `true` into the flag (acquire) until the swap returns
//! `false`; unlocking stores `false` (release). It never sleeps and promises
//! no fairness.
use vstd::prelude::*;

verus! {

/// Whether a locker whose swap found `prev` in the flag now holds the lock.
pub fn spin_step(prev: bool) -> (acquired: bool)
    ensures
        acquired == swap_takes(prev),
{
    !prev
}

/// Whether a swap of `true` that found `prev` in the flag takes the lock.
pub open spec fn swap_takes(prev: bool) -> bool {
    !prev
}

/// At most one locker holds the lock, and the flag is set exactly while one
/// does.
pub open spec fn exclusion_inv(locked: bool, holders: int) -> bool {
    &&& 0 <= holders <= 1
    &&& (holders == 1 <==> locked)
}

/// Mutual exclusion, for any number of lockers in any interleaving: a swap
/// of `true` takes the lock only when nobody holds it and keeps the
/// invariant, counting the swapper as a holder once it has the lock; the
/// holder's store of `false` keeps it too.
pub proof fn lemma_mutual_exclusion(locked: bool, holders: int)
    requires
        exclusion_inv(locked, holders),
    ensures
        swap_takes(locked) ==> holders == 0,
        exclusion_inv(true, if swap_takes(locked) {
            holders + 1
        } else {
            holders
        }),
        holders == 1 ==> exclusion_inv(false, 0),
{
}

/// A busy-waiting mutual exclusion lock guarding a value.
pub struct SpinLock<T> {
    locked: bool,
    /// The value while the lock is free; a guard holds it while not.
    data: Option<T>,
}

/// The proof that the lock is held, and the value while it is.
pub struct SpinLockGuard<T> {
    data: T,
}

impl<T> View for SpinLockGuard<T> {
    type V = T;

    closed spec fn view(&self) -> T {
        self.data
    }
}

impl<T> SpinLockGuard<T> {
    pub fn get(&self) -> (r: &T)
        ensures
            *r == self@,
    {
        &self.data
    }

    pub fn get_mut(&mut self) -> (r: &mut T)
        ensures
            *r == old(self)@,
            final(self)@ == *final(r),
    {
        &mut self.data
    }
}

impl<T> SpinLock<T> {
    pub closed spec fn locked(&self) -> bool {
        self.locked
    }

    pub closed spec fn value(&self) -> Option<T> {
        self.data
    }

    /// The value is inside exactly while the lock is free.
    pub open spec fn wf(&self) -> bool {
        self.value() is Some <==> !self.locked()
    }

    pub fn new(data: T) -> (l: Self)
        ensures
            l.wf(),
            !l.locked(),
            l.value() == Some(data),
    {
        SpinLock { locked: false, data: Some(data) }
    }

    pub fn is_locked(&self) -> (r: bool)
        ensures
            r == self.locked(),
    {
        self.locked
    }

    /// Takes the lock, which must be free: the first swap finds it free.
    pub fn lock(&mut self) -> (g: SpinLockGuard<T>)
        requires
            old(self).wf(),
            !old(self).locked(),
        ensures
            final(self).wf(),
            final(self).locked(),
            g@ == old(self).value()->Some_0,
    {
        let prev = self.locked;
        self.locked = true;
        let acquired = spin_step(prev);
        assert(acquired);
        SpinLockGuard { data: self.data.take().unwrap() }
    }

    /// Gives the lock back with the value that the guard holds.
    pub fn unlock(&mut self, guard: SpinLockGuard<T>)
        requires
            old(self).wf(),
            old(self).locked(),
        ensures
            final(self).wf(),
            !final(self).locked(),
            final(self).value() == Some(guard@),
    {
        self.locked = false;
        self.data = Some(guard.data);
    }
}

} // verus!
