//! A condition variable on top of the mutex.
//!
//! A waiter registers, samples the notification counter while it still holds
//! the lock, unlocks, and sleeps only while the counter still holds the
//! sampled value; a notification that comes between the unlock and the sleep
//! has changed the counter, so it is not lost. A notifier bumps the counter
//! and wakes sleepers only when some waiter is registered. Wake-ups may be
//! spurious: callers check their condition again in a loop.
use vstd::prelude::*;
use crate::mutex::{Mutex, MutexGuard, UNLOCKED, LOCKED_UNCONTENDED};

verus! {

/// The counter after one more notification; it wraps around.
pub open spec fn bump_spec(c: u32) -> u32 {
    if c == u32::MAX {
        0
    } else {
        (c + 1) as u32
    }
}

/// The counter value that a notification stores after finding `c`.
pub fn bump(c: u32) -> (r: u32)
    ensures
        r == bump_spec(c),
        r != c,
{
    if c == u32::MAX {
        0
    } else {
        c + 1
    }
}

/// Whether a notification that found `waiters` registered must bump the
/// counter and wake: with no waiter there is nobody to tell.
pub fn notify_step(waiters: usize) -> (r: bool)
    ensures
        r == (waiters > 0),
{
    waiters > 0
}

/// The words of a condition variable.
pub struct CondvarWords {
    pub counter: u32,
    pub waiters: int,
}

/// The words after a notification.
pub open spec fn notify_spec(w: CondvarWords) -> CondvarWords {
    if w.waiters > 0 {
        CondvarWords { counter: bump_spec(w.counter), ..w }
    } else {
        w
    }
}

/// The words after a waiter registers.
pub open spec fn register_spec(w: CondvarWords) -> CondvarWords {
    CondvarWords { waiters: w.waiters + 1, ..w }
}

/// A notification that comes after a waiter registered and sampled the
/// counter always changes the counter, so the waiter's sleep, which waits
/// only while the counter holds its sample, cannot miss it.
pub proof fn lemma_notify_not_lost(w: CondvarWords)
    requires
        w.waiters >= 0,
    ensures
        notify_spec(register_spec(w)).counter != w.counter,
{
}

/// A notification with no registered waiter changes nothing: it is not kept
/// for a waiter that comes later.
pub proof fn lemma_early_notify_dropped(w: CondvarWords)
    requires
        w.waiters == 0,
    ensures
        notify_spec(w) == w,
{
}

/// What a waiter sampled before unlocking.
pub struct WaitTicket {
    sampled: u32,
}

impl View for WaitTicket {
    type V = u32;

    closed spec fn view(&self) -> u32 {
        self.sampled
    }
}

/// A condition variable: a notification counter and a count of waiters.
pub struct Condvar {
    counter: u32,
    num_waiters: usize,
}

impl Condvar {
    pub closed spec fn words(&self) -> CondvarWords {
        CondvarWords { counter: self.counter, waiters: self.num_waiters as int }
    }

    pub fn new() -> (c: Self)
        ensures
            c.words() == (CondvarWords { counter: 0, waiters: 0 }),
    {
        Condvar { counter: 0, num_waiters: 0 }
    }

    /// The number of registered waiters.
    pub fn waiters(&self) -> (r: usize)
        ensures
            r == self.words().waiters,
    {
        self.num_waiters
    }

    /// The first half of a wait: registers, samples the counter and gives the
    /// lock back with the value that the guard holds.
    pub fn wait_begin<T>(&mut self, mutex: &mut Mutex<T>, guard: MutexGuard<T>) -> (t: WaitTicket)
        requires
            old(self).words().waiters < usize::MAX,
            old(mutex).wf(),
            old(mutex).state() != UNLOCKED,
        ensures
            final(self).words() == register_spec(old(self).words()),
            t@ == old(self).words().counter,
            final(mutex).wf(),
            final(mutex).state() == UNLOCKED,
            final(mutex).value() == Some(guard@),
    {
        self.num_waiters = self.num_waiters + 1;
        let sampled = self.counter;
        let _ = mutex.unlock(guard);
        WaitTicket { sampled }
    }

    /// Whether a waiter with this ticket would sleep now: only while no
    /// notification has come since it sampled.
    pub fn would_sleep(&self, ticket: &WaitTicket) -> (r: bool)
        ensures
            r == (self.words().counter == ticket@),
    {
        self.counter == ticket.sampled
    }

    /// The second half of a wait: unregisters and takes the lock again.
    pub fn wait_end<T>(&mut self, mutex: &mut Mutex<T>, ticket: WaitTicket) -> (g: MutexGuard<T>)
        requires
            old(self).words().waiters > 0,
            old(mutex).wf(),
            old(mutex).state() == UNLOCKED,
        ensures
            final(self).words() == (CondvarWords {
                waiters: old(self).words().waiters - 1,
                ..old(self).words()
            }),
            final(mutex).wf(),
            final(mutex).state() == LOCKED_UNCONTENDED,
            g@ == old(mutex).value()->Some_0,
    {
        self.num_waiters = self.num_waiters - 1;
        mutex.lock()
    }

    /// A whole wait with a spurious wake-up: the lock is given back and taken
    /// again, and the caller must check its condition again.
    pub fn wait<T>(&mut self, mutex: &mut Mutex<T>, guard: MutexGuard<T>) -> (g: MutexGuard<T>)
        requires
            old(self).words().waiters < usize::MAX,
            old(mutex).wf(),
            old(mutex).state() != UNLOCKED,
        ensures
            final(self).words() == old(self).words(),
            final(mutex).wf(),
            final(mutex).state() == LOCKED_UNCONTENDED,
            g@ == guard@,
    {
        let t = self.wait_begin(mutex, guard);
        self.wait_end(mutex, t)
    }

    /// Notifies one waiter. Returns whether one must be woken.
    pub fn notify_one(&mut self) -> (wake: bool)
        ensures
            final(self).words() == notify_spec(old(self).words()),
            wake == (old(self).words().waiters > 0),
    {
        let wake = notify_step(self.num_waiters);
        if wake {
            self.counter = bump(self.counter);
        }
        wake
    }

    /// Notifies every waiter. Returns whether any must be woken.
    pub fn notify_all(&mut self) -> (wake: bool)
        ensures
            final(self).words() == notify_spec(old(self).words()),
            wake == (old(self).words().waiters > 0),
    {
        let wake = notify_step(self.num_waiters);
        if wake {
            self.counter = bump(self.counter);
        }
        wake
    }
}

} // verus!
