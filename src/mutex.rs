//! A blocking mutex built on one state word.
//!
//! The word is `UNLOCKED`, `LOCKED_UNCONTENDED` or `LOCKED_CONTENDED`. A
//! locker first tries one compare-and-swap; failing that it spins a bounded
//! number of times while the holder is alone, retries, and then marks the lock
//! contended and sleeps on the word until a swap finds it unlocked. Unlock
//! wakes one sleeper only when the word says that there may be one.
//!
//! `lock_action` and `lock_step` are that procedure, one atomic operation at a
//! time. `Mutex<T>` is the lock as one thread sees it between operations: the
//! state word and the guarded value, which a guard holds while the lock is
//! taken.
use vstd::prelude::*;

verus! {

pub const UNLOCKED: u32 = 0;
pub const LOCKED_UNCONTENDED: u32 = 1;
pub const LOCKED_CONTENDED: u32 = 2;

/// How many times a locker looks at a lock held by a lone holder before it
/// goes to sleep.
pub const MAX_SPINS: usize = 100;

/// Where a locker is in its attempt to take the lock.
#[derive(Debug, Clone, Copy, PartialEq, Eq, Structural)]
pub enum LockPhase {
    /// The first, uncontended attempt.
    Fast,
    /// Spinning: this many looks at the word have found a lone holder.
    Spin(usize),
    /// The attempt after spinning.
    Retry,
    /// Marking the lock contended, which also takes it if it was free.
    Mark,
    /// Sleeping until the word changes from `LOCKED_CONTENDED`.
    Sleep,
    /// The lock is taken; `true` when an acquire fence is still owed, since
    /// the operation that took it was relaxed.
    Acquired(bool),
}

/// The atomic operation that a locker performs next.
#[derive(Debug, Clone, Copy, PartialEq, Eq, Structural)]
pub enum LockAction {
    /// Compare-and-swap the word from `UNLOCKED` to `LOCKED_UNCONTENDED`
    /// (acquire on success), reporting the value found.
    TryLock,
    /// Load the word (relaxed), reporting it.
    Load,
    /// Swap `LOCKED_CONTENDED` into the word (relaxed), reporting the value
    /// found.
    MarkContended,
    /// Sleep while the word still holds `LOCKED_CONTENDED`.
    Wait,
    /// Nothing: the lock is taken.
    Done,
}

pub open spec fn lock_action_spec(p: LockPhase) -> LockAction {
    match p {
        LockPhase::Fast => LockAction::TryLock,
        LockPhase::Spin(_) => LockAction::Load,
        LockPhase::Retry => LockAction::TryLock,
        LockPhase::Mark => LockAction::MarkContended,
        LockPhase::Sleep => LockAction::Wait,
        LockPhase::Acquired(_) => LockAction::Done,
    }
}

/// The phase that follows `p` once its action has reported `seen` (a wait
/// reports nothing, and `seen` is then ignored).
pub open spec fn lock_next_spec(p: LockPhase, seen: u32) -> LockPhase {
    match p {
        LockPhase::Fast => if seen == UNLOCKED {
            LockPhase::Acquired(false)
        } else {
            LockPhase::Spin(0)
        },
        LockPhase::Spin(n) => if seen == LOCKED_UNCONTENDED && n + 1 < MAX_SPINS {
            LockPhase::Spin((n + 1) as usize)
        } else {
            LockPhase::Retry
        },
        LockPhase::Retry => if seen == UNLOCKED {
            LockPhase::Acquired(false)
        } else {
            LockPhase::Mark
        },
        LockPhase::Mark => if seen == UNLOCKED {
            LockPhase::Acquired(true)
        } else {
            LockPhase::Sleep
        },
        LockPhase::Sleep => LockPhase::Mark,
        LockPhase::Acquired(f) => LockPhase::Acquired(f),
    }
}

/// A phase that a locker can be in: a spin count stays below its bound.
pub open spec fn phase_wf(p: LockPhase) -> bool {
    match p {
        LockPhase::Spin(n) => n < MAX_SPINS,
        _ => true,
    }
}

/// The operation to perform in phase `p`.
pub fn lock_action(p: LockPhase) -> (r: LockAction)
    ensures
        r == lock_action_spec(p),
{
    match p {
        LockPhase::Fast => LockAction::TryLock,
        LockPhase::Spin(_) => LockAction::Load,
        LockPhase::Retry => LockAction::TryLock,
        LockPhase::Mark => LockAction::MarkContended,
        LockPhase::Sleep => LockAction::Wait,
        LockPhase::Acquired(_) => LockAction::Done,
    }
}

/// The phase after `p`, given what its operation reported.
pub fn lock_step(p: LockPhase, seen: u32) -> (r: LockPhase)
    requires
        phase_wf(p),
    ensures
        r == lock_next_spec(p, seen),
        phase_wf(r),
{
    match p {
        LockPhase::Fast => if seen == UNLOCKED {
            LockPhase::Acquired(false)
        } else {
            LockPhase::Spin(0)
        },
        LockPhase::Spin(n) => if seen == LOCKED_UNCONTENDED && n + 1 < MAX_SPINS {
            LockPhase::Spin(n + 1)
        } else {
            LockPhase::Retry
        },
        LockPhase::Retry => if seen == UNLOCKED {
            LockPhase::Acquired(false)
        } else {
            LockPhase::Mark
        },
        LockPhase::Mark => if seen == UNLOCKED {
            LockPhase::Acquired(true)
        } else {
            LockPhase::Sleep
        },
        LockPhase::Sleep => LockPhase::Mark,
        LockPhase::Acquired(f) => LockPhase::Acquired(f),
    }
}

/// Whether an unlock that found `prev` in the word (swapping `UNLOCKED` in)
/// must wake a sleeper: only a contended lock can have one.
pub fn unlock_step(prev: u32) -> (r: bool)
    ensures
        r == (prev == LOCKED_CONTENDED),
{
    prev == LOCKED_CONTENDED
}

/// A locker takes the lock only from an operation that found the word
/// `UNLOCKED` while writing a locked value into it, so two lockers never hold
/// it at once; and a wait is always followed by another marking swap.
pub proof fn lemma_acquire_only_from_unlocked(p: LockPhase, seen: u32)
    requires
        !(p is Acquired),
        lock_next_spec(p, seen) is Acquired,
    ensures
        seen == UNLOCKED,
        lock_action_spec(p) == LockAction::TryLock || lock_action_spec(p)
            == LockAction::MarkContended,
{
}

/// A locker that found the word free on its first attempt takes the lock at
/// once, with no spinning and no sleep.
pub proof fn lemma_uncontended_fast_path()
    ensures
        lock_next_spec(LockPhase::Fast, UNLOCKED) == LockPhase::Acquired(false),
{
}

/// A locker does not spin forever: after at most `MAX_SPINS` looks it moves
/// on to the retry, whatever it saw.
pub proof fn lemma_spin_bounded(n: usize, seen: u32)
    requires
        n + 1 == MAX_SPINS,
    ensures
        lock_next_spec(LockPhase::Spin(n), seen) == LockPhase::Retry,
{
}

/// The state word after a locker performs the action of `p` on `word`, and
/// the value that the action reports. A wait changes nothing; it may return
/// at once.
pub open spec fn perform_spec(p: LockPhase, word: u32) -> (u32, u32) {
    match lock_action_spec(p) {
        LockAction::TryLock => (if word == UNLOCKED {
            LOCKED_UNCONTENDED
        } else {
            word
        }, word),
        LockAction::MarkContended => (LOCKED_CONTENDED, word),
        _ => (word, word),
    }
}

/// The lock's exclusion invariant over the state word and the number of
/// lockers that hold the lock: at most one holds it, and the word is locked
/// exactly while one does.
pub open spec fn exclusion_inv(word: u32, holders: int) -> bool {
    &&& 0 <= holders <= 1
    &&& (word == UNLOCKED || word == LOCKED_UNCONTENDED || word == LOCKED_CONTENDED)
    &&& (holders == 1 <==> word != UNLOCKED)
}

/// Mutual exclusion, for any number of lockers in any interleaving of their
/// atomic operations: a step by a locker that does not hold the lock keeps
/// the invariant, counting it as a holder once it has taken the lock, and it
/// takes the lock only when nobody holds it; an unlock by the holder keeps the
/// invariant too. So no two lockers are ever inside together, and no update
/// made under the lock is lost.
pub proof fn lemma_mutual_exclusion(word: u32, holders: int, p: LockPhase)
    requires
        exclusion_inv(word, holders),
        !(p is Acquired),
    ensures
        ({
            let (after, seen) = perform_spec(p, word);
            let took = lock_next_spec(p, seen) is Acquired;
            &&& took ==> holders == 0
            &&& exclusion_inv(after, if took {
                holders + 1
            } else {
                holders
            })
        }),
        holders == 1 ==> exclusion_inv(UNLOCKED, 0),
{
}

/// A blocking mutual exclusion lock guarding a value.
pub struct Mutex<T> {
    /// 0: unlocked; 1: locked, with no contention; 2: locked, with other
    /// threads waiting.
    state: u32,
    /// The value while the lock is free; a guard holds it while not.
    data: Option<T>,
}

/// The proof that the lock is held, and the guarded value while it is.
pub struct MutexGuard<T> {
    data: T,
}

impl<T> Mutex<T> {
    /// The state word.
    pub closed spec fn state(&self) -> u32 {
        self.state
    }

    /// The guarded value while the lock is free.
    pub closed spec fn value(&self) -> Option<T> {
        self.data
    }

    /// The value is inside exactly while the lock is free.
    pub open spec fn wf(&self) -> bool {
        &&& (self.state() == UNLOCKED || self.state() == LOCKED_UNCONTENDED || self.state()
            == LOCKED_CONTENDED)
        &&& (self.value() is Some <==> self.state() == UNLOCKED)
    }

    pub fn new(data: T) -> (m: Self)
        ensures
            m.wf(),
            m.state() == UNLOCKED,
            m.value() == Some(data),
    {
        Mutex { state: UNLOCKED, data: Some(data) }
    }

    pub fn is_locked(&self) -> (r: bool)
        ensures
            r == (self.state() != UNLOCKED),
    {
        self.state != UNLOCKED
    }

    /// Performs the operation of a locker in phase `p` on this lock, as one
    /// locker among others. Returns the locker's next phase and, once it has
    /// taken the lock, the guard.
    pub fn attempt(&mut self, p: LockPhase) -> (r: (LockPhase, Option<MutexGuard<T>>))
        requires
            old(self).wf(),
            phase_wf(p),
            !(p is Acquired),
        ensures
            final(self).wf(),
            final(self).state() == perform_spec(p, old(self).state()).0,
            r.0 == lock_next_spec(p, perform_spec(p, old(self).state()).1),
            phase_wf(r.0),
            r.1 is Some <==> r.0 is Acquired,
            r.1 is Some ==> r.1->Some_0@ == old(self).value()->Some_0,
            r.1 is None ==> final(self).value() == old(self).value(),
    {
        let seen = self.state;
        match lock_action(p) {
            LockAction::TryLock => {
                if seen == UNLOCKED {
                    self.state = LOCKED_UNCONTENDED;
                }
            },
            LockAction::MarkContended => {
                self.state = LOCKED_CONTENDED;
            },
            _ => {},
        }
        let next = lock_step(p, seen);
        match next {
            LockPhase::Acquired(_) => (next, Some(MutexGuard { data: self.data.take().unwrap() })),
            _ => (next, None),
        }
    }

    /// Takes the lock, which must be free: the first attempt finds it
    /// unlocked, so the guard comes without spinning or sleeping.
    pub fn lock(&mut self) -> (g: MutexGuard<T>)
        requires
            old(self).wf(),
            old(self).state() == UNLOCKED,
        ensures
            final(self).wf(),
            final(self).state() == LOCKED_UNCONTENDED,
            g@ == old(self).value()->Some_0,
    {
        let seen = self.state;
        if seen == UNLOCKED {
            self.state = LOCKED_UNCONTENDED;
        }
        let phase = lock_step(LockPhase::Fast, seen);
        assert(phase == LockPhase::Acquired(false));
        MutexGuard { data: self.data.take().unwrap() }
    }

    /// Gives the lock back with the value that the guard holds. Returns
    /// whether a sleeping locker must be woken.
    pub fn unlock(&mut self, guard: MutexGuard<T>) -> (wake: bool)
        requires
            old(self).wf(),
            old(self).state() != UNLOCKED,
        ensures
            final(self).wf(),
            final(self).state() == UNLOCKED,
            final(self).value() == Some(guard@),
            wake == (old(self).state() == LOCKED_CONTENDED),
    {
        let prev = self.state;
        self.state = UNLOCKED;
        self.data = Some(guard.data);
        unlock_step(prev)
    }
}

impl<T> View for MutexGuard<T> {
    type V = T;

    /// The guarded value.
    closed spec fn view(&self) -> T {
        self.data
    }
}

impl<T> MutexGuard<T> {
    pub fn get(&self) -> (r: &T)
        ensures
            *r == self@,
    {
        &self.data
    }

    pub fn get_mut(&mut self) -> (r: &mut T)
        ensures
            *r == old(self)@,
            final(self)@ == *final(r),
    {
        &mut self.data
    }
}

} // verus!
