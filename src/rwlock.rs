//! A reader-writer lock on two words: a reader count and a lock state.
//!
//! A reader first registers in the reader count (waiting while the count
//! holds `READERS_CLAIMED`, the mark of an unlock in progress), then takes the
//! state from `UNLOCKED` to `READ_LOCK`, or finds it `READ_LOCK` already and
//! joins; a `WRITE_LOCK` sends it to sleep. A writer takes the state from
//! `UNLOCKED` to `WRITE_LOCK`, sleeping otherwise. The last reader to leave
//! claims the count with the mark, frees the state and wakes a writer; a
//! reader that registered in the meantime keeps the lock read-locked.
//!
//! Writers have no priority over readers that keep arriving.
use vstd::prelude::*;

verus! {

pub const UNLOCKED: u32 = 0;
pub const READ_LOCK: u32 = 1;
pub const WRITE_LOCK: u32 = 2;

/// The reader count while the last reader is unlocking.
pub const READERS_CLAIMED: u32 = u32::MAX;

/// A lock that cannot take one more reader.
#[derive(Debug, Clone, Copy, PartialEq, Eq, Structural)]
pub enum RwLockError {
    TooManyReaders,
}

/// Where a reader is in taking the lock.
#[derive(Debug, Clone, Copy, PartialEq, Eq, Structural)]
pub enum ReadPhase {
    /// Load the reader count.
    Load,
    /// Compare-and-swap the reader count from this value to one more.
    Register(u32),
    /// Compare-and-swap the state from `UNLOCKED` to `READ_LOCK` (acquire),
    /// reporting the value found.
    Acquire,
    /// Sleep while the state holds `WRITE_LOCK`.
    Sleep,
    /// The lock is read-locked for this reader; `true` when an acquire fence
    /// is still owed, since it joined other readers without writing.
    Acquired(bool),
    /// The reader count is full.
    Full,
}

/// What a reader does with a reader count `seen`: wait while it is claimed,
/// give up when it is full, else try to add itself.
pub open spec fn register_spec(seen: u32) -> ReadPhase {
    if seen == READERS_CLAIMED {
        ReadPhase::Load
    } else if seen >= READERS_CLAIMED - 1 {
        ReadPhase::Full
    } else {
        ReadPhase::Register(seen)
    }
}

/// The phase after `p` once its operation reported `seen`.
pub open spec fn read_next_spec(p: ReadPhase, seen: u32) -> ReadPhase {
    match p {
        ReadPhase::Load => register_spec(seen),
        ReadPhase::Register(c) => if seen == c {
            ReadPhase::Acquire
        } else {
            register_spec(seen)
        },
        ReadPhase::Acquire => if seen == UNLOCKED {
            ReadPhase::Acquired(false)
        } else if seen == READ_LOCK {
            ReadPhase::Acquired(true)
        } else {
            ReadPhase::Sleep
        },
        ReadPhase::Sleep => ReadPhase::Acquire,
        _ => p,
    }
}

fn register(seen: u32) -> (r: ReadPhase)
    ensures
        r == register_spec(seen),
{
    if seen == READERS_CLAIMED {
        ReadPhase::Load
    } else if seen >= READERS_CLAIMED - 1 {
        ReadPhase::Full
    } else {
        ReadPhase::Register(seen)
    }
}

/// The phase after `p` of a reader, given what its operation reported. In
/// `Register(c)` the compare-and-swap succeeded exactly when it reports `c`.
pub fn read_step(p: ReadPhase, seen: u32) -> (r: ReadPhase)
    ensures
        r == read_next_spec(p, seen),
{
    match p {
        ReadPhase::Load => register(seen),
        ReadPhase::Register(c) => if seen == c {
            ReadPhase::Acquire
        } else {
            register(seen)
        },
        ReadPhase::Acquire => if seen == UNLOCKED {
            ReadPhase::Acquired(false)
        } else if seen == READ_LOCK {
            ReadPhase::Acquired(true)
        } else {
            ReadPhase::Sleep
        },
        ReadPhase::Sleep => ReadPhase::Acquire,
        _ => p,
    }
}

/// Where a writer is in taking the lock.
#[derive(Debug, Clone, Copy, PartialEq, Eq, Structural)]
pub enum WritePhase {
    /// Compare-and-swap the state from `UNLOCKED` to `WRITE_LOCK` (acquire),
    /// reporting the value found.
    Acquire,
    /// Sleep while the state still holds this value.
    Sleep(u32),
    /// The lock is write-locked for this writer.
    Acquired,
}

pub open spec fn write_next_spec(p: WritePhase, seen: u32) -> WritePhase {
    match p {
        WritePhase::Acquire => if seen == UNLOCKED {
            WritePhase::Acquired
        } else {
            WritePhase::Sleep(seen)
        },
        WritePhase::Sleep(_) => WritePhase::Acquire,
        WritePhase::Acquired => WritePhase::Acquired,
    }
}

/// The phase after `p` of a writer, given what its operation reported.
pub fn write_step(p: WritePhase, seen: u32) -> (r: WritePhase)
    ensures
        r == write_next_spec(p, seen),
{
    match p {
        WritePhase::Acquire => if seen == UNLOCKED {
            WritePhase::Acquired
        } else {
            WritePhase::Sleep(seen)
        },
        WritePhase::Sleep(_) => WritePhase::Acquire,
        WritePhase::Acquired => WritePhase::Acquired,
    }
}

/// Where a leaving reader is.
#[derive(Debug, Clone, Copy, PartialEq, Eq, Structural)]
pub enum ReadUnlockPhase {
    /// Decrement the reader count (release), reporting the old count.
    Leave,
    /// Compare-and-swap the reader count from 0 to `READERS_CLAIMED`,
    /// reporting the value found.
    Claim,
    /// Store `UNLOCKED` in the state (release), store 0 in the reader count,
    /// and wake one writer.
    Release,
    /// Nothing more to do.
    Done,
}

pub open spec fn read_unlock_next_spec(p: ReadUnlockPhase, seen: u32) -> ReadUnlockPhase {
    match p {
        ReadUnlockPhase::Leave => if seen > 1 {
            ReadUnlockPhase::Done
        } else {
            ReadUnlockPhase::Claim
        },
        ReadUnlockPhase::Claim => if seen == 0 {
            ReadUnlockPhase::Release
        } else {
            ReadUnlockPhase::Done
        },
        _ => ReadUnlockPhase::Done,
    }
}

/// The phase after `p` of a leaving reader, given what its operation
/// reported: only the last reader claims the count, and only a successful
/// claim frees the lock; a reader that arrived meanwhile keeps it.
pub fn read_unlock_step(p: ReadUnlockPhase, seen: u32) -> (r: ReadUnlockPhase)
    ensures
        r == read_unlock_next_spec(p, seen),
{
    match p {
        ReadUnlockPhase::Leave => if seen > 1 {
            ReadUnlockPhase::Done
        } else {
            ReadUnlockPhase::Claim
        },
        ReadUnlockPhase::Claim => if seen == 0 {
            ReadUnlockPhase::Release
        } else {
            ReadUnlockPhase::Done
        },
        _ => ReadUnlockPhase::Done,
    }
}

/// Whether a writer that stored `UNLOCKED` and then saw `readers` registered
/// must wake every sleeper.
pub fn write_unlock_step(readers: u32) -> (r: bool)
    ensures
        r == (readers > 0),
{
    readers > 0
}

/// A reader that finds the lock read-locked joins at once, without waiting
/// for the readers already inside; a reader or a writer that finds it
/// write-locked sleeps; a writer that finds it read-locked sleeps too.
pub proof fn lemma_readers_share_writers_exclude()
    ensures
        read_next_spec(ReadPhase::Acquire, READ_LOCK) == ReadPhase::Acquired(true),
        read_next_spec(ReadPhase::Acquire, WRITE_LOCK) == ReadPhase::Sleep,
        write_next_spec(WritePhase::Acquire, READ_LOCK) == WritePhase::Sleep(READ_LOCK),
        write_next_spec(WritePhase::Acquire, WRITE_LOCK) == WritePhase::Sleep(WRITE_LOCK),
{
}

/// A reader or writer enters only from an operation that found the state
/// `UNLOCKED` (writing its own lock state) or, for a reader, `READ_LOCK`.
pub proof fn lemma_enter_only_when_compatible(r: ReadPhase, w: WritePhase, seen: u32)
    ensures
        r == ReadPhase::Acquire && read_next_spec(r, seen) is Acquired ==> (seen == UNLOCKED
            || seen == READ_LOCK),
        w == WritePhase::Acquire && write_next_spec(w, seen) is Acquired ==> seen == UNLOCKED,
{
}

/// A leaving reader frees the lock only when it was the last one and its
/// claim found no reader registered.
pub proof fn lemma_only_last_reader_frees(prev: u32, claim_seen: u32)
    ensures
        read_unlock_next_spec(
            read_unlock_next_spec(ReadUnlockPhase::Leave, prev),
            claim_seen,
        ) == ReadUnlockPhase::Release ==> prev <= 1 && claim_seen == 0,
{
}

/// The words of a reader-writer lock.
pub struct RwWords {
    pub readers: int,
    pub state: u32,
}

/// The words are consistent: readers are registered exactly while the lock
/// is read-locked, and a write lock has none.
pub open spec fn words_wf(w: RwWords) -> bool {
    &&& 0 <= w.readers < READERS_CLAIMED
    &&& (w.state == UNLOCKED || w.state == READ_LOCK || w.state == WRITE_LOCK)
    &&& (w.state == READ_LOCK <==> w.readers > 0)
}

/// The words after a reader enters.
pub open spec fn read_spec(w: RwWords) -> RwWords {
    RwWords { readers: w.readers + 1, state: READ_LOCK }
}

/// The words after a reader leaves.
pub open spec fn read_unlock_spec(w: RwWords) -> RwWords {
    if w.readers == 1 {
        RwWords { readers: 0, state: UNLOCKED }
    } else {
        RwWords { readers: w.readers - 1, state: w.state }
    }
}

/// After a writer leaves.
pub open spec fn write_unlock_spec(w: RwWords) -> RwWords {
    RwWords { readers: w.readers, state: UNLOCKED }
}

/// Readers hold the lock together, and it stays read-locked, so that a
/// writer's attempt fails, until the last of them has left; then a writer's
/// attempt succeeds.
pub proof fn lemma_writer_waits_for_readers(w: RwWords)
    requires
        words_wf(w),
        w.state == UNLOCKED,
    ensures
        ({
            let two = read_spec(read_spec(w));
            let one = read_unlock_spec(two);
            let none = read_unlock_spec(one);
            &&& two.state == READ_LOCK
            &&& one.state == READ_LOCK
            &&& write_next_spec(WritePhase::Acquire, one.state) is Sleep
            &&& none.state == UNLOCKED
            &&& write_next_spec(WritePhase::Acquire, none.state) == WritePhase::Acquired
        }),
{
}

/// A reader-writer lock guarding a value.
pub struct RwLock<T> {
    readers: u32,
    state: u32,
    /// The value, except while a writer holds it.
    data: Option<T>,
}

/// The proof that a reader holds the lock.
pub struct RLockGuard {}

/// The proof that a writer holds the lock, and the value while it does.
pub struct WLockGuard<T> {
    data: T,
}

impl<T> View for WLockGuard<T> {
    type V = T;

    closed spec fn view(&self) -> T {
        self.data
    }
}

impl<T> WLockGuard<T> {
    pub fn get(&self) -> (r: &T)
        ensures
            *r == self@,
    {
        &self.data
    }

    pub fn get_mut(&mut self) -> (r: &mut T)
        ensures
            *r == old(self)@,
            final(self)@ == *final(r),
    {
        &mut self.data
    }
}

impl<T> RwLock<T> {
    pub closed spec fn words(&self) -> RwWords {
        RwWords { readers: self.readers as int, state: self.state }
    }

    /// The value, except while a writer holds it.
    pub closed spec fn value(&self) -> Option<T> {
        self.data
    }

    pub open spec fn wf(&self) -> bool {
        &&& words_wf(self.words())
        &&& (self.value() is None <==> self.words().state == WRITE_LOCK)
    }

    pub fn new(data: T) -> (l: Self)
        ensures
            l.wf(),
            l.words() == (RwWords { readers: 0, state: UNLOCKED }),
            l.value() == Some(data),
    {
        RwLock { readers: 0, state: UNLOCKED, data: Some(data) }
    }

    /// The number of readers inside.
    pub fn readers(&self) -> (r: u32)
        ensures
            r == self.words().readers,
    {
        self.readers
    }

    pub fn is_write_locked(&self) -> (r: bool)
        ensures
            r == (self.words().state == WRITE_LOCK),
    {
        self.state == WRITE_LOCK
    }

    pub fn is_read_locked(&self) -> (r: bool)
        ensures
            r == (self.words().state == READ_LOCK),
    {
        self.state == READ_LOCK
    }

    /// Enters as a reader. The lock must not be write-locked, since a reader
    /// would wait for the writer; a full reader count is refused.
    pub fn read(&mut self) -> (r: Result<RLockGuard, RwLockError>)
        requires
            old(self).wf(),
            old(self).words().state != WRITE_LOCK,
        ensures
            final(self).wf(),
            r is Ok <==> old(self).words().readers < READERS_CLAIMED - 1,
            r is Ok ==> final(self).words() == read_spec(old(self).words()),
            r is Err ==> final(self).words() == old(self).words(),
            final(self).value() == old(self).value(),
    {
        let p = read_step(ReadPhase::Load, self.readers);
        let c = match p {
            ReadPhase::Register(c) => c,
            _ => {
                return Err(RwLockError::TooManyReaders);
            },
        };
        let seen = self.readers;
        self.readers = c + 1;
        let p = read_step(p, seen);
        assert(p == ReadPhase::Acquire);
        let seen = self.state;
        if seen == UNLOCKED {
            self.state = READ_LOCK;
        }
        let p = read_step(p, seen);
        assert(p is Acquired);
        Ok(RLockGuard {})
    }

    /// The value, to a reader inside.
    pub fn get<'a>(&'a self, guard: &'a RLockGuard) -> (r: &'a T)
        requires
            self.wf(),
            self.words().state == READ_LOCK,
        ensures
            Some(*r) == self.value(),
    {
        self.data.as_ref().unwrap()
    }

    /// Leaves as a reader. Returns whether a writer must be woken: the last
    /// reader frees the lock.
    pub fn read_unlock(&mut self, guard: RLockGuard) -> (wake: bool)
        requires
            old(self).wf(),
            old(self).words().state == READ_LOCK,
        ensures
            final(self).wf(),
            final(self).words() == read_unlock_spec(old(self).words()),
            final(self).value() == old(self).value(),
            wake == (old(self).words().readers == 1),
    {
        let prev = self.readers;
        self.readers = prev - 1;
        let p = read_unlock_step(ReadUnlockPhase::Leave, prev);
        if p == ReadUnlockPhase::Done {
            return false;
        }
        let seen = self.readers;
        if seen == 0 {
            self.readers = READERS_CLAIMED;
        }
        let p = read_unlock_step(p, seen);
        if p == ReadUnlockPhase::Release {
            self.state = UNLOCKED;
            self.readers = 0;
            true
        } else {
            false
        }
    }

    /// Enters as a writer. The lock must be free, since a writer would wait.
    pub fn write(&mut self) -> (g: WLockGuard<T>)
        requires
            old(self).wf(),
            old(self).words().state == UNLOCKED,
        ensures
            final(self).wf(),
            final(self).words() == (RwWords { state: WRITE_LOCK, ..old(self).words() }),
            g@ == old(self).value()->Some_0,
    {
        let seen = self.state;
        if seen == UNLOCKED {
            self.state = WRITE_LOCK;
        }
        let p = write_step(WritePhase::Acquire, seen);
        assert(p == WritePhase::Acquired);
        WLockGuard { data: self.data.take().unwrap() }
    }

    /// Leaves as a writer with the value that the guard holds. Returns
    /// whether every sleeper must be woken: only readers are ever waited for.
    pub fn write_unlock(&mut self, guard: WLockGuard<T>) -> (wake_all: bool)
        requires
            old(self).wf(),
            old(self).words().state == WRITE_LOCK,
        ensures
            final(self).wf(),
            final(self).words() == write_unlock_spec(old(self).words()),
            final(self).value() == Some(guard@),
            wake_all == (old(self).words().readers > 0),
    {
        self.state = UNLOCKED;
        self.data = Some(guard.data);
        write_unlock_step(self.readers)
    }
}

} // verus!
