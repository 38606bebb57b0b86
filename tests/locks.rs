use atomics::condvar::{bump, notify_step, Condvar};
use atomics::mutex::Mutex;
use atomics::once_data::{publish_step, OnceData};
use atomics::rwlock::{
    read_step, read_unlock_step, write_step, write_unlock_step, ReadPhase, ReadUnlockPhase,
    RwLock, RwLockError, WritePhase, READERS_CLAIMED, READ_LOCK, UNLOCKED, WRITE_LOCK,
};
use atomics::spinlock::{spin_step, SpinLock};

#[test]
fn spinlock_counts() {
    let mut lock = SpinLock::new(0usize);
    for _ in 0..1000 {
        let mut g = lock.lock();
        assert!(lock.is_locked());
        *g.get_mut() += 1;
        lock.unlock(g);
    }
    assert_eq!(*lock.lock().get(), 1000);
}

#[test]
fn spin_step_cases() {
    assert!(spin_step(false));
    assert!(!spin_step(true));
}

#[test]
fn rwlock_readers_share() {
    let mut lock = RwLock::new(5);
    let r1 = lock.read().unwrap();
    let r2 = lock.read().unwrap();
    assert_eq!(lock.readers(), 2);
    assert!(lock.is_read_locked());
    assert_eq!(*lock.get(&r1), 5);
    assert!(!lock.read_unlock(r1));
    assert!(lock.is_read_locked());
    assert!(lock.read_unlock(r2));
    assert!(!lock.is_read_locked());
}

#[test]
fn rwlock_writer_after_readers() {
    let mut lock = RwLock::new(0);
    let r = lock.read().unwrap();
    lock.read_unlock(r);
    let mut w = lock.write();
    assert!(lock.is_write_locked());
    *w.get_mut() = 9;
    assert!(!lock.write_unlock(w));
    let r = lock.read().unwrap();
    assert_eq!(*lock.get(&r), 9);
}

#[test]
fn read_machine() {
    assert_eq!(read_step(ReadPhase::Load, 0), ReadPhase::Register(0));
    assert_eq!(read_step(ReadPhase::Load, READERS_CLAIMED), ReadPhase::Load);
    assert_eq!(read_step(ReadPhase::Load, READERS_CLAIMED - 1), ReadPhase::Full);
    assert_eq!(read_step(ReadPhase::Register(2), 2), ReadPhase::Acquire);
    assert_eq!(read_step(ReadPhase::Register(2), 3), ReadPhase::Register(3));
    assert_eq!(read_step(ReadPhase::Register(2), READERS_CLAIMED), ReadPhase::Load);
    assert_eq!(read_step(ReadPhase::Acquire, UNLOCKED), ReadPhase::Acquired(false));
    assert_eq!(read_step(ReadPhase::Acquire, READ_LOCK), ReadPhase::Acquired(true));
    assert_eq!(read_step(ReadPhase::Acquire, WRITE_LOCK), ReadPhase::Sleep);
    assert_eq!(read_step(ReadPhase::Sleep, 0), ReadPhase::Acquire);
}

#[test]
fn write_machine() {
    assert_eq!(write_step(WritePhase::Acquire, UNLOCKED), WritePhase::Acquired);
    assert_eq!(write_step(WritePhase::Acquire, READ_LOCK), WritePhase::Sleep(READ_LOCK));
    assert_eq!(write_step(WritePhase::Sleep(READ_LOCK), 0), WritePhase::Acquire);
}

#[test]
fn read_unlock_machine() {
    assert_eq!(read_unlock_step(ReadUnlockPhase::Leave, 2), ReadUnlockPhase::Done);
    assert_eq!(read_unlock_step(ReadUnlockPhase::Leave, 1), ReadUnlockPhase::Claim);
    assert_eq!(read_unlock_step(ReadUnlockPhase::Claim, 0), ReadUnlockPhase::Release);
    assert_eq!(read_unlock_step(ReadUnlockPhase::Claim, 1), ReadUnlockPhase::Done);
    assert!(write_unlock_step(1));
    assert!(!write_unlock_step(0));
}

#[test]
fn rwlock_error_value() {
    assert_eq!(RwLockError::TooManyReaders, RwLockError::TooManyReaders);
}

#[test]
fn condvar_notified_waiter_sees_value() {
    let mut m = Mutex::new(0);
    let mut cv = Condvar::new();
    let g = m.lock();
    let ticket = cv.wait_begin(&mut m, g);
    assert_eq!(cv.waiters(), 1);
    assert!(cv.would_sleep(&ticket));

    let mut g = m.lock();
    *g.get_mut() = 1;
    m.unlock(g);
    assert!(cv.notify_one());

    assert!(!cv.would_sleep(&ticket));
    let g = cv.wait_end(&mut m, ticket);
    assert_eq!(*g.get(), 1);
    assert_eq!(cv.waiters(), 0);
}

#[test]
fn condvar_spurious_wait_rechecks() {
    let mut m = Mutex::new(0);
    let mut cv = Condvar::new();
    let mut g = m.lock();
    let mut wakeups = 0;
    while *g.get() < 100 {
        g = cv.wait(&mut m, g);
        wakeups += 1;
        if wakeups == 3 {
            *g.get_mut() = 123;
        }
    }
    assert_eq!(*g.get(), 123);
    assert!(wakeups < 10);
}

#[test]
fn condvar_early_notify_dropped() {
    let mut cv = Condvar::new();
    assert!(!cv.notify_one());
    assert!(!cv.notify_all());
    assert!(!notify_step(0));
    assert!(notify_step(2));
    assert_eq!(bump(u32::MAX), 0);
    assert_eq!(bump(4), 5);
}

#[test]
fn once_data_first_value_stays() {
    let mut once = OnceData::new(|| 7);
    assert_eq!(*once.get(), 7);
    assert_eq!(*once.offer(9), 7);
    assert!(publish_step(true));
    assert!(!publish_step(false));
}

#[test]
fn once_data_race_loser_drops() {
    let mut once = OnceData::new(|| 1);
    assert_eq!(*once.offer(5), 5);
    assert_eq!(*once.get(), 5);
}
