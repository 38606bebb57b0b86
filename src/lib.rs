//! Thread synchronisation and shared-ownership primitives, as verified
//! protocols: a reference-counted shared pointer with weak handles, a
//! spinlock, a blocking mutex, a condition variable, a reader-writer lock and
//! two one-shot channels.
//!
//! Each module gives the primitive's decisions, one atomic operation at a
//! time, as step functions from what the operation observed to what comes
//! next; and the primitive itself as one thread sees it between operations,
//! with its shared words as plain values.
pub mod arc;
pub mod channel2;
pub mod channels;
pub mod condvar;
pub mod mutex;
pub mod once_data;
pub mod rwlock;
pub mod spinlock;
