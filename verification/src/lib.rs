//! Spin-based synchronization primitives: an exclusive lock ([`mutex::Mutex`])
//! and a shared/exclusive lock ([`rwlock::RwLock`]), each guarding a single
//! owned value and handing out guard tokens on acquisition.
//!
//! Each lock is a small state machine. The state transition that a concurrent
//! compare-and-swap loop would attempt is exposed as a plain decision function
//! (`mutex::mutex_acquire_step`, `rwlock::rwlock_read_step`,
//! `rwlock::rwlock_write_step`), and the safety laws of the protocol —
//! mutual exclusion, reader/writer exclusion, release-exactly-once, and
//! no lost updates — are proved over histories of those transitions in
//! `mutex` and `rwlock`.

pub mod history;
pub mod mutex;
pub mod rwlock;
