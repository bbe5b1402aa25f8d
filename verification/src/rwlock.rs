//! A shared/exclusive spin lock around a single owned value.
//!
//! `RwLock<T>` stores a signed counter and the protected value. The counter
//! encodes the lock state: `0` is free, `N > 0` means `N` live reader
//! guards, `-1` means one live writer guard. A concurrent caller acquires
//! with a compare-and-swap retry loop whose decisions,
//! [`rwlock_read_step`] and [`rwlock_write_step`], are verified functions
//! of this module. Read access demands a live [`RwLockReadGuard`], write
//! access a live [`RwLockWriteGuard`]; releasing consumes the guard, so
//! each acquisition is released at most once.
//!
//! The laws of the protocol under concurrency — reader/writer exclusion
//! and release-exactly-once — are proved over abstract histories of
//! acquire/release events at the end of this module.

use vstd::prelude::*;

use crate::history::count_ops;

verus! {

/// A shared/exclusive lock: a signed state counter and the value it
/// protects.
///
/// State encoding: `0` free, `N > 0` that many live readers, `-1` one live
/// writer. The value is owned by the lock and reachable only through
/// [`RwLock::borrow`], [`RwLock::borrow_exclusive`] and [`RwLock::set`],
/// each of which demands a live guard of the right kind.
pub struct RwLock<T> {
    state: i32,
    value: T,
}

/// The abstract state of an [`RwLock`]: the signed state counter and the
/// protected value.
pub struct RwLockView<T> {
    pub state: int,
    pub value: T,
}

impl<T> View for RwLock<T> {
    type V = RwLockView<T>;

    closed spec fn view(&self) -> RwLockView<T> {
        RwLockView { state: self.state as int, value: self.value }
    }
}

/// Proof of one successful shared acquisition of an [`RwLock`].
///
/// Minted only by [`RwLock::read`], consumed by [`RwLock::release_read`];
/// the private field keeps construction inside this crate.
pub struct RwLockReadGuard {
    _token: (),
}

/// Proof of a successful exclusive acquisition of an [`RwLock`].
///
/// Minted only by [`RwLock::write`], consumed by
/// [`RwLock::release_write`]; the private field keeps construction inside
/// this crate.
pub struct RwLockWriteGuard {
    _token: (),
}

/// The decision a compare-and-swap read-acquisition loop applies to the
/// observed state: refused while a writer is live (`-1`), otherwise one
/// more reader is registered. The state never reaches `i32::MAX` readers
/// (each live reader is a thread), so that input is excluded rather than
/// overflowing.
pub fn rwlock_read_step(state: i32) -> (r: Option<i32>)
    requires
        state < i32::MAX,
    ensures
        state == -1 ==> r is None,
        state != -1 ==> (r matches Some(next) && next == state + 1),
{
    if state == -1 {
        None
    } else {
        Some(state + 1)
    }
}

/// The decision a compare-and-swap write-acquisition loop applies to the
/// observed state: only a free lock (`0`) transitions to writer-held
/// (`-1`); any live reader or writer refuses the attempt.
pub fn rwlock_write_step(state: i32) -> (r: Option<i32>)
    ensures
        state == 0 ==> r == Some(-1i32),
        state != 0 ==> r is None,
{
    if state == 0 {
        Some(-1)
    } else {
        None
    }
}

impl<T> RwLock<T> {
    /// The state encoding invariant: the counter never goes below `-1`.
    pub open spec fn wf(self) -> bool {
        self@.state >= -1
    }

    /// Constructs an unlocked lock wrapping `value`.
    pub fn new(value: T) -> (lock: Self)
        ensures
            lock@.state == 0,
            lock@.value == value,
            lock.wf(),
    {
        RwLock { state: 0, value }
    }

    /// Acquires shared access, registering one more live reader.
    ///
    /// This is the successful outcome of the read spin loop. A holder of
    /// exclusive access to the lock acquires exactly when no writer is
    /// live; while a writer is live the loop would retry forever and the
    /// call would never return, so that input is excluded.
    pub fn read(&mut self) -> (guard: RwLockReadGuard)
        requires
            old(self).wf(),
            old(self)@.state != -1,
            old(self)@.state < i32::MAX,
        ensures
            final(self).wf(),
            final(self)@.state == old(self)@.state + 1,
            final(self)@.value == old(self)@.value,
    {
        let step = rwlock_read_step(self.state);
        if let Some(next) = step {
            self.state = next;
        }
        RwLockReadGuard { _token: () }
    }

    /// Acquires exclusive access, setting the state to `-1`.
    ///
    /// This is the successful outcome of the write spin loop. A holder of
    /// exclusive access to the lock acquires exactly when the lock is
    /// free; while any guard is live the loop would retry forever and the
    /// call would never return, so those inputs are excluded.
    pub fn write(&mut self) -> (guard: RwLockWriteGuard)
        requires
            old(self)@.state == 0,
        ensures
            final(self).wf(),
            final(self)@.state == -1,
            final(self)@.value == old(self)@.value,
    {
        let step = rwlock_write_step(self.state);
        if let Some(next) = step {
            self.state = next;
        }
        RwLockWriteGuard { _token: () }
    }

    /// Read access to the payload through a live reader guard.
    pub fn borrow<'a>(&'a self, _guard: &RwLockReadGuard) -> (r: &'a T)
        requires
            self@.state >= 1,
        ensures
            *r == self@.value,
    {
        &self.value
    }

    /// Read access to the payload through the live writer guard.
    pub fn borrow_exclusive<'a>(&'a self, _guard: &RwLockWriteGuard) -> (r: &'a T)
        requires
            self@.state == -1,
        ensures
            *r == self@.value,
    {
        &self.value
    }

    /// Write access to the payload through the live writer guard.
    pub fn set(&mut self, _guard: &RwLockWriteGuard, value: T)
        requires
            old(self)@.state == -1,
        ensures
            final(self)@.state == -1,
            final(self)@.value == value,
    {
        self.value = value;
    }

    /// Releases one shared acquisition, consuming its guard: the state
    /// drops by one and the payload is untouched.
    pub fn release_read(&mut self, _guard: RwLockReadGuard)
        requires
            old(self)@.state >= 1,
        ensures
            final(self).wf(),
            final(self)@.state == old(self)@.state - 1,
            final(self)@.value == old(self)@.value,
    {
        self.state = self.state - 1;
    }

    /// Releases the exclusive acquisition, consuming its guard: the state
    /// returns to `0` and the payload is untouched.
    pub fn release_write(&mut self, _guard: RwLockWriteGuard)
        requires
            old(self)@.state == -1,
        ensures
            final(self).wf(),
            final(self)@.state == 0,
            final(self)@.value == old(self)@.value,
    {
        self.state = 0;
    }

    /// The current state counter: `0` free, `N > 0` live readers, `-1` a
    /// live writer. This is the probe a contention test samples.
    pub fn state(&self) -> (r: i32)
        ensures
            r == self@.state,
    {
        self.state
    }
}

// ---------------------------------------------------------------------------
// The reader/writer protocol over histories.
//
// A history is the sequence of events that threads sharing one lock
// perform, in the order the atomic counter serializes them. Each event is
// enabled only under the condition the implementation checks: a read
// acquisition is the compare-and-swap that [`rwlock_read_step`] accepts, a
// write acquisition the one that [`rwlock_write_step`] accepts, and a
// release happens only while the matching guard is live. The laws below
// are proved by induction over all such histories.
// ---------------------------------------------------------------------------

/// One event in the history of a reader/writer lock shared by any number
/// of threads.
pub enum RwOp {
    /// A thread's compare-and-swap on a state other than `-1` succeeds:
    /// one more reader guard becomes live.
    AcquireRead,
    /// A thread's compare-and-swap on state `0` succeeds: the one writer
    /// guard becomes live.
    AcquireWrite,
    /// A live reader guard is dropped: the state drops by one.
    ReleaseRead,
    /// The live writer guard is dropped: the state returns to `0`.
    ReleaseWrite,
}

/// The abstract state of a reader/writer lock together with its guards:
/// the signed state counter and how many reader and writer guards are
/// live.
pub struct RwAbs {
    pub state: int,
    pub readers: nat,
    pub writers: nat,
}

/// The state of a freshly constructed lock: free, no live guard.
pub open spec fn rw_abs_init() -> RwAbs {
    RwAbs { state: 0, readers: 0, writers: 0 }
}

/// When an event can occur: the acquisition conditions are exactly the
/// ones the compare-and-swap decisions accept, and a guard releases only
/// while it is live.
pub open spec fn rw_abs_enabled(s: RwAbs, op: RwOp) -> bool {
    match op {
        RwOp::AcquireRead => s.state != -1,
        RwOp::AcquireWrite => s.state == 0,
        RwOp::ReleaseRead => s.readers >= 1,
        RwOp::ReleaseWrite => s.writers >= 1,
    }
}

/// The effect of an event on the abstract state.
pub open spec fn rw_abs_step(s: RwAbs, op: RwOp) -> RwAbs {
    match op {
        RwOp::AcquireRead => RwAbs {
            state: s.state + 1,
            readers: s.readers + 1,
            writers: s.writers,
        },
        RwOp::AcquireWrite => RwAbs { state: -1, readers: s.readers, writers: s.writers + 1 },
        RwOp::ReleaseRead => RwAbs {
            state: s.state - 1,
            readers: (s.readers - 1) as nat,
            writers: s.writers,
        },
        RwOp::ReleaseWrite => RwAbs {
            state: 0,
            readers: s.readers,
            writers: (s.writers - 1) as nat,
        },
    }
}

/// The state after replaying the whole history `t` from a fresh lock.
pub open spec fn rw_abs_run(t: Seq<RwOp>) -> RwAbs
    decreases t.len(),
{
    if t.len() == 0 {
        rw_abs_init()
    } else {
        rw_abs_step(rw_abs_run(t.drop_last()), t.last())
    }
}

/// Whether every event of `t` was enabled in the state it occurred in.
pub open spec fn rw_abs_valid(t: Seq<RwOp>) -> bool
    decreases t.len(),
{
    t.len() == 0 || (rw_abs_valid(t.drop_last()) && rw_abs_enabled(
        rw_abs_run(t.drop_last()),
        t.last(),
    ))
}

/// The inductive invariant of the protocol: at most one writer guard is
/// live, a live writer excludes every reader and pins the state at `-1`,
/// and without a writer the state counts the live readers exactly.
pub open spec fn rw_abs_inv(s: RwAbs) -> bool {
    &&& s.writers <= 1
    &&& (s.writers == 1 ==> s.readers == 0 && s.state == -1)
    &&& (s.writers == 0 ==> s.state == s.readers)
}

/// Every state reached by a valid history satisfies the invariant.
pub proof fn lemma_rw_abs_inv(t: Seq<RwOp>)
    requires
        rw_abs_valid(t),
    ensures
        rw_abs_inv(rw_abs_run(t)),
    decreases t.len(),
{
    if t.len() > 0 {
        lemma_rw_abs_inv(t.drop_last());
    }
}

/// A valid history stays valid when cut off after its first `i` events.
pub proof fn lemma_rw_abs_valid_prefix(t: Seq<RwOp>, i: int)
    requires
        rw_abs_valid(t),
        0 <= i <= t.len(),
    ensures
        rw_abs_valid(t.take(i)),
    decreases t.len(),
{
    if i < t.len() {
        assert(t.take(i) =~= t.drop_last().take(i));
        lemma_rw_abs_valid_prefix(t.drop_last(), i);
    } else {
        assert(t.take(i) =~= t);
    }
}

/// Reader/writer exclusion: at every moment of a valid history — after
/// any prefix of it — either no writer guard is live (and any number of
/// reader guards are), or exactly one writer guard is live and no reader
/// guard is. Never both a live writer and a live reader, and never two
/// live writers.
pub proof fn lemma_rw_exclusion(t: Seq<RwOp>, i: int)
    requires
        rw_abs_valid(t),
        0 <= i <= t.len(),
    ensures
        rw_abs_run(t.take(i)).writers <= 1,
        rw_abs_run(t.take(i)).writers == 1 ==> rw_abs_run(t.take(i)).readers == 0,
{
    lemma_rw_abs_valid_prefix(t, i);
    lemma_rw_abs_inv(t.take(i));
}

/// Release-exactly-once, for each kind of guard: in any valid history the
/// releases never outrun the acquisitions of the same kind, the
/// difference is exactly the number of such guards still live, and once
/// no guard of that kind is live every acquisition has been released
/// exactly once.
pub proof fn lemma_rw_release_once(t: Seq<RwOp>)
    requires
        rw_abs_valid(t),
    ensures
        count_ops(t, RwOp::ReleaseRead) + rw_abs_run(t).readers == count_ops(
            t,
            RwOp::AcquireRead,
        ),
        count_ops(t, RwOp::ReleaseWrite) + rw_abs_run(t).writers == count_ops(
            t,
            RwOp::AcquireWrite,
        ),
        rw_abs_run(t).readers == 0 ==> count_ops(t, RwOp::ReleaseRead) == count_ops(
            t,
            RwOp::AcquireRead,
        ),
        rw_abs_run(t).writers == 0 ==> count_ops(t, RwOp::ReleaseWrite) == count_ops(
            t,
            RwOp::AcquireWrite,
        ),
    decreases t.len(),
{
    if t.len() > 0 {
        lemma_rw_release_once(t.drop_last());
    }
}

} // verus!
