//! An exclusive spin lock around a single owned value.
//!
//! `Mutex<T>` stores a boolean flag and the protected value. Acquisition is
//! the transition of the flag from `false` to `true`; a concurrent caller
//! performs it with a compare-and-swap retry loop whose one decision,
//! [`mutex_acquire_step`], is a verified function of this module. A live
//! [`MutexGuard`] is the proof of exclusive access: the payload can be read
//! or written only by presenting a guard, and releasing consumes the guard,
//! so each acquisition is released at most once.
//!
//! The laws of the protocol under concurrency — mutual exclusion,
//! release-exactly-once, and no lost updates — are proved over abstract
//! histories of acquire/release events at the end of this module.

use vstd::prelude::*;

use crate::history::count_ops;

verus! {

/// An exclusive lock: a flag and the value it protects.
///
/// `false` means free, `true` means held. The value is owned by the lock and
/// reachable only through [`Mutex::borrow`] and [`Mutex::set`], both of which
/// demand a live guard.
pub struct Mutex<T> {
    locked: bool,
    value: T,
}

/// The abstract state of a [`Mutex`]: the flag and the protected value.
pub struct MutexView<T> {
    pub locked: bool,
    pub value: T,
}

impl<T> View for Mutex<T> {
    type V = MutexView<T>;

    closed spec fn view(&self) -> MutexView<T> {
        MutexView { locked: self.locked, value: self.value }
    }
}

/// Proof of a successful acquisition of a [`Mutex`].
///
/// Guards are minted only by [`Mutex::lock`] and consumed by
/// [`Mutex::unlock`]; the private field keeps construction inside this
/// crate, so a caller cannot forge one.
pub struct MutexGuard {
    _token: (),
}

/// The decision a compare-and-swap acquisition loop applies to the observed
/// flag: a free lock transitions to held, a held lock refuses the attempt
/// (the caller retries after yielding).
pub fn mutex_acquire_step(locked: bool) -> (r: Option<bool>)
    ensures
        locked ==> r is None,
        !locked ==> r == Some(true),
{
    if locked {
        None
    } else {
        Some(true)
    }
}

impl<T> Mutex<T> {
    /// Constructs an unlocked mutex wrapping `value`.
    pub fn new(value: T) -> (m: Self)
        ensures
            !m@.locked,
            m@.value == value,
    {
        Mutex { locked: false, value }
    }

    /// Acquires the lock, returning the guard that witnesses the hold.
    ///
    /// This is the successful outcome of the spin loop. A holder of
    /// exclusive access to the lock acquires exactly when the flag is
    /// clear; on a held lock the loop would retry forever and the call
    /// would never return, so that input is excluded.
    pub fn lock(&mut self) -> (guard: MutexGuard)
        requires
            !old(self)@.locked,
        ensures
            final(self)@.locked,
            final(self)@.value == old(self)@.value,
    {
        let step = mutex_acquire_step(self.locked);
        if let Some(flag) = step {
            self.locked = flag;
        }
        MutexGuard { _token: () }
    }

    /// Read access to the payload through a live guard.
    pub fn borrow<'a>(&'a self, _guard: &MutexGuard) -> (r: &'a T)
        requires
            self@.locked,
        ensures
            *r == self@.value,
    {
        &self.value
    }

    /// Write access to the payload through a live guard.
    pub fn set(&mut self, _guard: &MutexGuard, value: T)
        requires
            old(self)@.locked,
        ensures
            final(self)@.locked,
            final(self)@.value == value,
    {
        self.value = value;
    }

    /// Releases the lock, consuming the guard: the flag returns to `false`
    /// and the payload is untouched. Consuming the guard is what makes a
    /// second release of the same acquisition impossible.
    pub fn unlock(&mut self, _guard: MutexGuard)
        requires
            old(self)@.locked,
        ensures
            !final(self)@.locked,
            final(self)@.value == old(self)@.value,
    {
        self.locked = false;
    }

    /// Whether the lock is currently held.
    pub fn is_locked(&self) -> (r: bool)
        ensures
            r == self@.locked,
    {
        self.locked
    }
}

/// One complete critical section on a shared counter: acquire, read,
/// write back the read value plus one, release.
pub fn increment_under_lock(counter: &mut Mutex<u64>)
    requires
        !old(counter)@.locked,
        old(counter)@.value < u64::MAX,
    ensures
        !final(counter)@.locked,
        final(counter)@.value == old(counter)@.value + 1,
{
    let guard = counter.lock();
    let v: u64 = *counter.borrow(&guard);
    counter.set(&guard, v + 1);
    counter.unlock(guard);
}

/// `rounds` critical sections in a row, each adding exactly one: none of
/// the updates is lost, so the counter ends at exactly its old value plus
/// `rounds`.
pub fn increment_n_under_lock(counter: &mut Mutex<u64>, rounds: u64)
    requires
        !old(counter)@.locked,
        old(counter)@.value + rounds <= u64::MAX,
    ensures
        !final(counter)@.locked,
        final(counter)@.value == old(counter)@.value + rounds,
{
    let mut done: u64 = 0;
    while done < rounds
        invariant
            done <= rounds,
            !counter@.locked,
            counter@.value == old(counter)@.value + done,
            old(counter)@.value + rounds <= u64::MAX,
        decreases rounds - done,
    {
        increment_under_lock(counter);
        done = done + 1;
    }
}

// ---------------------------------------------------------------------------
// The mutex protocol over histories.
//
// A history is the sequence of events that threads sharing one mutex
// perform, in the order the atomic flag serializes them. Each event is
// enabled only under the condition the implementation checks: an
// acquisition is the compare-and-swap from `false` to `true`
// ([`mutex_acquire_step`] returning a new flag value), and the payload is
// touched only by a thread that holds a live guard. The laws below are
// proved by induction over all such histories.
// ---------------------------------------------------------------------------

/// One event in the history of a mutex shared by any number of threads.
///
/// The protected payload is modelled as a counter that holders update by
/// a read (`Load`) followed by a write-back of the read value plus one
/// (`Store`) — the shape of an increment performed inside a critical
/// section.
pub enum MutexOp {
    /// A thread's compare-and-swap succeeds: the flag goes from `false`
    /// to `true` and one more guard becomes live.
    Acquire,
    /// A guard holder reads the shared counter.
    Load,
    /// A guard holder writes back the value it loaded, plus one.
    Store,
    /// A live guard is dropped: the flag returns to `false`.
    Release,
}

/// The abstract state of a mutex together with the guards and the
/// modelled payload: the flag, how many guards are live, the counter,
/// and the value the current holder has loaded but not yet stored back.
pub struct MutexAbs {
    pub locked: bool,
    pub held: nat,
    pub counter: nat,
    pub loaded: Option<nat>,
}

/// The state of a freshly constructed mutex whose counter starts at `c`:
/// unlocked, no live guard, nothing loaded.
pub open spec fn mutex_abs_init(c: nat) -> MutexAbs {
    MutexAbs { locked: false, held: 0, counter: c, loaded: None }
}

/// When an event can occur: acquisition only on a free lock (the
/// compare-and-swap refuses a set flag), and the payload is touched only
/// by a live guard holder — a store writes back what was loaded.
pub open spec fn mutex_abs_enabled(s: MutexAbs, op: MutexOp) -> bool {
    match op {
        MutexOp::Acquire => !s.locked,
        MutexOp::Load => s.held >= 1,
        MutexOp::Store => s.held >= 1 && s.loaded is Some,
        MutexOp::Release => s.held >= 1,
    }
}

/// The effect of an event on the abstract state.
pub open spec fn mutex_abs_step(s: MutexAbs, op: MutexOp) -> MutexAbs {
    match op {
        MutexOp::Acquire => MutexAbs {
            locked: true,
            held: s.held + 1,
            counter: s.counter,
            loaded: s.loaded,
        },
        MutexOp::Load => MutexAbs {
            locked: s.locked,
            held: s.held,
            counter: s.counter,
            loaded: Some(s.counter),
        },
        MutexOp::Store => MutexAbs {
            locked: s.locked,
            held: s.held,
            counter: s.loaded->Some_0 + 1,
            loaded: None,
        },
        MutexOp::Release => MutexAbs {
            locked: false,
            held: (s.held - 1) as nat,
            counter: s.counter,
            loaded: None,
        },
    }
}

/// The state after replaying the whole history `t` from a fresh mutex
/// with counter `c`.
pub open spec fn mutex_abs_run(c: nat, t: Seq<MutexOp>) -> MutexAbs
    decreases t.len(),
{
    if t.len() == 0 {
        mutex_abs_init(c)
    } else {
        mutex_abs_step(mutex_abs_run(c, t.drop_last()), t.last())
    }
}

/// Whether every event of `t` was enabled in the state it occurred in.
pub open spec fn mutex_abs_valid(c: nat, t: Seq<MutexOp>) -> bool
    decreases t.len(),
{
    t.len() == 0 || (mutex_abs_valid(c, t.drop_last()) && mutex_abs_enabled(
        mutex_abs_run(c, t.drop_last()),
        t.last(),
    ))
}

/// The inductive invariant of the protocol: at most one guard is live,
/// the flag is set exactly while a guard is live, and a loaded value that
/// has not been stored back belongs to the one live holder and still
/// equals the counter — nobody else can have changed it in between.
pub open spec fn mutex_abs_inv(s: MutexAbs) -> bool {
    &&& s.held <= 1
    &&& s.locked == (s.held == 1)
    &&& (s.loaded is Some ==> s.held == 1 && s.loaded->Some_0 == s.counter)
}

/// Every state reached by a valid history satisfies the invariant.
pub proof fn lemma_mutex_abs_inv(c: nat, t: Seq<MutexOp>)
    requires
        mutex_abs_valid(c, t),
    ensures
        mutex_abs_inv(mutex_abs_run(c, t)),
    decreases t.len(),
{
    if t.len() > 0 {
        lemma_mutex_abs_inv(c, t.drop_last());
    }
}

/// A valid history stays valid when cut off after its first `i` events.
pub proof fn lemma_mutex_abs_valid_prefix(c: nat, t: Seq<MutexOp>, i: int)
    requires
        mutex_abs_valid(c, t),
        0 <= i <= t.len(),
    ensures
        mutex_abs_valid(c, t.take(i)),
    decreases t.len(),
{
    if i < t.len() {
        assert(t.take(i) =~= t.drop_last().take(i));
        lemma_mutex_abs_valid_prefix(c, t.drop_last(), i);
    } else {
        assert(t.take(i) =~= t);
    }
}

/// Mutual exclusion: at every moment of a valid history — after any
/// prefix of it — at most one guard is live, so the critical sections of
/// two guards never overlap.
pub proof fn lemma_mutex_exclusion(c: nat, t: Seq<MutexOp>, i: int)
    requires
        mutex_abs_valid(c, t),
        0 <= i <= t.len(),
    ensures
        mutex_abs_run(c, t.take(i)).held <= 1,
{
    lemma_mutex_abs_valid_prefix(c, t, i);
    lemma_mutex_abs_inv(c, t.take(i));
}

/// Release-exactly-once: in any valid history the releases never outrun
/// the acquisitions, the difference is exactly the number of guards still
/// live, and once no guard is live every acquisition has been released
/// exactly once — however each critical section was exited.
pub proof fn lemma_mutex_release_once(c: nat, t: Seq<MutexOp>)
    requires
        mutex_abs_valid(c, t),
    ensures
        count_ops(t, MutexOp::Release) + mutex_abs_run(c, t).held == count_ops(
            t,
            MutexOp::Acquire,
        ),
        count_ops(t, MutexOp::Release) <= count_ops(t, MutexOp::Acquire),
        mutex_abs_run(c, t).held == 0 ==> count_ops(t, MutexOp::Release) == count_ops(
            t,
            MutexOp::Acquire,
        ),
    decreases t.len(),
{
    if t.len() > 0 {
        lemma_mutex_release_once(c, t.drop_last());
    }
}

/// No lost updates: every store writes back the value loaded under the
/// same hold plus one, and exclusion keeps that loaded value current, so
/// after any valid history the counter is its initial value plus the
/// number of stores. A counter incremented `n` times each by `m` threads,
/// one critical section per increment, therefore ends at exactly
/// `c + n * m`.
pub proof fn lemma_mutex_no_lost_updates(c: nat, t: Seq<MutexOp>)
    requires
        mutex_abs_valid(c, t),
    ensures
        mutex_abs_run(c, t).counter == c + count_ops(t, MutexOp::Store),
    decreases t.len(),
{
    if t.len() > 0 {
        lemma_mutex_abs_inv(c, t.drop_last());
        lemma_mutex_no_lost_updates(c, t.drop_last());
    }
}

} // verus!
