//! The spin-lock acquisition protocols under arbitrary interleaving.
//!
//! [`crate::atomics::Mutex`] verifies what each `with_lock` tier does to its
//! payload from the calling thread's point of view. This module models what
//! the acquisition disciplines do under concurrency: any number of
//! abstract threads, each repeatedly taking the lock to add one to a shared
//! counter, scheduled in every possible order of atomic steps.
//!
//! Three protocols are modelled.
//!
//! - The careful protocol (`cas_*`, tier 3): entry is a single
//!   compare-and-exchange step that observes the flag unlocked and sets it
//!   in one atomic action, and every read inside the critical section sees
//!   the counter as it is. For this protocol the module proves, over every
//!   run: mutual exclusion — no two threads stand in the critical section
//!   at once ([`lemma_cas_mutual_exclusion`]) — and exactness — a finished
//!   run of `n` threads with `m` increments each ends with the counter at
//!   exactly `n * m` ([`lemma_cas_exact_total`]).
//! - The relaxed protocol (`relaxed_*`, tier 2): the same exchange guards
//!   entry, but the read inside the critical section is a relaxed load
//!   that may hand back a stale value. Mutual exclusion still holds over
//!   every run ([`lemma_relaxed_mutual_exclusion`]) — the exchange is
//!   unweakened — but exactness does not:
//!   [`lemma_relaxed_lost_update`] exhibits a run with strictly one holder
//!   at a time in which a stale read loses an increment anyway.
//! - The naive protocol (`naive_*`, tier 1): entry is a plain load that
//!   observes the flag unlocked, followed by a separate plain store that
//!   claims it. Between the two, any other thread may slip in.
//!   [`lemma_naive_lock_race`] exhibits such a run: two threads both
//!   observe "unlocked", both enter, and one increment is lost — the final
//!   counter is strictly below the total.

use vstd::prelude::*;

verus! {

// ----- the careful protocol: entry by compare-and-exchange -----

/// Where one modelled thread stands in the careful protocol.
pub enum CasPhase {
    /// Outside the critical section.
    Idle,
    /// Inside the critical section, before reading the shared counter.
    Entered,
    /// Inside the critical section, holding the counter value it read.
    Got(nat),
}

/// One modelled thread: its phase, and how many increments it has finished.
pub struct CasThread {
    pub phase: CasPhase,
    pub done: nat,
}

/// The whole modelled system: the lock flag, the threads, and the shared
/// counter the critical sections increment.
pub struct CasState {
    pub locked: bool,
    pub threads: Seq<CasThread>,
    pub counter: nat,
}

/// The increments the threads have finished altogether.
pub open spec fn total_done(threads: Seq<CasThread>) -> nat
    decreases threads.len(),
{
    if threads.len() == 0 {
        0
    } else {
        threads[0].done + total_done(threads.drop_first())
    }
}

/// The starting state: flag unlocked, counter zero, `n` idle threads with
/// nothing done.
pub open spec fn cas_init(s: CasState, n: nat) -> bool {
    &&& !s.locked
    &&& s.counter == 0
    &&& s.threads.len() == n
    &&& forall|i: int| 0 <= i < n ==> s.threads[i] == (CasThread { phase: CasPhase::Idle, done: 0 })
}

/// The winning compare-and-exchange: in one atomic action, thread `i`
/// observes the flag unlocked and sets it. A thread with all `m` increments
/// finished no longer tries.
pub open spec fn cas_acquire(s: CasState, s2: CasState, i: int, m: nat) -> bool {
    &&& 0 <= i < s.threads.len()
    &&& s.threads[i].phase is Idle
    &&& s.threads[i].done < m
    &&& !s.locked
    &&& s2 == (CasState {
        locked: true,
        threads: s.threads.update(i, CasThread { phase: CasPhase::Entered, done: s.threads[i].done }),
        counter: s.counter,
    })
}

/// Inside the critical section, thread `i` reads the shared counter.
pub open spec fn cas_read(s: CasState, s2: CasState, i: int) -> bool {
    &&& 0 <= i < s.threads.len()
    &&& s.threads[i].phase is Entered
    &&& s2 == (CasState {
        locked: s.locked,
        threads: s.threads.update(i, CasThread { phase: CasPhase::Got(s.counter), done: s.threads[i].done }),
        counter: s.counter,
    })
}

/// Thread `i` writes back one more than the value it read and releases the
/// flag, leaving the critical section with one more increment done.
pub open spec fn cas_write_release(s: CasState, s2: CasState, i: int) -> bool {
    &&& 0 <= i < s.threads.len()
    &&& s.threads[i].phase matches CasPhase::Got(_)
    &&& s2 == (CasState {
        locked: false,
        threads: s.threads.update(
            i,
            CasThread { phase: CasPhase::Idle, done: s.threads[i].done + 1 },
        ),
        counter: s.threads[i].phase->Got_0 + 1,
    })
}

/// One action of thread `i`: acquire, read, or write-and-release.
pub open spec fn cas_thread_step(s: CasState, s2: CasState, i: int, m: nat) -> bool {
    ||| cas_acquire(s, s2, i, m)
    ||| cas_read(s, s2, i)
    ||| cas_write_release(s, s2, i)
}

/// One protocol step: some thread acquires, reads, or writes and releases.
pub open spec fn cas_step(s: CasState, s2: CasState, m: nat) -> bool {
    exists|i: int| #[trigger] cas_thread_step(s, s2, i, m)
}

/// A run: a non-empty sequence of states starting from the initial state of
/// `n` threads, every consecutive pair one step under bound `m`.
pub open spec fn cas_run(states: Seq<CasState>, n: nat, m: nat) -> bool {
    &&& states.len() > 0
    &&& cas_init(states[0], n)
    &&& forall|k: int| 0 <= k < states.len() - 1 ==> #[trigger] cas_step(states[k], states[k + 1], m)
}

/// The invariant every reachable state of the careful protocol satisfies.
pub open spec fn cas_inv(s: CasState, n: nat, m: nat) -> bool {
    &&& s.threads.len() == n
    &&& (forall|i: int, j: int|
        0 <= i < s.threads.len() && 0 <= j < s.threads.len() && !(s.threads[i].phase is Idle)
            && !(s.threads[j].phase is Idle) ==> i == j)
    &&& (s.locked <==> exists|i: int|
        0 <= i < s.threads.len() && !(#[trigger] s.threads[i].phase is Idle))
    &&& (forall|i: int|
        0 <= i < s.threads.len() && (#[trigger] s.threads[i].phase) is Got
            ==> s.threads[i].phase->Got_0 == s.counter)
    &&& s.counter == total_done(s.threads)
    &&& (forall|i: int| 0 <= i < s.threads.len() ==> (#[trigger] s.threads[i].done) <= m)
    &&& (forall|i: int|
        0 <= i < s.threads.len() && !(#[trigger] s.threads[i].phase is Idle)
            ==> s.threads[i].done < m)
}

/// Updating one thread's record moves the total by the change in its count.
proof fn lemma_total_done_update(threads: Seq<CasThread>, i: int, t: CasThread)
    requires
        0 <= i < threads.len(),
    ensures
        total_done(threads.update(i, t)) + threads[i].done == total_done(threads) + t.done,
    decreases threads.len(),
{
    if i == 0 {
        assert(threads.update(0, t).drop_first() =~= threads.drop_first());
    } else {
        lemma_total_done_update(threads.drop_first(), i - 1, t);
        assert(threads.update(i, t).drop_first() =~= threads.drop_first().update(i - 1, t));
    }
}

/// A sequence of threads that all finished `m` increments totals its length
/// times `m`.
proof fn lemma_total_done_uniform(threads: Seq<CasThread>, m: nat)
    requires
        forall|i: int| 0 <= i < threads.len() ==> (#[trigger] threads[i].done) == m,
    ensures
        total_done(threads) == threads.len() * m,
    decreases threads.len(),
{
    if threads.len() == 0 {
    } else {
        lemma_total_done_uniform(threads.drop_first(), m);
        assert(m + (threads.len() - 1) * m == threads.len() * m) by (nonlinear_arith);
    }
}

/// The initial state satisfies the invariant.
proof fn lemma_cas_init_inv(s: CasState, n: nat, m: nat)
    requires
        cas_init(s, n),
    ensures
        cas_inv(s, n, m),
    decreases n,
{
    assert forall|i: int| 0 <= i < s.threads.len() implies (#[trigger] s.threads[i].done) == 0 by {}
    lemma_total_done_uniform(s.threads, 0);
    assert(s.threads.len() * 0 == 0) by (nonlinear_arith);
}

/// Every step of the careful protocol preserves the invariant.
proof fn lemma_cas_step_inv(s: CasState, s2: CasState, n: nat, m: nat)
    requires
        cas_inv(s, n, m),
        cas_step(s, s2, m),
    ensures
        cas_inv(s2, n, m),
{
    let i = choose|i: int| #[trigger] cas_thread_step(s, s2, i, m);
    if cas_acquire(s, s2, i, m) {
        lemma_total_done_update(s.threads, i, s2.threads[i]);
        assert(!(s2.threads[i].phase is Idle));
    } else if cas_read(s, s2, i) {
        lemma_total_done_update(s.threads, i, s2.threads[i]);
        assert(!(s2.threads[i].phase is Idle));
    } else {
        lemma_total_done_update(s.threads, i, s2.threads[i]);
        assert forall|j: int|
            0 <= j < s2.threads.len() && !(#[trigger] s2.threads[j].phase is Idle) implies false by {
            assert(!(s.threads[j].phase is Idle));
        }
    }
}

/// Every state of every run of the careful protocol satisfies the
/// invariant.
proof fn lemma_cas_run_inv(states: Seq<CasState>, n: nat, m: nat, k: int)
    requires
        cas_run(states, n, m),
        0 <= k < states.len(),
    ensures
        cas_inv(states[k], n, m),
    decreases k,
{
    if k == 0 {
        lemma_cas_init_inv(states[0], n, m);
    } else {
        lemma_cas_run_inv(states, n, m, k - 1);
        let kk = k - 1;
        assert(cas_step(states[kk], states[kk + 1], m));
        lemma_cas_step_inv(states[kk], states[kk + 1], n, m);
    }
}

/// Mutual exclusion, for every run and every schedule: at no state of a run
/// of the careful protocol do two distinct threads stand inside the
/// critical section.
pub proof fn lemma_cas_mutual_exclusion(
    states: Seq<CasState>,
    n: nat,
    m: nat,
    k: int,
    i: int,
    j: int,
)
    requires
        cas_run(states, n, m),
        0 <= k < states.len(),
        0 <= i < states[k].threads.len(),
        0 <= j < states[k].threads.len(),
        !(states[k].threads[i].phase is Idle),
        !(states[k].threads[j].phase is Idle),
    ensures
        i == j,
{
    lemma_cas_run_inv(states, n, m, k);
}

/// Exactness, for every run and every schedule: when a run of the careful
/// protocol ends with every thread back outside the critical section and
/// every thread's `m` increments finished, the shared counter is exactly
/// `n * m` — no increment was lost.
pub proof fn lemma_cas_exact_total(states: Seq<CasState>, n: nat, m: nat)
    requires
        cas_run(states, n, m),
        forall|i: int|
            0 <= i < n ==> states.last().threads[i]
                == (CasThread { phase: CasPhase::Idle, done: m }),
    ensures
        states.last().counter == n * m,
{
    lemma_cas_run_inv(states, n, m, states.len() - 1);
    assert forall|i: int|
        0 <= i < states.last().threads.len() implies (#[trigger] states.last().threads[i].done)
        == m by {}
    lemma_total_done_uniform(states.last().threads, m);
}

// ----- the relaxed protocol: exchange entry, stale reads -----

/// Inside the critical section, thread `i` reads the shared counter with a
/// relaxed load, which may hand it a stale value: any value no greater than
/// the counter now. Entry and exit are the same atomic exchange and release
/// as in the careful protocol; only the payload read weakens.
pub open spec fn relaxed_read(s: CasState, s2: CasState, i: int) -> bool {
    &&& 0 <= i < s.threads.len()
    &&& s.threads[i].phase is Entered
    &&& s2.locked == s.locked
    &&& s2.counter == s.counter
    &&& s2.threads[i].phase is Got
    &&& s2.threads[i].phase->Got_0 <= s.counter
    &&& s2.threads[i].done == s.threads[i].done
    &&& s2.threads == s.threads.update(i, s2.threads[i])
}

/// One action of thread `i` in the relaxed protocol.
pub open spec fn relaxed_thread_step(s: CasState, s2: CasState, i: int, m: nat) -> bool {
    ||| cas_acquire(s, s2, i, m)
    ||| relaxed_read(s, s2, i)
    ||| cas_write_release(s, s2, i)
}

/// One step of the relaxed protocol.
pub open spec fn relaxed_step(s: CasState, s2: CasState, m: nat) -> bool {
    exists|i: int| #[trigger] relaxed_thread_step(s, s2, i, m)
}

/// A run of the relaxed protocol.
pub open spec fn relaxed_run(states: Seq<CasState>, n: nat, m: nat) -> bool {
    &&& states.len() > 0
    &&& cas_init(states[0], n)
    &&& forall|k: int|
        0 <= k < states.len() - 1 ==> #[trigger] relaxed_step(states[k], states[k + 1], m)
}

/// The part of the invariant that survives relaxed reads: the atomic
/// exchange still admits one holder at a time. Nothing is claimed about the
/// counter.
pub open spec fn relaxed_inv(s: CasState, n: nat) -> bool {
    &&& s.threads.len() == n
    &&& (forall|i: int, j: int|
        0 <= i < s.threads.len() && 0 <= j < s.threads.len() && !(s.threads[i].phase is Idle)
            && !(s.threads[j].phase is Idle) ==> i == j)
    &&& (s.locked <==> exists|i: int|
        0 <= i < s.threads.len() && !(#[trigger] s.threads[i].phase is Idle))
}

proof fn lemma_relaxed_step_inv(s: CasState, s2: CasState, n: nat, m: nat)
    requires
        relaxed_inv(s, n),
        relaxed_step(s, s2, m),
    ensures
        relaxed_inv(s2, n),
{
    let i = choose|i: int| #[trigger] relaxed_thread_step(s, s2, i, m);
    if cas_acquire(s, s2, i, m) {
        assert(!(s2.threads[i].phase is Idle));
    } else if relaxed_read(s, s2, i) {
        assert(!(s2.threads[i].phase is Idle));
    } else {
        assert forall|j: int|
            0 <= j < s2.threads.len() && !(#[trigger] s2.threads[j].phase is Idle) implies false by {
            assert(!(s.threads[j].phase is Idle));
        }
    }
}

proof fn lemma_relaxed_run_inv(states: Seq<CasState>, n: nat, m: nat, k: int)
    requires
        relaxed_run(states, n, m),
        0 <= k < states.len(),
    ensures
        relaxed_inv(states[k], n),
    decreases k,
{
    if k == 0 {
    } else {
        lemma_relaxed_run_inv(states, n, m, k - 1);
        let kk = k - 1;
        assert(relaxed_step(states[kk], states[kk + 1], m));
        lemma_relaxed_step_inv(states[kk], states[kk + 1], n, m);
    }
}

/// Mutual exclusion holds for the relaxed protocol too, over every run: the
/// exchange is what excludes, and it is unweakened.
pub proof fn lemma_relaxed_mutual_exclusion(
    states: Seq<CasState>,
    n: nat,
    m: nat,
    k: int,
    i: int,
    j: int,
)
    requires
        relaxed_run(states, n, m),
        0 <= k < states.len(),
        0 <= i < states[k].threads.len(),
        0 <= j < states[k].threads.len(),
        !(states[k].threads[i].phase is Idle),
        !(states[k].threads[j].phase is Idle),
    ensures
        i == j,
{
    lemma_relaxed_run_inv(states, n, m, k);
}

/// What mutual exclusion alone does not buy: a legal run of the relaxed
/// protocol in which the two threads hold the lock strictly one after the
/// other, yet the second one's relaxed load hands it the stale value from
/// before the first one's increment, and an update is lost — every thread
/// finishes its one increment, but the final counter is 1, below the total
/// of 2. The careful protocol's acquire/release discipline rules the stale
/// read out, and with it this outcome ([`lemma_cas_exact_total`]).
pub proof fn lemma_relaxed_lost_update() -> (states: Seq<CasState>)
    ensures
        relaxed_run(states, 2, 1),
        forall|i: int|
            0 <= i < 2 ==> states.last().threads[i]
                == (CasThread { phase: CasPhase::Idle, done: 1 }),
        states.last().counter < 2 * 1,
{
    let t_idle0 = CasThread { phase: CasPhase::Idle, done: 0 };
    let t_in0 = CasThread { phase: CasPhase::Entered, done: 0 };
    let t_got0 = CasThread { phase: CasPhase::Got(0), done: 0 };
    let t_done = CasThread { phase: CasPhase::Idle, done: 1 };
    let s0 = CasState { locked: false, threads: seq![t_idle0, t_idle0], counter: 0 };
    let s1 = CasState { locked: true, threads: seq![t_in0, t_idle0], counter: 0 };
    let s2 = CasState { locked: true, threads: seq![t_got0, t_idle0], counter: 0 };
    let s3 = CasState { locked: false, threads: seq![t_done, t_idle0], counter: 1 };
    let s4 = CasState { locked: true, threads: seq![t_done, t_in0], counter: 1 };
    let s5 = CasState { locked: true, threads: seq![t_done, t_got0], counter: 1 };
    let s6 = CasState { locked: false, threads: seq![t_done, t_done], counter: 1 };
    let states = seq![s0, s1, s2, s3, s4, s5, s6];
    assert(cas_init(states[0], 2));
    assert(s1.threads =~= s0.threads.update(0, t_in0));
    assert(cas_acquire(s0, s1, 0, 1));
    assert(s2.threads =~= s1.threads.update(0, t_got0));
    assert(relaxed_read(s1, s2, 0));
    assert(s3.threads =~= s2.threads.update(0, t_done));
    assert(cas_write_release(s2, s3, 0));
    assert(s4.threads =~= s3.threads.update(1, t_in0));
    assert(cas_acquire(s3, s4, 1, 1));
    // the stale load: the counter is 1 by now, but thread 1 reads 0
    assert(s5.threads =~= s4.threads.update(1, t_got0));
    assert(relaxed_read(s4, s5, 1));
    assert(s6.threads =~= s5.threads.update(1, t_done));
    assert(cas_write_release(s5, s6, 1));
    assert forall|k: int| 0 <= k < states.len() - 1 implies #[trigger] relaxed_step(
        states[k],
        states[k + 1],
        1,
    ) by {
        if k == 0 {
            assert(relaxed_thread_step(states[0], states[1], 0, 1));
        } else if k == 1 {
            assert(relaxed_thread_step(states[1], states[2], 0, 1));
        } else if k == 2 {
            assert(relaxed_thread_step(states[2], states[3], 0, 1));
        } else if k == 3 {
            assert(relaxed_thread_step(states[3], states[4], 1, 1));
        } else if k == 4 {
            assert(relaxed_thread_step(states[4], states[5], 1, 1));
        } else {
            assert(relaxed_thread_step(states[5], states[6], 1, 1));
        }
    }
    states
}

// ----- the naive protocol: entry by plain load then plain store -----

/// Where one modelled thread stands in the naive protocol. The extra
/// `Ready` phase is the flaw: the thread has observed the flag unlocked but
/// not yet claimed it, and the two actions are not one atomic step.
pub enum NaivePhase {
    /// Outside the critical section.
    Idle,
    /// Observed the flag unlocked; about to claim it with a separate store.
    Ready,
    /// Inside the critical section, before reading the shared counter.
    Entered,
    /// Inside the critical section, holding the counter value it read.
    Got(nat),
}

/// One modelled thread of the naive protocol.
pub struct NaiveThread {
    pub phase: NaivePhase,
    pub done: nat,
}

/// The modelled system for the naive protocol.
pub struct NaiveState {
    pub locked: bool,
    pub threads: Seq<NaiveThread>,
    pub counter: nat,
}

/// The starting state of `n` idle threads.
pub open spec fn naive_init(s: NaiveState, n: nat) -> bool {
    &&& !s.locked
    &&& s.counter == 0
    &&& s.threads.len() == n
    &&& forall|i: int|
        0 <= i < n ==> s.threads[i] == (NaiveThread { phase: NaivePhase::Idle, done: 0 })
}

/// The plain load: thread `i` observes the flag unlocked. Nothing is
/// claimed yet.
pub open spec fn naive_observe(s: NaiveState, s2: NaiveState, i: int, m: nat) -> bool {
    &&& 0 <= i < s.threads.len()
    &&& s.threads[i].phase is Idle
    &&& s.threads[i].done < m
    &&& !s.locked
    &&& s2 == (NaiveState {
        locked: s.locked,
        threads: s.threads.update(
            i,
            NaiveThread { phase: NaivePhase::Ready, done: s.threads[i].done },
        ),
        counter: s.counter,
    })
}

/// The plain store: thread `i` sets the flag and enters — whatever the flag
/// says by now, because a plain store checks nothing.
pub open spec fn naive_enter(s: NaiveState, s2: NaiveState, i: int) -> bool {
    &&& 0 <= i < s.threads.len()
    &&& s.threads[i].phase is Ready
    &&& s2 == (NaiveState {
        locked: true,
        threads: s.threads.update(
            i,
            NaiveThread { phase: NaivePhase::Entered, done: s.threads[i].done },
        ),
        counter: s.counter,
    })
}

/// Inside the critical section, thread `i` reads the shared counter.
pub open spec fn naive_read(s: NaiveState, s2: NaiveState, i: int) -> bool {
    &&& 0 <= i < s.threads.len()
    &&& s.threads[i].phase is Entered
    &&& s2 == (NaiveState {
        locked: s.locked,
        threads: s.threads.update(
            i,
            NaiveThread { phase: NaivePhase::Got(s.counter), done: s.threads[i].done },
        ),
        counter: s.counter,
    })
}

/// Thread `i` writes back one more than the value it read and releases.
pub open spec fn naive_write_release(s: NaiveState, s2: NaiveState, i: int) -> bool {
    &&& 0 <= i < s.threads.len()
    &&& s.threads[i].phase matches NaivePhase::Got(_)
    &&& s2 == (NaiveState {
        locked: false,
        threads: s.threads.update(
            i,
            NaiveThread { phase: NaivePhase::Idle, done: s.threads[i].done + 1 },
        ),
        counter: s.threads[i].phase->Got_0 + 1,
    })
}

/// One action of thread `i` in the naive protocol.
pub open spec fn naive_thread_step(s: NaiveState, s2: NaiveState, i: int, m: nat) -> bool {
    ||| naive_observe(s, s2, i, m)
    ||| naive_enter(s, s2, i)
    ||| naive_read(s, s2, i)
    ||| naive_write_release(s, s2, i)
}

/// One step of the naive protocol.
pub open spec fn naive_step(s: NaiveState, s2: NaiveState, m: nat) -> bool {
    exists|i: int| #[trigger] naive_thread_step(s, s2, i, m)
}

/// A run of the naive protocol.
pub open spec fn naive_run(states: Seq<NaiveState>, n: nat, m: nat) -> bool {
    &&& states.len() > 0
    &&& naive_init(states[0], n)
    &&& forall|k: int|
        0 <= k < states.len() - 1 ==> #[trigger] naive_step(states[k], states[k + 1], m)
}

/// The race, exhibited: a legal run of the naive protocol in which two
/// threads both observe the flag unlocked, both enter the critical section
/// at once, and one increment is lost — every thread finishes its one
/// increment, yet the final counter is 1, strictly below the total of 2.
/// The load-then-store entry admits this schedule; the single-step
/// compare-and-exchange of the careful protocol excludes it, as
/// [`lemma_cas_mutual_exclusion`] and [`lemma_cas_exact_total`] prove.
pub proof fn lemma_naive_lock_race() -> (states: Seq<NaiveState>)
    ensures
        naive_run(states, 2, 1),
        // both threads stand inside the critical section at once
        states[4].threads[0].phase is Entered,
        states[4].threads[1].phase is Entered,
        // every thread finished its one increment
        forall|i: int|
            0 <= i < 2 ==> states.last().threads[i]
                == (NaiveThread { phase: NaivePhase::Idle, done: 1 }),
        // yet one increment was lost
        states.last().counter < 2 * 1,
{
    let t_idle0 = NaiveThread { phase: NaivePhase::Idle, done: 0 };
    let t_ready = NaiveThread { phase: NaivePhase::Ready, done: 0 };
    let t_in = NaiveThread { phase: NaivePhase::Entered, done: 0 };
    let t_got = NaiveThread { phase: NaivePhase::Got(0), done: 0 };
    let t_done = NaiveThread { phase: NaivePhase::Idle, done: 1 };
    let s0 = NaiveState { locked: false, threads: seq![t_idle0, t_idle0], counter: 0 };
    let s1 = NaiveState { locked: false, threads: seq![t_ready, t_idle0], counter: 0 };
    let s2 = NaiveState { locked: false, threads: seq![t_ready, t_ready], counter: 0 };
    let s3 = NaiveState { locked: true, threads: seq![t_in, t_ready], counter: 0 };
    let s4 = NaiveState { locked: true, threads: seq![t_in, t_in], counter: 0 };
    let s5 = NaiveState { locked: true, threads: seq![t_got, t_in], counter: 0 };
    let s6 = NaiveState { locked: true, threads: seq![t_got, t_got], counter: 0 };
    let s7 = NaiveState { locked: false, threads: seq![t_done, t_got], counter: 1 };
    let s8 = NaiveState { locked: false, threads: seq![t_done, t_done], counter: 1 };
    let states = seq![s0, s1, s2, s3, s4, s5, s6, s7, s8];
    assert(naive_init(states[0], 2));
    assert(s1.threads =~= s0.threads.update(0, t_ready));
    assert(naive_observe(s0, s1, 0, 1));
    assert(s2.threads =~= s1.threads.update(1, t_ready));
    assert(naive_observe(s1, s2, 1, 1));
    assert(s3.threads =~= s2.threads.update(0, t_in));
    assert(naive_enter(s2, s3, 0));
    assert(s4.threads =~= s3.threads.update(1, t_in));
    assert(naive_enter(s3, s4, 1));
    assert(s5.threads =~= s4.threads.update(0, t_got));
    assert(naive_read(s4, s5, 0));
    assert(s6.threads =~= s5.threads.update(1, t_got));
    assert(naive_read(s5, s6, 1));
    assert(s7.threads =~= s6.threads.update(0, t_done));
    assert(naive_write_release(s6, s7, 0));
    assert(s8.threads =~= s7.threads.update(1, t_done));
    assert(naive_write_release(s7, s8, 1));
    assert forall|k: int| 0 <= k < states.len() - 1 implies #[trigger] naive_step(
        states[k],
        states[k + 1],
        1,
    ) by {
        if k == 0 {
            assert(naive_thread_step(states[0], states[1], 0, 1));
        } else if k == 1 {
            assert(naive_thread_step(states[1], states[2], 1, 1));
        } else if k == 2 {
            assert(naive_thread_step(states[2], states[3], 0, 1));
        } else if k == 3 {
            assert(naive_thread_step(states[3], states[4], 1, 1));
        } else if k == 4 {
            assert(naive_thread_step(states[4], states[5], 0, 1));
        } else if k == 5 {
            assert(naive_thread_step(states[5], states[6], 1, 1));
        } else if k == 6 {
            assert(naive_thread_step(states[6], states[7], 0, 1));
        } else {
            assert(naive_thread_step(states[7], states[8], 1, 1));
        }
    }
    states
}

} // verus!
