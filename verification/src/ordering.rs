//! The two-flag publication example under arbitrary interleaving.
//!
//! Two writer threads each publish one flag with a releasing store; two
//! reader threads cross-check them with acquiring loads: one spins until
//! `x` is set and then examines `y`, the other spins until `y` is set and
//! then examines `x`. A reader that finds the other flag already set adds
//! one to a shared counter. The ordering discipline must make it impossible
//! for both readers to find the other flag unset — the counter must never
//! end at zero.
//!
//! This module proves that structural claim over every schedule of the
//! atomic steps ([`lemma_publication_counter_nonzero`]): in whatever order
//! the four threads run, when both readers have finished, at least one of
//! them has added to the counter. The model's steps are atomic and
//! immediately visible, which is exactly what release and acquire on the
//! same flag buy for these loads and stores; with weaker orderings the
//! loads could observe the stores inconsistently and the claim would not
//! hold of the hardware, which no interleaving model can express.

use vstd::prelude::*;

verus! {

/// Where a reader stands: still spinning on its flag, about to examine the
/// other flag, or finished — recording whether it added to the counter.
pub enum ReaderPhase {
    Spinning,
    Checking,
    Done(bool),
}

/// The modelled system: the two flags, the shared counter, and the two
/// readers. The writers carry no state beyond their flag.
pub struct PubState {
    pub x: bool,
    pub y: bool,
    pub counter: nat,
    /// the reader that spins on `x`, then examines `y`
    pub reader_xy: ReaderPhase,
    /// the reader that spins on `y`, then examines `x`
    pub reader_yx: ReaderPhase,
}

/// Both flags down, counter zero, both readers spinning.
pub open spec fn pub_init(s: PubState) -> bool {
    &&& !s.x
    &&& !s.y
    &&& s.counter == 0
    &&& s.reader_xy is Spinning
    &&& s.reader_yx is Spinning
}

/// The first writer's releasing store: `x` goes up (and never down).
pub open spec fn pub_write_x(s: PubState, s2: PubState) -> bool {
    s2 == (PubState { x: true, ..s })
}

/// The second writer's releasing store: `y` goes up.
pub open spec fn pub_write_y(s: PubState, s2: PubState) -> bool {
    s2 == (PubState { y: true, ..s })
}

/// The first reader's acquiring load sees `x` up and leaves its spin.
pub open spec fn pub_pass_x(s: PubState, s2: PubState) -> bool {
    &&& s.reader_xy is Spinning
    &&& s.x
    &&& s2 == (PubState { reader_xy: ReaderPhase::Checking, ..s })
}

/// The first reader examines `y` once and finishes, adding one to the
/// counter exactly when it found `y` up.
pub open spec fn pub_check_y(s: PubState, s2: PubState) -> bool {
    &&& s.reader_xy is Checking
    &&& s2 == (PubState {
        reader_xy: ReaderPhase::Done(s.y),
        counter: s.counter + if s.y { 1nat } else { 0nat },
        ..s
    })
}

/// The second reader's acquiring load sees `y` up and leaves its spin.
pub open spec fn pub_pass_y(s: PubState, s2: PubState) -> bool {
    &&& s.reader_yx is Spinning
    &&& s.y
    &&& s2 == (PubState { reader_yx: ReaderPhase::Checking, ..s })
}

/// The second reader examines `x` once and finishes.
pub open spec fn pub_check_x(s: PubState, s2: PubState) -> bool {
    &&& s.reader_yx is Checking
    &&& s2 == (PubState {
        reader_yx: ReaderPhase::Done(s.x),
        counter: s.counter + if s.x { 1nat } else { 0nat },
        ..s
    })
}

/// One step: any of the four threads acts.
pub open spec fn pub_step(s: PubState, s2: PubState) -> bool {
    ||| pub_write_x(s, s2)
    ||| pub_write_y(s, s2)
    ||| pub_pass_x(s, s2)
    ||| pub_check_y(s, s2)
    ||| pub_pass_y(s, s2)
    ||| pub_check_x(s, s2)
}

/// A run: a non-empty sequence of states from the initial state, every
/// consecutive pair one step.
pub open spec fn pub_run(states: Seq<PubState>) -> bool {
    &&& states.len() > 0
    &&& pub_init(states[0])
    &&& forall|k: int| 0 <= k < states.len() - 1 ==> #[trigger] pub_step(states[k], states[k + 1])
}

/// What one reader's record contributes to the counter.
pub open spec fn reader_credit(r: ReaderPhase) -> nat {
    match r {
        ReaderPhase::Done(added) => if added {
            1
        } else {
            0
        },
        _ => 0,
    }
}

/// The invariant every reachable state satisfies: a reader past its spin
/// has seen its own flag up (and flags never go down again); the counter is
/// the sum of the readers' contributions; and the readers cannot both have
/// finished empty-handed, because the one to finish first can only do so
/// while the other is still spinning on a flag that is already up.
pub open spec fn pub_inv(s: PubState) -> bool {
    &&& (!(s.reader_xy is Spinning) ==> s.x)
    &&& (!(s.reader_yx is Spinning) ==> s.y)
    &&& s.counter == reader_credit(s.reader_xy) + reader_credit(s.reader_yx)
    &&& !(s.reader_xy == ReaderPhase::Done(false) && s.reader_yx == ReaderPhase::Done(false))
}

proof fn lemma_pub_init_inv(s: PubState)
    requires
        pub_init(s),
    ensures
        pub_inv(s),
{
}

proof fn lemma_pub_step_inv(s: PubState, s2: PubState)
    requires
        pub_inv(s),
        pub_step(s, s2),
    ensures
        pub_inv(s2),
{
}

proof fn lemma_pub_run_inv(states: Seq<PubState>, k: int)
    requires
        pub_run(states),
        0 <= k < states.len(),
    ensures
        pub_inv(states[k]),
    decreases k,
{
    if k == 0 {
        lemma_pub_init_inv(states[0]);
    } else {
        lemma_pub_run_inv(states, k - 1);
        let kk = k - 1;
        assert(pub_step(states[kk], states[kk + 1]));
        lemma_pub_step_inv(states[kk], states[kk + 1]);
    }
}

/// The publication guarantee, for every run and every schedule: at any
/// state where both readers have finished, the shared counter is not zero —
/// at least one reader observed the other thread's flag.
pub proof fn lemma_publication_counter_nonzero(states: Seq<PubState>, k: int)
    requires
        pub_run(states),
        0 <= k < states.len(),
        states[k].reader_xy is Done,
        states[k].reader_yx is Done,
    ensures
        states[k].counter != 0,
{
    lemma_pub_run_inv(states, k);
}

} // verus!
