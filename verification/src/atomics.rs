//! A spin-based mutual-exclusion lock in three tiers of memory-ordering care.
//!
//! The lock guards one payload value behind a boolean flag. A thread enters
//! the critical section by turning the flag from unlocked to locked, runs a
//! caller-supplied closure on the payload, and turns the flag back. Three
//! acquisition disciplines are offered:
//!
//! - tier 1 (`with_lock_v1`): a plain load observes the flag unlocked and a
//!   plain store then claims it. The two steps are not one atomic action, so
//!   two threads can both observe "unlocked" and both enter; the tier is
//!   broken by design.
//! - tier 2 (`with_lock_v2`): a compare-and-exchange claims the flag
//!   atomically, with relaxed ordering. Mutual exclusion holds, but relaxed
//!   ordering promises nothing about when payload writes become visible to
//!   the next holder.
//! - tier 3 (`with_lock_v3`): the same exchange with acquire ordering on
//!   success and a release store on exit, which hands every payload write to
//!   the next holder.
//!
//! This module verifies what the lock does to its payload: each `with_lock`
//! tier applies the closure exactly once to the stored value and stores the
//! result back, with the flag unlocked again on exit. The flag here is the
//! protocol state of one lock holder at a time; what each tier's discipline
//! does under arbitrary thread interleaving is modelled and proved in
//! [`crate::lock_protocol`], where the load-then-store race of tier 1 and
//! the single-winner guarantee of the exchange are stated over every
//! schedule. Reacquiring the lock from inside the closure would spin
//! forever by design, so entry demands the flag unlocked. If the closure
//! unwinds, the flag simply stays locked and the payload stays out: the
//! lock is deliberately not released in a half-mutated state, and the
//! entry precondition refuses every later use of the poisoned value.
//!
//! The closure moves the payload through by value, `T -> (T, R)`: a
//! mutable-reference parameter cannot carry a contract here, and the move
//! states the same hand-off.

use vstd::prelude::*;

verus! {

/// Flag value while a holder is inside the critical section.
const LOCKED: bool = true;

/// Flag value while the lock is free.
const UNLOCKED: bool = false;

/// A value guarded by a spin lock flag.
pub struct Mutex<T> {
    locked: bool,
    value: Option<T>,
}

impl<T> View for Mutex<T> {
    type V = T;

    /// The guarded payload.
    closed spec fn view(&self) -> T {
        self.value.unwrap()
    }
}

impl<T> Mutex<T> {
    /// The lock is at rest: nobody is inside the critical section and the
    /// payload is present.
    pub closed spec fn wf(&self) -> bool {
        self.value is Some && self.locked == UNLOCKED
    }

    /// Creates an unlocked guard around `t`.
    pub fn new(t: T) -> (m: Self)
        ensures
            m.wf(),
            m@ == t,
    {
        Mutex { locked: UNLOCKED, value: Some(t) }
    }

    /// One compare-and-exchange attempt: turns the flag from unlocked to
    /// locked and reports whether this call was the one that turned it.
    fn try_exchange(&mut self) -> (won: bool)
        ensures
            won == (old(self).locked == UNLOCKED),
            final(self).locked == LOCKED,
            final(self).value == old(self).value,
    {
        if self.locked == UNLOCKED {
            self.locked = LOCKED;
            true
        } else {
            false
        }
    }

    /// Tier 1: observe the flag unlocked with a plain load, then claim it
    /// with a plain store. The two steps are separate actions, which is the
    /// deliberate flaw of this tier; under threads it admits two
    /// simultaneous holders (see `crate::lock_protocol::lemma_naive_lock_race`).
    /// The payload contract below is the same as the careful tiers': the
    /// flaw is invisible to a single thread.
    pub fn with_lock_v1<R, F: FnOnce(T) -> (T, R)>(&mut self, f: F) -> (r: R)
        requires
            old(self).wf(),
            call_requires(f, (old(self)@,)),
        ensures
            final(self).wf(),
            call_ensures(f, (old(self)@,), (final(self)@, r)),
    {
        while self.locked != UNLOCKED
            invariant
                self.locked == UNLOCKED,
            decreases 0int,
        {
        }
        self.locked = LOCKED;
        let v = self.value.take().unwrap();
        let (v, r) = f(v);
        self.value = Some(v);
        self.locked = UNLOCKED;
        r
    }

    /// Tier 2: claim the flag with a compare-and-exchange, relaxed ordering.
    /// A losing thread spins on plain reads before retrying, so the cache
    /// line can stay shared while waiting. Exactly one thread wins
    /// each unlocked-to-locked transition, but relaxed ordering does not
    /// promise the next holder sees the previous holder's payload writes
    /// (see `crate::lock_protocol::lemma_relaxed_lost_update`).
    pub fn with_lock_v2<R, F: FnOnce(T) -> (T, R)>(&mut self, f: F) -> (r: R)
        requires
            old(self).wf(),
            call_requires(f, (old(self)@,)),
        ensures
            final(self).wf(),
            call_ensures(f, (old(self)@,), (final(self)@, r)),
    {
        while !self.try_exchange()
            invariant
                self.locked == UNLOCKED,
                self.value == old(self).value,
            decreases 0int,
        {
        }
        let v = self.value.take().unwrap();
        let (v, r) = f(v);
        self.value = Some(v);
        self.locked = UNLOCKED;
        r
    }

    /// Tier 3: the reference discipline. The exchange acquires on success
    /// and the final store releases, so every payload write made inside the
    /// critical section is handed to the next holder.
    pub fn with_lock_v3<R, F: FnOnce(T) -> (T, R)>(&mut self, f: F) -> (r: R)
        requires
            old(self).wf(),
            call_requires(f, (old(self)@,)),
        ensures
            final(self).wf(),
            call_ensures(f, (old(self)@,), (final(self)@, r)),
    {
        while !self.try_exchange()
            invariant
                self.locked == UNLOCKED,
                self.value == old(self).value,
            decreases 0int,
        {
        }
        let v = self.value.take().unwrap();
        let (v, r) = f(v);
        self.value = Some(v);
        self.locked = UNLOCKED;
        r
    }
}

} // verus!
