//! A blocking multi-producer/single-consumer hand-off channel.
//!
//! Any number of `Sender` handles and exactly one `Receiver` share one
//! [`Shared`] block: a queue of values and a live-sender count, guarded by
//! a blocking lock with a wait/notify primitive beside it. `send` appends
//! to the queue under the lock and wakes one waiter; `receive` drains a
//! private local buffer first, then the shared queue, and blocks while the
//! queue is empty and at least one sender remains. Once the count reaches
//! zero and the queue is drained, `receive` reports closure with `None` —
//! permanently, for the count never rises from zero again.
//!
//! Every decision and every mutation of the shared state is verified code:
//! the contract-bearing methods of [`Inner`] run under the lock, called
//! from the verified bodies of `send`, `clone`, `drop` and `receive`, and
//! the delivery laws (first-in-first-out order, closure, and exactly-once
//! fan-in) are proved over that model. The trusted layer only crosses the
//! thread boundary: it takes the lock ([`lock_shared`]), reaches the state
//! a guard holds ([`guard_inner`]), sleeps on the condition until the
//! verified wait predicate clears ([`wait_while_waiting`]), wakes a waiter
//! ([`notify_one`]) and clones the `Arc` ([`arc_clone`]). What it cannot
//! carry across is the value of the shared state between visits: the lock
//! hides it from every handle, so each handle's contract speaks of what it
//! can own — the receiver's buffer, and a sender's ghost record of what it
//! has sent — while the cross-visit laws stand at the `Inner` model.

use vstd::prelude::*;
use std::collections::VecDeque;
use std::sync::Arc;
use std::sync::MutexGuard;

verus! {

#[verifier::external_type_specification]
#[verifier::external_body]
#[verifier::reject_recursive_types(T)]
pub struct ExMutex<T: ?Sized>(std::sync::Mutex<T>);

#[verifier::external_type_specification]
#[verifier::external_body]
pub struct ExCondvar(std::sync::Condvar);

#[verifier::external_type_specification]
#[verifier::external_body]
#[verifier::reject_recursive_types(T)]
pub struct ExMutexGuard<'a, T: ?Sized + 'a>(MutexGuard<'a, T>);

/// The state both sides share: the queue of values in flight, oldest first,
/// and the number of live `Sender` handles.
pub struct Inner<T> {
    queue: VecDeque<T>,
    senders: usize,
}

/// A receiver that finds this state true must wait: nothing is queued, and
/// a live sender may yet queue something.
pub open spec fn waiting_state<T>(queue: Seq<T>, senders: int) -> bool {
    queue.len() == 0 && senders > 0
}

/// Why a drained `None` means closure: when the wait is over and the queue
/// is still empty, no sender can be left.
pub proof fn lemma_drained_means_closed<T>(queue: Seq<T>, senders: int)
    requires
        !waiting_state(queue, senders),
        queue.len() == 0,
        senders >= 0,
    ensures
        senders == 0,
{
}

impl<T> Inner<T> {
    /// The queued values, oldest first.
    pub closed spec fn queue_view(&self) -> Seq<T> {
        self.queue@
    }

    /// The number of live sender handles.
    pub closed spec fn sender_count(&self) -> int {
        self.senders as int
    }

    /// Fresh shared state: an empty queue and the one founding sender.
    pub fn new() -> (inner: Self)
        ensures
            inner.queue_view() == Seq::<T>::empty(),
            inner.sender_count() == 1,
    {
        Inner { queue: VecDeque::new(), senders: 1 }
    }

    /// A send: appends `t` at the back of the queue.
    pub fn enqueue(&mut self, t: T)
        ensures
            final(self).queue_view() == old(self).queue_view().push(t),
            final(self).sender_count() == old(self).sender_count(),
    {
        self.queue.push_back(t);
    }

    /// A sender handle was cloned: one more live sender. The count moves
    /// only inside its honest range. It never rises from zero — only a live
    /// handle can be cloned, and a count of zero marks the channel closed
    /// for good — and it saturates at the machine limit, a bound no real
    /// set of handles can reach.
    pub fn sender_added(&mut self)
        ensures
            final(self).queue_view() == old(self).queue_view(),
            final(self).sender_count() == if 1 <= old(self).sender_count()
                < usize::MAX as int {
                old(self).sender_count() + 1
            } else {
                old(self).sender_count()
            },
            old(self).sender_count() == 0 ==> final(self).sender_count() == 0,
    {
        if 1 <= self.senders && self.senders < usize::MAX {
            self.senders = self.senders + 1;
        }
    }

    /// A sender handle was dropped: one less live sender. Reports whether
    /// it was the last, i.e. whether the channel is now closed for new
    /// data; a count already at zero stays there.
    pub fn sender_removed(&mut self) -> (last: bool)
        ensures
            final(self).queue_view() == old(self).queue_view(),
            final(self).sender_count() == if old(self).sender_count() > 0 {
                old(self).sender_count() - 1
            } else {
                0
            },
            last == (final(self).sender_count() == 0),
        opens_invariants none
        no_unwind
    {
        if self.senders > 0 {
            self.senders = self.senders - 1;
        }
        self.senders == 0
    }

    /// The receiver's wait predicate: true exactly in the waiting state —
    /// nothing queued, senders remain. The condition sleep keeps waiting
    /// while this holds.
    pub fn must_wait(&self) -> (w: bool)
        ensures
            w == waiting_state(self.queue_view(), self.sender_count()),
    {
        self.queue.len() == 0 && self.senders > 0
    }

    /// One receiver visit to the shared state: takes the front value if the
    /// queue holds any, moving the whole remainder into the receiver's
    /// private buffer so later receives need not take the lock; reports
    /// `None` exactly when the queue is empty.
    pub fn take_front(&mut self, buffer: &mut VecDeque<T>) -> (r: Option<T>)
        requires
            old(buffer)@.len() == 0,
        ensures
            final(self).sender_count() == old(self).sender_count(),
            old(self).queue_view().len() > 0 ==> {
                &&& r == Some(old(self).queue_view()[0])
                &&& final(buffer)@ == old(self).queue_view().drop_first()
                &&& final(self).queue_view() == Seq::<T>::empty()
            },
            old(self).queue_view().len() == 0 ==> {
                &&& r is None
                &&& final(buffer)@ == old(buffer)@
                &&& final(self).queue_view() == old(self).queue_view()
            },
    {
        match self.queue.pop_front() {
            Some(t) => {
                core::mem::swap(buffer, &mut self.queue);
                proof {
                    assert(buffer@ =~= old(self).queue_view().drop_first());
                }
                Some(t)
            },
            None => None,
        }
    }
}

/// A send, at the model level: the value joins the back of the pending
/// sequence. `Inner::enqueue` is proved to do exactly this to the queue.
pub open spec fn send_model<T>(pending: Seq<T>, t: T) -> Seq<T> {
    pending.push(t)
}

/// A sequence of sends in their global append order, whichever senders they
/// came from.
pub open spec fn send_all<T>(pending: Seq<T>, sent: Seq<T>) -> Seq<T>
    decreases sent.len(),
{
    if sent.len() == 0 {
        pending
    } else {
        send_all(send_model(pending, sent[0]), sent.drop_first())
    }
}

/// The values that repeated receives yield, in order, until the pending
/// sequence is drained. Each receive takes the front, as `Inner::take_front`
/// and `Receiver::receive` are proved to do.
pub open spec fn receive_all<T>(pending: Seq<T>) -> Seq<T>
    decreases pending.len(),
{
    if pending.len() == 0 {
        Seq::<T>::empty()
    } else {
        seq![pending[0]] + receive_all(pending.drop_first())
    }
}

/// Draining yields the pending values exactly, in order.
pub proof fn lemma_receive_all_in_order<T>(pending: Seq<T>)
    ensures
        receive_all(pending) == pending,
    decreases pending.len(),
{
    if pending.len() == 0 {
        assert(receive_all(pending) =~= pending);
    } else {
        lemma_receive_all_in_order(pending.drop_first());
        assert(seq![pending[0]] + pending.drop_first() =~= pending);
    }
}

/// Sends append: after any number of sends, the pending sequence is the old
/// one followed by the sent values in their append order.
pub proof fn lemma_send_all_appends<T>(pending: Seq<T>, sent: Seq<T>)
    ensures
        send_all(pending, sent) == pending + sent,
    decreases sent.len(),
{
    if sent.len() == 0 {
        assert(send_all(pending, sent) =~= pending + sent);
    } else {
        lemma_send_all_appends(pending.push(sent[0]), sent.drop_first());
        assert(pending.push(sent[0]) + sent.drop_first() =~= pending + sent);
    }
}

/// First-in-first-out delivery: the values sent into a fresh channel are
/// received exactly in the order their sends appended them, FIFO across all
/// producers combined.
pub proof fn lemma_fifo_delivery<T>(sent: Seq<T>)
    ensures
        receive_all(send_all(Seq::<T>::empty(), sent)) == sent,
{
    lemma_send_all_appends(Seq::<T>::empty(), sent);
    assert(Seq::<T>::empty() + sent =~= sent);
    lemma_receive_all_in_order(sent);
}

/// Fan-in delivers every sent value exactly once: however many senders the
/// values came from, draining a fresh channel yields the multiset of all
/// sent values, nothing lost and nothing duplicated.
pub proof fn lemma_fan_in_exactly_once<T>(sent: Seq<T>)
    ensures
        receive_all(send_all(Seq::<T>::empty(), sent)).to_multiset() == sent.to_multiset(),
{
    lemma_fifo_delivery(sent);
}

/// The block both sides hold through `Arc`: the state under its lock, and
/// the condition the receiver waits on. Opaque to contracts except for its
/// identity: handles state which block they hold through
/// `Sender::channel_of` and `Receiver::channel_of`.
#[verifier::reject_recursive_types(T)]
pub struct Shared<T> {
    inner: std::sync::Mutex<Inner<T>>,
    available: std::sync::Condvar,
}

/// A producer handle. Cloning it adds a live sender; dropping it removes
/// one, and the last drop wakes the receiver so it can observe closure.
#[verifier::reject_recursive_types(T)]
pub struct Sender<T> {
    shared: Arc<Shared<T>>,
    history: Ghost<Seq<T>>,
}

/// The consumer handle, with its private buffer of already-drained values.
#[verifier::reject_recursive_types(T)]
pub struct Receiver<T> {
    shared: Arc<Shared<T>>,
    buffer: VecDeque<T>,
}

impl<T> View for Receiver<T> {
    type V = Seq<T>;

    /// The values already drained into the private buffer, next first.
    closed spec fn view(&self) -> Seq<T> {
        self.buffer@
    }
}

/// Relies on std::sync::Mutex::lock: blocks until the lock is free and
/// returns the guard that holds it; the `unwrap` maps away the poison case,
/// which cannot arise here — only verified, panic-free code runs inside
/// this module's critical sections. Runs during drop too, so it must not
/// unwind.
#[verifier::external_body]
fn lock_shared<'a, T>(shared: &'a Arc<Shared<T>>) -> (g: MutexGuard<'a, Inner<T>>)
    opens_invariants none
    no_unwind
{
    shared.inner.lock().unwrap()
}

/// Relies on std::sync::MutexGuard's mutable deref: the state the guard
/// holds, mutably. The value behind the lock is unknowable to a handle, so
/// nothing is claimed of it; what the verified caller then does to it is
/// governed by the `Inner` contracts.
#[verifier::external_body]
fn guard_inner<'a, 'b, T>(g: &'a mut MutexGuard<'b, Inner<T>>) -> (r: &'a mut Inner<T>)
    opens_invariants none
    no_unwind
{
    &mut **g
}

/// Relies on std::sync::MutexGuard's drop: releases the lock. Explicit, so
/// the release point reads clearly and is unwind-free even inside drop.
#[verifier::external_body]
fn unlock<T>(g: MutexGuard<'_, Inner<T>>)
    opens_invariants none
    no_unwind
{
    drop(g);
}

/// Relies on std::sync::Condvar::wait_while: gives the lock up and
/// suspends the thread until the verified wait predicate
/// (`Inner::must_wait`, handed to it as the closure) no longer holds,
/// returning with the lock held again; spurious wakeups are re-checked
/// inside `wait_while` itself. On return the waiting state is over:
/// something is queued, or no sender is left.
#[verifier::external_body]
fn wait_while_waiting<'a, T>(
    shared: &Arc<Shared<T>>,
    g: MutexGuard<'a, Inner<T>>,
) -> (g2: MutexGuard<'a, Inner<T>>) {
    shared.available.wait_while(g, |inner: &mut Inner<T>| inner.must_wait()).unwrap()
}

/// Relies on std::sync::Condvar::notify_one: wakes one waiting receiver,
/// if any. Cannot fail or panic.
#[verifier::external_body]
fn notify_one<T>(shared: &Arc<Shared<T>>)
    opens_invariants none
    no_unwind
{
    shared.available.notify_one();
}

/// Relies on std::sync::Mutex::new: wraps the fresh state in its lock.
#[verifier::external_body]
fn new_lock<T>(inner: Inner<T>) -> std::sync::Mutex<Inner<T>> {
    std::sync::Mutex::new(inner)
}

/// Relies on std::sync::Condvar::new: a condition no one waits on yet.
#[verifier::external_body]
fn new_condvar() -> std::sync::Condvar {
    std::sync::Condvar::new()
}

/// Relies on std::sync::Arc::clone: a second handle to the same block,
/// equal to the first.
#[verifier::external_body]
fn arc_clone<T>(a: &Arc<T>) -> (r: Arc<T>)
    ensures
        r == *a,
{
    Arc::clone(a)
}

/// Creates a connected pair holding one block: one sender — the live count
/// starts at 1, its send record empty — and the one receiver, whose
/// private buffer starts empty. The block is built around `Inner::new`:
/// empty queue, one sender counted.
pub fn channel<T>() -> (r: (Sender<T>, Receiver<T>))
    ensures
        r.0.channel_of() == r.1.channel_of(),
        r.0.sent() == Seq::<T>::empty(),
        r.1@ == Seq::<T>::empty(),
{
    let inner = Inner::new();
    let shared = Arc::new(Shared { inner: new_lock(inner), available: new_condvar() });
    let sender = Sender { shared: arc_clone(&shared), history: Ghost(Seq::empty()) };
    let receiver = Receiver { shared, buffer: VecDeque::new() };
    (sender, receiver)
}

impl<T> Sender<T> {
    /// The block this handle holds; two handles with equal blocks feed the
    /// same receiver.
    pub closed spec fn channel_of(&self) -> Arc<Shared<T>> {
        self.shared
    }

    /// Every value this handle has sent, in order.
    pub closed spec fn sent(&self) -> Seq<T> {
        self.history@
    }

    /// Appends `t` at the back of the shared queue — the verified
    /// `Inner::enqueue`, run under the lock — wakes one waiting receiver,
    /// and records the send. Never blocks and never fails; after the
    /// receiver is gone the value merely queues up unread.
    pub fn send(&mut self, t: T)
        ensures
            final(self).sent() == send_model(old(self).sent(), t),
            final(self).channel_of() == old(self).channel_of(),
    {
        let mut g = lock_shared(&self.shared);
        proof {
            self.history@ = self.history@.push(t);
        }
        guard_inner(&mut g).enqueue(t);
        unlock(g);
        notify_one(&self.shared);
    }
}

impl<T> Clone for Sender<T> {
    /// A new handle holding the same block — its sends feed the same
    /// receiver — with an empty send record of its own; the live-sender
    /// count grows by one, the verified `Inner::sender_added` run under the
    /// lock.
    fn clone(&self) -> (r: Self)
        ensures
            r.channel_of() == self.channel_of(),
            r.sent() == Seq::<T>::empty(),
    {
        let mut g = lock_shared(&self.shared);
        guard_inner(&mut g).sender_added();
        unlock(g);
        Sender { shared: arc_clone(&self.shared), history: Ghost(Seq::empty()) }
    }
}

impl<T> Drop for Sender<T> {
    /// Counts this sender out — the verified `Inner::sender_removed`, run
    /// under the lock — and, exactly when its report says this was the last
    /// sender, wakes the receiver so a blocked receive can observe closure.
    fn drop(&mut self)
        opens_invariants none
        no_unwind
    {
        let mut g = lock_shared(&self.shared);
        let last = guard_inner(&mut g).sender_removed();
        unlock(g);
        if last {
            notify_one(&self.shared);
        }
    }
}

impl<T> Receiver<T> {
    /// The block this handle holds.
    pub closed spec fn channel_of(&self) -> Arc<Shared<T>> {
        self.shared
    }

    /// The next value, in global append order: the front of the private
    /// buffer if it holds any, else the front of the shared queue, waiting
    /// on the condition while the queue is empty and senders remain. `None`
    /// means the channel is closed and drained — the wait was over with the
    /// queue still empty, so no sender was left
    /// ([`lemma_drained_means_closed`]), and the count never rises from
    /// zero again (`Inner::sender_added`), so every later call returns
    /// `None` too.
    pub fn receive(&mut self) -> (r: Option<T>)
        ensures
            old(self)@.len() > 0 ==> {
                &&& r == Some(old(self)@[0])
                &&& final(self)@ == old(self)@.drop_first()
            },
            r is None ==> old(self)@.len() == 0 && final(self)@ == old(self)@,
            final(self).channel_of() == old(self).channel_of(),
    {
        if let Some(t) = self.buffer.pop_front() {
            proof {
                assert(self.buffer@ =~= old(self)@.drop_first());
            }
            return Some(t);
        }
        let g = lock_shared(&self.shared);
        let mut g = wait_while_waiting(&self.shared, g);
        let r = guard_inner(&mut g).take_front(&mut self.buffer);
        unlock(g);
        r
    }
}

} // verus!
