//! A double-ended flattening adapter over a nested vector.
//!
//! `flatten` turns a vector of vectors into a cursor that yields the inner
//! elements one at a time, from either end. Like a lazy flattening
//! iterator, it keeps a partially consumed inner sequence at each end
//! (`front_iter`, `back_iter`) and the untouched inner sequences between
//! them (`outer`); `next` and `next_back` may meet anywhere in the middle
//! without yielding any element twice.
//!
//! The view of a `Flatten` is the flat sequence of the elements it has not
//! yielded yet, and every operation carries an exact contract over it:
//! `next` takes the first remaining element, `next_back` the last.

use vstd::prelude::*;
use std::collections::VecDeque;

verus! {

/// The flattening of a sequence of sequences, in order.
pub open spec fn flat_seq<T>(s: Seq<Seq<T>>) -> Seq<T>
    decreases s.len(),
{
    if s.len() == 0 {
        Seq::<T>::empty()
    } else {
        s[0] + flat_seq(s.drop_first())
    }
}

/// The inner sequences of a nested vector.
pub open spec fn vecs_view<T>(items: Seq<Vec<T>>) -> Seq<Seq<T>> {
    items.map_values(|v: Vec<T>| v@)
}

/// The inner sequences of the untouched middle part of the cursor.
pub open spec fn deques_view<T>(outer: Seq<VecDeque<T>>) -> Seq<Seq<T>> {
    outer.map_values(|d: VecDeque<T>| d@)
}

/// Peeling the last inner sequence off a flattening.
proof fn lemma_flat_seq_drop_last<T>(s: Seq<Seq<T>>)
    requires
        s.len() > 0,
    ensures
        flat_seq(s) == flat_seq(s.drop_last()) + s.last(),
    decreases s.len(),
{
    if s.len() == 1 {
        assert(flat_seq(s.drop_first()) =~= Seq::<T>::empty());
        assert(flat_seq(s.drop_last()) =~= Seq::<T>::empty());
        assert(flat_seq(s) =~= flat_seq(s.drop_last()) + s.last());
    } else {
        lemma_flat_seq_drop_last(s.drop_first());
        assert(s.drop_first().drop_last() =~= s.drop_last().drop_first());
        assert(s.drop_first().last() == s.last());
        assert(s.drop_last()[0] == s[0]);
        assert(flat_seq(s) =~= flat_seq(s.drop_last()) + s.last());
    }
}

/// What a consumed-end holder contributes to the view.
pub open spec fn end_view<T>(end: Option<VecDeque<T>>) -> Seq<T> {
    match end {
        Some(d) => d@,
        None => Seq::<T>::empty(),
    }
}

/// A double-ended cursor over the elements of a nested vector.
pub struct Flatten<T> {
    front_iter: Option<VecDeque<T>>,
    outer: VecDeque<VecDeque<T>>,
    back_iter: Option<VecDeque<T>>,
}

impl<T> View for Flatten<T> {
    type V = Seq<T>;

    /// The elements not yielded yet, in order.
    closed spec fn view(&self) -> Seq<T> {
        end_view(self.front_iter) + flat_seq(deques_view(self.outer@)) + end_view(self.back_iter)
    }
}

/// Moves a vector's elements into a queue, front first.
fn deque_of_vec<T>(v: Vec<T>) -> (d: VecDeque<T>)
    ensures
        d@ == v@,
{
    let mut v = v;
    let mut d: VecDeque<T> = VecDeque::new();
    let ghost all = v@;
    while v.len() > 0
        invariant
            d@ + v@ == all,
        decreases v@.len(),
    {
        let x = v.remove(0);
        d.push_back(x);
        proof {
            assert(d@ + v@ =~= all);
        }
    }
    proof {
        assert(d@ =~= all);
    }
    d
}

/// Flattens one nesting level of `items`: the cursor will yield the inner
/// elements in order, and nothing else.
pub fn flatten<T>(items: Vec<Vec<T>>) -> (r: Flatten<T>)
    ensures
        r@ == flat_seq(vecs_view(items@)),
{
    let ghost all = vecs_view(items@);
    let mut items = items;
    let mut outer: VecDeque<VecDeque<T>> = VecDeque::new();
    while items.len() > 0
        invariant
            deques_view(outer@) + vecs_view(items@) == all,
        decreases items@.len(),
    {
        let inner = items.remove(0);
        let d = deque_of_vec(inner);
        outer.push_back(d);
        proof {
            assert(deques_view(outer@) + vecs_view(items@) =~= all);
        }
    }
    proof {
        assert(deques_view(outer@) =~= all);
    }
    let r = Flatten { front_iter: None, outer, back_iter: None };
    proof {
        assert(r@ =~= flat_seq(all));
    }
    r
}

impl<T> Flatten<T> {
    /// Takes the first remaining element, if any: the front of the
    /// partially consumed front sequence, else the first element of the
    /// next non-empty inner sequence, else the front of the partially
    /// consumed back sequence.
    pub fn next(&mut self) -> (r: Option<T>)
        ensures
            old(self)@.len() > 0 ==> {
                &&& r == Some(old(self)@[0])
                &&& final(self)@ == old(self)@.drop_first()
            },
            old(self)@.len() == 0 ==> r is None && final(self)@ == old(self)@,
    {
        loop
            invariant
                self@ == old(self)@,
            decreases self.outer@.len() * 2 + (if self.front_iter is Some {
                1int
            } else {
                0int
            }),
        {
            let front = self.front_iter.take();
            if let Some(mut f) = front {
                match f.pop_front() {
                    Some(item) => {
                        self.front_iter = Some(f);
                        proof {
                            assert(self@ =~= old(self)@.drop_first());
                        }
                        return Some(item);
                    },
                    None => {
                        proof {
                            assert(self@ =~= old(self)@);
                        }
                    },
                }
            }
            let ghost mid_before = deques_view(self.outer@);
            match self.outer.pop_front() {
                Some(next_inner) => {
                    self.front_iter = Some(next_inner);
                    proof {
                        assert(deques_view(self.outer@) =~= mid_before.drop_first());
                        assert(self@ =~= old(self)@);
                    }
                },
                None => {
                    let back = self.back_iter.take();
                    match back {
                        Some(mut b) => {
                            let r = b.pop_front();
                            self.back_iter = Some(b);
                            proof {
                                if old(self)@.len() > 0 {
                                    assert(self@ =~= old(self)@.drop_first());
                                } else {
                                    assert(self@ =~= old(self)@);
                                }
                            }
                            return r;
                        },
                        None => {
                            proof {
                                assert(old(self)@.len() == 0);
                                assert(self@ =~= old(self)@);
                            }
                            return None;
                        },
                    }
                },
            }
        }
    }

    /// Takes the last remaining element, if any; the mirror image of
    /// `next`, working back from the other end.
    pub fn next_back(&mut self) -> (r: Option<T>)
        ensures
            old(self)@.len() > 0 ==> {
                &&& r == Some(old(self)@.last())
                &&& final(self)@ == old(self)@.drop_last()
            },
            old(self)@.len() == 0 ==> r is None && final(self)@ == old(self)@,
    {
        loop
            invariant
                self@ == old(self)@,
            decreases self.outer@.len() * 2 + (if self.back_iter is Some {
                1int
            } else {
                0int
            }),
        {
            let back = self.back_iter.take();
            if let Some(mut b) = back {
                match b.pop_back() {
                    Some(item) => {
                        self.back_iter = Some(b);
                        proof {
                            assert(self@ =~= old(self)@.drop_last());
                        }
                        return Some(item);
                    },
                    None => {
                        proof {
                            assert(self@ =~= old(self)@);
                        }
                    },
                }
            }
            let ghost mid_before = deques_view(self.outer@);
            match self.outer.pop_back() {
                Some(next_inner) => {
                    self.back_iter = Some(next_inner);
                    proof {
                        lemma_flat_seq_drop_last(mid_before);
                        assert(deques_view(self.outer@) =~= mid_before.drop_last());
                        assert(self@ =~= old(self)@);
                    }
                },
                None => {
                    let front = self.front_iter.take();
                    match front {
                        Some(mut f) => {
                            let r = f.pop_back();
                            self.front_iter = Some(f);
                            proof {
                                if old(self)@.len() > 0 {
                                    assert(self@ =~= old(self)@.drop_last());
                                } else {
                                    assert(self@ =~= old(self)@);
                                }
                            }
                            return r;
                        },
                        None => {
                            proof {
                                assert(old(self)@.len() == 0);
                                assert(self@ =~= old(self)@);
                            }
                            return None;
                        },
                    }
                },
            }
        }
    }

    /// Counts the remaining elements by consuming the cursor.
    pub fn count(self) -> (n: usize)
        requires
            self@.len() <= usize::MAX,
        ensures
            n as nat == self@.len(),
    {
        let mut cursor = self;
        let ghost total = cursor@.len();
        let mut n: usize = 0;
        loop
            invariant
                total == self@.len(),
                n as nat + cursor@.len() == total,
                total <= usize::MAX,
            decreases cursor@.len(),
        {
            match cursor.next() {
                Some(_) => {
                    n = n + 1;
                },
                None => {
                    return n;
                },
            }
        }
    }

    /// Moves the remaining elements into a vector, in order, consuming the
    /// cursor.
    pub fn to_vec(self) -> (v: Vec<T>)
        ensures
            v@ == self@,
    {
        let mut cursor = self;
        let ghost all = cursor@;
        let mut v: Vec<T> = Vec::new();
        loop
            invariant
                all == self@,
                v@ + cursor@ == all,
            decreases cursor@.len(),
        {
            match cursor.next() {
                Some(t) => {
                    v.push(t);
                    proof {
                        assert(v@ + cursor@ =~= all);
                    }
                },
                None => {
                    proof {
                        assert(v@ =~= all);
                    }
                    return v;
                },
            }
        }
    }
}

/// The flattening method form, for writing `items.our_flatten()`.
pub trait IteratorExt<T> {
    /// Flattens one nesting level; see [`flatten`].
    fn our_flatten(self) -> Flatten<T>;
}

impl<T> IteratorExt<T> for Vec<Vec<T>> {
    fn our_flatten(self) -> (r: Flatten<T>)
        ensures
            r@ == flat_seq(vecs_view(self@)),
    {
        flatten(self)
    }
}

} // verus!
