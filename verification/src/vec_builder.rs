//! Vector builders.
//!
//! Small constructors for the two vector shapes the crate's callers ask for
//! by value rather than by syntax: the empty vector, and a vector holding
//! one element some number of times.

use vstd::prelude::*;

verus! {

/// A new, empty vector.
pub fn new_vec<T>() -> (v: Vec<T>)
    ensures
        v@ == Seq::<T>::empty(),
{
    Vec::new()
}

/// A vector holding `element` exactly `count` times.
pub fn new_vec_filled<T: Copy>(element: T, count: usize) -> (v: Vec<T>)
    ensures
        v@.len() == count,
        forall|i: int| 0 <= i < count ==> v@[i] == element,
{
    let mut v: Vec<T> = Vec::new();
    let mut n: usize = 0;
    while n < count
        invariant
            n <= count,
            v@.len() == n,
            forall|i: int| 0 <= i < n ==> v@[i] == element,
        decreases count - n,
    {
        v.push(element);
        n = n + 1;
    }
    v
}

} // verus!
