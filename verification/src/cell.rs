//! A single-threaded value cell.
//!
//! The cell owns one value and lets its owner read and replace it. Because
//! every mutation goes through `&mut self`, exclusivity is enforced by the
//! borrow checker; the cell's contract is simply that `get` returns the
//! stored value and `set` replaces it.

use vstd::prelude::*;

verus! {

pub struct Cell<T> {
    value: T,
}

impl<T> View for Cell<T> {
    type V = T;

    closed spec fn view(&self) -> T {
        self.value
    }
}

impl<T> Cell<T> {
    /// Creates a cell holding `value`.
    pub fn new(value: T) -> (c: Self)
        ensures
            c@ == value,
    {
        Cell { value }
    }

    /// Returns a copy of the stored value.
    pub fn get(&self) -> (v: T) where T: Copy
        ensures
            v == self@,
    {
        self.value
    }

    /// Replaces the stored value with `value`.
    pub fn set(&mut self, value: T)
        ensures
            final(self)@ == value,
    {
        self.value = value;
    }
}

} // verus!
