//! A cell with dynamic borrow checking.
//!
//! The cell tracks at run time how it is being accessed — some number of
//! shared observers, or one exclusive borrower — and rejects a conflicting
//! request by returning `None` instead of failing at compile time. A granted
//! borrow is a receipt value: `Ref` for an observer, `RefMut` for the
//! borrower; giving the receipt back through `end_borrow` / `end_borrow_mut`
//! restores the prior state, and ending an exclusive borrow writes the
//! borrower's value back into the cell.
//!
//! The receipts carry a copy of the observed value, so the cell's owner
//! keeps the cell itself while borrows are out. Every transition of the
//! access state is stated exactly: what is granted, what is refused, and
//! what each release restores.

use vstd::prelude::*;
use crate::cell::Cell;

verus! {

/// How a `RefCell` is being accessed: by `n` shared observers (`Shared(0)`
/// is the state at rest), or by one exclusive borrower.
#[derive(Copy, Clone, Debug, PartialEq, Eq, Structural)]
pub enum RefCellState {
    Shared(usize),
    Exclusive,
}

/// A receipt for one shared observer, carrying a copy of the observed
/// value. Give it back with [`RefCell::end_borrow`].
pub struct Ref<T> {
    /// The value as observed when the borrow was granted.
    pub value: T,
}

/// The receipt for the exclusive borrower, carrying the value to work on.
/// Give it back with [`RefCell::end_borrow_mut`], which stores the carried
/// value into the cell.
pub struct RefMut<T> {
    /// The value being worked on; it is written back into the cell when the
    /// borrow ends.
    pub value: T,
}

/// A cell providing run-time borrow arbitration around one value.
pub struct RefCell<T> {
    value: T,
    state: Cell<RefCellState>,
}

impl<T> View for RefCell<T> {
    type V = T;

    /// The stored value.
    closed spec fn view(&self) -> T {
        self.value
    }
}

impl<T> RefCell<T> {
    /// The current access state.
    pub closed spec fn borrow_state(&self) -> RefCellState {
        self.state@
    }

    /// Creates a cell at rest around `value`.
    pub fn new(value: T) -> (c: Self)
        ensures
            c@ == value,
            c.borrow_state() == RefCellState::Shared(0),
    {
        RefCell { value, state: Cell::new(RefCellState::Shared(0)) }
    }

    /// The current access state, for inspection.
    pub fn state(&self) -> (s: RefCellState)
        ensures
            s == self.borrow_state(),
    {
        self.state.get()
    }

    /// Requests a shared observer. Granted — with a copy of the value, and
    /// one more observer counted — unless the exclusive borrower is out.
    /// The observer count cannot exceed the machine limit, a bound no real
    /// set of receipts can reach.
    pub fn borrow(&mut self) -> (r: Option<Ref<T>>) where T: Copy
        requires
            (match old(self).borrow_state() {
                RefCellState::Shared(n) => n < usize::MAX,
                RefCellState::Exclusive => true,
            }),
        ensures
            final(self)@ == old(self)@,
            (match old(self).borrow_state() {
                RefCellState::Shared(n) => {
                    &&& r matches Some(g) && g.value == old(self)@
                    &&& final(self).borrow_state() == RefCellState::Shared((n + 1) as usize)
                },
                RefCellState::Exclusive => {
                    &&& r is None
                    &&& final(self).borrow_state() == old(self).borrow_state()
                },
            }),
    {
        match self.state.get() {
            RefCellState::Shared(count) => {
                self.state.set(RefCellState::Shared(count + 1));
                Some(Ref { value: self.value })
            },
            RefCellState::Exclusive => None,
        }
    }

    /// Requests the exclusive borrower. Granted — with the value to work on
    /// — only from the state at rest; any live observer or borrower refuses
    /// it.
    pub fn borrow_mut(&mut self) -> (r: Option<RefMut<T>>) where T: Copy
        ensures
            final(self)@ == old(self)@,
            old(self).borrow_state() == RefCellState::Shared(0usize) ==> {
                &&& r matches Some(g) && g.value == old(self)@
                &&& final(self).borrow_state() == RefCellState::Exclusive
            },
            old(self).borrow_state() != RefCellState::Shared(0usize) ==> {
                &&& r is None
                &&& final(self).borrow_state() == old(self).borrow_state()
            },
    {
        match self.state.get() {
            RefCellState::Shared(count) => {
                if count == 0 {
                    self.state.set(RefCellState::Exclusive);
                    Some(RefMut { value: self.value })
                } else {
                    None
                }
            },
            RefCellState::Exclusive => None,
        }
    }

    /// Ends one shared observer's borrow, restoring the prior count. The
    /// receipt must come from this cell while observers are counted, which
    /// is what the precondition states.
    pub fn end_borrow(&mut self, observer: Ref<T>)
        requires
            old(self).borrow_state() matches RefCellState::Shared(n) && n >= 1,
        ensures
            final(self)@ == old(self)@,
            final(self).borrow_state() == RefCellState::Shared(
                (old(self).borrow_state()->Shared_0 - 1) as usize,
            ),
    {
        match self.state.get() {
            RefCellState::Shared(count) => {
                self.state.set(RefCellState::Shared(count - 1));
            },
            RefCellState::Exclusive => {
                proof {
                    assert(false);
                }
            },
        }
    }

    /// Ends the exclusive borrow: stores the receipt's value into the cell
    /// and returns the cell to rest.
    pub fn end_borrow_mut(&mut self, modifier: RefMut<T>)
        requires
            old(self).borrow_state() == RefCellState::Exclusive,
        ensures
            final(self)@ == modifier.value,
            final(self).borrow_state() == RefCellState::Shared(0usize),
    {
        self.value = modifier.value;
        self.state.set(RefCellState::Shared(0));
    }
}

} // verus!
