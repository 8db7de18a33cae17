//! A guard around any type that implements `Copy`.
//!
//! [`Beefeater`] holds exactly one plain-data value and hands out copies of
//! it. Every operation replaces or reads the whole value in one step: a read
//! never observes a partially written value, and a replacement never loses a
//! previous write. The contracts on each operation state exactly which value
//! the cell holds afterwards and which value the caller gets back.
//!
//! The arithmetic extensions in [`ops`] add fetch-and-modify operations for
//! value types that define their own addition and subtraction. Their
//! preconditions keep every operation inside the value type's range, so no
//! operation here ever faults.

use vstd::prelude::*;

pub mod ops;

pub use ops::AddAssign;
pub use ops::FetchAdd;
pub use ops::FetchSub;
pub use ops::SubAssign;
pub use ops::ValueAdd;
pub use ops::ValueSub;

verus! {

/// A guard around any type that implements `Copy`, which holds one value and
/// exchanges it only as a whole.
#[derive(Debug)]
pub struct Beefeater<T: Copy>(T);

impl<T: Copy> View for Beefeater<T> {
    type V = T;

    /// The value the cell currently holds.
    closed spec fn view(&self) -> T {
        self.0
    }
}

impl<T: Copy> Beefeater<T> {
    /// Creates a new `Beefeater` holding `value`.
    pub fn new(value: T) -> (cell: Beefeater<T>)
        ensures
            cell@ == value,
    {
        Beefeater(value)
    }

    /// Loads a copy of the current value from the `Beefeater`.
    pub fn load(&self) -> (value: T)
        ensures
            value == self@,
    {
        self.0
    }

    /// Stores a new value into the `Beefeater`, discarding the previous one.
    pub fn store(&mut self, value: T)
        ensures
            final(self)@ == value,
    {
        self.0 = value;
    }

    /// Stores a new value into the `Beefeater`, returning the value held
    /// immediately before.
    pub fn swap(&mut self, value: T) -> (prev: T)
        ensures
            prev == old(self)@,
            final(self)@ == value,
    {
        let prev = self.0;
        self.0 = value;
        prev
    }
}

impl<T: Copy + Default> Default for Beefeater<T> {
    /// Creates a `Beefeater` holding `T`'s default value: the cell's initial
    /// value satisfies everything `T::default()` promises of its result.
    fn default() -> (cell: Self)
        ensures
            call_ensures(T::default, (), cell@),
    {
        Beefeater::new(T::default())
    }
}

/// A newly created cell holds exactly the given value, and loading has no
/// side effect: repeated loads return that value unchanged. The result
/// carries both loaded copies and the cell itself.
pub fn new_then_load<T: Copy>(value: T) -> (out: (T, T, Beefeater<T>))
    ensures
        out.0 == value,
        out.1 == value,
        out.2@ == value,
{
    let cell = Beefeater::new(value);
    let first = cell.load();
    let second = cell.load();
    (first, second, cell)
}

/// After a store, a load returns exactly the stored value, whatever the
/// cell held before.
pub fn store_then_load<T: Copy>(cell: &mut Beefeater<T>, value: T) -> (loaded: T)
    ensures
        loaded == value,
        final(cell)@ == value,
{
    cell.store(value);
    cell.load()
}

/// Each `swap` returns the value held immediately before it: starting from
/// `a`, swapping in `b` and then `c` returns `a` then `b` and leaves the
/// cell holding `c`.
pub fn swap_chain<T: Copy>(a: T, b: T, c: T) -> (out: (T, T, Beefeater<T>))
    ensures
        out.0 == a,
        out.1 == b,
        out.2@ == c,
{
    let mut cell = Beefeater::new(a);
    let first = cell.swap(b);
    let second = cell.swap(c);
    (first, second, cell)
}

/// Swapping in the value the cell already holds is idempotent: the call
/// returns that value and the cell goes on holding it.
pub fn swap_equal<T: Copy>(cell: &mut Beefeater<T>, value: T) -> (prev: T)
    requires
        old(cell)@ == value,
    ensures
        prev == value,
        final(cell)@ == value,
{
    cell.swap(value)
}

} // verus!

