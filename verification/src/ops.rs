//! Arithmetic fetch-and-modify operations for the cell.
//!
//! A cell can add to or subtract from its held value whenever the value's
//! type says how: [`ValueAdd`] and [`ValueSub`] describe a value type's own
//! addition and subtraction, and the cell-level traits [`AddAssign`],
//! [`SubAssign`], [`FetchAdd`] and [`FetchSub`] delegate to them. Each
//! operation requires the result to stay within the value type's range, so
//! none of them ever faults; [`ValueAdd::try_add`] and [`ValueSub::try_sub`]
//! let a caller test that bound before asking for the operation.

use vstd::prelude::*;

use crate::Beefeater;

verus! {

/// A value type that defines its own addition by a right-hand side of type
/// `Rhs`.
pub trait ValueAdd<Rhs>: Sized {
    /// Whether adding `rhs` keeps the result within the type's range.
    spec fn can_add(self, rhs: Rhs) -> bool;

    /// The sum, meaningful whenever `can_add` holds.
    spec fn add_spec(self, rhs: Rhs) -> Self;

    /// Adds `rhs` to this value.
    fn value_add(self, rhs: Rhs) -> (sum: Self)
        requires
            self.can_add(rhs),
        ensures
            sum == self.add_spec(rhs),
    ;

    /// Adds `rhs` to this value, or reports that the sum would leave the
    /// type's range.
    fn try_add(self, rhs: Rhs) -> (sum: Option<Self>)
        ensures
            (sum == if self.can_add(rhs) {
                Some(self.add_spec(rhs))
            } else {
                None::<Self>
            }),
    ;
}

/// A value type that defines its own subtraction by a right-hand side of
/// type `Rhs`.
pub trait ValueSub<Rhs>: Sized {
    /// Whether subtracting `rhs` keeps the result within the type's range.
    spec fn can_sub(self, rhs: Rhs) -> bool;

    /// The difference, meaningful whenever `can_sub` holds.
    spec fn sub_spec(self, rhs: Rhs) -> Self;

    /// Subtracts `rhs` from this value.
    fn value_sub(self, rhs: Rhs) -> (diff: Self)
        requires
            self.can_sub(rhs),
        ensures
            diff == self.sub_spec(rhs),
    ;

    /// Subtracts `rhs` from this value, or reports that the difference would
    /// leave the type's range.
    fn try_sub(self, rhs: Rhs) -> (diff: Option<Self>)
        ensures
            (diff == if self.can_sub(rhs) {
                Some(self.sub_spec(rhs))
            } else {
                None::<Self>
            }),
    ;
}

impl ValueAdd<u64> for u64 {
    open spec fn can_add(self, rhs: u64) -> bool {
        self + rhs <= u64::MAX
    }

    open spec fn add_spec(self, rhs: u64) -> u64 {
        (self + rhs) as u64
    }

    fn value_add(self, rhs: u64) -> u64 {
        self + rhs
    }

    fn try_add(self, rhs: u64) -> Option<u64> {
        self.checked_add(rhs)
    }
}

impl ValueSub<u64> for u64 {
    open spec fn can_sub(self, rhs: u64) -> bool {
        self - rhs >= 0
    }

    open spec fn sub_spec(self, rhs: u64) -> u64 {
        (self - rhs) as u64
    }

    fn value_sub(self, rhs: u64) -> u64 {
        self - rhs
    }

    fn try_sub(self, rhs: u64) -> Option<u64> {
        self.checked_sub(rhs)
    }
}

impl ValueAdd<u32> for u32 {
    open spec fn can_add(self, rhs: u32) -> bool {
        self + rhs <= u32::MAX
    }

    open spec fn add_spec(self, rhs: u32) -> u32 {
        (self + rhs) as u32
    }

    fn value_add(self, rhs: u32) -> u32 {
        self + rhs
    }

    fn try_add(self, rhs: u32) -> Option<u32> {
        self.checked_add(rhs)
    }
}

impl ValueSub<u32> for u32 {
    open spec fn can_sub(self, rhs: u32) -> bool {
        self - rhs >= 0
    }

    open spec fn sub_spec(self, rhs: u32) -> u32 {
        (self - rhs) as u32
    }

    fn value_sub(self, rhs: u32) -> u32 {
        self - rhs
    }

    fn try_sub(self, rhs: u32) -> Option<u32> {
        self.checked_sub(rhs)
    }
}

impl ValueAdd<usize> for usize {
    open spec fn can_add(self, rhs: usize) -> bool {
        self + rhs <= usize::MAX
    }

    open spec fn add_spec(self, rhs: usize) -> usize {
        (self + rhs) as usize
    }

    fn value_add(self, rhs: usize) -> usize {
        self + rhs
    }

    fn try_add(self, rhs: usize) -> Option<usize> {
        self.checked_add(rhs)
    }
}

impl ValueSub<usize> for usize {
    open spec fn can_sub(self, rhs: usize) -> bool {
        self - rhs >= 0
    }

    open spec fn sub_spec(self, rhs: usize) -> usize {
        (self - rhs) as usize
    }

    fn value_sub(self, rhs: usize) -> usize {
        self - rhs
    }

    fn try_sub(self, rhs: usize) -> Option<usize> {
        self.checked_sub(rhs)
    }
}

impl ValueAdd<i32> for i32 {
    open spec fn can_add(self, rhs: i32) -> bool {
        i32::MIN <= self + rhs <= i32::MAX
    }

    open spec fn add_spec(self, rhs: i32) -> i32 {
        (self + rhs) as i32
    }

    fn value_add(self, rhs: i32) -> i32 {
        self + rhs
    }

    fn try_add(self, rhs: i32) -> Option<i32> {
        self.checked_add(rhs)
    }
}

impl ValueSub<i32> for i32 {
    open spec fn can_sub(self, rhs: i32) -> bool {
        i32::MIN <= self - rhs <= i32::MAX
    }

    open spec fn sub_spec(self, rhs: i32) -> i32 {
        (self - rhs) as i32
    }

    fn value_sub(self, rhs: i32) -> i32 {
        self - rhs
    }

    fn try_sub(self, rhs: i32) -> Option<i32> {
        self.checked_sub(rhs)
    }
}

impl ValueAdd<i64> for i64 {
    open spec fn can_add(self, rhs: i64) -> bool {
        i64::MIN <= self + rhs <= i64::MAX
    }

    open spec fn add_spec(self, rhs: i64) -> i64 {
        (self + rhs) as i64
    }

    fn value_add(self, rhs: i64) -> i64 {
        self + rhs
    }

    fn try_add(self, rhs: i64) -> Option<i64> {
        self.checked_add(rhs)
    }
}

impl ValueSub<i64> for i64 {
    open spec fn can_sub(self, rhs: i64) -> bool {
        i64::MIN <= self - rhs <= i64::MAX
    }

    open spec fn sub_spec(self, rhs: i64) -> i64 {
        (self - rhs) as i64
    }

    fn value_sub(self, rhs: i64) -> i64 {
        self - rhs
    }

    fn try_sub(self, rhs: i64) -> Option<i64> {
        self.checked_sub(rhs)
    }
}

impl ValueAdd<isize> for isize {
    open spec fn can_add(self, rhs: isize) -> bool {
        isize::MIN <= self + rhs <= isize::MAX
    }

    open spec fn add_spec(self, rhs: isize) -> isize {
        (self + rhs) as isize
    }

    fn value_add(self, rhs: isize) -> isize {
        self + rhs
    }

    fn try_add(self, rhs: isize) -> Option<isize> {
        self.checked_add(rhs)
    }
}

impl ValueSub<isize> for isize {
    open spec fn can_sub(self, rhs: isize) -> bool {
        isize::MIN <= self - rhs <= isize::MAX
    }

    open spec fn sub_spec(self, rhs: isize) -> isize {
        (self - rhs) as isize
    }

    fn value_sub(self, rhs: isize) -> isize {
        self - rhs
    }

    fn try_sub(self, rhs: isize) -> Option<isize> {
        self.checked_sub(rhs)
    }
}

/// A container that can add to its held value, replacing it with the sum.
pub trait AddAssign<Rhs>: View + Sized {
    /// Whether adding `val` keeps the held value within its type's range.
    spec fn add_in_range(&self, val: Rhs) -> bool;

    /// The held value after adding `val`.
    spec fn added(&self, val: Rhs) -> Self::V;

    /// Adds `val` to the held value, storing the sum.
    fn add_assign(&mut self, val: Rhs)
        requires
            old(self).add_in_range(val),
        ensures
            final(self)@ == old(self).added(val),
    ;
}

/// A container that can subtract from its held value, replacing it with the
/// difference.
pub trait SubAssign<Rhs>: View + Sized {
    /// Whether subtracting `val` keeps the held value within its type's
    /// range.
    spec fn sub_in_range(&self, val: Rhs) -> bool;

    /// The held value after subtracting `val`.
    spec fn subtracted(&self, val: Rhs) -> Self::V;

    /// Subtracts `val` from the held value, storing the difference.
    fn sub_assign(&mut self, val: Rhs)
        requires
            old(self).sub_in_range(val),
        ensures
            final(self)@ == old(self).subtracted(val),
    ;
}

/// A container that can add to its held value and return the value held
/// immediately before, in one indivisible step.
pub trait FetchAdd<Lhs, Rhs>: AddAssign<Rhs> + View<V = Lhs> {
    /// Adds `val` to the held value, returning the previous value.
    fn fetch_add(&mut self, val: Rhs) -> (prev: Lhs)
        requires
            old(self).add_in_range(val),
        ensures
            prev == old(self)@,
            final(self)@ == old(self).added(val),
    ;
}

/// A container that can subtract from its held value and return the value
/// held immediately before, in one indivisible step.
pub trait FetchSub<Lhs, Rhs>: SubAssign<Rhs> + View<V = Lhs> {
    /// Subtracts `val` from the held value, returning the previous value.
    fn fetch_sub(&mut self, val: Rhs) -> (prev: Lhs)
        requires
            old(self).sub_in_range(val),
        ensures
            prev == old(self)@,
            final(self)@ == old(self).subtracted(val),
    ;
}

impl<T: Copy + ValueAdd<R>, R> AddAssign<R> for Beefeater<T> {
    open spec fn add_in_range(&self, val: R) -> bool {
        self@.can_add(val)
    }

    open spec fn added(&self, val: R) -> T {
        self@.add_spec(val)
    }

    fn add_assign(&mut self, val: R) {
        let prev = self.load();
        self.store(prev.value_add(val));
    }
}

impl<T: Copy + ValueSub<R>, R> SubAssign<R> for Beefeater<T> {
    open spec fn sub_in_range(&self, val: R) -> bool {
        self@.can_sub(val)
    }

    open spec fn subtracted(&self, val: R) -> T {
        self@.sub_spec(val)
    }

    fn sub_assign(&mut self, val: R) {
        let prev = self.load();
        self.store(prev.value_sub(val));
    }
}

impl<T: Copy + ValueAdd<R>, R> FetchAdd<T, R> for Beefeater<T> {
    fn fetch_add(&mut self, val: R) -> (prev: T) {
        let prev = self.load();
        self.store(prev.value_add(val));
        prev
    }
}

impl<T: Copy + ValueSub<R>, R> FetchSub<T, R> for Beefeater<T> {
    fn fetch_sub(&mut self, val: R) -> (prev: T) {
        let prev = self.load();
        self.store(prev.value_sub(val));
        prev
    }
}

/// No update is lost when updates are serialized: `count` calls of
/// `add_assign(1)` on a cell of `u64` raise the held value by exactly
/// `count`. Threads contending for one cell perform exactly this sequence of
/// operations, in whatever order the cell serializes them.
pub fn add_assign_repeated(cell: &mut Beefeater<u64>, count: u64)
    requires
        old(cell)@ + count <= u64::MAX,
    ensures
        final(cell)@ == old(cell)@ + count,
{
    let mut done: u64 = 0;
    while done < count
        invariant
            done <= count,
            old(cell)@ + count <= u64::MAX,
            cell@ == old(cell)@ + done,
        decreases count - done,
    {
        cell.add_assign(1u64);
        done = done + 1;
    }
}

/// Consecutive `fetch_add` calls with positive deltas return strictly
/// increasing previous values: no two of them observe the same value. Under
/// contention the cell serializes `fetch_add` calls into exactly such a
/// sequence.
pub fn fetch_add_pair(cell: &mut Beefeater<u64>, first: u64, second: u64) -> (pair: (u64, u64))
    requires
        1 <= first,
        1 <= second,
        old(cell)@ + first + second <= u64::MAX,
    ensures
        pair.0 == old(cell)@,
        pair.1 == old(cell)@ + first,
        pair.0 < pair.1,
        final(cell)@ == old(cell)@ + first + second,
{
    let a = cell.fetch_add(first);
    let b = cell.fetch_add(second);
    (a, b)
}

} // verus!

