//! Capability contracts for the types a runtime is instantiated with.
//!
//! A pallet never fixes the concrete account, counter or amount types it
//! works on; it only demands the capabilities below. A host embedding a
//! pallet picks concrete types and proves (once) that they satisfy these
//! contracts. Implementations for the types used by the reference runtime
//! live at the bottom of this module.

use vstd::prelude::*;

verus! {

/// An identifier usable as a storage key: it exposes a mathematical key that
/// specifications speak about, a decision procedure for key equality, and a
/// way to duplicate the identifier without losing its key.
pub trait Identifier: Sized {
    /// The mathematical value that stands for this identifier in specifications.
    type Key;

    /// The key of this identifier.
    spec fn key(&self) -> Self::Key;

    /// Decide whether two identifiers carry the same key.
    fn id_eq(&self, other: &Self) -> (r: bool)
        ensures
            r <==> self.key() == other.key(),
    ;

    /// Produce a fresh identifier carrying the same key.
    fn dup(&self) -> (r: Self)
        ensures
            r.key() == self.key(),
    ;
}

/// A counter supporting zero and successor, up to a fixed ceiling.
pub trait Counter: Sized + Copy {
    /// The mathematical value of this counter.
    spec fn value(&self) -> int;

    /// The largest value a counter of this type can hold.
    spec fn max_value() -> int;

    /// The counter holding zero.
    fn zero() -> (r: Self)
        ensures
            r.value() == 0,
    ;

    /// The successor of this counter; only defined below the ceiling.
    fn incr(self) -> (r: Self)
        requires
            self.value() < Self::max_value(),
        ensures
            r.value() == self.value() + 1,
    ;
}

/// A non-negative amount supporting zero and overflow-detecting arithmetic.
pub trait Amount: Sized + Copy {
    /// The mathematical value of this amount.
    spec fn value(&self) -> int;

    /// The largest value an amount of this type can hold.
    spec fn max_value() -> int;

    /// The zero amount.
    fn zero() -> (r: Self)
        ensures
            r.value() == 0,
    ;

    /// Add, detecting overflow beyond the ceiling.
    fn checked_add(self, other: Self) -> (r: Option<Self>)
        ensures
            match r {
                Some(v) => self.value() + other.value() <= Self::max_value()
                    && v.value() == self.value() + other.value(),
                None => self.value() + other.value() > Self::max_value(),
            },
    ;

    /// Subtract, detecting underflow below zero.
    fn checked_sub(self, other: Self) -> (r: Option<Self>)
        ensures
            match r {
                Some(v) => other.value() <= self.value()
                    && v.value() == self.value() - other.value(),
                None => other.value() > self.value(),
            },
    ;
}

impl Identifier for String {
    type Key = Seq<char>;

    open spec fn key(&self) -> Seq<char> {
        self@
    }

    fn id_eq(&self, other: &String) -> (r: bool) {
        self.eq(other)
    }

    fn dup(&self) -> (r: String) {
        self.clone()
    }
}

impl Counter for u32 {
    open spec fn value(&self) -> int {
        *self as int
    }

    open spec fn max_value() -> int {
        u32::MAX as int
    }

    fn zero() -> (r: u32) {
        0
    }

    fn incr(self) -> (r: u32) {
        self + 1
    }
}

impl Amount for u128 {
    open spec fn value(&self) -> int {
        *self as int
    }

    open spec fn max_value() -> int {
        u128::MAX as int
    }

    fn zero() -> (r: u128) {
        0
    }

    fn checked_add(self, other: u128) -> (r: Option<u128>) {
        u128::checked_add(self, other)
    }

    fn checked_sub(self, other: u128) -> (r: Option<u128>) {
        u128::checked_sub(self, other)
    }
}

} // verus!
