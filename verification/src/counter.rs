//! The counter type and its operations.

use vstd::prelude::*;
use crate::model::{fits_i32, wrap_i32, Operation};

verus! {

/// A counter that holds one signed 32-bit value.
pub struct Counter {
    value: i32,
}

impl View for Counter {
    type V = int;

    /// The value that the counter holds.
    closed spec fn view(&self) -> int {
        self.value as int
    }
}

impl Counter {
    /// The value of every counter is in the range of `i32`.
    pub proof fn value_fits(&self)
        ensures
            fits_i32(self@),
    {
    }

    /// Creates a counter that holds zero.
    pub fn new() -> (counter: Counter)
        ensures
            counter@ == 0,
    {
        Counter { value: 0 }
    }

    /// Returns the value that the counter holds.
    pub fn get(&self) -> (value: i32)
        ensures
            value == self@,
    {
        self.value
    }

    /// Moves the value up by one. From `i32::MAX` it wraps around to
    /// `i32::MIN`.
    pub fn increment(&mut self)
        ensures
            final(self)@ == wrap_i32(old(self)@ + 1),
            final(self)@ == Operation::Increment.apply(old(self)@),
            old(self)@ < i32::MAX ==> final(self)@ == old(self)@ + 1,
    {
        self.value = self.value.wrapping_add(1);
    }

    /// Moves the value by `n`, which may be negative or zero. A sum outside
    /// the range of `i32` wraps around: 2^32 is taken from it or added to it.
    pub fn add(&mut self, n: i32)
        ensures
            final(self)@ == wrap_i32(old(self)@ + n),
            final(self)@ == Operation::Add(n).apply(old(self)@),
            fits_i32(old(self)@ + n) ==> final(self)@ == old(self)@ + n,
    {
        self.value = self.value.wrapping_add(n);
    }

    /// Sets the value to zero, whatever it was.
    pub fn reset(&mut self)
        ensures
            final(self)@ == 0,
            final(self)@ == Operation::Reset.apply(old(self)@),
    {
        self.value = 0;
    }

    /// Tells whether the value is even.
    pub fn is_even(&self) -> (even: bool)
        ensures
            even == (self@ % 2 == 0),
    {
        self.value % 2 == 0
    }
}

} // verus!
