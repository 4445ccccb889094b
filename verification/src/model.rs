//! The mathematical model of a counter: its value is an integer, and each
//! operation is a function on that integer.

use vstd::prelude::*;

verus! {

/// Whether `x` can be held by an `i32`.
pub open spec fn fits_i32(x: int) -> bool {
    i32::MIN <= x <= i32::MAX
}

/// The one integer in the range of `i32` that differs from `x` by a multiple
/// of 2^32: what two's-complement arithmetic keeps of `x`.
pub open spec fn wrap_i32(x: int) -> int {
    (x + 0x8000_0000) % 0x1_0000_0000 - 0x8000_0000
}

/// One operation that changes a counter.
pub enum Operation {
    /// Move the value up by one.
    Increment,
    /// Move the value by the given amount, which may be negative or zero.
    Add(i32),
    /// Set the value to zero.
    Reset,
}

impl Operation {
    /// The value that a counter holds after this operation, when it held
    /// `value` before.
    pub open spec fn apply(self, value: int) -> int {
        match self {
            Operation::Increment => wrap_i32(value + 1),
            Operation::Add(n) => wrap_i32(value + n),
            Operation::Reset => 0,
        }
    }

    /// The amount by which an increment or an add moves the value, before any
    /// wrapping: 1 for an increment, `n` for `Add(n)`.
    pub open spec fn delta(self) -> int
        recommends
            self !is Reset,
    {
        match self {
            Operation::Increment => 1,
            Operation::Add(n) => n as int,
            Operation::Reset => 0,
        }
    }
}

/// The value that a counter holds after the operations `ops`, applied in
/// order from the first, when it held `start` before.
pub open spec fn value_after(start: int, ops: Seq<Operation>) -> int
    decreases ops.len(),
{
    if ops.len() == 0 {
        start
    } else {
        ops.last().apply(value_after(start, ops.drop_last()))
    }
}

/// Whether `ops` holds increments and adds only, and no reset.
pub open spec fn only_moves(ops: Seq<Operation>) -> bool {
    forall|i: int| 0 <= i < ops.len() ==> #[trigger] ops[i] !is Reset
}

/// The arithmetic sum of the deltas of `ops`, taken over the integers.
pub open spec fn delta_sum(ops: Seq<Operation>) -> int
    recommends
        only_moves(ops),
    decreases ops.len(),
{
    if ops.len() == 0 {
        0
    } else {
        delta_sum(ops.drop_last()) + ops.last().delta()
    }
}

/// Whether the running sum of the deltas of `ops`, started at zero, is in the
/// range of `i32` after every operation: the sequence never crosses the
/// bounds at which a counter wraps around.
pub open spec fn never_crosses(ops: Seq<Operation>) -> bool {
    forall|k: int| 0 <= k <= ops.len() ==> fits_i32(#[trigger] delta_sum(ops.take(k)))
}

} // verus!
