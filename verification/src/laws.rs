//! What holds of wrap-around arithmetic, and of a counter over whole
//! sequences of operations.

use vstd::prelude::*;
use crate::model::{delta_sum, fits_i32, never_crosses, only_moves, value_after, wrap_i32, Operation};

verus! {

/// Wrapping gives a value in the range of `i32` that differs from `x` by a
/// multiple of 2^32.
pub proof fn wrap_is_representative(x: int)
    ensures
        fits_i32(wrap_i32(x)),
        (wrap_i32(x) - x) % 0x1_0000_0000 == 0,
{
}

/// Wrapping leaves a value that is already in the range of `i32` as it is.
pub proof fn wrap_keeps_i32(x: int)
    requires
        fits_i32(x),
    ensures
        wrap_i32(x) == x,
{
}

/// Wrapping an intermediate result does not change what a later sum wraps to.
pub proof fn wrap_absorbs(x: int, y: int)
    ensures
        wrap_i32(wrap_i32(x) + y) == wrap_i32(x + y),
{
}

/// Whatever operations are applied to a value in the range of `i32`, the
/// result is in that range.
pub proof fn value_always_fits(start: int, ops: Seq<Operation>)
    requires
        fits_i32(start),
    ensures
        fits_i32(value_after(start, ops)),
{
    if ops.len() > 0 {
        let before = value_after(start, ops.drop_last());
        match ops.last() {
            Operation::Increment => wrap_is_representative(before + 1),
            Operation::Add(n) => wrap_is_representative(before + n),
            Operation::Reset => {},
        }
    }
}

/// After increments and adds, a counter holds the true sum of its starting
/// value and all deltas, wrapped into the range of `i32`. Overflow along the
/// way loses nothing but multiples of 2^32.
pub proof fn value_is_wrapped_sum(start: int, ops: Seq<Operation>)
    requires
        fits_i32(start),
        only_moves(ops),
    ensures
        value_after(start, ops) == wrap_i32(start + delta_sum(ops)),
    decreases ops.len(),
{
    if ops.len() > 0 {
        let before = ops.drop_last();
        value_is_wrapped_sum(start, before);
        wrap_absorbs(start + delta_sum(before), ops.last().delta());
    }
}

/// After increments and adds whose running sum never leaves the range of
/// `i32`, a counter that started at zero holds exactly the sum of the deltas:
/// 1 for each increment and `n` for each `Add(n)`.
pub proof fn value_is_sum_of_deltas(ops: Seq<Operation>)
    requires
        only_moves(ops),
        never_crosses(ops),
    ensures
        value_after(0, ops) == delta_sum(ops),
{
    value_is_wrapped_sum(0, ops);
    assert(ops.take(ops.len() as int) == ops);
    wrap_keeps_i32(delta_sum(ops));
}

/// A reset leaves zero, whatever the value was.
pub proof fn reset_gives_zero(value: int)
    ensures
        Operation::Reset.apply(value) == 0,
{
}

/// A reset forgets what came before it: the operations after a reset leave
/// what they would leave in a counter that started at zero.
pub proof fn reset_starts_afresh(start: int, before: Seq<Operation>, after: Seq<Operation>)
    ensures
        value_after(start, before.push(Operation::Reset) + after) == value_after(0, after),
    decreases after.len(),
{
    let ops = before.push(Operation::Reset) + after;
    if after.len() == 0 {
        assert(ops == before.push(Operation::Reset));
        assert(ops.drop_last() == before);
    } else {
        assert(ops.drop_last() == before.push(Operation::Reset) + after.drop_last());
        reset_starts_afresh(start, before, after.drop_last());
    }
}

/// A second reset directly after a first changes nothing: two resets in a
/// row leave what one leaves.
pub proof fn reset_is_idempotent(value: int)
    ensures
        Operation::Reset.apply(Operation::Reset.apply(value)) == Operation::Reset.apply(value),
{
}

} // verus!
