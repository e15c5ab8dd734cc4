//! The counter as mathematics: what a single operation does to the pair of
//! value and step, and what a run of operations does.
//!
//! Executable code states its contracts over the functions of this module.

use crate::counter::{Args, Counter, CounterData};
use vstd::prelude::*;

verus! {

/// The number of values a counter can take. All counter arithmetic is
/// arithmetic modulo this number.
pub open spec fn modulus() -> int {
    0x1_0000_0000
}

/// The representative of `total` in `0 ..= u32::MAX`.
///
/// `%` is Euclidean here, so a negative total wraps upward:
/// `wrap(-1) == u32::MAX`.
pub open spec fn wrap(total: int) -> u32 {
    (total % modulus()) as u32
}

/// The exact sum of `amounts`, without any wrapping.
pub open spec fn sum(amounts: Seq<u32>) -> int
    decreases amounts.len(),
{
    if amounts.len() == 0 {
        0
    } else {
        sum(amounts.drop_last()) + amounts.last()
    }
}

/// One operation on a counter that may change its value.
pub enum Op {
    /// Add the counter's step.
    Increment,
    /// Subtract the counter's step.
    Decrement,
    /// Add the given amount.
    IncrementBy(u32),
    /// Subtract the given amount.
    DecrementBy(u32),
    /// Add each amount of the sequence, first to last.
    IncrementByMany(Seq<u32>),
    /// Subtract each amount of the sequence, first to last.
    DecrementByMany(Seq<u32>),
}

impl Op {
    /// The signed change that the operation asks for on a counter with the
    /// given step, before wrapping.
    pub open spec fn delta(self, step: u32) -> int {
        match self {
            Op::Increment => step as int,
            Op::Decrement => -(step as int),
            Op::IncrementBy(amount) => amount as int,
            Op::DecrementBy(amount) => -(amount as int),
            Op::IncrementByMany(amounts) => sum(amounts),
            Op::DecrementByMany(amounts) => -sum(amounts),
        }
    }
}

/// The signed change that a run of operations asks for in total, before
/// wrapping.
pub open spec fn total_delta(ops: Seq<Op>, step: u32) -> int
    decreases ops.len(),
{
    if ops.len() == 0 {
        0
    } else {
        total_delta(ops.drop_last(), step) + ops.last().delta(step)
    }
}

/// The operations that add the given amounts one at a time, in order.
pub open spec fn increments(amounts: Seq<u32>) -> Seq<Op> {
    Seq::new(amounts.len(), |i: int| Op::IncrementBy(amounts[i]))
}

/// The operations that subtract the given amounts one at a time, in order.
pub open spec fn decrements(amounts: Seq<u32>) -> Seq<Op> {
    Seq::new(amounts.len(), |i: int| Op::DecrementBy(amounts[i]))
}

impl CounterData {
    /// What a counter made from `args` holds.
    pub open spec fn initial(args: Args) -> CounterData {
        CounterData { val: args.init, by: args.by }
    }

    /// What is reported in place of a counter that is not there.
    pub open spec fn absent() -> CounterData {
        CounterData { val: 0, by: 0 }
    }

    /// The counter after one operation: the value moves by the operation's
    /// delta and wraps, the step stays.
    pub open spec fn after(self, op: Op) -> CounterData {
        CounterData { val: wrap(self.val + op.delta(self.by)), by: self.by }
    }

    /// The counter after a run of operations, applied first to last.
    pub open spec fn after_all(self, ops: Seq<Op>) -> CounterData
        decreases ops.len(),
    {
        if ops.len() == 0 {
            self
        } else {
            self.after_all(ops.drop_last()).after(ops.last())
        }
    }
}

/// What a handle reports of its counter: value and step, or zeros where
/// there is no counter.
pub open spec fn snapshot(handle: Option<&Counter>) -> CounterData {
    match handle {
        Some(counter) => counter@,
        None => CounterData::absent(),
    }
}

} // verus!
