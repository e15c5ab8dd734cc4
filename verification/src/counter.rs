//! The counter itself and the plain values that describe it.

use crate::model::{sum, wrap, Op};
use vstd::prelude::*;

verus! {

/// The single-precision number one, as its bit pattern.
pub const ONE_BITS: u32 = 0x3F80_0000;

/// The single-precision number two, as its bit pattern.
pub const TWO_BITS: u32 = 0x4000_0000;

/// What a counter is made from.
#[derive(Clone, Copy, Debug, PartialEq, Eq, Structural)]
pub struct Args {
    /// The value the counter starts at.
    pub init: u32,
    /// The step of `incr` and `decr`.
    pub by: u32,
}

/// A copy of a counter's value and step, with no tie to the counter.
#[derive(Clone, Copy, Debug, PartialEq, Eq, Structural)]
pub struct CounterData {
    /// The value at the time of the copy.
    pub val: u32,
    /// The step.
    pub by: u32,
}

/// A point of the plane.
///
/// Each coordinate is a single-precision number held as its IEEE 754 bit
/// pattern, so that equality of points is equality of bits.
#[derive(Clone, Copy, Debug, PartialEq, Eq, Structural)]
pub struct Vector2 {
    pub x: u32,
    pub y: u32,
}

/// The positions that every counter holds: the points at zero, one and two
/// on the diagonal.
pub open spec fn default_positions() -> Seq<Vector2> {
    seq![
        Vector2 { x: 0, y: 0 },
        Vector2 { x: ONE_BITS, y: ONE_BITS },
        Vector2 { x: TWO_BITS, y: TWO_BITS },
    ]
}

/// A value that moves in steps and wraps at the ends of `u32`, with a fixed
/// list of positions.
pub struct Counter {
    val: u32,
    by: u32,
    positions: Vec<Vector2>,
}

impl View for Counter {
    type V = CounterData;

    /// Value and step.
    closed spec fn view(&self) -> CounterData {
        CounterData { val: self.val, by: self.by }
    }
}

impl Counter {
    /// The positions are set when the counter is made and never change.
    #[verifier::type_invariant]
    spec fn positions_fixed(self) -> bool {
        self.positions@ == default_positions()
    }

    /// The positions the counter holds.
    pub closed spec fn positions(self) -> Seq<Vector2> {
        self.positions@
    }

    /// A counter that starts at `args.init`, steps by `args.by` and holds
    /// the default positions.
    pub fn new(args: Args) -> (counter: Counter)
        ensures
            counter@ == CounterData::initial(args),
            counter.positions() == default_positions(),
    {
        let mut poses: Vec<Vector2> = Vec::new();
        poses.push(Vector2 { x: 0, y: 0 });
        poses.push(Vector2 { x: ONE_BITS, y: ONE_BITS });
        poses.push(Vector2 { x: TWO_BITS, y: TWO_BITS });
        assert(poses@ =~= default_positions());

        Counter { val: args.init, by: args.by, positions: poses }
    }

    /// The current value.
    pub fn get(&self) -> (value: u32)
        ensures
            value == self@.val,
    {
        self.val
    }

    /// The step.
    pub fn get_by(&self) -> (step: u32)
        ensures
            step == self@.by,
    {
        self.by
    }

    /// Adds the step and returns the new value.
    pub fn incr(&mut self) -> (value: u32)
        ensures
            final(self)@ == old(self)@.after(Op::Increment),
            final(self).positions() == old(self).positions(),
            value == final(self)@.val,
    {
        proof {
            use_type_invariant(&*self);
        }
        self.val = self.val.wrapping_add(self.by);
        self.val
    }

    /// Subtracts the step and returns the new value.
    pub fn decr(&mut self) -> (value: u32)
        ensures
            final(self)@ == old(self)@.after(Op::Decrement),
            final(self).positions() == old(self).positions(),
            value == final(self)@.val,
    {
        proof {
            use_type_invariant(&*self);
        }
        self.val = self.val.wrapping_sub(self.by);
        self.val
    }

    /// Adds `by` and returns the new value.
    pub fn incr_by(&mut self, by: u32) -> (value: u32)
        ensures
            final(self)@ == old(self)@.after(Op::IncrementBy(by)),
            final(self).positions() == old(self).positions(),
            value == final(self)@.val,
    {
        proof {
            use_type_invariant(&*self);
        }
        self.val = self.val.wrapping_add(by);
        self.val
    }

    /// Subtracts `by` and returns the new value.
    pub fn decr_by(&mut self, by: u32) -> (value: u32)
        ensures
            final(self)@ == old(self)@.after(Op::DecrementBy(by)),
            final(self).positions() == old(self).positions(),
            value == final(self)@.val,
    {
        proof {
            use_type_invariant(&*self);
        }
        self.val = self.val.wrapping_sub(by);
        self.val
    }

    /// Adds each amount of `bys`, first to last, and returns the new value.
    pub fn incr_by_many(&mut self, bys: &[u32]) -> (value: u32)
        ensures
            final(self)@ == old(self)@.after(Op::IncrementByMany(bys@)),
            final(self).positions() == old(self).positions(),
            value == final(self)@.val,
    {
        let n = bys.len();
        for i in 0..n
            invariant
                n == bys@.len(),
                self@.by == old(self)@.by,
                self@.val == wrap(old(self)@.val + sum(bys@.take(i as int))),
                self.positions() == old(self).positions(),
        {
            proof {
                use_type_invariant(&*self);
                assert(bys@.take(i + 1).drop_last() =~= bys@.take(i as int));
            }
            self.val = self.val.wrapping_add(bys[i]);
        }
        assert(bys@.take(n as int) =~= bys@);
        self.val
    }

    /// Subtracts each amount of `bys`, first to last, and returns the new
    /// value.
    pub fn decr_by_many(&mut self, bys: &[u32]) -> (value: u32)
        ensures
            final(self)@ == old(self)@.after(Op::DecrementByMany(bys@)),
            final(self).positions() == old(self).positions(),
            value == final(self)@.val,
    {
        let n = bys.len();
        for i in 0..n
            invariant
                n == bys@.len(),
                self@.by == old(self)@.by,
                self@.val == wrap(old(self)@.val - sum(bys@.take(i as int))),
                self.positions() == old(self).positions(),
        {
            proof {
                use_type_invariant(&*self);
                assert(bys@.take(i + 1).drop_last() =~= bys@.take(i as int));
            }
            self.val = self.val.wrapping_sub(bys[i]);
        }
        assert(bys@.take(n as int) =~= bys@);
        self.val
    }

    /// The positions, which are `default_positions()` for every counter at
    /// every time.
    pub fn get_positions(&self) -> (positions: &Vec<Vector2>)
        ensures
            positions@ == self.positions(),
            positions@ == default_positions(),
    {
        proof {
            use_type_invariant(self);
        }
        &self.positions
    }
}

impl Clone for Counter {
    /// A second counter with the same value, step and positions.
    fn clone(&self) -> (copy: Self)
        ensures
            copy@ == self@,
            copy.positions() == self.positions(),
    {
        proof {
            use_type_invariant(self);
        }
        Counter { val: self.val, by: self.by, positions: self.positions.clone() }
    }
}

} // verus!
