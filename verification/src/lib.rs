//! A counter behind a handle.
//!
//! A caller makes a counter with [`createCounter`], works on it through the
//! operations of this module, and gives it up with [`destroyCounter`]. A
//! handle that may be missing is an `Option`: every operation accepts `None`
//! and answers it with a zero value, touching no counter.
//!
//! All arithmetic wraps modulo 2^32. The module [`model`] says what each
//! operation does in terms of integers, and [`laws`] proves what follows for
//! runs of operations.

#![allow(non_snake_case)]

pub mod counter;
pub mod laws;
pub mod model;

use crate::counter::{default_positions, Args, Counter, CounterData, Vector2};
use crate::model::{snapshot, Op};
use vstd::prelude::*;

verus! {

/// Makes a counter that starts at `args.init`, steps by `args.by` and holds
/// the default positions. The caller owns it.
pub fn createCounter(args: Args) -> (handle: Box<Counter>)
    ensures
        handle@ == CounterData::initial(args),
        handle.positions() == default_positions(),
{
    Box::new(Counter::new(args))
}

/// Gives the counter in `handle` up and leaves the handle empty, so that it
/// reads as missing from then on. An empty handle is accepted and stays
/// empty: giving up twice does no harm.
pub fn destroyCounter(handle: &mut Option<Box<Counter>>)
    ensures
        final(handle).is_none(),
{
    if let Some(counter) = handle.take() {
        // The box and the positions it owns are released where `counter`
        // goes out of scope.
        let _released: Box<Counter> = counter;
    }
}

/// A copy of the counter's value and step; zeros for `None`.
pub fn getCounterData(handle: Option<&Counter>) -> (data: CounterData)
    ensures
        data == snapshot(handle),
{
    match handle {
        None => CounterData { val: 0, by: 0 },
        Some(counter) => CounterData { val: counter.get(), by: counter.get_by() },
    }
}

/// The counter's value; zero for `None`.
pub fn getCounterValue(handle: Option<&Counter>) -> (value: u32)
    ensures
        value == snapshot(handle).val,
{
    match handle {
        None => 0,
        Some(counter) => counter.get(),
    }
}

/// Adds the counter's step to its value and returns the new value; zero for
/// `None`.
pub fn incrementCounter(handle: Option<&mut Counter>) -> (value: u32)
    ensures
        match handle {
            None => value == 0,
            Some(counter) => {
                &&& final(counter)@ == counter@.after(Op::Increment)
                &&& final(counter).positions() == counter.positions()
                &&& value == final(counter)@.val
            },
        },
{
    match handle {
        None => 0,
        Some(counter) => counter.incr(),
    }
}

/// Subtracts the counter's step from its value and returns the new value;
/// zero for `None`.
pub fn decrementCounter(handle: Option<&mut Counter>) -> (value: u32)
    ensures
        match handle {
            None => value == 0,
            Some(counter) => {
                &&& final(counter)@ == counter@.after(Op::Decrement)
                &&& final(counter).positions() == counter.positions()
                &&& value == final(counter)@.val
            },
        },
{
    match handle {
        None => 0,
        Some(counter) => counter.decr(),
    }
}

/// Adds `by` to the counter's value and returns the new value; zero for
/// `None`.
pub fn incrementCounterBy(handle: Option<&mut Counter>, by: u32) -> (value: u32)
    ensures
        match handle {
            None => value == 0,
            Some(counter) => {
                &&& final(counter)@ == counter@.after(Op::IncrementBy(by))
                &&& final(counter).positions() == counter.positions()
                &&& value == final(counter)@.val
            },
        },
{
    match handle {
        None => 0,
        Some(counter) => counter.incr_by(by),
    }
}

/// Subtracts `by` from the counter's value and returns the new value; zero
/// for `None`.
pub fn decrementCounterBy(handle: Option<&mut Counter>, by: u32) -> (value: u32)
    ensures
        match handle {
            None => value == 0,
            Some(counter) => {
                &&& final(counter)@ == counter@.after(Op::DecrementBy(by))
                &&& final(counter).positions() == counter.positions()
                &&& value == final(counter)@.val
            },
        },
{
    match handle {
        None => 0,
        Some(counter) => counter.decr_by(by),
    }
}

/// Adds each amount of `bys` to the counter's value, first to last, and
/// returns the new value; zero for `None`.
pub fn incrementCounterByMany(handle: Option<&mut Counter>, bys: &[u32]) -> (value: u32)
    ensures
        match handle {
            None => value == 0,
            Some(counter) => {
                &&& final(counter)@ == counter@.after(Op::IncrementByMany(bys@))
                &&& final(counter).positions() == counter.positions()
                &&& value == final(counter)@.val
            },
        },
{
    match handle {
        None => 0,
        Some(counter) => counter.incr_by_many(bys),
    }
}

/// Subtracts each amount of `bys` from the counter's value, first to last,
/// and returns the new value; zero for `None`.
pub fn decrementCounterByMany(handle: Option<&mut Counter>, bys: &[u32]) -> (value: u32)
    ensures
        match handle {
            None => value == 0,
            Some(counter) => {
                &&& final(counter)@ == counter@.after(Op::DecrementByMany(bys@))
                &&& final(counter).positions() == counter.positions()
                &&& value == final(counter)@.val
            },
        },
{
    match handle {
        None => 0,
        Some(counter) => counter.decr_by_many(bys),
    }
}

/// The counter's positions, borrowed from the counter, and their number in
/// `out_len`; `None` and zero for `None`.
///
/// The positions are `default_positions()` whatever was done to the counter
/// before.
pub fn getCounterPositions<'a>(counter: Option<&'a Counter>, out_len: &mut u32) -> (positions:
    Option<&'a [Vector2]>)
    ensures
        match counter {
            None => positions is None && *final(out_len) == 0,
            Some(counter) => {
                &&& positions matches Some(points)
                &&& points@ == counter.positions()
                &&& points@ == default_positions()
                &&& *final(out_len) == points@.len()
            },
        },
{
    match counter {
        None => {
            *out_len = 0;
            None
        },
        Some(counter) => {
            let positions = counter.get_positions();
            *out_len = positions.len() as u32;
            Some(positions.as_slice())
        },
    }
}

} // verus!
