//! What holds of runs of operations, proved from the model.

use crate::counter::{Args, Counter, CounterData};
use crate::model::{decrements, increments, snapshot, sum, total_delta, wrap, Op};
use vstd::prelude::*;

verus! {

/// A counter that was made from `args` and not touched since reports
/// `args.init` as its value and `args.by` as its step.
pub proof fn lemma_snapshot_of_created(args: Args, counter: Counter)
    requires
        counter@ == CounterData::initial(args),
    ensures
        snapshot(Some(&counter)) == (CounterData { val: args.init, by: args.by }),
{
}

/// Wrapping once at the end is the same as wrapping after every step.
pub proof fn lemma_wrap_absorbs(total: int, delta: int)
    ensures
        wrap(wrap(total) + delta) == wrap(total + delta),
{
}

/// After any run of operations the step is what it was, and the value is the
/// starting value plus the signed sum of all the deltas, taken modulo 2^32.
pub proof fn lemma_value_after_all(start: CounterData, ops: Seq<Op>)
    ensures
        start.after_all(ops).by == start.by,
        start.after_all(ops).val == wrap(start.val + total_delta(ops, start.by)),
    decreases ops.len(),
{
    if ops.len() > 0 {
        lemma_value_after_all(start, ops.drop_last());
        lemma_wrap_absorbs(
            start.val + total_delta(ops.drop_last(), start.by),
            ops.last().delta(start.by),
        );
    }
}

/// The deltas of one-at-a-time increments add up to the sum of the amounts.
pub proof fn lemma_total_of_increments(amounts: Seq<u32>, step: u32)
    ensures
        total_delta(increments(amounts), step) == sum(amounts),
    decreases amounts.len(),
{
    if amounts.len() > 0 {
        lemma_total_of_increments(amounts.drop_last(), step);
        assert(increments(amounts).drop_last() =~= increments(amounts.drop_last()));
    }
}

/// The deltas of one-at-a-time decrements add up to minus the sum of the
/// amounts.
pub proof fn lemma_total_of_decrements(amounts: Seq<u32>, step: u32)
    ensures
        total_delta(decrements(amounts), step) == -sum(amounts),
    decreases amounts.len(),
{
    if amounts.len() > 0 {
        lemma_total_of_decrements(amounts.drop_last(), step);
        assert(decrements(amounts).drop_last() =~= decrements(amounts.drop_last()));
    }
}

/// Adding many amounts in one operation leaves the counter as adding them
/// one at a time does, first to last.
pub proof fn lemma_increment_many_is_sequential(start: CounterData, amounts: Seq<u32>)
    ensures
        start.after(Op::IncrementByMany(amounts)) == start.after_all(increments(amounts)),
{
    lemma_value_after_all(start, increments(amounts));
    lemma_total_of_increments(amounts, start.by);
}

/// Subtracting many amounts in one operation leaves the counter as
/// subtracting them one at a time does, first to last.
pub proof fn lemma_decrement_many_is_sequential(start: CounterData, amounts: Seq<u32>)
    ensures
        start.after(Op::DecrementByMany(amounts)) == start.after_all(decrements(amounts)),
{
    lemma_value_after_all(start, decrements(amounts));
    lemma_total_of_decrements(amounts, start.by);
}

/// Taking one amount out of a sequence lowers its sum by that amount.
pub proof fn lemma_sum_remove(amounts: Seq<u32>, i: int)
    requires
        0 <= i < amounts.len(),
    ensures
        sum(amounts) == sum(amounts.remove(i)) + amounts[i],
    decreases amounts.len(),
{
    if i == amounts.len() - 1 {
        assert(amounts.remove(i) =~= amounts.drop_last());
    } else {
        lemma_sum_remove(amounts.drop_last(), i);
        assert(amounts.remove(i).drop_last() =~= amounts.drop_last().remove(i));
    }
}

/// Two sequences that hold the same amounts, each as often as the other,
/// have the same sum.
pub proof fn lemma_sum_of_rearranged(a: Seq<u32>, b: Seq<u32>)
    requires
        a.to_multiset() == b.to_multiset(),
    ensures
        sum(a) == sum(b),
    decreases a.len(),
{
    a.to_multiset_ensures();
    b.to_multiset_ensures();
    if a.len() > 0 {
        let last = a.last();
        assert(a.contains(last));
        assert(b.to_multiset().count(last) > 0);
        assert(b.contains(last));
        let i = choose|i: int| 0 <= i < b.len() && b[i] == last;
        assert(a.drop_last() =~= a.remove(a.len() - 1));
        assert(a.drop_last().to_multiset() =~= b.remove(i).to_multiset());
        lemma_sum_of_rearranged(a.drop_last(), b.remove(i));
        lemma_sum_remove(b, i);
    }
}

/// Adding or subtracting many amounts gives the same counter in whatever
/// order the amounts are given, also where the value wraps on the way.
pub proof fn lemma_order_of_amounts_is_immaterial(start: CounterData, a: Seq<u32>, b: Seq<u32>)
    requires
        a.to_multiset() == b.to_multiset(),
    ensures
        start.after(Op::IncrementByMany(a)) == start.after(Op::IncrementByMany(b)),
        start.after(Op::DecrementByMany(a)) == start.after(Op::DecrementByMany(b)),
{
    lemma_sum_of_rearranged(a, b);
}

} // verus!
