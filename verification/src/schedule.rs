//! Step lists built chunk by chunk.
use core::ops::Range;
use vstd::prelude::*;

verus! {

/// The steps that `per_range` gives for each range, in order.
pub open spec fn steps_over<S>(
    ranges: Seq<Range<usize>>,
    per_range: spec_fn(Range<usize>) -> Seq<S>,
) -> Seq<S>
    decreases ranges.len(),
{
    if ranges.len() == 0 {
        Seq::empty()
    } else {
        steps_over(ranges.drop_last(), per_range) + per_range(ranges.last())
    }
}

/// Taking one range more adds its steps at the end.
pub proof fn lemma_steps_over_take<S>(
    ranges: Seq<Range<usize>>,
    per_range: spec_fn(Range<usize>) -> Seq<S>,
    i: int,
)
    requires
        0 <= i < ranges.len(),
    ensures
        steps_over(ranges.take(i + 1), per_range) == steps_over(ranges.take(i), per_range)
            + per_range(ranges[i]),
{
    assert(ranges.take(i + 1).drop_last() =~= ranges.take(i));
    assert(ranges.take(i + 1).last() == ranges[i]);
}

/// The image of a step list under `pick`, dropping the steps without one.
pub open spec fn picked<S, T>(steps: Seq<S>, pick: spec_fn(S) -> Option<T>) -> Seq<T>
    decreases steps.len(),
{
    if steps.len() == 0 {
        Seq::empty()
    } else {
        let front = picked(steps.drop_last(), pick);
        match pick(steps.last()) {
            Some(value) => front.push(value),
            None => front,
        }
    }
}

/// Picking from two step lists one after the other.
pub proof fn lemma_picked_concat<S, T>(a: Seq<S>, b: Seq<S>, pick: spec_fn(S) -> Option<T>)
    ensures
        picked(a + b, pick) == picked(a, pick) + picked(b, pick),
    decreases b.len(),
{
    if b.len() == 0 {
        assert(a + b =~= a);
        assert(picked(a, pick) + picked(b, pick) =~= picked(a, pick));
    } else {
        assert((a + b).drop_last() =~= a + b.drop_last());
        assert((a + b).last() == b.last());
        lemma_picked_concat(a, b.drop_last(), pick);
        match pick(b.last()) {
            Some(value) => {
                assert((picked(a, pick) + picked(b.drop_last(), pick)).push(value) =~= picked(
                    a,
                    pick,
                ) + picked(b.drop_last(), pick).push(value));
            },
            None => {},
        }
    }
}

/// Where each range contributes exactly one pick, the picks follow the ranges.
pub proof fn lemma_picked_per_range<S>(
    ranges: Seq<Range<usize>>,
    per_range: spec_fn(Range<usize>) -> Seq<S>,
    pick: spec_fn(S) -> Option<Range<usize>>,
)
    requires
        forall|r: Range<usize>| picked(#[trigger] per_range(r), pick) == seq![r],
    ensures
        picked(steps_over(ranges, per_range), pick) == ranges,
    decreases ranges.len(),
{
    if ranges.len() == 0 {
        assert(picked(Seq::<S>::empty(), pick) =~= ranges);
    } else {
        let front = ranges.drop_last();
        lemma_picked_per_range(front, per_range, pick);
        lemma_picked_concat(steps_over(front, per_range), per_range(ranges.last()), pick);
        assert(front + seq![ranges.last()] =~= ranges);
    }
}

/// Where no range contributes a pick, nothing is picked.
pub proof fn lemma_picked_none<S, T>(
    ranges: Seq<Range<usize>>,
    per_range: spec_fn(Range<usize>) -> Seq<S>,
    pick: spec_fn(S) -> Option<T>,
)
    requires
        forall|r: Range<usize>| picked(#[trigger] per_range(r), pick) == Seq::<T>::empty(),
    ensures
        picked(steps_over(ranges, per_range), pick) == Seq::<T>::empty(),
    decreases ranges.len(),
{
    if ranges.len() == 0 {
        assert(picked(Seq::<S>::empty(), pick) =~= Seq::<T>::empty());
    } else {
        let front = ranges.drop_last();
        lemma_picked_none(front, per_range, pick);
        lemma_picked_concat(steps_over(front, per_range), per_range(ranges.last()), pick);
        assert(Seq::<T>::empty() + Seq::<T>::empty() =~= Seq::<T>::empty());
    }
}

} // verus!
