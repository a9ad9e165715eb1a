//! Cutting a run of items into consecutive chunks.
use crate::arith::{ceil_div, imin, lemma_ceil_div};
use core::ops::Range;
use vstd::arithmetic::div_mod::lemma_fundamental_div_mod;
use vstd::prelude::*;

verus! {

/// The consecutive chunks of at most `chunk` items that make up `0..total`.
pub open spec fn chunk_ranges_of(total: int, chunk: int) -> Seq<Range<usize>> {
    Seq::new(
        ceil_div(total, chunk) as nat,
        |i: int| (Range { start: (i * chunk) as usize, end: imin((i + 1) * chunk, total) as usize }),
    )
}

/// Cuts `0..total` into consecutive chunks of `chunk` items, the last one possibly shorter.
pub fn chunk_ranges(total: usize, chunk: usize) -> (r: Vec<Range<usize>>)
    requires
        chunk > 0,
    ensures
        r@ == chunk_ranges_of(total as int, chunk as int),
{
    let mut out: Vec<Range<usize>> = Vec::new();
    let mut start: usize = 0;
    let ghost mut idx: int = 0;
    let ghost count = ceil_div(total as int, chunk as int);
    proof {
        lemma_ceil_div(total as int, chunk as int);
        assert(0 * chunk == 0);
    }
    while start < total
        invariant
            chunk > 0,
            count == ceil_div(total as int, chunk as int),
            count >= 0,
            total <= count * chunk,
            total > 0 ==> (count - 1) * chunk < total,
            0 <= idx <= count,
            start == imin(idx * chunk, total as int),
            idx < count ==> start == idx * chunk,
            out.len() == idx,
            out@ == chunk_ranges_of(total as int, chunk as int).take(idx),
        decreases total - start,
    {
        proof {
            if idx == count {
                assert(start == total);
            }
            assert((idx + 1) * chunk == idx * chunk + chunk) by (nonlinear_arith);
            assert(idx * chunk >= 0) by (nonlinear_arith)
                requires
                    idx >= 0,
                    chunk > 0,
            ;
        }
        let end: usize = if total - start <= chunk {
            total
        } else {
            start + chunk
        };
        assert(end == imin((idx + 1) * chunk, total as int));
        proof {
            let all = chunk_ranges_of(total as int, chunk as int);
            assert(all.take(idx + 1) =~= all.take(idx).push(all[idx]));
            if idx + 1 < count {
                assert((idx + 1) * chunk <= (count - 1) * chunk) by (nonlinear_arith)
                    requires
                        idx + 1 <= count - 1,
                        chunk > 0,
                ;
            }
        }
        out.push(start..end);
        start = end;
        proof {
            idx = idx + 1;
        }
    }
    proof {
        if idx < count {
            assert(idx * chunk <= (count - 1) * chunk) by (nonlinear_arith)
                requires
                    idx <= count - 1,
                    chunk > 0,
            ;
            if total == 0 {
                assert(count == 0) by {
                    lemma_ceil_div(0, chunk as int);
                }
            }
        }
        assert(chunk_ranges_of(total as int, chunk as int).take(count) =~= chunk_ranges_of(
            total as int,
            chunk as int,
        ));
    }
    out
}

/// `0..total` as one range where a chunk holds it all, as consecutive chunks otherwise.
pub open spec fn whole_or_chunks(total: int, chunk: int) -> Seq<Range<usize>> {
    if chunk >= total {
        seq![(Range { start: 0, end: total as usize })]
    } else {
        chunk_ranges_of(total, chunk)
    }
}

/// Cuts `0..total` into chunks, or keeps it whole where one chunk holds it all.
pub fn whole_or_chunk_ranges(total: usize, chunk: usize) -> (r: Vec<Range<usize>>)
    requires
        chunk > 0 || total == 0,
    ensures
        r@ == whole_or_chunks(total as int, chunk as int),
{
    if chunk >= total {
        let mut one: Vec<Range<usize>> = Vec::new();
        one.push(0..total);
        assert(one@ =~= whole_or_chunks(total as int, chunk as int));
        one
    } else {
        chunk_ranges(total, chunk)
    }
}

/// Where the chunk of number `i` begins and ends.
pub proof fn lemma_chunk_bounds(total: int, chunk: int, i: int)
    requires
        total >= 0,
        chunk > 0,
        0 <= i < ceil_div(total, chunk),
    ensures
        0 <= i * chunk < total,
        (i + 1) * chunk == i * chunk + chunk,
        i + 1 < ceil_div(total, chunk) ==> (i + 1) * chunk < total,
        i + 1 == ceil_div(total, chunk) ==> (i + 1) * chunk >= total,
{
    let count = ceil_div(total, chunk);
    lemma_ceil_div(total, chunk);
    assert(0 <= i * chunk <= (count - 1) * chunk) by (nonlinear_arith)
        requires
            0 <= i <= count - 1,
            chunk > 0,
    ;
    assert((i + 1) * chunk == i * chunk + chunk) by (nonlinear_arith);
    if i + 1 < count {
        assert((i + 1) * chunk <= (count - 1) * chunk) by (nonlinear_arith)
            requires
                i + 1 <= count - 1,
                chunk > 0,
        ;
    }
}

/// The ranges start at zero, meet end to end and stop at `total`; each holds
/// between one and `chunk` items, and all but the last hold `chunk`.
pub open spec fn consecutive(r: Seq<Range<usize>>, total: int, chunk: int) -> bool {
    &&& r.len() == ceil_div(total, chunk)
    &&& total > 0 ==> r.len() > 0 && r[0].start == 0 && r.last().end == total
    &&& forall|i: int|
        0 <= i < r.len() ==> (#[trigger] r[i]).start < r[i].end && r[i].end - r[i].start <= chunk
            && r[i].end <= total
    &&& forall|i: int, j: int|
        0 <= i && j == i + 1 && j < r.len() ==> (#[trigger] r[i]).end == (#[trigger] r[j]).start
            && r[i].end - r[i].start == chunk
}

/// Consecutive chunks start at zero, meet end to end, stop at the total, hold
/// between one and `chunk` items each, and only the last one may be short.
pub proof fn chunk_ranges_are_contiguous(total: usize, chunk: usize)
    requires
        chunk > 0,
    ensures
        consecutive(chunk_ranges_of(total as int, chunk as int), total as int, chunk as int),
{
    let t = total as int;
    let c = chunk as int;
    let r = chunk_ranges_of(t, c);
    let count = ceil_div(t, c);
    lemma_ceil_div(t, c);
    assert forall|i: int| 0 <= i < r.len() implies (#[trigger] r[i]).start < r[i].end && r[i].end
        - r[i].start <= chunk && r[i].end <= total by {
        lemma_chunk_bounds(t, c, i);
    }
    if t > 0 {
        lemma_chunk_bounds(t, c, 0);
        lemma_chunk_bounds(t, c, count - 1);
        assert(0 * c == 0);
        assert(r[0].start == 0);
        assert(r.last().end == imin((count - 1 + 1) * c, t));
    }
    assert forall|i: int, j: int|
        0 <= i && j == i + 1 && j < r.len() implies (#[trigger] r[i]).end == (#[trigger] r[j]).start
        && r[i].end - r[i].start == chunk by {
        lemma_chunk_bounds(t, c, i);
        lemma_chunk_bounds(t, c, j);
    }
}

/// Every item lies in exactly one chunk, the one given by its quotient.
pub proof fn chunk_ranges_cover_each_item_once(total: usize, chunk: usize, item: int)
    requires
        chunk > 0,
        0 <= item < total,
    ensures
        ({
            let r = chunk_ranges_of(total as int, chunk as int);
            &&& 0 <= item / (chunk as int) < r.len()
            &&& forall|i: int|
                0 <= i < r.len() ==> (((#[trigger] r[i]).start <= item < r[i].end) <==> i == item / (
                chunk as int))
        }),
{
    let t = total as int;
    let c = chunk as int;
    let r = chunk_ranges_of(t, c);
    let q = item / c;
    lemma_ceil_div(t, c);
    lemma_fundamental_div_mod(item, c);
    assert(0 <= item % c < c && 0 <= q) by (nonlinear_arith)
        requires
            c > 0,
            item >= 0,
            q == item / c,
    ;
    assert(q * c <= item < (q + 1) * c) by (nonlinear_arith)
        requires
            item == c * q + item % c,
            0 <= item % c < c,
    ;
    let count = ceil_div(t, c);
    assert(q < count) by (nonlinear_arith)
        requires
            q * c <= item,
            item < t,
            t <= count * c,
            c > 0,
    ;
    chunk_ranges_are_contiguous(total, chunk);
    assert forall|i: int| 0 <= i < r.len() implies (((#[trigger] r[i]).start <= item < r[i].end)
        <==> i == q) by {
        assert(0 <= i * c <= (count - 1) * c) by (nonlinear_arith)
            requires
                0 <= i <= count - 1,
                c > 0,
        ;
        if i < q {
            assert((i + 1) * c <= q * c) by (nonlinear_arith)
                requires
                    i + 1 <= q,
                    c > 0,
            ;
        } else if i > q {
            assert((q + 1) * c <= i * c) by (nonlinear_arith)
                requires
                    q + 1 <= i,
                    c > 0,
            ;
        }
    }
}

} // verus!
