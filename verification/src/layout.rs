//! Row layouts of batched tensors: one range of rows per batch item.
use crate::text::{decimal, push_usize};
use core::ops::Range;
use vstd::prelude::*;
use vstd::string::*;

verus! {

/// Why a row layout is refused.
#[derive(Clone, Copy, Debug, PartialEq, Eq, Structural)]
pub enum LayoutFault {
    /// A range ends before it starts.
    Reversed { batch: usize, start: usize, end: usize },
    /// A range does not start where the one before it ends.
    Gap { batch: usize, start: usize, expected: usize },
}

impl LayoutFault {
    /// Description of the fault.
    pub open spec fn text(self) -> Seq<char> {
        match self {
            LayoutFault::Reversed {
                batch,
                start,
                end,
            } => "varlen tensor layout range has start>end at batch "@ + decimal(batch as nat)
                + ": "@ + decimal(start as nat) + ".."@ + decimal(end as nat),
            LayoutFault::Gap {
                batch,
                start,
                expected,
            } => "varlen tensor layout must be contiguous from row 0; batch "@ + decimal(
                batch as nat,
            ) + " starts at "@ + decimal(start as nat) + " but expected "@ + decimal(
                expected as nat,
            ),
        }
    }

    /// Description of the fault.
    pub fn message(&self) -> (r: String)
        ensures
            r@ == self.text(),
    {
        match *self {
            LayoutFault::Reversed { batch, start, end } => {
                let mut out: String =
                    "varlen tensor layout range has start>end at batch ".to_owned();
                push_usize(&mut out, batch);
                out.append(": ");
                push_usize(&mut out, start);
                out.append("..");
                push_usize(&mut out, end);
                out
            },
            LayoutFault::Gap { batch, start, expected } => {
                let mut out: String =
                    "varlen tensor layout must be contiguous from row 0; batch ".to_owned();
                push_usize(&mut out, batch);
                out.append(" starts at ");
                push_usize(&mut out, start);
                out.append(" but expected ");
                push_usize(&mut out, expected);
                out
            },
        }
    }
}

/// Row where the batch item of number `i` has to start.
pub open spec fn expected_start(layout: Seq<Range<usize>>, i: int) -> usize {
    if i == 0 {
        0
    } else {
        layout[i - 1].end
    }
}

/// Rows of a layout: where its last range ends.
pub open spec fn layout_rows(layout: Seq<Range<usize>>) -> usize {
    expected_start(layout, layout.len() as int)
}

/// Fault of the batch item of number `i`.
pub open spec fn batch_fault(layout: Seq<Range<usize>>, i: int) -> Option<LayoutFault> {
    let r = layout[i];
    if r.start > r.end {
        Some(LayoutFault::Reversed { batch: i as usize, start: r.start, end: r.end })
    } else if r.start != expected_start(layout, i) {
        Some(
            LayoutFault::Gap {
                batch: i as usize,
                start: r.start,
                expected: expected_start(layout, i),
            },
        )
    } else {
        None
    }
}

/// First fault from batch item `i` on.
pub open spec fn first_fault_from(layout: Seq<Range<usize>>, i: int) -> Option<LayoutFault>
    decreases layout.len() - i,
{
    if i < 0 || i >= layout.len() {
        None
    } else {
        match batch_fault(layout, i) {
            Some(fault) => Some(fault),
            None => first_fault_from(layout, i + 1),
        }
    }
}

/// First fault of a layout.
pub open spec fn first_fault(layout: Seq<Range<usize>>) -> Option<LayoutFault> {
    first_fault_from(layout, 0)
}

/// The ranges run from row zero without gap or overlap.
pub open spec fn contiguous(layout: Seq<Range<usize>>) -> bool {
    forall|i: int|
        0 <= i < layout.len() ==> (#[trigger] layout[i]).start <= layout[i].end && layout[i].start
            == expected_start(layout, i)
}

/// A layout without fault is a contiguous one, and the other way round.
pub proof fn layout_is_sound_iff_contiguous(layout: Seq<Range<usize>>)
    ensures
        first_fault(layout) is None <==> contiguous(layout),
{
    lemma_no_fault_from(layout, 0);
}

proof fn lemma_no_fault_from(layout: Seq<Range<usize>>, i: int)
    requires
        0 <= i <= layout.len(),
    ensures
        first_fault_from(layout, i) is None <==> forall|j: int|
            i <= j < layout.len() ==> (#[trigger] layout[j]).start <= layout[j].end
                && layout[j].start == expected_start(layout, j),
    decreases layout.len() - i,
{
    if i < layout.len() {
        lemma_no_fault_from(layout, i + 1);
        if batch_fault(layout, i) is Some {
            assert(!(layout[i].start <= layout[i].end && layout[i].start == expected_start(
                layout,
                i,
            )));
        }
    }
}

/// In a contiguous layout the ranges before `i` end at or before the rows of `i`.
pub proof fn lemma_contiguous_order(layout: Seq<Range<usize>>, i: int, j: int)
    requires
        contiguous(layout),
        0 <= i <= j <= layout.len(),
    ensures
        expected_start(layout, i) <= expected_start(layout, j),
        j < layout.len() ==> expected_start(layout, i) <= layout[j].end,
    decreases j - i,
{
    if i < j {
        lemma_contiguous_order(layout, i, j - 1);
        assert(layout[j - 1].start <= layout[j - 1].end);
    }
    if j < layout.len() {
        assert(layout[j].start <= layout[j].end);
    }
}

/// Every row of a contiguous layout belongs to exactly one batch item, and
/// rows at or past the end belong to none.
pub proof fn layout_rows_belong_to_one_batch(layout: Seq<Range<usize>>, row: int)
    requires
        contiguous(layout),
        row >= 0,
    ensures
        row < layout_rows(layout) <==> exists|i: int|
            0 <= i < layout.len() && (#[trigger] layout[i]).start <= row < layout[i].end,
        forall|i: int, j: int|
            0 <= i < layout.len() && 0 <= j < layout.len() && (#[trigger] layout[i]).start <= row
                < layout[i].end && (#[trigger] layout[j]).start <= row < layout[j].end ==> i == j,
{
    lemma_row_found(layout, row, layout.len() as int);
    assert forall|i: int|
        0 <= i < layout.len() && (#[trigger] layout[i]).start <= row
            < layout[i].end implies row < layout_rows(layout) by {
        lemma_contiguous_order(layout, i + 1, layout.len() as int);
    }
    assert forall|i: int, j: int|
        0 <= i < layout.len() && 0 <= j < layout.len() && (#[trigger] layout[i]).start <= row
            < layout[i].end && (#[trigger] layout[j]).start <= row < layout[j].end implies i
        == j by {
        if i < j {
            lemma_contiguous_order(layout, i + 1, j);
        } else if j < i {
            lemma_contiguous_order(layout, j + 1, i);
        }
    }
}

proof fn lemma_row_found(layout: Seq<Range<usize>>, row: int, n: int)
    requires
        contiguous(layout),
        row >= 0,
        0 <= n <= layout.len(),
    ensures
        row < expected_start(layout, n) ==> exists|i: int|
            0 <= i < n && (#[trigger] layout[i]).start <= row < layout[i].end,
    decreases n,
{
    if n > 0 {
        lemma_row_found(layout, row, n - 1);
        if row < expected_start(layout, n) {
            let last = layout[n - 1];
            assert(last.start == expected_start(layout, n - 1));
            if row >= last.start {
                assert(layout[n - 1].start <= row < layout[n - 1].end);
            }
        }
    }
}

/// Finds the first fault of a layout, or its number of rows.
pub fn check_layout(layout: &Vec<Range<usize>>) -> (r: Result<usize, LayoutFault>)
    ensures
        match (r, first_fault(layout@)) {
            (Ok(rows), None) => rows == layout_rows(layout@),
            (Err(fault), Some(f)) => fault == f,
            _ => false,
        },
{
    let mut expected: usize = 0;
    let mut i: usize = 0;
    while i < layout.len()
        invariant
            i <= layout.len(),
            expected == expected_start(layout@, i as int),
            first_fault(layout@) == first_fault_from(layout@, i as int),
        decreases layout.len() - i,
    {
        let start: usize = layout[i].start;
        let end: usize = layout[i].end;
        if start > end {
            return Err(LayoutFault::Reversed { batch: i, start, end });
        }
        if start != expected {
            return Err(LayoutFault::Gap { batch: i, start, expected });
        }
        expected = end;
        i = i + 1;
    }
    Ok(expected)
}

/// Rows of the first `n` ranges, each counted by its length.
pub open spec fn rows_total(layout: Seq<Range<usize>>, n: int) -> int
    decreases n,
{
    if n <= 0 {
        0
    } else {
        let r = layout[n - 1];
        rows_total(layout, n - 1) + (if r.end >= r.start {
            r.end - r.start
        } else {
            0
        })
    }
}

/// The lengths of a contiguous layout add up to where it ends.
pub proof fn lemma_rows_total(layout: Seq<Range<usize>>, n: int)
    requires
        contiguous(layout),
        0 <= n <= layout.len(),
    ensures
        rows_total(layout, n) == expected_start(layout, n),
    decreases n,
{
    if n > 0 {
        lemma_rows_total(layout, n - 1);
        assert(layout[n - 1].start <= layout[n - 1].end);
    }
}

/// The lengths of fewer ranges add up to no more.
proof fn lemma_rows_total_grows(layout: Seq<Range<usize>>, n: int, m: int)
    requires
        0 <= n <= m <= layout.len(),
    ensures
        0 <= rows_total(layout, n) <= rows_total(layout, m),
    decreases m,
{
    if n < m {
        lemma_rows_total_grows(layout, n, m - 1);
    } else if n > 0 {
        lemma_rows_total_grows(layout, n - 1, n - 1);
    }
}

/// Sum of the lengths of the ranges; a reversed range has none.
pub fn sum_lengths(layout: &Vec<Range<usize>>) -> (r: usize)
    requires
        rows_total(layout@, layout@.len() as int) <= usize::MAX,
    ensures
        r == rows_total(layout@, layout@.len() as int),
{
    let mut total: usize = 0;
    let mut i: usize = 0;
    while i < layout.len()
        invariant
            i <= layout.len(),
            rows_total(layout@, layout@.len() as int) <= usize::MAX,
            total == rows_total(layout@, i as int),
        decreases layout.len() - i,
    {
        proof {
            lemma_rows_total_grows(layout@, i as int + 1, layout@.len() as int);
        }
        let len: usize = layout[i].end.saturating_sub(layout[i].start);
        total = total + len;
        i = i + 1;
    }
    total
}

/// Rows of a contiguous layout.
pub fn sum_rows(layout: &Vec<Range<usize>>) -> (r: usize)
    requires
        contiguous(layout@),
    ensures
        r == layout_rows(layout@),
{
    proof {
        lemma_rows_total(layout@, layout@.len() as int);
    }
    sum_lengths(layout)
}

/// A copy of a list of ranges.
pub fn copy_ranges(ranges: &Vec<Range<usize>>) -> (r: Vec<Range<usize>>)
    ensures
        r@ == ranges@,
{
    let mut out: Vec<Range<usize>> = Vec::new();
    let mut i: usize = 0;
    while i < ranges.len()
        invariant
            i <= ranges.len(),
            out@ == ranges@.take(i as int),
        decreases ranges.len() - i,
    {
        let start: usize = ranges[i].start;
        let end: usize = ranges[i].end;
        out.push(start..end);
        proof {
            assert(ranges@[i as int] == (Range { start, end }));
            assert(out@ =~= ranges@.take(i as int + 1));
        }
        i = i + 1;
    }
    assert(ranges@.take(ranges@.len() as int) =~= ranges@);
    out
}

/// Whether two lists of ranges are equal.
pub fn same_ranges(a: &Vec<Range<usize>>, b: &Vec<Range<usize>>) -> (r: bool)
    ensures
        r == (a@ == b@),
{
    if a.len() != b.len() {
        return false;
    }
    let mut i: usize = 0;
    while i < a.len()
        invariant
            i <= a.len(),
            a.len() == b.len(),
            forall|j: int| 0 <= j < i ==> a@[j] == b@[j],
        decreases a.len() - i,
    {
        if a[i].start != b[i].start || a[i].end != b[i].end {
            assert(a@[i as int] != b@[i as int]);
            return false;
        }
        i = i + 1;
    }
    assert(a@ =~= b@);
    true
}

} // verus!
