//! The MLP of a sparse-flow block: whole, or by row chunks inside row windows.
use crate::arith::{imax, imin, lemma_ceil_div, max_usize, min_usize, sat, saturating_mul};
use crate::chunks::{
    chunk_ranges, chunk_ranges_are_contiguous, chunk_ranges_of, consecutive,
};
use crate::policy::{
    f16_chain, feed_forward_f16_chain_enabled, mlp_chunk_for_backend, mlp_sync_interval,
    sparse_flow_mlp_chunk_tokens_for_backend, sparse_flow_mlp_sync_interval_for_backend,
    sparse_flow_mlp_window_rows, FlowBackend, FlowEnv,
};
use crate::schedule::{lemma_steps_over_take, steps_over};
use core::ops::Range;
use vstd::prelude::*;

verus! {

/// Rows `start..end` of the flattened input, inside the window
/// `window_start..window_end`.
#[derive(Clone, Copy, Debug, PartialEq, Eq, Structural)]
pub struct MlpRows {
    pub window_start: usize,
    pub window_end: usize,
    pub start: usize,
    pub end: usize,
}

/// One chunk of the MLP.
#[derive(Clone, Copy, Debug, PartialEq, Eq, Structural)]
pub struct MlpChunk {
    pub rows: MlpRows,
    /// The device is synchronized after the chunk.
    pub sync_after: bool,
}

/// How one MLP call is carried out.
#[derive(Debug)]
pub enum FeedForwardPlan {
    /// All rows at once.
    Whole { f16_chain: bool },
    /// Row chunks whose outputs are joined in order.
    Chunked { f16_chain: bool, chunks: Vec<MlpChunk> },
}

/// Row chunks of one window.
pub open spec fn window_chunks(chunk: int) -> spec_fn(Range<usize>) -> Seq<MlpRows> {
    |w: Range<usize>|
        chunk_ranges_of(w.end - w.start, chunk).map_values(
            |r: Range<usize>|
                (MlpRows {
                    window_start: w.start,
                    window_end: w.end,
                    start: (w.start + r.start) as usize,
                    end: (w.start + r.end) as usize,
                }),
        )
}

/// Rows per window: the default window, but at least one chunk and at most all rows.
pub open spec fn mlp_window(rows: int, chunk: int) -> int {
    imin(imax(imin(32_768, imax(rows, 1)), chunk), imax(rows, 1))
}

/// All row chunks, window by window.
pub open spec fn mlp_rows(rows: int, chunk: int) -> Seq<MlpRows> {
    steps_over(chunk_ranges_of(rows, mlp_window(rows, chunk)), window_chunks(chunk))
}

/// The device is synchronized after the chunk of number `idx`.
pub open spec fn syncs_after(interval: int, idx: int) -> bool {
    interval != usize::MAX && (idx + 1) % interval == 0
}

/// Appends the row chunks of one window.
fn push_window_chunks(
    out: &mut Vec<MlpRows>,
    window_start: usize,
    window_end: usize,
    chunk: usize,
)
    requires
        chunk > 0,
        window_start <= window_end,
    ensures
        final(out)@ == old(out)@ + window_chunks(chunk as int)(
            (Range { start: window_start, end: window_end }),
        ),
{
    let ghost before = out@;
    let ghost w = (Range { start: window_start, end: window_end });
    let len: usize = window_end - window_start;
    let locals: Vec<Range<usize>> = chunk_ranges(len, chunk);
    let ghost all = window_chunks(chunk as int)(w);
    proof {
        chunk_ranges_are_contiguous(len, chunk);
        assert(before + all.take(0) =~= before);
    }
    let mut i: usize = 0;
    while i < locals.len()
        invariant
            i <= locals.len(),
            window_start <= window_end,
            len == window_end - window_start,
            w == (Range { start: window_start, end: window_end }),
            locals@ == chunk_ranges_of(len as int, chunk as int),
            consecutive(locals@, len as int, chunk as int),
            all == window_chunks(chunk as int)(w),
            all.len() == locals.len(),
            out@ == before + all.take(i as int),
        decreases locals.len() - i,
    {
        assert(locals@[i as int].end <= len);
        let start: usize = window_start + locals[i].start;
        let end: usize = window_start + locals[i].end;
        out.push(MlpRows { window_start, window_end, start, end });
        proof {
            assert(all.take(i + 1) =~= all.take(i as int).push(all[i as int]));
            assert(out@ =~= before + all.take(i + 1));
        }
        i = i + 1;
    }
    proof {
        assert(all.take(all.len() as int) =~= all);
    }
}

/// Lists the row chunks of an MLP over `rows` rows.
pub fn mlp_row_chunks(rows: usize, chunk: usize) -> (r: Vec<MlpRows>)
    requires
        chunk > 0,
    ensures
        r@ == mlp_rows(rows as int, chunk as int),
{
    let window: usize = min_usize(
        max_usize(sparse_flow_mlp_window_rows(rows), chunk),
        max_usize(rows, 1),
    );
    let windows: Vec<Range<usize>> = chunk_ranges(rows, window);
    let ghost per = window_chunks(chunk as int);
    let mut out: Vec<MlpRows> = Vec::new();
    let mut i: usize = 0;
    proof {
        chunk_ranges_are_contiguous(rows, window);
        assert(windows@.take(0) =~= Seq::<Range<usize>>::empty());
        assert(out@ =~= steps_over(windows@.take(0), per));
    }
    while i < windows.len()
        invariant
            i <= windows.len(),
            chunk > 0,
            window > 0,
            per == window_chunks(chunk as int),
            consecutive(windows@, rows as int, window as int),
            out@ == steps_over(windows@.take(i as int), per),
        decreases windows.len() - i,
    {
        assert(windows@[i as int].start < windows@[i as int].end);
        let start: usize = windows[i].start;
        let end: usize = windows[i].end;
        push_window_chunks(&mut out, start, end, chunk);
        proof {
            lemma_steps_over_take(windows@, per, i as int);
            assert(windows@[i as int] == (Range { start, end }));
        }
        i = i + 1;
    }
    proof {
        assert(windows@.take(windows@.len() as int) =~= windows@);
    }
    out
}

/// Plans one MLP call over `tokens` tokens in each of `batch` batches.
///
/// The channel counts are those of the two layers' weights.
pub fn plan_feed_forward(
    env: &FlowEnv,
    backend: FlowBackend,
    batch: usize,
    tokens: usize,
    in_channels: usize,
    hidden_channels: usize,
    hidden_in_channels: usize,
    out_channels: usize,
) -> (r: FeedForwardPlan)
    ensures
        ({
            let chunk = mlp_chunk_for_backend(*env, backend, tokens as int);
            let chain = f16_chain(
                *env,
                backend,
                in_channels as int,
                hidden_channels as int,
                hidden_in_channels as int,
                out_channels as int,
            );
            if chunk >= tokens {
                r == (FeedForwardPlan::Whole { f16_chain: chain })
            } else {
                r matches FeedForwardPlan::Chunked { f16_chain, chunks } && {
                    let rows = mlp_rows(sat(batch * tokens), chunk);
                    &&& f16_chain == chain
                    &&& chunks.len() == rows.len()
                    &&& forall|i: int|
                        0 <= i < chunks.len() ==> (#[trigger] chunks[i]).rows == rows[i]
                            && chunks[i].sync_after == syncs_after(
                            mlp_sync_interval(*env, backend),
                            i,
                        )
                }
            }
        }),
{
    let chunk: usize = sparse_flow_mlp_chunk_tokens_for_backend(env, backend, tokens);
    let interval: usize = sparse_flow_mlp_sync_interval_for_backend(env, backend, tokens);
    let f16_chain: bool = feed_forward_f16_chain_enabled(
        env,
        backend,
        in_channels,
        hidden_channels,
        hidden_in_channels,
        out_channels,
    );
    if chunk >= tokens {
        return FeedForwardPlan::Whole { f16_chain };
    }
    let rows: usize = saturating_mul(batch, tokens);
    let row_chunk: usize = max_usize(chunk, 1);
    let ranges: Vec<MlpRows> = mlp_row_chunks(rows, row_chunk);
    let mut chunks: Vec<MlpChunk> = Vec::new();
    let mut i: usize = 0;
    while i < ranges.len()
        invariant
            i <= ranges.len(),
            chunks.len() == i,
            interval > 0,
            ranges@ == mlp_rows(rows as int, row_chunk as int),
            forall|j: int|
                0 <= j < i ==> (#[trigger] chunks[j]).rows == ranges@[j] && chunks[j].sync_after
                    == syncs_after(interval as int, j),
        decreases ranges.len() - i,
    {
        let sync_after: bool = interval != usize::MAX && (i + 1) % interval == 0;
        chunks.push(MlpChunk { rows: ranges[i], sync_after });
        i = i + 1;
    }
    FeedForwardPlan::Chunked { f16_chain, chunks }
}

// ---------------------------------------------------------------------------
// Coverage
// ---------------------------------------------------------------------------

/// The row chunks run from `from` to `to` without gap or overlap, each inside
/// its window and at most `chunk` rows long.
pub open spec fn rows_chain(rows: Seq<MlpRows>, from: int, to: int, chunk: int) -> bool {
    &&& from <= to
    &&& (rows.len() == 0) == (from == to)
    &&& rows.len() > 0 ==> rows[0].start == from && rows.last().end == to
    &&& forall|i: int|
        0 <= i < rows.len() ==> (#[trigger] rows[i]).window_start <= rows[i].start < rows[i].end
            <= rows[i].window_end && rows[i].end - rows[i].start <= chunk
    &&& forall|i: int, j: int|
        0 <= i && j == i + 1 && j < rows.len() ==> (#[trigger] rows[i]).end == (
        #[trigger] rows[j]).start
}

/// Two chains that meet form one chain.
proof fn lemma_chain_concat(
    a: Seq<MlpRows>,
    b: Seq<MlpRows>,
    from: int,
    mid: int,
    to: int,
    chunk: int,
)
    requires
        rows_chain(a, from, mid, chunk),
        rows_chain(b, mid, to, chunk),
    ensures
        rows_chain(a + b, from, to, chunk),
{
    let c = a + b;
    assert forall|i: int| 0 <= i < c.len() implies (#[trigger] c[i]).window_start <= c[i].start
        < c[i].end <= c[i].window_end && c[i].end - c[i].start <= chunk by {
        if i < a.len() {
            assert(c[i] == a[i]);
        } else {
            assert(c[i] == b[i - a.len()]);
        }
    }
    assert forall|i: int, j: int| 0 <= i && j == i + 1 && j < c.len() implies (
    #[trigger] c[i]).end == (#[trigger] c[j]).start by {
        if j < a.len() {
            assert(c[i] == a[i] && c[j] == a[j]);
        } else if i >= a.len() {
            assert(c[i] == b[i - a.len()] && c[j] == b[j - a.len()]);
        } else {
            assert(c[i] == a.last() && c[j] == b[0]);
        }
    }
    if a.len() == 0 {
        assert(c =~= b);
    } else if b.len() == 0 {
        assert(c =~= a);
    } else {
        assert(c[0] == a[0]);
        assert(c.last() == b.last());
    }
}

/// The chunks of one window run through it.
proof fn lemma_window_chain(start: usize, end: usize, chunk: usize)
    requires
        start < end,
        chunk > 0,
    ensures
        rows_chain(
            window_chunks(chunk as int)((Range { start, end })),
            start as int,
            end as int,
            chunk as int,
        ),
{
    let len = (end - start) as usize;
    let locals = chunk_ranges_of(len as int, chunk as int);
    let rows = window_chunks(chunk as int)((Range { start, end }));
    chunk_ranges_are_contiguous(len, chunk);
    lemma_ceil_div(len as int, chunk as int);
    assert(rows.len() == locals.len());
    assert forall|i: int| 0 <= i < rows.len() implies (#[trigger] rows[i]).window_start
        <= rows[i].start < rows[i].end <= rows[i].window_end && rows[i].end - rows[i].start
        <= chunk by {
        assert(locals[i].start < locals[i].end <= len);
    }
    assert forall|i: int, j: int| 0 <= i && j == i + 1 && j < rows.len() implies (
    #[trigger] rows[i]).end == (#[trigger] rows[j]).start by {
        assert(locals[i].end == locals[j].start);
        assert(locals[i].end <= len);
    }
    assert(rows[0].start == start + locals[0].start);
    assert(rows.last().end == start + locals.last().end);
}

/// The row chunks of an MLP run through all its rows in order, without gap or
/// overlap.
pub proof fn mlp_rows_cover_all(rows: usize, chunk: usize)
    requires
        chunk > 0,
    ensures
        rows_chain(mlp_rows(rows as int, chunk as int), 0, rows as int, chunk as int),
{
    let window = mlp_window(rows as int, chunk as int);
    let windows = chunk_ranges_of(rows as int, window);
    let per = window_chunks(chunk as int);
    chunk_ranges_are_contiguous(rows, window as usize);
    if rows == 0 {
        lemma_ceil_div(0, window);
        assert(steps_over(windows, per) =~= Seq::empty());
    } else {
        lemma_windows_chain(rows, chunk, windows.len() as int);
        assert(windows.take(windows.len() as int) =~= windows);
    }
}

/// The chunks of the first `count` windows run from zero to where those windows end.
proof fn lemma_windows_chain(rows: usize, chunk: usize, count: int)
    requires
        chunk > 0,
        0 < count <= chunk_ranges_of(rows as int, mlp_window(rows as int, chunk as int)).len(),
    ensures
        ({
            let windows = chunk_ranges_of(rows as int, mlp_window(rows as int, chunk as int));
            rows_chain(
                steps_over(windows.take(count), window_chunks(chunk as int)),
                0,
                windows[count - 1].end as int,
                chunk as int,
            )
        }),
    decreases count,
{
    let window = mlp_window(rows as int, chunk as int);
    let windows = chunk_ranges_of(rows as int, window);
    let per = window_chunks(chunk as int);
    chunk_ranges_are_contiguous(rows, window as usize);
    if rows == 0 {
        lemma_ceil_div(0, window);
    }
    let last = windows[count - 1];
    assert(last.start < last.end);
    lemma_window_chain(last.start, last.end, chunk);
    assert(last == (Range { start: last.start, end: last.end }));
    lemma_steps_over_take(windows, per, count - 1);
    if count == 1 {
        assert(windows.take(0) =~= Seq::<Range<usize>>::empty());
        assert(steps_over(windows.take(0), per) =~= Seq::<MlpRows>::empty());
        assert(Seq::<MlpRows>::empty() + per(last) =~= per(last));
        assert(windows[0].start == 0);
    } else {
        lemma_windows_chain(rows, chunk, count - 1);
        assert(windows[count - 2].end == windows[count - 1].start);
        lemma_chain_concat(
            steps_over(windows.take(count - 1), per),
            per(last),
            0,
            last.start as int,
            last.end as int,
            chunk as int,
        );
    }
}

/// `out` is an MLP call as it is planned.
pub open spec fn feed_forward_outcome<O, W, C, J>(
    plan: FeedForwardPlan,
    whole: W,
    chunk: C,
    join: J,
    out: O,
) -> bool where W: Fn(bool) -> O, C: Fn(MlpChunk, bool) -> O, J: Fn(Vec<O>) -> O {
    match plan {
        FeedForwardPlan::Whole { f16_chain } => call_ensures(whole, (f16_chain,), out),
        FeedForwardPlan::Chunked { f16_chain, chunks } => exists|parts: Vec<O>| #[trigger]
            call_ensures(join, (parts,), out) && parts@.len() == chunks@.len() && forall|i: int|
                0 <= i < parts@.len() ==> call_ensures(
                    chunk,
                    (chunks@[i], f16_chain),
                    #[trigger] parts@[i],
                ),
    }
}

/// Carries out an MLP call as it is planned.
///
/// `whole` computes all rows, `chunk` those of one chunk; both are told whether
/// to stay in half precision. `join` joins outputs in order.
pub fn feed_forward<O, W, C, J>(
    plan: &FeedForwardPlan,
    whole: &W,
    chunk: &C,
    join: &J,
) -> (r: O) where W: Fn(bool) -> O, C: Fn(MlpChunk, bool) -> O, J: Fn(Vec<O>) -> O
    requires
        *plan is Whole ==> forall|half: bool| call_requires(*whole, (half,)),
        *plan is Chunked ==> forall|c: MlpChunk, half: bool| call_requires(*chunk, (c, half)),
        *plan is Chunked ==> forall|parts: Vec<O>| call_requires(*join, (parts,)),
    ensures
        feed_forward_outcome(*plan, *whole, *chunk, *join, r),
{
    match plan {
        FeedForwardPlan::Whole { f16_chain } => whole(*f16_chain),
        FeedForwardPlan::Chunked { f16_chain, chunks } => {
            let mut parts: Vec<O> = Vec::new();
            let mut i: usize = 0;
            while i < chunks.len()
                invariant
                    i <= chunks.len(),
                    parts@.len() == i,
                    forall|c: MlpChunk, half: bool| call_requires(*chunk, (c, half)),
                    forall|j: int|
                        0 <= j < i ==> call_ensures(
                            *chunk,
                            (chunks@[j], *f16_chain),
                            #[trigger] parts@[j],
                        ),
                decreases chunks.len() - i,
            {
                parts.push(chunk(chunks[i], *f16_chain));
                i = i + 1;
            }
            join(parts)
        },
    }
}

} // verus!
