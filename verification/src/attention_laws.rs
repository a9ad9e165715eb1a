//! What attention and MLP calls give, stated of their inputs and results:
//! however a call is cut into chunks, it gives what an uncut call gives.
use crate::attention::{
    is_dense_plan, is_stream_plan, module_attention_call, module_attention_ranges,
    padding_is_minimal, streamed_key_ranges, AttentionDispatch, ModuleAttentionCall,
    ModuleAttentionPlan, PlainAttentionPlan,
};
use crate::attention_calls::{
    chunked_outputs, cross_attention_outcome, cross_keys, cross_range, cross_ranges,
    keys_arranged, keys_projected, queries_attended, queries_projected, ranges_attended,
    self_attention_outcome, whole_rows,
};
use crate::attention_run::{
    dispatch_outcome, joined_or_single, module_outcome, plain_outcome, range_parts, running,
    streamed, streamed_parts,
};
use crate::chunks::{chunk_ranges_are_contiguous, chunk_ranges_of, whole_or_chunks};
use crate::cross_attention::{
    cache_estimated_bytes, cache_plan, joinable, joined, CrossAttentionPlan,
    CrossAttentionProjectedKv, CrossAttentionStep,
};
use crate::feed_forward::{
    feed_forward_outcome, mlp_rows, mlp_rows_cover_all, rows_chain, FeedForwardPlan, MlpChunk,
    MlpRows,
};
use crate::policy::{cross_kv_cache_budget, safe_query_cap, FlowBackend, FlowEnv};
use crate::self_attention::{
    AttentionKernel, SelfAttentionPath, SelfAttentionPlan, SelfAttentionStep,
};
use core::ops::Range;
use vstd::prelude::*;

verus! {

// ---------------------------------------------------------------------------
// Chunks
// ---------------------------------------------------------------------------

/// The ranges lead from 0 to `n`, one behind the other.
pub open spec fn in_turn(ranges: Seq<Range<usize>>, n: int) -> bool {
    &&& ranges.len() == 0 ==> n == 0
    &&& ranges.len() > 0 ==> ranges[0].start == 0 && ranges.last().end == n
    &&& forall|i: int| 0 <= i < ranges.len() ==> (#[trigger] ranges[i]).start <= ranges[i].end
    &&& forall|i: int, j: int|
        0 <= i && j == i + 1 && j < ranges.len() ==> (#[trigger] ranges[i]).end == (
        #[trigger] ranges[j]).start
}

/// Chunks of a number of items lead through all of them, in order; all but the
/// last have the chunk's size.
pub proof fn chunks_are_in_turn(total: usize, chunk: usize)
    requires
        chunk > 0,
    ensures
        in_turn(chunk_ranges_of(total as int, chunk as int), total as int),
        forall|i: int|
            0 <= i < chunk_ranges_of(total as int, chunk as int).len() ==> ({
                let r = #[trigger] chunk_ranges_of(total as int, chunk as int)[i];
                &&& r.start < r.end
                &&& r.end - r.start <= chunk
                &&& i + 1 < chunk_ranges_of(total as int, chunk as int).len() ==> r.end - r.start
                    == chunk
            }),
{
    chunk_ranges_are_contiguous(total, chunk);
    let r = chunk_ranges_of(total as int, chunk as int);
    assert forall|i: int| 0 <= i < r.len() implies ({
        let q = #[trigger] r[i];
        &&& q.start < q.end
        &&& q.end - q.start <= chunk
        &&& i + 1 < r.len() ==> q.end - q.start == chunk
    }) by {
        if i + 1 < r.len() {
            assert(r[i].end == r[i + 1].start);
        }
    }
    if total == 0 {
        if r.len() > 0 {
            assert(r[0].start < r[0].end && r[0].end <= total);
        }
    }
}

/// Pieces of a list along ranges in turn, joined, are the list.
proof fn lemma_pieces_join<O, Z>(
    full: Seq<Z>,
    ranges: Seq<Range<usize>>,
    parts: Seq<O>,
    rows: spec_fn(O) -> Seq<Z>,
)
    requires
        in_turn(ranges, full.len() as int),
        parts.len() == ranges.len(),
        forall|i: int|
            0 <= i < parts.len() ==> rows(#[trigger] parts[i]) == full.subrange(
                ranges[i].start as int,
                ranges[i].end as int,
            ),
    ensures
        parts.map_values(rows).flatten() == full,
{
    let list = parts.map_values(rows);
    if parts.len() == 0 {
        assert(list =~= Seq::<Seq<Z>>::empty());
        assert(list.flatten() =~= full);
    } else {
        lemma_prefix_joins(full, ranges, list, parts.len() as int);
        assert(list.take(parts.len() as int) =~= list);
        assert(full.subrange(0, full.len() as int) =~= full);
    }
}

proof fn lemma_range_order(ranges: Seq<Range<usize>>, n: int, i: int)
    requires
        in_turn(ranges, n),
        0 <= i < ranges.len(),
    ensures
        ranges[i].end <= n,
    decreases ranges.len() - i,
{
    if i + 1 < ranges.len() {
        lemma_range_order(ranges, n, i + 1);
        assert(ranges[i].end == ranges[i + 1].start);
        assert(ranges[i + 1].start <= ranges[i + 1].end);
    }
}

proof fn lemma_prefix_joins<Z>(
    full: Seq<Z>,
    ranges: Seq<Range<usize>>,
    list: Seq<Seq<Z>>,
    k: int,
)
    requires
        in_turn(ranges, full.len() as int),
        list.len() == ranges.len(),
        1 <= k <= list.len(),
        forall|i: int|
            0 <= i < list.len() ==> #[trigger] list[i] == full.subrange(
                ranges[i].start as int,
                ranges[i].end as int,
            ),
    ensures
        list.take(k).flatten() == full.subrange(0, ranges[k - 1].end as int),
    decreases k,
{
    let front = list.take(k - 1);
    let last = list[k - 1];
    lemma_range_order(ranges, full.len() as int, k - 1);
    assert(ranges[k - 1].start <= ranges[k - 1].end);
    assert(list.take(k) =~= front.push(last));
    front.lemma_flatten_push(last);
    if k > 1 {
        lemma_prefix_joins(full, ranges, list, k - 1);
        assert(ranges[k - 2].end == ranges[k - 1].start);
    } else {
        assert(front =~= Seq::<Seq<Z>>::empty());
        assert(front.flatten() =~= full.subrange(0, 0));
    }
    assert(front.flatten() + last =~= full.subrange(0, ranges[k - 1].end as int));
}

// ---------------------------------------------------------------------------
// Plain attention
// ---------------------------------------------------------------------------

/// Where a running softmax is carried from key to key in order, a streamed call
/// is finished at the last key.
proof fn lemma_streamed_stages<A, O, E, I, N, L>(
    query: Range<usize>,
    keys: Seq<Range<usize>>,
    n: int,
    empty: E,
    first: I,
    next: N,
    finish: L,
    out: O,
    stage: spec_fn(Range<usize>, int, A) -> bool,
    good: spec_fn(Range<usize>, O) -> bool,
) where
    E: Fn(&Range<usize>) -> O,
    I: Fn(&Range<usize>, &Range<usize>) -> A,
    N: Fn(A, &Range<usize>, &Range<usize>) -> A,
    L: Fn(A) -> O,

    requires
        keys.len() > 0,
        in_turn(keys, n),
        streamed(query, keys, empty, first, next, finish, out),
        forall|k: &Range<usize>, acc: A| #[trigger]
            call_ensures(first, (&query, k), acc) && k.start == 0 ==> stage(
                query,
                k.end as int,
                acc,
            ),
        forall|acc: A, k: &Range<usize>, more: A| #[trigger]
            call_ensures(next, (acc, &query, k), more) && stage(query, k.start as int, acc)
                ==> stage(query, k.end as int, more),
        forall|acc: A, o: O| #[trigger]
            call_ensures(finish, (acc,), o) && stage(query, n, acc) ==> good(query, o),
    ensures
        good(query, out),
{
    let accs = choose|accs: Seq<A>| #[trigger]
        running(query, keys, first, next, accs) && accs.len() == keys.len() && call_ensures(
            finish,
            (accs.last(),),
            out,
        );
    lemma_running_stages(query, keys, first, next, accs, stage, keys.len() - 1);
}

proof fn lemma_running_stages<A, I, N>(
    query: Range<usize>,
    keys: Seq<Range<usize>>,
    first: I,
    next: N,
    accs: Seq<A>,
    stage: spec_fn(Range<usize>, int, A) -> bool,
    i: int,
) where
    I: Fn(&Range<usize>, &Range<usize>) -> A,
    N: Fn(A, &Range<usize>, &Range<usize>) -> A,

    requires
        keys.len() > 0,
        keys[0].start == 0,
        forall|a: int, b: int|
            0 <= a && b == a + 1 && b < keys.len() ==> (#[trigger] keys[a]).end == (
            #[trigger] keys[b]).start,
        running(query, keys, first, next, accs),
        accs.len() == keys.len(),
        0 <= i < keys.len(),
        forall|k: &Range<usize>, acc: A| #[trigger]
            call_ensures(first, (&query, k), acc) && k.start == 0 ==> stage(
                query,
                k.end as int,
                acc,
            ),
        forall|acc: A, k: &Range<usize>, more: A| #[trigger]
            call_ensures(next, (acc, &query, k), more) && stage(query, k.start as int, acc)
                ==> stage(query, k.end as int, more),
    ensures
        stage(query, keys[i].end as int, accs[i]),
    decreases i,
{
    if i > 0 {
        lemma_running_stages(query, keys, first, next, accs, stage, i - 1);
        assert(keys[i - 1].end == keys[i].start);
        assert(call_ensures(next, (accs[i - 1], &query, &keys[i]), accs[i]));
    }
}

/// Plain attention gives the rows of all queries, in order, whether it runs in
/// one piece, in chunks of queries, or with a softmax that runs over the chunks
/// of keys: that softmax reads every key once, in order.
pub proof fn plain_attention_gives_all_rows<A, O, Z, S, D, E, I, N, L, J>(
    env: FlowEnv,
    batch: usize,
    heads: usize,
    query_tokens: usize,
    key_tokens: usize,
    plan: PlainAttentionPlan,
    single: S,
    dense: D,
    empty: E,
    first: I,
    next: N,
    finish: L,
    join: J,
    out: O,
    full: Seq<Z>,
    rows: spec_fn(O) -> Seq<Z>,
    stage: spec_fn(Range<usize>, int, A) -> bool,
) where
    S: Fn() -> O,
    D: Fn(&Range<usize>) -> O,
    E: Fn(&Range<usize>) -> O,
    I: Fn(&Range<usize>, &Range<usize>) -> A,
    N: Fn(A, &Range<usize>, &Range<usize>) -> A,
    L: Fn(A) -> O,
    J: Fn(Vec<O>) -> O,

    requires
        is_dense_plan(
            env,
            batch as int,
            heads as int,
            query_tokens as int,
            key_tokens as int,
            plan,
        ) || is_stream_plan(
            env,
            batch as int,
            heads as int,
            query_tokens as int,
            key_tokens as int,
            plan,
        ),
        plain_outcome(plan, single, dense, empty, first, next, finish, join, out),
        full.len() == query_tokens,
        forall|o: O| #[trigger] call_ensures(single, (), o) ==> rows(o) == full,
        forall|q: &Range<usize>, o: O| #[trigger]
            call_ensures(dense, (q,), o) ==> rows(o) == full.subrange(
                q.start as int,
                q.end as int,
            ),
        forall|q: &Range<usize>, k: &Range<usize>, acc: A| #[trigger]
            call_ensures(first, (q, k), acc) && k.start == 0 ==> stage(*q, k.end as int, acc),
        forall|acc: A, q: &Range<usize>, k: &Range<usize>, more: A| #[trigger]
            call_ensures(next, (acc, q, k), more) && stage(*q, k.start as int, acc) ==> stage(
                *q,
                k.end as int,
                more,
            ),
        forall|acc: A, q: Range<usize>, o: O| #[trigger]
            call_ensures(finish, (acc,), o) && #[trigger] stage(q, key_tokens as int, acc) ==> rows(
                o,
            ) == full.subrange(q.start as int, q.end as int),
        forall|parts: Vec<O>, o: O| #[trigger]
            call_ensures(join, (parts,), o) ==> rows(o) == parts@.map_values(rows).flatten(),
    ensures
        rows(out) == full,
{
    match plan {
        PlainAttentionPlan::Single => {},
        PlainAttentionPlan::QueryChunks(ranges) => {
            let parts = choose|parts: Vec<O>| #[trigger]
                call_ensures(join, (parts,), out) && range_parts(ranges@, dense, parts@);
            assert(range_parts(ranges@, dense, parts@));
            let chunk = crate::policy::plain_query_chunk(env, query_tokens as int, 8);
            chunks_are_in_turn(query_tokens, chunk as usize);
            assert forall|i: int| 0 <= i < parts@.len() implies rows(#[trigger] parts@[i])
                == full.subrange(ranges@[i].start as int, ranges@[i].end as int) by {
                assert(call_ensures(dense, (&ranges@[i],), parts@[i]));
            }
            lemma_pieces_join(full, ranges@, parts@, rows);
        },
        PlainAttentionPlan::Streamed { queries, keys } => {
            let parts = choose|parts: Vec<O>| #[trigger]
                call_ensures(join, (parts,), out) && streamed_parts(
                    queries@,
                    keys@,
                    empty,
                    first,
                    next,
                    finish,
                    parts@,
                );
            let chunk = crate::policy::plain_query_chunk(env, query_tokens as int, 64);
            chunks_are_in_turn(query_tokens, chunk as usize);
            let key_chunk = if key_tokens < 1 {
                1usize
            } else if key_tokens < 128 {
                key_tokens
            } else {
                128usize
            };
            chunks_are_in_turn(key_tokens, key_chunk);
            assert(keys@ == streamed_key_ranges(key_tokens as int, key_chunk as int));
            assert(in_turn(keys@, key_tokens as int) && keys@.len() > 0);
            let good = |q: Range<usize>, o: O|
                rows(o) == full.subrange(q.start as int, q.end as int);
            assert forall|i: int| 0 <= i < parts@.len() implies rows(#[trigger] parts@[i])
                == full.subrange(queries@[i].start as int, queries@[i].end as int) by {
                assert(streamed(queries@[i], keys@, empty, first, next, finish, parts@[i]));
                lemma_streamed_stages(
                    queries@[i],
                    keys@,
                    key_tokens as int,
                    empty,
                    first,
                    next,
                    finish,
                    parts@[i],
                    stage,
                    good,
                );
                assert(good(queries@[i], parts@[i]));
            }
            lemma_pieces_join(full, queries@, parts@, rows);
        },
    }
}

// ---------------------------------------------------------------------------
// Self-attention
// ---------------------------------------------------------------------------

/// Self-attention gives the rows of all tokens, in order, on every path: queries
/// of a range are made of the projection of that range, they attend to the keys
/// of all tokens, and what they attend to is projected as their own range.
pub proof fn self_attention_gives_all_rows<J, Q, K, A, O, P, U, B, W, V, T, N, Y, Z, R, S>(
    plan: SelfAttentionPlan,
    project: P,
    queries: U,
    keys: B,
    lay_out: W,
    join_keys: V,
    attend: T,
    join_rows: N,
    project_out: Y,
    join_outputs: Z,
    out: O,
    projected: spec_fn(J, usize, usize) -> bool,
    asked: spec_fn(Q, usize, usize) -> bool,
    known: spec_fn(K, usize, usize) -> bool,
    attended_full: Seq<R>,
    attended: spec_fn(A) -> Seq<R>,
    full: Seq<S>,
    rows: spec_fn(O) -> Seq<S>,
) where
    P: Fn(SelfAttentionStep) -> J,
    U: Fn(SelfAttentionStep, &J) -> Q,
    B: Fn(SelfAttentionStep, &J) -> K,
    W: Fn(SelfAttentionStep, Q, K) -> (Q, K),
    V: Fn(SelfAttentionStep, Vec<K>) -> K,
    T: Fn(SelfAttentionStep, &Q, &Vec<K>) -> A,
    N: Fn(SelfAttentionStep, Vec<A>) -> A,
    Y: Fn(SelfAttentionStep, A) -> O,
    Z: Fn(SelfAttentionStep, Vec<O>) -> O,

    requires
        plan.wf(),
        self_attention_outcome(
            plan,
            project,
            queries,
            keys,
            lay_out,
            join_keys,
            attend,
            join_rows,
            project_out,
            join_outputs,
            out,
        ),
        full.len() == plan.tokens,
        attended_full.len() == plan.tokens,
        forall|start: usize, end: usize, j: J| #[trigger]
            call_ensures(project, (SelfAttentionStep::ProjectQkv { start, end },), j) ==> projected(
                j,
                start,
                end,
            ),
        forall|start: usize, end: usize, keep_queries: bool, j: &J, q: Q| #[trigger]
            call_ensures(
                queries,
                (SelfAttentionStep::NormRopeKeys { start, end, keep_queries }, j),
                q,
            ) && projected(*j, start, end) ==> asked(q, start, end),
        forall|start: usize, end: usize, j: &J, q: Q| #[trigger]
            call_ensures(queries, (SelfAttentionStep::NormRopeQueries { start, end }, j), q)
                && projected(*j, start, end) ==> asked(q, start, end),
        forall|start: usize, end: usize, keep_queries: bool, j: &J, k: K| #[trigger]
            call_ensures(
                keys,
                (SelfAttentionStep::NormRopeKeys { start, end, keep_queries }, j),
                k,
            ) && projected(*j, start, end) ==> known(k, start, end),
        forall|q: Q, k: K, laid: (Q, K)| #[trigger]
            call_ensures(lay_out, (SelfAttentionStep::LayoutProjection, q, k), laid) && asked(
                q,
                0,
                plan.tokens,
            ) && known(k, 0, plan.tokens) ==> asked(laid.0, 0, plan.tokens) && known(
                laid.1,
                0,
                plan.tokens,
            ),
        forall|chunks: usize, list: Vec<K>, k: K, ranges: Seq<Range<usize>>| #[trigger]
            call_ensures(join_keys, (SelfAttentionStep::JoinKeys { chunks }, list), k)
                && #[trigger] in_turn(ranges, plan.tokens as int) && ranges.len() == list@.len()
                && (forall|i: int|
                0 <= i < ranges.len() ==> known(
                    #[trigger] list@[i],
                    ranges[i].start,
                    ranges[i].end,
                )) ==> known(k, 0, plan.tokens),
        forall|start: usize, end: usize, q: &Q, list: &Vec<K>, a: A| #[trigger]
            call_ensures(
                attend,
                (
                    SelfAttentionStep::Attend { start, end, kernel: AttentionKernel::Dispatch },
                    q,
                    list,
                ),
                a,
            ) && plan.path == SelfAttentionPath::Whole && asked(*q, start, end) && list@.len() == 1
                && known(list@[0], 0, plan.tokens) ==> attended(a) == attended_full.subrange(
                start as int,
                end as int,
            ),
        forall|start: usize, end: usize, q: &Q, list: &Vec<K>, a: A| #[trigger]
            call_ensures(
                attend,
                (
                    SelfAttentionStep::Attend { start, end, kernel: AttentionKernel::Module },
                    q,
                    list,
                ),
                a,
            ) && (plan.path == SelfAttentionPath::ChunkedModule && asked(*q, start, end)
                || plan.path == SelfAttentionPath::FullProjection && asked(*q, 0, plan.tokens))
                && list@.len() == 1 && known(list@[0], 0, plan.tokens) ==> attended(a)
                == attended_full.subrange(start as int, end as int),
        forall|start: usize, end: usize, q: &Q, list: &Vec<K>, a: A, ranges: Seq<Range<usize>>|
            #[trigger]
            call_ensures(
                attend,
                (
                    SelfAttentionStep::Attend { start, end, kernel: AttentionKernel::StreamedKeys },
                    q,
                    list,
                ),
                a,
            ) && plan.path == SelfAttentionPath::ChunkedStream && asked(*q, start, end)
                && #[trigger] in_turn(ranges, plan.tokens as int) && ranges.len() == list@.len() && (
            forall|i: int|
                0 <= i < ranges.len() ==> known(
                    #[trigger] list@[i],
                    ranges[i].start,
                    ranges[i].end,
                )) ==> attended(a) == attended_full.subrange(start as int, end as int),
        forall|chunks: usize, list: Vec<A>, a: A| #[trigger]
            call_ensures(join_rows, (SelfAttentionStep::JoinOutput { chunks }, list), a)
                ==> attended(a) == list@.map_values(attended).flatten(),
        forall|start: usize, end: usize, a: A, o: O| #[trigger]
            call_ensures(project_out, (SelfAttentionStep::ProjectOut { start, end }, a), o)
                && attended(a) == attended_full.subrange(start as int, end as int) ==> rows(o)
                == full.subrange(start as int, end as int),
        forall|chunks: usize, list: Vec<O>, o: O| #[trigger]
            call_ensures(join_outputs, (SelfAttentionStep::JoinOutput { chunks }, list), o)
                ==> rows(o) == list@.map_values(rows).flatten(),
    ensures
        rows(out) == full,
{
    let n = plan.tokens;
    let key_ranges = chunk_ranges_of(n as int, plan.kv_chunk as int);
    chunks_are_in_turn(n, plan.kv_chunk);
    chunks_are_in_turn(n, plan.query_chunk);
    assert(full.subrange(0, n as int) =~= full);
    assert(attended_full.subrange(0, n as int) =~= attended_full);
    let whole = Range { start: 0usize, end: n };
    if plan.path == SelfAttentionPath::Whole || plan.path == SelfAttentionPath::FullProjection {
        let (j, q, k, got) = choose|j: J, q: Q, k: K, got: A|
            call_ensures(
                project,
                (SelfAttentionStep::ProjectQkv { start: 0, end: n },),
                j,
            ) && #[trigger] call_ensures(
                queries,
                (SelfAttentionStep::NormRopeKeys { start: 0, end: n, keep_queries: true }, &j),
                q,
            ) && #[trigger] call_ensures(
                keys,
                (SelfAttentionStep::NormRopeKeys { start: 0, end: n, keep_queries: true }, &j),
                k,
            ) && #[trigger] whole_rows(plan, q, k, lay_out, attend, join_rows, got)
                && call_ensures(
                project_out,
                (SelfAttentionStep::ProjectOut { start: 0, end: n }, got),
                out,
            );
        assert(asked(q, 0, n) && known(k, 0, n));
        assert(whole_rows(plan, q, k, lay_out, attend, join_rows, got));
        if plan.path == SelfAttentionPath::Whole {
            let list = choose|list: Vec<K>| #[trigger]
                call_ensures(
                    attend,
                    (
                        SelfAttentionStep::Attend {
                            start: 0,
                            end: n,
                            kernel: AttentionKernel::Dispatch,
                        },
                        &q,
                        &list,
                    ),
                    got,
                ) && list@ == seq![k];
            assert(list@.len() == 1 && list@[0] == k);
            assert(attended(got) == attended_full.subrange(0, n as int));
        } else {
            let (laid, list, parts) = choose|laid: (Q, K), list: Vec<K>, parts: Vec<A>| #[trigger]
                call_ensures(lay_out, (SelfAttentionStep::LayoutProjection, q, k), laid) && list@
                    == seq![laid.1] && #[trigger] ranges_attended(
                    plan.query_ranges(),
                    laid.0,
                    list,
                    attend,
                    parts@,
                ) && call_ensures(
                    join_rows,
                    (SelfAttentionStep::JoinOutput { chunks: parts@.len() as usize }, parts),
                    got,
                );
            let ranges = chunk_ranges_of(n as int, plan.query_chunk as int);
            assert(plan.query_ranges() == ranges);
            assert(list@.len() == 1 && list@[0] == laid.1);
            assert forall|i: int| 0 <= i < parts@.len() implies attended(#[trigger] parts@[i])
                == attended_full.subrange(ranges[i].start as int, ranges[i].end as int) by {
                assert(call_ensures(
                    attend,
                    (
                        SelfAttentionStep::Attend {
                            start: ranges[i].start,
                            end: ranges[i].end,
                            kernel: AttentionKernel::Module,
                        },
                        &laid.0,
                        &list,
                    ),
                    parts@[i],
                ));
            }
            lemma_pieces_join(attended_full, ranges, parts@, attended);
            assert(attended(got) == attended_full.subrange(0, n as int));
        }
        assert(rows(out) == full.subrange(0, n as int));
    } else {
        let outputs = choose|outputs: Vec<O>| #[trigger]
            call_ensures(
                join_outputs,
                (SelfAttentionStep::JoinOutput { chunks: outputs@.len() as usize }, outputs),
                out,
            ) && chunked_outputs(
                plan,
                project,
                queries,
                keys,
                join_keys,
                attend,
                project_out,
                outputs@,
            );
        let ranges = if plan.reuse_qkv {
            key_ranges
        } else {
            chunk_ranges_of(n as int, plan.query_chunk as int)
        };
        assert(plan.query_ranges() == ranges && plan.key_ranges() == key_ranges);
        let kernel = if plan.path == SelfAttentionPath::ChunkedModule {
            AttentionKernel::Module
        } else {
            AttentionKernel::StreamedKeys
        };
        let (projections, listed, kept, arranged) = choose|
            projections: Seq<J>,
            listed: Seq<K>,
            kept: Seq<Q>,
            arranged: Vec<K>,
        | #[trigger]
            keys_projected(
                plan.key_ranges(),
                plan.reuse_qkv,
                project,
                queries,
                keys,
                projections,
                listed,
                kept,
            ) && #[trigger] keys_arranged(plan, listed, join_keys, arranged@) && (
            if plan.reuse_qkv {
                exists|got: Seq<A>| #[trigger]
                    queries_attended(
                        plan.query_ranges(),
                        kernel,
                        kept,
                        arranged,
                        attend,
                        project_out,
                        got,
                        outputs@,
                    )
            } else {
                exists|fresh: Seq<J>, own: Seq<Q>, got: Seq<A>| #[trigger]
                    queries_projected(plan.query_ranges(), project, queries, fresh, own)
                        && #[trigger] queries_attended(
                        plan.query_ranges(),
                        kernel,
                        own,
                        arranged,
                        attend,
                        project_out,
                        got,
                        outputs@,
                    )
            });
        assert forall|i: int| 0 <= i < key_ranges.len() implies known(
            #[trigger] listed[i],
            key_ranges[i].start,
            key_ranges[i].end,
        ) by {
            assert(call_ensures(
                project,
                (
                    SelfAttentionStep::ProjectQkv {
                        start: key_ranges[i].start,
                        end: key_ranges[i].end,
                    },
                ),
                projections[i],
            ));
            assert(call_ensures(
                keys,
                (
                    SelfAttentionStep::NormRopeKeys {
                        start: key_ranges[i].start,
                        end: key_ranges[i].end,
                        keep_queries: plan.reuse_qkv,
                    },
                    &projections[i],
                ),
                listed[i],
            ));
        }
        if plan.path == SelfAttentionPath::ChunkedModule {
            let (list, joined) = choose|list: Vec<K>, joined: K| #[trigger]
                call_ensures(
                    join_keys,
                    (SelfAttentionStep::JoinKeys { chunks: listed.len() as usize }, list),
                    joined,
                ) && list@ == listed && arranged@ == seq![joined];
            assert(in_turn(key_ranges, n as int));
            assert forall|i: int| 0 <= i < key_ranges.len() implies known(
                #[trigger] list@[i],
                key_ranges[i].start,
                key_ranges[i].end,
            ) by {
                assert(list@[i] == listed[i]);
            }
            assert(known(joined, 0, n));
            assert(arranged@.len() == 1 && arranged@[0] == joined);
        } else {
            assert(arranged@ == listed);
        }
        let (own, got) = if plan.reuse_qkv {
            let got = choose|got: Seq<A>| #[trigger]
                queries_attended(
                    plan.query_ranges(),
                    kernel,
                    kept,
                    arranged,
                    attend,
                    project_out,
                    got,
                    outputs@,
                );
            (kept, got)
        } else {
            let (fresh, own, got) = choose|fresh: Seq<J>, own: Seq<Q>, got: Seq<A>| #[trigger]
                queries_projected(plan.query_ranges(), project, queries, fresh, own)
                    && #[trigger] queries_attended(
                    plan.query_ranges(),
                    kernel,
                    own,
                    arranged,
                    attend,
                    project_out,
                    got,
                    outputs@,
                );
            assert forall|i: int| 0 <= i < ranges.len() implies asked(
                #[trigger] own[i],
                ranges[i].start,
                ranges[i].end,
            ) by {
                assert(call_ensures(
                    project,
                    (
                        SelfAttentionStep::ProjectQkv {
                            start: ranges[i].start,
                            end: ranges[i].end,
                        },
                    ),
                    fresh[i],
                ));
            }
            (own, got)
        };
        assert(queries_attended(
            ranges,
            kernel,
            own,
            arranged,
            attend,
            project_out,
            got,
            outputs@,
        ));
        assert forall|i: int| 0 <= i < ranges.len() implies asked(
            #[trigger] own[i],
            ranges[i].start,
            ranges[i].end,
        ) by {
            if plan.reuse_qkv {
                assert(call_ensures(
                    project,
                    (
                        SelfAttentionStep::ProjectQkv {
                            start: ranges[i].start,
                            end: ranges[i].end,
                        },
                    ),
                    projections[i],
                ));
                assert(call_ensures(
                    queries,
                    (
                        SelfAttentionStep::NormRopeKeys {
                            start: ranges[i].start,
                            end: ranges[i].end,
                            keep_queries: plan.reuse_qkv,
                        },
                        &projections[i],
                    ),
                    kept[i],
                ));
            }
        }
        assert forall|i: int| 0 <= i < outputs@.len() implies rows(#[trigger] outputs@[i])
            == full.subrange(ranges[i].start as int, ranges[i].end as int) by {
            assert(asked(own[i], ranges[i].start, ranges[i].end));
            assert(call_ensures(
                attend,
                (
                    SelfAttentionStep::Attend {
                        start: ranges[i].start,
                        end: ranges[i].end,
                        kernel,
                    },
                    &own[i],
                    &arranged,
                ),
                got[i],
            ));
            assert(in_turn(key_ranges, n as int));
            assert(attended(got[i]) == attended_full.subrange(
                ranges[i].start as int,
                ranges[i].end as int,
            ));
            assert(call_ensures(
                project_out,
                (
                    SelfAttentionStep::ProjectOut { start: ranges[i].start, end: ranges[i].end },
                    got[i],
                ),
                outputs@[i],
            ));
        }
        lemma_pieces_join(full, ranges, outputs@, rows);
    }
}

// ---------------------------------------------------------------------------
// Cross-attention
// ---------------------------------------------------------------------------

/// One range of queries is projected, normalized, attends and is projected out
/// as that range.
proof fn lemma_cross_range<Q, K, A, O, P, N, T, Y, S>(
    range: Range<usize>,
    module: bool,
    keys: Option<&K>,
    project: P,
    norm: N,
    attend: T,
    project_out: Y,
    out: O,
    projected: spec_fn(Q, usize, usize) -> bool,
    asked: spec_fn(Q, usize, usize) -> bool,
    attended: spec_fn(A, usize, usize) -> bool,
    full: Seq<S>,
    rows: spec_fn(O) -> Seq<S>,
) where
    P: Fn(CrossAttentionStep) -> Q,
    N: Fn(CrossAttentionStep, Q) -> Q,
    T: Fn(CrossAttentionStep, Q, Option<&K>) -> A,
    Y: Fn(CrossAttentionStep, A) -> O,

    requires
        cross_range(range, module, keys, project, norm, attend, project_out, out),
        forall|start: usize, end: usize, q: Q| #[trigger]
            call_ensures(project, (CrossAttentionStep::ProjectQueries { start, end },), q)
                ==> projected(q, start, end),
        forall|start: usize, end: usize, q: Q, r: Q| #[trigger]
            call_ensures(norm, (CrossAttentionStep::NormQueries { start, end }, q), r) && projected(
                q,
                start,
                end,
            ) ==> asked(r, start, end),
        forall|start: usize, end: usize, q: Q, a: A| #[trigger]
            call_ensures(attend, (CrossAttentionStep::Attend { start, end, module }, q, keys), a)
                && asked(q, start, end) ==> attended(a, start, end),
        forall|start: usize, end: usize, a: A, o: O| #[trigger]
            call_ensures(project_out, (CrossAttentionStep::ProjectOut { start, end }, a), o)
                && attended(a, start, end) ==> rows(o) == full.subrange(start as int, end as int),
    ensures
        rows(out) == full.subrange(range.start as int, range.end as int),
{
}

/// Cross-attention gives the rows of all tokens, in order, cut into chunks or
/// not. Chunks attend by the module kernel exactly where keys were laid out for
/// it, and uncut calls never do.
pub proof fn cross_attention_gives_all_rows<Q, K, A, O, W, P, N, T, Y, Z, S>(
    plan: CrossAttentionPlan,
    lay_out: W,
    project: P,
    norm: N,
    attend: T,
    project_out: Y,
    join_outputs: Z,
    out: O,
    projected: spec_fn(Q, usize, usize) -> bool,
    asked: spec_fn(Q, usize, usize) -> bool,
    laid: spec_fn(K) -> bool,
    attended: spec_fn(A, usize, usize) -> bool,
    full: Seq<S>,
    rows: spec_fn(O) -> Seq<S>,
) where
    W: Fn(CrossAttentionStep) -> K,
    P: Fn(CrossAttentionStep) -> Q,
    N: Fn(CrossAttentionStep, Q) -> Q,
    T: Fn(CrossAttentionStep, Q, Option<&K>) -> A,
    Y: Fn(CrossAttentionStep, A) -> O,
    Z: Fn(CrossAttentionStep, Vec<O>) -> O,

    requires
        plan.query_chunk > 0,
        cross_attention_outcome(
            plan,
            lay_out,
            project,
            norm,
            attend,
            project_out,
            join_outputs,
            out,
        ),
        full.len() == plan.tokens,
        forall|k: K| #[trigger]
            call_ensures(lay_out, (CrossAttentionStep::LayoutKeys,), k) ==> laid(k),
        forall|start: usize, end: usize, q: Q| #[trigger]
            call_ensures(project, (CrossAttentionStep::ProjectQueries { start, end },), q)
                ==> projected(q, start, end),
        forall|start: usize, end: usize, q: Q, r: Q| #[trigger]
            call_ensures(norm, (CrossAttentionStep::NormQueries { start, end }, q), r) && projected(
                q,
                start,
                end,
            ) ==> asked(r, start, end),
        forall|start: usize, end: usize, q: Q, k: &K, a: A| #[trigger]
            call_ensures(
                attend,
                (CrossAttentionStep::Attend { start, end, module: true }, q, Some(k)),
                a,
            ) && plan.chunked && plan.use_module && laid(*k) && asked(q, start, end) ==> attended(
                a,
                start,
                end,
            ),
        forall|start: usize, end: usize, q: Q, a: A| #[trigger]
            call_ensures(
                attend,
                (CrossAttentionStep::Attend { start, end, module: false }, q, None::<&K>),
                a,
            ) && !(plan.chunked && plan.use_module) && asked(q, start, end) ==> attended(
                a,
                start,
                end,
            ),
        forall|start: usize, end: usize, a: A, o: O| #[trigger]
            call_ensures(project_out, (CrossAttentionStep::ProjectOut { start, end }, a), o)
                && attended(a, start, end) ==> rows(o) == full.subrange(start as int, end as int),
        forall|chunks: usize, list: Vec<O>, o: O| #[trigger]
            call_ensures(join_outputs, (CrossAttentionStep::JoinOutput { chunks }, list), o)
                ==> rows(o) == list@.map_values(rows).flatten(),
    ensures
        rows(out) == full,
{
    let n = plan.tokens;
    assert(full.subrange(0, n as int) =~= full);
    if plan.chunked {
        chunks_are_in_turn(n, plan.query_chunk);
        let ranges = chunk_ranges_of(n as int, plan.query_chunk as int);
        let (keys, outputs) = choose|keys: Option<&K>, outputs: Vec<O>| #[trigger]
            cross_keys(plan, lay_out, keys) && #[trigger] call_ensures(
                join_outputs,
                (CrossAttentionStep::JoinOutput { chunks: outputs@.len() as usize }, outputs),
                out,
            ) && cross_ranges(
                plan.query_ranges(),
                plan.use_module,
                keys,
                project,
                norm,
                attend,
                project_out,
                outputs@,
            );
        assert(plan.query_ranges() == ranges);
        assert forall|i: int| 0 <= i < outputs@.len() implies rows(#[trigger] outputs@[i])
            == full.subrange(ranges[i].start as int, ranges[i].end as int) by {
            assert(cross_range(
                ranges[i],
                plan.use_module,
                keys,
                project,
                norm,
                attend,
                project_out,
                outputs@[i],
            ));
            if plan.use_module {
                assert(laid(*keys->Some_0));
            }
            lemma_cross_range(
                ranges[i],
                plan.use_module,
                keys,
                project,
                norm,
                attend,
                project_out,
                outputs@[i],
                projected,
                asked,
                attended,
                full,
                rows,
            );
        }
        lemma_pieces_join(full, ranges, outputs@, rows);
    } else {
        lemma_cross_range(
            (Range { start: 0, end: n }),
            false,
            None::<&K>,
            project,
            norm,
            attend,
            project_out,
            out,
            projected,
            asked,
            attended,
            full,
            rows,
        );
    }
}

// ---------------------------------------------------------------------------
// MLP
// ---------------------------------------------------------------------------

/// The MLP gives all rows, in order, cut into chunks or not, and with half
/// precision exactly where the plan has it.
pub proof fn feed_forward_gives_all_rows<O, W, C, J, S>(
    rows: usize,
    chunk_rows: usize,
    plan: FeedForwardPlan,
    halved: bool,
    whole: W,
    chunk: C,
    join: J,
    out: O,
    full: Seq<S>,
    shown: spec_fn(O) -> Seq<S>,
) where W: Fn(bool) -> O, C: Fn(MlpChunk, bool) -> O, J: Fn(Vec<O>) -> O
    requires
        chunk_rows > 0,
        match plan {
            FeedForwardPlan::Whole { f16_chain } => f16_chain == halved,
            FeedForwardPlan::Chunked { f16_chain, chunks } => f16_chain == halved && chunks.len()
                == mlp_rows(rows as int, chunk_rows as int).len() && forall|i: int|
                0 <= i < chunks.len() ==> (#[trigger] chunks[i]).rows == mlp_rows(
                    rows as int,
                    chunk_rows as int,
                )[i],
        },
        feed_forward_outcome(plan, whole, chunk, join, out),
        full.len() == rows,
        forall|o: O| #[trigger] call_ensures(whole, (halved,), o) ==> shown(o) == full,
        forall|c: MlpChunk, o: O| #[trigger]
            call_ensures(chunk, (c, halved), o) && c.rows.window_start <= c.rows.start && c.rows.end
                <= c.rows.window_end ==> shown(o) == full.subrange(
                c.rows.start as int,
                c.rows.end as int,
            ),
        forall|parts: Vec<O>, o: O| #[trigger]
            call_ensures(join, (parts,), o) ==> shown(o) == parts@.map_values(shown).flatten(),
    ensures
        shown(out) == full,
{
    if let FeedForwardPlan::Chunked { f16_chain, chunks } = plan {
        let parts = choose|parts: Vec<O>| #[trigger]
            call_ensures(join, (parts,), out) && parts@.len() == chunks@.len() && forall|i: int|
                0 <= i < parts@.len() ==> call_ensures(
                    chunk,
                    (chunks@[i], f16_chain),
                    #[trigger] parts@[i],
                );
        let list = mlp_rows(rows as int, chunk_rows as int);
        mlp_rows_cover_all(rows, chunk_rows);
        let ranges = list.map_values(|r: MlpRows| (Range { start: r.start, end: r.end }));
        assert(rows_chain(list, 0, rows as int, chunk_rows as int));
        assert(in_turn(ranges, rows as int)) by {
            assert forall|i: int, j: int|
                0 <= i && j == i + 1 && j < ranges.len() implies (#[trigger] ranges[i]).end == (
            #[trigger] ranges[j]).start by {
                assert(list[i].end == list[j].start);
            }
        }
        assert forall|i: int| 0 <= i < parts@.len() implies shown(#[trigger] parts@[i])
            == full.subrange(ranges[i].start as int, ranges[i].end as int) by {
            assert(call_ensures(chunk, (chunks@[i], f16_chain), parts@[i]));
            assert(chunks@[i].rows == list[i]);
        }
        lemma_pieces_join(full, ranges, parts@, shown);
    }
}

// ---------------------------------------------------------------------------
// Module attention and dispatch
// ---------------------------------------------------------------------------

/// A module attention request gives the rows of all queries, in order, streamed
/// or by launches; a launch serves its own range, padded to whole granules.
pub proof fn module_attention_gives_all_rows<O, Z, S, C, J>(
    env: FlowEnv,
    batch: usize,
    heads: usize,
    query_tokens: usize,
    key_tokens: usize,
    head_dim: usize,
    plan: ModuleAttentionPlan,
    stream: S,
    launch: C,
    join: J,
    out: O,
    full: Seq<Z>,
    rows: spec_fn(O) -> Seq<Z>,
) where S: Fn() -> O, C: Fn(ModuleAttentionCall) -> O, J: Fn(Vec<O>) -> O
    requires
        query_tokens <= usize::MAX - 127,
        plan matches ModuleAttentionPlan::Launch(calls) ==> ({
            let ranges = module_attention_ranges(
                env,
                query_tokens as int,
                key_tokens as int,
                head_dim as int,
            );
            &&& calls.len() == ranges.len()
            &&& forall|i: int|
                0 <= i < calls.len() ==> #[trigger] calls[i] == module_attention_call(
                    env,
                    batch as int,
                    heads as int,
                    key_tokens as int,
                    head_dim as int,
                    ranges[i],
                )
        }),
        module_outcome(plan, stream, launch, join, out),
        full.len() == query_tokens,
        forall|o: O| #[trigger] call_ensures(stream, (), o) ==> rows(o) == full,
        forall|call: ModuleAttentionCall, o: O| #[trigger]
            call_ensures(launch, (call,), o) && call.start <= call.end && call.end - call.start
                <= call.padded_queries < call.end - call.start + 128 && call.padded_queries % 128
                == 0 ==> rows(o) == full.subrange(call.start as int, call.end as int),
        forall|parts: Vec<O>, o: O| #[trigger]
            call_ensures(join, (parts,), o) ==> rows(o) == parts@.map_values(rows).flatten(),
    ensures
        rows(out) == full,
{
    if let ModuleAttentionPlan::Launch(calls) = plan {
        let ranges = module_attention_ranges(
            env,
            query_tokens as int,
            key_tokens as int,
            head_dim as int,
        );
        let cap = safe_query_cap(env, query_tokens as int, key_tokens as int, head_dim as int);
        if cap is Some {
            chunks_are_in_turn(query_tokens, cap->Some_0 as usize);
        }
        assert(in_turn(ranges, query_tokens as int));
        let parts = choose|parts: Seq<O>| #[trigger]
            joined_or_single(parts, join, out) && parts.len() == calls@.len() && forall|i: int|
                0 <= i < parts.len() ==> call_ensures(launch, (calls@[i],), #[trigger] parts[i]);
        assert forall|i: int| 0 <= i < parts.len() implies rows(#[trigger] parts[i])
            == full.subrange(ranges[i].start as int, ranges[i].end as int) by {
            assert(call_ensures(launch, (calls@[i],), parts[i]));
            assert(ranges[i].start <= ranges[i].end);
            lemma_range_order(ranges, query_tokens as int, i);
            padding_is_minimal(ranges[i].end - ranges[i].start);
        }
        lemma_pieces_join(full, ranges, parts, rows);
        lemma_joined_or_single(parts, join, out, rows);
    }
}

/// One part stands for itself; several are joined.
proof fn lemma_joined_or_single<O, Z, J>(
    parts: Seq<O>,
    join: J,
    out: O,
    rows: spec_fn(O) -> Seq<Z>,
) where J: Fn(Vec<O>) -> O
    requires
        joined_or_single(parts, join, out),
        forall|list: Vec<O>, o: O| #[trigger]
            call_ensures(join, (list,), o) ==> rows(o) == list@.map_values(rows).flatten(),
    ensures
        rows(out) == parts.map_values(rows).flatten(),
{
    if parts.len() == 1 {
        let list = parts.map_values(rows);
        let none = Seq::<Seq<Z>>::empty();
        assert(list =~= none.push(rows(parts[0])));
        none.lemma_flatten_push(rows(parts[0]));
        assert(none.flatten() =~= Seq::<Z>::empty());
        assert(list.flatten() =~= rows(parts[0]));
    }
}

/// Dispatched attention gives the rows of all queries, in order, whichever way
/// it is served.
pub proof fn dispatched_attention_gives_all_rows<O, Z, M, P, J>(
    query_tokens: usize,
    chunk: usize,
    dispatch: AttentionDispatch,
    module: M,
    plain: P,
    join: J,
    out: O,
    full: Seq<Z>,
    rows: spec_fn(O) -> Seq<Z>,
) where M: Fn(&Range<usize>) -> O, P: Fn(&PlainAttentionPlan) -> O, J: Fn(Vec<O>) -> O
    requires
        chunk > 0,
        dispatch matches AttentionDispatch::Module(ranges) ==> ranges@ == whole_or_chunks(
            query_tokens as int,
            chunk as int,
        ),
        dispatch_outcome(dispatch, module, plain, join, out),
        full.len() == query_tokens,
        forall|q: &Range<usize>, o: O| #[trigger]
            call_ensures(module, (q,), o) ==> rows(o) == full.subrange(
                q.start as int,
                q.end as int,
            ),
        forall|plan: &PlainAttentionPlan, o: O| #[trigger]
            call_ensures(plain, (plan,), o) && (dispatch == AttentionDispatch::Dense(*plan)
                || dispatch == AttentionDispatch::Stream(*plan)) ==> rows(o) == full,
        forall|parts: Vec<O>, o: O| #[trigger]
            call_ensures(join, (parts,), o) ==> rows(o) == parts@.map_values(rows).flatten(),
    ensures
        rows(out) == full,
{
    if let AttentionDispatch::Module(ranges) = dispatch {
        if chunk < query_tokens {
            chunks_are_in_turn(query_tokens, chunk);
        }
        assert(in_turn(ranges@, query_tokens as int));
        let parts = choose|parts: Seq<O>| #[trigger]
            joined_or_single(parts, join, out) && range_parts(ranges@, module, parts);
        assert forall|i: int| 0 <= i < parts.len() implies rows(#[trigger] parts[i])
            == full.subrange(ranges@[i].start as int, ranges@[i].end as int) by {
            assert(call_ensures(module, (&ranges@[i],), parts[i]));
        }
        lemma_pieces_join(full, ranges@, parts, rows);
        lemma_joined_or_single(parts, join, out, rows);
    }
}

// ---------------------------------------------------------------------------
// Cached projections
// ---------------------------------------------------------------------------

/// In projections that are stacked for a batch of both branches, the first half
/// is that of the positive condition and the second half that of the negative
/// one, for keys and for values.
pub proof fn stacked_projections_fall_into_their_halves<T, F: Fn(&T, &T) -> T, Z>(
    cat: F,
    pos: CrossAttentionProjectedKv<T>,
    neg: CrossAttentionProjectedKv<T>,
    out: CrossAttentionProjectedKv<T>,
    batches: spec_fn(T) -> Seq<Z>,
    n: int,
)
    requires
        joinable(pos, neg),
        joined(cat, pos, neg, out),
        forall|a: &T, b: &T, c: T| #[trigger]
            call_ensures(cat, (a, b), c) ==> batches(c) == batches(*a) + batches(*b),
        batches(pos.k).len() == n,
        batches(neg.k).len() == n,
        batches(pos.v).len() == n,
        batches(neg.v).len() == n,
        pos.module_k matches Some(k) ==> batches(k).len() == n,
        neg.module_k matches Some(k) ==> batches(k).len() == n,
        pos.module_v matches Some(v) ==> batches(v).len() == n,
        neg.module_v matches Some(v) ==> batches(v).len() == n,
    ensures
        batches(out.k).subrange(0, n) == batches(pos.k),
        batches(out.k).subrange(n, 2 * n) == batches(neg.k),
        batches(out.v).subrange(0, n) == batches(pos.v),
        batches(out.v).subrange(n, 2 * n) == batches(neg.v),
        out.module_dtype == pos.module_dtype,
        out.module_k is Some <==> pos.module_k is Some,
        out.module_v is Some <==> pos.module_v is Some,
        pos.module_k is Some ==> batches(out.module_k->Some_0).subrange(0, n) == batches(
            pos.module_k->Some_0,
        ) && batches(out.module_k->Some_0).subrange(n, 2 * n) == batches(neg.module_k->Some_0),
        pos.module_v is Some ==> batches(out.module_v->Some_0).subrange(0, n) == batches(
            pos.module_v->Some_0,
        ) && batches(out.module_v->Some_0).subrange(n, 2 * n) == batches(neg.module_v->Some_0),
{
    assert((batches(pos.k) + batches(neg.k)).subrange(0, n) =~= batches(pos.k));
    assert((batches(pos.k) + batches(neg.k)).subrange(n, 2 * n) =~= batches(neg.k));
    assert((batches(pos.v) + batches(neg.v)).subrange(0, n) =~= batches(pos.v));
    assert((batches(pos.v) + batches(neg.v)).subrange(n, 2 * n) =~= batches(neg.v));
    if pos.module_k is Some {
        let (a, b) = (batches(pos.module_k->Some_0), batches(neg.module_k->Some_0));
        assert((a + b).subrange(0, n) =~= a);
        assert((a + b).subrange(n, 2 * n) =~= b);
    }
    if pos.module_v is Some {
        let (a, b) = (batches(pos.module_v->Some_0), batches(neg.module_v->Some_0));
        assert((a + b).subrange(0, n) =~= a);
        assert((a + b).subrange(n, 2 * n) =~= b);
    }
}

/// Projections are cached exactly where they fit the budget: keys and values of
/// one condition for all blocks, in single precision; those of both conditions
/// where both are needed and fit together.
pub proof fn caches_fit_their_budget(
    env: FlowEnv,
    backend: FlowBackend,
    cond_batches: int,
    cond_tokens: int,
    model_channels: int,
    blocks: int,
    neg_needed: bool,
)
    requires
        cond_batches > 0,
        cond_tokens > 0,
        model_channels > 0,
        blocks > 0,
    ensures
        ({
            let plan = cache_plan(
                env,
                backend,
                cond_batches,
                cond_tokens,
                model_channels,
                blocks,
                neg_needed,
            );
            let bytes = cond_batches * cond_tokens * model_channels * 2 * blocks * 4;
            let budget = cross_kv_cache_budget(env, backend);
            &&& plan is Uncached <==> budget == 0 || bytes > budget
            &&& plan is Both <==> budget != 0 && neg_needed && 2 * bytes <= budget
        }),
{
    let max = usize::MAX as int;
    let p1 = cond_batches * cond_tokens;
    let p2 = p1 * model_channels;
    let p3 = p2 * 2;
    let p4 = p3 * blocks;
    let bytes = cond_batches * cond_tokens * model_channels * 2 * blocks * 4;
    assert(bytes == p4 * 4);
    assert(p1 > 0 && p1 <= p2 && p2 <= p3 && p3 <= p4 && p4 <= bytes) by (nonlinear_arith)
        requires
            cond_batches > 0,
            cond_tokens > 0,
            model_channels > 0,
            blocks > 0,
            p1 == cond_batches * cond_tokens,
            p2 == p1 * model_channels,
            p3 == p2 * 2,
            p4 == p3 * blocks,
            bytes == p4 * 4,
    ;
    assert(p4 * 1 == p4);
    let estimated = cache_estimated_bytes(
        cond_batches,
        cond_tokens,
        model_channels,
        blocks,
        1,
    );
    assert(estimated == (if bytes > max {
        max
    } else {
        bytes
    }));
}

} // verus!
