//! Attention calls by shape: module attention with its splitting and padding,
//! and plain attention in dense and streamed form.
use crate::arith::{ceil_div, div_ceil, imax, imin, lemma_ceil_div, max_usize, min_usize};
use crate::chunks::{
    chunk_ranges, chunk_ranges_are_contiguous, chunk_ranges_of, whole_or_chunk_ranges,
    whole_or_chunks,
};
use crate::policy::{
    attention_form, attention_impl, attention_key_chunk, attention_logits_budget_bytes,
    attention_logits_bytes, attention_query_chunk, attention_uses_module_kernel,
    batched_requires_stream, cross_shape_requires_stream, logits_budget, logits_bytes, long_k_requires_fallback, module_chunk_cap_for_shape,
    plain_query_chunk, query_chunk_cap, safe_query_cap,
    sparse_flow_module_attention_batched_long_k_requires_stream,
    sparse_flow_module_attention_chunk_cap_for_shape,
    sparse_flow_module_attention_cross_shape_requires_stream,
    sparse_flow_module_attention_long_k_requires_fallback,
    sparse_flow_module_attention_query_chunk_cap, sparse_flow_module_attention_query_multiple,
    sparse_flow_module_attention_safe_query_cap_for_shape, AttentionImpl, FlowBackend, FlowEnv,
    SPARSE_FLOW_MODULE_ATTENTION_LONG_K_QUERY_CHUNK,
};
use core::ops::Range;
use vstd::prelude::*;

verus! {

// ---------------------------------------------------------------------------
// Module attention
// ---------------------------------------------------------------------------

/// One launch of the module attention kernel.
#[derive(Clone, Copy, Debug, PartialEq, Eq, Structural)]
pub struct ModuleAttentionCall {
    /// First query.
    pub start: usize,
    /// End of the queries.
    pub end: usize,
    /// Queries after zero padding.
    pub padded_queries: usize,
    /// The softmax scale is passed explicitly.
    pub explicit_scale: bool,
}

/// How a module attention request is served.
#[derive(Debug)]
pub enum ModuleAttentionPlan {
    /// By streamed attention.
    Stream,
    /// By kernel launches whose outputs are joined in order.
    Launch(Vec<ModuleAttentionCall>),
}

/// Queries after padding to the kernel's granularity.
pub open spec fn padded_queries(queries: int) -> int {
    ceil_div(queries, 128) * 128
}

/// Padding adds fewer than one granule and leaves whole granules.
pub proof fn padding_is_minimal(queries: int)
    requires
        queries >= 0,
    ensures
        queries <= padded_queries(queries) < queries + 128,
        padded_queries(queries) % 128 == 0,
{
    lemma_ceil_div(queries, 128);
}

/// Query ranges of the launches that serve one request.
pub open spec fn module_attention_ranges(
    env: FlowEnv,
    query_tokens: int,
    key_tokens: int,
    head_dim: int,
) -> Seq<Range<usize>> {
    match safe_query_cap(env, query_tokens, key_tokens, head_dim) {
        Some(cap) => chunk_ranges_of(query_tokens, cap),
        None => seq![(Range { start: 0, end: query_tokens as usize })],
    }
}

/// The launch that serves the queries of a range.
pub open spec fn module_attention_call(
    env: FlowEnv,
    batch: int,
    heads: int,
    key_tokens: int,
    head_dim: int,
    r: Range<usize>,
) -> ModuleAttentionCall {
    ModuleAttentionCall {
        start: r.start,
        end: r.end,
        padded_queries: padded_queries(r.end - r.start) as usize,
        explicit_scale: long_k_requires_fallback(env, batch, heads, key_tokens, head_dim),
    }
}

/// Plans a module attention request.
///
/// Batched calls with wide heads are streamed; long-key requests above the
/// safe query cap are split; every launch is padded.
pub fn plan_module_attention(
    env: &FlowEnv,
    batch: usize,
    heads: usize,
    query_tokens: usize,
    key_tokens: usize,
    head_dim: usize,
) -> (r: ModuleAttentionPlan)
    requires
        query_tokens <= usize::MAX - 127,
    ensures
        (r is Stream) == batched_requires_stream(batch as int, head_dim as int),
        r matches ModuleAttentionPlan::Launch(calls) ==> {
            let ranges = module_attention_ranges(
                *env,
                query_tokens as int,
                key_tokens as int,
                head_dim as int,
            );
            &&& calls.len() == ranges.len()
            &&& forall|i: int|
                0 <= i < calls.len() ==> #[trigger] calls[i] == module_attention_call(
                    *env,
                    batch as int,
                    heads as int,
                    key_tokens as int,
                    head_dim as int,
                    ranges[i],
                )
        },
{
    if sparse_flow_module_attention_batched_long_k_requires_stream(batch, key_tokens, head_dim) {
        return ModuleAttentionPlan::Stream;
    }
    let ranges: Vec<Range<usize>> = match sparse_flow_module_attention_safe_query_cap_for_shape(
        env,
        batch,
        heads,
        query_tokens,
        key_tokens,
        head_dim,
    ) {
        Some(cap) => chunk_ranges(query_tokens, cap),
        None => {
            let mut one: Vec<Range<usize>> = Vec::new();
            one.push(0..query_tokens);
            one
        },
    };
    let explicit_scale: bool = sparse_flow_module_attention_long_k_requires_fallback(
        env,
        batch,
        heads,
        key_tokens,
        head_dim,
    );
    let multiple: usize = sparse_flow_module_attention_query_multiple();
    let ghost want = module_attention_ranges(
        *env,
        query_tokens as int,
        key_tokens as int,
        head_dim as int,
    );
    proof {
        assert(ranges@ =~= want);
        lemma_module_ranges(env, query_tokens, key_tokens, head_dim);
    }
    let mut calls: Vec<ModuleAttentionCall> = Vec::new();
    let mut i: usize = 0;
    while i < ranges.len()
        invariant
            i <= ranges.len(),
            calls.len() == i,
            ranges@ == want,
            multiple == 128,
            query_tokens <= usize::MAX - 127,
            forall|j: int|
                0 <= j < want.len() ==> (#[trigger] want[j]).start <= want[j].end <= query_tokens,
            explicit_scale == long_k_requires_fallback(
                *env,
                batch as int,
                heads as int,
                key_tokens as int,
                head_dim as int,
            ),
            forall|j: int|
                0 <= j < i ==> #[trigger] calls[j] == module_attention_call(
                    *env,
                    batch as int,
                    heads as int,
                    key_tokens as int,
                    head_dim as int,
                    want[j],
                ),
        decreases ranges.len() - i,
    {
        let start: usize = ranges[i].start;
        let end: usize = ranges[i].end;
        proof {
            assert(want[i as int].start <= want[i as int].end <= query_tokens);
            padding_is_minimal(end - start);
        }
        let padded: usize = div_ceil(end - start, multiple) * multiple;
        calls.push(
            ModuleAttentionCall { start, end, padded_queries: padded, explicit_scale },
        );
        i = i + 1;
    }
    ModuleAttentionPlan::Launch(calls)
}

/// Launch ranges lie within the request.
proof fn lemma_module_ranges(
    env: &FlowEnv,
    query_tokens: usize,
    key_tokens: usize,
    head_dim: usize,
)
    ensures
        ({
            let ranges = module_attention_ranges(
                *env,
                query_tokens as int,
                key_tokens as int,
                head_dim as int,
            );
            forall|j: int|
                0 <= j < ranges.len() ==> (#[trigger] ranges[j]).start <= ranges[j].end
                    <= query_tokens
        }),
{
    match safe_query_cap(*env, query_tokens as int, key_tokens as int, head_dim as int) {
        Some(cap) => {
            chunk_ranges_are_contiguous(query_tokens, cap as usize);
        },
        None => {},
    }
}

/// Splitting goes one level deep: no launch of a planned request is itself
/// above the safe query cap.
pub proof fn module_launches_need_no_further_split(
    env: FlowEnv,
    query_tokens: usize,
    key_tokens: usize,
    head_dim: usize,
    i: int,
)
    requires
        0 <= i < module_attention_ranges(
            env,
            query_tokens as int,
            key_tokens as int,
            head_dim as int,
        ).len(),
    ensures
        ({
            let r = module_attention_ranges(
                env,
                query_tokens as int,
                key_tokens as int,
                head_dim as int,
            )[i];
            safe_query_cap(env, r.end - r.start, key_tokens as int, head_dim as int) is None
        }),
{
    match safe_query_cap(env, query_tokens as int, key_tokens as int, head_dim as int) {
        Some(cap) => {
            chunk_ranges_are_contiguous(query_tokens, cap as usize);
            let r = chunk_ranges_of(query_tokens as int, cap)[i];
            assert(0 < r.end - r.start <= cap);
        },
        None => {},
    }
}

// ---------------------------------------------------------------------------
// Plain attention
// ---------------------------------------------------------------------------

/// How plain attention is carried out.
#[derive(Debug)]
pub enum PlainAttentionPlan {
    /// One softmax over all queries and keys.
    Single,
    /// A full softmax for each query chunk.
    QueryChunks(Vec<Range<usize>>),
    /// A running softmax over the key chunks, for each query chunk.
    Streamed { queries: Vec<Range<usize>>, keys: Vec<Range<usize>> },
}

/// All logits of a call fit the plain attention budget.
pub open spec fn logits_fit(
    env: FlowEnv,
    batch: int,
    heads: int,
    query_tokens: int,
    key_tokens: int,
) -> bool {
    logits_bytes(batch, heads, query_tokens, key_tokens) <= logits_budget(env)
}

/// `plan` is how dense attention runs: at once where everything fits one
/// query chunk and the budget, by query chunks otherwise.
pub open spec fn is_dense_plan(
    env: FlowEnv,
    batch: int,
    heads: int,
    tokens: int,
    key_tokens: int,
    plan: PlainAttentionPlan,
) -> bool {
    let chunk = plain_query_chunk(env, tokens, 8);
    if chunk >= tokens && logits_fit(env, batch, heads, tokens, key_tokens) {
        plan is Single
    } else {
        plan matches PlainAttentionPlan::QueryChunks(ranges) && ranges@ == chunk_ranges_of(
            tokens,
            chunk,
        )
    }
}

/// Plans dense attention.
pub fn plan_dense_attention(
    env: &FlowEnv,
    batch: usize,
    heads: usize,
    tokens: usize,
    key_tokens: usize,
) -> (r: PlainAttentionPlan)
    ensures
        is_dense_plan(
            *env,
            batch as int,
            heads as int,
            tokens as int,
            key_tokens as int,
            r,
        ),
{
    let query_chunk: usize = attention_query_chunk(env, tokens, 8);
    let budget: usize = attention_logits_budget_bytes(env);
    let bytes: usize = attention_logits_bytes(batch, heads, tokens, key_tokens);
    if query_chunk >= tokens && bytes <= budget {
        return PlainAttentionPlan::Single;
    }
    PlainAttentionPlan::QueryChunks(chunk_ranges(tokens, query_chunk))
}

/// Key chunks of streamed attention: at least one, possibly empty.
pub open spec fn streamed_key_ranges(key_tokens: int, key_chunk: int) -> Seq<Range<usize>> {
    if key_tokens == 0 {
        seq![(Range { start: 0usize, end: 0usize })]
    } else {
        chunk_ranges_of(key_tokens, key_chunk)
    }
}

/// `plan` is how streamed attention runs: at once where everything fits one
/// query chunk, one key chunk and the budget, by chunks of both otherwise.
pub open spec fn is_stream_plan(
    env: FlowEnv,
    batch: int,
    heads: int,
    query_tokens: int,
    key_tokens: int,
    plan: PlainAttentionPlan,
) -> bool {
    let chunk = plain_query_chunk(env, query_tokens, 64);
    let key_chunk = imin(128, imax(key_tokens, 1));
    if chunk >= query_tokens && key_chunk >= key_tokens && logits_fit(
        env,
        batch,
        heads,
        query_tokens,
        key_tokens,
    ) {
        plan is Single
    } else {
        plan matches PlainAttentionPlan::Streamed { queries, keys } && queries@ == chunk_ranges_of(
            query_tokens,
            chunk,
        ) && keys@ == streamed_key_ranges(key_tokens, key_chunk)
    }
}

/// Plans streamed attention.
pub fn plan_stream_attention(
    env: &FlowEnv,
    batch: usize,
    heads: usize,
    query_tokens: usize,
    key_tokens: usize,
) -> (r: PlainAttentionPlan)
    ensures
        is_stream_plan(
            *env,
            batch as int,
            heads as int,
            query_tokens as int,
            key_tokens as int,
            r,
        ),
{
    let query_chunk: usize = attention_query_chunk(env, query_tokens, 64);
    let key_chunk: usize = attention_key_chunk(env, key_tokens);
    let budget: usize = attention_logits_budget_bytes(env);
    let bytes: usize = attention_logits_bytes(batch, heads, query_tokens, key_tokens);
    if query_chunk >= query_tokens && key_chunk >= key_tokens && bytes <= budget {
        return PlainAttentionPlan::Single;
    }
    let queries: Vec<Range<usize>> = chunk_ranges(query_tokens, query_chunk);
    let keys: Vec<Range<usize>> = if key_tokens == 0 {
        let mut one: Vec<Range<usize>> = Vec::new();
        one.push(0..0);
        assert(one@ =~= streamed_key_ranges(0, key_chunk as int));
        one
    } else {
        chunk_ranges(key_tokens, key_chunk)
    };
    PlainAttentionPlan::Streamed { queries, keys }
}

// ---------------------------------------------------------------------------
// Dispatch
// ---------------------------------------------------------------------------

/// Form in which attention over given queries, keys and values is computed.
#[derive(Debug)]
pub enum AttentionDispatch {
    /// Module attention requests over query ranges, joined in order.
    Module(Vec<Range<usize>>),
    /// Dense attention.
    Dense(PlainAttentionPlan),
    /// Streamed attention.
    Stream(PlainAttentionPlan),
}

/// Queries per module attention request of dispatched attention.
pub open spec fn dispatch_query_chunk(
    env: FlowEnv,
    backend: FlowBackend,
    batch: int,
    heads: int,
    query_tokens: int,
    key_tokens: int,
    head_dim: int,
) -> int {
    let by_budget = query_chunk_cap(batch, heads, key_tokens, logits_budget(env));
    if backend == FlowBackend::WgpuFusion {
        imax(imin(plain_query_chunk(env, query_tokens, query_tokens), by_budget), 1)
    } else if long_k_requires_fallback(env, batch, heads, key_tokens, head_dim) {
        imax(
            imin(
                imin(SPARSE_FLOW_MODULE_ATTENTION_LONG_K_QUERY_CHUNK as int, by_budget),
                query_tokens,
            ),
            1,
        )
    } else {
        imax(
            imin(
                module_chunk_cap_for_shape(env, query_tokens, key_tokens, head_dim),
                query_tokens,
            ),
            1,
        )
    }
}

/// Dispatched attention takes the module path.
pub open spec fn dispatches_to_module(
    env: FlowEnv,
    backend: FlowBackend,
    batch: int,
    heads: int,
    query_tokens: int,
    key_tokens: int,
    head_dim: int,
) -> bool {
    env.module_kernel(backend) && !cross_shape_requires_stream(
        env,
        batch,
        heads,
        query_tokens,
        key_tokens,
        head_dim,
    )
}

/// Plans scaled dot-product attention over one shape.
pub fn plan_attention(
    env: &FlowEnv,
    backend: FlowBackend,
    batch: usize,
    heads: usize,
    query_tokens: usize,
    key_tokens: usize,
    head_dim: usize,
) -> (r: AttentionDispatch)
    ensures
        if dispatches_to_module(
            *env,
            backend,
            batch as int,
            heads as int,
            query_tokens as int,
            key_tokens as int,
            head_dim as int,
        ) {
            r matches AttentionDispatch::Module(ranges) && ranges@ == whole_or_chunks(
                query_tokens as int,
                dispatch_query_chunk(
                    *env,
                    backend,
                    batch as int,
                    heads as int,
                    query_tokens as int,
                    key_tokens as int,
                    head_dim as int,
                ),
            )
        } else {
            match attention_form(*env, query_tokens as int, key_tokens as int) {
                AttentionImpl::Dense => r matches AttentionDispatch::Dense(plan) && is_dense_plan(
                    *env,
                    batch as int,
                    heads as int,
                    query_tokens as int,
                    key_tokens as int,
                    plan,
                ),
                AttentionImpl::Stream => r matches AttentionDispatch::Stream(plan)
                    && is_stream_plan(
                    *env,
                    batch as int,
                    heads as int,
                    query_tokens as int,
                    key_tokens as int,
                    plan,
                ),
            }
        },
{
    if attention_uses_module_kernel(env, backend)
        && !sparse_flow_module_attention_cross_shape_requires_stream(
        env,
        batch,
        heads,
        query_tokens,
        key_tokens,
        head_dim,
    ) {
        let budget: usize = attention_logits_budget_bytes(env);
        let by_budget: usize = sparse_flow_module_attention_query_chunk_cap(
            batch,
            heads,
            key_tokens,
            budget,
        );
        let query_chunk: usize = if backend == FlowBackend::WgpuFusion {
            max_usize(min_usize(attention_query_chunk(env, query_tokens, query_tokens), by_budget), 1)
        } else if sparse_flow_module_attention_long_k_requires_fallback(
            env,
            batch,
            heads,
            key_tokens,
            head_dim,
        ) {
            max_usize(
                min_usize(
                    min_usize(SPARSE_FLOW_MODULE_ATTENTION_LONG_K_QUERY_CHUNK, by_budget),
                    query_tokens,
                ),
                1,
            )
        } else {
            max_usize(
                min_usize(
                    sparse_flow_module_attention_chunk_cap_for_shape(
                        env,
                        batch,
                        heads,
                        query_tokens,
                        key_tokens,
                        head_dim,
                    ),
                    query_tokens,
                ),
                1,
            )
        };
        return AttentionDispatch::Module(whole_or_chunk_ranges(query_tokens, query_chunk));
    }
    match attention_impl(env, query_tokens, key_tokens) {
        AttentionImpl::Dense => AttentionDispatch::Dense(
            plan_dense_attention(env, batch, heads, query_tokens, key_tokens),
        ),
        AttentionImpl::Stream => AttentionDispatch::Stream(
            plan_stream_attention(env, batch, heads, query_tokens, key_tokens),
        ),
    }
}

} // verus!
