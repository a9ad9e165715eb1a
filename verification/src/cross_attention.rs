//! Cross-attention of a sparse-flow block: plan, steps, and the cached
//! projections of the condition.
use crate::arith::{imax, imin, max_usize, min_usize, saturating_mul};
use crate::chunks::{chunk_ranges, chunk_ranges_of};
use crate::policy::{
    attention_uses_module_kernel, attention_uses_non_fusion_module_kernel, attn_logits_budget,
    chunked_forward_for_backend, cross_attention_f16, cross_kv_cache_budget,
    cross_shape_requires_stream, module_attention_dtype, module_chunk_cap_for_shape,
    query_chunk_cap, sparse_flow_attn_logits_budget_bytes,
    sparse_flow_chunked_forward_for_backend, sparse_flow_cross_kv_cache_budget_bytes_for_backend,
    sparse_flow_cross_kv_cache_enabled_for_backend,
    sparse_flow_cross_module_attention_dtype_for_shape,
    sparse_flow_module_attention_chunk_cap_for_shape,
    sparse_flow_module_attention_cross_shape_requires_stream,
    sparse_flow_module_attention_prefers_full, sparse_flow_module_attention_query_chunk_cap,
    sparse_flow_self_attn_query_chunk_tokens, FloatDType, FlowBackend, FlowEnv, FLOAT_BYTES,
};
use crate::sampling::GuidanceBranch;
use crate::schedule::{
    lemma_picked_concat, lemma_picked_per_range, lemma_steps_over_take, picked, steps_over,
};
use crate::telemetry::SparseFlowOpDetailKind;
use core::ops::Range;
use vstd::prelude::*;

verus! {

// ---------------------------------------------------------------------------
// Projected conditions
// ---------------------------------------------------------------------------

/// Keys and values projected from a condition, as tensors of type `T`.
#[derive(Debug)]
pub struct CrossAttentionProjectedKv<T> {
    pub k: T,
    pub v: T,
    /// Keys laid out for the module kernel.
    pub module_k: Option<T>,
    /// Values laid out for the module kernel.
    pub module_v: Option<T>,
    /// Format of the module layout.
    pub module_dtype: Option<FloatDType>,
}

/// Two projections of one block can be stacked into one batch.
pub open spec fn joinable<T>(
    pos: CrossAttentionProjectedKv<T>,
    neg: CrossAttentionProjectedKv<T>,
) -> bool {
    &&& pos.module_dtype == neg.module_dtype
    &&& pos.module_k is Some == neg.module_k is Some
    &&& pos.module_v is Some == neg.module_v is Some
}

/// `out` is `pos` stacked onto `neg` by `cat`.
pub open spec fn joined<T, F: Fn(&T, &T) -> T>(
    cat: F,
    pos: CrossAttentionProjectedKv<T>,
    neg: CrossAttentionProjectedKv<T>,
    out: CrossAttentionProjectedKv<T>,
) -> bool {
    &&& call_ensures(cat, (&pos.k, &neg.k), out.k)
    &&& call_ensures(cat, (&pos.v, &neg.v), out.v)
    &&& joined_option(cat, pos.module_k, neg.module_k, out.module_k)
    &&& joined_option(cat, pos.module_v, neg.module_v, out.module_v)
    &&& out.module_dtype == pos.module_dtype
}

/// Two tensors stacked by `cat` where both are present.
pub open spec fn joined_option<T, F: Fn(&T, &T) -> T>(
    cat: F,
    pos: Option<T>,
    neg: Option<T>,
    out: Option<T>,
) -> bool {
    match (pos, neg) {
        (Some(p), Some(n)) => out matches Some(o) && call_ensures(cat, (&p, &n), o),
        _ => out is None,
    }
}

/// Stacks two tensors where both are present.
fn join_option<T, F: Fn(&T, &T) -> T>(cat: &F, pos: &Option<T>, neg: &Option<T>) -> (r: Option<T>)
    requires
        forall|a: &T, b: &T| call_requires(*cat, (a, b)),
    ensures
        joined_option(*cat, *pos, *neg, r),
{
    match (pos, neg) {
        (Some(p), Some(n)) => Some(cat(p, n)),
        _ => None,
    }
}

/// Stacks the cached projections of two conditions block by block.
///
/// `cat` stacks two tensors along the batch axis. Nothing is returned where
/// the caches have different block counts or any pair of blocks differs in
/// its module layout.
pub fn concat_cross_kv_caches<T, F: Fn(&T, &T) -> T>(
    pos: &Vec<CrossAttentionProjectedKv<T>>,
    neg: &Vec<CrossAttentionProjectedKv<T>>,
    cat: F,
) -> (r: Option<Vec<CrossAttentionProjectedKv<T>>>)
    requires
        forall|a: &T, b: &T| call_requires(cat, (a, b)),
    ensures
        r is Some <==> pos.len() == neg.len() && forall|i: int|
            0 <= i < pos.len() ==> joinable(#[trigger] pos[i], neg[i]),
        r matches Some(out) ==> out.len() == pos.len() && forall|i: int|
            0 <= i < out.len() ==> joined(cat, pos[i], neg[i], #[trigger] out[i]),
{
    if pos.len() != neg.len() {
        return None;
    }
    let mut out: Vec<CrossAttentionProjectedKv<T>> = Vec::new();
    let mut i: usize = 0;
    while i < pos.len()
        invariant
            i <= pos.len(),
            pos.len() == neg.len(),
            out.len() == i,
            forall|a: &T, b: &T| call_requires(cat, (a, b)),
            forall|j: int| 0 <= j < i ==> joinable(#[trigger] pos[j], neg[j]),
            forall|j: int| 0 <= j < i ==> joined(cat, pos[j], neg[j], #[trigger] out[j]),
        decreases pos.len() - i,
    {
        let p: &CrossAttentionProjectedKv<T> = &pos[i];
        let n: &CrossAttentionProjectedKv<T> = &neg[i];
        let same_dtype: bool = match (p.module_dtype, n.module_dtype) {
            (Some(a), Some(b)) => a == b,
            (None, None) => true,
            _ => false,
        };
        if !same_dtype || p.module_k.is_some() != n.module_k.is_some() || p.module_v.is_some()
            != n.module_v.is_some() {
            assert(!joinable(pos[i as int], neg[i as int]));
            return None;
        }
        let module_k: Option<T> = join_option(&cat, &p.module_k, &n.module_k);
        let module_v: Option<T> = join_option(&cat, &p.module_v, &n.module_v);
        let k: T = cat(&p.k, &n.k);
        let v: T = cat(&p.v, &n.v);
        out.push(
            CrossAttentionProjectedKv { k, v, module_k, module_v, module_dtype: p.module_dtype },
        );
        i = i + 1;
    }
    Some(out)
}

/// Product of the factors, or `usize::MAX` once a partial product overflows.
pub open spec fn cache_estimated_bytes(
    cond_batches: int,
    cond_tokens: int,
    model_channels: int,
    blocks: int,
    condition_count: int,
) -> int {
    let p1 = cond_batches * cond_tokens;
    let p2 = p1 * model_channels;
    let p3 = p2 * 2;
    let p4 = p3 * blocks;
    let p5 = p4 * imax(condition_count, 1);
    let p6 = p5 * 4;
    let max = usize::MAX as int;
    if p1 > max || p2 > max || p3 > max || p4 > max || p5 > max || p6 > max {
        max
    } else {
        p6
    }
}

/// Estimated bytes of the cached projections of `condition_count` conditions.
pub fn cross_attention_cache_estimated_bytes(
    cond_batches: usize,
    cond_tokens: usize,
    model_channels: usize,
    blocks: usize,
    condition_count: usize,
) -> (r: usize)
    ensures
        r == cache_estimated_bytes(
            cond_batches as int,
            cond_tokens as int,
            model_channels as int,
            blocks as int,
            condition_count as int,
        ),
{
    let p1: usize = match cond_batches.checked_mul(cond_tokens) {
        Some(v) => v,
        None => return usize::MAX,
    };
    let p2: usize = match p1.checked_mul(model_channels) {
        Some(v) => v,
        None => return usize::MAX,
    };
    let p3: usize = match p2.checked_mul(2) {
        Some(v) => v,
        None => return usize::MAX,
    };
    let p4: usize = match p3.checked_mul(blocks) {
        Some(v) => v,
        None => return usize::MAX,
    };
    let p5: usize = match p4.checked_mul(max_usize(condition_count, 1)) {
        Some(v) => v,
        None => return usize::MAX,
    };
    match p5.checked_mul(FLOAT_BYTES) {
        Some(v) => v,
        None => usize::MAX,
    }
}

/// Conditions whose projections are cached across sampler steps.
#[derive(Clone, Copy, Debug, PartialEq, Eq, Structural)]
pub enum CrossCachePlan {
    /// None of them.
    Uncached,
    /// The positive condition.
    Positive,
    /// Both conditions.
    Both,
}

/// Conditions that are cached: the positive one where its projections fit into
/// the budget, both where twice as much does and the negative one is used.
pub open spec fn cache_plan(
    env: FlowEnv,
    backend: FlowBackend,
    cond_batches: int,
    cond_tokens: int,
    model_channels: int,
    blocks: int,
    neg_needed: bool,
) -> CrossCachePlan {
    let budget = cross_kv_cache_budget(env, backend);
    let estimated = cache_estimated_bytes(cond_batches, cond_tokens, model_channels, blocks, 1);
    if budget == 0 || estimated > budget {
        CrossCachePlan::Uncached
    } else if neg_needed && 2 * estimated <= budget {
        CrossCachePlan::Both
    } else {
        CrossCachePlan::Positive
    }
}

/// Decides which conditions are cached.
///
/// `neg_needed` says whether any sampler step uses the negative condition.
pub fn plan_cross_attention_caches(
    env: &FlowEnv,
    backend: FlowBackend,
    cond_batches: usize,
    cond_tokens: usize,
    model_channels: usize,
    blocks: usize,
    neg_needed: bool,
) -> (r: CrossCachePlan)
    ensures
        r == cache_plan(
            *env,
            backend,
            cond_batches as int,
            cond_tokens as int,
            model_channels as int,
            blocks as int,
            neg_needed,
        ),
{
    if !sparse_flow_cross_kv_cache_enabled_for_backend(env, backend) {
        return CrossCachePlan::Uncached;
    }
    let budget: usize = sparse_flow_cross_kv_cache_budget_bytes_for_backend(env, backend);
    if budget == 0 {
        return CrossCachePlan::Uncached;
    }
    let estimated: usize = cross_attention_cache_estimated_bytes(
        cond_batches,
        cond_tokens,
        model_channels,
        blocks,
        1,
    );
    if estimated > budget {
        return CrossCachePlan::Uncached;
    }
    if neg_needed {
        let total: usize = saturating_mul(estimated, 2);
        if total <= budget {
            return CrossCachePlan::Both;
        }
    }
    CrossCachePlan::Positive
}

/// Projects the conditions that are cached: the positive one first, then the
/// negative one. `project` projects one of them.
pub fn prepare_cross_attention_caches<C, P>(
    env: &FlowEnv,
    backend: FlowBackend,
    cond_batches: usize,
    cond_tokens: usize,
    model_channels: usize,
    blocks: usize,
    neg_needed: bool,
    project: P,
) -> (r: (Option<C>, Option<C>)) where P: Fn(GuidanceBranch) -> C
    requires
        cache_plan(
            *env,
            backend,
            cond_batches as int,
            cond_tokens as int,
            model_channels as int,
            blocks as int,
            neg_needed,
        ) != CrossCachePlan::Uncached ==> call_requires(project, (GuidanceBranch::Positive,)),
        cache_plan(
            *env,
            backend,
            cond_batches as int,
            cond_tokens as int,
            model_channels as int,
            blocks as int,
            neg_needed,
        ) == CrossCachePlan::Both ==> call_requires(project, (GuidanceBranch::Negative,)),
    ensures
        ({
            let plan = cache_plan(
                *env,
                backend,
                cond_batches as int,
                cond_tokens as int,
                model_channels as int,
                blocks as int,
                neg_needed,
            );
            &&& match r.0 {
                Some(pos) => plan != CrossCachePlan::Uncached && call_ensures(
                    project,
                    (GuidanceBranch::Positive,),
                    pos,
                ),
                None => plan == CrossCachePlan::Uncached,
            }
            &&& match r.1 {
                Some(neg) => plan == CrossCachePlan::Both && call_ensures(
                    project,
                    (GuidanceBranch::Negative,),
                    neg,
                ),
                None => plan != CrossCachePlan::Both,
            }
        }),
{
    let plan: CrossCachePlan = plan_cross_attention_caches(
        env,
        backend,
        cond_batches,
        cond_tokens,
        model_channels,
        blocks,
        neg_needed,
    );
    match plan {
        CrossCachePlan::Uncached => (None, None),
        CrossCachePlan::Positive => (Some(project(GuidanceBranch::Positive)), None),
        CrossCachePlan::Both => {
            let pos: C = project(GuidanceBranch::Positive);
            let neg: C = project(GuidanceBranch::Negative);
            (Some(pos), Some(neg))
        },
    }
}

// ---------------------------------------------------------------------------
// Plan
// ---------------------------------------------------------------------------

/// How one cross-attention call is carried out.
#[derive(Clone, Copy, Debug, PartialEq, Eq, Structural)]
pub struct CrossAttentionPlan {
    /// Queries are processed in chunks.
    pub chunked: bool,
    /// Tokens of the input.
    pub tokens: usize,
    /// Queries per chunk.
    pub query_chunk: usize,
    /// Chunks attend by the module kernel.
    pub use_module: bool,
    /// Format of the module kernel's inputs.
    pub attention_dtype: FloatDType,
}

/// Chunked cross-attention takes the module path.
pub open spec fn cross_uses_module(
    env: FlowEnv,
    backend: FlowBackend,
    batch: int,
    heads: int,
    tokens: int,
    ctx_tokens: int,
    head_dim: int,
) -> bool {
    env.module_kernel(backend) && !cross_shape_requires_stream(
        env,
        batch,
        heads,
        tokens,
        ctx_tokens,
        head_dim,
    )
}

/// Queries per chunk of chunked cross-attention.
pub open spec fn cross_query_chunk(
    env: FlowEnv,
    backend: FlowBackend,
    batch: int,
    heads: int,
    tokens: int,
    ctx_tokens: int,
    head_dim: int,
) -> int {
    if cross_uses_module(env, backend, batch, heads, tokens, ctx_tokens, head_dim) {
        let cap = module_chunk_cap_for_shape(env, tokens, ctx_tokens, head_dim);
        if env.non_fusion_module_kernel(backend) {
            cap
        } else {
            imin(cap, query_chunk_cap(batch, heads, ctx_tokens, attn_logits_budget(env)))
        }
    } else {
        imin(env.chunk_or_all(tokens, 2_048), 16_384)
    }
}

/// Format in which a condition is projected for the module kernel.
pub fn projected_module_dtype(
    env: &FlowEnv,
    backend: FlowBackend,
    batch: usize,
    heads: usize,
    ctx_tokens: usize,
    head_dim: usize,
) -> (r: Option<FloatDType>)
    ensures
        r == (if env.module_kernel(backend) {
            Some(
                module_attention_dtype(
                    *env,
                    batch as int,
                    heads as int,
                    ctx_tokens as int,
                    head_dim as int,
                    cross_attention_f16(*env),
                ),
            )
        } else {
            None
        }),
{
    if attention_uses_module_kernel(env, backend) {
        Some(
            sparse_flow_cross_module_attention_dtype_for_shape(
                env,
                batch,
                heads,
                ctx_tokens,
                head_dim,
            ),
        )
    } else {
        None
    }
}

/// Plans one cross-attention call over an already projected condition, whose
/// module layout has the format `module_dtype`.
pub fn plan_cross_attention(
    env: &FlowEnv,
    backend: FlowBackend,
    batch: usize,
    heads: usize,
    tokens: usize,
    ctx_tokens: usize,
    head_dim: usize,
    module_dtype: Option<FloatDType>,
) -> (r: CrossAttentionPlan)
    ensures
        r.tokens == tokens,
        r.chunked == chunked_forward_for_backend(*env, backend, tokens as int),
        r.use_module == cross_uses_module(
            *env,
            backend,
            batch as int,
            heads as int,
            tokens as int,
            ctx_tokens as int,
            head_dim as int,
        ),
        r.query_chunk == cross_query_chunk(
            *env,
            backend,
            batch as int,
            heads as int,
            tokens as int,
            ctx_tokens as int,
            head_dim as int,
        ),
        1 <= r.query_chunk <= imax(tokens as int, 1),
        r.attention_dtype == (match module_dtype {
            Some(dtype) => dtype,
            None => module_attention_dtype(
                *env,
                batch as int,
                heads as int,
                ctx_tokens as int,
                head_dim as int,
                cross_attention_f16(*env),
            ),
        }),
{
    let use_module: bool = attention_uses_module_kernel(env, backend)
        && !sparse_flow_module_attention_cross_shape_requires_stream(
        env,
        batch,
        heads,
        tokens,
        ctx_tokens,
        head_dim,
    );
    let non_fusion: bool = attention_uses_non_fusion_module_kernel(env, backend);
    let full: bool = non_fusion && sparse_flow_module_attention_prefers_full(tokens);
    let mut query_chunk: usize = if use_module {
        if full {
            max_usize(tokens, 1)
        } else {
            sparse_flow_module_attention_chunk_cap_for_shape(
                env,
                batch,
                heads,
                tokens,
                ctx_tokens,
                head_dim,
            )
        }
    } else {
        sparse_flow_self_attn_query_chunk_tokens(env, tokens)
    };
    if use_module && !full && !non_fusion {
        let budget: usize = sparse_flow_attn_logits_budget_bytes(env);
        query_chunk =
        min_usize(
            query_chunk,
            sparse_flow_module_attention_query_chunk_cap(batch, heads, ctx_tokens, budget),
        );
    }
    query_chunk = min_usize(max_usize(query_chunk, 1), max_usize(tokens, 1));
    let attention_dtype: FloatDType = match module_dtype {
        Some(dtype) => dtype,
        None => sparse_flow_cross_module_attention_dtype_for_shape(
            env,
            batch,
            heads,
            ctx_tokens,
            head_dim,
        ),
    };
    CrossAttentionPlan {
        chunked: sparse_flow_chunked_forward_for_backend(env, backend, tokens),
        tokens,
        query_chunk,
        use_module,
        attention_dtype,
    }
}

// ---------------------------------------------------------------------------
// Steps
// ---------------------------------------------------------------------------

/// One tensor operation of cross-attention over the tokens `start..end`.
#[derive(Clone, Copy, Debug, PartialEq, Eq, Structural)]
pub enum CrossAttentionStep {
    /// Brings the projected condition into module layout.
    LayoutKeys,
    /// Projects tokens to queries.
    ProjectQueries { start: usize, end: usize },
    /// Normalizes the queries.
    NormQueries { start: usize, end: usize },
    /// Attends to the condition, by the module kernel or by shape.
    Attend { start: usize, end: usize, module: bool },
    /// Projects the attention output.
    ProjectOut { start: usize, end: usize },
    /// Joins the listed outputs.
    JoinOutput { chunks: usize },
}

/// Part of the telemetry under which a step is timed.
pub fn cross_attention_step_detail(step: CrossAttentionStep) -> (r: SparseFlowOpDetailKind)
    ensures
        r == (match step {
            CrossAttentionStep::LayoutKeys => SparseFlowOpDetailKind::CrossKv,
            CrossAttentionStep::ProjectQueries { .. } => SparseFlowOpDetailKind::CrossQ,
            CrossAttentionStep::NormQueries { .. } => SparseFlowOpDetailKind::CrossNorm,
            CrossAttentionStep::Attend { .. } => SparseFlowOpDetailKind::CrossKernel,
            CrossAttentionStep::ProjectOut { .. } => SparseFlowOpDetailKind::CrossOut,
            CrossAttentionStep::JoinOutput { .. } => SparseFlowOpDetailKind::CrossCat,
        }),
{
    match step {
        CrossAttentionStep::LayoutKeys => SparseFlowOpDetailKind::CrossKv,
        CrossAttentionStep::ProjectQueries { .. } => SparseFlowOpDetailKind::CrossQ,
        CrossAttentionStep::NormQueries { .. } => SparseFlowOpDetailKind::CrossNorm,
        CrossAttentionStep::Attend { .. } => SparseFlowOpDetailKind::CrossKernel,
        CrossAttentionStep::ProjectOut { .. } => SparseFlowOpDetailKind::CrossOut,
        CrossAttentionStep::JoinOutput { .. } => SparseFlowOpDetailKind::CrossCat,
    }
}

/// Steps over one chunk of queries.
pub open spec fn cross_chunk_steps(module: bool) -> spec_fn(Range<usize>) -> Seq<
    CrossAttentionStep,
> {
    |r: Range<usize>|
        seq![
            CrossAttentionStep::ProjectQueries { start: r.start, end: r.end },
            CrossAttentionStep::NormQueries { start: r.start, end: r.end },
            CrossAttentionStep::Attend { start: r.start, end: r.end, module },
            CrossAttentionStep::ProjectOut { start: r.start, end: r.end },
        ]
}

impl CrossAttentionPlan {
    /// Chunks in which queries attend.
    pub open spec fn query_ranges(self) -> Seq<Range<usize>> {
        if self.chunked {
            chunk_ranges_of(self.tokens as int, self.query_chunk as int)
        } else {
            seq![(Range { start: 0, end: self.tokens })]
        }
    }

    /// All steps of the call, in order.
    pub open spec fn steps(self) -> Seq<CrossAttentionStep> {
        if self.chunked {
            let layout = if self.use_module {
                seq![CrossAttentionStep::LayoutKeys]
            } else {
                Seq::empty()
            };
            layout + steps_over(self.query_ranges(), cross_chunk_steps(self.use_module)) + seq![
                CrossAttentionStep::JoinOutput { chunks: self.query_ranges().len() as usize },
            ]
        } else {
            cross_chunk_steps(false)((Range { start: 0, end: self.tokens }))
        }
    }
}

/// Lists the tensor operations of a planned cross-attention call, in order.
pub fn cross_attention_steps(plan: &CrossAttentionPlan) -> (r: Vec<CrossAttentionStep>)
    requires
        plan.query_chunk > 0,
    ensures
        r@ == plan.steps(),
{
    let mut steps: Vec<CrossAttentionStep> = Vec::new();
    let tokens: usize = plan.tokens;
    if !plan.chunked {
        steps.push(CrossAttentionStep::ProjectQueries { start: 0, end: tokens });
        steps.push(CrossAttentionStep::NormQueries { start: 0, end: tokens });
        steps.push(CrossAttentionStep::Attend { start: 0, end: tokens, module: false });
        steps.push(CrossAttentionStep::ProjectOut { start: 0, end: tokens });
        assert(steps@ =~= plan.steps());
        return steps;
    }
    let module: bool = plan.use_module;
    if module {
        steps.push(CrossAttentionStep::LayoutKeys);
    }
    let ranges: Vec<Range<usize>> = chunk_ranges(tokens, plan.query_chunk);
    let ghost before = steps@;
    let ghost per = cross_chunk_steps(module);
    let mut i: usize = 0;
    proof {
        assert(ranges@.take(0) =~= Seq::<Range<usize>>::empty());
        assert(before + steps_over(ranges@.take(0), per) =~= before);
    }
    while i < ranges.len()
        invariant
            i <= ranges.len(),
            per == cross_chunk_steps(module),
            steps@ == before + steps_over(ranges@.take(i as int), per),
        decreases ranges.len() - i,
    {
        let start: usize = ranges[i].start;
        let end: usize = ranges[i].end;
        steps.push(CrossAttentionStep::ProjectQueries { start, end });
        steps.push(CrossAttentionStep::NormQueries { start, end });
        steps.push(CrossAttentionStep::Attend { start, end, module });
        steps.push(CrossAttentionStep::ProjectOut { start, end });
        proof {
            lemma_steps_over_take(ranges@, per, i as int);
            assert(steps@ =~= before + (steps_over(ranges@.take(i as int), per) + per(
                ranges@[i as int],
            )));
        }
        i = i + 1;
    }
    proof {
        assert(ranges@.take(ranges@.len() as int) =~= ranges@);
    }
    steps.push(CrossAttentionStep::JoinOutput { chunks: ranges.len() });
    assert(steps@ =~= plan.steps());
    steps
}

/// Tokens from which a step attends.
pub open spec fn cross_attended_range() -> spec_fn(CrossAttentionStep) -> Option<Range<usize>> {
    |step: CrossAttentionStep|
        match step {
            CrossAttentionStep::Attend { start, end, .. } => Some((Range { start, end })),
            _ => None,
        }
}

/// The attention calls of a plan run through its query chunks in order, so
/// every token attends to the condition exactly once.
pub proof fn cross_attention_covers_queries(plan: CrossAttentionPlan)
    requires
        plan.query_chunk > 0,
    ensures
        picked(plan.steps(), cross_attended_range()) == plan.query_ranges(),
{
    let pick = cross_attended_range();
    let per = cross_chunk_steps(plan.use_module);
    let none = Seq::<Range<usize>>::empty();
    assert forall|r: Range<usize>, module: bool|
        picked(#[trigger] cross_chunk_steps(module)(r), pick) == seq![r] by {
        reveal_with_fuel(picked, 5);
        let s = cross_chunk_steps(module)(r);
        assert(s.drop_last().drop_last().drop_last().drop_last() =~= Seq::<
            CrossAttentionStep,
        >::empty());
        assert(s.drop_last().last() == s[2]);
        assert(s.drop_last().drop_last().last() == s[1]);
        assert(s.drop_last().drop_last().drop_last().last() == s[0]);
        assert(none.push(r) =~= seq![r]);
    }
    if plan.chunked {
        let layout = if plan.use_module {
            seq![CrossAttentionStep::LayoutKeys]
        } else {
            Seq::empty()
        };
        let join = seq![
            CrossAttentionStep::JoinOutput { chunks: plan.query_ranges().len() as usize },
        ];
        let body = steps_over(plan.query_ranges(), per);
        reveal_with_fuel(picked, 3);
        assert(layout.len() > 0 ==> layout.drop_last() =~= Seq::empty());
        assert(join.drop_last() =~= Seq::empty());
        assert(picked(layout, pick) =~= none);
        assert(picked(join, pick) =~= none);
        assert forall|r: Range<usize>| picked(#[trigger] per(r), pick) == seq![r] by {
            assert(per(r) == cross_chunk_steps(plan.use_module)(r));
        }
        lemma_picked_per_range(plan.query_ranges(), per, pick);
        lemma_picked_concat(layout, body, pick);
        lemma_picked_concat(layout + body, join, pick);
        assert(none + plan.query_ranges() + none =~= plan.query_ranges());
    } else {
        let whole = (Range { start: 0usize, end: plan.tokens });
        assert(picked(cross_chunk_steps(false)(whole), pick) == seq![whole]);
    }
}

} // verus!
