//! Self-attention of a sparse-flow block: which path an input takes, in which
//! chunks, and the order of the tensor operations on that path.
use crate::arith::{
    imax, imin, lemma_mul_within_quotient, lemma_quotient_at_most, max_usize, min_usize,
};
use crate::chunks::{chunk_ranges, chunk_ranges_of};
use crate::policy::{
    attention_uses_module_kernel, attention_uses_non_fusion_module_kernel, attn_logits_budget,
    bytes_per_logit, chunked_forward_for_backend, lemma_logits_within, linear_chunk_for_backend,
    logits_bytes, module_attention_dtype, module_chunk_cap_for_shape, query_chunk_cap,
    self_attention_f16,
    sparse_flow_attn_logits_budget_bytes, sparse_flow_chunked_forward_for_backend,
    sparse_flow_linear_chunk_tokens_for_backend, sparse_flow_module_attention_chunk_cap_for_shape,
    sparse_flow_module_attention_prefers_full, sparse_flow_module_attention_query_chunk_cap,
    sparse_flow_self_attn_kv_chunk_tokens, sparse_flow_self_attn_query_chunk_tokens,
    sparse_flow_self_module_attention_dtype_for_shape, sparse_flow_stream_chunk_plan,
    sparse_flow_stream_reuse_qkv_enabled, stream_chunk_plan, stream_chunk_plan_respects_budget,
    stream_reuse_qkv, FloatDType, FlowBackend, FlowEnv,
};
use crate::roots::lemma_floor_root_is_exact;
use crate::schedule::{
    lemma_picked_concat, lemma_picked_none, lemma_picked_per_range, lemma_steps_over_take, picked,
    steps_over,
};
use crate::telemetry::SparseFlowOpDetailKind;
use core::ops::Range;
use vstd::prelude::*;

verus! {

/// Path of one self-attention call.
#[derive(Clone, Copy, Debug, PartialEq, Eq, Structural)]
pub enum SelfAttentionPath {
    /// One projection, one attention call.
    Whole,
    /// One projection, module attention by query chunks.
    FullProjection,
    /// Projections by chunks, module attention over the joined keys.
    ChunkedModule,
    /// Projections by chunks, streamed attention over the key chunks.
    ChunkedStream,
}

/// How one self-attention call is carried out.
#[derive(Clone, Copy, Debug, PartialEq, Eq, Structural)]
pub struct SelfAttentionPlan {
    pub path: SelfAttentionPath,
    /// Tokens of the input.
    pub tokens: usize,
    /// Queries per attention call.
    pub query_chunk: usize,
    /// Tokens per key projection.
    pub kv_chunk: usize,
    /// Queries come from the key projections instead of projections of their own.
    pub reuse_qkv: bool,
    /// Format to which the module kernel's inputs are cast.
    pub module_dtype: Option<FloatDType>,
}

/// Attention call that a step makes.
#[derive(Clone, Copy, Debug, PartialEq, Eq, Structural)]
pub enum AttentionKernel {
    /// Dispatched by shape.
    Dispatch,
    /// Module attention over all keys.
    Module,
    /// Streamed attention over the list of key chunks.
    StreamedKeys,
}

/// One tensor operation of self-attention over the tokens `start..end`.
#[derive(Clone, Copy, Debug, PartialEq, Eq, Structural)]
pub enum SelfAttentionStep {
    /// Projects tokens to queries, keys and values.
    ProjectQkv { start: usize, end: usize },
    /// Normalizes and rotates the queries and keys just projected; keys and
    /// values join the key list, and queries the query list where they are kept.
    NormRopeKeys { start: usize, end: usize, keep_queries: bool },
    /// Normalizes and rotates the queries just projected.
    NormRopeQueries { start: usize, end: usize },
    /// Lays the whole projection out for the module kernel.
    LayoutProjection,
    /// Joins the listed keys and values.
    JoinKeys { chunks: usize },
    /// Attends from the queries of these tokens to every key.
    Attend { start: usize, end: usize, kernel: AttentionKernel },
    /// Projects the attention output of these tokens.
    ProjectOut { start: usize, end: usize },
    /// Joins the listed outputs.
    JoinOutput { chunks: usize },
}

/// Part of the telemetry under which a step is timed.
pub fn self_attention_step_detail(step: SelfAttentionStep) -> (r: SparseFlowOpDetailKind)
    ensures
        r == (match step {
            SelfAttentionStep::ProjectQkv { .. } => SparseFlowOpDetailKind::SelfQkv,
            SelfAttentionStep::NormRopeKeys { .. } => SparseFlowOpDetailKind::SelfNormRope,
            SelfAttentionStep::NormRopeQueries { .. } => SparseFlowOpDetailKind::SelfNormRope,
            SelfAttentionStep::Attend { .. } => SparseFlowOpDetailKind::SelfKernel,
            SelfAttentionStep::ProjectOut { .. } => SparseFlowOpDetailKind::SelfOut,
            _ => SparseFlowOpDetailKind::SelfCat,
        }),
{
    match step {
        SelfAttentionStep::ProjectQkv { .. } => SparseFlowOpDetailKind::SelfQkv,
        SelfAttentionStep::NormRopeKeys { .. } => SparseFlowOpDetailKind::SelfNormRope,
        SelfAttentionStep::NormRopeQueries { .. } => SparseFlowOpDetailKind::SelfNormRope,
        SelfAttentionStep::Attend { .. } => SparseFlowOpDetailKind::SelfKernel,
        SelfAttentionStep::ProjectOut { .. } => SparseFlowOpDetailKind::SelfOut,
        SelfAttentionStep::LayoutProjection => SparseFlowOpDetailKind::SelfCat,
        SelfAttentionStep::JoinKeys { .. } => SparseFlowOpDetailKind::SelfCat,
        SelfAttentionStep::JoinOutput { .. } => SparseFlowOpDetailKind::SelfCat,
    }
}

// ---------------------------------------------------------------------------
// Plan
// ---------------------------------------------------------------------------

/// Channels of one attention head.
pub fn attention_head_dim(channels: usize, num_heads: usize) -> (r: usize)
    ensures
        r == channels as int / imax(num_heads as int, 1),
{
    channels / max_usize(num_heads, 1)
}

/// Chunk sizes `(query, key)` of chunked self-attention.
pub open spec fn self_attention_chunks(
    env: FlowEnv,
    backend: FlowBackend,
    batch: int,
    heads: int,
    tokens: int,
    channels: int,
    head_dim: int,
) -> (int, int) {
    let reuse = stream_reuse_qkv(env, tokens, channels);
    let kv = imin(env.chunk_or_all(tokens, 8_192), 32_768);
    let query = if reuse {
        kv
    } else {
        imin(env.chunk_or_all(tokens, 2_048), 16_384)
    };
    let budget = attn_logits_budget(env);
    let planned = stream_chunk_plan(batch, heads, tokens, query, kv, reuse, budget);
    let cap = module_chunk_cap_for_shape(env, tokens, tokens, head_dim);
    if env.non_fusion_module_kernel(backend) {
        (cap, cap)
    } else if env.module_kernel(backend) {
        let q = imin(imin(planned.0, cap), query_chunk_cap(batch, heads, tokens, budget));
        let k = imin(planned.1, cap);
        (
            q,
            if reuse {
                imin(k, q)
            } else {
                k
            },
        )
    } else {
        planned
    }
}

/// Path of a self-attention call.
pub open spec fn self_attention_path(
    env: FlowEnv,
    backend: FlowBackend,
    tokens: int,
    channels: int,
) -> SelfAttentionPath {
    if !chunked_forward_for_backend(env, backend, tokens) {
        SelfAttentionPath::Whole
    } else if env.non_fusion_module_kernel(backend) && stream_reuse_qkv(env, tokens, channels)
        && 16_384 <= tokens <= linear_chunk_for_backend(env, backend, tokens) {
        SelfAttentionPath::FullProjection
    } else if env.module_kernel(backend) {
        SelfAttentionPath::ChunkedModule
    } else {
        SelfAttentionPath::ChunkedStream
    }
}

impl SelfAttentionPlan {
    /// A plan whose steps can be listed.
    pub open spec fn wf(self) -> bool {
        self.query_chunk > 0 && self.kv_chunk > 0
    }
}

/// Plans one self-attention call.
pub fn plan_self_attention(
    env: &FlowEnv,
    backend: FlowBackend,
    batch: usize,
    heads: usize,
    tokens: usize,
    channels: usize,
    head_dim: usize,
) -> (r: SelfAttentionPlan)
    ensures
        r.wf(),
        r.path == self_attention_path(*env, backend, tokens as int, channels as int),
        r.tokens == tokens,
        (r.query_chunk as int, r.kv_chunk as int) == self_attention_chunks(
            *env,
            backend,
            batch as int,
            heads as int,
            tokens as int,
            channels as int,
            head_dim as int,
        ),
        r.query_chunk <= imax(tokens as int, 1),
        r.kv_chunk <= imax(tokens as int, 1),
        r.reuse_qkv == stream_reuse_qkv(*env, tokens as int, channels as int),
        r.module_dtype == (if env.module_kernel(backend) {
            Some(
                module_attention_dtype(
                    *env,
                    batch as int,
                    heads as int,
                    tokens as int,
                    head_dim as int,
                    self_attention_f16(*env),
                ),
            )
        } else {
            None
        }),
{
    let all: usize = max_usize(tokens, 1);
    let default_kv: usize = sparse_flow_self_attn_kv_chunk_tokens(env, tokens);
    let module_kernel: bool = attention_uses_module_kernel(env, backend);
    let module_non_fusion: bool = attention_uses_non_fusion_module_kernel(env, backend);
    let module_full: bool = module_non_fusion && sparse_flow_module_attention_prefers_full(tokens);
    let reuse_qkv: bool = sparse_flow_stream_reuse_qkv_enabled(env, tokens, channels)
        || module_full;
    let default_query: usize = if reuse_qkv {
        default_kv
    } else {
        sparse_flow_self_attn_query_chunk_tokens(env, tokens)
    };
    let logits_budget: usize = sparse_flow_attn_logits_budget_bytes(env);
    let planned: (usize, usize) = sparse_flow_stream_chunk_plan(
        batch,
        heads,
        tokens,
        default_query,
        default_kv,
        reuse_qkv,
        logits_budget,
    );
    let mut query_chunk: usize = planned.0;
    let mut kv_chunk: usize = planned.1;
    if module_full {
        query_chunk = all;
        kv_chunk = all;
    } else if module_kernel {
        let cap: usize = sparse_flow_module_attention_chunk_cap_for_shape(
            env,
            batch,
            heads,
            tokens,
            tokens,
            head_dim,
        );
        if module_non_fusion {
            query_chunk = min_usize(max_usize(cap, 1), all);
            kv_chunk = min_usize(max_usize(cap, 1), all);
        } else {
            query_chunk = min_usize(query_chunk, cap);
            kv_chunk = min_usize(kv_chunk, cap);
            let query_cap: usize = sparse_flow_module_attention_query_chunk_cap(
                batch,
                heads,
                tokens,
                logits_budget,
            );
            query_chunk = min_usize(query_chunk, query_cap);
        }
        if reuse_qkv {
            kv_chunk = min_usize(kv_chunk, query_chunk);
        }
    }
    let module_dtype: Option<FloatDType> = if module_kernel {
        Some(
            sparse_flow_self_module_attention_dtype_for_shape(
                env,
                batch,
                heads,
                tokens,
                head_dim,
            ),
        )
    } else {
        None
    };
    let path: SelfAttentionPath = if !sparse_flow_chunked_forward_for_backend(
        env,
        backend,
        tokens,
    ) {
        SelfAttentionPath::Whole
    } else if module_kernel && module_non_fusion && reuse_qkv && tokens >= 16_384 && tokens
        <= sparse_flow_linear_chunk_tokens_for_backend(env, backend, tokens) {
        SelfAttentionPath::FullProjection
    } else if module_kernel {
        SelfAttentionPath::ChunkedModule
    } else {
        SelfAttentionPath::ChunkedStream
    };
    SelfAttentionPlan { path, tokens, query_chunk, kv_chunk, reuse_qkv, module_dtype }
}

/// Without module kernels the logits of one streamed call stay within the
/// budget, whenever the budget pays for a single query-key pair.
pub proof fn streamed_self_attention_respects_budget(
    env: FlowEnv,
    backend: FlowBackend,
    batch: usize,
    heads: usize,
    tokens: usize,
    channels: usize,
    head_dim: usize,
)
    requires
        !env.module_kernel(backend),
        attn_logits_budget(env) >= bytes_per_logit(batch as int, heads as int),
    ensures
        ({
            let chunks = self_attention_chunks(
                env,
                backend,
                batch as int,
                heads as int,
                tokens as int,
                channels as int,
                head_dim as int,
            );
            logits_bytes(batch as int, heads as int, chunks.0, chunks.1) <= attn_logits_budget(env)
        }),
{
    let reuse = stream_reuse_qkv(env, tokens as int, channels as int);
    let kv = imin(env.chunk_or_all(tokens as int, 8_192), 32_768);
    let query = if reuse {
        kv
    } else {
        imin(env.chunk_or_all(tokens as int, 2_048), 16_384)
    };
    lemma_quotient_at_most(attn_logits_budget(env), bytes_per_logit(batch as int, heads as int));
    lemma_floor_root_is_exact(
        attn_logits_budget(env) / bytes_per_logit(batch as int, heads as int),
    );
    stream_chunk_plan_respects_budget(
        batch,
        heads,
        tokens,
        query as usize,
        kv as usize,
        reuse,
        attn_logits_budget(env) as usize,
    );
}

/// Behind operation fusion the logits of one module call over all keys stay
/// within the budget, whenever the budget pays for a single query.
pub proof fn fused_self_attention_respects_budget(
    env: FlowEnv,
    backend: FlowBackend,
    batch: usize,
    heads: usize,
    tokens: usize,
    channels: usize,
    head_dim: usize,
)
    requires
        env.module_kernel(backend),
        !env.non_fusion_module_kernel(backend),
        tokens >= 1,
        attn_logits_budget(env) / bytes_per_logit(batch as int, heads as int) >= tokens,
    ensures
        ({
            let chunks = self_attention_chunks(
                env,
                backend,
                batch as int,
                heads as int,
                tokens as int,
                channels as int,
                head_dim as int,
            );
            logits_bytes(batch as int, heads as int, chunks.0, tokens as int)
                <= attn_logits_budget(env)
        }),
{
    let b = batch as int;
    let h = heads as int;
    let t = tokens as int;
    let chunks = self_attention_chunks(
        env,
        backend,
        b,
        h,
        t,
        channels as int,
        head_dim as int,
    );
    let budget = attn_logits_budget(env);
    let cost = bytes_per_logit(b, h);
    let pairs = budget / cost;
    assert(pairs / t >= 1) by (nonlinear_arith)
        requires
            pairs >= t,
            t >= 1,
    ;
    assert(chunks.0 <= pairs / t);
    assert(budget >= cost) by (nonlinear_arith)
        requires
            pairs == budget / cost,
            pairs >= 1,
            cost >= 1,
    ;
    let reuse = stream_reuse_qkv(env, t, channels as int);
    let kv = imin(env.chunk_or_all(t, 8_192), 32_768);
    lemma_quotient_at_most(pairs, imin(imax(kv, 1), t));
    assert(chunks.0 >= 1);
    lemma_mul_within_quotient(t, chunks.0, pairs);
    assert(chunks.0 * t == t * chunks.0) by (nonlinear_arith);
    lemma_logits_within(batch, heads, chunks.0, t, budget);
}

// ---------------------------------------------------------------------------
// Steps
// ---------------------------------------------------------------------------

/// Steps that project one chunk of keys.
pub open spec fn key_chunk_steps(keep_queries: bool) -> spec_fn(Range<usize>) -> Seq<
    SelfAttentionStep,
> {
    |r: Range<usize>|
        seq![
            SelfAttentionStep::ProjectQkv { start: r.start, end: r.end },
            SelfAttentionStep::NormRopeKeys { start: r.start, end: r.end, keep_queries },
        ]
}

/// Steps that attend from one chunk of kept queries.
pub open spec fn kept_query_steps(kernel: AttentionKernel) -> spec_fn(Range<usize>) -> Seq<
    SelfAttentionStep,
> {
    |r: Range<usize>|
        seq![
            SelfAttentionStep::Attend { start: r.start, end: r.end, kernel },
            SelfAttentionStep::ProjectOut { start: r.start, end: r.end },
        ]
}

/// Steps that project one chunk of queries and attend from it.
pub open spec fn fresh_query_steps(kernel: AttentionKernel) -> spec_fn(Range<usize>) -> Seq<
    SelfAttentionStep,
> {
    |r: Range<usize>|
        seq![
            SelfAttentionStep::ProjectQkv { start: r.start, end: r.end },
            SelfAttentionStep::NormRopeQueries { start: r.start, end: r.end },
            SelfAttentionStep::Attend { start: r.start, end: r.end, kernel },
            SelfAttentionStep::ProjectOut { start: r.start, end: r.end },
        ]
}

/// Step that attends from one chunk of an existing projection.
pub open spec fn attend_steps() -> spec_fn(Range<usize>) -> Seq<SelfAttentionStep> {
    |r: Range<usize>|
        seq![
            SelfAttentionStep::Attend {
                start: r.start,
                end: r.end,
                kernel: AttentionKernel::Module,
            },
        ]
}

impl SelfAttentionPlan {
    /// Chunks in which keys are projected.
    pub open spec fn key_ranges(self) -> Seq<Range<usize>> {
        chunk_ranges_of(self.tokens as int, self.kv_chunk as int)
    }

    /// Chunks in which queries attend.
    pub open spec fn query_ranges(self) -> Seq<Range<usize>> {
        match self.path {
            SelfAttentionPath::Whole => seq![(Range { start: 0, end: self.tokens })],
            SelfAttentionPath::FullProjection => chunk_ranges_of(
                self.tokens as int,
                self.query_chunk as int,
            ),
            _ => if self.reuse_qkv {
                self.key_ranges()
            } else {
                chunk_ranges_of(self.tokens as int, self.query_chunk as int)
            },
        }
    }

    /// Steps that follow the key projections of a chunked call.
    pub open spec fn query_steps(self, kernel: AttentionKernel) -> Seq<SelfAttentionStep> {
        if self.reuse_qkv {
            steps_over(self.query_ranges(), kept_query_steps(kernel))
        } else {
            steps_over(self.query_ranges(), fresh_query_steps(kernel))
        }
    }

    /// All steps of the call, in order.
    pub open spec fn steps(self) -> Seq<SelfAttentionStep> {
        let whole_projection = seq![
            SelfAttentionStep::ProjectQkv { start: 0, end: self.tokens },
            SelfAttentionStep::NormRopeKeys { start: 0, end: self.tokens, keep_queries: true },
        ];
        let join = seq![
            SelfAttentionStep::JoinOutput { chunks: self.query_ranges().len() as usize },
        ];
        let keys = steps_over(self.key_ranges(), key_chunk_steps(self.reuse_qkv));
        match self.path {
            SelfAttentionPath::Whole => whole_projection + seq![
                SelfAttentionStep::Attend {
                    start: 0,
                    end: self.tokens,
                    kernel: AttentionKernel::Dispatch,
                },
                SelfAttentionStep::ProjectOut { start: 0, end: self.tokens },
            ],
            SelfAttentionPath::FullProjection => whole_projection + seq![
                SelfAttentionStep::LayoutProjection,
            ] + steps_over(self.query_ranges(), attend_steps()) + join + seq![
                SelfAttentionStep::ProjectOut { start: 0, end: self.tokens },
            ],
            SelfAttentionPath::ChunkedModule => keys + seq![
                SelfAttentionStep::JoinKeys { chunks: self.key_ranges().len() as usize },
            ] + self.query_steps(AttentionKernel::Module) + join,
            SelfAttentionPath::ChunkedStream => keys + self.query_steps(
                AttentionKernel::StreamedKeys,
            ) + join,
        }
    }
}

/// Appends the steps that project the keys of each range.
fn push_key_steps(
    steps: &mut Vec<SelfAttentionStep>,
    ranges: &Vec<Range<usize>>,
    keep_queries: bool,
)
    ensures
        final(steps)@ == old(steps)@ + steps_over(ranges@, key_chunk_steps(keep_queries)),
{
    let ghost before = steps@;
    let ghost per = key_chunk_steps(keep_queries);
    let mut i: usize = 0;
    proof {
        assert(ranges@.take(0) =~= Seq::<Range<usize>>::empty());
        assert(before + steps_over(ranges@.take(0), per) =~= before);
    }
    while i < ranges.len()
        invariant
            i <= ranges.len(),
            per == key_chunk_steps(keep_queries),
            steps@ == before + steps_over(ranges@.take(i as int), per),
        decreases ranges.len() - i,
    {
        let start: usize = ranges[i].start;
        let end: usize = ranges[i].end;
        steps.push(SelfAttentionStep::ProjectQkv { start, end });
        steps.push(SelfAttentionStep::NormRopeKeys { start, end, keep_queries });
        proof {
            lemma_steps_over_take(ranges@, per, i as int);
            assert(steps@ =~= before + (steps_over(ranges@.take(i as int), per) + per(
                ranges@[i as int],
            )));
        }
        i = i + 1;
    }
    proof {
        assert(ranges@.take(ranges@.len() as int) =~= ranges@);
    }
}

/// Appends the steps that attend from the kept queries of each range.
fn push_kept_query_steps(
    steps: &mut Vec<SelfAttentionStep>,
    ranges: &Vec<Range<usize>>,
    kernel: AttentionKernel,
)
    ensures
        final(steps)@ == old(steps)@ + steps_over(ranges@, kept_query_steps(kernel)),
{
    let ghost before = steps@;
    let ghost per = kept_query_steps(kernel);
    let mut i: usize = 0;
    proof {
        assert(ranges@.take(0) =~= Seq::<Range<usize>>::empty());
        assert(before + steps_over(ranges@.take(0), per) =~= before);
    }
    while i < ranges.len()
        invariant
            i <= ranges.len(),
            per == kept_query_steps(kernel),
            steps@ == before + steps_over(ranges@.take(i as int), per),
        decreases ranges.len() - i,
    {
        let start: usize = ranges[i].start;
        let end: usize = ranges[i].end;
        steps.push(SelfAttentionStep::Attend { start, end, kernel });
        steps.push(SelfAttentionStep::ProjectOut { start, end });
        proof {
            lemma_steps_over_take(ranges@, per, i as int);
            assert(steps@ =~= before + (steps_over(ranges@.take(i as int), per) + per(
                ranges@[i as int],
            )));
        }
        i = i + 1;
    }
    proof {
        assert(ranges@.take(ranges@.len() as int) =~= ranges@);
    }
}

/// Appends the steps that project and attend from the queries of each range.
fn push_fresh_query_steps(
    steps: &mut Vec<SelfAttentionStep>,
    ranges: &Vec<Range<usize>>,
    kernel: AttentionKernel,
)
    ensures
        final(steps)@ == old(steps)@ + steps_over(ranges@, fresh_query_steps(kernel)),
{
    let ghost before = steps@;
    let ghost per = fresh_query_steps(kernel);
    let mut i: usize = 0;
    proof {
        assert(ranges@.take(0) =~= Seq::<Range<usize>>::empty());
        assert(before + steps_over(ranges@.take(0), per) =~= before);
    }
    while i < ranges.len()
        invariant
            i <= ranges.len(),
            per == fresh_query_steps(kernel),
            steps@ == before + steps_over(ranges@.take(i as int), per),
        decreases ranges.len() - i,
    {
        let start: usize = ranges[i].start;
        let end: usize = ranges[i].end;
        steps.push(SelfAttentionStep::ProjectQkv { start, end });
        steps.push(SelfAttentionStep::NormRopeQueries { start, end });
        steps.push(SelfAttentionStep::Attend { start, end, kernel });
        steps.push(SelfAttentionStep::ProjectOut { start, end });
        proof {
            lemma_steps_over_take(ranges@, per, i as int);
            assert(steps@ =~= before + (steps_over(ranges@.take(i as int), per) + per(
                ranges@[i as int],
            )));
        }
        i = i + 1;
    }
    proof {
        assert(ranges@.take(ranges@.len() as int) =~= ranges@);
    }
}

/// Appends the steps that attend from each range of an existing projection.
fn push_attend_steps(steps: &mut Vec<SelfAttentionStep>, ranges: &Vec<Range<usize>>)
    ensures
        final(steps)@ == old(steps)@ + steps_over(ranges@, attend_steps()),
{
    let ghost before = steps@;
    let ghost per = attend_steps();
    let mut i: usize = 0;
    proof {
        assert(ranges@.take(0) =~= Seq::<Range<usize>>::empty());
        assert(before + steps_over(ranges@.take(0), per) =~= before);
    }
    while i < ranges.len()
        invariant
            i <= ranges.len(),
            per == attend_steps(),
            steps@ == before + steps_over(ranges@.take(i as int), per),
        decreases ranges.len() - i,
    {
        let start: usize = ranges[i].start;
        let end: usize = ranges[i].end;
        steps.push(SelfAttentionStep::Attend { start, end, kernel: AttentionKernel::Module });
        proof {
            lemma_steps_over_take(ranges@, per, i as int);
            assert(steps@ =~= before + (steps_over(ranges@.take(i as int), per) + per(
                ranges@[i as int],
            )));
        }
        i = i + 1;
    }
    proof {
        assert(ranges@.take(ranges@.len() as int) =~= ranges@);
    }
}

/// Lists the tensor operations of a planned self-attention call, in order.
pub fn self_attention_steps(plan: &SelfAttentionPlan) -> (r: Vec<SelfAttentionStep>)
    requires
        plan.wf(),
    ensures
        r@ == plan.steps(),
{
    let tokens: usize = plan.tokens;
    let mut steps: Vec<SelfAttentionStep> = Vec::new();
    match plan.path {
        SelfAttentionPath::Whole => {
            steps.push(SelfAttentionStep::ProjectQkv { start: 0, end: tokens });
            steps.push(
                SelfAttentionStep::NormRopeKeys { start: 0, end: tokens, keep_queries: true },
            );
            steps.push(
                SelfAttentionStep::Attend {
                    start: 0,
                    end: tokens,
                    kernel: AttentionKernel::Dispatch,
                },
            );
            steps.push(SelfAttentionStep::ProjectOut { start: 0, end: tokens });
            assert(steps@ =~= plan.steps());
        },
        SelfAttentionPath::FullProjection => {
            let queries: Vec<Range<usize>> = chunk_ranges(tokens, plan.query_chunk);
            steps.push(SelfAttentionStep::ProjectQkv { start: 0, end: tokens });
            steps.push(
                SelfAttentionStep::NormRopeKeys { start: 0, end: tokens, keep_queries: true },
            );
            steps.push(SelfAttentionStep::LayoutProjection);
            push_attend_steps(&mut steps, &queries);
            steps.push(SelfAttentionStep::JoinOutput { chunks: queries.len() });
            steps.push(SelfAttentionStep::ProjectOut { start: 0, end: tokens });
            assert(steps@ =~= plan.steps());
        },
        SelfAttentionPath::ChunkedModule => {
            let keys: Vec<Range<usize>> = chunk_ranges(tokens, plan.kv_chunk);
            push_key_steps(&mut steps, &keys, plan.reuse_qkv);
            steps.push(SelfAttentionStep::JoinKeys { chunks: keys.len() });
            let ghost after_keys = steps@;
            if plan.reuse_qkv {
                push_kept_query_steps(&mut steps, &keys, AttentionKernel::Module);
                steps.push(SelfAttentionStep::JoinOutput { chunks: keys.len() });
            } else {
                let queries: Vec<Range<usize>> = chunk_ranges(tokens, plan.query_chunk);
                push_fresh_query_steps(&mut steps, &queries, AttentionKernel::Module);
                steps.push(SelfAttentionStep::JoinOutput { chunks: queries.len() });
            }
            assert(steps@ =~= plan.steps());
        },
        SelfAttentionPath::ChunkedStream => {
            let keys: Vec<Range<usize>> = chunk_ranges(tokens, plan.kv_chunk);
            push_key_steps(&mut steps, &keys, plan.reuse_qkv);
            if plan.reuse_qkv {
                push_kept_query_steps(&mut steps, &keys, AttentionKernel::StreamedKeys);
                steps.push(SelfAttentionStep::JoinOutput { chunks: keys.len() });
            } else {
                let queries: Vec<Range<usize>> = chunk_ranges(tokens, plan.query_chunk);
                push_fresh_query_steps(&mut steps, &queries, AttentionKernel::StreamedKeys);
                steps.push(SelfAttentionStep::JoinOutput { chunks: queries.len() });
            }
            assert(steps@ =~= plan.steps());
        },
    }
    steps
}

// ---------------------------------------------------------------------------
// What the steps cover
// ---------------------------------------------------------------------------

/// Tokens from which a step attends.
pub open spec fn attended_range() -> spec_fn(SelfAttentionStep) -> Option<Range<usize>> {
    |step: SelfAttentionStep|
        match step {
            SelfAttentionStep::Attend { start, end, .. } => Some((Range { start, end })),
            _ => None,
        }
}

/// Tokens whose keys a step lists.
pub open spec fn listed_key_range() -> spec_fn(SelfAttentionStep) -> Option<Range<usize>> {
    |step: SelfAttentionStep|
        match step {
            SelfAttentionStep::NormRopeKeys { start, end, .. } => Some((Range { start, end })),
            _ => None,
        }
}

/// The attention calls of a plan run through its query chunks in order, so
/// every token attends exactly once, and the keys listed before them run
/// through all tokens.
pub proof fn self_attention_covers_queries_and_keys(plan: SelfAttentionPlan)
    requires
        plan.wf(),
    ensures
        picked(plan.steps(), attended_range()) == plan.query_ranges(),
        picked(plan.steps(), listed_key_range()) == (match plan.path {
            SelfAttentionPath::Whole | SelfAttentionPath::FullProjection => seq![
                (Range { start: 0usize, end: plan.tokens }),
            ],
            _ => plan.key_ranges(),
        }),
{
    reveal_with_fuel(picked, 6);
    let a = attended_range();
    let k = listed_key_range();
    let none = Seq::<Range<usize>>::empty();
    let whole = (Range { start: 0usize, end: plan.tokens });
    let tokens = plan.tokens;
    let projection = seq![
        SelfAttentionStep::ProjectQkv { start: 0, end: tokens },
        SelfAttentionStep::NormRopeKeys { start: 0, end: tokens, keep_queries: true },
    ];
    let join = seq![SelfAttentionStep::JoinOutput { chunks: plan.query_ranges().len() as usize }];
    let out = seq![SelfAttentionStep::ProjectOut { start: 0, end: tokens }];
    lemma_single(SelfAttentionStep::JoinOutput { chunks: plan.query_ranges().len() as usize }, a);
    lemma_single(SelfAttentionStep::JoinOutput { chunks: plan.query_ranges().len() as usize }, k);
    lemma_single(SelfAttentionStep::ProjectOut { start: 0, end: tokens }, a);
    lemma_single(SelfAttentionStep::ProjectOut { start: 0, end: tokens }, k);
    lemma_pair(projection[0], projection[1], a);
    lemma_pair(projection[0], projection[1], k);
    assert(projection =~= seq![projection[0], projection[1]]);
    match plan.path {
        SelfAttentionPath::Whole => {
            let attend = SelfAttentionStep::Attend {
                start: 0,
                end: tokens,
                kernel: AttentionKernel::Dispatch,
            };
            let tail = seq![attend, SelfAttentionStep::ProjectOut { start: 0, end: tokens }];
            lemma_pair(attend, tail[1], a);
            lemma_pair(attend, tail[1], k);
            lemma_picked_concat(projection, tail, a);
            lemma_picked_concat(projection, tail, k);
            assert(none + seq![whole] =~= seq![whole]);
            assert(seq![whole] + none =~= seq![whole]);
        },
        SelfAttentionPath::FullProjection => {
            let layout = seq![SelfAttentionStep::LayoutProjection];
            let body = steps_over(plan.query_ranges(), attend_steps());
            lemma_single(SelfAttentionStep::LayoutProjection, a);
            lemma_single(SelfAttentionStep::LayoutProjection, k);
            assert forall|r: Range<usize>| picked(#[trigger] attend_steps()(r), a) == seq![r] by {
                lemma_single(attend_steps()(r)[0], a);
                assert(attend_steps()(r) =~= seq![attend_steps()(r)[0]]);
            }
            assert forall|r: Range<usize>| picked(#[trigger] attend_steps()(r), k) == none by {
                lemma_single(attend_steps()(r)[0], k);
                assert(attend_steps()(r) =~= seq![attend_steps()(r)[0]]);
            }
            lemma_picked_per_range(plan.query_ranges(), attend_steps(), a);
            lemma_picked_none(plan.query_ranges(), attend_steps(), k);
            lemma_picked_concat(projection, layout, a);
            lemma_picked_concat(projection, layout, k);
            lemma_picked_concat(projection + layout, body, a);
            lemma_picked_concat(projection + layout, body, k);
            lemma_picked_concat(projection + layout + body, join, a);
            lemma_picked_concat(projection + layout + body, join, k);
            lemma_picked_concat(projection + layout + body + join, out, a);
            lemma_picked_concat(projection + layout + body + join, out, k);
            assert(none + none + plan.query_ranges() + none + none =~= plan.query_ranges());
            assert(seq![whole] + none + none + none + none =~= seq![whole]);
        },
        SelfAttentionPath::ChunkedModule => {
            let keys = steps_over(plan.key_ranges(), key_chunk_steps(plan.reuse_qkv));
            let join_keys = seq![
                SelfAttentionStep::JoinKeys { chunks: plan.key_ranges().len() as usize },
            ];
            let body = plan.query_steps(AttentionKernel::Module);
            lemma_key_part(plan);
            lemma_query_part(plan, AttentionKernel::Module);
            lemma_single(join_keys[0], a);
            lemma_single(join_keys[0], k);
            assert(join_keys =~= seq![join_keys[0]]);
            lemma_picked_concat(keys, join_keys, a);
            lemma_picked_concat(keys, join_keys, k);
            lemma_picked_concat(keys + join_keys, body, a);
            lemma_picked_concat(keys + join_keys, body, k);
            lemma_picked_concat(keys + join_keys + body, join, a);
            lemma_picked_concat(keys + join_keys + body, join, k);
            assert(none + none + plan.query_ranges() + none =~= plan.query_ranges());
            assert(plan.key_ranges() + none + none + none =~= plan.key_ranges());
        },
        SelfAttentionPath::ChunkedStream => {
            let keys = steps_over(plan.key_ranges(), key_chunk_steps(plan.reuse_qkv));
            let body = plan.query_steps(AttentionKernel::StreamedKeys);
            lemma_key_part(plan);
            lemma_query_part(plan, AttentionKernel::StreamedKeys);
            lemma_picked_concat(keys, body, a);
            lemma_picked_concat(keys, body, k);
            lemma_picked_concat(keys + body, join, a);
            lemma_picked_concat(keys + body, join, k);
            assert(none + plan.query_ranges() + none =~= plan.query_ranges());
            assert(plan.key_ranges() + none + none =~= plan.key_ranges());
        },
    }
}

/// Picking from a single step.
proof fn lemma_single(
    step: SelfAttentionStep,
    pick: spec_fn(SelfAttentionStep) -> Option<Range<usize>>,
)
    ensures
        picked(seq![step], pick) == (match pick(step) {
            Some(r) => seq![r],
            None => Seq::<Range<usize>>::empty(),
        }),
{
    reveal_with_fuel(picked, 2);
    assert(seq![step].drop_last() =~= Seq::<SelfAttentionStep>::empty());
}

/// Picking from two steps.
proof fn lemma_pair(
    first: SelfAttentionStep,
    second: SelfAttentionStep,
    pick: spec_fn(SelfAttentionStep) -> Option<Range<usize>>,
)
    ensures
        picked(seq![first, second], pick) == picked(seq![first], pick) + picked(
            seq![second],
            pick,
        ),
{
    lemma_picked_concat(seq![first], seq![second], pick);
    assert(seq![first] + seq![second] =~= seq![first, second]);
    lemma_single(first, pick);
    lemma_single(second, pick);
}

/// The key projections list every key chunk and attend from none.
proof fn lemma_key_part(plan: SelfAttentionPlan)
    ensures
        picked(
            steps_over(plan.key_ranges(), key_chunk_steps(plan.reuse_qkv)),
            listed_key_range(),
        ) == plan.key_ranges(),
        picked(steps_over(plan.key_ranges(), key_chunk_steps(plan.reuse_qkv)), attended_range())
            == Seq::<Range<usize>>::empty(),
{
    let per = key_chunk_steps(plan.reuse_qkv);
    assert forall|r: Range<usize>|
        picked(#[trigger] per(r), listed_key_range()) == seq![r] && picked(per(r), attended_range())
            == Seq::<Range<usize>>::empty() by {
        let s = per(r);
        assert(s =~= seq![s[0], s[1]]);
        lemma_pair(s[0], s[1], listed_key_range());
        lemma_pair(s[0], s[1], attended_range());
        lemma_single(s[0], listed_key_range());
        lemma_single(s[1], listed_key_range());
        lemma_single(s[0], attended_range());
        lemma_single(s[1], attended_range());
        assert(Seq::<Range<usize>>::empty() + seq![r] =~= seq![r]);
        assert(Seq::<Range<usize>>::empty() + Seq::<Range<usize>>::empty() =~= Seq::<
            Range<usize>,
        >::empty());
    }
    lemma_picked_per_range(plan.key_ranges(), per, listed_key_range());
    lemma_picked_none(plan.key_ranges(), per, attended_range());
}

/// The query steps attend once from every query chunk and list no key.
proof fn lemma_query_part(plan: SelfAttentionPlan, kernel: AttentionKernel)
    ensures
        picked(plan.query_steps(kernel), attended_range()) == plan.query_ranges(),
        picked(plan.query_steps(kernel), listed_key_range()) == Seq::<Range<usize>>::empty(),
{
    let none = Seq::<Range<usize>>::empty();
    let a = attended_range();
    let k = listed_key_range();
    let kept = kept_query_steps(kernel);
    let fresh = fresh_query_steps(kernel);
    assert forall|r: Range<usize>|
        picked(#[trigger] kept(r), a) == seq![r] && picked(kept(r), k) == none by {
        let s = kept(r);
        assert(s =~= seq![s[0], s[1]]);
        lemma_pair(s[0], s[1], a);
        lemma_pair(s[0], s[1], k);
        lemma_single(s[0], a);
        lemma_single(s[1], a);
        lemma_single(s[0], k);
        lemma_single(s[1], k);
        assert(seq![r] + none =~= seq![r]);
        assert(none + none =~= none);
    }
    assert forall|r: Range<usize>|
        picked(#[trigger] fresh(r), a) == seq![r] && picked(fresh(r), k) == none by {
        let s = fresh(r);
        let front = seq![s[0], s[1]];
        let back = seq![s[2], s[3]];
        assert(s =~= front + back);
        lemma_picked_concat(front, back, a);
        lemma_picked_concat(front, back, k);
        lemma_pair(s[0], s[1], a);
        lemma_pair(s[0], s[1], k);
        lemma_pair(s[2], s[3], a);
        lemma_pair(s[2], s[3], k);
        lemma_single(s[0], a);
        lemma_single(s[1], a);
        lemma_single(s[2], a);
        lemma_single(s[3], a);
        lemma_single(s[0], k);
        lemma_single(s[1], k);
        lemma_single(s[2], k);
        lemma_single(s[3], k);
        assert((none + none) + (seq![r] + none) =~= seq![r]);
        assert((none + none) + (none + none) =~= none);
    }
    if plan.reuse_qkv {
        lemma_picked_per_range(plan.query_ranges(), kept, a);
        lemma_picked_none(plan.query_ranges(), kept, k);
    } else {
        lemma_picked_per_range(plan.query_ranges(), fresh, a);
        lemma_picked_none(plan.query_ranges(), fresh, k);
    }
}

} // verus!
