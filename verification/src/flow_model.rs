//! A sparse-flow model: the order of operations in a block, the route of the
//! tokens through the model, and the shapes that go in and out.
use crate::chunks::{
    chunk_ranges_are_contiguous, consecutive, whole_or_chunk_ranges, whole_or_chunks,
};
use crate::flow_config::SparseStructureFlowConfig;
use crate::kernels::{
    kernel_backend, LinearF16CacheKey, LinearParamCache, SparseFlowLinearWgpuBridgeImpl,
};
use crate::policy::{
    attention_uses_non_fusion_module_kernel, linear_chunk_for_backend, linear_tries_skinny,
    sparse_flow_linear_chunk_tokens_for_backend, sparse_flow_torso_dtype_for_backend,
    sparse_flow_wgpu_linear_f16_enabled, torso_dtype, FloatDType, FlowBackend, FlowEnv,
};
use crate::telemetry::{
    record_sparse_flow_detail, record_sparse_flow_op, FlowCounter, SparseFlowOpDetailKind,
    SparseFlowOpKind, SparseFlowOpTelemetry,
};
use core::ops::Range;
use std::sync::Arc;
use vstd::prelude::*;

verus! {

// ---------------------------------------------------------------------------
// Modulation
// ---------------------------------------------------------------------------

/// The parts of a modulation signal, each as wide as the model.
#[derive(Clone, Copy, Debug, PartialEq, Eq, Structural)]
pub enum ModulationPart {
    ShiftMsa,
    ScaleMsa,
    GateMsa,
    ShiftMlp,
    ScaleMlp,
    GateMlp,
}

impl ModulationPart {
    /// Number of the part within the signal.
    pub open spec fn position(self) -> int {
        match self {
            ModulationPart::ShiftMsa => 0,
            ModulationPart::ScaleMsa => 1,
            ModulationPart::GateMsa => 2,
            ModulationPart::ShiftMlp => 3,
            ModulationPart::ScaleMlp => 4,
            ModulationPart::GateMlp => 5,
        }
    }

    /// Entry `i` of the signal belongs to the part.
    pub open spec fn holds(self, channels: int, i: int) -> bool {
        self.position() * channels <= i < (self.position() + 1) * channels
    }

    /// Where the part lies in a signal of a model with `channels` channels.
    pub fn range(self, channels: usize) -> (r: Range<usize>)
        requires
            channels * 6 <= usize::MAX,
        ensures
            r.start == self.position() * channels,
            r.end == (self.position() + 1) * channels,
    {
        let start: usize = match self {
            ModulationPart::ShiftMsa => 0,
            ModulationPart::ScaleMsa => channels,
            ModulationPart::GateMsa => channels * 2,
            ModulationPart::ShiftMlp => channels * 3,
            ModulationPart::ScaleMlp => channels * 4,
            ModulationPart::GateMlp => channels * 5,
        };
        assert((self.position() + 1) * channels == self.position() * channels + channels)
            by (nonlinear_arith);
        start..start + channels
    }
}

/// The part at a position.
pub open spec fn part_at(position: int) -> ModulationPart {
    if position == 0 {
        ModulationPart::ShiftMsa
    } else if position == 1 {
        ModulationPart::ScaleMsa
    } else if position == 2 {
        ModulationPart::GateMsa
    } else if position == 3 {
        ModulationPart::ShiftMlp
    } else if position == 4 {
        ModulationPart::ScaleMlp
    } else {
        ModulationPart::GateMlp
    }
}

/// Every entry of a modulation signal belongs to exactly one part.
pub proof fn modulation_parts_partition_signal(channels: usize, i: int)
    requires
        0 <= i < 6 * channels,
    ensures
        forall|part: ModulationPart| #[trigger]
            part.holds(channels as int, i) <==> part == part_at(i / (channels as int)),
{
    let c = channels as int;
    vstd::arithmetic::div_mod::lemma_fundamental_div_mod(i, c);
    let q = i / c;
    assert(0 <= i % c < c) by (nonlinear_arith)
        requires
            c > 0,
    ;
    assert(q * c <= i < (q + 1) * c) by (nonlinear_arith)
        requires
            i == c * q + i % c,
            0 <= i % c < c,
    ;
    assert(0 <= q < 6) by (nonlinear_arith)
        requires
            q * c <= i,
            i < (q + 1) * c,
            0 <= i < 6 * c,
            c > 0,
    ;
    assert forall|part: ModulationPart| #[trigger] part.holds(c, i) <==> part == part_at(q) by {
        let p = part.position();
        assert(part == part_at(p));
        assert(part_at(q).position() == q);
        if p < q {
            assert((p + 1) * c <= q * c) by (nonlinear_arith)
                requires
                    p + 1 <= q,
                    c > 0,
            ;
        } else if p > q {
            assert((q + 1) * c <= p * c) by (nonlinear_arith)
                requires
                    q + 1 <= p,
                    c > 0,
            ;
        }
    }
}

// ---------------------------------------------------------------------------
// Blocks
// ---------------------------------------------------------------------------

/// One operation of a block on the residual stream and its current branch.
#[derive(Clone, Copy, Debug, PartialEq, Eq, Structural)]
pub enum BlockStep {
    /// The branch is the normalized stream, scaled and shifted.
    NormModulated { scale: ModulationPart, shift: ModulationPart },
    /// The branch goes through self-attention.
    SelfAttention,
    /// The gated branch is added to the stream.
    GateResidual { gate: ModulationPart },
    /// The branch is the normalized stream, with gain and bias.
    NormAffine,
    /// The branch attends to the condition and is added to the stream;
    /// `cached` with keys and values that were projected before.
    CrossAttention { cached: bool },
    /// The branch goes through the MLP.
    Mlp,
}

impl BlockStep {
    /// The step reads a part of the modulation signal.
    pub open spec fn reads(self, part: ModulationPart) -> bool {
        match self {
            BlockStep::NormModulated { scale, shift } => part == scale || part == shift,
            BlockStep::GateResidual { gate } => part == gate,
            _ => false,
        }
    }

    /// Counter under which the step is timed.
    pub open spec fn counter(self) -> FlowCounter {
        match self {
            BlockStep::NormModulated { .. } => FlowCounter::Detail(
                SparseFlowOpDetailKind::BlockNormMod,
            ),
            BlockStep::SelfAttention => FlowCounter::Op(SparseFlowOpKind::SelfAttn),
            BlockStep::GateResidual { .. } => FlowCounter::Detail(
                SparseFlowOpDetailKind::BlockGateResidual,
            ),
            BlockStep::NormAffine => FlowCounter::Detail(SparseFlowOpDetailKind::BlockNormAffine),
            BlockStep::CrossAttention { .. } => FlowCounter::Op(SparseFlowOpKind::CrossAttn),
            BlockStep::Mlp => FlowCounter::Op(SparseFlowOpKind::Mlp),
        }
    }

    /// Counts the step.
    pub fn record(self, telemetry: &mut SparseFlowOpTelemetry, elapsed_ns: u64)
        ensures
            old(telemetry).advanced(*final(telemetry), self.counter(), elapsed_ns),
    {
        match self {
            BlockStep::NormModulated { .. } => record_sparse_flow_detail(
                telemetry,
                SparseFlowOpDetailKind::BlockNormMod,
                elapsed_ns,
            ),
            BlockStep::SelfAttention => record_sparse_flow_op(
                telemetry,
                SparseFlowOpKind::SelfAttn,
                elapsed_ns,
            ),
            BlockStep::GateResidual { .. } => record_sparse_flow_detail(
                telemetry,
                SparseFlowOpDetailKind::BlockGateResidual,
                elapsed_ns,
            ),
            BlockStep::NormAffine => record_sparse_flow_detail(
                telemetry,
                SparseFlowOpDetailKind::BlockNormAffine,
                elapsed_ns,
            ),
            BlockStep::CrossAttention { .. } => record_sparse_flow_op(
                telemetry,
                SparseFlowOpKind::CrossAttn,
                elapsed_ns,
            ),
            BlockStep::Mlp => record_sparse_flow_op(telemetry, SparseFlowOpKind::Mlp, elapsed_ns),
        }
    }
}

/// The operations of a block, in order.
pub open spec fn block_steps_of(cached: bool) -> Seq<BlockStep> {
    seq![
        BlockStep::NormModulated {
            scale: ModulationPart::ScaleMsa,
            shift: ModulationPart::ShiftMsa,
        },
        BlockStep::SelfAttention,
        BlockStep::GateResidual { gate: ModulationPart::GateMsa },
        BlockStep::NormAffine,
        BlockStep::CrossAttention { cached },
        BlockStep::NormModulated {
            scale: ModulationPart::ScaleMlp,
            shift: ModulationPart::ShiftMlp,
        },
        BlockStep::Mlp,
        BlockStep::GateResidual { gate: ModulationPart::GateMlp },
    ]
}

/// Lists the operations of a block, in order.
pub fn block_steps(cached: bool) -> (r: Vec<BlockStep>)
    ensures
        r@ == block_steps_of(cached),
{
    let mut steps: Vec<BlockStep> = Vec::new();
    steps.push(
        BlockStep::NormModulated {
            scale: ModulationPart::ScaleMsa,
            shift: ModulationPart::ShiftMsa,
        },
    );
    steps.push(BlockStep::SelfAttention);
    steps.push(BlockStep::GateResidual { gate: ModulationPart::GateMsa });
    steps.push(BlockStep::NormAffine);
    steps.push(BlockStep::CrossAttention { cached });
    steps.push(
        BlockStep::NormModulated {
            scale: ModulationPart::ScaleMlp,
            shift: ModulationPart::ShiftMlp,
        },
    );
    steps.push(BlockStep::Mlp);
    steps.push(BlockStep::GateResidual { gate: ModulationPart::GateMlp });
    assert(steps@ =~= block_steps_of(cached));
    steps
}

/// A block reads every part of the modulation signal in exactly one step.
pub proof fn block_reads_each_part_once(cached: bool, part: ModulationPart)
    ensures
        exists|i: int|
            0 <= i < block_steps_of(cached).len() && #[trigger] block_steps_of(cached)[i].reads(
                part,
            ) && forall|j: int|
                0 <= j < block_steps_of(cached).len() && #[trigger] block_steps_of(cached)[j].reads(
                    part,
                ) ==> j == i,
{
    let steps = block_steps_of(cached);
    let i = match part {
        ModulationPart::ShiftMsa => 0int,
        ModulationPart::ScaleMsa => 0int,
        ModulationPart::GateMsa => 2int,
        ModulationPart::ShiftMlp => 5int,
        ModulationPart::ScaleMlp => 5int,
        ModulationPart::GateMlp => 7int,
    };
    assert(steps[i].reads(part));
}

/// Steps of a list that are timed under a counter.
pub open spec fn timed_under(steps: Seq<BlockStep>, counter: FlowCounter) -> int
    decreases steps.len(),
{
    if steps.len() == 0 {
        0
    } else {
        timed_under(steps.drop_last(), counter) + if steps.last().counter() == counter {
            1int
        } else {
            0int
        }
    }
}

/// A block counts one self-attention, one cross-attention and one MLP, two
/// modulated norms, one affine norm and two gated residuals, and nothing else.
pub proof fn block_counts(cached: bool, counter: FlowCounter)
    ensures
        timed_under(block_steps_of(cached), counter) == match counter {
            FlowCounter::Op(_) => 1int,
            FlowCounter::Detail(SparseFlowOpDetailKind::BlockNormMod) => 2int,
            FlowCounter::Detail(SparseFlowOpDetailKind::BlockNormAffine) => 1int,
            FlowCounter::Detail(SparseFlowOpDetailKind::BlockGateResidual) => 2int,
            _ => 0int,
        },
{
    let s = block_steps_of(cached);
    reveal_with_fuel(timed_under, 9);
    let s7 = s.drop_last();
    let s6 = s7.drop_last();
    let s5 = s6.drop_last();
    let s4 = s5.drop_last();
    let s3 = s4.drop_last();
    let s2 = s3.drop_last();
    let s1 = s2.drop_last();
    assert(s1.drop_last() =~= Seq::<BlockStep>::empty());
    assert(s7.last() == s[6] && s6.last() == s[5] && s5.last() == s[4] && s4.last() == s[3]
        && s3.last() == s[2] && s2.last() == s[1] && s1.last() == s[0]);
}

/// Whether the device is synchronized after each operation of a block.
pub fn block_syncs(sync_profile: bool, tokens: usize) -> (r: bool)
    ensures
        r == (sync_profile && tokens >= 1_024),
{
    sync_profile && tokens >= 1_024
}

/// Whether the operations of blocks are logged.
pub fn block_ops_logged(attention_debug: bool, tokens: usize) -> (r: bool)
    ensures
        r == (attention_debug && tokens >= 131_072),
{
    attention_debug && tokens >= 131_072
}

/// Whether a block is logged: every fourth one, and the last.
pub fn block_logged(block_idx: usize, blocks: usize) -> (r: bool)
    ensures
        r == (block_idx % 4 == 0 || block_idx + 1 == blocks),
{
    block_idx % 4 == 0 || (blocks > 0 && block_idx == blocks - 1)
}

// ---------------------------------------------------------------------------
// The model
// ---------------------------------------------------------------------------

/// Attention projections of a new model are made for half precision.
pub fn attention_projection_f16(env: &FlowEnv, backend: FlowBackend) -> (r: bool)
    ensures
        r == (env.linear_f16() && env.non_fusion_module_kernel(backend)),
{
    sparse_flow_wgpu_linear_f16_enabled(env) && attention_uses_non_fusion_module_kernel(
        env,
        backend,
    )
}

/// A layer has parameters to convert.
pub open spec fn converts(layer: LinearF16CacheKey) -> bool {
    layer.in_channels > 0 && layer.out_channels > 0
}

/// Layers whose parameters are kept in half precision.
pub open spec fn prewarmed(layers: Seq<LinearF16CacheKey>) -> int
    decreases layers.len(),
{
    if layers.len() == 0 {
        0
    } else {
        prewarmed(layers.drop_last()) + if converts(layers.last()) {
            1int
        } else {
            0int
        }
    }
}

/// One of the layers has parameters to convert that are kept under `key`.
pub open spec fn prewarms(layers: Seq<LinearF16CacheKey>, key: LinearF16CacheKey) -> bool {
    converts(key) && layers.contains(key)
}

/// `after` keeps what `before` kept, and the converted parameters of the
/// layers, and nothing else.
pub open spec fn keeps_converted<V, C>(
    before: Map<LinearF16CacheKey, Arc<V>>,
    after: Map<LinearF16CacheKey, Arc<V>>,
    layers: Seq<LinearF16CacheKey>,
    convert: C,
) -> bool where C: Fn(&LinearF16CacheKey) -> V {
    &&& forall|key: LinearF16CacheKey| #[trigger]
        after.dom().contains(key) <==> before.dom().contains(key) || prewarms(layers, key)
    &&& forall|key: LinearF16CacheKey| #[trigger]
        after.dom().contains(key) ==> if before.dom().contains(key) {
            after[key] == before[key]
        } else {
            call_ensures(convert, (&key,), *after[key])
        }
}

/// Converts the parameters of layers ahead of the first call and keeps them;
/// `convert` makes those of one layer. The device is synchronized where there
/// are any, which is their number.
pub fn prewarm_fast_f16_params<V, C>(
    env: &FlowEnv,
    backend: FlowBackend,
    layers: &Vec<LinearF16CacheKey>,
    cache: &mut LinearParamCache<V>,
    convert: &C,
) -> (r: usize) where C: Fn(&LinearF16CacheKey) -> V
    requires
        env.linear_f16() && env.non_fusion_module_kernel(backend) ==> forall|
            key: &LinearF16CacheKey,
        |
            call_requires(*convert, (key,)),
    ensures
        if env.linear_f16() && env.non_fusion_module_kernel(backend) {
            r == prewarmed(layers@) && keeps_converted(
                old(cache)@,
                final(cache)@,
                layers@,
                *convert,
            )
        } else {
            r == 0 && final(cache)@ == old(cache)@
        },
{
    if !attention_projection_f16(env, backend) {
        return 0;
    }
    let ghost before = cache@;
    let mut cached: usize = 0;
    let mut i: usize = 0;
    while i < layers.len()
        invariant
            i <= layers.len(),
            kernel_backend(*env, backend),
            forall|key: &LinearF16CacheKey| call_requires(*convert, (key,)),
            cached == prewarmed(layers@.take(i as int)),
            cached <= i,
            keeps_converted(before, cache@, layers@.take(i as int), *convert),
        decreases layers.len() - i,
    {
        let key: LinearF16CacheKey = layers[i];
        let ghost earlier = cache@;
        let ghost done = layers@.take(i as int);
        let ghost more = layers@.take(i as int + 1);
        proof {
            assert(more.drop_last() =~= done);
            assert(more =~= done.push(key));
            assert forall|k: LinearF16CacheKey| prewarms(more, k) <==> prewarms(done, k) || (k
                == key && converts(key)) by {
                if more.contains(k) && k != key {
                    let j = choose|j: int| 0 <= j < more.len() && more[j] == k;
                    assert(done[j] == k);
                }
                if done.contains(k) {
                    let j = choose|j: int| 0 <= j < done.len() && done[j] == k;
                    assert(more[j] == k);
                }
                assert(more[i as int] == key);
            }
        }
        if SparseFlowLinearWgpuBridgeImpl::cache_f16_linear(
            env,
            backend,
            key.in_channels,
            key.out_channels,
        ) {
            let make = || -> (v: V)
                ensures
                    call_ensures(*convert, (&key,), v),
                {
                    convert(&key)
                };
            let _kept: Arc<V> = cache.cached_linear_f16_params(key, make);
            cached = cached + 1;
        }
        i = i + 1;
    }
    assert(layers@.take(i as int) =~= layers@);
    cached
}

/// Tokens `start..end` on their way through the input projection.
#[derive(Clone, Copy, Debug, PartialEq, Eq, Structural)]
pub struct InputChunk {
    pub start: usize,
    pub end: usize,
    /// The kernel for few input channels is tried first.
    pub skinny: bool,
}

/// Shapes of one call of a model.
#[derive(Clone, Copy, Debug, PartialEq, Eq)]
pub struct ForwardShape {
    pub batch: usize,
    pub tokens: usize,
    pub channels: usize,
    pub cond_channels: usize,
    /// Rows and columns of the token coordinates.
    pub coords: Option<(usize, usize)>,
    /// Blocks for which keys and values were projected before.
    pub cached_blocks: Option<usize>,
}

impl ForwardShape {
    /// The shapes go with a model of `blocks` blocks.
    pub open spec fn fits<F>(self, config: SparseStructureFlowConfig<F>, blocks: int) -> bool {
        &&& self.channels == config.in_channels
        &&& self.cond_channels == config.cond_channels
        &&& self.coords matches Some(dims) ==> dims.1 == 3 && dims.0 == self.tokens
        &&& self.cached_blocks matches Some(cached) ==> cached == blocks
    }
}

/// Names the first mismatch between the shapes of a call and a model.
pub fn check_forward_shape<F>(
    shape: &ForwardShape,
    config: &SparseStructureFlowConfig<F>,
    blocks: usize,
) -> (r: Result<(), &'static str>)
    ensures
        r is Ok <==> shape.fits(*config, blocks as int),
        match r {
            Ok(()) => true,
            Err(text) => text@ == (if shape.channels != config.in_channels {
                "sparse flow input channel mismatch"@
            } else if shape.cond_channels != config.cond_channels {
                "sparse flow cond channel mismatch"@
            } else if shape.coords matches Some(dims) && dims.1 != 3 {
                "sparse flow token coord column mismatch"@
            } else if shape.coords matches Some(dims) && dims.0 != shape.tokens {
                "sparse flow token coords length mismatch"@
            } else {
                "sparse flow cross-attention K/V cache block count mismatch"@
            }),
        },
{
    if shape.channels != config.in_channels {
        return Err("sparse flow input channel mismatch");
    }
    if shape.cond_channels != config.cond_channels {
        return Err("sparse flow cond channel mismatch");
    }
    if let Some((rows, cols)) = shape.coords {
        if cols != 3 {
            return Err("sparse flow token coord column mismatch");
        }
        if rows != shape.tokens {
            return Err("sparse flow token coords length mismatch");
        }
    }
    if let Some(cached) = shape.cached_blocks {
        if cached != blocks {
            return Err("sparse flow cross-attention K/V cache block count mismatch");
        }
    }
    Ok(())
}

/// The route of the tokens through a model.
#[derive(Debug)]
pub struct ModelPlan {
    /// Chunks of the input projection; their outputs are joined.
    pub input: Vec<InputChunk>,
    /// Format in which the blocks compute, where it is not that of the input.
    pub torso_dtype: Option<FloatDType>,
    /// Number of blocks, taken in order.
    pub blocks: usize,
    /// Blocks use keys and values that were projected before.
    pub cached: bool,
    /// Chunks of the output projection; their outputs are joined.
    pub output: Vec<Range<usize>>,
}

/// The kernel for few input channels is tried on so many rows.
pub open spec fn tries_skinny(
    env: FlowEnv,
    backend: FlowBackend,
    rows: int,
    in_channels: int,
    out_channels: int,
) -> bool {
    env.linear_f16() && env.non_fusion_module_kernel(backend) && rows >= 1_024 && in_channels <= 64
        && out_channels >= 256
}

/// Chunks of the input projection.
pub open spec fn input_chunks_of(
    env: FlowEnv,
    backend: FlowBackend,
    batch: int,
    tokens: int,
    in_channels: int,
    out_channels: int,
) -> Seq<InputChunk> {
    whole_or_chunks(tokens, linear_chunk_for_backend(env, backend, tokens)).map_values(
        |r: Range<usize>|
            (InputChunk {
                start: r.start,
                end: r.end,
                skinny: tries_skinny(
                    env,
                    backend,
                    batch * (r.end - r.start),
                    in_channels,
                    out_channels,
                ),
            }),
    )
}

/// Chunks of the input projection.
pub fn linear_forward_input_token_chunked(
    env: &FlowEnv,
    backend: FlowBackend,
    batch: usize,
    tokens: usize,
    in_channels: usize,
    out_channels: usize,
) -> (r: Vec<InputChunk>)
    requires
        batch * tokens <= usize::MAX,
    ensures
        r@ == input_chunks_of(
            *env,
            backend,
            batch as int,
            tokens as int,
            in_channels as int,
            out_channels as int,
        ),
{
    let chunk: usize = sparse_flow_linear_chunk_tokens_for_backend(env, backend, tokens);
    let ranges: Vec<Range<usize>> = whole_or_chunk_ranges(tokens, chunk);
    let ghost all = input_chunks_of(
        *env,
        backend,
        batch as int,
        tokens as int,
        in_channels as int,
        out_channels as int,
    );
    proof {
        chunk_ranges_are_contiguous(tokens, chunk);
    }
    let mut out: Vec<InputChunk> = Vec::new();
    let mut i: usize = 0;
    while i < ranges.len()
        invariant
            i <= ranges.len(),
            batch * tokens <= usize::MAX,
            ranges@ == whole_or_chunks(tokens as int, chunk as int),
            chunk < tokens ==> consecutive(ranges@, tokens as int, chunk as int),
            chunk == linear_chunk_for_backend(*env, backend, tokens as int),
            all == input_chunks_of(
                *env,
                backend,
                batch as int,
                tokens as int,
                in_channels as int,
                out_channels as int,
            ),
            out@ == all.take(i as int),
        decreases ranges.len() - i,
    {
        let start: usize = ranges[i].start;
        let end: usize = ranges[i].end;
        assert(ranges@[i as int].start <= ranges@[i as int].end <= tokens);
        assert(batch * (end - start) <= batch * tokens) by (nonlinear_arith)
            requires
                0 <= end - start <= tokens,
                batch >= 0,
        ;
        let rows: usize = batch * (end - start);
        let skinny: bool = linear_tries_skinny(env, backend, rows, in_channels, out_channels);
        out.push(InputChunk { start, end, skinny });
        proof {
            assert(all.take(i + 1) =~= all.take(i as int).push(all[i as int]));
        }
        i = i + 1;
    }
    assert(all.take(i as int) =~= all);
    out
}

/// Chunks of the output projection.
pub fn linear_forward_token_chunked_reference(
    env: &FlowEnv,
    backend: FlowBackend,
    tokens: usize,
) -> (r: Vec<Range<usize>>)
    ensures
        r@ == whole_or_chunks(
            tokens as int,
            linear_chunk_for_backend(*env, backend, tokens as int),
        ),
{
    let chunk: usize = sparse_flow_linear_chunk_tokens_for_backend(env, backend, tokens);
    whole_or_chunk_ranges(tokens, chunk)
}

/// `plan` is the route of tokens of a given shape through a model with
/// `blocks` blocks.
pub open spec fn is_model_plan<F>(
    env: FlowEnv,
    backend: FlowBackend,
    config: SparseStructureFlowConfig<F>,
    blocks: int,
    shape: ForwardShape,
    plan: ModelPlan,
) -> bool {
    &&& plan.input@ == input_chunks_of(
        env,
        backend,
        shape.batch as int,
        shape.tokens as int,
        config.in_channels as int,
        config.model_channels as int,
    )
    &&& plan.torso_dtype == torso_dtype(env, backend)
    &&& plan.blocks == blocks
    &&& plan.cached == shape.cached_blocks is Some
    &&& plan.output@ == whole_or_chunks(
        shape.tokens as int,
        linear_chunk_for_backend(env, backend, shape.tokens as int),
    )
}

/// Plans one call of a model with `blocks` blocks.
pub fn forward_tokens_with_cross_cache<F>(
    env: &FlowEnv,
    backend: FlowBackend,
    config: &SparseStructureFlowConfig<F>,
    blocks: usize,
    shape: &ForwardShape,
) -> (r: ModelPlan)
    requires
        shape.fits(*config, blocks as int),
        shape.batch * shape.tokens <= usize::MAX,
    ensures
        is_model_plan(*env, backend, *config, blocks as int, *shape, r),
{
    ModelPlan {
        input: linear_forward_input_token_chunked(
            env,
            backend,
            shape.batch,
            shape.tokens,
            config.in_channels,
            config.model_channels,
        ),
        torso_dtype: sparse_flow_torso_dtype_for_backend(env, backend),
        blocks,
        cached: shape.cached_blocks.is_some(),
        output: linear_forward_token_chunked_reference(env, backend, shape.tokens),
    }
}

/// Two calls whose shapes differ in the cached blocks alone take the same route
/// into the blocks and out of them, through equally many blocks.
pub proof fn caching_leaves_the_route<F>(
    env: FlowEnv,
    backend: FlowBackend,
    config: SparseStructureFlowConfig<F>,
    blocks: int,
    shape: ForwardShape,
    other: ForwardShape,
    plan: ModelPlan,
    other_plan: ModelPlan,
)
    requires
        other == (ForwardShape { cached_blocks: other.cached_blocks, ..shape }),
        is_model_plan(env, backend, config, blocks, shape, plan),
        is_model_plan(env, backend, config, blocks, other, other_plan),
    ensures
        other_plan.input@ == plan.input@,
        other_plan.torso_dtype == plan.torso_dtype,
        other_plan.blocks == plan.blocks,
        other_plan.output@ == plan.output@,
{
}

/// The chunks of both projections are the same, and run through all tokens
/// once, in order.
pub proof fn projections_cover_tokens(
    env: FlowEnv,
    backend: FlowBackend,
    batch: int,
    tokens: usize,
    in_channels: int,
    out_channels: int,
)
    requires
        tokens > 0,
    ensures
        ({
            let input = input_chunks_of(
                env,
                backend,
                batch,
                tokens as int,
                in_channels,
                out_channels,
            );
            let output = whole_or_chunks(
                tokens as int,
                linear_chunk_for_backend(env, backend, tokens as int),
            );
            &&& input.len() == output.len() > 0
            &&& output[0].start == 0
            &&& output.last().end == tokens
            &&& forall|i: int|
                0 <= i < input.len() ==> (#[trigger] input[i]).start == output[i].start
                    && input[i].end == output[i].end && input[i].start < input[i].end
            &&& forall|i: int, j: int|
                0 <= i && j == i + 1 && j < output.len() ==> (#[trigger] output[i]).end == (
                #[trigger] output[j]).start
        }),
{
    let chunk = linear_chunk_for_backend(env, backend, tokens as int);
    if chunk < tokens {
        chunk_ranges_are_contiguous(tokens, chunk as usize);
    }
}

/// Counts the way of the tokens into the model.
pub fn record_model_input(telemetry: &mut SparseFlowOpTelemetry, elapsed_ns: u64)
    ensures
        exists|mid: SparseFlowOpTelemetry| #[trigger]
            old(telemetry).advanced(
                mid,
                FlowCounter::Detail(SparseFlowOpDetailKind::ModelIo),
                elapsed_ns,
            ) && mid.advanced(
                *final(telemetry),
                FlowCounter::Detail(SparseFlowOpDetailKind::ModelInput),
                elapsed_ns,
            ),
{
    record_sparse_flow_detail(telemetry, SparseFlowOpDetailKind::ModelIo, elapsed_ns);
    record_sparse_flow_detail(telemetry, SparseFlowOpDetailKind::ModelInput, elapsed_ns);
}

/// Counts the way of the tokens out of the model.
pub fn record_model_output(telemetry: &mut SparseFlowOpTelemetry, elapsed_ns: u64)
    ensures
        exists|mid: SparseFlowOpTelemetry| #[trigger]
            old(telemetry).advanced(
                mid,
                FlowCounter::Detail(SparseFlowOpDetailKind::ModelIo),
                elapsed_ns,
            ) && mid.advanced(
                *final(telemetry),
                FlowCounter::Detail(SparseFlowOpDetailKind::ModelOutput),
                elapsed_ns,
            ),
{
    record_sparse_flow_detail(telemetry, SparseFlowOpDetailKind::ModelIo, elapsed_ns);
    record_sparse_flow_detail(telemetry, SparseFlowOpDetailKind::ModelOutput, elapsed_ns);
}

/// Token shapes of a dense call: what goes into the token model, and the grid
/// that its output is folded back to.
#[derive(Clone, Copy, Debug, PartialEq, Eq, Structural)]
pub struct DenseForward {
    pub batch: usize,
    pub tokens: usize,
    pub in_channels: usize,
    pub out_channels: usize,
    pub resolution: usize,
}

/// Flattens a dense call on `[batch, channels, x, y, z]` to tokens; names the
/// first mismatch with the model.
pub fn forward_with_cross_cache<F>(
    config: &SparseStructureFlowConfig<F>,
    dims: [usize; 5],
) -> (r: Result<DenseForward, &'static str>)
    requires
        config.resolution * config.resolution * config.resolution <= usize::MAX,
    ensures
        match r {
            Ok(dense) => dims@[1] == config.in_channels && dims@[2] == config.resolution && dims@[3]
                == config.resolution && dims@[4] == config.resolution && dense == (DenseForward {
                batch: dims@[0],
                tokens: (config.resolution * config.resolution * config.resolution) as usize,
                in_channels: config.in_channels,
                out_channels: config.out_channels,
                resolution: config.resolution,
            }),
            Err(text) => if dims@[1] != config.in_channels {
                text@ == "sparse flow input channel mismatch"@
            } else {
                text@ == "sparse flow input resolution mismatch"@ && (dims@[2] != config.resolution
                    || dims@[3] != config.resolution || dims@[4] != config.resolution)
            },
        },
{
    if dims[1] != config.in_channels {
        return Err("sparse flow input channel mismatch");
    }
    let resolution: usize = config.resolution;
    if dims[2] != resolution || dims[3] != resolution || dims[4] != resolution {
        return Err("sparse flow input resolution mismatch");
    }
    assert(resolution * resolution <= usize::MAX) by (nonlinear_arith)
        requires
            resolution * resolution * resolution <= usize::MAX,
            resolution >= 0,
            usize::MAX >= 1,
    ;
    Ok(
        DenseForward {
            batch: dims[0],
            tokens: resolution * resolution * resolution,
            in_channels: config.in_channels,
            out_channels: config.out_channels,
            resolution,
        },
    )
}

/// Grid resolution of a sparse call.
pub fn forward_sparse_resolution(sparse_resolution: usize) -> (r: usize)
    ensures
        r == (if sparse_resolution > 1 {
            sparse_resolution
        } else {
            1
        }),
{
    if sparse_resolution > 1 {
        sparse_resolution
    } else {
        1
    }
}

} // verus!
