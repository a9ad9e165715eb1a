//! What plans, labels and faults say, stated of what they are made from.
use crate::attention::{is_dense_plan, is_stream_plan, module_attention_call, PlainAttentionPlan};
use crate::arith::lemma_ceil_div;
use crate::chunks::{chunk_ranges_of, lemma_chunk_bounds};
use crate::conditioning::{extraction_fault, Extraction};
use crate::cross_attention::{
    cross_chunk_steps, joinable, CrossAttentionProjectedKv, CrossAttentionStep,
};
use crate::flags::{step_after_run, SamplerStep};
use crate::flow_config::SparseStructureFlowConfig;
use crate::flow_model::{is_model_plan, BlockStep, ForwardShape, ModelPlan};
use crate::pipeline_load::{image_model_name, preloads_variant, requested_type, FlowSpecView};
use crate::pipeline_run::sync_outcome;
use crate::pipeline_stages::{decode_waits, RunRequest};
use crate::policy::{
    attn_logits_budget, bytes_per_logit, module_chunk_cap_for_shape, plain_query_chunk,
    query_chunk_cap, stream_reuse_qkv, FloatDType, FlowBackend, FlowEnv,
};
use crate::sampling::Capture;
use crate::sampling_runs::{dense_capture, part_label, row_capture, step_afterwards};
use crate::self_attention::{
    attend_steps, fresh_query_steps, kept_query_steps, key_chunk_steps, self_attention_chunks,
    AttentionKernel, SelfAttentionStep,
};
use crate::stage_samples::DecodedLatentOutput;
use crate::telemetry::{FlowCounter, SparseFlowOpDetailKind, SparseFlowOpKind};
use crate::text::{is_white_space, occurs, occurs_at, trimming_leaves_what_stands_between};
use crate::vae_decoder::{tex_attrs_fault, tex_output_fault};
use crate::weight_parts::names_other_file;
use core::ops::Range;
use vstd::arithmetic::div_mod::lemma_fundamental_div_mod_converse;
use vstd::prelude::*;

verus! {

// ---------------------------------------------------------------------------
// Steps
// ---------------------------------------------------------------------------

/// Tokens that a step of self-attention works on.
pub open spec fn worked_on(step: SelfAttentionStep) -> Option<(usize, usize)> {
    match step {
        SelfAttentionStep::ProjectQkv { start, end } => Some((start, end)),
        SelfAttentionStep::NormRopeKeys { start, end, .. } => Some((start, end)),
        SelfAttentionStep::NormRopeQueries { start, end } => Some((start, end)),
        SelfAttentionStep::Attend { start, end, .. } => Some((start, end)),
        SelfAttentionStep::ProjectOut { start, end } => Some((start, end)),
        _ => None,
    }
}

/// Every step that is taken for a chunk of tokens works on all tokens of the
/// chunk and on no others. Tokens are projected before they are normalized,
/// normalized before they attend, and put out last.
pub proof fn self_attention_steps_work_on_their_chunk(
    r: Range<usize>,
    keep: bool,
    kernel: AttentionKernel,
)
    ensures
        ({
            let keys = key_chunk_steps(keep)(r);
            &&& forall|i: int| 0 <= i < keys.len() ==> worked_on(#[trigger] keys[i]) == Some((r.start, r.end))
            &&& keys.len() == 2
            &&& keys[0] is ProjectQkv
            &&& keys[1] matches SelfAttentionStep::NormRopeKeys { keep_queries, .. } && keep_queries == keep
        }),
        ({
            let kept = kept_query_steps(kernel)(r);
            &&& forall|i: int| 0 <= i < kept.len() ==> worked_on(#[trigger] kept[i]) == Some((r.start, r.end))
            &&& kept.len() == 2
            &&& kept[0] matches SelfAttentionStep::Attend { kernel: used, .. } && used == kernel
            &&& kept[1] is ProjectOut
        }),
        ({
            let fresh = fresh_query_steps(kernel)(r);
            &&& forall|i: int| 0 <= i < fresh.len() ==> worked_on(#[trigger] fresh[i]) == Some((r.start, r.end))
            &&& fresh.len() == 4
            &&& fresh[0] is ProjectQkv
            &&& fresh[1] is NormRopeQueries
            &&& fresh[2] matches SelfAttentionStep::Attend { kernel: used, .. } && used == kernel
            &&& fresh[3] is ProjectOut
        }),
        ({
            let alone = attend_steps()(r);
            &&& alone.len() == 1
            &&& worked_on(alone[0]) == Some((r.start, r.end))
            &&& alone[0] matches SelfAttentionStep::Attend { kernel: used, .. } && used
                == AttentionKernel::Module
        }),
{
}

/// Tokens that a step of cross-attention works on.
pub open spec fn crossed_on(step: CrossAttentionStep) -> Option<(usize, usize)> {
    match step {
        CrossAttentionStep::ProjectQueries { start, end } => Some((start, end)),
        CrossAttentionStep::NormQueries { start, end } => Some((start, end)),
        CrossAttentionStep::Attend { start, end, .. } => Some((start, end)),
        CrossAttentionStep::ProjectOut { start, end } => Some((start, end)),
        _ => None,
    }
}

/// Cross-attention projects, normalizes, attends and puts out all tokens of a
/// chunk, and no others, in this order.
pub proof fn cross_attention_steps_work_on_their_chunk(r: Range<usize>, module: bool)
    ensures
        ({
            let steps = cross_chunk_steps(module)(r);
            &&& forall|i: int| 0 <= i < steps.len() ==> crossed_on(#[trigger] steps[i]) == Some((r.start, r.end))
            &&& steps.len() == 4
            &&& steps[0] is ProjectQueries
            &&& steps[1] is NormQueries
            &&& steps[2] matches CrossAttentionStep::Attend { module: used, .. } && used == module
            &&& steps[3] is ProjectOut
        }),
{
}

/// Every operation of a block is counted as what it is.
pub proof fn operations_are_counted_as_what_they_are(step: BlockStep)
    ensures
        step.counter() == FlowCounter::Op(SparseFlowOpKind::SelfAttn) <==> step is SelfAttention,
        step.counter() == FlowCounter::Op(SparseFlowOpKind::CrossAttn) <==> step is CrossAttention,
        step.counter() == FlowCounter::Op(SparseFlowOpKind::Mlp) <==> step is Mlp,
        step.counter() == FlowCounter::Detail(SparseFlowOpDetailKind::BlockNormMod)
            <==> step is NormModulated,
        step.counter() == FlowCounter::Detail(SparseFlowOpDetailKind::BlockNormAffine)
            <==> step is NormAffine,
        step.counter() == FlowCounter::Detail(SparseFlowOpDetailKind::BlockGateResidual)
            <==> step is GateResidual,
{
}

/// A plan for a model takes all its blocks, uses projected keys and values
/// exactly where there are any, and tries the kernel for few input channels on
/// chunks of at least 1024 rows over all batch items.
pub proof fn model_plans_follow_the_call<F>(
    env: FlowEnv,
    backend: FlowBackend,
    config: SparseStructureFlowConfig<F>,
    blocks: int,
    shape: ForwardShape,
    plan: ModelPlan,
    i: int,
)
    requires
        is_model_plan(env, backend, config, blocks, shape, plan),
        0 <= i < plan.input@.len(),
    ensures
        plan.blocks == blocks,
        plan.cached <==> shape.cached_blocks is Some,
        plan.torso_dtype is Some ==> plan.torso_dtype == Some(FloatDType::F16) && env.wgpu
            && backend == FlowBackend::Wgpu && env.debug.sparse_flow_torso_f16,
        plan.input@.len() == plan.output@.len(),
        plan.input@[i].start == plan.output@[i].start && plan.input@[i].end == plan.output@[i].end,
        plan.input@[i].skinny <==> env.wgpu && backend == FlowBackend::Wgpu
            && env.debug.sparse_flow_linear_f16 && env.debug.sparse_flow_module_attention
            && shape.batch * (plan.input@[i].end - plan.input@[i].start) >= 1_024
            && config.in_channels <= 64 && config.model_channels >= 256,
{
}

/// Shapes go with a model where their channels are those of the model,
/// coordinates have three columns and a row for every token, and projected keys
/// and values are there for every block.
pub proof fn shapes_go_with_their_model<F>(
    config: SparseStructureFlowConfig<F>,
    blocks: usize,
    batch: usize,
    tokens: usize,
)
    ensures
        forall|shape: ForwardShape| #[trigger]
            shape.fits(config, blocks as int) ==> shape.channels == config.in_channels
                && shape.cond_channels == config.cond_channels,
        forall|rows: usize, cols: usize, cached: usize|
            (ForwardShape {
                batch,
                tokens,
                channels: config.in_channels,
                cond_channels: config.cond_channels,
                coords: Some((rows, cols)),
                cached_blocks: Some(cached),
            }).fits(config, blocks as int) <==> rows == tokens && cols == 3 && cached == blocks,
{
}

// ---------------------------------------------------------------------------
// Chunks
// ---------------------------------------------------------------------------

/// A call of the module kernel takes the queries of its chunk. The kernel is
/// handed its scale only for more than 21504 keys under sixteen or more heads of
/// 64 channels in single precision.
pub proof fn module_calls_scale_long_keys(
    env: FlowEnv,
    batch: int,
    heads: int,
    keys: int,
    head_dim: int,
    r: Range<usize>,
)
    ensures
        ({
            let call = module_attention_call(env, batch, heads, keys, head_dim, r);
            &&& call.start == r.start
            &&& call.end == r.end
            &&& call.explicit_scale <==> keys > 21_504 && head_dim == 64 && batch * heads >= 16
                && !env.debug.sparse_flow_module_attention_f16
        }),
{
}

/// Plain attention takes eight queries at a time against all keys, or streams
/// sixty-four at a time over a hundred and twenty-eight keys at a time; only
/// what fits into one such piece is not cut up.
pub proof fn plain_attention_is_cut_into_small_pieces(
    env: FlowEnv,
    batch: int,
    heads: int,
    queries: usize,
    keys: usize,
    plan: PlainAttentionPlan,
)
    requires
        queries >= 1,
        keys >= 1,
    ensures
        is_dense_plan(env, batch, heads, queries as int, keys as int, plan) ==> match plan {
            PlainAttentionPlan::Single => queries <= 8,
            PlainAttentionPlan::QueryChunks(ranges) => forall|i: int|
                0 <= i < ranges@.len() ==> (#[trigger] ranges@[i]).end - ranges@[i].start == (if i
                    + 1 < ranges@.len() || queries % 8 == 0 {
                    8
                } else {
                    queries as int % 8
                }),
            _ => false,
        },
        is_stream_plan(env, batch, heads, queries as int, keys as int, plan) ==> match plan {
            PlainAttentionPlan::Single => queries <= 64 && keys <= 128,
            PlainAttentionPlan::Streamed { queries: q, keys: k } => {
                &&& forall|i: int|
                    0 <= i < q@.len() ==> (#[trigger] q@[i]).end - q@[i].start <= 64 && (i + 1
                        < q@.len() ==> q@[i].end - q@[i].start == 64)
                &&& forall|i: int|
                    0 <= i < k@.len() ==> (#[trigger] k@[i]).end - k@[i].start <= 128 && (i + 1
                        < k@.len() ==> k@[i].end - k@[i].start == 128)
            },
            _ => false,
        },
{
    let d: usize = if queries < 8 {
        queries
    } else {
        8
    };
    let q: usize = if queries < 64 {
        queries
    } else {
        64
    };
    let k: usize = if keys < 128 {
        keys
    } else {
        128
    };
    lemma_piece_sizes(queries, d);
    lemma_piece_sizes(queries, q);
    lemma_piece_sizes(keys, k);
    let dense = chunk_ranges_of(queries as int, d as int);
    let asked = chunk_ranges_of(queries as int, q as int);
    let listed = chunk_ranges_of(keys as int, k as int);
    assert(plain_query_chunk(env, queries as int, 8) == d);
    assert(plain_query_chunk(env, queries as int, 64) == q);
    lemma_single_piece(queries, d);
    lemma_single_piece(queries, q);
    lemma_single_piece(keys, k);
    assert(forall|i: int|
        0 <= i < dense.len() ==> (#[trigger] dense[i]).end - dense[i].start == (if i + 1
            < dense.len() || queries % 8 == 0 {
            8
        } else {
            queries as int % 8
        }));
    assert(forall|i: int|
        0 <= i < asked.len() ==> (#[trigger] asked[i]).end - asked[i].start <= 64 && (i + 1
            < asked.len() ==> asked[i].end - asked[i].start == 64));
    assert(forall|i: int|
        0 <= i < listed.len() ==> (#[trigger] listed[i]).end - listed[i].start <= 128 && (i + 1
            < listed.len() ==> listed[i].end - listed[i].start == 128));
}

/// A chunk as large as everything is the only one.
proof fn lemma_single_piece(total: usize, chunk: usize)
    requires
        1 <= chunk <= total,
    ensures
        chunk == total ==> chunk_ranges_of(total as int, chunk as int).len() == 1,
{
    if chunk == total {
        lemma_ceil_div(total as int, chunk as int);
        let n = chunk_ranges_of(total as int, chunk as int).len() as int;
        if n > 1 {
            lemma_chunk_bounds(total as int, chunk as int, 1);
        }
    }
}

/// All chunks are full but the last.
proof fn lemma_piece_sizes(total: usize, chunk: usize)
    requires
        1 <= chunk <= total,
    ensures
        forall|i: int|
            0 <= i < chunk_ranges_of(total as int, chunk as int).len() ==> {
                let r = #[trigger] chunk_ranges_of(total as int, chunk as int)[i];
                r.end - r.start == (if i + 1 < chunk_ranges_of(total as int, chunk as int).len()
                    || total % chunk == 0 {
                    chunk as int
                } else {
                    total as int % chunk as int
                })
            },
{
    let t = total as int;
    let c = chunk as int;
    let ranges = chunk_ranges_of(t, c);
    lemma_ceil_div(t, c);
    assert forall|i: int| 0 <= i < ranges.len() implies {
        let r = #[trigger] ranges[i];
        r.end - r.start == (if i + 1 < ranges.len() || total % chunk == 0 {
            c
        } else {
            t % c
        })
    } by {
        lemma_chunk_bounds(t, c, i);
        if i + 1 == ranges.len() {
            let rest = t - i * c;
            if rest == c {
                lemma_fundamental_div_mod_converse(t, c, i + 1, 0);
            } else {
                lemma_fundamental_div_mod_converse(t, c, i, rest);
            }
        }
    }
}

/// Self-attention is cut into chunks of at most 2048 queries and 8192 keys, or
/// of as many queries as keys where projections are kept; exactly so where the
/// budget has room. The module kernel has its own limit, and takes no more
/// queries than its budget has room for.
pub proof fn self_attention_chunks_have_their_sizes(
    env: FlowEnv,
    backend: FlowBackend,
    batch: int,
    heads: int,
    tokens: int,
    channels: int,
    head_dim: int,
)
    requires
        tokens >= 8_192,
        env.wgpu,
    ensures
        ({
            let (q, k) = self_attention_chunks(env, backend, batch, heads, tokens, channels, head_dim);
            let cap = module_chunk_cap_for_shape(env, tokens, tokens, head_dim);
            let reuse = stream_reuse_qkv(env, tokens, channels);
            let budget = attn_logits_budget(env);
            &&& q >= 1 && k >= 1
            &&& env.non_fusion_module_kernel(backend) ==> q == cap && k == cap
            &&& !env.non_fusion_module_kernel(backend) ==> q <= (if reuse {
                8_192int
            } else {
                2_048int
            }) && k <= 8_192
            &&& reuse && !env.module_kernel(backend) ==> q == k
            &&& reuse && env.module_kernel(backend) ==> k <= q || env.non_fusion_module_kernel(backend)
            &&& env.module_kernel(backend) && !env.non_fusion_module_kernel(backend) ==> q <= cap
                && k <= cap && q <= query_chunk_cap(batch, heads, tokens, budget)
            &&& !env.module_kernel(backend) && !reuse && budget / bytes_per_logit(batch, heads)
                >= 2_048 * 8_192 ==> q == 2_048 && k == 8_192
        }),
{
    let b = attn_logits_budget(env) / bytes_per_logit(batch, heads);
    if b >= 2_048 * 8_192 {
        assert(b / 8_192 >= 2_048 && b / 2_048 >= 8_192);
    }
}

/// Projections of two conditions can be stacked exactly where both or neither
/// are laid out for the module kernel, in one format.
pub proof fn projections_of_one_layout_can_be_stacked<T>(
    pos: CrossAttentionProjectedKv<T>,
    neg: CrossAttentionProjectedKv<T>,
)
    ensures
        joinable(pos, neg) <==> pos.module_dtype == neg.module_dtype && (pos.module_k is Some
            <==> neg.module_k is Some) && (pos.module_v is Some <==> neg.module_v is Some),
{
}

// ---------------------------------------------------------------------------
// Runs
// ---------------------------------------------------------------------------

/// With the WGPU runtime no step stays announced after a run; what was
/// announced before stays without it, and where the run announced nothing.
pub proof fn nothing_stays_announced(wgpu: bool, before: Option<SamplerStep>)
    ensures
        step_after_run(true, before) is None,
        step_after_run(false, before) == before,
        step_afterwards(true, before, true) is None,
        step_afterwards(false, before, true) == before,
        step_afterwards(wgpu, before, false) == before,
{
}

/// Without snapshots nothing is captured; with them dense runs capture every
/// step, and runs over rows the first, the middle and the last one.
pub proof fn snapshots_decide_what_is_captured(snapshots: bool)
    ensures
        dense_capture(snapshots) == Capture::Off <==> !snapshots,
        dense_capture(snapshots) == Capture::All <==> snapshots,
        row_capture(snapshots) == Capture::Off <==> !snapshots,
        row_capture(snapshots) == Capture::Ends <==> snapshots,
{
}

/// Parts of a trace go by their own names.
pub proof fn parts_go_by_their_names()
    ensures
        part_label(0) == "samples"@,
        part_label(1) == "step_0_pred_v"@,
        part_label(2) == "step_0_pred_v_pos"@,
        part_label(3) == "step_0_pred_v_neg"@,
        part_label(4) == "step_0_x_t"@,
        part_label(5) == "step_mid_x_t"@,
        part_label(6) == "step_last_x_t"@,
{
}

/// The device is waited for after decoding exactly where the fence is on, the
/// WGPU runtime is compiled in and a decoder dispatched anything to it.
pub proof fn decoding_is_fenced_where_anything_was_dispatched<F, U, M>(
    run: RunRequest,
    decoded: DecodedLatentOutput<F, U, M>,
)
    ensures
        decode_waits(run, decoded) <==> run.run_config.runtime_stage_fence && run.wgpu && !(
        decoded.timings.shape_wgpu_dispatches == 0 && decoded.timings.tex_wgpu_dispatches == 0),
{
}

/// Where nothing is waited for, a stage does not fail; where the device is
/// waited for, it fails exactly as the wait does.
pub proof fn stages_fail_as_their_fence_does<G>(
    stage: Seq<char>,
    sync: G,
    out: Result<(), String>,
) where G: FnOnce() -> Result<(), String>
    ensures
        sync_outcome(stage, false, sync, out) <==> out is Ok,
        sync_outcome(stage, true, sync, out) && out is Ok ==> call_ensures(
            sync,
            (),
            Ok::<(), String>(()),
        ),
        sync_outcome(stage, true, sync, out) && out is Err ==> exists|error: String| #[trigger]
            call_ensures(sync, (), Err::<(), String>(error)),
{
}

// ---------------------------------------------------------------------------
// Names
// ---------------------------------------------------------------------------

/// A backend is told by the name of its type: one that names WGPU, behind
/// fusion where that is named too, and the CPU otherwise.
pub proof fn backends_are_told_by_their_types(name: Seq<char>, i: int, j: int)
    ensures
        FlowBackend::named(name) == FlowBackend::Cpu <==> !occurs(name, "Wgpu"@) && !occurs(
            name,
            "cubecl_wgpu"@,
        ),
        (occurs_at(name, "Wgpu"@, i) || occurs_at(name, "cubecl_wgpu"@, i)) && occurs_at(
            name,
            "Fusion<"@,
            j,
        ) ==> FlowBackend::named(name) == FlowBackend::WgpuFusion,
        (occurs_at(name, "Wgpu"@, i) || occurs_at(name, "cubecl_wgpu"@, i)) && !occurs(
            name,
            "Fusion<"@,
        ) ==> FlowBackend::named(name) == FlowBackend::Wgpu,
{
}

/// The pipeline that the caller names is used, or else the default one.
pub proof fn callers_choose_the_pipeline(default: Seq<char>, name: &str)
    ensures
        requested_type(default, Some(name)) == name@,
        requested_type(default, None) == default,
{
}

/// The image model goes by the name that was given, without white space around
/// it; one of white space alone is no name.
pub proof fn image_models_go_by_their_trimmed_name(
    before: Seq<char>,
    core: Seq<char>,
    after: Seq<char>,
    name: String,
)
    requires
        forall|i: int| 0 <= i < before.len() ==> is_white_space(#[trigger] before[i]),
        forall|i: int| 0 <= i < after.len() ==> is_white_space(#[trigger] after[i]),
        core.len() > 0 ==> !is_white_space(core[0]) && !is_white_space(core.last()),
        name@ == before + core + after,
    ensures
        core.len() > 0 ==> image_model_name(Some(name)) == Some(core),
        core.len() == 0 ==> image_model_name(Some(name)) is None,
        image_model_name(None) is None,
{
    trimming_leaves_what_stands_between(before, core, after);
}

/// A second model is loaded ahead in the cascade to the middle resolution alone,
/// where it is the expected one and differs from the one in use in its
/// location, its stem, its backend or its resolution.
pub proof fn cascades_load_their_second_model(
    name: Seq<char>,
    selected: FlowSpecView,
    candidate: FlowSpecView,
    key: Seq<char>,
)
    ensures
        !preloads_variant(name, Some(selected), None, key),
        name != "1024_cascade"@ ==> !preloads_variant(name, Some(selected), Some(candidate), key),
        name == "1024_cascade"@ ==> (preloads_variant(name, None, Some(candidate), key)
            <==> candidate.flow_key == Some(key)),
        name == "1024_cascade"@ ==> (preloads_variant(name, Some(selected), Some(candidate), key)
            <==> candidate.flow_key == Some(key) && !(selected.weights_root
            == candidate.weights_root && selected.image_large_root == candidate.image_large_root
            && selected.model_stem == candidate.model_stem && selected.prefer_wgpu
            == candidate.prefer_wgpu && selected.slat_dense_resolution
            == candidate.slat_dense_resolution)),
{
}

/// A list of parts names another file where it names one at all, and that is
/// not the file at hand.
pub proof fn lists_name_their_file(
    before: Seq<char>,
    core: Seq<char>,
    after: Seq<char>,
    file: &str,
)
    requires
        forall|i: int| 0 <= i < before.len() ==> is_white_space(#[trigger] before[i]),
        forall|i: int| 0 <= i < after.len() ==> is_white_space(#[trigger] after[i]),
        core.len() > 0 ==> !is_white_space(core[0]) && !is_white_space(core.last()),
    ensures
        names_other_file(before + core + after, Some(file)) <==> core.len() > 0 && core != file@,
        !names_other_file(before + core + after, None),
{
    trimming_leaves_what_stands_between(before, core, after);
}

// ---------------------------------------------------------------------------
// Faults
// ---------------------------------------------------------------------------

/// An extraction is accepted exactly where the model gave the tokens and
/// channels that are needed, and a value for each channel of each token.
pub proof fn extractions_give_every_channel_of_every_token<F>(
    extraction: Extraction<F>,
    missing: Seq<char>,
    stage: Seq<char>,
    tokens: int,
    channels: int,
)
    requires
        0 <= tokens * channels <= usize::MAX,
    ensures
        extraction_fault(extraction, missing, stage, tokens, channels) is None <==> (
        extraction matches Extraction::Done(output) && output.token_count == tokens
            && output.channels == channels && output.values@.len() == tokens * channels),
{
}

/// Features of a decoder are accepted exactly where every row has all its
/// channels, of which there are six or more, and the rows are as many as
/// expected.
pub proof fn decoded_features_fill_their_rows(rows: usize, out_channels: int, len: int)
    requires
        out_channels >= 1,
        len >= 0,
    ensures
        tex_output_fault(rows as int, len, out_channels) is None <==> out_channels >= 6 && len
            == rows * out_channels,
        tex_attrs_fault(len, out_channels, Some(rows)) is None <==> out_channels >= 6 && len == rows
            * out_channels,
        tex_attrs_fault(len, out_channels, None) is None <==> out_channels >= 6 && exists|n: int|
            len == #[trigger] (n * out_channels),
{
    vstd::arithmetic::div_mod::lemma_fundamental_div_mod(len, out_channels);
    assert(out_channels * (len / out_channels) == (len / out_channels) * out_channels)
        by (nonlinear_arith);
    if len == rows * out_channels {
        vstd::arithmetic::div_mod::lemma_fundamental_div_mod_converse(
            len,
            out_channels,
            rows as int,
            0,
        );
    }
    if exists|n: int| len == #[trigger] (n * out_channels) {
        let n = choose|n: int| len == #[trigger] (n * out_channels);
        vstd::arithmetic::div_mod::lemma_fundamental_div_mod_converse(len, out_channels, n, 0);
    }
}

} // verus!
