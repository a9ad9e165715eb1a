//! How calls are cut up and which formats they use, stated of environment and
//! shape.
use crate::attention::dispatch_query_chunk;
use crate::cross_attention::{cache_estimated_bytes, cross_query_chunk};
use crate::feed_forward::{mlp_window, syncs_after};
use crate::flow_config::{head_count, SparseStructureFlowConfig};
use crate::flow_model::{prewarmed, tries_skinny};
use crate::kernels::{
    elementwise_call, fused_qkv_call, kernel_backend, modulated_norm_call, KernelCall,
    LinearF16CacheKey,
};
use crate::pipeline_config::{canonical_name, cascade_resolution, is_512_pipeline};
use crate::pipeline_load::{shape_flow_key_of, tex_flow_key_of};
use crate::pipeline_run::{requires_host_coords, stage_rows};
use crate::policy::{
    attention_form, attn_logits_budget, batched_cfg_enabled, batched_requires_stream,
    chunked_forward_for_backend, cross_attention_f16, cross_kv_cache_budget,
    cross_shape_requires_stream, estimated_peak_bytes, f16_chain, fast_linear_shape,
    linear_chunk_for_backend, logits_budget, mlp_chunk_for_backend, mlp_sync_interval,
    module_attention_dtype, module_chunk_cap_for_shape, plain_query_chunk, prefers_decomposed_norm,
    safe_query_cap, self_attention_f16, stream_reuse_qkv, torso_dtype, AttentionImpl, FloatDType,
    FlowBackend, FlowEnv,
};
use crate::routes::{fast_f16_serves, reference_route, rope_route_of, LinearRoute, RopeRoute};
use crate::runtime_access::RuntimeBackend;
use crate::sampling::{batched_route_of, progress_interval, BatchedCache};
use crate::sampling_runs::{dense_plan_of, dense_read_elements};
use crate::self_attention::{self_attention_path, SelfAttentionPath};
use crate::telemetry::wrapping_sum;
use crate::weight_parts::part_size_fits;
use crate::weight_store::{sparse_flow_store, StoreSource};
use crate::weights::{wgpu_fit_fault, LoadedFlow};
use vstd::prelude::*;

verus! {

// ---------------------------------------------------------------------------
// Kernels and formats
// ---------------------------------------------------------------------------

/// Module kernels run on every backend but the CPU, unless they are switched off
/// where they can be.
pub proof fn module_kernels_run_beside_the_cpu(env: FlowEnv, backend: FlowBackend)
    ensures
        !env.module_kernel(FlowBackend::Cpu),
        backend != FlowBackend::Cpu && env.debug.sparse_flow_module_attention
            ==> env.module_kernel(backend),
        backend != FlowBackend::Cpu && !env.wgpu ==> env.module_kernel(backend),
        env.wgpu && !env.debug.sparse_flow_module_attention ==> !env.module_kernel(backend),
        env.non_fusion_module_kernel(backend) <==> env.module_kernel(backend) && backend
            == FlowBackend::Wgpu,
        kernel_backend(env, backend) <==> env.wgpu && backend == FlowBackend::Wgpu,
{
}

/// Half precision is used where its own switch has it: by linear layers, by the
/// blocks between them, and by each kind of attention.
pub proof fn half_precision_follows_its_own_switch(env: FlowEnv, backend: FlowBackend)
    ensures
        env.linear_f16() <==> env.wgpu && env.debug.sparse_flow_linear_f16,
        env.native_linear_f16() <==> env.wgpu && env.debug.sparse_flow_linear_f16 && !env.wasm32,
        env.wgpu ==> self_attention_f16(env) == env.self_attention_f16 && cross_attention_f16(env)
            == env.cross_attention_f16,
        !env.wgpu ==> self_attention_f16(env) == env.debug.sparse_flow_module_attention_f16
            && cross_attention_f16(env) == env.debug.sparse_flow_module_attention_f16,
        torso_dtype(env, backend) is Some <==> env.wgpu && backend == FlowBackend::Wgpu
            && env.debug.sparse_flow_module_attention && env.debug.sparse_flow_torso_f16,
        torso_dtype(env, backend) is Some ==> torso_dtype(env, backend) == Some(FloatDType::F16),
        batched_cfg_enabled(env, backend) <==> env.wgpu && backend == FlowBackend::Wgpu
            && env.debug.sparse_flow_module_attention && env.batched_cfg
            && env.debug.sparse_flow_module_attention_f16,
        cross_kv_cache_budget(env, backend) != 0 <==> env.wgpu && backend == FlowBackend::Wgpu
            && env.debug.sparse_flow_module_attention,
        cross_kv_cache_budget(env, backend) == 0 || cross_kv_cache_budget(env, backend) == 3 * 1024
            * 1024 * 1024,
{
}

/// Module attention runs in half precision where that is asked for and the keys
/// are at most 8192, or more than 21504 with heads of 64 or 128 channels; not
/// with long keys under sixteen or more heads of 64 channels, unless half
/// precision is on throughout.
pub proof fn module_attention_formats(
    env: FlowEnv,
    batch: int,
    heads: int,
    keys: int,
    head_dim: int,
    asked: bool,
)
    ensures
        ({
            let dtype = module_attention_dtype(env, batch, heads, keys, head_dim, asked);
            &&& dtype == FloatDType::F16 || dtype == FloatDType::F32
            &&& !asked ==> dtype == FloatDType::F32
            &&& asked && keys <= 8_192 ==> dtype == FloatDType::F16
            &&& asked && 8_192 < keys <= 21_504 ==> dtype == FloatDType::F32
            &&& asked && keys > 21_504 && head_dim == 128 ==> dtype == FloatDType::F16
            &&& asked && keys > 21_504 && head_dim == 64 ==> (dtype == FloatDType::F16 <==> batch
                * heads < 16 || env.debug.sparse_flow_module_attention_f16)
            &&& asked && keys > 21_504 && head_dim != 64 && head_dim != 128 ==> dtype
                == FloatDType::F32
        }),
        batched_requires_stream(batch, head_dim) <==> batch > 1 && head_dim == 128,
{
}

/// Cross-attention is streamed where heads of 128 channels ask more queries than
/// there are keys, of which there are at most 8192, in single precision.
pub proof fn wide_heads_stream_short_keys(
    env: FlowEnv,
    batch: int,
    heads: int,
    queries: int,
    keys: int,
    head_dim: int,
)
    ensures
        cross_shape_requires_stream(env, batch, heads, queries, keys, head_dim) <==> head_dim == 128
            && queries > keys && keys <= 8_192 && !(if env.wgpu {
            env.cross_attention_f16
        } else {
            env.debug.sparse_flow_module_attention_f16
        }),
{
}

// ---------------------------------------------------------------------------
// Chunks
// ---------------------------------------------------------------------------

/// Calls are cut up only where the WGPU runtime is compiled in, from 2048 tokens
/// on; with module kernels outside a browser, behind 8192.
pub proof fn long_calls_are_cut_up(env: FlowEnv, backend: FlowBackend, tokens: int, channels: int)
    ensures
        chunked_forward_for_backend(env, backend, tokens) ==> env.wgpu && tokens >= 2_048,
        env.wgpu && tokens > 8_192 ==> chunked_forward_for_backend(env, backend, tokens),
        env.wgpu && tokens >= 2_048 && env.wasm32 ==> chunked_forward_for_backend(
            env,
            backend,
            tokens,
        ),
        env.wgpu && tokens >= 2_048 && !env.module_kernel(backend) ==> chunked_forward_for_backend(
            env,
            backend,
            tokens,
        ),
        env.module_kernel(backend) && !env.wasm32 && tokens <= 8_192
            ==> !chunked_forward_for_backend(env, backend, tokens),
        self_attention_path(env, backend, tokens, channels) == SelfAttentionPath::Whole
            <==> !chunked_forward_for_backend(env, backend, tokens),
        self_attention_path(env, backend, tokens, channels) == SelfAttentionPath::ChunkedStream
            ==> !env.module_kernel(backend),
        self_attention_path(env, backend, tokens, channels) == SelfAttentionPath::FullProjection
            ==> env.non_fusion_module_kernel(backend) && tokens >= 16_384,
        tokens >= 0 && channels >= 0 ==> (stream_reuse_qkv(env, tokens, channels) <==> env.wgpu
            && tokens >= 2_048 && (4 * (tokens * channels) <= 6_442_450_944 || usize::MAX
            <= 6_442_450_944)),
{
    assert(tokens * channels * 4 == 4 * (tokens * channels));
}

/// Chunks of linear layers and of the MLP hold at least one token and no more
/// than there are, and uncut calls hold all of them.
pub proof fn linear_chunks_stay_within_the_call(env: FlowEnv, backend: FlowBackend, tokens: int)
    requires
        tokens >= 1,
    ensures
        1 <= linear_chunk_for_backend(env, backend, tokens) <= tokens,
        1 <= mlp_chunk_for_backend(env, backend, tokens) <= tokens,
        linear_chunk_for_backend(env, backend, tokens) <= 32_768,
        !env.wgpu && tokens <= 32_768 && backend == FlowBackend::Cpu
            ==> linear_chunk_for_backend(env, backend, tokens) == tokens,
        !env.wgpu && tokens <= 65_536 && backend == FlowBackend::Cpu ==> mlp_chunk_for_backend(
            env,
            backend,
            tokens,
        ) == tokens,
        env.wgpu && backend == FlowBackend::Cpu && tokens >= 8_192 ==> linear_chunk_for_backend(
            env,
            backend,
            tokens,
        ) == 8_192 && mlp_chunk_for_backend(env, backend, tokens) == 2_048,
        env.wgpu && env.debug.sparse_flow_module_attention && backend == FlowBackend::Wgpu && tokens
            >= 32_768 && !env.wasm32 && env.debug.sparse_flow_linear_f16
            ==> linear_chunk_for_backend(env, backend, tokens) == 32_768 && mlp_chunk_for_backend(
            env,
            backend,
            tokens,
        ) == 32_768,
        env.wgpu && env.debug.sparse_flow_module_attention && backend == FlowBackend::Wgpu && tokens
            >= 32_768 && !env.wasm32 && !env.debug.sparse_flow_linear_f16
            ==> linear_chunk_for_backend(env, backend, tokens) == 16_384 && mlp_chunk_for_backend(
            env,
            backend,
            tokens,
        ) == 8_192,
        env.wgpu && env.debug.sparse_flow_module_attention && backend == FlowBackend::Wgpu && tokens
            >= 32_768 && env.wasm32 ==> linear_chunk_for_backend(env, backend, tokens) == 16_384
            && mlp_chunk_for_backend(env, backend, tokens) == 4_096,
{
}

/// Queries of one module call: all of them below 16384; with more than 21504
/// keys 12288 at most, and with more than 21504 queries 49152 at most.
pub proof fn module_calls_are_capped(env: FlowEnv, queries: int, keys: int, head_dim: int)
    requires
        queries >= 1,
    ensures
        ({
            let cap = module_chunk_cap_for_shape(env, queries, keys, head_dim);
            &&& cap >= 1
            &&& keys > 21_504 ==> cap == (if queries < 12_288 {
                queries
            } else {
                12_288
            })
            &&& keys <= 21_504 && queries < 16_384 ==> cap == queries
            &&& keys <= 21_504 && 16_384 <= queries <= 21_504 ==> cap == (if env.wasm32 {
                8_192int
            } else {
                16_384int
            })
            &&& keys <= 21_504 && queries > 21_504 ==> cap == (if queries < 49_152 {
                queries
            } else {
                49_152
            })
            &&& safe_query_cap(env, queries, keys, head_dim) is Some <==> keys > 21_504 && queries
                > 12_288
            &&& safe_query_cap(env, queries, keys, head_dim) matches Some(c) ==> c == 12_288
        }),
{
}

/// Plain attention runs in one pass over the keys for few pairs and streams over
/// them for many: from 4096 pairs on with the WGPU runtime, from 262144 on in
/// any case.
pub proof fn plain_attention_streams_many_pairs(env: FlowEnv, queries: int, keys: int)
    requires
        queries >= 0,
        keys >= 0,
    ensures
        queries * keys >= 262_144 ==> attention_form(env, queries, keys) == AttentionImpl::Stream,
        env.wgpu && queries * keys >= 4_096 ==> attention_form(env, queries, keys)
            == AttentionImpl::Stream,
        queries * keys < 4_096 || !env.wgpu && queries * keys < 262_144 ==> attention_form(
            env,
            queries,
            keys,
        ) == AttentionImpl::Dense,
        !env.wgpu ==> attn_logits_budget(env) == 2 * 1024 * 1024 * 1024 && logits_budget(env)
            == usize::MAX,
        env.wgpu && env.wasm32 ==> attn_logits_budget(env) == 128 * 1024 * 1024 && logits_budget(
            env,
        ) == 128 * 1024 * 1024,
        env.wgpu && !env.wasm32 ==> attn_logits_budget(env) == 3 * 1024 * 1024 * 1024
            && logits_budget(env) == 1024 * 1024 * 1024,
{
}

/// Linear layers take their fast kernel from 1024 rows and 64 channels on, the
/// MLP stays in half precision where both its layers do and fit together, and
/// few input channels have a kernel of their own.
pub proof fn fast_kernels_have_their_shapes(
    env: FlowEnv,
    backend: FlowBackend,
    rows: int,
    in_channels: int,
    hidden: int,
    out_channels: int,
)
    ensures
        fast_linear_shape(rows, in_channels, out_channels) <==> rows >= 1_024 && in_channels >= 64
            && out_channels >= 64,
        f16_chain(env, backend, in_channels, hidden, hidden, out_channels) <==> env.wgpu
            && env.debug.sparse_flow_linear_f16 && env.debug.sparse_flow_module_attention && backend
            == FlowBackend::Wgpu && in_channels >= 64 && hidden >= 64 && out_channels >= 64,
        forall|other: int|
            other != hidden ==> !#[trigger] f16_chain(
                env,
                backend,
                in_channels,
                hidden,
                other,
                out_channels,
            ),
        tries_skinny(env, backend, rows, in_channels, out_channels) <==> env.wgpu
            && env.debug.sparse_flow_linear_f16 && env.debug.sparse_flow_module_attention && backend
            == FlowBackend::Wgpu && rows >= 1_024 && in_channels <= 64 && out_channels >= 256,
{
}

/// The device is synchronized after every sixteenth chunk of the MLP on WGPU,
/// after every eighth behind fusion, and never on the CPU.
pub proof fn mlp_chunks_are_synchronized_regularly(env: FlowEnv, idx: int)
    requires
        0 <= idx,
    ensures
        env.module_kernel(FlowBackend::Wgpu) ==> (syncs_after(
            mlp_sync_interval(env, FlowBackend::Wgpu),
            idx,
        ) <==> (idx + 1) % 16 == 0),
        env.module_kernel(FlowBackend::WgpuFusion) ==> (syncs_after(
            mlp_sync_interval(env, FlowBackend::WgpuFusion),
            idx,
        ) <==> (idx + 1) % 8 == 0),
        !syncs_after(mlp_sync_interval(env, FlowBackend::Cpu), idx),
{
}

// ---------------------------------------------------------------------------
// Names and small shapes
// ---------------------------------------------------------------------------

/// Two pipelines stay at the lower resolution, two refine shapes in two rounds.
pub proof fn pipelines_are_told_by_name()
    ensures
        is_512_pipeline("512"@) && is_512_pipeline("512_base"@),
        forall|name: Seq<char>| #[trigger]
            is_512_pipeline(name) ==> name == "512"@ || name == "512_base"@,
        cascade_resolution("1024_cascade"@) == Some(1024usize),
        cascade_resolution("1536_cascade"@) == Some(1536usize),
        forall|name: Seq<char>|
            (#[trigger] cascade_resolution(name)) is Some ==> name == "1024_cascade"@ || name
                == "1536_cascade"@,
        canonical_name("512"@) == "512_base"@,
        canonical_name("1024_single"@) == "1024"@,
        forall|name: Seq<char>|
            name != "512"@ && name != "1024_single"@ ==> #[trigger] canonical_name(name) == name,
{
    reveal_strlit("512");
    reveal_strlit("1024_single");
    reveal_strlit("1024_cascade");
    reveal_strlit("1536_cascade");
    assert("512"@.len() == 3 && "1024_single"@.len() == 11);
    assert("1024_cascade"@[1] == '0' && "1536_cascade"@[1] == '5');
}

/// A model without a number of heads has as many as heads of the given width
/// fill its channels, and at least one.
pub proof fn heads_fill_the_channels(heads: int, width: int, given: usize)
    requires
        heads >= 1,
        width >= 1,
    ensures
        head_count(None, heads * width, width) == heads,
        given >= 1 ==> head_count(Some(given), heads * width, width) == given,
        head_count(Some(0), heads * width, width) == 1,
{
    vstd::arithmetic::div_mod::lemma_fundamental_div_mod_converse(heads * width, width, heads, 0);
}

/// A dense sample has a place for every voxel of the grid, the channels that come
/// out, and the channels of its concatenated condition.
pub proof fn dense_samples_are_planned_by_the_grid<F>(
    config: SparseStructureFlowConfig<F>,
    channels: usize,
    len: usize,
)
    requires
        config.resolution * config.resolution * config.resolution <= usize::MAX,
        config.resolution > 0,
        len == channels * (config.resolution * config.resolution * config.resolution),
    ensures
        dense_plan_of(config, None).voxel == config.resolution * config.resolution
            * config.resolution,
        dense_plan_of(config, None).state_channels == config.out_channels,
        dense_plan_of(config, None).concat_channels == 0,
        dense_plan_of(config, Some(len)).concat_channels == channels,
        dense_plan_of(config, Some(len)).state_channels == config.out_channels,
{
    let v = config.resolution * config.resolution * config.resolution;
    assert(v > 0) by (nonlinear_arith)
        requires
            config.resolution > 0,
            v == config.resolution * config.resolution * config.resolution,
    ;
    vstd::arithmetic::div_mod::lemma_fundamental_div_mod_converse(
        len as int,
        v,
        channels as int,
        0,
    );
}

/// Stages report the rows on the host, or else those on the device.
pub proof fn stages_report_their_rows(host: int, coords: usize, features: usize, fallback: int)
    requires
        host >= 0,
    ensures
        host > 0 ==> stage_rows(host, true, Some(coords), Some(features), fallback) == host,
        stage_rows(0, true, Some(coords), Some(features), fallback) == coords,
        stage_rows(0, true, None, Some(features), fallback) == features,
        stage_rows(0, true, None, None, fallback) == fallback,
        stage_rows(0, false, Some(coords), Some(features), fallback) == fallback,
{
}

/// Kernels that work element by element are launched where they are available
/// and there is anything to work on.
pub proof fn kernels_are_launched_on_what_there_is(dims: Seq<usize>, a: usize, b: usize, c: usize, d: usize)
    ensures
        elementwise_call(false, dims) is Unavailable,
        dims.contains(0) ==> elementwise_call(true, dims) is Unchanged,
        !dims.contains(0) ==> elementwise_call(true, dims) is Launch,
        a > 0 && b > 0 && c > 0 && d > 0 ==> fused_qkv_call(true, 3, (a, b, c, d)) is Launch,
        a > 0 && b > 0 && c > 0 && d > 0 ==> fused_qkv_call(true, 2, (a, b, c, d)) is Unavailable,
        a == 0 ==> fused_qkv_call(true, 3, (a, b, c, d)) == (KernelCall::Zeros {
            dims: (a, b, c, d),
        }),
        fused_qkv_call(false, 3, (a, b, c, d)) is Unavailable,
{
    if dims.contains(0) {
        let i = choose|i: int| 0 <= i < dims.len() && dims[i] == 0;
        assert(dims[i] == 0);
    }
    let s = seq![a, b, c, d];
    assert(s[0] == a && s[1] == b && s[2] == c && s[3] == d);
}

/// Weights from PyTorch are read in full and checked, under rules that rename
/// the two layers of every MLP, the modulation, and gain and bias of the affine
/// norm.
pub proof fn stores_read_weights_in_full(source: StoreSource)
    ensures
        ({
            let s = sparse_flow_store(source);
            let rules = s.rules;
            &&& s.source == source
            &&& s.from_pytorch
            &&& !s.allow_partial
            &&& s.validate
            &&& rules.len() == 7
            &&& rules[0] == ("^(t_embedder)\\.mlp\\.0\\.(weight|bias)$"@, "$1.mlp_0.$2"@)
            &&& rules[1] == ("^(t_embedder)\\.mlp\\.2\\.(weight|bias)$"@, "$1.mlp_2.$2"@)
            &&& rules[2] == (
                "^(adaLN_modulation)\\.1\\.(weight|bias)$"@,
                "ada_ln_modulation.$2"@,
            )
            &&& rules[3] == (
                "^(blocks\\.\\d+\\.mlp)\\.mlp\\.0\\.(weight|bias)$"@,
                "$1.mlp_0.$2"@,
            )
            &&& rules[4] == (
                "^(blocks\\.\\d+\\.mlp)\\.mlp\\.2\\.(weight|bias)$"@,
                "$1.mlp_2.$2"@,
            )
            &&& rules[5] == ("^(blocks\\.\\d+\\.norm2)\\.weight$"@, "$1.gamma"@)
            &&& rules[6] == ("^(blocks\\.\\d+\\.norm2)\\.bias$"@, "$1.beta"@)
        }),
{
}

/// The memory that a model needs at its peak grows with the voxels of its grid
/// and the widest of its layers, at four bytes a number.
pub proof fn peaks_grow_with_grid_and_width(resolution: int, channels: int, mlp: int)
    requires
        resolution >= 0,
        channels >= 0,
        mlp >= 0,
    ensures
        ({
            let widest = if mlp < 3 * channels {
                3 * channels
            } else {
                mlp
            };
            resolution * resolution * resolution * widest * 4 <= usize::MAX && resolution
                * resolution * resolution <= usize::MAX && 3 * channels <= usize::MAX
                ==> estimated_peak_bytes(resolution, channels, mlp) == resolution * resolution
                * resolution * widest * 4
        }),
{
}

// ---------------------------------------------------------------------------
// Routes
// ---------------------------------------------------------------------------

/// Tokens with coordinates are rotated by the rows of exactly these tokens, by
/// the kernel where it is switched on; tokens without coordinates by their grid.
pub proof fn rotations_read_their_own_rows(
    env: FlowEnv,
    backend: FlowBackend,
    tokens: usize,
    head_dim: usize,
    dims: (usize, usize),
    first: usize,
)
    requires
        first + tokens <= dims.0,
    ensures
        tokens == 0 || head_dim < 2 ==> rope_route_of(
            env,
            backend,
            tokens,
            head_dim,
            Some(dims),
            first,
        ) == RopeRoute::Unrotated,
        tokens > 0 && head_dim >= 2 ==> match rope_route_of(
            env,
            backend,
            tokens,
            head_dim,
            Some(dims),
            first,
        ) {
            RopeRoute::CoordKernel { start, end } => start == first && end - start == tokens
                && env.wgpu && backend == FlowBackend::Wgpu
                && env.debug.sparse_flow_coord_rope_kernel,
            RopeRoute::CoordPhase { start, end, kernel } => start == first && end - start == tokens
                && (kernel <==> env.wgpu && backend == FlowBackend::Wgpu) && !(kernel
                && env.debug.sparse_flow_coord_rope_kernel),
            _ => false,
        },
        tokens > 0 && head_dim >= 2 ==> rope_route_of(
            env,
            backend,
            tokens,
            head_dim,
            None,
            first,
        ) == (RopeRoute::Grid { kernel: env.wgpu && backend == FlowBackend::Wgpu }),
{
}

/// The reference form of a linear layer multiplies in the format of its input,
/// brain floats in single precision.
pub proof fn linear_layers_multiply_in_the_format_of_their_input(
    env: FlowEnv,
    backend: FlowBackend,
    dtype: FloatDType,
    emulate: bool,
    rows: int,
    in_channels: int,
    out_channels: int,
)
    ensures
        reference_route(env, backend, dtype, emulate) matches LinearRoute::Reference {
            matmul,
            plain_kernel,
            rounded,
        } && (dtype != FloatDType::BF16 ==> matmul == dtype) && (dtype == FloatDType::BF16 ==> matmul
            == FloatDType::F32) && (plain_kernel <==> env.wgpu && backend == FlowBackend::Wgpu
            && env.wasm32) && (rounded <==> emulate && env.debug.sparse_flow_stock_bf16_emulation
            && env.wgpu && backend == FlowBackend::Wgpu),
        fast_f16_serves(env, backend, rows, in_channels, out_channels) <==> env.wgpu
            && env.debug.sparse_flow_linear_f16 && env.debug.sparse_flow_module_attention && backend
            == FlowBackend::Wgpu && rows >= 1_024 && in_channels >= 64 && out_channels >= 64,
{
}

/// Wide layers over many tokens are normalized step by step in single precision
/// on WGPU; then no kernel modulates them, and without that it does where there
/// is one.
pub proof fn norms_are_decomposed_for_wide_layers(
    env: FlowEnv,
    backend: FlowBackend,
    dtype: FloatDType,
    batch: int,
    tokens: int,
    channels: int,
    dims: Seq<usize>,
)
    ensures
        prefers_decomposed_norm(env, backend, dtype, batch, tokens, channels)
            <==> env.module_kernel(backend) && backend == FlowBackend::Wgpu && dtype
            == FloatDType::F32 && channels >= 1_024 && batch * tokens >= 1_024,
        modulated_norm_call(env, backend, true, true, dims) is Unavailable,
        modulated_norm_call(env, backend, false, false, dims) is Unavailable,
        modulated_norm_call(env, backend, true, false, dims) is Launch <==> env.wgpu && backend
            == FlowBackend::Wgpu && !dims.contains(0),
{
    if dims.contains(0) {
        let i = choose|i: int| 0 <= i < dims.len() && dims[i] == 0;
        assert(dims[i] == 0);
    }
}

/// Both branches of the guidance run as one batch only where that is on, with
/// their caches both there or both absent.
pub proof fn branches_are_batched_with_their_caches(pos: bool, neg: bool, given: bool, joins: bool)
    ensures
        batched_route_of(false, pos, neg, given, joins) is None,
        batched_route_of(true, pos, neg, true, joins) == Some(BatchedCache::Given),
        batched_route_of(true, true, true, false, true) == Some(BatchedCache::Joined),
        batched_route_of(true, true, true, false, false) is None,
        batched_route_of(true, false, false, false, joins) == Some(BatchedCache::Stacked),
        pos != neg ==> batched_route_of(true, pos, neg, false, joins) is None,
{
}

/// Coordinates are needed on the host by cascades alone, and not where a model
/// on WGPU keeps them on the device.
pub proof fn cascades_need_coordinates(wgpu: bool, backend: Option<RuntimeBackend>)
    ensures
        !requires_host_coords(false, wgpu, backend),
        requires_host_coords(true, false, backend),
        !requires_host_coords(true, true, Some(RuntimeBackend::Wgpu)),
        backend != Some(RuntimeBackend::Wgpu) ==> requires_host_coords(true, true, backend),
{
}

/// Every step of a short run is shown; of a long one about every eighth part.
pub proof fn progress_is_shown_in_eighths(steps: int)
    requires
        steps >= 0,
    ensures
        steps <= 16 ==> progress_interval(steps) == 1,
        steps > 16 ==> 8 * progress_interval(steps) <= steps < 8 * progress_interval(steps) + 8,
{
}

// ---------------------------------------------------------------------------
// Chunks of attention and feed-forward
// ---------------------------------------------------------------------------

/// A chunk of queries holds at least one of them and never more than there are,
/// however attention is dispatched.
pub proof fn query_chunks_stay_within_the_call(
    env: FlowEnv,
    backend: FlowBackend,
    batch: int,
    heads: int,
    queries: int,
    keys: int,
    head_dim: int,
    chunk: int,
)
    requires
        queries >= 1,
        chunk >= 1,
    ensures
        1 <= dispatch_query_chunk(env, backend, batch, heads, queries, keys, head_dim) <= queries,
        1 <= plain_query_chunk(env, queries, chunk) <= queries,
        plain_query_chunk(env, queries, chunk) <= chunk,
        env.wgpu && !env.wasm32 && chunk >= 1_024 && queries >= 1_024 ==> plain_query_chunk(
            env,
            queries,
            chunk,
        ) == 1_024,
        env.wgpu && env.wasm32 && chunk >= 256 && queries >= 256 ==> plain_query_chunk(
            env,
            queries,
            chunk,
        ) == 256,
        !env.wgpu && chunk <= queries && chunk <= usize::MAX ==> plain_query_chunk(
            env,
            queries,
            chunk,
        ) == chunk,
        backend == FlowBackend::Cpu && env.wgpu && queries >= 2_048 ==> cross_query_chunk(
            env,
            backend,
            batch,
            heads,
            queries,
            keys,
            head_dim,
        ) == 2_048,
        backend == FlowBackend::Cpu && queries < 2_048 ==> cross_query_chunk(
            env,
            backend,
            batch,
            heads,
            queries,
            keys,
            head_dim,
        ) == queries,
{
}

/// The MLP works in windows of 32768 rows, or of a chunk where that is larger,
/// but of no more rows than there are.
pub proof fn mlp_windows_hold_whole_chunks(rows: int, chunk: int)
    requires
        rows >= 1,
        1 <= chunk <= rows,
    ensures
        chunk <= mlp_window(rows, chunk) <= rows,
        rows <= 32_768 ==> mlp_window(rows, chunk) == rows,
        rows > 32_768 && chunk <= 32_768 ==> mlp_window(rows, chunk) == 32_768,
        chunk > 32_768 ==> mlp_window(rows, chunk) == chunk,
{
}

/// A cache of keys and values holds both for every token of the condition, in
/// every block and for every condition, at four bytes a number.
pub proof fn caches_hold_keys_and_values(
    batches: int,
    tokens: int,
    channels: int,
    blocks: int,
    conditions: int,
)
    requires
        batches >= 1,
        tokens >= 1,
        channels >= 1,
        blocks >= 1,
        conditions >= 1,
        batches * tokens * channels * 2 * blocks * conditions * 4 <= usize::MAX,
    ensures
        cache_estimated_bytes(batches, tokens, channels, blocks, conditions) == batches * tokens
            * channels * 2 * blocks * conditions * 4,
{
    let p1 = batches * tokens;
    let p2 = p1 * channels;
    let p3 = p2 * 2;
    let p4 = p3 * blocks;
    let p5 = p4 * conditions;
    assert(1 <= p1) by (nonlinear_arith)
        requires
            batches >= 1,
            tokens >= 1,
            p1 == batches * tokens,
    ;
    assert(p1 <= p2) by (nonlinear_arith)
        requires
            1 <= p1,
            channels >= 1,
            p2 == p1 * channels,
    ;
    assert(p3 <= p4) by (nonlinear_arith)
        requires
            1 <= p3,
            blocks >= 1,
            p4 == p3 * blocks,
    ;
    assert(p4 <= p5) by (nonlinear_arith)
        requires
            1 <= p4,
            conditions >= 1,
            p5 == p4 * conditions,
    ;
}

// ---------------------------------------------------------------------------
// Models and counters
// ---------------------------------------------------------------------------

/// The two pipelines at the lower resolution use its models for shape and
/// texture, every other pipeline those of the higher one.
pub proof fn pipelines_use_models_of_their_resolution(name: Seq<char>)
    ensures
        name == "512"@ || name == "512_base"@ ==> shape_flow_key_of(name)
            == "shape_slat_flow_model_512"@ && tex_flow_key_of(name) == "tex_slat_flow_model_512"@,
        name != "512"@ && name != "512_base"@ ==> shape_flow_key_of(name)
            == "shape_slat_flow_model_1024"@ && tex_flow_key_of(name)
            == "tex_slat_flow_model_1024"@,
{
}

/// A model is refused on WGPU exactly where it needs more than three gibibytes
/// at its peak and its grid is too small to be worked on in chunks, or the
/// runtime for that is not compiled in.
pub proof fn models_that_do_not_fit_are_refused<M>(
    env: FlowEnv,
    loaded: LoadedFlow<M>,
    stem: Seq<char>,
)
    requires
        loaded.resolution * loaded.resolution * loaded.resolution <= usize::MAX,
        loaded.resolution * loaded.resolution <= usize::MAX,
    ensures
        wgpu_fit_fault(env, loaded, stem) is Some <==> estimated_peak_bytes(
            loaded.resolution as int,
            loaded.model_channels as int,
            loaded.mlp_channels as int,
        ) > 3 * 1024 * 1024 * 1024 && (!env.wgpu || loaded.resolution * loaded.resolution
            * loaded.resolution < 2_048),
{
    let r = loaded.resolution as int;
    assert(0 <= r * r && 0 <= r * r * r) by (nonlinear_arith)
        requires
            r >= 0,
    ;
}

/// Prewarming counts the layers that have input and output, each time they
/// come.
pub proof fn prewarming_counts_layers_with_channels(
    layers: Seq<LinearF16CacheKey>,
    layer: LinearF16CacheKey,
)
    ensures
        prewarmed(Seq::empty()) == 0,
        layer.in_channels > 0 && layer.out_channels > 0 ==> prewarmed(layers.push(layer))
            == prewarmed(layers) + 1,
        layer.in_channels == 0 || layer.out_channels == 0 ==> prewarmed(layers.push(layer))
            == prewarmed(layers),
{
    assert(layers.push(layer).drop_last() == layers);
}

/// A trace with snapshots reads seven segments and two more for each step, one
/// without them the samples alone.
pub proof fn dense_reads_count_their_segments(segment: int, steps: int)
    requires
        segment >= 0,
        steps >= 0,
    ensures
        dense_read_elements(segment, steps, true, segment) == 7 * segment + 2 * (steps * segment),
        dense_read_elements(segment, steps, false, segment) == segment,
{
    assert((7 + 2 * steps) * segment == 7 * segment + 2 * (steps * segment)) by (nonlinear_arith);
}

/// Counters add up until they wrap around.
pub proof fn counters_add_up(a: u64, b: u64)
    ensures
        a + b <= u64::MAX ==> wrapping_sum(a, b) == a + b,
        a + b > u64::MAX ==> wrapping_sum(a, b) == a + b - u64::MAX - 1,
{
}

/// A part has the size that is listed for it, with at most 256 bytes of padding
/// or within its payload; one listed without a size has any.
pub proof fn parts_have_their_listed_size(listed: int, file: int, payload: int)
    requires
        listed >= 0,
    ensures
        part_size_fits(0, file, payload),
        part_size_fits(listed, listed, payload),
        part_size_fits(listed, file, listed),
        listed > 0 && payload != listed ==> (part_size_fits(listed, file, payload) <==> 0 <= file
            - listed <= 256),
{
}

} // verus!
