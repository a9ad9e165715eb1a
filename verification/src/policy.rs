//! Chunk sizes, kernel choices and number formats for sparse-flow inference.
//!
//! Every decision is a function of the build, the runtime toggles, the tensor
//! backend and the shape at hand, all of them plain values.
use crate::arith::{
    imax, imin, lemma_mul_within_quotient, lemma_quotient_at_most, lemma_sat_mul, max_usize,
    min_usize, sat, saturating_mul,
};
use crate::roots::{floor_root, integer_sqrt, isqrt, lemma_isqrt};
use vstd::prelude::*;

verus! {

/// Key length above which module attention is a long-key call.
pub const SPARSE_FLOW_MODULE_ATTENTION_LONG_K_FALLBACK_SEQ_KV: usize = 21_504;

/// Query cap of long-key module attention.
pub const SPARSE_FLOW_MODULE_ATTENTION_LONG_K_QUERY_CHUNK: usize = 12_288;

/// Query cap of long-key module attention with a head dimension of 128.
pub const SPARSE_FLOW_MODULE_ATTENTION_LONG_K_HEAD_DIM_128_QUERY_CHUNK: usize = 12_288;

/// Query cap of module attention with many queries over short keys.
pub const SPARSE_FLOW_MODULE_ATTENTION_VERIFIED_LONG_QUERY_CHUNK: usize = 49_152;

/// Longest key sequence for which half-precision module attention is always in order.
pub const SPARSE_FLOW_MODULE_ATTENTION_F16_MAX_KEY_TOKENS: usize = 8_192;

/// Whether narrow input projections may use the dedicated WGPU kernel.
pub const SPARSE_FLOW_INPUT_SKINNY_LINEAR_WGPU: bool = true;

/// Bytes of one single-precision number.
pub const FLOAT_BYTES: usize = 4;

/// Floating-point format of a tensor.
#[derive(Clone, Copy, Debug, PartialEq, Eq, Structural)]
pub enum FloatDType {
    F64,
    F32,
    Flex32,
    F16,
    BF16,
}

/// Tensor backend that runs a model.
#[derive(Clone, Copy, Debug, PartialEq, Eq, Structural)]
pub enum FlowBackend {
    /// Host backend.
    Cpu,
    /// WGPU backend without operation fusion.
    Wgpu,
    /// WGPU backend behind operation fusion.
    WgpuFusion,
}

/// Runtime toggles of the sparse-flow models.
#[derive(Clone, Copy, Debug, PartialEq, Eq, Structural)]
pub struct RuntimeModelDebugConfig {
    pub stage_debug: bool,
    pub attention_debug: bool,
    pub sparse_flow_module_attention: bool,
    pub sparse_flow_module_attention_f16: bool,
    pub sparse_flow_linear_f16: bool,
    pub sparse_flow_torso_f16: bool,
    pub sparse_flow_stock_bf16_emulation: bool,
    pub sparse_flow_coord_rope_kernel: bool,
    pub sparse_decoder_conv_f16: bool,
}

/// What the planning rules read of the build and the running process.
#[derive(Clone, Copy, Debug, PartialEq, Eq, Structural)]
pub struct FlowEnv {
    /// The WGPU runtime is compiled in.
    pub wgpu: bool,
    /// The program runs in a browser.
    pub wasm32: bool,
    /// Runtime toggles.
    pub debug: RuntimeModelDebugConfig,
    /// Half-precision policy of self-attention at the current sampler step.
    pub self_attention_f16: bool,
    /// Half-precision policy of cross-attention at the current sampler step.
    pub cross_attention_f16: bool,
    /// Opt-in for running both guidance branches in one batch.
    pub batched_cfg: bool,
}

impl FlowEnv {
    /// Module attention kernels run on this backend.
    pub open spec fn module_kernel(self, backend: FlowBackend) -> bool {
        backend != FlowBackend::Cpu && (self.wgpu ==> self.debug.sparse_flow_module_attention)
    }

    /// Module attention kernels run on this backend, without operation fusion.
    pub open spec fn non_fusion_module_kernel(self, backend: FlowBackend) -> bool {
        self.module_kernel(backend) && backend != FlowBackend::WgpuFusion
    }

    /// Large inputs are processed in token chunks.
    pub open spec fn chunked_forward(self, tokens: int) -> bool {
        self.wgpu && tokens >= 2_048
    }

    /// Half-precision linear kernels are available and enabled.
    pub open spec fn linear_f16(self) -> bool {
        self.wgpu && self.debug.sparse_flow_linear_f16
    }

    /// `linear_f16` outside the browser.
    pub open spec fn native_linear_f16(self) -> bool {
        self.linear_f16() && !self.wasm32
    }

    /// Default chunk of `tokens`, with `chunk` in force once inputs are chunked.
    pub open spec fn chunk_or_all(self, tokens: int, chunk: int) -> int {
        if self.chunked_forward(tokens) {
            imin(chunk, tokens)
        } else {
            imax(tokens, 1)
        }
    }
}

// ---------------------------------------------------------------------------
// Build and toggle queries
// ---------------------------------------------------------------------------

/// Memory ceiling of one WGPU allocation group: three gibibytes.
pub fn sparse_flow_wgpu_max_peak_bytes() -> (r: usize)
    ensures
        r == 3 * 1024 * 1024 * 1024,
{
    3_221_225_472
}

/// Whole mebibytes in a byte count.
pub fn bytes_to_mib(bytes: usize) -> (r: usize)
    ensures
        r == bytes as int / 1_048_576,
{
    bytes / 1_048_576
}

/// Whether attention progress is logged.
pub fn attention_debug_enabled(env: &FlowEnv) -> (r: bool)
    ensures
        r == env.debug.attention_debug,
{
    env.debug.attention_debug
}

/// Whether stage progress is logged.
pub fn sparse_flow_stage_debug_enabled(env: &FlowEnv) -> (r: bool)
    ensures
        r == env.debug.stage_debug,
{
    env.debug.stage_debug
}

/// Whether module attention kernels are enabled.
pub fn sparse_flow_wgpu_module_attention_enabled(env: &FlowEnv) -> (r: bool)
    ensures
        r == env.debug.sparse_flow_module_attention,
{
    env.debug.sparse_flow_module_attention
}

/// Whether module attention may run in half precision.
pub fn sparse_flow_wgpu_module_attention_f16_enabled(env: &FlowEnv) -> (r: bool)
    ensures
        r == env.debug.sparse_flow_module_attention_f16,
{
    env.debug.sparse_flow_module_attention_f16
}

/// Half-precision policy of self-attention.
pub open spec fn self_attention_f16(env: FlowEnv) -> bool {
    if env.wgpu {
        env.self_attention_f16
    } else {
        env.debug.sparse_flow_module_attention_f16
    }
}

/// Half-precision policy of cross-attention.
pub open spec fn cross_attention_f16(env: FlowEnv) -> bool {
    if env.wgpu {
        env.cross_attention_f16
    } else {
        env.debug.sparse_flow_module_attention_f16
    }
}

/// Whether self-attention may run in half precision at the current step.
pub fn sparse_flow_wgpu_self_attention_f16_enabled(env: &FlowEnv) -> (r: bool)
    ensures
        r == self_attention_f16(*env),
{
    if env.wgpu {
        env.self_attention_f16
    } else {
        env.debug.sparse_flow_module_attention_f16
    }
}

/// Whether cross-attention may run in half precision at the current step.
pub fn sparse_flow_wgpu_cross_attention_f16_enabled(env: &FlowEnv) -> (r: bool)
    ensures
        r == cross_attention_f16(*env),
{
    if env.wgpu {
        env.cross_attention_f16
    } else {
        env.debug.sparse_flow_module_attention_f16
    }
}

/// Whether half-precision linear kernels may be used.
pub fn sparse_flow_wgpu_linear_f16_enabled(env: &FlowEnv) -> (r: bool)
    ensures
        r == env.linear_f16(),
{
    env.wgpu && env.debug.sparse_flow_linear_f16
}

/// Whether rotary embeddings of given coordinates may use the WGPU kernel.
pub fn sparse_flow_wgpu_coord_rope_kernel_enabled(env: &FlowEnv) -> (r: bool)
    ensures
        r == (env.wgpu && env.debug.sparse_flow_coord_rope_kernel),
{
    env.wgpu && env.debug.sparse_flow_coord_rope_kernel
}

/// Whether a backend runs module attention kernels.
pub fn attention_uses_module_kernel(env: &FlowEnv, backend: FlowBackend) -> (r: bool)
    ensures
        r == env.module_kernel(backend),
{
    if env.wgpu && !env.debug.sparse_flow_module_attention {
        return false;
    }
    backend != FlowBackend::Cpu
}

/// Whether a backend runs module attention kernels outside operation fusion.
pub fn attention_uses_non_fusion_module_kernel(env: &FlowEnv, backend: FlowBackend) -> (r: bool)
    ensures
        r == env.non_fusion_module_kernel(backend),
{
    attention_uses_module_kernel(env, backend) && backend != FlowBackend::WgpuFusion
}

/// Whether plain attention prefers the streaming form.
pub fn attention_prefers_stream(env: &FlowEnv) -> (r: bool)
    ensures
        r == env.wgpu,
{
    env.wgpu
}

/// Whether an input of `tokens` tokens is processed in chunks.
pub fn sparse_flow_chunked_forward_enabled(env: &FlowEnv, tokens: usize) -> (r: bool)
    ensures
        r == env.chunked_forward(tokens as int),
{
    attention_prefers_stream(env) && tokens >= 2_048
}

/// Whether self-attention over `tokens` tokens takes the chunked path on a backend.
pub open spec fn chunked_forward_for_backend(env: FlowEnv, backend: FlowBackend, tokens: int) -> bool {
    env.chunked_forward(tokens) && (env.module_kernel(backend) ==> env.wasm32 || tokens > 8_192)
}

/// Whether self-attention over `tokens` tokens takes the chunked path on a backend.
///
/// Native module kernels keep the whole-input form up to 8192 tokens.
pub fn sparse_flow_chunked_forward_for_backend(
    env: &FlowEnv,
    backend: FlowBackend,
    tokens: usize,
) -> (r: bool)
    ensures
        r == chunked_forward_for_backend(*env, backend, tokens as int),
{
    if !sparse_flow_chunked_forward_enabled(env, tokens) {
        return false;
    }
    if attention_uses_module_kernel(env, backend) {
        if env.wasm32 {
            return true;
        }
        return tokens > 8_192;
    }
    true
}

// ---------------------------------------------------------------------------
// Module attention shape rules
// ---------------------------------------------------------------------------

/// Query cap of module attention by token count alone.
pub open spec fn module_chunk_cap(env: FlowEnv, tokens: int) -> int {
    if tokens > SPARSE_FLOW_MODULE_ATTENTION_LONG_K_FALLBACK_SEQ_KV {
        SPARSE_FLOW_MODULE_ATTENTION_LONG_K_QUERY_CHUNK as int
    } else if tokens >= 16_384 {
        if env.wasm32 {
            8_192
        } else {
            16_384
        }
    } else {
        imax(tokens, 1)
    }
}

/// Query cap of module attention by token count alone.
pub fn sparse_flow_module_attention_chunk_cap(env: &FlowEnv, tokens: usize) -> (r: usize)
    ensures
        r == module_chunk_cap(*env, tokens as int),
{
    if tokens > SPARSE_FLOW_MODULE_ATTENTION_LONG_K_FALLBACK_SEQ_KV {
        return min_usize(SPARSE_FLOW_MODULE_ATTENTION_LONG_K_QUERY_CHUNK, max_usize(tokens, 1));
    }
    if tokens >= 131_072 {
        16_384
    } else if tokens >= 16_384 {
        if env.wasm32 {
            8_192
        } else {
            16_384
        }
    } else {
        max_usize(tokens, 1)
    }
}

/// Query cap of module attention for one attention shape.
pub open spec fn module_chunk_cap_for_shape(
    env: FlowEnv,
    query_tokens: int,
    key_tokens: int,
    head_dim: int,
) -> int {
    if key_tokens > SPARSE_FLOW_MODULE_ATTENTION_LONG_K_FALLBACK_SEQ_KV {
        let cap = if head_dim == 128 {
            SPARSE_FLOW_MODULE_ATTENTION_LONG_K_HEAD_DIM_128_QUERY_CHUNK as int
        } else {
            SPARSE_FLOW_MODULE_ATTENTION_LONG_K_QUERY_CHUNK as int
        };
        imin(cap, imax(query_tokens, 1))
    } else if query_tokens > SPARSE_FLOW_MODULE_ATTENTION_LONG_K_FALLBACK_SEQ_KV {
        imin(SPARSE_FLOW_MODULE_ATTENTION_VERIFIED_LONG_QUERY_CHUNK as int, query_tokens)
    } else {
        module_chunk_cap(env, query_tokens)
    }
}

/// Query cap of module attention for one attention shape.
///
/// Long keys bound the queries of one call; many queries over short keys run
/// in wide chunks.
pub fn sparse_flow_module_attention_chunk_cap_for_shape(
    env: &FlowEnv,
    _batch: usize,
    _heads: usize,
    query_tokens: usize,
    key_tokens: usize,
    head_dim: usize,
) -> (r: usize)
    ensures
        r == module_chunk_cap_for_shape(
            *env,
            query_tokens as int,
            key_tokens as int,
            head_dim as int,
        ),
        1 <= r <= imax(query_tokens as int, 1),
{
    if key_tokens > SPARSE_FLOW_MODULE_ATTENTION_LONG_K_FALLBACK_SEQ_KV {
        let cap: usize = if head_dim == 128 {
            SPARSE_FLOW_MODULE_ATTENTION_LONG_K_HEAD_DIM_128_QUERY_CHUNK
        } else {
            SPARSE_FLOW_MODULE_ATTENTION_LONG_K_QUERY_CHUNK
        };
        return min_usize(cap, max_usize(query_tokens, 1));
    }
    if query_tokens > SPARSE_FLOW_MODULE_ATTENTION_LONG_K_FALLBACK_SEQ_KV {
        return min_usize(
            SPARSE_FLOW_MODULE_ATTENTION_VERIFIED_LONG_QUERY_CHUNK,
            max_usize(query_tokens, 1),
        );
    }
    sparse_flow_module_attention_chunk_cap(env, query_tokens)
}

/// Bytes that one query-key pair costs over all batches and heads, at least one.
pub open spec fn bytes_per_logit(batch: int, heads: int) -> int {
    imax(sat(batch * heads * 4), 1)
}

/// Bytes that one query-key pair costs over all batches and heads, at least one.
pub fn logit_cost(batch: usize, heads: usize) -> (r: usize)
    ensures
        r == bytes_per_logit(batch as int, heads as int),
        r >= 1,
{
    proof {
        assert(0 <= batch * heads) by (nonlinear_arith);
        lemma_sat_mul(batch * heads, 4);
    }
    max_usize(saturating_mul(saturating_mul(batch, heads), FLOAT_BYTES), 1)
}

/// Queries per call that keep the logits of `key_tokens` keys within a budget, at least one.
pub open spec fn query_chunk_cap(batch: int, heads: int, key_tokens: int, logits_budget: int) -> int {
    imax((logits_budget / bytes_per_logit(batch, heads)) / imax(key_tokens, 1), 1)
}

/// Queries per call that keep the logits of `key_tokens` keys within a budget, at least one.
pub fn sparse_flow_module_attention_query_chunk_cap(
    batch: usize,
    heads: usize,
    key_tokens: usize,
    logits_budget: usize,
) -> (r: usize)
    ensures
        r == query_chunk_cap(batch as int, heads as int, key_tokens as int, logits_budget as int),
        r >= 1,
{
    let keys: usize = max_usize(key_tokens, 1);
    let budget_logits: usize = logits_budget / logit_cost(batch, heads);
    max_usize(budget_logits / keys, 1)
}

/// Whether module attention runs over all queries at once: chunked dispatch is canonical.
pub fn sparse_flow_module_attention_prefers_full(_tokens: usize) -> (r: bool)
    ensures
        !r,
{
    false
}

/// Granularity to which module attention pads its queries.
pub fn sparse_flow_module_attention_query_multiple() -> (r: usize)
    ensures
        r == 128,
{
    128
}

/// Batched calls with a head dimension of 128 stay on streamed attention.
pub open spec fn batched_requires_stream(batch: int, head_dim: int) -> bool {
    batch > 1 && head_dim == 128
}

/// Whether a batched module attention call must be streamed instead.
pub fn sparse_flow_module_attention_batched_long_k_requires_stream(
    batch: usize,
    _key_tokens: usize,
    head_dim: usize,
) -> (r: bool)
    ensures
        r == batched_requires_stream(batch as int, head_dim as int),
{
    batch > 1 && head_dim == 128
}

/// Cap at which a long-key call has to be split, where it exceeds that cap.
pub open spec fn safe_query_cap(
    env: FlowEnv,
    query_tokens: int,
    key_tokens: int,
    head_dim: int,
) -> Option<int> {
    let cap = module_chunk_cap_for_shape(env, query_tokens, key_tokens, head_dim);
    if key_tokens > SPARSE_FLOW_MODULE_ATTENTION_LONG_K_FALLBACK_SEQ_KV && query_tokens > cap {
        Some(cap)
    } else {
        None
    }
}

/// Cap at which a long-key call has to be split, where it exceeds that cap.
pub fn sparse_flow_module_attention_safe_query_cap_for_shape(
    env: &FlowEnv,
    batch: usize,
    heads: usize,
    query_tokens: usize,
    key_tokens: usize,
    head_dim: usize,
) -> (r: Option<usize>)
    ensures
        match (
            r,
            safe_query_cap(*env, query_tokens as int, key_tokens as int, head_dim as int),
        ) {
            (Some(cap), Some(c)) => cap == c && 1 <= cap < query_tokens,
            (None, None) => true,
            _ => false,
        },
{
    let cap: usize = sparse_flow_module_attention_chunk_cap_for_shape(
        env,
        batch,
        heads,
        query_tokens,
        key_tokens,
        head_dim,
    );
    if key_tokens > SPARSE_FLOW_MODULE_ATTENTION_LONG_K_FALLBACK_SEQ_KV && query_tokens > cap {
        Some(cap)
    } else {
        None
    }
}

/// Long-key shapes whose single-precision kernel needs an explicit scale.
pub open spec fn long_k_requires_fallback(
    env: FlowEnv,
    batch: int,
    heads: int,
    key_tokens: int,
    head_dim: int,
) -> bool {
    batch * heads >= 16 && head_dim == 64
        && key_tokens > SPARSE_FLOW_MODULE_ATTENTION_LONG_K_FALLBACK_SEQ_KV
        && !env.debug.sparse_flow_module_attention_f16
}

/// Whether a long-key call needs the fallback attention options.
pub fn sparse_flow_module_attention_long_k_requires_fallback(
    env: &FlowEnv,
    batch: usize,
    heads: usize,
    key_tokens: usize,
    head_dim: usize,
) -> (r: bool)
    ensures
        r == long_k_requires_fallback(
            *env,
            batch as int,
            heads as int,
            key_tokens as int,
            head_dim as int,
        ),
{
    saturating_mul(batch, heads) >= 16 && head_dim == 64 && key_tokens
        > SPARSE_FLOW_MODULE_ATTENTION_LONG_K_FALLBACK_SEQ_KV
        && !sparse_flow_wgpu_module_attention_f16_enabled(env)
}

/// Number format of module attention over one shape.
pub open spec fn module_attention_dtype(
    env: FlowEnv,
    batch: int,
    heads: int,
    key_tokens: int,
    head_dim: int,
    f16_enabled: bool,
) -> FloatDType {
    let short_keys = key_tokens <= SPARSE_FLOW_MODULE_ATTENTION_F16_MAX_KEY_TOKENS;
    let long_keys = key_tokens > SPARSE_FLOW_MODULE_ATTENTION_LONG_K_FALLBACK_SEQ_KV && (head_dim
        == 128 || head_dim == 64);
    if f16_enabled && (short_keys || long_keys) && !long_k_requires_fallback(
        env,
        batch,
        heads,
        key_tokens,
        head_dim,
    ) {
        FloatDType::F16
    } else {
        FloatDType::F32
    }
}

/// Number format of module attention over one shape, under a half-precision policy.
pub fn sparse_flow_module_attention_dtype_for_shape_with_policy(
    env: &FlowEnv,
    batch: usize,
    heads: usize,
    key_tokens: usize,
    head_dim: usize,
    f16_enabled: bool,
) -> (r: FloatDType)
    ensures
        r == module_attention_dtype(
            *env,
            batch as int,
            heads as int,
            key_tokens as int,
            head_dim as int,
            f16_enabled,
        ),
{
    let fallback: bool = sparse_flow_module_attention_long_k_requires_fallback(
        env,
        batch,
        heads,
        key_tokens,
        head_dim,
    );
    let verified_long_k_f16_shape: bool = (head_dim == 128 || head_dim == 64) && key_tokens
        > SPARSE_FLOW_MODULE_ATTENTION_LONG_K_FALLBACK_SEQ_KV && !fallback;
    if f16_enabled && (key_tokens <= SPARSE_FLOW_MODULE_ATTENTION_F16_MAX_KEY_TOKENS
        || verified_long_k_f16_shape) && !fallback {
        FloatDType::F16
    } else {
        FloatDType::F32
    }
}

/// Number format of module attention over one shape, under the common toggle.
pub fn sparse_flow_module_attention_dtype_for_shape(
    env: &FlowEnv,
    batch: usize,
    heads: usize,
    key_tokens: usize,
    head_dim: usize,
) -> (r: FloatDType)
    ensures
        r == module_attention_dtype(
            *env,
            batch as int,
            heads as int,
            key_tokens as int,
            head_dim as int,
            env.debug.sparse_flow_module_attention_f16,
        ),
{
    sparse_flow_module_attention_dtype_for_shape_with_policy(
        env,
        batch,
        heads,
        key_tokens,
        head_dim,
        sparse_flow_wgpu_module_attention_f16_enabled(env),
    )
}

/// Number format of self-attention on the module path.
pub fn sparse_flow_self_module_attention_dtype_for_shape(
    env: &FlowEnv,
    batch: usize,
    heads: usize,
    key_tokens: usize,
    head_dim: usize,
) -> (r: FloatDType)
    ensures
        r == module_attention_dtype(
            *env,
            batch as int,
            heads as int,
            key_tokens as int,
            head_dim as int,
            self_attention_f16(*env),
        ),
{
    sparse_flow_module_attention_dtype_for_shape_with_policy(
        env,
        batch,
        heads,
        key_tokens,
        head_dim,
        sparse_flow_wgpu_self_attention_f16_enabled(env),
    )
}

/// Number format of cross-attention on the module path.
pub fn sparse_flow_cross_module_attention_dtype_for_shape(
    env: &FlowEnv,
    batch: usize,
    heads: usize,
    key_tokens: usize,
    head_dim: usize,
) -> (r: FloatDType)
    ensures
        r == module_attention_dtype(
            *env,
            batch as int,
            heads as int,
            key_tokens as int,
            head_dim as int,
            cross_attention_f16(*env),
        ),
{
    sparse_flow_module_attention_dtype_for_shape_with_policy(
        env,
        batch,
        heads,
        key_tokens,
        head_dim,
        sparse_flow_wgpu_cross_attention_f16_enabled(env),
    )
}

/// Wide cross-attention shapes that keep the streamed path in single precision.
pub open spec fn cross_shape_requires_stream(
    env: FlowEnv,
    batch: int,
    heads: int,
    query_tokens: int,
    key_tokens: int,
    head_dim: int,
) -> bool {
    head_dim == 128 && query_tokens > key_tokens && key_tokens <= 8_192 && module_attention_dtype(
        env,
        batch,
        heads,
        key_tokens,
        head_dim,
        cross_attention_f16(env),
    ) != FloatDType::F16
}

/// Whether a cross-attention shape must be streamed.
pub fn sparse_flow_module_attention_cross_shape_requires_stream(
    env: &FlowEnv,
    batch: usize,
    heads: usize,
    query_tokens: usize,
    key_tokens: usize,
    head_dim: usize,
) -> (r: bool)
    ensures
        r == cross_shape_requires_stream(
            *env,
            batch as int,
            heads as int,
            query_tokens as int,
            key_tokens as int,
            head_dim as int,
        ),
{
    head_dim == 128 && query_tokens > key_tokens && key_tokens <= 8_192
        && sparse_flow_cross_module_attention_dtype_for_shape(
        env,
        batch,
        heads,
        key_tokens,
        head_dim,
    ) != FloatDType::F16
}

// ---------------------------------------------------------------------------
// Chunk sizes
// ---------------------------------------------------------------------------

/// Streamed query chunks may be kept instead of being projected twice.
pub open spec fn stream_reuse_qkv(env: FlowEnv, tokens: int, channels: int) -> bool {
    env.chunked_forward(tokens) && sat(tokens * channels * 4) <= sat(6_442_450_944)
}

/// Whether streamed query chunks are kept instead of being projected twice.
pub fn sparse_flow_stream_reuse_qkv_enabled(
    env: &FlowEnv,
    tokens: usize,
    channels: usize,
) -> (r: bool)
    ensures
        r == stream_reuse_qkv(*env, tokens as int, channels as int),
{
    if !sparse_flow_chunked_forward_enabled(env, tokens) {
        return false;
    }
    proof {
        assert(0 <= tokens * channels) by (nonlinear_arith);
        lemma_sat_mul(tokens * channels, 4);
    }
    let q_cache_bytes: usize = saturating_mul(saturating_mul(tokens, channels), FLOAT_BYTES);
    let budget: usize = saturating_mul(sparse_flow_wgpu_max_peak_bytes(), 2);
    q_cache_bytes <= budget
}

/// Tokens per linear projection.
pub fn sparse_flow_linear_chunk_tokens(env: &FlowEnv, tokens: usize) -> (r: usize)
    ensures
        r == imin(env.chunk_or_all(tokens as int, 8_192), 32_768),
        1 <= r <= imax(tokens as int, 1),
{
    let default: usize = if sparse_flow_chunked_forward_enabled(env, tokens) {
        8_192
    } else {
        max_usize(tokens, 1)
    };
    min_usize(min_usize(default, 32_768), max_usize(tokens, 1))
}

/// Tokens per linear projection on a backend.
pub open spec fn linear_chunk_for_backend(env: FlowEnv, backend: FlowBackend, tokens: int) -> int {
    let default = imin(env.chunk_or_all(tokens, 8_192), 32_768);
    if env.non_fusion_module_kernel(backend) && tokens >= 16_384 {
        imax(
            imin(
                if env.native_linear_f16() {
                    32_768
                } else {
                    16_384
                },
                tokens,
            ),
            default,
        )
    } else {
        default
    }
}

/// Tokens per linear projection on a backend.
pub fn sparse_flow_linear_chunk_tokens_for_backend(
    env: &FlowEnv,
    backend: FlowBackend,
    tokens: usize,
) -> (r: usize)
    ensures
        r == linear_chunk_for_backend(*env, backend, tokens as int),
        1 <= r <= imax(tokens as int, 1),
{
    let default: usize = sparse_flow_linear_chunk_tokens(env, tokens);
    if attention_uses_non_fusion_module_kernel(env, backend) && tokens >= 16_384 {
        if sparse_flow_wgpu_linear_f16_enabled(env) && !env.wasm32 {
            return max_usize(min_usize(32_768, max_usize(tokens, 1)), default);
        }
        return max_usize(min_usize(16_384, max_usize(tokens, 1)), default);
    }
    default
}

/// Byte budget of the attention logits of one sparse-flow call.
pub open spec fn attn_logits_budget(env: FlowEnv) -> int {
    if env.wgpu {
        if env.wasm32 {
            134_217_728
        } else {
            3_221_225_472
        }
    } else {
        2_147_483_648
    }
}

/// Byte budget of the attention logits of one sparse-flow call.
pub fn sparse_flow_attn_logits_budget_bytes(env: &FlowEnv) -> (r: usize)
    ensures
        r == attn_logits_budget(*env),
{
    if env.wgpu {
        if env.wasm32 {
            134_217_728
        } else {
            3_221_225_472
        }
    } else {
        2_147_483_648
    }
}

/// Bytes of the logits of one attention call, saturating.
pub open spec fn logits_bytes(batch: int, heads: int, query_tokens: int, key_tokens: int) -> int {
    sat(batch * heads * query_tokens * key_tokens * 4)
}

/// Bytes of the logits of one attention call, saturating.
pub fn attention_logits_bytes(
    batch: usize,
    heads: usize,
    query_tokens: usize,
    key_tokens: usize,
) -> (r: usize)
    ensures
        r == logits_bytes(batch as int, heads as int, query_tokens as int, key_tokens as int),
{
    proof {
        assert(0 <= batch * heads) by (nonlinear_arith);
        lemma_sat_mul(batch * heads, query_tokens as int);
        lemma_sat_mul(batch * heads * query_tokens, key_tokens as int);
        lemma_sat_mul(batch * heads * query_tokens * key_tokens, 4);
    }
    saturating_mul(
        saturating_mul(saturating_mul(saturating_mul(batch, heads), query_tokens), key_tokens),
        FLOAT_BYTES,
    )
}

/// Whether the logits of one attention call fit a budget.
pub fn sparse_flow_attention_logits_within_budget(
    batch: usize,
    heads: usize,
    query_tokens: usize,
    key_tokens: usize,
    logits_budget: usize,
) -> (r: bool)
    ensures
        r == (logits_bytes(batch as int, heads as int, query_tokens as int, key_tokens as int)
            <= logits_budget),
{
    attention_logits_bytes(batch, heads, query_tokens, key_tokens) <= logits_budget
}

/// Chunk sizes `(query, key)` of streamed attention within a logits budget.
///
/// With `reuse_qkv` both chunks are one square chunk, at most the root of the
/// pairs that fit; otherwise the query chunk gives way first and the key chunk
/// after it.
pub open spec fn stream_chunk_plan(
    batch: int,
    heads: int,
    tokens: int,
    query_chunk: int,
    kv_chunk: int,
    reuse_qkv: bool,
    logits_budget: int,
) -> (int, int) {
    let all = imax(tokens, 1);
    let query = imin(imax(query_chunk, 1), all);
    let kv = imin(imax(kv_chunk, 1), all);
    let budget_logits = logits_budget / bytes_per_logit(batch, heads);
    if reuse_qkv {
        let chunk = imin(kv, imax(floor_root(budget_logits), 1));
        (chunk, chunk)
    } else {
        let fitted = imin(query, imax(budget_logits / kv, 1));
        (fitted, imin(kv, imax(budget_logits / fitted, 1)))
    }
}

/// Chunk sizes `(query, key)` of streamed attention within a logits budget.
pub fn sparse_flow_stream_chunk_plan(
    batch: usize,
    heads: usize,
    tokens: usize,
    query_chunk_tokens: usize,
    kv_chunk_tokens: usize,
    reuse_qkv: bool,
    logits_budget: usize,
) -> (r: (usize, usize))
    ensures
        (r.0 as int, r.1 as int) == stream_chunk_plan(
            batch as int,
            heads as int,
            tokens as int,
            query_chunk_tokens as int,
            kv_chunk_tokens as int,
            reuse_qkv,
            logits_budget as int,
        ),
        1 <= r.0 <= imax(tokens as int, 1),
        1 <= r.1 <= imax(tokens as int, 1),
{
    let all: usize = max_usize(tokens, 1);
    let query: usize = min_usize(max_usize(query_chunk_tokens, 1), all);
    let kv: usize = min_usize(max_usize(kv_chunk_tokens, 1), all);
    let budget_logits: usize = logits_budget / logit_cost(batch, heads);
    if reuse_qkv {
        let root: usize = integer_sqrt(budget_logits);
        let max_square: usize = min_usize(max_usize(root, 1), all);
        let chunk: usize = max_usize(min_usize(kv, max_square), 1);
        (chunk, chunk)
    } else {
        let max_query: usize = max_usize(budget_logits / max_usize(kv, 1), 1);
        let query: usize = max_usize(min_usize(query, max_query), 1);
        let max_kv: usize = max_usize(budget_logits / max_usize(query, 1), 1);
        let kv: usize = max_usize(min_usize(kv, max_kv), 1);
        (query, kv)
    }
}

/// A planned pair of chunks keeps the logits of one call within the budget,
/// whenever the budget pays for a single query-key pair; chunks that are kept
/// for reuse are aligned. Left out are square chunks whose side the rounding of
/// the root has raised, which takes a budget of 2 to the 52nd pairs or more.
pub proof fn stream_chunk_plan_respects_budget(
    batch: usize,
    heads: usize,
    tokens: usize,
    query_chunk: usize,
    kv_chunk: usize,
    reuse_qkv: bool,
    logits_budget: usize,
)
    requires
        logits_budget >= bytes_per_logit(batch as int, heads as int),
        reuse_qkv && batch > 0 && heads > 0 && logits_budget < usize::MAX ==> ({
            let pairs = logits_budget as int / bytes_per_logit(batch as int, heads as int);
            floor_root(pairs) <= isqrt(pairs) || imin(
                imax(kv_chunk as int, 1),
                imax(tokens as int, 1),
            ) <= isqrt(pairs)
        }),
    ensures
        ({
            let plan = stream_chunk_plan(
                batch as int,
                heads as int,
                tokens as int,
                query_chunk as int,
                kv_chunk as int,
                reuse_qkv,
                logits_budget as int,
            );
            &&& logits_bytes(batch as int, heads as int, plan.0, plan.1) <= logits_budget
            &&& reuse_qkv ==> plan.0 == plan.1
        }),
{
    let plan = stream_chunk_plan(
        batch as int,
        heads as int,
        tokens as int,
        query_chunk as int,
        kv_chunk as int,
        reuse_qkv,
        logits_budget as int,
    );
    let cost = bytes_per_logit(batch as int, heads as int);
    let budget = logits_budget as int;
    let budget_logits = budget / cost;
    let all = imax(tokens as int, 1);
    let kv = imin(imax(kv_chunk as int, 1), all);
    assert(budget_logits >= 1) by (nonlinear_arith)
        requires
            budget >= cost,
            cost >= 1,
            budget_logits == budget / cost,
    ;
    assert(plan.0 >= 1 && plan.1 >= 1);
    let bounded = batch > 0 && heads > 0 && logits_budget < usize::MAX;
    assert(bounded ==> plan.0 * plan.1 <= budget_logits) by {
        if reuse_qkv {
            let root = isqrt(budget_logits);
            lemma_isqrt(budget_logits);
            assert(root >= 1) by (nonlinear_arith)
                requires
                    root >= 0,
                    budget_logits >= 1,
                    budget_logits < (root + 1) * (root + 1),
            ;
            if bounded {
                assert(plan.0 * plan.1 <= root * root) by (nonlinear_arith)
                    requires
                        1 <= plan.0 <= root,
                        plan.0 == plan.1,
                ;
            }
        } else {
            lemma_quotient_at_most(budget_logits, kv);
            assert(plan.0 <= budget_logits);
            assert(budget_logits / plan.0 >= 1) by (nonlinear_arith)
                requires
                    1 <= plan.0 <= budget_logits,
            ;
            lemma_mul_within_quotient(plan.0, plan.1, budget_logits);
        }
    }
    if bounded {
        lemma_logits_within(batch, heads, plan.0, plan.1, budget);
    } else if logits_budget < usize::MAX {
        assert(batch * heads * plan.0 * plan.1 * 4 == 0) by (nonlinear_arith)
            requires
                batch == 0 || heads == 0,
        ;
    }
}

/// Logits fit a budget once the pairs of one call fit its number of pairs.
pub proof fn lemma_logits_within(
    batch: usize,
    heads: usize,
    query_tokens: int,
    key_tokens: int,
    budget: int,
)
    requires
        query_tokens >= 1,
        key_tokens >= 1,
        bytes_per_logit(batch as int, heads as int) <= budget <= usize::MAX,
        query_tokens * key_tokens <= budget / bytes_per_logit(batch as int, heads as int),
    ensures
        logits_bytes(batch as int, heads as int, query_tokens, key_tokens) <= budget,
{
    let b = batch as int;
    let h = heads as int;
    let pairs = query_tokens * key_tokens;
    let raw = b * h * 4;
    let cost = bytes_per_logit(b, h);
    assert(0 <= raw) by (nonlinear_arith)
        requires
            raw == b * h * 4,
            b >= 0,
            h >= 0,
    ;
    assert(b * h * query_tokens * key_tokens * 4 == raw * pairs) by (nonlinear_arith)
        requires
            raw == b * h * 4,
            pairs == query_tokens * key_tokens,
    ;
    if raw <= usize::MAX {
        assert(pairs >= 0) by (nonlinear_arith)
            requires
                pairs == query_tokens * key_tokens,
                query_tokens >= 1,
                key_tokens >= 1,
        ;
        lemma_mul_within_quotient(cost, pairs, budget);
        assert(raw * pairs <= cost * pairs) by (nonlinear_arith)
            requires
                raw <= cost,
                pairs >= 0,
        ;
    }
}

/// Tokens per MLP chunk.
pub fn sparse_flow_mlp_chunk_tokens(env: &FlowEnv, tokens: usize) -> (r: usize)
    ensures
        r == imin(env.chunk_or_all(tokens as int, 2_048), 65_536),
        1 <= r <= imax(tokens as int, 1),
{
    let default: usize = if sparse_flow_chunked_forward_enabled(env, tokens) {
        2_048
    } else {
        max_usize(tokens, 1)
    };
    min_usize(min_usize(default, 65_536), max_usize(tokens, 1))
}

/// Tokens per MLP chunk on a backend.
pub open spec fn mlp_chunk_for_backend(env: FlowEnv, backend: FlowBackend, tokens: int) -> int {
    let default = imin(env.chunk_or_all(tokens, 2_048), 65_536);
    if !env.non_fusion_module_kernel(backend) {
        default
    } else {
        let fast: int = if env.native_linear_f16() {
            32_768
        } else {
            8_192
        };
        let cap: int = if env.wasm32 {
            4_096
        } else {
            fast
        };
        let widened = if tokens >= 16_384 {
            imax(imin(fast, tokens), default)
        } else if tokens >= 2_048 {
            imax(imin(8_192, tokens), default)
        } else {
            default
        };
        imin(imin(widened, cap), imax(tokens, 1))
    }
}

/// Tokens per MLP chunk on a backend.
pub fn sparse_flow_mlp_chunk_tokens_for_backend(
    env: &FlowEnv,
    backend: FlowBackend,
    tokens: usize,
) -> (r: usize)
    ensures
        r == mlp_chunk_for_backend(*env, backend, tokens as int),
        1 <= r <= imax(tokens as int, 1),
{
    let default: usize = sparse_flow_mlp_chunk_tokens(env, tokens);
    if !attention_uses_non_fusion_module_kernel(env, backend) {
        return default;
    }
    let all: usize = max_usize(tokens, 1);
    let fast_linear_chunk: usize = if sparse_flow_wgpu_linear_f16_enabled(env) && !env.wasm32 {
        32_768
    } else {
        8_192
    };
    let widened: usize = if tokens >= 16_384 {
        max_usize(min_usize(fast_linear_chunk, all), default)
    } else if tokens >= 2_048 {
        max_usize(min_usize(8_192, all), default)
    } else {
        default
    };
    let cap: usize = if env.wasm32 {
        4_096
    } else {
        fast_linear_chunk
    };
    min_usize(min_usize(widened, cap), all)
}

/// Configured number of MLP chunks between device synchronizations: none.
pub fn sparse_flow_mlp_sync_interval(_tokens: usize) -> (r: usize)
    ensures
        r == usize::MAX,
{
    usize::MAX
}

/// Number of MLP chunks between device synchronizations on a backend.
pub open spec fn mlp_sync_interval(env: FlowEnv, backend: FlowBackend) -> int {
    if env.non_fusion_module_kernel(backend) {
        16
    } else if env.module_kernel(backend) {
        8
    } else {
        usize::MAX as int
    }
}

/// Number of MLP chunks between device synchronizations on a backend.
pub fn sparse_flow_mlp_sync_interval_for_backend(
    env: &FlowEnv,
    backend: FlowBackend,
    tokens: usize,
) -> (r: usize)
    ensures
        r == mlp_sync_interval(*env, backend),
{
    let configured: usize = sparse_flow_mlp_sync_interval(tokens);
    if configured != usize::MAX {
        return configured;
    }
    if attention_uses_non_fusion_module_kernel(env, backend) {
        return 16;
    }
    if attention_uses_module_kernel(env, backend) {
        8
    } else {
        usize::MAX
    }
}

/// Rows per MLP window.
pub fn sparse_flow_mlp_window_rows(rows: usize) -> (r: usize)
    ensures
        r == imin(32_768, imax(rows as int, 1)),
{
    let rows: usize = max_usize(rows, 1);
    let default: usize = min_usize(32_768, rows);
    min_usize(min_usize(default, 131_072), rows)
}

/// Query tokens per self-attention chunk.
pub fn sparse_flow_self_attn_query_chunk_tokens(env: &FlowEnv, tokens: usize) -> (r: usize)
    ensures
        r == imin(env.chunk_or_all(tokens as int, 2_048), 16_384),
        1 <= r <= imax(tokens as int, 1),
{
    let default: usize = if sparse_flow_chunked_forward_enabled(env, tokens) {
        2_048
    } else {
        max_usize(tokens, 1)
    };
    min_usize(min_usize(default, 16_384), max_usize(tokens, 1))
}

/// Key tokens per self-attention chunk.
pub fn sparse_flow_self_attn_kv_chunk_tokens(env: &FlowEnv, tokens: usize) -> (r: usize)
    ensures
        r == imin(env.chunk_or_all(tokens as int, 8_192), 32_768),
        1 <= r <= imax(tokens as int, 1),
{
    let default: usize = if sparse_flow_chunked_forward_enabled(env, tokens) {
        8_192
    } else {
        max_usize(tokens, 1)
    };
    min_usize(min_usize(default, 32_768), max_usize(tokens, 1))
}

// ---------------------------------------------------------------------------
// Plain attention
// ---------------------------------------------------------------------------

/// Form of plain attention.
#[derive(Clone, Copy, Debug, PartialEq, Eq, Structural)]
pub enum AttentionImpl {
    Dense,
    Stream,
}

/// Form of plain attention for a number of queries and keys.
pub open spec fn attention_form(env: FlowEnv, query_tokens: int, key_tokens: int) -> AttentionImpl {
    let work = sat(query_tokens * key_tokens);
    if (env.wgpu && work >= 64 * 64) || work >= 512 * 512 {
        AttentionImpl::Stream
    } else {
        AttentionImpl::Dense
    }
}

/// Form of plain attention for a number of queries and keys.
pub fn attention_impl(env: &FlowEnv, query_tokens: usize, key_tokens: usize) -> (r: AttentionImpl)
    ensures
        r == attention_form(*env, query_tokens as int, key_tokens as int),
{
    let work: usize = saturating_mul(query_tokens, key_tokens);
    if (attention_prefers_stream(env) && work >= 4_096) || work >= 262_144 {
        AttentionImpl::Stream
    } else {
        AttentionImpl::Dense
    }
}

/// Byte budget of the logits of plain attention.
pub open spec fn logits_budget(env: FlowEnv) -> int {
    if !env.wgpu {
        usize::MAX as int
    } else if env.wasm32 {
        134_217_728
    } else {
        1_073_741_824
    }
}

/// Byte budget of the logits of plain attention.
pub fn attention_logits_budget_bytes(env: &FlowEnv) -> (r: usize)
    ensures
        r == logits_budget(*env),
{
    if attention_prefers_stream(env) {
        if env.wasm32 {
            134_217_728
        } else {
            1_073_741_824
        }
    } else {
        usize::MAX
    }
}

/// Query chunk of plain attention.
pub open spec fn plain_query_chunk(env: FlowEnv, tokens: int, default_chunk: int) -> int {
    let max_chunk = if !env.wgpu {
        usize::MAX as int
    } else if env.wasm32 {
        256
    } else {
        1_024
    };
    imin(imin(default_chunk, max_chunk), imax(tokens, 1))
}

/// Query chunk of plain attention.
pub fn attention_query_chunk(env: &FlowEnv, tokens: usize, default_chunk: usize) -> (r: usize)
    ensures
        r == plain_query_chunk(*env, tokens as int, default_chunk as int),
{
    let max_chunk: usize = if attention_prefers_stream(env) {
        if env.wasm32 {
            256
        } else {
            1_024
        }
    } else {
        usize::MAX
    };
    min_usize(min_usize(default_chunk, max_chunk), max_usize(tokens, 1))
}

/// Key chunk of plain attention.
pub fn attention_key_chunk(env: &FlowEnv, tokens: usize) -> (r: usize)
    ensures
        r == imin(128, imax(tokens as int, 1)),
{
    let max_chunk: usize = if attention_prefers_stream(env) {
        512
    } else {
        usize::MAX
    };
    min_usize(min_usize(128, max_chunk), max_usize(tokens, 1))
}

// ---------------------------------------------------------------------------
// Cross-attention caches and guidance batching
// ---------------------------------------------------------------------------

/// Whether projected conditions are cached across sampler steps.
pub fn sparse_flow_cross_kv_cache_enabled_for_backend(
    env: &FlowEnv,
    backend: FlowBackend,
) -> (r: bool)
    ensures
        r == env.non_fusion_module_kernel(backend),
{
    attention_uses_non_fusion_module_kernel(env, backend)
}

/// Byte budget of cached condition projections.
pub open spec fn cross_kv_cache_budget(env: FlowEnv, backend: FlowBackend) -> int {
    if env.non_fusion_module_kernel(backend) && env.wgpu {
        3_221_225_472
    } else {
        0
    }
}

/// Byte budget of cached condition projections.
pub fn sparse_flow_cross_kv_cache_budget_bytes_for_backend(
    env: &FlowEnv,
    backend: FlowBackend,
) -> (r: usize)
    ensures
        r == cross_kv_cache_budget(*env, backend),
{
    if !sparse_flow_cross_kv_cache_enabled_for_backend(env, backend) {
        return 0;
    }
    if env.wgpu {
        sparse_flow_wgpu_max_peak_bytes()
    } else {
        0
    }
}

/// Both guidance branches run as one batch.
pub open spec fn batched_cfg_enabled(env: FlowEnv, backend: FlowBackend) -> bool {
    env.wgpu && env.non_fusion_module_kernel(backend) && env.batched_cfg
        && env.debug.sparse_flow_module_attention_f16
}

/// Whether both guidance branches run as one batch on a backend.
pub fn sparse_flow_batched_cfg_enabled_for_backend(
    env: &FlowEnv,
    backend: FlowBackend,
) -> (r: bool)
    ensures
        r == batched_cfg_enabled(*env, backend),
{
    env.wgpu && attention_uses_non_fusion_module_kernel(env, backend) && env.batched_cfg
        && sparse_flow_wgpu_module_attention_f16_enabled(env)
}

// ---------------------------------------------------------------------------
// Linear layers and the model torso
// ---------------------------------------------------------------------------

/// Format in which the transformer torso runs, where it differs from the input's.
pub open spec fn torso_dtype(env: FlowEnv, backend: FlowBackend) -> Option<FloatDType> {
    if env.wgpu && env.non_fusion_module_kernel(backend) && env.debug.sparse_flow_torso_f16 {
        Some(FloatDType::F16)
    } else {
        None
    }
}

/// Format in which the transformer torso runs, where it differs from the input's.
pub fn sparse_flow_torso_dtype_for_backend(
    env: &FlowEnv,
    backend: FlowBackend,
) -> (r: Option<FloatDType>)
    ensures
        r == torso_dtype(*env, backend),
{
    if env.wgpu && attention_uses_non_fusion_module_kernel(env, backend)
        && env.debug.sparse_flow_torso_f16 {
        return Some(FloatDType::F16);
    }
    None
}

/// Shapes for which the half-precision linear kernel pays.
pub open spec fn fast_linear_shape(rows: int, in_channels: int, out_channels: int) -> bool {
    rows >= 1_024 && in_channels >= 64 && out_channels >= 64
}

/// Whether a linear layer tries the half-precision kernel first.
pub fn linear_tries_fast_f16(
    env: &FlowEnv,
    backend: FlowBackend,
    allow_fast_f16: bool,
    rows: usize,
    in_channels: usize,
    out_channels: usize,
) -> (r: bool)
    ensures
        r == (allow_fast_f16 && env.linear_f16() && env.non_fusion_module_kernel(backend)
            && fast_linear_shape(rows as int, in_channels as int, out_channels as int)),
{
    allow_fast_f16 && sparse_flow_wgpu_linear_f16_enabled(env)
        && attention_uses_non_fusion_module_kernel(env, backend) && rows >= 1_024 && in_channels
        >= 64 && out_channels >= 64
}

/// Format in which a linear layer multiplies: brain floats are widened.
pub fn linear_matmul_dtype(x_dtype: FloatDType) -> (r: FloatDType)
    ensures
        r == (if x_dtype == FloatDType::BF16 {
            FloatDType::F32
        } else {
            x_dtype
        }),
{
    if x_dtype == FloatDType::BF16 {
        FloatDType::F32
    } else {
        x_dtype
    }
}

/// Whether an attention projection keeps its half-precision output.
pub fn linear_attention_keeps_f16(
    env: &FlowEnv,
    backend: FlowBackend,
    allow_f16_output: bool,
    batch: usize,
    tokens: usize,
    channels: usize,
    in_channels: usize,
    out_channels: usize,
) -> (r: bool)
    ensures
        r == (allow_f16_output && env.linear_f16() && env.non_fusion_module_kernel(backend)
            && channels == in_channels && fast_linear_shape(
            sat(batch * tokens),
            in_channels as int,
            out_channels as int,
        )),
{
    let rows: usize = saturating_mul(batch, tokens);
    allow_f16_output && sparse_flow_wgpu_linear_f16_enabled(env)
        && attention_uses_non_fusion_module_kernel(env, backend) && rows >= 1_024 && channels
        == in_channels && in_channels >= 64 && out_channels >= 64
}

/// Whether a narrow input projection tries its dedicated kernel first.
pub fn linear_tries_skinny(
    env: &FlowEnv,
    backend: FlowBackend,
    rows: usize,
    in_channels: usize,
    out_channels: usize,
) -> (r: bool)
    ensures
        r == (env.linear_f16() && env.non_fusion_module_kernel(backend) && rows >= 1_024
            && in_channels <= 64 && out_channels >= 256),
{
    sparse_flow_wgpu_linear_f16_enabled(env) && attention_uses_non_fusion_module_kernel(
        env,
        backend,
    ) && SPARSE_FLOW_INPUT_SKINNY_LINEAR_WGPU && rows >= 1_024 && in_channels <= 64 && out_channels
        >= 256
}

/// Whether both MLP layers run as one half-precision chain.
pub open spec fn f16_chain(
    env: FlowEnv,
    backend: FlowBackend,
    in_channels: int,
    hidden_channels: int,
    hidden_in_channels: int,
    out_channels: int,
) -> bool {
    env.linear_f16() && env.non_fusion_module_kernel(backend) && in_channels >= 64
        && hidden_channels >= 64 && hidden_in_channels == hidden_channels && out_channels >= 64
}

/// Whether both MLP layers run as one half-precision chain.
pub fn feed_forward_f16_chain_enabled(
    env: &FlowEnv,
    backend: FlowBackend,
    in_channels: usize,
    hidden_channels: usize,
    hidden_in_channels: usize,
    out_channels: usize,
) -> (r: bool)
    ensures
        r == f16_chain(
            *env,
            backend,
            in_channels as int,
            hidden_channels as int,
            hidden_in_channels as int,
            out_channels as int,
        ),
{
    sparse_flow_wgpu_linear_f16_enabled(env) && attention_uses_non_fusion_module_kernel(
        env,
        backend,
    ) && in_channels >= 64 && hidden_channels >= 64 && hidden_in_channels == hidden_channels
        && out_channels >= 64
}

/// A modulated layer norm is computed step by step instead of by one kernel.
pub open spec fn prefers_decomposed_norm(
    env: FlowEnv,
    backend: FlowBackend,
    dtype: FloatDType,
    batch: int,
    tokens: int,
    channels: int,
) -> bool {
    env.non_fusion_module_kernel(backend) && dtype == FloatDType::F32 && channels >= 1_024 && batch
        * tokens >= 1_024
}

/// Whether a modulated layer norm is computed step by step instead of by one kernel.
pub fn sparse_flow_prefers_decomposed_modulated_layer_norm(
    env: &FlowEnv,
    backend: FlowBackend,
    dtype: FloatDType,
    batch: usize,
    tokens: usize,
    channels: usize,
) -> (r: bool)
    ensures
        r == prefers_decomposed_norm(
            *env,
            backend,
            dtype,
            batch as int,
            tokens as int,
            channels as int,
        ),
{
    if !attention_uses_non_fusion_module_kernel(env, backend) {
        return false;
    }
    dtype == FloatDType::F32 && channels >= 1_024 && saturating_mul(batch, tokens) >= 1_024
}

/// Estimated bytes of the widest activation of a dense model, saturating.
pub open spec fn estimated_peak_bytes(resolution: int, model_channels: int, mlp_channels: int) -> int {
    sat(
        sat(resolution * resolution * resolution) * imax(sat(model_channels * 3), mlp_channels)
            * 4,
    )
}

/// Estimated bytes of the widest activation of a dense model, saturating.
///
/// `mlp_channels` is the width of the hidden MLP layer.
pub fn sparse_flow_wgpu_estimated_peak_bytes(
    resolution: usize,
    model_channels: usize,
    mlp_channels: usize,
) -> (r: usize)
    ensures
        r == estimated_peak_bytes(resolution as int, model_channels as int, mlp_channels as int),
{
    proof {
        assert(0 <= resolution * resolution) by (nonlinear_arith);
        lemma_sat_mul(resolution * resolution, resolution as int);
    }
    let tokens: usize = saturating_mul(saturating_mul(resolution, resolution), resolution);
    let qkv_channels: usize = saturating_mul(model_channels, 3);
    let peak_channels: usize = max_usize(qkv_channels, mlp_channels);
    proof {
        assert(0 <= tokens * peak_channels) by (nonlinear_arith);
        lemma_sat_mul(tokens * peak_channels, 4);
    }
    saturating_mul(saturating_mul(tokens, peak_channels), FLOAT_BYTES)
}

/// Whether a dense model may exceed the WGPU memory ceiling.
pub fn sparse_flow_wgpu_may_overflow(
    resolution: usize,
    model_channels: usize,
    mlp_channels: usize,
) -> (r: bool)
    ensures
        r == (estimated_peak_bytes(resolution as int, model_channels as int, mlp_channels as int)
            > 3 * 1024 * 1024 * 1024),
{
    sparse_flow_wgpu_estimated_peak_bytes(resolution, model_channels, mlp_channels)
        > sparse_flow_wgpu_max_peak_bytes()
}

} // verus!
