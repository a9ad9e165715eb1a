//! Dedicated device kernels: when one runs, what it gives back on empty
//! input, and the parameters that are kept in its number format.
use crate::cache::{distinct_keys, entries_map, lemma_entries_map};
use crate::policy::{
    prefers_decomposed_norm, sparse_flow_prefers_decomposed_modulated_layer_norm, FloatDType,
    FlowBackend, FlowEnv,
};
use std::sync::Arc;
use vstd::prelude::*;

verus! {

/// What a call of a dedicated kernel comes to.
#[derive(Clone, Copy, Debug, PartialEq, Eq)]
pub enum KernelCall {
    /// There is no kernel: the caller computes with plain tensor operations.
    Unavailable,
    /// The input is empty and is the result.
    Unchanged,
    /// The result is all zeros, of the given shape.
    Zeros { dims: (usize, usize, usize, usize) },
    /// The kernel runs.
    Launch,
}

impl KernelCall {
    /// The call gives a result.
    pub fn available(self) -> (r: bool)
        ensures
            r == (self != KernelCall::Unavailable),
    {
        match self {
            KernelCall::Unavailable => false,
            _ => true,
        }
    }
}

/// Dedicated kernels run on the WGPU backend without operation fusion.
pub open spec fn kernel_backend(env: FlowEnv, backend: FlowBackend) -> bool {
    env.wgpu && backend == FlowBackend::Wgpu
}

/// Dedicated kernels run on the WGPU backend without operation fusion.
fn runs_kernels(env: &FlowEnv, backend: FlowBackend) -> (r: bool)
    ensures
        r == kernel_backend(*env, backend),
{
    env.wgpu && backend == FlowBackend::Wgpu
}

/// Some dimension is zero.
pub open spec fn is_empty_shape(dims: Seq<usize>) -> bool {
    exists|i: int| 0 <= i < dims.len() && dims[i] == 0
}

/// A kernel that leaves empty input as it is.
pub open spec fn elementwise_call(available: bool, dims: Seq<usize>) -> KernelCall {
    if !available {
        KernelCall::Unavailable
    } else if is_empty_shape(dims) {
        KernelCall::Unchanged
    } else {
        KernelCall::Launch
    }
}

fn three_dims_empty(dims: [usize; 3]) -> (r: bool)
    ensures
        r == is_empty_shape(dims@),
{
    if dims[0] == 0 || dims[1] == 0 || dims[2] == 0 {
        assert(dims@[0] == 0 || dims@[1] == 0 || dims@[2] == 0);
        return true;
    }
    false
}

fn four_dims_empty(dims: [usize; 4]) -> (r: bool)
    ensures
        r == is_empty_shape(dims@),
{
    if dims[0] == 0 || dims[1] == 0 || dims[2] == 0 || dims[3] == 0 {
        assert(dims@[0] == 0 || dims@[1] == 0 || dims@[2] == 0 || dims@[3] == 0);
        return true;
    }
    false
}

// ---------------------------------------------------------------------------
// Rounding to brain floats
// ---------------------------------------------------------------------------

/// Rounding of tensors to brain-float precision.
#[derive(Clone, Copy, Debug, PartialEq, Eq, Structural)]
pub struct SparseFlowBf16EmulationBridgeImpl;

impl SparseFlowBf16EmulationBridgeImpl {
    /// Whether rounding changes a tensor of this backend.
    pub fn round(env: &FlowEnv, backend: FlowBackend) -> (r: bool)
        ensures
            r == kernel_backend(*env, backend),
    {
        runs_kernels(env, backend)
    }
}

/// Whether intermediate tensors are rounded to brain-float precision.
pub fn sparse_flow_stock_bf16_round(env: &FlowEnv, backend: FlowBackend) -> (r: bool)
    ensures
        r == (env.debug.sparse_flow_stock_bf16_emulation && kernel_backend(*env, backend)),
{
    if env.wgpu && env.debug.sparse_flow_stock_bf16_emulation {
        return SparseFlowBf16EmulationBridgeImpl::round(env, backend);
    }
    false
}

// ---------------------------------------------------------------------------
// Rotation and normalization
// ---------------------------------------------------------------------------

/// Kernels that rotate and normalize tokens.
#[derive(Clone, Copy, Debug, PartialEq, Eq, Structural)]
pub struct RopeRotateWgpuBridgeImpl;

impl RopeRotateWgpuBridgeImpl {
    /// Rotation of channel pairs by given angles.
    pub fn rotate(env: &FlowEnv, backend: FlowBackend) -> (r: KernelCall)
        ensures
            r == elementwise_call(kernel_backend(*env, backend), seq![]),
    {
        assert(!is_empty_shape(seq![]));
        if runs_kernels(env, backend) {
            KernelCall::Launch
        } else {
            KernelCall::Unavailable
        }
    }

    /// Rotation of channel pairs by grid coordinates.
    pub fn rotate_coords(env: &FlowEnv, backend: FlowBackend) -> (r: KernelCall)
        ensures
            r == elementwise_call(kernel_backend(*env, backend), seq![]),
    {
        Self::rotate(env, backend)
    }

    /// Layer norm without parameters over `[batch, tokens, channels]`.
    pub fn no_affine(
        env: &FlowEnv,
        backend: FlowBackend,
        kernel_enabled: bool,
        dims: [usize; 3],
    ) -> (r: KernelCall)
        ensures
            r == elementwise_call(kernel_backend(*env, backend) && kernel_enabled, dims@),
    {
        if !runs_kernels(env, backend) || !kernel_enabled {
            return KernelCall::Unavailable;
        }
        if three_dims_empty(dims) {
            return KernelCall::Unchanged;
        }
        KernelCall::Launch
    }

    /// Layer norm with gain and bias over `[batch, tokens, channels]`.
    pub fn affine(
        env: &FlowEnv,
        backend: FlowBackend,
        kernel_enabled: bool,
        dims: [usize; 3],
    ) -> (r: KernelCall)
        ensures
            r == elementwise_call(kernel_backend(*env, backend) && kernel_enabled, dims@),
    {
        Self::no_affine(env, backend, kernel_enabled, dims)
    }

    /// Layer norm with modulation over `[batch, tokens, channels]`.
    pub fn modulated(
        env: &FlowEnv,
        backend: FlowBackend,
        kernel_enabled: bool,
        dims: [usize; 3],
    ) -> (r: KernelCall)
        ensures
            r == elementwise_call(kernel_backend(*env, backend) && kernel_enabled, dims@),
    {
        Self::no_affine(env, backend, kernel_enabled, dims)
    }

    /// Norm of each head over `[batch, tokens, heads, head_dim]`.
    pub fn multihead(
        env: &FlowEnv,
        backend: FlowBackend,
        kernel_enabled: bool,
        dims: [usize; 4],
    ) -> (r: KernelCall)
        ensures
            r == elementwise_call(kernel_backend(*env, backend) && kernel_enabled, dims@),
    {
        if !runs_kernels(env, backend) || !kernel_enabled {
            return KernelCall::Unavailable;
        }
        if four_dims_empty(dims) {
            return KernelCall::Unchanged;
        }
        KernelCall::Launch
    }

    /// Norm and rotation of each head over `[batch, tokens, heads, head_dim]`.
    pub fn multihead_rope_coords(
        env: &FlowEnv,
        backend: FlowBackend,
        kernel_enabled: bool,
        dims: [usize; 4],
    ) -> (r: KernelCall)
        ensures
            r == elementwise_call(
                kernel_backend(*env, backend) && kernel_enabled
                    && env.debug.sparse_flow_coord_rope_kernel,
                dims@,
            ),
    {
        Self::multihead(
            env,
            backend,
            kernel_enabled && env.debug.sparse_flow_coord_rope_kernel,
            dims,
        )
    }

    /// Norm and rotation of queries and keys out of
    /// `[batch, tokens, qkv, heads, head_dim]`, as token-major tensors.
    pub fn qk_multihead_rope_coords_from_qkv(
        env: &FlowEnv,
        backend: FlowBackend,
        kernel_enabled: bool,
        dims: [usize; 5],
    ) -> (r: KernelCall)
        ensures
            r == fused_qkv_call(
                kernel_backend(*env, backend) && kernel_enabled
                    && env.debug.sparse_flow_coord_rope_kernel,
                dims@[2] as int,
                (dims@[0], dims@[1], dims@[3], dims@[4]),
            ),
    {
        fused_from_qkv(
            runs_kernels(env, backend) && kernel_enabled
                && env.debug.sparse_flow_coord_rope_kernel,
            dims[2],
            (dims[0], dims[1], dims[3], dims[4]),
        )
    }

    /// Norm and rotation of queries, keys and values out of
    /// `[batch, tokens, qkv, heads, head_dim]`, as head-major tensors.
    pub fn qkv_module_multihead_rope_coords_from_qkv(
        env: &FlowEnv,
        backend: FlowBackend,
        kernel_enabled: bool,
        dims: [usize; 5],
    ) -> (r: KernelCall)
        ensures
            r == fused_qkv_call(
                kernel_backend(*env, backend) && kernel_enabled
                    && env.debug.sparse_flow_coord_rope_kernel,
                dims@[2] as int,
                (dims@[0], dims@[3], dims@[1], dims@[4]),
            ),
    {
        fused_from_qkv(
            runs_kernels(env, backend) && kernel_enabled
                && env.debug.sparse_flow_coord_rope_kernel,
            dims[2],
            (dims[0], dims[3], dims[1], dims[4]),
        )
    }
}

/// A kernel on joint queries, keys and values with outputs of shape `out`.
pub open spec fn fused_qkv_call(available: bool, qkv_dim: int, out: (usize, usize, usize, usize)) -> KernelCall {
    if !available {
        KernelCall::Unavailable
    } else if is_empty_shape(seq![out.0, out.1, out.2, out.3]) {
        KernelCall::Zeros { dims: out }
    } else if qkv_dim != 3 {
        KernelCall::Unavailable
    } else {
        KernelCall::Launch
    }
}

fn fused_from_qkv(available: bool, qkv_dim: usize, out: (usize, usize, usize, usize)) -> (r: KernelCall)
    ensures
        r == fused_qkv_call(available, qkv_dim as int, out),
{
    if !available {
        return KernelCall::Unavailable;
    }
    let dims: [usize; 4] = [out.0, out.1, out.2, out.3];
    assert(dims@ =~= seq![out.0, out.1, out.2, out.3]);
    if four_dims_empty(dims) {
        return KernelCall::Zeros { dims: out };
    }
    if qkv_dim != 3 {
        return KernelCall::Unavailable;
    }
    KernelCall::Launch
}

/// A modulated layer norm goes through its own kernel.
pub open spec fn modulated_norm_call(
    env: FlowEnv,
    backend: FlowBackend,
    kernel_enabled: bool,
    decomposed: bool,
    dims: Seq<usize>,
) -> KernelCall {
    elementwise_call(kernel_backend(env, backend) && kernel_enabled && !decomposed, dims)
}

/// Modulated layer norm over `[batch, tokens, channels]`: one kernel, unless
/// large single-precision inputs are better served by separate operations.
pub fn layer_norm_modulated(
    env: &FlowEnv,
    backend: FlowBackend,
    kernel_enabled: bool,
    dtype: FloatDType,
    dims: [usize; 3],
) -> (r: KernelCall)
    ensures
        r == modulated_norm_call(
            *env,
            backend,
            kernel_enabled,
            prefers_decomposed_norm(
                *env,
                backend,
                dtype,
                dims@[0] as int,
                dims@[1] as int,
                dims@[2] as int,
            ),
            dims@,
        ),
{
    if sparse_flow_prefers_decomposed_modulated_layer_norm(
        env,
        backend,
        dtype,
        dims[0],
        dims[1],
        dims[2],
    ) {
        return KernelCall::Unavailable;
    }
    RopeRotateWgpuBridgeImpl::modulated(env, backend, kernel_enabled, dims)
}

// ---------------------------------------------------------------------------
// Linear layers
// ---------------------------------------------------------------------------

/// Kernels of linear layers.
#[derive(Clone, Copy, Debug, PartialEq, Eq, Structural)]
pub struct SparseFlowLinearWgpuBridgeImpl;

impl SparseFlowLinearWgpuBridgeImpl {
    /// Matrix product by the plain kernel: needed in a browser only.
    pub fn safe_matmul_2d(env: &FlowEnv, backend: FlowBackend) -> (r: KernelCall)
        ensures
            r == elementwise_call(kernel_backend(*env, backend) && env.wasm32, seq![]),
    {
        assert(!is_empty_shape(seq![]));
        if runs_kernels(env, backend) && env.wasm32 {
            KernelCall::Launch
        } else {
            KernelCall::Unavailable
        }
    }

    /// Half-precision product of `rows` rows with an `in_channels` by
    /// `out_channels` weight.
    pub fn f16_linear(
        env: &FlowEnv,
        backend: FlowBackend,
        rows: usize,
        in_channels: usize,
        out_channels: usize,
    ) -> (r: KernelCall)
        ensures
            r == elementwise_call(
                kernel_backend(*env, backend) && rows > 0 && in_channels > 0 && out_channels > 0,
                seq![],
            ),
    {
        assert(!is_empty_shape(seq![]));
        if !runs_kernels(env, backend) {
            return KernelCall::Unavailable;
        }
        if rows == 0 || in_channels == 0 || out_channels == 0 {
            return KernelCall::Unavailable;
        }
        KernelCall::Launch
    }

    /// Whether the parameters of a layer are kept in half precision.
    pub fn cache_f16_linear(
        env: &FlowEnv,
        backend: FlowBackend,
        in_channels: usize,
        out_channels: usize,
    ) -> (r: bool)
        ensures
            r == (kernel_backend(*env, backend) && in_channels > 0 && out_channels > 0),
    {
        runs_kernels(env, backend) && in_channels != 0 && out_channels != 0
    }

    /// Product with few input channels; only layers with a bias have it.
    pub fn skinny_linear(
        env: &FlowEnv,
        backend: FlowBackend,
        rows: usize,
        in_channels: usize,
        out_channels: usize,
        has_bias: bool,
    ) -> (r: KernelCall)
        ensures
            r == elementwise_call(
                kernel_backend(*env, backend) && rows > 0 && in_channels > 0 && out_channels > 0
                    && has_bias,
                seq![],
            ),
    {
        if !has_bias {
            return KernelCall::Unavailable;
        }
        Self::f16_linear(env, backend, rows, in_channels, out_channels)
    }
}

/// What a layer's converted parameters are kept under.
#[derive(Clone, Copy, Debug, PartialEq, Eq, Structural)]
pub struct LinearF16CacheKey {
    pub weight_id: u64,
    pub bias_id: Option<u64>,
    pub in_channels: usize,
    pub out_channels: usize,
}

/// Converted parameters by layer.
#[derive(Debug)]
pub struct LinearParamCache<V> {
    entries: Vec<(LinearF16CacheKey, Arc<V>)>,
}

impl<V> LinearParamCache<V> {
    /// Kept parameters by key.
    pub closed spec fn view(self) -> Map<LinearF16CacheKey, Arc<V>> {
        entries_map(self.entries@)
    }

    /// Keys are distinct.
    #[verifier::type_invariant]
    closed spec fn inv(self) -> bool {
        distinct_keys(self.entries@)
    }

    /// An empty cache.
    pub fn new() -> (r: Self)
        ensures
            r@ == Map::<LinearF16CacheKey, Arc<V>>::empty(),
    {
        LinearParamCache { entries: Vec::new() }
    }

    /// The parameters kept for a key; where there are none, `convert` makes
    /// them and they are kept.
    pub fn cached_linear_f16_params<G: FnOnce() -> V>(
        &mut self,
        key: LinearF16CacheKey,
        convert: G,
    ) -> (r: Arc<V>)
        requires
            call_requires(convert, ()),
        ensures
            old(self)@.dom().contains(key) ==> r == old(self)@[key] && final(self)@ == old(self)@,
            !old(self)@.dom().contains(key) ==> call_ensures(convert, (), *r) && final(self)@
                == old(self)@.insert(key, r),
    {
        proof {
            use_type_invariant(&*self);
            lemma_entries_map(self.entries@);
        }
        let ghost before = self.entries@;
        let mut i: usize = 0;
        while i < self.entries.len()
            invariant
                self.entries@ == before,
                *self == *old(self),
                distinct_keys(before),
                i <= before.len(),
                forall|j: int| 0 <= j < i ==> (#[trigger] before[j]).0 != key,
            decreases before.len() - i,
        {
            if self.entries[i].0 == key {
                proof {
                    lemma_entries_map(before);
                    assert(before[i as int].0 == key);
                }
                return self.entries[i].1.clone();
            }
            i = i + 1;
        }
        assert(!entries_map(before).dom().contains(key));
        let made: Arc<V> = Arc::new(convert());
        let mut entries: Vec<(LinearF16CacheKey, Arc<V>)> = Vec::new();
        core::mem::swap(&mut entries, &mut self.entries);
        entries.push((key, made.clone()));
        proof {
            assert(entries@.drop_last() =~= before);
            assert forall|a: int, b: int|
                0 <= a < entries@.len() && 0 <= b < entries@.len() && (#[trigger] entries@[a]).0
                    == (#[trigger] entries@[b]).0 implies a == b by {
                if a < before.len() {
                    assert(entries@[a] == before[a]);
                }
                if b < before.len() {
                    assert(entries@[b] == before[b]);
                }
            }
        }
        *self = LinearParamCache { entries };
        made
    }
}

} // verus!
