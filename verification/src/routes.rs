//! How a linear layer, a rotation, and a norm with its rotation are computed
//! on a backend.
use crate::kernels::{
    elementwise_call, kernel_backend, sparse_flow_stock_bf16_round, KernelCall,
    RopeRotateWgpuBridgeImpl, SparseFlowLinearWgpuBridgeImpl,
};
use crate::policy::{
    fast_linear_shape, linear_attention_keeps_f16, linear_matmul_dtype, linear_tries_fast_f16,
    sparse_flow_wgpu_coord_rope_kernel_enabled, FloatDType, FlowBackend, FlowEnv,
};
use crate::arith::saturating_mul;
use crate::rope::rope_coord_range;
use vstd::prelude::*;

verus! {

// ---------------------------------------------------------------------------
// Linear layers
// ---------------------------------------------------------------------------

/// How a linear layer is computed.
#[derive(Clone, Copy, Debug, PartialEq, Eq, Structural)]
pub enum LinearRoute {
    /// By the half-precision kernel with kept parameters, then in `output`.
    FastF16 { output: FloatDType },
    /// With operands in half precision, which the output stays in.
    HalfRaw,
    /// With operands in `matmul`, and the output in the format of the input.
    Reference {
        matmul: FloatDType,
        /// By the plain matrix kernel.
        plain_kernel: bool,
        /// Parameters and output are rounded to brain-float precision.
        rounded: bool,
    },
}

/// The reference form of a linear layer.
pub open spec fn reference_route(
    env: FlowEnv,
    backend: FlowBackend,
    x_dtype: FloatDType,
    emulate_bf16_block: bool,
) -> LinearRoute {
    LinearRoute::Reference {
        matmul: if x_dtype == FloatDType::BF16 {
            FloatDType::F32
        } else {
            x_dtype
        },
        plain_kernel: kernel_backend(env, backend) && env.wasm32,
        rounded: emulate_bf16_block && env.debug.sparse_flow_stock_bf16_emulation
            && kernel_backend(env, backend),
    }
}

/// The half-precision kernel serves a layer of this shape.
pub open spec fn fast_f16_serves(
    env: FlowEnv,
    backend: FlowBackend,
    rows: int,
    in_channels: int,
    out_channels: int,
) -> bool {
    env.linear_f16() && env.non_fusion_module_kernel(backend) && fast_linear_shape(
        rows,
        in_channels,
        out_channels,
    )
}

/// The reference form of a linear layer.
pub fn linear_forward_stable_2d_reference_impl(
    env: &FlowEnv,
    backend: FlowBackend,
    x_dtype: FloatDType,
    emulate_bf16_block: bool,
) -> (r: LinearRoute)
    ensures
        r == reference_route(*env, backend, x_dtype, emulate_bf16_block),
{
    LinearRoute::Reference {
        matmul: linear_matmul_dtype(x_dtype),
        plain_kernel: SparseFlowLinearWgpuBridgeImpl::safe_matmul_2d(env, backend).available(),
        rounded: emulate_bf16_block && sparse_flow_stock_bf16_round(env, backend),
    }
}

/// How a layer with an `in_channels` by `out_channels` weight is computed on
/// `rows` rows.
pub fn linear_forward_stable_2d_with_policy(
    env: &FlowEnv,
    backend: FlowBackend,
    x_dtype: FloatDType,
    rows: usize,
    in_channels: usize,
    out_channels: usize,
    allow_fast_f16: bool,
    emulate_bf16_block: bool,
) -> (r: LinearRoute)
    ensures
        r == (if allow_fast_f16 && fast_f16_serves(
            *env,
            backend,
            rows as int,
            in_channels as int,
            out_channels as int,
        ) {
            LinearRoute::FastF16 { output: x_dtype }
        } else {
            reference_route(*env, backend, x_dtype, emulate_bf16_block)
        }),
{
    if linear_tries_fast_f16(env, backend, allow_fast_f16, rows, in_channels, out_channels) {
        let call: KernelCall = SparseFlowLinearWgpuBridgeImpl::f16_linear(
            env,
            backend,
            rows,
            in_channels,
            out_channels,
        );
        if call.available() {
            return LinearRoute::FastF16 { output: x_dtype };
        }
    }
    linear_forward_stable_2d_reference_impl(env, backend, x_dtype, emulate_bf16_block)
}

/// How a layer is computed whose output stays in half precision.
pub fn linear_forward_f16_raw_2d(
    env: &FlowEnv,
    backend: FlowBackend,
    rows: usize,
    in_channels: usize,
    out_channels: usize,
) -> (r: LinearRoute)
    ensures
        r == (if fast_f16_serves(
            *env,
            backend,
            rows as int,
            in_channels as int,
            out_channels as int,
        ) {
            LinearRoute::FastF16 { output: FloatDType::F16 }
        } else {
            LinearRoute::HalfRaw
        }),
{
    if linear_tries_fast_f16(env, backend, true, rows, in_channels, out_channels) {
        let call: KernelCall = SparseFlowLinearWgpuBridgeImpl::f16_linear(
            env,
            backend,
            rows,
            in_channels,
            out_channels,
        );
        if call.available() {
            return LinearRoute::FastF16 { output: FloatDType::F16 };
        }
    }
    LinearRoute::HalfRaw
}

/// How a projection of attention is computed on `[batch, tokens, channels]`.
pub fn linear_forward_attention(
    env: &FlowEnv,
    backend: FlowBackend,
    x_dtype: FloatDType,
    batch: usize,
    tokens: usize,
    in_channels: usize,
    out_channels: usize,
    allow_f16_output: bool,
) -> (r: LinearRoute)
    requires
        batch * tokens <= usize::MAX,
    ensures
        r == (if fast_f16_serves(
            *env,
            backend,
            batch * tokens,
            in_channels as int,
            out_channels as int,
        ) {
            LinearRoute::FastF16 {
                output: if allow_f16_output {
                    FloatDType::F16
                } else {
                    x_dtype
                },
            }
        } else {
            reference_route(*env, backend, x_dtype, true)
        }),
{
    let rows: usize = saturating_mul(batch, tokens);
    if linear_attention_keeps_f16(
        env,
        backend,
        allow_f16_output,
        batch,
        tokens,
        in_channels,
        in_channels,
        out_channels,
    ) {
        return linear_forward_f16_raw_2d(env, backend, rows, in_channels, out_channels);
    }
    linear_forward_stable_2d_with_policy(
        env,
        backend,
        x_dtype,
        rows,
        in_channels,
        out_channels,
        true,
        true,
    )
}

// ---------------------------------------------------------------------------
// Rotations and norms
// ---------------------------------------------------------------------------

/// How tokens are rotated.
#[derive(Clone, Copy, Debug, PartialEq, Eq, Structural)]
pub enum RopeRoute {
    /// There is nothing to rotate.
    Unrotated,
    /// By a kernel, from the coordinate rows `start..end`.
    CoordKernel { start: usize, end: usize },
    /// By angles made of the coordinate rows `start..end`; `kernel` says
    /// whether a kernel turns the pairs.
    CoordPhase { start: usize, end: usize, kernel: bool },
    /// By the angles of a dense grid.
    Grid { kernel: bool },
}

/// A run of tokens has its coordinate rows.
pub open spec fn coords_cover(
    coords: Option<(usize, usize)>,
    token_start: int,
    tokens: int,
) -> bool {
    coords matches Some(dims) ==> dims.1 == 3 && token_start + tokens <= dims.0
}

/// How tokens are rotated.
pub open spec fn rope_route_of(
    env: FlowEnv,
    backend: FlowBackend,
    tokens: usize,
    head_dim: usize,
    coords: Option<(usize, usize)>,
    token_start: usize,
) -> RopeRoute {
    if head_dim < 2 || tokens == 0 {
        RopeRoute::Unrotated
    } else if coords is Some {
        let end = (token_start + tokens) as usize;
        if env.debug.sparse_flow_coord_rope_kernel && kernel_backend(env, backend) {
            RopeRoute::CoordKernel { start: token_start, end }
        } else {
            RopeRoute::CoordPhase {
                start: token_start,
                end,
                kernel: kernel_backend(env, backend),
            }
        }
    } else {
        RopeRoute::Grid { kernel: kernel_backend(env, backend) }
    }
}

/// How a run of tokens is rotated. Coordinates are given by rows and columns.
pub fn apply_rope_single(
    env: &FlowEnv,
    backend: FlowBackend,
    tokens: usize,
    head_dim: usize,
    coords: Option<(usize, usize)>,
    token_start: usize,
) -> (r: RopeRoute)
    requires
        head_dim >= 2 && tokens > 0 ==> coords_cover(coords, token_start as int, tokens as int),
    ensures
        r == rope_route_of(*env, backend, tokens, head_dim, coords, token_start),
{
    let pairs: usize = head_dim / 2;
    if pairs == 0 || tokens == 0 {
        return RopeRoute::Unrotated;
    }
    let kernel: bool = RopeRotateWgpuBridgeImpl::rotate(env, backend).available();
    if let Some((coord_rows, coord_cols)) = coords {
        let rows: core::ops::Range<usize> = rope_coord_range(
            coord_rows,
            coord_cols,
            token_start,
            tokens,
        );
        if env.wgpu && sparse_flow_wgpu_coord_rope_kernel_enabled(env)
            && RopeRotateWgpuBridgeImpl::rotate_coords(env, backend).available() {
            return RopeRoute::CoordKernel { start: rows.start, end: rows.end };
        }
        return RopeRoute::CoordPhase { start: rows.start, end: rows.end, kernel };
    }
    RopeRoute::Grid { kernel }
}

/// How queries or keys are normalized and rotated.
#[derive(Clone, Copy, Debug, PartialEq, Eq)]
pub enum NormRopeRoute {
    /// Both by one kernel, from the coordinate rows `start..end`.
    Fused { call: KernelCall, start: usize, end: usize },
    /// One after the other, where they are asked for.
    Separate { norm: Option<KernelCall>, rope: Option<RopeRoute> },
}

/// How `[batch, tokens, heads, head_dim]` is normalized and rotated.
pub fn apply_rms_norm_and_rope_single(
    env: &FlowEnv,
    backend: FlowBackend,
    kernel_enabled: bool,
    has_norm: bool,
    use_rope: bool,
    dims: [usize; 4],
    coords: Option<(usize, usize)>,
    token_start: usize,
) -> (r: NormRopeRoute)
    requires
        use_rope && (has_norm || (dims@[3] >= 2 && dims@[1] > 0)) ==> coords_cover(
            coords,
            token_start as int,
            dims@[1] as int,
        ),
    ensures
        ({
            let kernels = kernel_backend(*env, backend) && kernel_enabled;
            let fused = elementwise_call(
                kernels && env.debug.sparse_flow_coord_rope_kernel,
                dims@,
            );
            if has_norm && use_rope && coords is Some && fused != KernelCall::Unavailable {
                r == (NormRopeRoute::Fused {
                    call: fused,
                    start: token_start,
                    end: (token_start + dims@[1]) as usize,
                })
            } else {
                r == (NormRopeRoute::Separate {
                    norm: if has_norm {
                        Some(elementwise_call(kernels, dims@))
                    } else {
                        None
                    },
                    rope: if use_rope {
                        Some(
                            rope_route_of(
                                *env,
                                backend,
                                dims@[1],
                                dims@[3],
                                coords,
                                token_start,
                            ),
                        )
                    } else {
                        None
                    },
                })
            }
        }),
{
    let tokens: usize = dims[1];
    if has_norm && use_rope {
        if let Some((coord_rows, coord_cols)) = coords {
            let rows: core::ops::Range<usize> = rope_coord_range(
                coord_rows,
                coord_cols,
                token_start,
                tokens,
            );
            let call: KernelCall = RopeRotateWgpuBridgeImpl::multihead_rope_coords(
                env,
                backend,
                kernel_enabled,
                dims,
            );
            if call.available() {
                return NormRopeRoute::Fused { call, start: rows.start, end: rows.end };
            }
        }
    }
    let norm: Option<KernelCall> = if has_norm {
        Some(RopeRotateWgpuBridgeImpl::multihead(env, backend, kernel_enabled, dims))
    } else {
        None
    };
    let rope: Option<RopeRoute> = if use_rope {
        Some(apply_rope_single(env, backend, tokens, dims[3], coords, token_start))
    } else {
        None
    };
    NormRopeRoute::Separate { norm, rope }
}

} // verus!
