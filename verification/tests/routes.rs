use burn_trellis::kernels::KernelCall;
use burn_trellis::policy::{FloatDType, FlowBackend, FlowEnv, RuntimeModelDebugConfig};
use burn_trellis::routes::{
    apply_rms_norm_and_rope_single, apply_rope_single, linear_forward_attention,
    linear_forward_f16_raw_2d, linear_forward_stable_2d_with_policy, LinearRoute, NormRopeRoute,
    RopeRoute,
};

fn env(coord_rope_kernel: bool, bf16_emulation: bool) -> FlowEnv {
    FlowEnv {
        wgpu: true,
        wasm32: false,
        debug: RuntimeModelDebugConfig {
            stage_debug: false,
            attention_debug: false,
            sparse_flow_module_attention: true,
            sparse_flow_module_attention_f16: true,
            sparse_flow_linear_f16: true,
            sparse_flow_torso_f16: true,
            sparse_flow_stock_bf16_emulation: bf16_emulation,
            sparse_flow_coord_rope_kernel: coord_rope_kernel,
            sparse_decoder_conv_f16: false,
        },
        self_attention_f16: true,
        cross_attention_f16: true,
        batched_cfg: false,
    }
}

#[test]
fn large_linear_layers_take_the_half_precision_kernel() {
    let env = env(true, false);
    let route = |rows: usize, allow: bool| {
        linear_forward_stable_2d_with_policy(
            &env,
            FlowBackend::Wgpu,
            FloatDType::F32,
            rows,
            64,
            64,
            allow,
            false,
        )
    };
    let plain = LinearRoute::Reference {
        matmul: FloatDType::F32,
        plain_kernel: false,
        rounded: false,
    };
    assert_eq!(route(1_024, true), LinearRoute::FastF16 { output: FloatDType::F32 });
    assert_eq!(route(1_023, true), plain);
    assert_eq!(route(1_024, false), plain);
    assert_eq!(
        linear_forward_f16_raw_2d(&env, FlowBackend::Wgpu, 1_024, 64, 64),
        LinearRoute::FastF16 { output: FloatDType::F16 }
    );
    assert_eq!(
        linear_forward_f16_raw_2d(&env, FlowBackend::Wgpu, 1_024, 63, 64),
        LinearRoute::HalfRaw
    );
}

#[test]
fn brain_floats_multiply_in_single_precision() {
    assert_eq!(
        linear_forward_stable_2d_with_policy(
            &env(true, true),
            FlowBackend::Wgpu,
            FloatDType::BF16,
            8,
            64,
            64,
            true,
            true,
        ),
        LinearRoute::Reference { matmul: FloatDType::F32, plain_kernel: false, rounded: true }
    );
}

#[test]
fn attention_projections_may_stay_in_half_precision() {
    let env = env(true, false);
    let route = |backend: FlowBackend, allow: bool| {
        linear_forward_attention(&env, backend, FloatDType::F32, 2, 512, 128, 128, allow)
    };
    assert_eq!(
        route(FlowBackend::Wgpu, true),
        LinearRoute::FastF16 { output: FloatDType::F16 }
    );
    assert_eq!(
        route(FlowBackend::Wgpu, false),
        LinearRoute::FastF16 { output: FloatDType::F32 }
    );
    assert_eq!(
        route(FlowBackend::Cpu, true),
        LinearRoute::Reference { matmul: FloatDType::F32, plain_kernel: false, rounded: false }
    );
}

#[test]
fn rotations_read_the_rows_of_their_tokens() {
    let rotate = |kernel: bool, backend: FlowBackend, coords: Option<(usize, usize)>| {
        apply_rope_single(&env(kernel, false), backend, 4, 8, coords, 3)
    };
    assert_eq!(
        rotate(true, FlowBackend::Wgpu, Some((7, 3))),
        RopeRoute::CoordKernel { start: 3, end: 7 }
    );
    assert_eq!(
        rotate(false, FlowBackend::Wgpu, Some((7, 3))),
        RopeRoute::CoordPhase { start: 3, end: 7, kernel: true }
    );
    assert_eq!(
        rotate(true, FlowBackend::Cpu, Some((7, 3))),
        RopeRoute::CoordPhase { start: 3, end: 7, kernel: false }
    );
    assert_eq!(rotate(true, FlowBackend::Cpu, None), RopeRoute::Grid { kernel: false });
    assert_eq!(
        apply_rope_single(&env(true, false), FlowBackend::Wgpu, 4, 1, None, 0),
        RopeRoute::Unrotated
    );
    assert_eq!(
        apply_rope_single(&env(true, false), FlowBackend::Wgpu, 0, 8, Some((0, 3)), 5),
        RopeRoute::Unrotated
    );
}

#[test]
fn norm_and_rotation_fuse_on_coordinates() {
    let route = |backend: FlowBackend, has_norm: bool, use_rope: bool| {
        apply_rms_norm_and_rope_single(
            &env(true, false),
            backend,
            true,
            has_norm,
            use_rope,
            [1, 4, 2, 8],
            Some((7, 3)),
            3,
        )
    };
    assert_eq!(
        route(FlowBackend::Wgpu, true, true),
        NormRopeRoute::Fused { call: KernelCall::Launch, start: 3, end: 7 }
    );
    assert_eq!(
        route(FlowBackend::Wgpu, false, true),
        NormRopeRoute::Separate {
            norm: None,
            rope: Some(RopeRoute::CoordKernel { start: 3, end: 7 }),
        }
    );
    assert_eq!(
        route(FlowBackend::Cpu, true, true),
        NormRopeRoute::Separate {
            norm: Some(KernelCall::Unavailable),
            rope: Some(RopeRoute::CoordPhase { start: 3, end: 7, kernel: false }),
        }
    );
    assert_eq!(
        route(FlowBackend::Cpu, false, false),
        NormRopeRoute::Separate { norm: None, rope: None }
    );
}
