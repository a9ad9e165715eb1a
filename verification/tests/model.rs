use burn_trellis::flags::{
    clear_sparse_flow_sampler_step_for_attention, set_sparse_flow_sampler_step_for_attention,
    sparse_flow_sync_profile_enabled, sparse_flow_weight_probe_enabled,
    sparse_flow_wgpu_layer_norm_kernel_enabled, SamplerStep,
};
use burn_trellis::flow_config::SparseStructureFlowConfig;
use burn_trellis::flow_model::{
    block_logged, block_steps, check_forward_shape, forward_sparse_resolution,
    forward_tokens_with_cross_cache, forward_with_cross_cache, linear_forward_input_token_chunked,
    prewarm_fast_f16_params, record_model_input, BlockStep, ForwardShape, InputChunk,
    ModelPlan, ModulationPart,
};
use burn_trellis::kernels::{
    layer_norm_modulated, sparse_flow_stock_bf16_round, KernelCall, LinearF16CacheKey,
    LinearParamCache, RopeRotateWgpuBridgeImpl, SparseFlowBf16EmulationBridgeImpl,
    SparseFlowLinearWgpuBridgeImpl,
};
use burn_trellis::policy::{FloatDType, FlowBackend, FlowEnv, RuntimeModelDebugConfig};
use burn_trellis::telemetry::{
    counter_add, current_sparse_flow_op_timing_summary, elapsed_ns, host_transfer_stats,
    record_fused_norm_rope, record_host_readback, record_sparse_flow_detail,
    record_sparse_flow_op, reset_host_transfer_stats, reset_sparse_flow_op_telemetry,
    sparse_flow_op_telemetry, FusedNormRope, HostTransferStats, SparseFlowOpDetailKind,
    SparseFlowOpKind, SparseFlowOpTelemetry,
};
use burn_trellis::transformer::{forward_blocks, forward_model, project_cross_attention_cache};
use burn_trellis::text::{parse_flag, push_u64, trim};

fn env() -> FlowEnv {
    FlowEnv {
        wgpu: true,
        wasm32: false,
        debug: RuntimeModelDebugConfig {
            stage_debug: false,
            attention_debug: false,
            sparse_flow_module_attention: true,
            sparse_flow_module_attention_f16: true,
            sparse_flow_linear_f16: true,
            sparse_flow_torso_f16: true,
            sparse_flow_stock_bf16_emulation: true,
            sparse_flow_coord_rope_kernel: true,
            sparse_decoder_conv_f16: false,
        },
        self_attention_f16: true,
        cross_attention_f16: true,
        batched_cfg: false,
    }
}

fn config() -> SparseStructureFlowConfig<f32> {
    SparseStructureFlowConfig::with_defaults(4.0, [1.0, 10_000.0])
}

#[test]
fn modulation_signals_have_six_parts() {
    let parts = [
        ModulationPart::ShiftMsa,
        ModulationPart::ScaleMsa,
        ModulationPart::GateMsa,
        ModulationPart::ShiftMlp,
        ModulationPart::ScaleMlp,
        ModulationPart::GateMlp,
    ];
    let mut next = 0;
    for part in parts {
        let range = part.range(10);
        assert_eq!(range, next..next + 10);
        next = range.end;
    }
    assert_eq!(next, 60);
}

/// Takes a text through blocks; every operation writes down what it reads.
fn pass(layers: &[u32], cache: Option<&Vec<String>>, x: &str) -> String {
    forward_blocks(
        &layers.to_vec(),
        cache,
        x.to_string(),
        &|l: &u32, step: BlockStep, x: &String| match step {
            BlockStep::NormModulated { scale, .. } => format!("{l}{scale:?}({x})"),
            _ => format!("{l}Norm({x})"),
        },
        &|l: &u32, _step: BlockStep, h: String| format!("{l}self({h})"),
        &|_l: &u32, step: BlockStep, x: String, h: String| match step {
            BlockStep::GateResidual { gate } => format!("[{x}+{gate:?}*{h}]"),
            _ => String::new(),
        },
        &|l: &u32| format!("kv{l}"),
        &|l: &u32, x: String, h: String, k: &String| format!("[{x}+{l}cross({h},{k})]"),
        &|l: &u32, _step: BlockStep, h: String| format!("{l}mlp({h})"),
    )
}

#[test]
fn blocks_read_what_was_made_before() {
    let first = "[x+GateMsa*1self(1ScaleMsa(x))]";
    let second = format!("[{first}+1cross(1Norm({first}),kv1)]");
    let third = format!("[{second}+GateMlp*1mlp(1ScaleMlp({second}))]");
    assert_eq!(pass(&[1], None, "x"), third);
    assert_eq!(pass(&[1, 2], None, "x"), pass(&[2], None, &pass(&[1], None, "x")));
    assert_eq!(pass(&[], None, "x"), "x");
    assert!(block_logged(4, 30) && block_logged(29, 30) && !block_logged(5, 30));
}

#[test]
fn cached_projections_change_nothing() {
    let layers = vec![1u32, 2, 3];
    let cache = project_cross_attention_cache(&layers, &|l: &u32| format!("kv{l}"));
    assert_eq!(cache, vec!["kv1", "kv2", "kv3"]);
    assert_eq!(pass(&layers, Some(&cache), "x"), pass(&layers, None, "x"));
    let other = vec!["a".to_string(), "b".to_string(), "c".to_string()];
    assert_ne!(pass(&layers, Some(&other), "x"), pass(&layers, None, "x"));
}

#[test]
fn cached_calls_match_uncached_calls() {
    let layers = vec![0.5f32, -1.25, 2.0];
    let project = |l: &f32| l * 0.3 + 1.0;
    let cache = project_cross_attention_cache(&layers, &project);
    let call = |cached: Option<&Vec<f32>>| {
        let shape = ForwardShape {
            batch: 1,
            tokens: 40_000,
            channels: 8,
            cond_channels: 1024,
            coords: None,
            cached_blocks: cached.map(Vec::len),
        };
        let plan = forward_tokens_with_cross_cache(
            &env(),
            FlowBackend::Wgpu,
            &config(),
            layers.len(),
            &shape,
        );
        assert_eq!(plan.cached, cached.is_some());
        forward_model(
            &plan,
            &layers,
            cached,
            &|chunks: &Vec<InputChunk>, dtype: Option<FloatDType>| {
                assert_eq!(dtype, Some(FloatDType::F16));
                chunks.iter().map(|c| (c.end - c.start) as f32 / 40_000.0).sum::<f32>()
            },
            &|l: &f32, _s: BlockStep, x: &f32| (x * l).tanh(),
            &|l: &f32, _s: BlockStep, h: f32| h - l,
            &|_l: &f32, _s: BlockStep, x: f32, h: f32| x + 0.5 * h,
            &project,
            &|l: &f32, x: f32, h: f32, k: &f32| x + h * k * l,
            &|l: &f32, _s: BlockStep, h: f32| h * h + l,
            &|x: f32, chunks: &Vec<std::ops::Range<usize>>| vec![x; chunks.len()],
        )
    };
    let cached = call(Some(&cache));
    let uncached = call(None);
    assert_eq!(cached.len(), uncached.len());
    assert!(cached.iter().zip(&uncached).all(|(a, b)| (a - b).abs() <= 1e-6));
    let moved: Vec<f32> = cache.iter().map(|k| k + 1.0).collect();
    assert_ne!(call(Some(&moved)), uncached);
}

#[test]
fn models_project_in_and_out() {
    let plan = ModelPlan {
        input: vec![InputChunk { start: 0, end: 2, skinny: true }],
        torso_dtype: Some(FloatDType::F16),
        blocks: 1,
        cached: false,
        output: vec![0..1, 1..2],
    };
    let out = forward_model(
        &plan,
        &vec![()],
        None::<&Vec<()>>,
        &|chunks: &Vec<InputChunk>, dtype: Option<FloatDType>| {
            assert_eq!(dtype, Some(FloatDType::F16));
            chunks.len()
        },
        &|_l: &(), _s: BlockStep, x: &usize| *x,
        &|_l: &(), _s: BlockStep, h: usize| h,
        &|_l: &(), _s: BlockStep, x: usize, h: usize| x + h,
        &|_l: &()| (),
        &|_l: &(), x: usize, h: usize, _k: &()| x + h,
        &|_l: &(), _s: BlockStep, h: usize| h,
        &|x: usize, chunks: &Vec<std::ops::Range<usize>>| (x, chunks.len()),
    );
    assert_eq!(out, (8, 2));
}

#[test]
fn blocks_count_their_operations() {
    let mut telemetry = SparseFlowOpTelemetry::default();
    for step in block_steps(false) {
        step.record(&mut telemetry, 5);
    }
    assert_eq!((telemetry.self_attn_calls, telemetry.self_attn_ns), (1, 5));
    assert_eq!((telemetry.cross_attn_calls, telemetry.mlp_calls), (1, 1));
    assert_eq!((telemetry.block_norm_mod_calls, telemetry.block_norm_mod_ns), (2, 10));
    assert_eq!((telemetry.block_norm_affine_calls, telemetry.block_gate_residual_calls), (1, 2));
    assert_eq!(telemetry.self_qkv_calls, 0);
}

#[test]
fn forward_shapes_are_checked() {
    let config = config();
    let good = ForwardShape {
        batch: 1,
        tokens: 10,
        channels: 8,
        cond_channels: 1024,
        coords: Some((10, 3)),
        cached_blocks: Some(30),
    };
    assert_eq!(check_forward_shape(&good, &config, 30), Ok(()));
    assert_eq!(
        check_forward_shape(&ForwardShape { channels: 7, ..good }, &config, 30),
        Err("sparse flow input channel mismatch")
    );
    assert_eq!(
        check_forward_shape(&ForwardShape { cond_channels: 7, ..good }, &config, 30),
        Err("sparse flow cond channel mismatch")
    );
    assert_eq!(
        check_forward_shape(&ForwardShape { coords: Some((10, 4)), ..good }, &config, 30),
        Err("sparse flow token coord column mismatch")
    );
    assert_eq!(
        check_forward_shape(&ForwardShape { coords: Some((9, 3)), ..good }, &config, 30),
        Err("sparse flow token coords length mismatch")
    );
    assert_eq!(
        check_forward_shape(&good, &config, 29),
        Err("sparse flow cross-attention K/V cache block count mismatch")
    );
}

#[test]
fn tokens_are_routed_through_the_model() {
    let config = config();
    let shape = ForwardShape {
        batch: 1,
        tokens: 40_000,
        channels: 8,
        cond_channels: 1024,
        coords: None,
        cached_blocks: None,
    };
    let plan = forward_tokens_with_cross_cache(&env(), FlowBackend::Wgpu, &config, 30, &shape);
    assert_eq!(plan.torso_dtype, Some(FloatDType::F16));
    assert_eq!(plan.blocks, 30);
    assert!(!plan.cached);
    assert_eq!(plan.output, vec![0..32_768, 32_768..40_000]);
    assert_eq!(plan.input.len(), 2);
    assert!(plan.input.iter().all(|chunk| chunk.skinny));
    assert_eq!((plan.input[1].start, plan.input[1].end), (32_768, 40_000));
    let whole = linear_forward_input_token_chunked(&env(), FlowBackend::Cpu, 2, 100, 8, 1536);
    assert_eq!((whole.len(), whole[0].end, whole[0].skinny), (1, 100, false));
}

#[test]
fn dense_grids_are_flattened_to_tokens() {
    let config = config();
    let dense = forward_with_cross_cache(&config, [2, 8, 16, 16, 16]).unwrap();
    assert_eq!((dense.batch, dense.tokens, dense.out_channels), (2, 4_096, 8));
    assert_eq!(
        forward_with_cross_cache(&config, [2, 7, 16, 16, 16]).unwrap_err(),
        "sparse flow input channel mismatch"
    );
    assert_eq!(
        forward_with_cross_cache(&config, [2, 8, 16, 15, 16]).unwrap_err(),
        "sparse flow input resolution mismatch"
    );
    assert_eq!(forward_sparse_resolution(0), 1);
    assert_eq!(forward_sparse_resolution(64), 64);
}

#[test]
fn heads_follow_the_configuration() {
    let mut config = config();
    assert_eq!(config.num_heads(), 24);
    config.num_heads = Some(12);
    assert_eq!(config.num_heads(), 12);
    config.num_heads = Some(0);
    assert_eq!(config.num_heads(), 1);
    assert!(config.uses_rope());
    config.pe_mode = "ape".to_string();
    assert!(!config.uses_rope());
}

#[test]
fn kernels_run_without_fusion_only() {
    let env = env();
    assert_eq!(RopeRotateWgpuBridgeImpl::rotate(&env, FlowBackend::Wgpu), KernelCall::Launch);
    assert_eq!(
        RopeRotateWgpuBridgeImpl::rotate_coords(&env, FlowBackend::WgpuFusion),
        KernelCall::Unavailable
    );
    assert!(SparseFlowBf16EmulationBridgeImpl::round(&env, FlowBackend::Wgpu));
    assert!(!sparse_flow_stock_bf16_round(&env, FlowBackend::Cpu));
    assert!(!KernelCall::Unavailable.available() && KernelCall::Unchanged.available());
}

#[test]
fn norm_kernels_leave_empty_input_alone() {
    let env = env();
    let wgpu = FlowBackend::Wgpu;
    assert_eq!(
        RopeRotateWgpuBridgeImpl::no_affine(&env, wgpu, true, [1, 0, 8]),
        KernelCall::Unchanged
    );
    assert_eq!(
        RopeRotateWgpuBridgeImpl::affine(&env, wgpu, false, [1, 2, 8]),
        KernelCall::Unavailable
    );
    assert_eq!(
        RopeRotateWgpuBridgeImpl::multihead_rope_coords(&env, wgpu, true, [1, 2, 3, 4]),
        KernelCall::Launch
    );
    assert_eq!(
        RopeRotateWgpuBridgeImpl::qk_multihead_rope_coords_from_qkv(&env, wgpu, true, [1, 0, 3, 2, 4]),
        KernelCall::Zeros { dims: (1, 0, 2, 4) }
    );
    assert_eq!(
        RopeRotateWgpuBridgeImpl::qkv_module_multihead_rope_coords_from_qkv(
            &env,
            wgpu,
            true,
            [1, 0, 3, 2, 4]
        ),
        KernelCall::Zeros { dims: (1, 2, 0, 4) }
    );
    assert_eq!(
        RopeRotateWgpuBridgeImpl::qk_multihead_rope_coords_from_qkv(&env, wgpu, true, [1, 5, 2, 2, 4]),
        KernelCall::Unavailable
    );
    assert_eq!(
        layer_norm_modulated(&env, wgpu, true, FloatDType::F32, [1, 1_024, 1_024]),
        KernelCall::Unavailable,
        "large single-precision norms are decomposed"
    );
    assert_eq!(
        layer_norm_modulated(&env, wgpu, true, FloatDType::F16, [1, 1_024, 1_024]),
        KernelCall::Launch
    );
}

#[test]
fn linear_kernels_need_something_to_multiply() {
    let env = env();
    let wgpu = FlowBackend::Wgpu;
    assert_eq!(SparseFlowLinearWgpuBridgeImpl::safe_matmul_2d(&env, wgpu), KernelCall::Unavailable);
    let browser = FlowEnv { wasm32: true, ..env };
    assert_eq!(SparseFlowLinearWgpuBridgeImpl::safe_matmul_2d(&browser, wgpu), KernelCall::Launch);
    assert_eq!(
        SparseFlowLinearWgpuBridgeImpl::f16_linear(&env, wgpu, 0, 8, 8),
        KernelCall::Unavailable
    );
    assert_eq!(
        SparseFlowLinearWgpuBridgeImpl::skinny_linear(&env, wgpu, 4, 8, 8, false),
        KernelCall::Unavailable
    );
    assert_eq!(
        SparseFlowLinearWgpuBridgeImpl::skinny_linear(&env, wgpu, 4, 8, 8, true),
        KernelCall::Launch
    );
    let layer = |weight_id: u64, in_channels: usize, out_channels: usize| LinearF16CacheKey {
        weight_id,
        bias_id: None,
        in_channels,
        out_channels,
    };
    let layers = vec![layer(1, 8, 8), layer(2, 0, 8), layer(3, 8, 4)];
    let mut cache: LinearParamCache<u64> = LinearParamCache::new();
    let convert = |key: &LinearF16CacheKey| key.weight_id * 10;
    assert_eq!(
        prewarm_fast_f16_params(&env, FlowBackend::Cpu, &layers, &mut cache, &convert),
        0
    );
    assert_eq!(prewarm_fast_f16_params(&env, wgpu, &layers, &mut cache, &convert), 2);
    assert_eq!(*cache.cached_linear_f16_params(layers[0], || 99), 10);
    assert_eq!(*cache.cached_linear_f16_params(layers[1], || 99), 99);
    assert_eq!(*cache.cached_linear_f16_params(layers[2], || 99), 30);
}

#[test]
fn converted_parameters_are_kept() {
    let key = LinearF16CacheKey { weight_id: 1, bias_id: Some(2), in_channels: 3, out_channels: 4 };
    let mut cache: LinearParamCache<u32> = LinearParamCache::new();
    assert_eq!(*cache.cached_linear_f16_params(key, || 10), 10);
    assert_eq!(*cache.cached_linear_f16_params(key, || 11), 10);
    let other = LinearF16CacheKey { bias_id: None, ..key };
    assert_eq!(*cache.cached_linear_f16_params(other, || 12), 12);
}

#[test]
fn switches_read_their_variables() {
    assert_eq!(parse_flag(" Yes "), Some(true));
    assert_eq!(parse_flag("OFF"), Some(false));
    assert_eq!(parse_flag("2"), None);
    assert!(!sparse_flow_sync_profile_enabled(None));
    assert!(sparse_flow_sync_profile_enabled(Some("true")));
    assert!(sparse_flow_wgpu_layer_norm_kernel_enabled(Some("maybe")));
    assert!(!sparse_flow_wgpu_layer_norm_kernel_enabled(Some("no")));
    let mut debugging = env();
    debugging.debug.stage_debug = true;
    assert!(sparse_flow_weight_probe_enabled(&debugging, Some("0")));
    assert!(!sparse_flow_weight_probe_enabled(&env(), Some("0")));
    assert_eq!(trim("\t a b \u{a0}"), "a b");
}

#[test]
fn backends_are_known_by_their_type_names() {
    assert_eq!(FlowBackend::from_type_name("burn_ndarray::NdArray"), FlowBackend::Cpu);
    assert_eq!(
        FlowBackend::from_type_name("burn_cubecl::CubeBackend<cubecl_wgpu::WgpuRuntime>"),
        FlowBackend::Wgpu
    );
    assert_eq!(
        FlowBackend::from_type_name("burn_fusion::Fusion<CubeBackend<cubecl_wgpu::Runtime>>"),
        FlowBackend::WgpuFusion
    );
}

#[test]
fn sampler_steps_are_announced_on_the_device() {
    let mut step = None;
    set_sparse_flow_sampler_step_for_attention(&mut step, false, 1, 4);
    assert_eq!(step, None);
    set_sparse_flow_sampler_step_for_attention(&mut step, true, 1, 4);
    assert_eq!(step, Some(SamplerStep { step_idx: 1, step_count: 4 }));
    clear_sparse_flow_sampler_step_for_attention(&mut step, true);
    assert_eq!(step, None);
}

#[test]
fn counters_count_and_reset() {
    let mut telemetry = SparseFlowOpTelemetry::default();
    record_sparse_flow_op(&mut telemetry, SparseFlowOpKind::Mlp, 7);
    record_sparse_flow_detail(&mut telemetry, SparseFlowOpDetailKind::CrossKv, 9);
    record_fused_norm_rope(&mut telemetry, FusedNormRope::Qk, true);
    record_fused_norm_rope(&mut telemetry, FusedNormRope::QkvModule, false);
    record_model_input(&mut telemetry, 3);
    let seen = sparse_flow_op_telemetry(&telemetry);
    assert_eq!((seen.mlp_calls, seen.mlp_ns), (1, 7));
    assert_eq!((seen.cross_kv_calls, seen.cross_kv_ns), (1, 9));
    assert_eq!(seen.self_norm_rope_fused_qk_calls, 1);
    assert_eq!(seen.self_norm_rope_fused_qkv_module_calls, 0);
    assert_eq!((seen.model_io_ns, seen.model_input_ns, seen.model_output_calls), (3, 3, 0));
    let summary = current_sparse_flow_op_timing_summary(&telemetry);
    assert_eq!((summary.mlp_calls, summary.cross_kv_ns), (1, 9));
    reset_sparse_flow_op_telemetry(&mut telemetry);
    assert_eq!(sparse_flow_op_telemetry(&telemetry).mlp_calls, 0);
    assert_eq!(counter_add(u64::MAX, 2), 1);
    assert_eq!(elapsed_ns(u128::MAX), u64::MAX);
    assert_eq!(elapsed_ns(12), 12);
}

#[test]
fn records_may_come_in_either_order() {
    let mut a = SparseFlowOpTelemetry::default();
    record_sparse_flow_op(&mut a, SparseFlowOpKind::Mlp, 7);
    record_sparse_flow_op(&mut a, SparseFlowOpKind::SelfAttn, 9);
    let mut b = SparseFlowOpTelemetry::default();
    record_sparse_flow_op(&mut b, SparseFlowOpKind::SelfAttn, 9);
    record_sparse_flow_op(&mut b, SparseFlowOpKind::Mlp, 7);
    assert_eq!(format!("{a:?}"), format!("{b:?}"));
}

#[test]
fn readbacks_are_counted() {
    let mut stats = HostTransferStats::default();
    record_host_readback(&mut stats, 5);
    record_host_readback(&mut stats, 6);
    let seen = host_transfer_stats(&stats);
    assert_eq!((seen.readback_count, seen.readback_elements), (2, 11));
    reset_host_transfer_stats(&mut stats);
    assert_eq!(host_transfer_stats(&stats).readback_count, 0);
}

#[test]
fn numbers_are_written_in_decimal() {
    let mut out = String::from("n=");
    push_u64(&mut out, 0);
    push_u64(&mut out, u64::MAX);
    assert_eq!(out, "n=018446744073709551615");
}
