use burn_trellis::roots::integer_sqrt;
use burn_trellis::attention::{
    plan_attention, plan_dense_attention, plan_module_attention, plan_stream_attention,
    AttentionDispatch, ModuleAttentionPlan, PlainAttentionPlan,
};
use burn_trellis::chunks::{chunk_ranges, whole_or_chunk_ranges};
use burn_trellis::cross_attention::{
    concat_cross_kv_caches, cross_attention_cache_estimated_bytes, cross_attention_step_detail,
    cross_attention_steps, plan_cross_attention, plan_cross_attention_caches,
    projected_module_dtype, CrossAttentionProjectedKv, CrossAttentionStep, CrossCachePlan,
};
use burn_trellis::feed_forward::{mlp_row_chunks, plan_feed_forward, FeedForwardPlan};
use burn_trellis::flags::sparse_flow_batched_cfg_experimental_enabled;
use burn_trellis::policy::{
    attention_impl, attention_logits_bytes, attention_uses_non_fusion_module_kernel, bytes_to_mib,
    feed_forward_f16_chain_enabled, linear_matmul_dtype, linear_tries_skinny,
    sparse_flow_attention_logits_within_budget, sparse_flow_batched_cfg_enabled_for_backend,
    sparse_flow_cross_kv_cache_budget_bytes_for_backend, sparse_flow_linear_chunk_tokens,
    sparse_flow_linear_chunk_tokens_for_backend, sparse_flow_mlp_chunk_tokens,
    sparse_flow_mlp_chunk_tokens_for_backend,
    sparse_flow_module_attention_batched_long_k_requires_stream,
    sparse_flow_module_attention_chunk_cap, sparse_flow_module_attention_chunk_cap_for_shape,
    sparse_flow_module_attention_cross_shape_requires_stream,
    sparse_flow_module_attention_dtype_for_shape,
    sparse_flow_module_attention_long_k_requires_fallback,
    sparse_flow_module_attention_safe_query_cap_for_shape, sparse_flow_stream_chunk_plan,
    sparse_flow_torso_dtype_for_backend, sparse_flow_wgpu_estimated_peak_bytes,
    sparse_flow_wgpu_may_overflow, AttentionImpl, FloatDType, FlowBackend, FlowEnv,
    RuntimeModelDebugConfig,
};
use burn_trellis::self_attention::{
    attention_head_dim, plan_self_attention, self_attention_step_detail, self_attention_steps,
    AttentionKernel, SelfAttentionPath, SelfAttentionPlan, SelfAttentionStep,
};
use burn_trellis::telemetry::SparseFlowOpDetailKind;

fn toggles(module_f16: bool, linear_f16: bool) -> RuntimeModelDebugConfig {
    RuntimeModelDebugConfig {
        stage_debug: false,
        attention_debug: false,
        sparse_flow_module_attention: true,
        sparse_flow_module_attention_f16: module_f16,
        sparse_flow_linear_f16: linear_f16,
        sparse_flow_torso_f16: false,
        sparse_flow_stock_bf16_emulation: false,
        sparse_flow_coord_rope_kernel: true,
        sparse_decoder_conv_f16: false,
    }
}

fn wgpu_env(module_f16: bool, linear_f16: bool) -> FlowEnv {
    FlowEnv {
        wgpu: true,
        wasm32: false,
        debug: toggles(module_f16, linear_f16),
        self_attention_f16: module_f16,
        cross_attention_f16: module_f16,
        batched_cfg: false,
    }
}

fn cpu_env() -> FlowEnv {
    FlowEnv {
        wgpu: false,
        ..wgpu_env(false, false)
    }
}

#[test]
fn sparse_flow_module_attention_long_k_uses_small_chunks() {
    let env = wgpu_env(false, false);
    assert_eq!(
        sparse_flow_module_attention_chunk_cap_for_shape(&env, 2, 12, 23_816, 23_816, 64),
        12_288,
        "verified fast-f16 head_dim=64 long-key module attention should use the measured wide query cap"
    );
    assert_eq!(
        sparse_flow_module_attention_chunk_cap_for_shape(&env, 1, 12, 23_816, 23_816, 128),
        12_288,
        "Trellis HR self-attention with long keys should use the measured head_dim=128 query cap"
    );
    assert_eq!(
        sparse_flow_module_attention_chunk_cap_for_shape(&env, 1, 12, 23_816, 1_029, 128),
        23_816,
        "Trellis HR cross-attention has short keys and should run as one verified full-query chunk"
    );
    assert_eq!(
        sparse_flow_module_attention_safe_query_cap_for_shape(&env, 2, 12, 3_840, 23_816, 64),
        None,
        "verified fast-f16 long-key head_dim=64 module attention chunks within the wide cap should run directly"
    );
    assert_eq!(
        sparse_flow_module_attention_safe_query_cap_for_shape(&env, 2, 12, 3_712, 23_816, 64),
        None,
        "verified long-key head_dim=64 module attention chunks should run directly"
    );
    assert_eq!(
        sparse_flow_module_attention_safe_query_cap_for_shape(&env, 1, 12, 7_552, 23_816, 128),
        None,
        "head_dim=128 module attention calls inside the measured cap should run directly"
    );
    assert_eq!(
        sparse_flow_module_attention_safe_query_cap_for_shape(&env, 1, 12, 16_384, 23_816, 128),
        Some(12_288),
        "raw long-key head_dim=128 module attention calls above the verified cap must split internally"
    );
    assert!(sparse_flow_module_attention_batched_long_k_requires_stream(2, 23_816, 128));
    assert!(!sparse_flow_module_attention_batched_long_k_requires_stream(1, 23_816, 128));
    assert_eq!(sparse_flow_module_attention_chunk_cap(&env, 8_192), 8_192);
}

#[test]
fn sparse_flow_cross_attention_uses_stream_for_python_mismatched_shape() {
    let reference = wgpu_env(false, false);
    assert!(sparse_flow_module_attention_cross_shape_requires_stream(
        &reference, 1, 12, 23_816, 4_101, 128
    ));
    let fast = wgpu_env(true, true);
    assert!(
        !sparse_flow_module_attention_cross_shape_requires_stream(
            &fast, 1, 12, 23_816, 4_101, 128
        ),
        "fast-f16 cross attention should use the module path; f32/reference remains streamed"
    );
    assert!(!sparse_flow_module_attention_cross_shape_requires_stream(
        &fast, 1, 12, 23_816, 23_816, 128
    ));
    assert!(!sparse_flow_module_attention_cross_shape_requires_stream(
        &fast, 1, 12, 3_712, 23_816, 128
    ));
}

#[test]
fn sparse_flow_module_attention_f16_is_gated_by_verified_shape() {
    let env = wgpu_env(true, true);
    assert_eq!(
        sparse_flow_module_attention_dtype_for_shape(&env, 1, 12, 5_768, 128),
        FloatDType::F16,
        "moderate Trellis module-attention shapes should use the fast f16 path"
    );
    assert_eq!(
        sparse_flow_module_attention_dtype_for_shape(&env, 2, 12, 23_816, 64),
        FloatDType::F16,
        "verified long-key head_dim=64 chunks should use the fast f16 path after query chunking"
    );
    assert_eq!(
        sparse_flow_module_attention_dtype_for_shape(&env, 1, 12, 23_816, 128),
        FloatDType::F16,
        "Trellis HR long-key head_dim=128 chunks should use the fast f16 path after query chunking"
    );
    assert!(!sparse_flow_module_attention_long_k_requires_fallback(
        &env, 2, 12, 23_816, 64
    ));
}

#[test]
fn sparse_flow_batched_cfg_is_experimental_opt_in_and_streams_batched_hr_attention() {
    let mut env = wgpu_env(true, false);
    env.batched_cfg = sparse_flow_batched_cfg_experimental_enabled(None);
    assert!(
        !sparse_flow_batched_cfg_enabled_for_backend(&env, FlowBackend::Wgpu),
        "batched CFG remains opt-in until HR SLat batch>1 parity is fixed"
    );
    env.batched_cfg = sparse_flow_batched_cfg_experimental_enabled(Some("1"));
    assert!(
        sparse_flow_batched_cfg_enabled_for_backend(&env, FlowBackend::Wgpu),
        "diagnostic opt-in should still expose the batched CFG path"
    );
    assert!(sparse_flow_module_attention_batched_long_k_requires_stream(2, 4_101, 128));
    assert!(sparse_flow_module_attention_batched_long_k_requires_stream(2, 10_717, 128));
    assert!(!sparse_flow_module_attention_batched_long_k_requires_stream(1, 10_717, 128));
    assert!(!sparse_flow_module_attention_batched_long_k_requires_stream(2, 10_717, 64));
}

#[test]
fn sparse_flow_chunk_plan_reuse_qkv_respects_logits_budget() {
    let logits_budget = 128 * 1024 * 1024;
    let (query_chunk_tokens, kv_chunk_tokens) =
        sparse_flow_stream_chunk_plan(1, 16, 6_144, 8_192, 8_192, true, logits_budget);
    assert_eq!(
        query_chunk_tokens, kv_chunk_tokens,
        "reuse-qkv path must keep query/kv chunks aligned"
    );
    assert!(
        sparse_flow_attention_logits_within_budget(
            1,
            16,
            query_chunk_tokens,
            kv_chunk_tokens,
            logits_budget
        ),
        "chunk plan exceeded logits budget in reuse-qkv mode: q={} kv={} budget={}",
        query_chunk_tokens,
        kv_chunk_tokens,
        logits_budget
    );
}

#[test]
fn sparse_flow_chunk_plan_non_reuse_respects_logits_budget() {
    let logits_budget = 128 * 1024 * 1024;
    let (query_chunk_tokens, kv_chunk_tokens) =
        sparse_flow_stream_chunk_plan(1, 16, 8_192, 2_048, 8_192, false, logits_budget);
    assert!(
        sparse_flow_attention_logits_within_budget(
            1,
            16,
            query_chunk_tokens,
            kv_chunk_tokens,
            logits_budget
        ),
        "chunk plan exceeded logits budget in non-reuse mode: q={} kv={} budget={}",
        query_chunk_tokens,
        kv_chunk_tokens,
        logits_budget
    );
}

#[test]
fn sparse_flow_backend_chunk_tokens_cpu_match_defaults() {
    for env in [cpu_env(), wgpu_env(false, false)] {
        assert_eq!(
            sparse_flow_mlp_chunk_tokens_for_backend(&env, FlowBackend::Cpu, 32_768),
            sparse_flow_mlp_chunk_tokens(&env, 32_768)
        );
        assert_eq!(
            sparse_flow_linear_chunk_tokens_for_backend(&env, FlowBackend::Cpu, 32_768),
            sparse_flow_linear_chunk_tokens(&env, 32_768)
        );
    }
}

#[test]
fn sparse_flow_backend_chunk_tokens_wgpu_respect_memory_safe_chunks() {
    let env = wgpu_env(false, false);
    let backend = FlowBackend::Wgpu;
    assert_eq!(sparse_flow_mlp_chunk_tokens_for_backend(&env, backend, 4_096), 4_096);
    assert_eq!(sparse_flow_mlp_chunk_tokens_for_backend(&env, backend, 8_192), 8_192);
    assert_eq!(sparse_flow_mlp_chunk_tokens_for_backend(&env, backend, 32_768), 8_192);
    assert_eq!(sparse_flow_linear_chunk_tokens_for_backend(&env, backend, 32_768), 16_384);
    assert_eq!(sparse_flow_torso_dtype_for_backend(&env, backend), None);
    let fast = wgpu_env(true, true);
    assert_eq!(sparse_flow_mlp_chunk_tokens_for_backend(&fast, backend, 32_768), 32_768);
    assert_eq!(sparse_flow_linear_chunk_tokens_for_backend(&fast, backend, 32_768), 32_768);
    assert_eq!(sparse_flow_torso_dtype_for_backend(&fast, backend), None);
}

#[test]
fn chunks_meet_end_to_end_and_cover_everything() {
    assert_eq!(chunk_ranges(10, 4), vec![0..4, 4..8, 8..10]);
    assert_eq!(chunk_ranges(8, 4), vec![0..4, 4..8]);
    assert!(chunk_ranges(0, 4).is_empty());
    assert_eq!(chunk_ranges(usize::MAX, usize::MAX), vec![0..usize::MAX]);
    assert_eq!(whole_or_chunk_ranges(10, 10), vec![0..10]);
    assert_eq!(whole_or_chunk_ranges(10, 7), vec![0..7, 7..10]);
    for item in 0..10usize {
        let holders = chunk_ranges(10, 4).iter().filter(|r| r.contains(&item)).count();
        assert_eq!(holders, 1);
    }
}

#[test]
fn square_roots_round_down() {
    assert_eq!(integer_sqrt(0), 0);
    assert_eq!(integer_sqrt(24), 4);
    assert_eq!(integer_sqrt(25), 5);
    assert_eq!(integer_sqrt(26), 5);
    assert_eq!(integer_sqrt((1 << 32) - 1), (1 << 16) - 1);
}

#[test]
fn large_square_roots_round_as_doubles_do() {
    let double = |value: usize| (value as f64).sqrt().floor() as usize;
    // The last exact root, and the first one that is rounded up.
    assert_eq!(integer_sqrt((1 << 52) - 1), (1 << 26) - 1);
    assert_eq!(integer_sqrt((1 << 52) + (1 << 27) - 1), 1 << 26);
    assert_eq!(integer_sqrt((1 << 52) + (1 << 27)), (1 << 26) + 1);
    assert_eq!(integer_sqrt((1 << 54) - 1), 1 << 27);
    assert_eq!(integer_sqrt(usize::MAX), 1 << 32);
    for bits in 20..64u32 {
        for offset in 0..200usize {
            for value in [(1usize << bits) + offset, (1usize << bits) - offset] {
                assert_eq!(integer_sqrt(value), double(value), "root of {value}");
            }
        }
    }
    let mut value = 1usize;
    for _ in 0..20_000 {
        value = value.wrapping_mul(6364136223846793005).wrapping_add(1442695040888963407);
        assert_eq!(integer_sqrt(value), double(value), "root of {value}");
        let root = double(value);
        let square = root.wrapping_mul(root);
        for near in [square.wrapping_sub(1), square, square.wrapping_add(1)] {
            assert_eq!(integer_sqrt(near), double(near), "root of {near}");
        }
    }
    // A square chunk whose side was rounded up.
    let side = 1usize << 27;
    let budget = (1usize << 56) - 4;
    assert_eq!(
        sparse_flow_stream_chunk_plan(1, 1, side, side, side, true, budget),
        (side, side)
    );
    assert!(!sparse_flow_attention_logits_within_budget(1, 1, side, side, budget));
}

#[test]
fn sizes_and_formats_follow_their_formulas() {
    assert_eq!(attention_logits_bytes(2, 3, 5, 7), 2 * 3 * 5 * 7 * 4);
    assert_eq!(attention_logits_bytes(usize::MAX, 2, 1, 1), usize::MAX);
    assert_eq!(bytes_to_mib(3 * 1024 * 1024), 3);
    assert_eq!(linear_matmul_dtype(FloatDType::BF16), FloatDType::F32);
    assert_eq!(linear_matmul_dtype(FloatDType::F16), FloatDType::F16);
    let peak = sparse_flow_wgpu_estimated_peak_bytes(16, 1536, 8192);
    assert_eq!(peak, 4_096 * 8_192 * 4);
    assert!(!sparse_flow_wgpu_may_overflow(16, 1536, 8192));
    assert!(sparse_flow_wgpu_may_overflow(64, 1536, 8192));
    assert_eq!(
        cross_attention_cache_estimated_bytes(1, 10, 8, 3, 2),
        10 * 8 * 2 * 3 * 2 * 4
    );
    assert_eq!(cross_attention_cache_estimated_bytes(usize::MAX, 10, 8, 3, 2), usize::MAX);
    assert_eq!(attention_head_dim(1536, 12), 128);
}

#[test]
fn fusion_has_no_module_kernel_of_its_own() {
    let env = wgpu_env(true, true);
    assert!(attention_uses_non_fusion_module_kernel(&env, FlowBackend::Wgpu));
    assert!(!attention_uses_non_fusion_module_kernel(&env, FlowBackend::WgpuFusion));
    assert!(!attention_uses_non_fusion_module_kernel(&env, FlowBackend::Cpu));
    assert!(linear_tries_skinny(&env, FlowBackend::Wgpu, 1_024, 64, 256));
    assert!(!linear_tries_skinny(&env, FlowBackend::Wgpu, 1_023, 64, 256));
    assert!(feed_forward_f16_chain_enabled(&env, FlowBackend::Wgpu, 64, 128, 128, 64));
    assert!(!feed_forward_f16_chain_enabled(&env, FlowBackend::Wgpu, 64, 128, 127, 64));
}

#[test]
fn self_attention_on_the_host_runs_whole() {
    let env = cpu_env();
    let plan = plan_self_attention(&env, FlowBackend::Cpu, 1, 2, 8, 8, 4);
    assert_eq!(plan.path, SelfAttentionPath::Whole);
    let steps = self_attention_steps(&plan);
    assert_eq!(steps[0], SelfAttentionStep::ProjectQkv { start: 0, end: 8 });
    assert!(steps.contains(&SelfAttentionStep::Attend {
        start: 0,
        end: 8,
        kernel: AttentionKernel::Dispatch
    }));
    assert_eq!(*steps.last().unwrap(), SelfAttentionStep::ProjectOut { start: 0, end: 8 });
}

#[test]
fn streamed_self_attention_takes_every_query_and_key_once() {
    let plan = SelfAttentionPlan {
        path: SelfAttentionPath::ChunkedStream,
        tokens: 10,
        query_chunk: 4,
        kv_chunk: 6,
        reuse_qkv: false,
        module_dtype: None,
    };
    let steps = self_attention_steps(&plan);
    let attended: Vec<(usize, usize)> = steps
        .iter()
        .filter_map(|step| match step {
            SelfAttentionStep::Attend { start, end, .. } => Some((*start, *end)),
            _ => None,
        })
        .collect();
    assert_eq!(attended, vec![(0, 4), (4, 8), (8, 10)]);
    let keys: Vec<(usize, usize)> = steps
        .iter()
        .filter_map(|step| match step {
            SelfAttentionStep::NormRopeKeys { start, end, .. } => Some((*start, *end)),
            _ => None,
        })
        .collect();
    assert_eq!(keys, vec![(0, 6), (6, 10)]);
    assert_eq!(
        self_attention_step_detail(SelfAttentionStep::JoinOutput { chunks: 3 }),
        SparseFlowOpDetailKind::SelfCat
    );
}

#[test]
fn long_self_attention_stays_within_the_logits_budget() {
    let env = wgpu_env(false, false);
    let plan = plan_self_attention(&env, FlowBackend::Cpu, 1, 16, 20_000, 1_024, 64);
    assert_eq!(plan.path, SelfAttentionPath::ChunkedStream);
    assert!(sparse_flow_attention_logits_within_budget(
        1,
        16,
        plan.query_chunk,
        plan.kv_chunk,
        3_221_225_472
    ));
}

#[test]
fn module_requests_are_padded_and_split() {
    let env = wgpu_env(true, true);
    match plan_module_attention(&env, 1, 12, 100, 1_029, 128) {
        ModuleAttentionPlan::Launch(calls) => {
            assert_eq!(calls.len(), 1);
            assert_eq!((calls[0].start, calls[0].end), (0, 100));
            assert_eq!(calls[0].padded_queries, 128);
        }
        ModuleAttentionPlan::Stream => panic!("short keys should be launched"),
    }
    match plan_module_attention(&env, 1, 12, 16_384, 23_816, 128) {
        ModuleAttentionPlan::Launch(calls) => {
            assert_eq!(calls.len(), 2);
            assert_eq!((calls[0].start, calls[0].end), (0, 12_288));
            assert_eq!((calls[1].start, calls[1].end), (12_288, 16_384));
        }
        ModuleAttentionPlan::Stream => panic!("long keys should be split"),
    }
    assert!(matches!(
        plan_module_attention(&env, 2, 12, 16, 23_816, 128),
        ModuleAttentionPlan::Stream
    ));
}

#[test]
fn plain_attention_follows_shape_and_backend() {
    let cpu = cpu_env();
    assert!(matches!(plan_dense_attention(&cpu, 1, 2, 8, 8), PlainAttentionPlan::Single));
    assert!(matches!(
        plan_attention(&cpu, FlowBackend::Cpu, 1, 2, 8, 8, 4),
        AttentionDispatch::Dense(PlainAttentionPlan::Single)
    ));
    assert_eq!(attention_impl(&cpu, 8, 8), AttentionImpl::Dense);
    let wgpu = wgpu_env(true, true);
    match plan_attention(&wgpu, FlowBackend::Wgpu, 1, 12, 300, 1_029, 128) {
        AttentionDispatch::Module(ranges) => assert_eq!(ranges, vec![0..300]),
        other => panic!("unexpected dispatch {other:?}"),
    }
    match plan_stream_attention(&wgpu, 1, 16, 40_000, 40_000) {
        PlainAttentionPlan::Streamed { queries, keys } => {
            assert_eq!(queries[0].start, 0);
            assert_eq!(queries.last().unwrap().end, 40_000);
            assert_eq!(keys[0].start, 0);
            assert_eq!(keys.last().unwrap().end, 40_000);
        }
        other => panic!("unexpected stream plan {other:?}"),
    }
}

#[test]
fn cross_attention_covers_all_queries() {
    let env = wgpu_env(true, true);
    let backend = FlowBackend::Wgpu;
    let dtype = projected_module_dtype(&env, backend, 1, 12, 1_029, 128);
    assert_eq!(dtype, Some(FloatDType::F16));
    let plan = plan_cross_attention(&env, backend, 1, 12, 60_000, 1_029, 128, dtype);
    assert!(plan.chunked);
    let steps = cross_attention_steps(&plan);
    assert_eq!(steps[0], CrossAttentionStep::LayoutKeys);
    let mut next = 0;
    for step in &steps {
        if let CrossAttentionStep::Attend { start, end, module } = step {
            assert_eq!(*start, next);
            assert!(*module);
            next = *end;
        }
    }
    assert_eq!(next, 60_000);
    assert_eq!(
        cross_attention_step_detail(steps[1]),
        SparseFlowOpDetailKind::CrossQ
    );
}

fn projected(tag: u32, module: bool) -> CrossAttentionProjectedKv<Vec<u32>> {
    CrossAttentionProjectedKv {
        k: vec![tag],
        v: vec![tag + 1],
        module_k: if module { Some(vec![tag + 2]) } else { None },
        module_v: if module { Some(vec![tag + 3]) } else { None },
        module_dtype: if module { Some(FloatDType::F16) } else { None },
    }
}

#[test]
fn condition_caches_join_block_by_block() {
    let cat = |a: &Vec<u32>, b: &Vec<u32>| [a.as_slice(), b.as_slice()].concat();
    let joined = concat_cross_kv_caches(
        &vec![projected(10, true)],
        &vec![projected(20, true)],
        cat,
    )
    .expect("caches of one shape should join");
    assert_eq!(joined[0].k, vec![10, 20]);
    assert_eq!(joined[0].module_v, Some(vec![13, 23]));
    let cat = |a: &Vec<u32>, b: &Vec<u32>| [a.as_slice(), b.as_slice()].concat();
    assert!(
        concat_cross_kv_caches(&vec![projected(10, true)], &vec![projected(20, false)], cat)
            .is_none()
    );
    let cat = |a: &Vec<u32>, b: &Vec<u32>| [a.as_slice(), b.as_slice()].concat();
    assert!(concat_cross_kv_caches(&vec![projected(10, true)], &vec![], cat).is_none());
}

#[test]
fn condition_caches_are_planned_by_budget() {
    let env = wgpu_env(false, false);
    let budget = sparse_flow_cross_kv_cache_budget_bytes_for_backend(&env, FlowBackend::Wgpu);
    assert!(budget > 0);
    assert_eq!(
        plan_cross_attention_caches(&env, FlowBackend::Wgpu, 1, 4, 8, 1, true),
        CrossCachePlan::Both
    );
    assert_eq!(
        plan_cross_attention_caches(&env, FlowBackend::Wgpu, 1, 4, 8, 1, false),
        CrossCachePlan::Positive
    );
    assert_eq!(
        plan_cross_attention_caches(&env, FlowBackend::Wgpu, usize::MAX, 4, 8, 1, true),
        CrossCachePlan::Uncached
    );
}

#[test]
fn mlp_rows_are_chunked_inside_windows() {
    let chunks = mlp_row_chunks(70_000, 30_000);
    let mut next = 0;
    for rows in &chunks {
        assert_eq!(rows.start, next);
        assert!(rows.window_start <= rows.start && rows.end <= rows.window_end);
        assert!(rows.end - rows.start <= 30_000);
        next = rows.end;
    }
    assert_eq!(next, 70_000);
    assert!(matches!(
        plan_feed_forward(&cpu_env(), FlowBackend::Cpu, 1, 8, 8, 16, 16, 8),
        FeedForwardPlan::Whole { f16_chain: false }
    ));
}
