use burn_trellis::conditioning::{
    extract_runtime_conditioning, resolve_runtime_conditioning, ExtractedCondition, Extraction,
};
use burn_trellis::overrides::{
    DecodeTexVoxelSample, SamplerConfigOverride, SparseRowNoiseOverride, TrellisNoiseOverrides, TrellisStageConditioning,
};
use burn_trellis::pipeline_config::{
    canonical_pipeline_type, cascade_target, set_runtime_debug_toggles,
    set_runtime_model_debug_config_for_stage, AttentionPolicy, DecodeStageSource, RuntimeFlowStage,
    RuntimeToggles, SparseCoordCapSource, SparseStructureStageSource, TrellisComputeProfile,
    TrellisDecodeOutputMode, TrellisStageRunConfig,
};
use burn_trellis::pipeline_load::{
    find_model, flow_specs_load_same_model, should_preload_shape_flow_variant, ModelAssets,
    ModelDir, ModelSlot, TrellisPipelineArgs, TrellisSamplerConfig, TrellisSamplerParams,
    TrellisSamplerRuntimeOverrides, TrellisStageRuntime,
};
use burn_trellis::pipeline_run::{
    decode_needs_fence, plan_run, runtime_pipeline_stage_boundary_sync, sampler_override,
    shape_rows, sparse_rows, tex_rows,
};
use burn_trellis::pipeline_stages::{
    CascadeRequest, DecodeRequest, RunRequest, ShapeRequest, SparseRequest, TexRequest,
};
use burn_trellis::policy::RuntimeModelDebugConfig;
use burn_trellis::runtime_access::RuntimeBackend;
use burn_trellis::sampling::FlowEulerSampleConfig;
use burn_trellis::stage_samples::{
    DecodeRuntimeTimings, DecodedLatentOutput, ShapeSLatSample, ShapeStage,
    SparseStructureRuntimeProfile, SparseStructureSample, TexSLatSample, TrellisStageOutput,
    TrellisStageTimings,
};
use burn_trellis::telemetry::SparseFlowOpTimingSummary;

fn profile() -> TrellisComputeProfile {
    TrellisComputeProfile {
        wgpu_sparse_module_attention_f16: true,
        wgpu_slat_module_attention_f16: false,
        wgpu_linear_f16: true,
        wgpu_flow_torso_f16: false,
        wgpu_decoder_conv_f16: true,
        wgpu_sparse_self_attention_f16: true,
        wgpu_sparse_cross_attention_f16: false,
        wgpu_sparse_final_f32_steps: 3,
    }
}

fn sampler(steps: usize) -> TrellisSamplerConfig<f32> {
    TrellisSamplerConfig {
        sigma_min: 1.0e-5,
        params: TrellisSamplerParams {
            steps,
            rescale_t: 3.0,
            guidance_strength: 7.5,
            guidance_rescale: 0.0,
            guidance_interval: [0.5, 1.0],
        },
    }
}

fn args(models: &[(&str, &str)]) -> TrellisPipelineArgs<f32, u32> {
    TrellisPipelineArgs {
        default_pipeline_type: "1024_cascade".to_string(),
        models: models.iter().map(|(k, v)| (k.to_string(), v.to_string())).collect(),
        sparse_structure_sampler: sampler(25),
        shape_slat_sampler: sampler(12),
        tex_slat_sampler: sampler(8),
        shape_slat_normalization: 1,
        tex_slat_normalization: 2,
        image_cond_model: Some("  dinov3 ".to_string()),
    }
}

const MODELS: [(&str, &str); 7] = [
    ("sparse_structure_flow_model", "ckpts/ss"),
    ("shape_slat_flow_model_512", "ckpts/shape512"),
    ("shape_slat_flow_model_1024", "ckpts/shape1024"),
    ("tex_slat_flow_model_1024", "ckpts/tex1024"),
    ("sparse_structure_decoder", "ckpts/ssdec"),
    ("shape_slat_decoder", "ckpts/shapedec"),
    ("tex_slat_decoder", "ckpts/texdec"),
];

fn dir(parts: &[&str]) -> ModelDir {
    ModelDir { components: parts.iter().map(|p| p.as_bytes().to_vec()).collect() }
}

#[test]
fn pipeline_types_have_one_name() {
    assert_eq!(canonical_pipeline_type("512"), "512_base");
    assert_eq!(canonical_pipeline_type("1024_single"), "1024");
    assert_eq!(canonical_pipeline_type("1536_cascade"), "1536_cascade");
    for name in ["512", "1024_single", "1024_cascade", ""] {
        let once = canonical_pipeline_type(name);
        assert_eq!(canonical_pipeline_type(once), once);
    }
    assert_eq!(cascade_target("1024_cascade"), Some(1024));
    assert_eq!(cascade_target("1536_cascade"), Some(1536));
    assert_eq!(cascade_target("1024"), None);
}

#[test]
fn report_names_are_fixed() {
    assert_eq!(SparseStructureStageSource::RuntimeModelCpu.as_str(), "runtime_model_cpu");
    assert_eq!(SparseStructureStageSource::RuntimeModelWgpu.as_str(), "runtime_model_wgpu");
    assert_eq!(DecodeStageSource::Runtime.as_str(), "runtime");
    assert_eq!(TrellisDecodeOutputMode::default().as_str(), "native-pbr");
    assert_eq!(TrellisDecodeOutputMode::OvoxelHookExport.as_str(), "ovoxel-hook-export");
    assert!(TrellisDecodeOutputMode::NativePbr.needs_native_pbr());
    assert!(!TrellisDecodeOutputMode::OvoxelHookExport.needs_native_pbr());
    assert_eq!(SparseCoordCapSource::ExplicitRunConfig.as_str(), "explicit_run_config");
}

#[test]
fn stages_set_their_own_toggles() {
    let mut run_config = TrellisStageRunConfig::with_profile(profile());
    run_config.runtime_stage_debug = true;
    run_config.runtime_stage_fence = true;
    let mut toggles = RuntimeToggles::default();
    set_runtime_debug_toggles(&mut toggles, run_config);
    assert!(toggles.stage_debug && toggles.stage_fence && !toggles.decoder_conv_telemetry);
    let mut config = RuntimeModelDebugConfig {
        stage_debug: false,
        attention_debug: true,
        sparse_flow_module_attention: false,
        sparse_flow_module_attention_f16: false,
        sparse_flow_linear_f16: false,
        sparse_flow_torso_f16: true,
        sparse_flow_stock_bf16_emulation: true,
        sparse_flow_coord_rope_kernel: false,
        sparse_decoder_conv_f16: false,
    };
    let mut policy = AttentionPolicy {
        self_attention_f16: false,
        cross_attention_f16: true,
        final_f32_steps: 0,
    };
    set_runtime_model_debug_config_for_stage(
        &mut config,
        &mut policy,
        run_config,
        RuntimeFlowStage::SparseStructure,
    );
    assert!(config.stage_debug && !config.attention_debug);
    assert!(config.sparse_flow_module_attention && config.sparse_flow_module_attention_f16);
    assert!(config.sparse_flow_linear_f16 && config.sparse_decoder_conv_f16);
    assert_eq!(
        policy,
        AttentionPolicy { self_attention_f16: true, cross_attention_f16: false, final_f32_steps: 3 }
    );
    set_runtime_model_debug_config_for_stage(
        &mut config,
        &mut policy,
        run_config,
        RuntimeFlowStage::SLat,
    );
    assert!(!config.sparse_flow_module_attention_f16);
    assert_eq!(
        policy,
        AttentionPolicy { self_attention_f16: false, cross_attention_f16: false, final_f32_steps: 0 }
    );
}

#[test]
fn pipelines_locate_their_models() {
    let weights = dir(&["/", "models"]);
    let assets =
        ModelAssets { weights_root: Some(&weights), image_large_root: None, prefer_wgpu: true };
    let overrides = TrellisSamplerRuntimeOverrides {
        sparse_steps: Some(0),
        shape_steps: None,
        tex_steps: Some(4),
        sparse_guidance_strength: None,
        shape_guidance_strength: Some(2.0),
        tex_guidance_strength: None,
    };
    let runtime =
        TrellisStageRuntime::from_args_with_assets(&args(&MODELS), None, assets, Some(overrides));
    assert_eq!(runtime.pipeline_type(), "1024_cascade");
    assert_eq!(runtime.sparse_sampler.params.steps, 1, "a run has at least one step");
    assert_eq!(runtime.shape_sampler.params.steps, 12);
    assert_eq!(runtime.shape_sampler.params.guidance_strength, 2.0);
    assert_eq!(runtime.tex_sampler.params.steps, 4);
    assert_eq!((runtime.shape_norm, runtime.tex_norm), (1, 2));
    let sparse = runtime.sparse_flow_spec.as_ref().unwrap();
    assert_eq!(sparse.model_stem, "ckpts/ss");
    assert_eq!(sparse.stage_label, "sparse flow");
    assert!(sparse.flow_key.is_none() && sparse.prefer_wgpu);
    let shape = runtime.shape_flow_spec.as_ref().unwrap();
    assert_eq!(shape.model_stem, "ckpts/shape1024");
    assert_eq!(shape.flow_key.as_deref(), Some("shape_slat_flow_model_1024"));
    assert!(shape.weights_root.same(&weights));
    assert_eq!(runtime.image_conditioning_spec.as_ref().unwrap().model, "dinov3");
    assert_eq!(runtime.tex_decoder_spec.as_ref().unwrap().load.model, "ckpts/texdec");
    assert_eq!(
        runtime.preload_slots(false),
        vec![
            ModelSlot::SparseFlow,
            ModelSlot::ShapeFlow,
            ModelSlot::ShapeFlow512,
            ModelSlot::TexFlow,
            ModelSlot::SparseStructureDecoder,
            ModelSlot::ShapeDecoder,
            ModelSlot::TexDecoder,
            ModelSlot::ImageConditioning,
        ]
    );
    assert!(runtime.preload_slots(true).is_empty());
    assert_eq!(runtime.shape_flow_runtime_512(), ModelSlot::ShapeFlow512);
    assert_eq!(runtime.shape_flow_runtime_1024(), ModelSlot::ShapeFlow);
}

#[test]
fn lower_pipelines_take_lower_models() {
    let weights = dir(&["models"]);
    let assets =
        ModelAssets { weights_root: Some(&weights), image_large_root: None, prefer_wgpu: false };
    let runtime =
        TrellisStageRuntime::from_args_with_assets(&args(&MODELS), Some("512"), assets, None);
    assert_eq!(runtime.pipeline_type(), "512_base");
    assert_eq!(runtime.shape_flow_spec.as_ref().unwrap().model_stem, "ckpts/shape512");
    assert!(runtime.tex_flow_spec.is_none(), "the description lists no lower texture model");
    assert!(!runtime.preload_slots(false).contains(&ModelSlot::ShapeFlow512));
    let bare = TrellisStageRuntime::from_args(&args(&MODELS), Some("1024_single"));
    assert_eq!(bare.pipeline_type(), "1024");
    assert!(bare.sparse_flow_spec.is_none() && bare.image_conditioning_spec.is_none());
}

#[test]
fn variants_of_one_file_are_loaded_once() {
    let weights = dir(&["models"]);
    let assets =
        ModelAssets { weights_root: Some(&weights), image_large_root: None, prefer_wgpu: false };
    let models = [
        ("shape_slat_flow_model_512", "ckpts/shape"),
        ("shape_slat_flow_model_1024", "ckpts/shape"),
    ];
    let runtime = TrellisStageRuntime::from_args_with_assets(&args(&models), None, assets, None);
    assert!(flow_specs_load_same_model(
        runtime.shape_flow_spec.as_ref(),
        runtime.shape_flow_512_spec.as_ref()
    ));
    assert!(!flow_specs_load_same_model(runtime.shape_flow_spec.as_ref(), None));
    assert_eq!(runtime.shape_flow_runtime_512(), ModelSlot::ShapeFlow);
    assert!(!runtime.preload_slots(false).contains(&ModelSlot::ShapeFlow512));
    let distinct = TrellisStageRuntime::from_args_with_assets(&args(&MODELS), None, assets, None);
    assert!(should_preload_shape_flow_variant(
        "1024_cascade",
        distinct.shape_flow_spec.as_ref(),
        distinct.shape_flow_512_spec.as_ref(),
        "shape_slat_flow_model_512"
    ));
    assert!(!should_preload_shape_flow_variant(
        "1536_cascade",
        distinct.shape_flow_spec.as_ref(),
        distinct.shape_flow_512_spec.as_ref(),
        "shape_slat_flow_model_512"
    ));
    assert_eq!(find_model(&args(&MODELS).models, "shape_slat_decoder").unwrap(), "ckpts/shapedec");
    assert!(find_model(&args(&MODELS).models, "unknown").is_none());
}

fn validate(
    expected: usize,
    given: Option<&Vec<f32>>,
    stage: &str,
    kind: &str,
) -> Result<Option<Vec<f32>>, String> {
    match given {
        Some(values) if values.len() == expected => Ok(Some(values.clone())),
        Some(values) => Err(format!("{stage} {kind} has {} values", values.len())),
        None => Ok(None),
    }
}

#[test]
fn conditioning_is_given_or_extracted() {
    let mut overrides = TrellisNoiseOverrides::<f32>::default();
    overrides.cond_512 = Some(vec![2.0; 1029 * 1024]);
    let extract = |stage: &str, resolution: usize, tokens: usize, channels: usize| {
        assert_eq!((stage, resolution), ("get_cond_1024", 1024));
        Ok(vec![3.0; tokens * channels])
    };
    let resolved =
        resolve_runtime_conditioning("1024", Some(&overrides), 0.0, validate, extract).unwrap();
    assert_eq!(resolved.cond_512[0], 2.0);
    assert_eq!(resolved.neg_cond_512, vec![0.0; 1029 * 1024]);
    assert_eq!(resolved.cond_1024.unwrap(), vec![3.0; 4101 * 1024]);
    assert_eq!(resolved.neg_cond_1024.unwrap().len(), 4101 * 1024);
    let low = resolve_runtime_conditioning("512_base", Some(&overrides), 0.0, validate, extract)
        .unwrap();
    assert!(low.cond_1024.is_none() && low.neg_cond_1024.is_none());
    overrides.neg_cond_512 = Some(vec![1.0]);
    assert_eq!(
        resolve_runtime_conditioning("1024", Some(&overrides), 0.0, validate, extract)
            .map(|_| ())
            .unwrap_err(),
        "get_cond_512 neg-cond has 1 values"
    );
}

#[test]
fn extractions_are_checked() {
    let done = |token_count, channels, values: Vec<f32>| {
        Extraction::Done(ExtractedCondition { token_count, channels, resolution: 512, values })
    };
    let take = |extraction| extract_runtime_conditioning(extraction, "missing.", "get_cond", 2, 3);
    assert_eq!(take(done(2, 3, vec![1.0; 6])).unwrap(), vec![1.0; 6]);
    assert_eq!(
        take(done(2, 4, vec![])).unwrap_err(),
        "missing. internal image-conditioning extractor returned tokens=2 channels=4 (resolution=512)."
    );
    assert_eq!(
        take(done(2, 3, vec![1.0; 5])).unwrap_err(),
        "missing. internal image-conditioning extractor returned 5 values (expected 6)."
    );
    assert_eq!(
        take(Extraction::NoModel).unwrap_err(),
        "missing. no internal image-conditioning runtime model is available for stage 'get_cond'."
    );
    assert_eq!(
        take(Extraction::Failed { backend: "cpu".to_string(), error: "nan".to_string() })
            .unwrap_err(),
        "missing. internal image-conditioning extraction failed on backend 'cpu' for stage 'get_cond': nan"
    );
}

#[test]
fn overrides_know_when_they_fix_nothing() {
    let overrides = TrellisNoiseOverrides::<f32>::default();
    assert!(overrides.is_empty());
    let merged = overrides.with_conditioning(TrellisStageConditioning {
        cond_512: vec![1.0],
        neg_cond_512: vec![2.0],
        cond_1024: None,
        neg_cond_1024: Some(vec![3.0]),
    });
    assert!(!merged.is_empty());
    assert_eq!(merged.cond_512, Some(vec![1.0]));
    assert_eq!(merged.neg_cond_1024, Some(vec![3.0]));
    assert!(merged.cond_1024.is_none() && merged.shape_slat.is_none());
}

#[test]
fn runs_are_planned_from_pipeline_and_overrides() {
    let mut run_config = TrellisStageRunConfig::with_profile(profile());
    run_config.max_sparse_coords = Some(0);
    run_config.max_num_tokens = Some(1_000);
    let mut overrides = TrellisNoiseOverrides::<f32>::default();
    let plan = plan_run("1024_cascade", &run_config, &overrides, false, false, true, None);
    assert_eq!(plan.max_sparse_coords, None);
    assert_eq!(plan.max_num_tokens, 1_000);
    assert_eq!(plan.cascade, Some(1024));
    assert!(plan.materialize_host_coords, "without a device model a cascade reads coordinates");
    let wgpu = Some(RuntimeBackend::Wgpu);
    let plan = plan_run("1024_cascade", &run_config, &overrides, false, true, true, wgpu);
    assert!(!plan.materialize_host_coords);
    assert!(plan_run("1024_cascade", &run_config, &overrides, false, true, false, wgpu)
        .materialize_host_coords);
    let sampler = SamplerConfigOverride {
        sigma_min: 0.1,
        config: FlowEulerSampleConfig {
            steps: 2,
            rescale_t: 1.0,
            guidance_strength: 1.0,
            guidance_rescale: 0.0,
            guidance_interval: [0.0, 1.0],
        },
    };
    assert!(sampler_override(&plan, Some(sampler)).is_none(), "strict runs keep their samplers");
    overrides.tex_noise_dense = Some(vec![]);
    overrides.shape_slat = Some(SparseRowNoiseOverride { coords: vec![], feats: vec![] });
    let plan = plan_run("1024_cascade", &run_config, &overrides, false, false, true, wgpu);
    assert!(plan.materialize_host_coords);
    assert_eq!(plan.cascade, None, "given shape latents need no cascade");
    assert_eq!(sampler_override(&plan, Some(sampler)).unwrap().config.steps, 2);
}

type Sparse = SparseStructureSample<f32, (), u32>;
type Shape = ShapeSLatSample<f32, (), ()>;
type Tex = TexSLatSample<f32, (), ()>;
type Output = TrellisStageOutput<f32, (), (), u32, String>;

fn sampler_settings() -> FlowEulerSampleConfig<f32> {
    FlowEulerSampleConfig {
        steps: 1,
        rescale_t: 1.0,
        guidance_strength: 1.0,
        guidance_rescale: 0.0,
        guidance_interval: [0.0, 1.0],
    }
}

fn ops(self_attn_calls: u64) -> SparseFlowOpTimingSummary {
    SparseFlowOpTimingSummary { self_attn_calls, ..SparseFlowOpTimingSummary::default() }
}

fn sparse_sample(noise: Vec<f32>) -> Sparse {
    SparseStructureSample {
        source: SparseStructureStageSource::RuntimeModelCpu,
        sampler_config: sampler_settings(),
        sigma_min: 0.1,
        step_count: 1,
        resolution: 32,
        flow_resolution: 16,
        flow_channels: 8,
        noise,
        step_0_pred_v: vec![],
        step_0_pred_v_pos: vec![],
        step_0_pred_v_neg: vec![],
        step_0_x_t: vec![],
        step_mid_x_t: vec![],
        step_last_x_t: vec![],
        step_pred_v: vec![],
        step_x_t: vec![],
        latent: vec![],
        coords: vec![],
        layout: vec![],
        coords_wgpu: None,
        runtime_profile: Some(SparseStructureRuntimeProfile {
            cond_prepare_ms: 1,
            sample_ms: 2,
            postprocess_ms: 3,
            flow_ops: ops(11),
        }),
    }
}

fn shape_sample(calls: u64) -> Shape {
    ShapeSLatSample {
        sampler_config: sampler_settings(),
        sigma_min: 0.1,
        step_count: 1,
        dense_resolution: 0,
        dense_channels: 0,
        dense_noise: None,
        features: vec![],
        noise: vec![],
        step_0_pred_v: vec![],
        step_0_pred_v_pos: vec![],
        step_0_pred_v_neg: vec![],
        step_0_x_t: vec![],
        step_mid_x_t: vec![],
        step_last_x_t: vec![],
        coords: vec![],
        layout: vec![],
        flow_ops: ops(calls),
        coords_wgpu: None,
        features_wgpu: None,
    }
}

fn tex_sample(calls: u64) -> Tex {
    TexSLatSample {
        sampler_config: sampler_settings(),
        sigma_min: 0.1,
        step_count: 1,
        dense_resolution: 0,
        dense_channels: 0,
        dense_noise: None,
        features: vec![],
        noise: vec![],
        step_0_pred_v: vec![],
        step_0_pred_v_pos: vec![],
        step_0_pred_v_neg: vec![],
        step_0_x_t: vec![],
        step_mid_x_t: vec![],
        step_last_x_t: vec![],
        shape_slat_cond: vec![],
        coords: vec![],
        layout: vec![],
        flow_ops: ops(calls),
        coords_wgpu: None,
        features_wgpu: None,
    }
}

fn decoded(mesh: String) -> DecodedLatentOutput<f32, u32, String> {
    DecodedLatentOutput {
        source: DecodeStageSource::Runtime,
        mesh,
        shape_subs: vec![],
        tex_voxels: DecodeTexVoxelSample { coords: vec![], feats: vec![], spatial_shape: [1, 2, 3] },
        pbr: None,
        timings: DecodeRuntimeTimings {
            stage_fenced: true,
            shape_decoder_ms: 7,
            tex_decoder_ms: 8,
            attr_merge_ms: 9,
            mesh_ms: 10,
            pbr_ms: 11,
            shape_conv_calls: 12,
            tex_conv_calls: 13,
            shape_wgpu_dispatches: 1,
            tex_wgpu_dispatches: 0,
            shape_wgpu_chunked_calls: 14,
            tex_wgpu_chunked_calls: 15,
            shape_wgpu_input_bytes: 16,
            tex_wgpu_input_bytes: 17,
            shape_wgpu_output_bytes: 18,
            tex_wgpu_output_bytes: 19,
            shape_wgpu_max_chunk_rows: 20,
            tex_wgpu_max_chunk_rows: 21,
        },
    }
}

fn run_stages(
    pipeline_type: &str,
    overrides: Option<TrellisNoiseOverrides<f32>>,
    fails: &str,
    wgpu: bool,
) -> Result<(Output, TrellisStageTimings<u32>), String> {
    let runtime = TrellisStageRuntime::from_args(&args(&[]), Some(pipeline_type));
    let mut run_config = TrellisStageRunConfig::with_profile(profile());
    run_config.runtime_stage_fence = true;
    let request = RunRequest {
        run_config,
        capture_sampler_trace: false,
        parity_strict: false,
        wgpu,
        sparse_backend: None,
        sparse_resolution: 64,
        final_resolution: 900,
    };
    let fail = |stage: &str| if stage == fails { Err(format!("{stage} failed")) } else { Ok(()) };
    let mut toggles = RuntimeToggles::default();
    let out = runtime.run_profiled_with_overrides(
        request,
        overrides,
        vec!["seed".to_string()],
        0.0f32,
        0u32,
        &mut toggles,
        |_n: usize, given: Option<&Vec<f32>>, _stage: &str, _kind: &str| Ok(given.cloned()),
        |stage: &str, _resolution: usize, _tokens: usize, _channels: usize| {
            fail(stage)?;
            Ok(vec![5.0])
        },
        |request: &SparseRequest<'_, f32>, mut rng: Vec<String>| {
            fail("sparse")?;
            assert_eq!(request.resolution, 64);
            assert!(request.settings.policy.self_attention_f16);
            assert_eq!(request.cond.cloned(), Some(vec![5.0]));
            rng.push("sparse".to_string());
            Ok((sparse_sample(request.noise.cloned().unwrap_or_default()), rng))
        },
        |request: &ShapeRequest<'_, f32, u32>, sparse: &Sparse, mut rng: Vec<String>| {
            fail("shape")?;
            assert_eq!(request.sparse_resolution, sparse.resolution);
            assert!(!request.settings.policy.self_attention_f16);
            rng.push("shape".to_string());
            Ok((shape_sample(22), rng))
        },
        |_request: &ShapeRequest<'_, f32, u32>,
         cascade: CascadeRequest,
         _sparse: &Sparse,
         mut rng: Vec<String>| {
            fail("cascade")?;
            assert_eq!((cascade.base_resolution, cascade.max_num_tokens), (512, 49_152));
            rng.push("cascade".to_string());
            Ok((
                ShapeStage {
                    slat: shape_sample(23),
                    slat_lr: Some(shape_sample(24)),
                    sparse_resolution: 96,
                    decode_resolution: cascade.target_resolution,
                },
                rng,
            ))
        },
        |request: &TexRequest<'_, f32, u32>, shape: &Shape, rng: Vec<String>| {
            fail("tex")?;
            assert_eq!((*request.shape_norm, *request.tex_norm), (1, 2));
            assert_eq!(rng.len(), 3);
            let calls = shape.flow_ops.self_attn_calls + request.sparse_resolution as u64;
            Ok((tex_sample(calls), rng))
        },
        |request: &DecodeRequest<'_, f32>, _shape: &Shape, tex: &Tex| {
            fail("decode")?;
            Ok(decoded(format!(
                "{} at {} after {}",
                request.pipeline_type, request.resolution, tex.flow_ops.self_attn_calls
            )))
        },
        || fail("device"),
        || 100u32,
        |start: u32| start + 1,
    );
    assert!(toggles.stage_fence);
    out
}

#[test]
fn runs_hand_results_from_stage_to_stage() {
    let mut overrides = TrellisNoiseOverrides::<f32>::default();
    overrides.sparse_noise = Some(vec![0.5]);
    overrides.decode_shape_input =
        Some(SparseRowNoiseOverride { coords: vec![[1, 2, 3, 4]], feats: vec![] });
    let (output, timings) = run_stages("1536_cascade", Some(overrides), "", true).unwrap();
    assert_eq!(output.sparse.noise, vec![0.5]);
    assert_eq!(output.mesh, "1536_cascade at 1536 after 119");
    assert_eq!(output.shape_slat_lr.unwrap().flow_ops, ops(24));
    assert_eq!(output.conditioning.cond_1024, Some(vec![5.0]));
    assert_eq!(output.conditioning.neg_cond_1024.unwrap().len(), 4101 * 1024);
    assert_eq!(output.decode_shape_input.unwrap().coords, vec![[1, 2, 3, 4]]);
    assert!(output.decode_tex_input.is_none());
    assert_eq!(output.decode_tex_voxels.spatial_shape, [1, 2, 3]);
    assert_eq!(timings.sparse_flow_ops, ops(11));
    assert_eq!(timings.shape_slat_flow_ops, ops(23));
    assert_eq!(timings.tex_slat_flow_ops, ops(119));
    assert_eq!((timings.sparse_cond_ms, timings.sparse_sample_ms, timings.sparse_post_ms), (1, 2, 3));
    assert_eq!((timings.sparse_ms, timings.total_ms, timings.decode_pbr_ms), (101, 101, 11));
    assert_eq!(timings.decode_tex_wgpu_max_chunk_rows, 21);
}

#[test]
fn runs_outside_a_cascade_keep_no_first_round() {
    let (output, timings) = run_stages("512", None, "", false).unwrap();
    assert!(output.shape_slat_lr.is_none());
    assert!(output.conditioning.cond_1024.is_none());
    assert!(output.conditioning.neg_cond_1024.is_none());
    assert_eq!(output.mesh, "512_base at 900 after 54");
    assert_eq!(timings.shape_slat_flow_ops, ops(22));
    let mut overrides = TrellisNoiseOverrides::<f32>::default();
    overrides.shape_slat = Some(SparseRowNoiseOverride { coords: vec![], feats: vec![] });
    let (output, _) = run_stages("1024_cascade", Some(overrides), "", false).unwrap();
    assert!(output.shape_slat_lr.is_none(), "given shape latents need no cascade");
    assert!(output.conditioning.cond_1024.is_some());
}

#[test]
fn the_first_failing_stage_ends_a_run() {
    let failed = |pipeline: &str, fails: &str| {
        run_stages(pipeline, None, fails, true).map(|_| ()).unwrap_err()
    };
    assert_eq!(failed("1024", "get_cond_1024"), "get_cond_1024 failed");
    assert_eq!(failed("1024", "sparse"), "sparse failed");
    assert_eq!(failed("1024", "shape"), "shape failed");
    assert_eq!(failed("1024_cascade", "cascade"), "cascade failed");
    assert_eq!(failed("1024", "tex"), "tex failed");
    assert_eq!(failed("1024", "decode"), "decode failed");
    assert_eq!(
        failed("1024", "device"),
        "runtime pipeline decode_complete device sync failed: device failed"
    );
    assert!(run_stages("1024", None, "device", false).is_ok());
}

#[test]
fn stages_count_their_rows() {
    assert_eq!(sparse_rows(4, true, Some(9)), 4);
    assert_eq!(sparse_rows(0, true, Some(9)), 9);
    assert_eq!(sparse_rows(0, false, Some(9)), 0);
    assert_eq!(shape_rows(0, true, None, 7), 7);
    assert_eq!(tex_rows(0, true, None, Some(5), 7), 5);
    assert_eq!(tex_rows(0, false, Some(1), Some(5), 7), 7);
}

#[test]
fn decoding_waits_for_the_device_where_it_was_used() {
    let fenced = RuntimeToggles { stage_fence: true, ..RuntimeToggles::default() };
    assert!(decode_needs_fence(true, 0, 1, &fenced));
    assert!(!decode_needs_fence(true, 0, 0, &fenced));
    assert!(!decode_needs_fence(false, 1, 1, &fenced));
    assert!(!decode_needs_fence(true, 1, 1, &RuntimeToggles::default()));
    let lost = || Err("lost".to_string());
    assert_eq!(runtime_pipeline_stage_boundary_sync("decode", false, true, lost), Ok(()));
    assert_eq!(
        runtime_pipeline_stage_boundary_sync("decode_complete", true, true, lost),
        Err("runtime pipeline decode_complete device sync failed: lost".to_string())
    );
    assert_eq!(runtime_pipeline_stage_boundary_sync("decode", true, true, || Ok(())), Ok(()));
}
