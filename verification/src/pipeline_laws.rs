//! What a run of the pipeline does, stated of its inputs and results.
use crate::conditioning::{conditioning_outcome, outcome_1024, outcome_512};
use crate::overrides::{TrellisNoiseOverrides, TrellisStageConditioning};
use crate::pipeline_config::{run_toggles, settings_of, RuntimeFlowStage, TrellisStageRunConfig};
use crate::pipeline_load::TrellisStageRuntime;
use crate::pipeline_run::{run_plan, RunPlan};
use crate::pipeline_stages::{
    after_shape, after_sparse, conditioned, conditioned_outcome, decode_outcome, decode_request_of,
    given, output_of, overrides_or_nothing, plan_of, run_outcome, shape_outcome, shape_request_of,
    sparse_request_of, stages_outcome, tex_request_of, timings_of, CascadeRequest, DecodeRequest,
    RunRequest, ShapeRequest, SparseRequest, StageResults, TexRequest,
};
use crate::runtime_access::RuntimeBackend;
use crate::stage_samples::{
    DecodedLatentOutput, ShapeSLatSample, ShapeStage, SparseStructureSample, TexSLatSample,
    TrellisStageOutput, TrellisStageTimings,
};
use vstd::prelude::*;

verus! {

// ---------------------------------------------------------------------------
// Conditioning
// ---------------------------------------------------------------------------

/// A condition, and its negative, is what the check takes of the caller's own
/// value for it; where the check takes nothing, the condition is extracted from
/// the image at its resolution, and the negative is as many zeros.
pub proof fn conditions_come_from_their_own_sources<F, V, X>(
    pipeline_type: Seq<char>,
    overrides: Option<&TrellisNoiseOverrides<F>>,
    zero: F,
    validate: V,
    extract: X,
    c: TrellisStageConditioning<F>,
    checked: spec_fn(usize, Option<&Vec<F>>, &str, &str) -> Option<Vec<F>>,
) where
    V: Fn(usize, Option<&Vec<F>>, &str, &str) -> Result<Option<Vec<F>>, String>,
    X: Fn(&str, usize, usize, usize) -> Result<Vec<F>, String>,

    requires
        conditioning_outcome(pipeline_type, overrides, zero, validate, extract, Ok(c)),
        forall|n: usize, g: Option<&Vec<F>>, s: &str, kind: &str, r: Option<Vec<F>>| #[trigger]
            call_ensures(validate, (n, g, s, kind), Ok(r)) ==> r == checked(n, g, s, kind),
    ensures
        ({
            let none: Option<&Vec<F>> = None;
            let cond_512 = match overrides {
                Some(o) => (match &o.cond_512 { Some(v) => Some(v), None => None }),
                None => none,
            };
            let neg_cond_512 = match overrides {
                Some(o) => (match &o.neg_cond_512 { Some(v) => Some(v), None => None }),
                None => none,
            };
            let cond_1024 = match overrides {
                Some(o) => (match &o.cond_1024 { Some(v) => Some(v), None => None }),
                None => none,
            };
            let neg_cond_1024 = match overrides {
                Some(o) => (match &o.neg_cond_1024 { Some(v) => Some(v), None => None }),
                None => none,
            };
            &&& match checked(1_053_696, cond_512, "get_cond_512", "cond") {
                Some(values) => c.cond_512 == values,
                None => call_ensures(extract, ("get_cond_512", 512, 1029, 1024), Ok(c.cond_512)),
            }
            &&& match checked(1_053_696, neg_cond_512, "get_cond_512", "neg-cond") {
                Some(values) => c.neg_cond_512 == values,
                None => c.neg_cond_512@.len() == 1_053_696 && forall|i: int|
                    0 <= i < 1_053_696 ==> #[trigger] c.neg_cond_512@[i] == zero,
            }
            &&& c.cond_1024 is None <==> pipeline_type == "512"@ || pipeline_type == "512_base"@
            &&& c.neg_cond_1024 is None <==> c.cond_1024 is None
            &&& c.cond_1024 matches Some(high) ==> match checked(
                4_199_424,
                cond_1024,
                "get_cond_1024",
                "cond",
            ) {
                Some(values) => high == values,
                None => call_ensures(extract, ("get_cond_1024", 1024, 4101, 1024), Ok(high)),
            }
            &&& c.neg_cond_1024 matches Some(high) ==> match checked(
                4_199_424,
                neg_cond_1024,
                "get_cond_1024",
                "neg-cond",
            ) {
                Some(values) => high == values,
                None => high@.len() == 4_199_424 && forall|i: int|
                    0 <= i < 4_199_424 ==> #[trigger] high@[i] == zero,
            }
        }),
{
    let out: Result<TrellisStageConditioning<F>, String> = Ok(c);
    let low = choose|low: Result<(Vec<F>, Vec<F>), String>| #[trigger]
        outcome_512(overrides, zero, validate, extract, low) && low is Ok && low->Ok_0.0
            == c.cond_512 && low->Ok_0.1 == c.neg_cond_512;
    assert(outcome_512(overrides, zero, validate, extract, low));
    if c.cond_1024 is Some {
        let high = choose|high: Result<(Vec<F>, Vec<F>), String>| #[trigger]
            outcome_1024(overrides, zero, validate, extract, high) && high is Ok && Some(
                high->Ok_0.0,
            ) == c.cond_1024 && Some(high->Ok_0.1) == c.neg_cond_1024;
        assert(outcome_1024(overrides, zero, validate, extract, high));
    }
}

// ---------------------------------------------------------------------------
// Settings
// ---------------------------------------------------------------------------

/// The sparse stage runs with the sparse formats of the profile, the latent
/// stages with those for latents; all else is common to them.
pub proof fn stages_run_in_their_own_formats(run_config: TrellisStageRunConfig)
    ensures
        ({
            let profile = run_config.compute_profile;
            let sparse = settings_of(run_config, RuntimeFlowStage::SparseStructure);
            let slat = settings_of(run_config, RuntimeFlowStage::SLat);
            &&& sparse.debug.sparse_flow_module_attention_f16
                == profile.wgpu_sparse_module_attention_f16
            &&& slat.debug.sparse_flow_module_attention_f16
                == profile.wgpu_slat_module_attention_f16
            &&& sparse.policy.self_attention_f16 == profile.wgpu_sparse_self_attention_f16
            &&& sparse.policy.cross_attention_f16 == profile.wgpu_sparse_cross_attention_f16
            &&& sparse.policy.final_f32_steps == profile.wgpu_sparse_final_f32_steps
            &&& slat.policy.self_attention_f16 == profile.wgpu_slat_module_attention_f16
            &&& slat.policy.cross_attention_f16 == profile.wgpu_slat_module_attention_f16
            &&& slat.policy.final_f32_steps == 0
            &&& forall|stage: RuntimeFlowStage|
                ({
                    let debug = (#[trigger] settings_of(run_config, stage)).debug;
                    &&& debug.stage_debug == run_config.runtime_stage_debug
                    &&& debug.attention_debug == run_config.runtime_attention_debug
                    &&& debug.sparse_flow_module_attention
                    &&& debug.sparse_flow_linear_f16 == profile.wgpu_linear_f16
                    &&& debug.sparse_flow_torso_f16 == profile.wgpu_flow_torso_f16
                    &&& !debug.sparse_flow_stock_bf16_emulation
                    &&& debug.sparse_flow_coord_rope_kernel
                    &&& debug.sparse_decoder_conv_f16 == profile.wgpu_decoder_conv_f16
                })
            &&& run_toggles(run_config).stage_debug == run_config.runtime_stage_debug
            &&& run_toggles(run_config).stage_fence == run_config.runtime_stage_fence
            &&& run_toggles(run_config).decoder_conv_telemetry
                == run_config.runtime_decoder_conv_telemetry
        }),
{
}

/// A run has a cascade exactly where its pipeline is one of the two cascades
/// and the caller fixes no shape latents; limits of zero stand for none.
pub proof fn runs_are_planned_by_pipeline_and_overrides<F>(
    pipeline_type: Seq<char>,
    run_config: TrellisStageRunConfig,
    overrides: TrellisNoiseOverrides<F>,
    capture_sampler_trace: bool,
    parity_strict: bool,
    wgpu: bool,
    sparse_backend: Option<RuntimeBackend>,
)
    ensures
        ({
            let plan = run_plan(
                pipeline_type,
                run_config,
                overrides,
                capture_sampler_trace,
                parity_strict,
                wgpu,
                sparse_backend,
            );
            let cascades = pipeline_type == "1024_cascade"@ || pipeline_type == "1536_cascade"@;
            &&& plan.cascade is Some <==> cascades && overrides.shape_slat is None
            &&& plan.cascade == Some(1024usize) ==> pipeline_type == "1024_cascade"@
            &&& plan.cascade matches Some(target) ==> target == 1024 || target == 1536
                && pipeline_type == "1536_cascade"@
            &&& plan.use_sampler_overrides <==> !parity_strict
            &&& plan.max_num_tokens > 0
            &&& run_config.max_num_tokens matches Some(limit) ==> limit > 0 ==> plan.max_num_tokens
                == limit
            &&& run_config.max_num_tokens is None || run_config.max_num_tokens == Some(0usize)
                ==> plan.max_num_tokens == 49_152
            &&& plan.max_sparse_coords != Some(0usize)
            &&& run_config.max_sparse_coords != Some(0usize) ==> plan.max_sparse_coords
                == run_config.max_sparse_coords
            &&& run_config.max_sparse_coords == Some(0usize) ==> plan.max_sparse_coords is None
            &&& capture_sampler_trace || overrides.shape_noise_dense is Some
                || overrides.tex_noise_dense is Some ==> plan.materialize_host_coords
            &&& cascades && !(wgpu && sparse_backend == Some(RuntimeBackend::Wgpu))
                ==> plan.materialize_host_coords
            &&& plan.materialize_host_coords ==> capture_sampler_trace
                || overrides.shape_noise_dense is Some || overrides.tex_noise_dense is Some || (
            cascades && !(wgpu && sparse_backend == Some(RuntimeBackend::Wgpu)))
        }),
{
    reveal_strlit("1024_cascade");
    reveal_strlit("1536_cascade");
    assert("1024_cascade"@[1] == '0' && "1536_cascade"@[1] == '5');
}

// ---------------------------------------------------------------------------
// Stages
// ---------------------------------------------------------------------------

/// The sparse structure is sampled with the resolved condition at the lower
/// resolution and its negative, and with what the caller fixes for this stage.
pub proof fn sparse_stage_gets_its_inputs<F, N>(
    runtime: &TrellisStageRuntime<F, N>,
    run: RunRequest,
    plan: RunPlan,
    o: TrellisNoiseOverrides<F>,
    c: TrellisStageConditioning<F>,
)
    requires
        plan.use_sampler_overrides == !run.parity_strict,
    ensures
        ({
            let q = sparse_request_of(runtime, run, plan, &conditioned(o, c));
            &&& q.settings == settings_of(run.run_config, RuntimeFlowStage::SparseStructure)
            &&& q.resolution == run.sparse_resolution
            &&& q.noise == (match &o.sparse_noise { Some(v) => Some(v), None => None })
            &&& q.coords == (match &o.sparse_coords { Some(v) => Some(v), None => None })
            &&& q.cond == Some(&c.cond_512)
            &&& q.neg_cond == Some(&c.neg_cond_512)
            &&& q.sampler == runtime.sparse_sampler
            &&& q.sampler_override == (if run.parity_strict { None } else { o.sparse_sampler })
            &&& q.capture_sampler_trace == run.capture_sampler_trace
            &&& q.parity_strict == run.parity_strict
            &&& q.materialize_host_coords == plan.materialize_host_coords
            &&& q.max_sparse_coords == plan.max_sparse_coords
        }),
{
}

/// Shape latents are sampled with what the caller fixes for shapes, and with the
/// resolved conditions.
pub proof fn shape_stage_gets_its_inputs<F, N>(
    runtime: &TrellisStageRuntime<F, N>,
    run: RunRequest,
    plan: RunPlan,
    o: TrellisNoiseOverrides<F>,
    c: TrellisStageConditioning<F>,
    sparse_resolution: usize,
)
    requires
        plan.use_sampler_overrides == !run.parity_strict,
    ensures
        ({
            let q = shape_request_of(runtime, run, plan, &conditioned(o, c), sparse_resolution);
            &&& q.settings == settings_of(run.run_config, RuntimeFlowStage::SLat)
            &&& q.slat == (match &o.shape_slat { Some(v) => Some(v), None => None })
            &&& q.noise == (match &o.shape_noise { Some(v) => Some(v), None => None })
            &&& q.noise_dense == (match &o.shape_noise_dense { Some(v) => Some(v), None => None })
            &&& q.sampler == runtime.shape_sampler
            &&& q.sampler_override == (if run.parity_strict { None } else { o.shape_sampler })
            &&& q.norm == &runtime.shape_norm
            &&& q.sparse_resolution == sparse_resolution
            &&& q.capture_sampler_trace == run.capture_sampler_trace
            &&& q.parity_strict == run.parity_strict
            &&& q.overrides.cond_512 == Some(c.cond_512)
            &&& q.overrides.neg_cond_512 == Some(c.neg_cond_512)
            &&& q.overrides.cond_1024 == c.cond_1024
            &&& q.overrides.neg_cond_1024 == c.neg_cond_1024
            &&& q.overrides.shape_noise_lr == o.shape_noise_lr
            &&& q.overrides.shape_noise_hr == o.shape_noise_hr
            &&& *q.overrides == (TrellisNoiseOverrides {
                cond_512: Some(c.cond_512),
                neg_cond_512: Some(c.neg_cond_512),
                cond_1024: c.cond_1024,
                neg_cond_1024: c.neg_cond_1024,
                ..o
            })
        }),
{
}

/// Texture latents are sampled with what the caller fixes for textures, and with
/// the resolved conditions.
pub proof fn tex_stage_gets_its_inputs<F, N>(
    runtime: &TrellisStageRuntime<F, N>,
    run: RunRequest,
    plan: RunPlan,
    o: TrellisNoiseOverrides<F>,
    c: TrellisStageConditioning<F>,
    sparse_resolution: usize,
)
    requires
        plan.use_sampler_overrides == !run.parity_strict,
    ensures
        ({
            let q = tex_request_of(runtime, run, plan, &conditioned(o, c), sparse_resolution);
            &&& q.settings == settings_of(run.run_config, RuntimeFlowStage::SLat)
            &&& q.slat == (match &o.tex_slat { Some(v) => Some(v), None => None })
            &&& q.noise == (match &o.tex_noise { Some(v) => Some(v), None => None })
            &&& q.noise_dense == (match &o.tex_noise_dense { Some(v) => Some(v), None => None })
            &&& q.sampler == runtime.tex_sampler
            &&& q.sampler_override == (if run.parity_strict { None } else { o.tex_sampler })
            &&& q.shape_norm == &runtime.shape_norm
            &&& q.tex_norm == &runtime.tex_norm
            &&& q.sparse_resolution == sparse_resolution
            &&& q.capture_sampler_trace == run.capture_sampler_trace
            &&& q.parity_strict == run.parity_strict
            &&& q.overrides.cond_512 == Some(c.cond_512)
            &&& q.overrides.neg_cond_512 == Some(c.neg_cond_512)
            &&& q.overrides.cond_1024 == c.cond_1024
            &&& q.overrides.neg_cond_1024 == c.neg_cond_1024
            &&& q.overrides.shape_noise_lr == o.shape_noise_lr
            &&& q.overrides.shape_noise_hr == o.shape_noise_hr
            &&& *q.overrides == (TrellisNoiseOverrides {
                cond_512: Some(c.cond_512),
                neg_cond_512: Some(c.neg_cond_512),
                cond_1024: c.cond_1024,
                neg_cond_1024: c.neg_cond_1024,
                ..o
            })
        }),
{
}

/// Latents are decoded with the settings of the run and what the caller fixes of
/// decoding.
pub proof fn decode_stage_gets_its_inputs<F, N>(
    runtime: &TrellisStageRuntime<F, N>,
    run: RunRequest,
    o: TrellisNoiseOverrides<F>,
    c: TrellisStageConditioning<F>,
    resolution: usize,
)
    ensures
        ({
            let q = decode_request_of(runtime, run, &conditioned(o, c), resolution);
            &&& q.settings == settings_of(run.run_config, RuntimeFlowStage::SLat)
            &&& q.pipeline_type == &runtime.pipeline_type
            &&& q.resolution == resolution
            &&& q.target_faces == run.run_config.target_faces
            &&& q.pbr_texture_size == run.run_config.pbr_texture_size
            &&& q.parity_strict == run.parity_strict
            &&& q.capture_sampler_trace == run.capture_sampler_trace
            &&& q.shape_subs == (match &o.decode_shape_subs { Some(v) => Some(v), None => None })
            &&& q.tex_voxels == (match &o.decode_tex_voxels { Some(v) => Some(v), None => None })
            &&& q.mesh_vertices == (match &o.decode_mesh_vertices { Some(v) => Some(v), None => None })
            &&& q.mesh_faces == (match &o.decode_mesh_faces { Some(v) => Some(v), None => None })
            &&& q.output_mode == run.run_config.decode_output_mode
        }),
{
}

/// The stages of a finished run are taken in order: each is handed its own
/// request, the results before it and the random numbers that the stage before
/// it left; the output holds what they gave, with the conditioning that they
/// ran with, and the timings carry their counters.
pub proof fn finished_runs_pass_from_stage_to_stage<F, N, D, C, U, M, G, I, V, X, S, H, K, T, E, Y, A, B>(
    runtime: &TrellisStageRuntime<F, N>,
    run: RunRequest,
    noise_overrides: Option<TrellisNoiseOverrides<F>>,
    rng: G,
    zero: F,
    no_time: U,
    validate: V,
    extract: X,
    sample_sparse: S,
    sample_shape: H,
    sample_shape_cascade: K,
    sample_tex: T,
    decode: E,
    sync: Y,
    now: A,
    since: B,
    output: TrellisStageOutput<F, D, C, U, M>,
    timings: TrellisStageTimings<U>,
) where
    V: Fn(usize, Option<&Vec<F>>, &str, &str) -> Result<Option<Vec<F>>, String>,
    X: Fn(&str, usize, usize, usize) -> Result<Vec<F>, String>,
    S: FnOnce(&SparseRequest<'_, F>, G) -> Result<(SparseStructureSample<F, C, U>, G), String>,
    H: FnOnce(&ShapeRequest<'_, F, N>, &SparseStructureSample<F, C, U>, G) -> Result<(ShapeSLatSample<F, D, C>, G), String>,
    K: FnOnce(&ShapeRequest<'_, F, N>, CascadeRequest, &SparseStructureSample<F, C, U>, G) -> Result<(ShapeStage<F, D, C>, G), String>,
    T: FnOnce(&TexRequest<'_, F, N>, &ShapeSLatSample<F, D, C>, G) -> Result<(TexSLatSample<F, D, C>, G), String>,
    E: FnOnce(&DecodeRequest<'_, F>, &ShapeSLatSample<F, D, C>, &TexSLatSample<F, D, C>) -> Result<DecodedLatentOutput<F, U, M>, String>,
    Y: FnOnce() -> Result<(), String>,
    A: Fn() -> I,
    B: Fn(I) -> U,

    requires
        run_outcome(
            runtime,
            run,
            noise_overrides,
            rng,
            zero,
            no_time,
            validate,
            extract,
            sample_sparse,
            sample_shape,
            sample_shape_cascade,
            sample_tex,
            decode,
            sync,
            now,
            since,
            Ok((output, timings)),
        ),
    ensures
        conditioning_outcome(
            runtime.pipeline_type@,
            (match &noise_overrides { Some(v) => Some(v), None => None }),
            zero,
            validate,
            extract,
            Ok(output.conditioning),
        ),
        ({
            let o = match noise_overrides {
                Some(o) => o,
                None => TrellisNoiseOverrides::<F>::nothing(),
            };
            let c = output.conditioning;
            let plan = run_plan(
                runtime.pipeline_type@,
                run.run_config,
                o,
                run.capture_sampler_trace,
                run.parity_strict,
                run.wgpu,
                run.sparse_backend,
            );
            exists|stage: ShapeStage<F, D, C>, g1: G, g2: G, g3: G, decoded: DecodedLatentOutput<F, U, M>|
                #![trigger chained(stage, g1, g2, g3, decoded)]
                {
                    &&& chained(stage, g1, g2, g3, decoded)
                    &&& call_ensures(
                        sample_sparse,
                        (&sparse_request_of(runtime, run, plan, &conditioned(o, c)), rng),
                        Ok((output.sparse, g1)),
                    )
                    &&& match plan.cascade {
                        Some(target_resolution) => call_ensures(
                            sample_shape_cascade,
                            (
                                &shape_request_of(
                                    runtime,
                                    run,
                                    plan,
                                    &conditioned(o, c),
                                    output.sparse.resolution,
                                ),
                                CascadeRequest {
                                    base_resolution: 512,
                                    target_resolution,
                                    max_num_tokens: plan.max_num_tokens,
                                },
                                &output.sparse,
                                g1,
                            ),
                            Ok((stage, g2)),
                        ),
                        None => call_ensures(
                            sample_shape,
                            (
                                &shape_request_of(
                                    runtime,
                                    run,
                                    plan,
                                    &conditioned(o, c),
                                    output.sparse.resolution,
                                ),
                                &output.sparse,
                                g1,
                            ),
                            Ok((output.shape_slat, g2)),
                        ) && stage.slat_lr is None && stage.sparse_resolution
                            == output.sparse.resolution && stage.decode_resolution
                            == run.final_resolution,
                    }
                    &&& output.shape_slat == stage.slat
                    &&& output.shape_slat_lr == stage.slat_lr
                    &&& call_ensures(
                        sample_tex,
                        (
                            &tex_request_of(
                                runtime,
                                run,
                                plan,
                                &conditioned(o, c),
                                stage.sparse_resolution,
                            ),
                            &output.shape_slat,
                            g2,
                        ),
                        Ok((output.tex_slat, g3)),
                    )
                    &&& call_ensures(
                        decode,
                        (
                            &decode_request_of(
                                runtime,
                                run,
                                &conditioned(o, c),
                                stage.decode_resolution,
                            ),
                            &output.shape_slat,
                            &output.tex_slat,
                        ),
                        Ok(decoded),
                    )
                    &&& output.decode_source == decoded.source
                    &&& output.decode_shape_subs == decoded.shape_subs
                    &&& output.decode_tex_voxels == decoded.tex_voxels
                    &&& output.mesh == decoded.mesh
                    &&& output.pbr == decoded.pbr
                    &&& timings.decode_stage_fenced == decoded.timings.stage_fenced
                    &&& timings.decode_shape_decoder_ms == decoded.timings.shape_decoder_ms
                    &&& timings.decode_tex_decoder_ms == decoded.timings.tex_decoder_ms
                    &&& timings.decode_attr_merge_ms == decoded.timings.attr_merge_ms
                    &&& timings.decode_mesh_ms == decoded.timings.mesh_ms
                    &&& timings.decode_pbr_ms == decoded.timings.pbr_ms
                    &&& timings.decode_shape_conv_calls == decoded.timings.shape_conv_calls
                    &&& timings.decode_tex_conv_calls == decoded.timings.tex_conv_calls
                    &&& timings.decode_shape_wgpu_dispatches == decoded.timings.shape_wgpu_dispatches
                    &&& timings.decode_tex_wgpu_dispatches == decoded.timings.tex_wgpu_dispatches
                    &&& timings.decode_shape_wgpu_chunked_calls == decoded.timings.shape_wgpu_chunked_calls
                    &&& timings.decode_tex_wgpu_chunked_calls == decoded.timings.tex_wgpu_chunked_calls
                    &&& timings.decode_shape_wgpu_input_bytes == decoded.timings.shape_wgpu_input_bytes
                    &&& timings.decode_tex_wgpu_input_bytes == decoded.timings.tex_wgpu_input_bytes
                    &&& timings.decode_shape_wgpu_output_bytes == decoded.timings.shape_wgpu_output_bytes
                    &&& timings.decode_tex_wgpu_output_bytes == decoded.timings.tex_wgpu_output_bytes
                    &&& timings.decode_shape_wgpu_max_chunk_rows == decoded.timings.shape_wgpu_max_chunk_rows
                    &&& timings.decode_tex_wgpu_max_chunk_rows == decoded.timings.tex_wgpu_max_chunk_rows
                }
        }),
        ({
            let o = match noise_overrides {
                Some(o) => o,
                None => TrellisNoiseOverrides::<F>::nothing(),
            };
            &&& output.decode_shape_input == o.decode_shape_input
            &&& output.decode_tex_input == o.decode_tex_input
        }),
        output.sparse.runtime_profile matches Some(profile) ==> timings.sparse_cond_ms
            == profile.cond_prepare_ms && timings.sparse_sample_ms == profile.sample_ms
            && timings.sparse_post_ms == profile.postprocess_ms && timings.sparse_flow_ops
            == profile.flow_ops,
        output.sparse.runtime_profile is None ==> timings.sparse_cond_ms == no_time
            && timings.sparse_sample_ms == no_time && timings.sparse_post_ms == no_time,
        timings.shape_slat_flow_ops == output.shape_slat.flow_ops,
        timings.tex_slat_flow_ops == output.tex_slat.flow_ops,
{
    let out: Result<(TrellisStageOutput<F, D, C, U, M>, TrellisStageTimings<U>), String> = Ok((output, timings));
    let o = overrides_or_nothing(noise_overrides);
    let c = output.conditioning;
    let resolved = choose|conditioning: Result<TrellisStageConditioning<F>, String>| #[trigger]
        conditioning_outcome(
            runtime.pipeline_type@,
            given(&noise_overrides),
            zero,
            validate,
            extract,
            conditioning,
        ) && match conditioning {
            Err(msg) => out == Err::<
                (TrellisStageOutput<F, D, C, U, M>, TrellisStageTimings<U>),
                String,
            >(msg),
            Ok(conditioning) => conditioned_outcome(
                runtime,
                run,
                overrides_or_nothing(noise_overrides),
                conditioning,
                rng,
                no_time,
                sample_sparse,
                sample_shape,
                sample_shape_cascade,
                sample_tex,
                decode,
                sync,
                now,
                since,
                out,
            ),
        };
    let found = resolved->Ok_0;
    let plan = plan_of(*runtime, run, o);
    let ov = conditioned(o, found);
    let results = choose|results: Result<StageResults<F, D, C, U, M>, String>| #[trigger]
        stages_outcome(
            runtime,
            run,
            plan,
            &ov,
            rng,
            sample_sparse,
            sample_shape,
            sample_shape_cascade,
            sample_tex,
            decode,
            sync,
            results,
        ) && match results {
            Err(msg) => out == Err::<
                (TrellisStageOutput<F, D, C, U, M>, TrellisStageTimings<U>),
                String,
            >(msg),
            Ok(results) => out matches Ok((output, timings)) && output == output_of(
                results,
                found,
                o,
            ) && timings_of(results, no_time, now, since, timings),
        };
    let done = results->Ok_0;
    assert(c == found);
    let sampled = choose|sampled: Result<(SparseStructureSample<F, C, U>, G), String>| #[trigger]
        call_ensures(sample_sparse, (&sparse_request_of(runtime, run, plan, &ov), rng), sampled)
            && match sampled {
            Err(msg) => results == Err::<StageResults<F, D, C, U, M>, String>(msg),
            Ok((sparse, left)) => after_sparse(
                runtime,
                run,
                plan,
                &ov,
                sparse,
                left,
                sample_shape,
                sample_shape_cascade,
                sample_tex,
                decode,
                sync,
                results,
            ),
        };
    let sparse = sampled->Ok_0.0;
    let g1 = sampled->Ok_0.1;
    let shaped = choose|shaped: Result<(ShapeStage<F, D, C>, G), String>| #[trigger]
        shape_outcome(
            shape_request_of(runtime, run, plan, &ov, sparse.resolution),
            plan,
            run.final_resolution,
            sparse,
            g1,
            sample_shape,
            sample_shape_cascade,
            shaped,
        ) && match shaped {
            Err(msg) => results == Err::<StageResults<F, D, C, U, M>, String>(msg),
            Ok((shape, left)) => after_shape(
                runtime,
                run,
                plan,
                &ov,
                sparse,
                shape,
                left,
                sample_tex,
                decode,
                sync,
                results,
            ),
        };
    let stage = shaped->Ok_0.0;
    let g2 = shaped->Ok_0.1;
    let colored = choose|sampled: Result<(TexSLatSample<F, D, C>, G), String>| #[trigger]
        call_ensures(
            sample_tex,
            (&tex_request_of(runtime, run, plan, &ov, stage.sparse_resolution), &stage.slat, g2),
            sampled,
        ) && match sampled {
            Err(msg) => results == Err::<StageResults<F, D, C, U, M>, String>(msg),
            Ok((tex, _)) => decode_outcome(
                runtime,
                run,
                &ov,
                sparse,
                stage,
                tex,
                decode,
                sync,
                results,
            ),
        };
    let tex = colored->Ok_0.0;
    let g3 = colored->Ok_0.1;
    assert(decode_outcome(runtime, run, &ov, sparse, stage, tex, decode, sync, results));
    let decoded = done.decoded;
    assert(done.sparse == sparse && done.shape == stage && done.tex == tex);
    assert(call_ensures(
        decode,
        (&decode_request_of(runtime, run, &ov, stage.decode_resolution), &stage.slat, &tex),
        Ok(decoded),
    ));
    assert(chained(stage, g1, g2, g3, decoded));
}

/// Names the values that a finished run passes on.
pub open spec fn chained<F, D, C, U, M, G>(
    stage: ShapeStage<F, D, C>,
    g1: G,
    g2: G,
    g3: G,
    decoded: DecodedLatentOutput<F, U, M>,
) -> bool {
    true
}

} // verus!
