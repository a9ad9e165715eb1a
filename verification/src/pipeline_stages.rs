//! One run of the pipeline through its stages.
//!
//! The stages come as functions. Each is handed a request that says what it
//! works with, the results of the stages before it, and the random numbers
//! that these left.
use crate::conditioning::{conditioning_outcome, resolve_runtime_conditioning};
use crate::overrides::{
    DecodeShapeSubSample, DecodeTexVoxelSample, SamplerConfigOverride, SparseRowNoiseOverride,
    TrellisNoiseOverrides, TrellisStageConditioning,
};
use crate::pipeline_config::{
    cascade_resolution, is_512_pipeline, run_toggles, set_runtime_debug_toggles, settings_of,
    stage_settings, RuntimeFlowStage, RuntimeToggles, StageSettings, TrellisDecodeOutputMode,
    TrellisStageRunConfig,
};
use crate::pipeline_load::{TrellisSamplerConfig, TrellisStageRuntime};
use crate::pipeline_run::{
    decode_needs_fence, plan_run, run_plan, runtime_pipeline_stage_boundary_sync,
    sampler_in_force, sampler_override, sync_outcome, RunPlan, CASCADE_BASE_RESOLUTION,
};
use crate::runtime_access::RuntimeBackend;
use crate::stage_samples::{
    DecodedLatentOutput, ShapeSLatSample, ShapeStage, SparseStructureRuntimeProfile,
    SparseStructureSample, TexSLatSample, TrellisStageOutput, TrellisStageTimings,
};
use crate::telemetry::{SparseFlowOpTelemetry, SparseFlowOpTimingSummary};
use vstd::prelude::*;

verus! {

// ---------------------------------------------------------------------------
// Requests
// ---------------------------------------------------------------------------

/// What a run is asked for.
#[derive(Clone, Copy, Debug)]
pub struct RunRequest {
    pub run_config: TrellisStageRunConfig,
    pub capture_sampler_trace: bool,
    /// Runs are compared strictly with recorded ones.
    pub parity_strict: bool,
    /// The WGPU runtime is compiled in.
    pub wgpu: bool,
    /// Backend of the sparse flow model, where there is one.
    pub sparse_backend: Option<RuntimeBackend>,
    /// Resolution of the sparse structure.
    pub sparse_resolution: usize,
    /// Resolution that latents are decoded at outside a cascade.
    pub final_resolution: usize,
}

/// What the sparse structure is sampled with.
#[derive(Debug)]
pub struct SparseRequest<'a, F> {
    pub settings: StageSettings,
    pub resolution: usize,
    pub noise: Option<&'a Vec<F>>,
    pub coords: Option<&'a Vec<[u32; 4]>>,
    pub cond: Option<&'a Vec<F>>,
    pub neg_cond: Option<&'a Vec<F>>,
    pub sampler: TrellisSamplerConfig<F>,
    pub sampler_override: Option<SamplerConfigOverride<F>>,
    pub capture_sampler_trace: bool,
    pub parity_strict: bool,
    pub materialize_host_coords: bool,
    pub max_sparse_coords: Option<usize>,
}

/// What shape latents are sampled with.
#[derive(Debug)]
pub struct ShapeRequest<'a, F, N> {
    pub settings: StageSettings,
    pub slat: Option<&'a SparseRowNoiseOverride<F>>,
    pub noise: Option<&'a SparseRowNoiseOverride<F>>,
    pub noise_dense: Option<&'a Vec<F>>,
    pub overrides: &'a TrellisNoiseOverrides<F>,
    pub sampler: TrellisSamplerConfig<F>,
    pub sampler_override: Option<SamplerConfigOverride<F>>,
    pub norm: &'a N,
    pub sparse_resolution: usize,
    pub capture_sampler_trace: bool,
    pub parity_strict: bool,
}

/// The rounds of a shape cascade.
#[derive(Clone, Copy, Debug, PartialEq, Eq, Structural)]
pub struct CascadeRequest {
    pub base_resolution: usize,
    pub target_resolution: usize,
    pub max_num_tokens: usize,
}

/// What texture latents are sampled with.
#[derive(Debug)]
pub struct TexRequest<'a, F, N> {
    pub settings: StageSettings,
    pub slat: Option<&'a SparseRowNoiseOverride<F>>,
    pub noise: Option<&'a SparseRowNoiseOverride<F>>,
    pub noise_dense: Option<&'a Vec<F>>,
    pub overrides: &'a TrellisNoiseOverrides<F>,
    pub sampler: TrellisSamplerConfig<F>,
    pub sampler_override: Option<SamplerConfigOverride<F>>,
    pub shape_norm: &'a N,
    pub tex_norm: &'a N,
    pub sparse_resolution: usize,
    pub capture_sampler_trace: bool,
    pub parity_strict: bool,
}

/// What latents are decoded with.
#[derive(Debug)]
pub struct DecodeRequest<'a, F> {
    pub settings: StageSettings,
    pub pipeline_type: &'a String,
    pub resolution: usize,
    pub target_faces: Option<usize>,
    pub pbr_texture_size: Option<usize>,
    pub parity_strict: bool,
    pub capture_sampler_trace: bool,
    pub shape_subs: Option<&'a Vec<DecodeShapeSubSample<F>>>,
    pub tex_voxels: Option<&'a DecodeTexVoxelSample<F>>,
    pub mesh_vertices: Option<&'a Vec<[F; 3]>>,
    pub mesh_faces: Option<&'a Vec<[u32; 3]>>,
    pub output_mode: TrellisDecodeOutputMode,
}

/// A value that may be given, by reference.
pub open spec fn given<'a, T>(value: &'a Option<T>) -> Option<&'a T> {
    match value {
        Some(v) => Some(v),
        None => None,
    }
}

/// The request of the sparse stage.
pub open spec fn sparse_request_of<'a, F, N>(
    runtime: &'a TrellisStageRuntime<F, N>,
    run: RunRequest,
    plan: RunPlan,
    overrides: &'a TrellisNoiseOverrides<F>,
) -> SparseRequest<'a, F> {
    SparseRequest {
        settings: settings_of(run.run_config, RuntimeFlowStage::SparseStructure),
        resolution: run.sparse_resolution,
        noise: given(&overrides.sparse_noise),
        coords: given(&overrides.sparse_coords),
        cond: given(&overrides.cond_512),
        neg_cond: given(&overrides.neg_cond_512),
        sampler: runtime.sparse_sampler,
        sampler_override: sampler_in_force(plan, overrides.sparse_sampler),
        capture_sampler_trace: run.capture_sampler_trace,
        parity_strict: run.parity_strict,
        materialize_host_coords: plan.materialize_host_coords,
        max_sparse_coords: plan.max_sparse_coords,
    }
}

fn sparse_request<'a, F: Copy, N>(
    runtime: &'a TrellisStageRuntime<F, N>,
    run: RunRequest,
    plan: RunPlan,
    overrides: &'a TrellisNoiseOverrides<F>,
) -> (r: SparseRequest<'a, F>)
    ensures
        r == sparse_request_of(runtime, run, plan, overrides),
{
    SparseRequest {
        settings: stage_settings(run.run_config, RuntimeFlowStage::SparseStructure),
        resolution: run.sparse_resolution,
        noise: overrides.sparse_noise.as_ref(),
        coords: overrides.sparse_coords.as_ref(),
        cond: overrides.cond_512.as_ref(),
        neg_cond: overrides.neg_cond_512.as_ref(),
        sampler: runtime.sparse_sampler,
        sampler_override: sampler_override(&plan, overrides.sparse_sampler),
        capture_sampler_trace: run.capture_sampler_trace,
        parity_strict: run.parity_strict,
        materialize_host_coords: plan.materialize_host_coords,
        max_sparse_coords: plan.max_sparse_coords,
    }
}

/// The request of the shape stage.
pub open spec fn shape_request_of<'a, F, N>(
    runtime: &'a TrellisStageRuntime<F, N>,
    run: RunRequest,
    plan: RunPlan,
    overrides: &'a TrellisNoiseOverrides<F>,
    sparse_resolution: usize,
) -> ShapeRequest<'a, F, N> {
    ShapeRequest {
        settings: settings_of(run.run_config, RuntimeFlowStage::SLat),
        slat: given(&overrides.shape_slat),
        noise: given(&overrides.shape_noise),
        noise_dense: given(&overrides.shape_noise_dense),
        overrides,
        sampler: runtime.shape_sampler,
        sampler_override: sampler_in_force(plan, overrides.shape_sampler),
        norm: &runtime.shape_norm,
        sparse_resolution,
        capture_sampler_trace: run.capture_sampler_trace,
        parity_strict: run.parity_strict,
    }
}

fn shape_request<'a, F: Copy, N>(
    runtime: &'a TrellisStageRuntime<F, N>,
    run: RunRequest,
    plan: RunPlan,
    overrides: &'a TrellisNoiseOverrides<F>,
    sparse_resolution: usize,
) -> (r: ShapeRequest<'a, F, N>)
    ensures
        r == shape_request_of(runtime, run, plan, overrides, sparse_resolution),
{
    ShapeRequest {
        settings: stage_settings(run.run_config, RuntimeFlowStage::SLat),
        slat: overrides.shape_slat.as_ref(),
        noise: overrides.shape_noise.as_ref(),
        noise_dense: overrides.shape_noise_dense.as_ref(),
        overrides,
        sampler: runtime.shape_sampler,
        sampler_override: sampler_override(&plan, overrides.shape_sampler),
        norm: &runtime.shape_norm,
        sparse_resolution,
        capture_sampler_trace: run.capture_sampler_trace,
        parity_strict: run.parity_strict,
    }
}

/// The request of the texture stage.
pub open spec fn tex_request_of<'a, F, N>(
    runtime: &'a TrellisStageRuntime<F, N>,
    run: RunRequest,
    plan: RunPlan,
    overrides: &'a TrellisNoiseOverrides<F>,
    sparse_resolution: usize,
) -> TexRequest<'a, F, N> {
    TexRequest {
        settings: settings_of(run.run_config, RuntimeFlowStage::SLat),
        slat: given(&overrides.tex_slat),
        noise: given(&overrides.tex_noise),
        noise_dense: given(&overrides.tex_noise_dense),
        overrides,
        sampler: runtime.tex_sampler,
        sampler_override: sampler_in_force(plan, overrides.tex_sampler),
        shape_norm: &runtime.shape_norm,
        tex_norm: &runtime.tex_norm,
        sparse_resolution,
        capture_sampler_trace: run.capture_sampler_trace,
        parity_strict: run.parity_strict,
    }
}

fn tex_request<'a, F: Copy, N>(
    runtime: &'a TrellisStageRuntime<F, N>,
    run: RunRequest,
    plan: RunPlan,
    overrides: &'a TrellisNoiseOverrides<F>,
    sparse_resolution: usize,
) -> (r: TexRequest<'a, F, N>)
    ensures
        r == tex_request_of(runtime, run, plan, overrides, sparse_resolution),
{
    TexRequest {
        settings: stage_settings(run.run_config, RuntimeFlowStage::SLat),
        slat: overrides.tex_slat.as_ref(),
        noise: overrides.tex_noise.as_ref(),
        noise_dense: overrides.tex_noise_dense.as_ref(),
        overrides,
        sampler: runtime.tex_sampler,
        sampler_override: sampler_override(&plan, overrides.tex_sampler),
        shape_norm: &runtime.shape_norm,
        tex_norm: &runtime.tex_norm,
        sparse_resolution,
        capture_sampler_trace: run.capture_sampler_trace,
        parity_strict: run.parity_strict,
    }
}

/// The request of the decoding stage.
pub open spec fn decode_request_of<'a, F, N>(
    runtime: &'a TrellisStageRuntime<F, N>,
    run: RunRequest,
    overrides: &'a TrellisNoiseOverrides<F>,
    resolution: usize,
) -> DecodeRequest<'a, F> {
    DecodeRequest {
        settings: settings_of(run.run_config, RuntimeFlowStage::SLat),
        pipeline_type: &runtime.pipeline_type,
        resolution,
        target_faces: run.run_config.target_faces,
        pbr_texture_size: run.run_config.pbr_texture_size,
        parity_strict: run.parity_strict,
        capture_sampler_trace: run.capture_sampler_trace,
        shape_subs: given(&overrides.decode_shape_subs),
        tex_voxels: given(&overrides.decode_tex_voxels),
        mesh_vertices: given(&overrides.decode_mesh_vertices),
        mesh_faces: given(&overrides.decode_mesh_faces),
        output_mode: run.run_config.decode_output_mode,
    }
}

fn decode_request<'a, F: Copy, N>(
    runtime: &'a TrellisStageRuntime<F, N>,
    run: RunRequest,
    overrides: &'a TrellisNoiseOverrides<F>,
    resolution: usize,
) -> (r: DecodeRequest<'a, F>)
    ensures
        r == decode_request_of(runtime, run, overrides, resolution),
{
    DecodeRequest {
        settings: stage_settings(run.run_config, RuntimeFlowStage::SLat),
        pipeline_type: &runtime.pipeline_type,
        resolution,
        target_faces: run.run_config.target_faces,
        pbr_texture_size: run.run_config.pbr_texture_size,
        parity_strict: run.parity_strict,
        capture_sampler_trace: run.capture_sampler_trace,
        shape_subs: overrides.decode_shape_subs.as_ref(),
        tex_voxels: overrides.decode_tex_voxels.as_ref(),
        mesh_vertices: overrides.decode_mesh_vertices.as_ref(),
        mesh_faces: overrides.decode_mesh_faces.as_ref(),
        output_mode: run.run_config.decode_output_mode,
    }
}

// ---------------------------------------------------------------------------
// Stages
// ---------------------------------------------------------------------------

/// Outcome of the shape stage: of a cascade where the run has one, else of one
/// round, which leaves no latents of a first round behind.
pub open spec fn shape_outcome<F, N, D, C, U, G, H, K>(
    request: ShapeRequest<'_, F, N>,
    plan: RunPlan,
    final_resolution: usize,
    sparse: SparseStructureSample<F, C, U>,
    rng: G,
    sample_shape: H,
    sample_shape_cascade: K,
    out: Result<(ShapeStage<F, D, C>, G), String>,
) -> bool where
    H: FnOnce(&ShapeRequest<'_, F, N>, &SparseStructureSample<F, C, U>, G) -> Result<(ShapeSLatSample<F, D, C>, G), String>,
    K: FnOnce(&ShapeRequest<'_, F, N>, CascadeRequest, &SparseStructureSample<F, C, U>, G) -> Result<(ShapeStage<F, D, C>, G), String>,
 {
    match plan.cascade {
        Some(target_resolution) => call_ensures(
            sample_shape_cascade,
            (
                &request,
                CascadeRequest {
                    base_resolution: CASCADE_BASE_RESOLUTION,
                    target_resolution,
                    max_num_tokens: plan.max_num_tokens,
                },
                &sparse,
                rng,
            ),
            out,
        ),
        None => exists|sampled: Result<(ShapeSLatSample<F, D, C>, G), String>| #[trigger]
            call_ensures(sample_shape, (&request, &sparse, rng), sampled) && match sampled {
                Err(msg) => out == Err::<(ShapeStage<F, D, C>, G), String>(msg),
                Ok((slat, left)) => out == Ok::<(ShapeStage<F, D, C>, G), String>(
                    (
                        ShapeStage {
                            slat,
                            slat_lr: None,
                            sparse_resolution: sparse.resolution,
                            decode_resolution: final_resolution,
                        },
                        left,
                    ),
                ),
            },
    }
}

fn run_shape_stage<F, N, D, C, U, G, H, K>(
    request: &ShapeRequest<'_, F, N>,
    plan: RunPlan,
    final_resolution: usize,
    sparse: &SparseStructureSample<F, C, U>,
    rng: G,
    sample_shape: H,
    sample_shape_cascade: K,
) -> (r: Result<(ShapeStage<F, D, C>, G), String>) where
    H: FnOnce(&ShapeRequest<'_, F, N>, &SparseStructureSample<F, C, U>, G) -> Result<(ShapeSLatSample<F, D, C>, G), String>,
    K: FnOnce(&ShapeRequest<'_, F, N>, CascadeRequest, &SparseStructureSample<F, C, U>, G) -> Result<(ShapeStage<F, D, C>, G), String>,

    requires
        plan.cascade is None ==> call_requires(sample_shape, (request, sparse, rng)),
        plan.cascade matches Some(target_resolution) ==> call_requires(
            sample_shape_cascade,
            (
                request,
                CascadeRequest {
                    base_resolution: CASCADE_BASE_RESOLUTION,
                    target_resolution,
                    max_num_tokens: plan.max_num_tokens,
                },
                sparse,
                rng,
            ),
        ),
    ensures
        shape_outcome(
            *request,
            plan,
            final_resolution,
            *sparse,
            rng,
            sample_shape,
            sample_shape_cascade,
            r,
        ),
{
    match plan.cascade {
        Some(target_resolution) => {
            let cascade: CascadeRequest = CascadeRequest {
                base_resolution: CASCADE_BASE_RESOLUTION,
                target_resolution,
                max_num_tokens: plan.max_num_tokens,
            };
            sample_shape_cascade(request, cascade, sparse, rng)
        },
        None => {
            let sampled: Result<(ShapeSLatSample<F, D, C>, G), String> = sample_shape(request, sparse, rng);
            let ghost sampled_ghost = sampled;
            assert(call_ensures(sample_shape, (request, sparse, rng), sampled_ghost));
            match sampled {
                Err(msg) => {
                    let failed: Result<(ShapeStage<F, D, C>, G), String> = Err(msg);
                    failed
                },
                Ok((slat, left)) => Ok(
                    (
                        ShapeStage {
                            slat,
                            slat_lr: None,
                            sparse_resolution: sparse.resolution,
                            decode_resolution: final_resolution,
                        },
                        left,
                    ),
                ),
            }
        },
    }
}

/// Results of all stages of a run.
#[derive(Debug)]
pub struct StageResults<F, D, C, U, M> {
    pub sparse: SparseStructureSample<F, C, U>,
    pub shape: ShapeStage<F, D, C>,
    pub tex: TexSLatSample<F, D, C>,
    pub decoded: DecodedLatentOutput<F, U, M>,
}

/// Outcome of the stages of a run, one after the other: each is handed its
/// request, the results before it and the random numbers that are left; the
/// first failure ends the run.
pub open spec fn stages_outcome<F, N, D, C, U, M, G, S, H, K, T, E, Y>(
    runtime: &TrellisStageRuntime<F, N>,
    run: RunRequest,
    plan: RunPlan,
    overrides: &TrellisNoiseOverrides<F>,
    rng: G,
    sample_sparse: S,
    sample_shape: H,
    sample_shape_cascade: K,
    sample_tex: T,
    decode: E,
    sync: Y,
    out: Result<StageResults<F, D, C, U, M>, String>,
) -> bool where
    S: FnOnce(&SparseRequest<'_, F>, G) -> Result<(SparseStructureSample<F, C, U>, G), String>,
    H: FnOnce(&ShapeRequest<'_, F, N>, &SparseStructureSample<F, C, U>, G) -> Result<(ShapeSLatSample<F, D, C>, G), String>,
    K: FnOnce(&ShapeRequest<'_, F, N>, CascadeRequest, &SparseStructureSample<F, C, U>, G) -> Result<(ShapeStage<F, D, C>, G), String>,
    T: FnOnce(&TexRequest<'_, F, N>, &ShapeSLatSample<F, D, C>, G) -> Result<(TexSLatSample<F, D, C>, G), String>,
    E: FnOnce(&DecodeRequest<'_, F>, &ShapeSLatSample<F, D, C>, &TexSLatSample<F, D, C>) -> Result<DecodedLatentOutput<F, U, M>, String>,
    Y: FnOnce() -> Result<(), String>,
 {
    exists|sampled: Result<(SparseStructureSample<F, C, U>, G), String>| #[trigger]
        call_ensures(
            sample_sparse,
            (&sparse_request_of(runtime, run, plan, overrides), rng),
            sampled,
        ) && match sampled {
            Err(msg) => out == Err::<StageResults<F, D, C, U, M>, String>(msg),
            Ok((sparse, left)) => after_sparse(
                runtime,
                run,
                plan,
                overrides,
                sparse,
                left,
                sample_shape,
                sample_shape_cascade,
                sample_tex,
                decode,
                sync,
                out,
            ),
        }
}

/// Outcome of the stages behind the sparse one.
pub open spec fn after_sparse<F, N, D, C, U, M, G, H, K, T, E, Y>(
    runtime: &TrellisStageRuntime<F, N>,
    run: RunRequest,
    plan: RunPlan,
    overrides: &TrellisNoiseOverrides<F>,
    sparse: SparseStructureSample<F, C, U>,
    rng: G,
    sample_shape: H,
    sample_shape_cascade: K,
    sample_tex: T,
    decode: E,
    sync: Y,
    out: Result<StageResults<F, D, C, U, M>, String>,
) -> bool where
    H: FnOnce(&ShapeRequest<'_, F, N>, &SparseStructureSample<F, C, U>, G) -> Result<(ShapeSLatSample<F, D, C>, G), String>,
    K: FnOnce(&ShapeRequest<'_, F, N>, CascadeRequest, &SparseStructureSample<F, C, U>, G) -> Result<(ShapeStage<F, D, C>, G), String>,
    T: FnOnce(&TexRequest<'_, F, N>, &ShapeSLatSample<F, D, C>, G) -> Result<(TexSLatSample<F, D, C>, G), String>,
    E: FnOnce(&DecodeRequest<'_, F>, &ShapeSLatSample<F, D, C>, &TexSLatSample<F, D, C>) -> Result<DecodedLatentOutput<F, U, M>, String>,
    Y: FnOnce() -> Result<(), String>,
 {
    exists|shaped: Result<(ShapeStage<F, D, C>, G), String>| #[trigger]
        shape_outcome(
            shape_request_of(runtime, run, plan, overrides, sparse.resolution),
            plan,
            run.final_resolution,
            sparse,
            rng,
            sample_shape,
            sample_shape_cascade,
            shaped,
        ) && match shaped {
            Err(msg) => out == Err::<StageResults<F, D, C, U, M>, String>(msg),
            Ok((shape, left)) => after_shape(
                runtime,
                run,
                plan,
                overrides,
                sparse,
                shape,
                left,
                sample_tex,
                decode,
                sync,
                out,
            ),
        }
}

/// Outcome of the stages behind the shape stage.
pub open spec fn after_shape<F, N, D, C, U, M, G, T, E, Y>(
    runtime: &TrellisStageRuntime<F, N>,
    run: RunRequest,
    plan: RunPlan,
    overrides: &TrellisNoiseOverrides<F>,
    sparse: SparseStructureSample<F, C, U>,
    shape: ShapeStage<F, D, C>,
    rng: G,
    sample_tex: T,
    decode: E,
    sync: Y,
    out: Result<StageResults<F, D, C, U, M>, String>,
) -> bool where
    T: FnOnce(&TexRequest<'_, F, N>, &ShapeSLatSample<F, D, C>, G) -> Result<(TexSLatSample<F, D, C>, G), String>,
    E: FnOnce(&DecodeRequest<'_, F>, &ShapeSLatSample<F, D, C>, &TexSLatSample<F, D, C>) -> Result<DecodedLatentOutput<F, U, M>, String>,
    Y: FnOnce() -> Result<(), String>,
 {
    exists|sampled: Result<(TexSLatSample<F, D, C>, G), String>| #[trigger]
        call_ensures(
            sample_tex,
            (
                &tex_request_of(runtime, run, plan, overrides, shape.sparse_resolution),
                &shape.slat,
                rng,
            ),
            sampled,
        ) && match sampled {
            Err(msg) => out == Err::<StageResults<F, D, C, U, M>, String>(msg),
            Ok((tex, _)) => decode_outcome(
                runtime,
                run,
                overrides,
                sparse,
                shape,
                tex,
                decode,
                sync,
                out,
            ),
        }
}

/// Decoding ends with a wait for the device.
pub open spec fn decode_waits<F, U, M>(run: RunRequest, decoded: DecodedLatentOutput<F, U, M>) -> bool {
    run.wgpu && (decoded.timings.shape_wgpu_dispatches > 0 || decoded.timings.tex_wgpu_dispatches
        > 0) && run.run_config.runtime_stage_fence
}

/// Outcome of decoding, and of the wait behind it.
pub open spec fn decode_outcome<F, N, D, C, U, M, E, Y>(
    runtime: &TrellisStageRuntime<F, N>,
    run: RunRequest,
    overrides: &TrellisNoiseOverrides<F>,
    sparse: SparseStructureSample<F, C, U>,
    shape: ShapeStage<F, D, C>,
    tex: TexSLatSample<F, D, C>,
    decode: E,
    sync: Y,
    out: Result<StageResults<F, D, C, U, M>, String>,
) -> bool where
    E: FnOnce(&DecodeRequest<'_, F>, &ShapeSLatSample<F, D, C>, &TexSLatSample<F, D, C>) -> Result<DecodedLatentOutput<F, U, M>, String>,
    Y: FnOnce() -> Result<(), String>,
 {
    exists|decoded: Result<DecodedLatentOutput<F, U, M>, String>| #[trigger]
        call_ensures(
            decode,
            (
                &decode_request_of(runtime, run, overrides, shape.decode_resolution),
                &shape.slat,
                &tex,
            ),
            decoded,
        ) && match decoded {
            Err(msg) => out == Err::<StageResults<F, D, C, U, M>, String>(msg),
            Ok(decoded) => exists|waited: Result<(), String>| #[trigger]
                sync_outcome("decode_complete"@, decode_waits(run, decoded), sync, waited)
                    && match waited {
                    Err(msg) => out == Err::<StageResults<F, D, C, U, M>, String>(msg),
                    Ok(()) => out == Ok::<StageResults<F, D, C, U, M>, String>(
                        StageResults { sparse, shape, tex, decoded },
                    ),
                },
        }
}

// ---------------------------------------------------------------------------
// Results
// ---------------------------------------------------------------------------

/// `elapsed` is the time since a moment before.
pub open spec fn timed<U, I, A, B>(now: A, since: B, elapsed: U) -> bool where
    A: Fn() -> I,
    B: Fn(I) -> U,
 {
    exists|start: I| #[trigger]
        call_ensures(now, (), start) && call_ensures(since, (start,), elapsed)
}

/// The conditioning and the decode inputs of a run, taken out of its overrides.
pub open spec fn output_of<F, D, C, U, M>(
    results: StageResults<F, D, C, U, M>,
    conditioning: TrellisStageConditioning<F>,
    overrides: TrellisNoiseOverrides<F>,
) -> TrellisStageOutput<F, D, C, U, M> {
    TrellisStageOutput {
        sparse: results.sparse,
        shape_slat: results.shape.slat,
        shape_slat_lr: results.shape.slat_lr,
        tex_slat: results.tex,
        conditioning,
        decode_shape_input: overrides.decode_shape_input,
        decode_tex_input: overrides.decode_tex_input,
        decode_source: results.decoded.source,
        decode_shape_subs: results.decoded.shape_subs,
        decode_tex_voxels: results.decoded.tex_voxels,
        mesh: results.decoded.mesh,
        pbr: results.decoded.pbr,
    }
}

/// How long the parts of the sparse stage took; no time where that is unknown.
pub open spec fn sparse_profile<F, C, U>(
    sparse: SparseStructureSample<F, C, U>,
    no_time: U,
) -> SparseStructureRuntimeProfile<U> {
    match sparse.runtime_profile {
        Some(profile) => profile,
        None => SparseStructureRuntimeProfile {
            cond_prepare_ms: no_time,
            sample_ms: no_time,
            postprocess_ms: no_time,
            flow_ops: SparseFlowOpTimingSummary::of(SparseFlowOpTelemetry::zero()),
        },
    }
}

/// `timings` carries the counters of the stages, and measured times for the
/// stages themselves.
pub open spec fn timings_of<F, D, C, U, M, I, A, B>(
    results: StageResults<F, D, C, U, M>,
    no_time: U,
    now: A,
    since: B,
    timings: TrellisStageTimings<U>,
) -> bool where
    A: Fn() -> I,
    B: Fn(I) -> U,
 {
    let profile = sparse_profile(results.sparse, no_time);
    let decoded = results.decoded.timings;
    &&& timed(now, since, timings.sparse_ms)
    &&& timed(now, since, timings.shape_slat_ms)
    &&& timed(now, since, timings.tex_slat_ms)
    &&& timed(now, since, timings.decode_ms)
    &&& timed(now, since, timings.total_ms)
    &&& timings == (TrellisStageTimings {
        sparse_ms: timings.sparse_ms,
        sparse_cond_ms: profile.cond_prepare_ms,
        sparse_sample_ms: profile.sample_ms,
        sparse_post_ms: profile.postprocess_ms,
        sparse_flow_ops: profile.flow_ops,
        shape_slat_ms: timings.shape_slat_ms,
        shape_slat_flow_ops: results.shape.slat.flow_ops,
        tex_slat_ms: timings.tex_slat_ms,
        tex_slat_flow_ops: results.tex.flow_ops,
        decode_ms: timings.decode_ms,
        decode_stage_fenced: decoded.stage_fenced,
        decode_shape_decoder_ms: decoded.shape_decoder_ms,
        decode_tex_decoder_ms: decoded.tex_decoder_ms,
        decode_attr_merge_ms: decoded.attr_merge_ms,
        decode_mesh_ms: decoded.mesh_ms,
        decode_pbr_ms: decoded.pbr_ms,
        decode_shape_conv_calls: decoded.shape_conv_calls,
        decode_tex_conv_calls: decoded.tex_conv_calls,
        decode_shape_wgpu_dispatches: decoded.shape_wgpu_dispatches,
        decode_tex_wgpu_dispatches: decoded.tex_wgpu_dispatches,
        decode_shape_wgpu_chunked_calls: decoded.shape_wgpu_chunked_calls,
        decode_tex_wgpu_chunked_calls: decoded.tex_wgpu_chunked_calls,
        decode_shape_wgpu_input_bytes: decoded.shape_wgpu_input_bytes,
        decode_tex_wgpu_input_bytes: decoded.tex_wgpu_input_bytes,
        decode_shape_wgpu_output_bytes: decoded.shape_wgpu_output_bytes,
        decode_tex_wgpu_output_bytes: decoded.tex_wgpu_output_bytes,
        decode_shape_wgpu_max_chunk_rows: decoded.shape_wgpu_max_chunk_rows,
        decode_tex_wgpu_max_chunk_rows: decoded.tex_wgpu_max_chunk_rows,
        total_ms: timings.total_ms,
    })
}

/// The overrides of a caller that may give some.
pub open spec fn overrides_or_nothing<F>(
    overrides: Option<TrellisNoiseOverrides<F>>,
) -> TrellisNoiseOverrides<F> {
    match overrides {
        Some(o) => o,
        None => TrellisNoiseOverrides::<F>::nothing(),
    }
}

/// The overrides in force once the conditioning is resolved.
pub open spec fn conditioned<F>(
    overrides: TrellisNoiseOverrides<F>,
    conditioning: TrellisStageConditioning<F>,
) -> TrellisNoiseOverrides<F> {
    TrellisNoiseOverrides {
        cond_512: Some(conditioning.cond_512),
        neg_cond_512: Some(conditioning.neg_cond_512),
        cond_1024: conditioning.cond_1024,
        neg_cond_1024: conditioning.neg_cond_1024,
        ..overrides
    }
}

/// The plan of a run with the given overrides.
pub open spec fn plan_of<F, N>(
    runtime: TrellisStageRuntime<F, N>,
    run: RunRequest,
    overrides: TrellisNoiseOverrides<F>,
) -> RunPlan {
    run_plan(
        runtime.pipeline_type@,
        run.run_config,
        overrides,
        run.capture_sampler_trace,
        run.parity_strict,
        run.wgpu,
        run.sparse_backend,
    )
}

/// Outcome of a run whose conditioning is resolved.
pub open spec fn conditioned_outcome<F, N, D, C, U, M, G, I, S, H, K, T, E, Y, A, B>(
    runtime: &TrellisStageRuntime<F, N>,
    run: RunRequest,
    overrides: TrellisNoiseOverrides<F>,
    conditioning: TrellisStageConditioning<F>,
    rng: G,
    no_time: U,
    sample_sparse: S,
    sample_shape: H,
    sample_shape_cascade: K,
    sample_tex: T,
    decode: E,
    sync: Y,
    now: A,
    since: B,
    out: Result<(TrellisStageOutput<F, D, C, U, M>, TrellisStageTimings<U>), String>,
) -> bool where
    S: FnOnce(&SparseRequest<'_, F>, G) -> Result<(SparseStructureSample<F, C, U>, G), String>,
    H: FnOnce(&ShapeRequest<'_, F, N>, &SparseStructureSample<F, C, U>, G) -> Result<(ShapeSLatSample<F, D, C>, G), String>,
    K: FnOnce(&ShapeRequest<'_, F, N>, CascadeRequest, &SparseStructureSample<F, C, U>, G) -> Result<(ShapeStage<F, D, C>, G), String>,
    T: FnOnce(&TexRequest<'_, F, N>, &ShapeSLatSample<F, D, C>, G) -> Result<(TexSLatSample<F, D, C>, G), String>,
    E: FnOnce(&DecodeRequest<'_, F>, &ShapeSLatSample<F, D, C>, &TexSLatSample<F, D, C>) -> Result<DecodedLatentOutput<F, U, M>, String>,
    Y: FnOnce() -> Result<(), String>,
    A: Fn() -> I,
    B: Fn(I) -> U,
 {
    exists|results: Result<StageResults<F, D, C, U, M>, String>| #[trigger]
        stages_outcome(
            runtime,
            run,
            plan_of(*runtime, run, overrides),
            &conditioned(overrides, conditioning),
            rng,
            sample_sparse,
            sample_shape,
            sample_shape_cascade,
            sample_tex,
            decode,
            sync,
            results,
        ) && match results {
            Err(msg) => out == Err::<
                (TrellisStageOutput<F, D, C, U, M>, TrellisStageTimings<U>),
                String,
            >(msg),
            Ok(results) => out matches Ok((output, timings)) && output == output_of(
                results,
                conditioning,
                overrides,
            ) && timings_of(results, no_time, now, since, timings),
        }
}

/// Outcome of a run.
pub open spec fn run_outcome<F, N, D, C, U, M, G, I, V, X, S, H, K, T, E, Y, A, B>(
    runtime: &TrellisStageRuntime<F, N>,
    run: RunRequest,
    noise_overrides: Option<TrellisNoiseOverrides<F>>,
    rng: G,
    zero: F,
    no_time: U,
    validate: V,
    extract: X,
    sample_sparse: S,
    sample_shape: H,
    sample_shape_cascade: K,
    sample_tex: T,
    decode: E,
    sync: Y,
    now: A,
    since: B,
    out: Result<(TrellisStageOutput<F, D, C, U, M>, TrellisStageTimings<U>), String>,
) -> bool where
    V: Fn(usize, Option<&Vec<F>>, &str, &str) -> Result<Option<Vec<F>>, String>,
    X: Fn(&str, usize, usize, usize) -> Result<Vec<F>, String>,
    S: FnOnce(&SparseRequest<'_, F>, G) -> Result<(SparseStructureSample<F, C, U>, G), String>,
    H: FnOnce(&ShapeRequest<'_, F, N>, &SparseStructureSample<F, C, U>, G) -> Result<(ShapeSLatSample<F, D, C>, G), String>,
    K: FnOnce(&ShapeRequest<'_, F, N>, CascadeRequest, &SparseStructureSample<F, C, U>, G) -> Result<(ShapeStage<F, D, C>, G), String>,
    T: FnOnce(&TexRequest<'_, F, N>, &ShapeSLatSample<F, D, C>, G) -> Result<(TexSLatSample<F, D, C>, G), String>,
    E: FnOnce(&DecodeRequest<'_, F>, &ShapeSLatSample<F, D, C>, &TexSLatSample<F, D, C>) -> Result<DecodedLatentOutput<F, U, M>, String>,
    Y: FnOnce() -> Result<(), String>,
    A: Fn() -> I,
    B: Fn(I) -> U,
 {
    exists|conditioning: Result<TrellisStageConditioning<F>, String>| #[trigger]
        conditioning_outcome(
            runtime.pipeline_type@,
            given(&noise_overrides),
            zero,
            validate,
            extract,
            conditioning,
        ) && match conditioning {
            Err(msg) => out == Err::<
                (TrellisStageOutput<F, D, C, U, M>, TrellisStageTimings<U>),
                String,
            >(msg),
            Ok(conditioning) => conditioned_outcome(
                runtime,
                run,
                overrides_or_nothing(noise_overrides),
                conditioning,
                rng,
                no_time,
                sample_sparse,
                sample_shape,
                sample_shape_cascade,
                sample_tex,
                decode,
                sync,
                now,
                since,
                out,
            ),
        }
}

/// Takes the conditioning of a run out of its overrides.
fn resolved_conditioning<F>(
    cond_512: Option<Vec<F>>,
    neg_cond_512: Option<Vec<F>>,
    cond_1024: Option<Vec<F>>,
    neg_cond_1024: Option<Vec<F>>,
) -> (r: TrellisStageConditioning<F>)
    requires
        cond_512 is Some,
        neg_cond_512 is Some,
    ensures
        r == (TrellisStageConditioning {
            cond_512: cond_512->Some_0,
            neg_cond_512: neg_cond_512->Some_0,
            cond_1024,
            neg_cond_1024,
        }),
{
    TrellisStageConditioning {
        cond_512: cond_512.unwrap(),
        neg_cond_512: neg_cond_512.unwrap(),
        cond_1024,
        neg_cond_1024,
    }
}

impl<F: Copy, N> TrellisStageRuntime<F, N> {
    /// Runs all stages.
    ///
    /// `validate` and `extract` resolve the conditioning, `sync` waits for the
    /// device; `now` reads a clock and `since` the time that went by.
    pub fn run_profiled_with_overrides<D, C, U: Copy, M, G, I, V, X, S, H, K, T, E, Y, A, B>(
        &self,
        run: RunRequest,
        noise_overrides: Option<TrellisNoiseOverrides<F>>,
        rng: G,
        zero: F,
        no_time: U,
        toggles: &mut RuntimeToggles,
        validate: V,
        extract: X,
        sample_sparse: S,
        sample_shape: H,
        sample_shape_cascade: K,
        sample_tex: T,
        decode: E,
        sync: Y,
        now: A,
        since: B,
    ) -> (r: Result<(TrellisStageOutput<F, D, C, U, M>, TrellisStageTimings<U>), String>) where
        V: Fn(usize, Option<&Vec<F>>, &str, &str) -> Result<Option<Vec<F>>, String>,
        X: Fn(&str, usize, usize, usize) -> Result<Vec<F>, String>,
        S: FnOnce(&SparseRequest<'_, F>, G) -> Result<(SparseStructureSample<F, C, U>, G), String>,
        H: FnOnce(&ShapeRequest<'_, F, N>, &SparseStructureSample<F, C, U>, G) -> Result<(ShapeSLatSample<F, D, C>, G), String>,
        K: FnOnce(&ShapeRequest<'_, F, N>, CascadeRequest, &SparseStructureSample<F, C, U>, G) -> Result<(ShapeStage<F, D, C>, G), String>,
        T: FnOnce(&TexRequest<'_, F, N>, &ShapeSLatSample<F, D, C>, G) -> Result<(TexSLatSample<F, D, C>, G), String>,
        E: FnOnce(&DecodeRequest<'_, F>, &ShapeSLatSample<F, D, C>, &TexSLatSample<F, D, C>) -> Result<DecodedLatentOutput<F, U, M>, String>,
        Y: FnOnce() -> Result<(), String>,
        A: Fn() -> I,
        B: Fn(I) -> U,

        requires
            forall|n: usize, g: Option<&Vec<F>>, s: &str, kind: &str|
                call_requires(validate, (n, g, s, kind)),
            forall|s: &str, a: usize, b: usize, c: usize| call_requires(extract, (s, a, b, c)),
            forall|q: &SparseRequest<'_, F>, g: G| call_requires(sample_sparse, (q, g)),
            plan_of(*self, run, overrides_or_nothing(noise_overrides)).cascade is None ==> forall|
                q: &ShapeRequest<'_, F, N>,
                s: &SparseStructureSample<F, C, U>,
                g: G,
            |
                call_requires(sample_shape, (q, s, g)),
            plan_of(*self, run, overrides_or_nothing(noise_overrides)).cascade is Some ==> forall|
                q: &ShapeRequest<'_, F, N>,
                c: CascadeRequest,
                s: &SparseStructureSample<F, C, U>,
                g: G,
            |
                call_requires(sample_shape_cascade, (q, c, s, g)),
            forall|q: &TexRequest<'_, F, N>, s: &ShapeSLatSample<F, D, C>, g: G|
                call_requires(sample_tex, (q, s, g)),
            forall|
                q: &DecodeRequest<'_, F>,
                s: &ShapeSLatSample<F, D, C>,
                t: &TexSLatSample<F, D, C>,
            |
                call_requires(decode, (q, s, t)),
            run.wgpu && run.run_config.runtime_stage_fence ==> call_requires(sync, ()),
            call_requires(now, ()),
            forall|start: I| call_requires(since, (start,)),
        ensures
            run_outcome(
                self,
                run,
                noise_overrides,
                rng,
                zero,
                no_time,
                validate,
                extract,
                sample_sparse,
                sample_shape,
                sample_shape_cascade,
                sample_tex,
                decode,
                sync,
                now,
                since,
                r,
            ),
            exists|resolved: Result<TrellisStageConditioning<F>, String>| #[trigger]
                conditioning_outcome(
                    self.pipeline_type@,
                    given(&noise_overrides),
                    zero,
                    validate,
                    extract,
                    resolved,
                ) && match resolved {
                    Err(msg) => r == Err::<
                        (TrellisStageOutput<F, D, C, U, M>, TrellisStageTimings<U>),
                        String,
                    >(msg),
                    Ok(c) => exists|
                        q: SparseRequest<'_, F>,
                        sampled: Result<(SparseStructureSample<F, C, U>, G), String>,
                    | #[trigger]
                        call_ensures(sample_sparse, (&q, rng), sampled) && q.cond == Some(
                            &c.cond_512,
                        ) && q.neg_cond == Some(&c.neg_cond_512) && match sampled {
                            Err(msg) => r == Err::<
                                (TrellisStageOutput<F, D, C, U, M>, TrellisStageTimings<U>),
                                String,
                            >(msg),
                            Ok((sparse, _)) => r matches Ok((output, _)) ==> output.conditioning
                                == c && output.sparse == sparse,
                        },
                },
            *final(toggles) == run_toggles(run.run_config),
            r matches Ok((output, timings)) ==> {
                let overrides = overrides_or_nothing(noise_overrides);
                let low = is_512_pipeline(self.pipeline_type@);
                &&& output.conditioning.cond_1024 is Some <==> !low
                &&& output.conditioning.neg_cond_1024 is Some <==> !low
                &&& output.decode_shape_input == overrides.decode_shape_input
                &&& output.decode_tex_input == overrides.decode_tex_input
                &&& cascade_resolution(self.pipeline_type@) is None || overrides.shape_slat is Some
                    ==> output.shape_slat_lr is None
                &&& timings.sparse_flow_ops == sparse_profile(output.sparse, no_time).flow_ops
                &&& timings.shape_slat_flow_ops == output.shape_slat.flow_ops
                &&& timings.tex_slat_flow_ops == output.tex_slat.flow_ops
            },
    {
        let ghost rng0 = rng;
        let total_start: I = now();
        assert(call_ensures(now, (), total_start));
        set_runtime_debug_toggles(toggles, run.run_config);
        let conditioning: Result<TrellisStageConditioning<F>, String> =
            resolve_runtime_conditioning(
            self.pipeline_type.as_str(),
            noise_overrides.as_ref(),
            zero,
            validate,
            extract,
        );
        assert(conditioning_outcome(
            self.pipeline_type@,
            given(&noise_overrides),
            zero,
            validate,
            extract,
            conditioning,
        ));
        let conditioning: TrellisStageConditioning<F> = match conditioning {
            Ok(conditioning) => conditioning,
            Err(msg) => {
                let failed: Result<(TrellisStageOutput<F, D, C, U, M>, TrellisStageTimings<U>), String> = Err(msg);
                return failed;
            },
        };
        let ghost resolved = conditioning;
        let unconditioned: TrellisNoiseOverrides<F> = match noise_overrides {
            Some(overrides) => overrides,
            None => TrellisNoiseOverrides::default(),
        };
        let ghost base = unconditioned;
        let overrides: TrellisNoiseOverrides<F> = unconditioned.with_conditioning(conditioning);
        assert(overrides == conditioned(base, resolved));
        let plan: RunPlan = plan_run(
            self.pipeline_type.as_str(),
            &run.run_config,
            &overrides,
            run.capture_sampler_trace,
            run.parity_strict,
            run.wgpu,
            run.sparse_backend,
        );
        assert(plan == plan_of(*self, run, base));

        let start: I = now();
        assert(call_ensures(now, (), start));
        let request: SparseRequest<'_, F> = sparse_request(self, run, plan, &overrides);
        let sampled: Result<(SparseStructureSample<F, C, U>, G), String> = sample_sparse(&request, rng);
        let ghost sampled_ghost = sampled;
        assert(call_ensures(
            sample_sparse,
            (&sparse_request_of(self, run, plan, &overrides), rng),
            sampled_ghost,
        ));
        let (sparse, rng): (SparseStructureSample<F, C, U>, G) = match sampled {
            Ok(sampled) => sampled,
            Err(msg) => {
                let failed: Result<(TrellisStageOutput<F, D, C, U, M>, TrellisStageTimings<U>), String> = Err(msg);
                let ghost stopped = Err::<StageResults<F, D, C, U, M>, String>(failed->Err_0);
                assert(stages_outcome(
                    self,
                    run,
                    plan,
                    &overrides,
                    rng0,
                    sample_sparse,
                    sample_shape,
                    sample_shape_cascade,
                    sample_tex,
                    decode,
                    sync,
                    stopped,
                ));
                return failed;
            },
        };
        let sparse_ms: U = since(start);
        let ghost sparse_ghost = sparse;
        let ghost rng_ghost = rng;

        let start: I = now();
        assert(call_ensures(now, (), start));
        let request: ShapeRequest<'_, F, N> = shape_request(
            self,
            run,
            plan,
            &overrides,
            sparse.resolution,
        );
        let shaped: Result<(ShapeStage<F, D, C>, G), String> = run_shape_stage(
            &request,
            plan,
            run.final_resolution,
            &sparse,
            rng,
            sample_shape,
            sample_shape_cascade,
        );
        let ghost shaped_ghost = shaped;
        assert(shape_outcome(
            shape_request_of(self, run, plan, &overrides, sparse_ghost.resolution),
            plan,
            run.final_resolution,
            sparse_ghost,
            rng_ghost,
            sample_shape,
            sample_shape_cascade,
            shaped_ghost,
        ));
        let (shape, rng): (ShapeStage<F, D, C>, G) = match shaped {
            Ok(shaped) => shaped,
            Err(msg) => {
                let failed: Result<(TrellisStageOutput<F, D, C, U, M>, TrellisStageTimings<U>), String> = Err(msg);
                let ghost stopped = Err::<StageResults<F, D, C, U, M>, String>(failed->Err_0);
                assert(stages_outcome(
                    self,
                    run,
                    plan,
                    &overrides,
                    rng0,
                    sample_sparse,
                    sample_shape,
                    sample_shape_cascade,
                    sample_tex,
                    decode,
                    sync,
                    stopped,
                ));
                return failed;
            },
        };
        let shape_slat_ms: U = since(start);
        let ghost shape_ghost = shape;
        let ghost rng_ghost = rng;

        let start: I = now();
        assert(call_ensures(now, (), start));
        let request: TexRequest<'_, F, N> = tex_request(
            self,
            run,
            plan,
            &overrides,
            shape.sparse_resolution,
        );
        let sampled: Result<(TexSLatSample<F, D, C>, G), String> = sample_tex(&request, &shape.slat, rng);
        let ghost sampled_ghost = sampled;
        assert(call_ensures(
            sample_tex,
            (
                &tex_request_of(self, run, plan, &overrides, shape_ghost.sparse_resolution),
                &shape_ghost.slat,
                rng_ghost,
            ),
            sampled_ghost,
        ));
        let (tex, _left): (TexSLatSample<F, D, C>, G) = match sampled {
            Ok(sampled) => sampled,
            Err(msg) => {
                let failed: Result<(TrellisStageOutput<F, D, C, U, M>, TrellisStageTimings<U>), String> = Err(msg);
                let ghost stopped = Err::<StageResults<F, D, C, U, M>, String>(failed->Err_0);
                assert(stages_outcome(
                    self,
                    run,
                    plan,
                    &overrides,
                    rng0,
                    sample_sparse,
                    sample_shape,
                    sample_shape_cascade,
                    sample_tex,
                    decode,
                    sync,
                    stopped,
                ));
                return failed;
            },
        };
        let tex_slat_ms: U = since(start);
        let ghost tex_ghost = tex;

        let start: I = now();
        assert(call_ensures(now, (), start));
        let request: DecodeRequest<'_, F> = decode_request(
            self,
            run,
            &overrides,
            shape.decode_resolution,
        );
        let decoded: Result<DecodedLatentOutput<F, U, M>, String> = decode(&request, &shape.slat, &tex);
        let ghost decoded_ghost = decoded;
        assert(call_ensures(
            decode,
            (
                &decode_request_of(self, run, &overrides, shape_ghost.decode_resolution),
                &shape_ghost.slat,
                &tex_ghost,
            ),
            decoded_ghost,
        ));
        let decoded: DecodedLatentOutput<F, U, M> = match decoded {
            Ok(decoded) => decoded,
            Err(msg) => {
                let failed: Result<(TrellisStageOutput<F, D, C, U, M>, TrellisStageTimings<U>), String> = Err(msg);
                let ghost stopped = Err::<StageResults<F, D, C, U, M>, String>(failed->Err_0);
                assert(stages_outcome(
                    self,
                    run,
                    plan,
                    &overrides,
                    rng0,
                    sample_sparse,
                    sample_shape,
                    sample_shape_cascade,
                    sample_tex,
                    decode,
                    sync,
                    stopped,
                ));
                return failed;
            },
        };
        let fence: bool = decode_needs_fence(
            run.wgpu,
            decoded.timings.shape_wgpu_dispatches,
            decoded.timings.tex_wgpu_dispatches,
            toggles,
        );
        let waited: Result<(), String> = runtime_pipeline_stage_boundary_sync(
            "decode_complete",
            fence,
            run.wgpu,
            sync,
        );
        assert(sync_outcome("decode_complete"@, decode_waits(run, decoded), sync, waited));
        if let Err(msg) = waited {
            let failed: Result<(TrellisStageOutput<F, D, C, U, M>, TrellisStageTimings<U>), String> = Err(msg);
            let ghost stopped = Err::<StageResults<F, D, C, U, M>, String>(failed->Err_0);
            assert(stages_outcome(
                self,
                run,
                plan,
                &overrides,
                rng0,
                sample_sparse,
                sample_shape,
                sample_shape_cascade,
                sample_tex,
                decode,
                sync,
                stopped,
            ));
            return failed;
        }
        let decode_ms: U = since(start);
        let ghost results = StageResults {
            sparse: sparse_ghost,
            shape: shape_ghost,
            tex: tex_ghost,
            decoded,
        };
        let ghost finished: Result<StageResults<F, D, C, U, M>, String> = Ok(results);
        assert(stages_outcome(
            self,
            run,
            plan,
            &overrides,
            rng0,
            sample_sparse,
            sample_shape,
            sample_shape_cascade,
            sample_tex,
            decode,
            sync,
            finished,
        ));
        let profile: SparseStructureRuntimeProfile<U> = match sparse.runtime_profile {
            Some(profile) => profile,
            None => SparseStructureRuntimeProfile {
                cond_prepare_ms: no_time,
                sample_ms: no_time,
                postprocess_ms: no_time,
                flow_ops: SparseFlowOpTimingSummary::default(),
            },
        };
        let timings: TrellisStageTimings<U> = TrellisStageTimings {
            sparse_ms,
            sparse_cond_ms: profile.cond_prepare_ms,
            sparse_sample_ms: profile.sample_ms,
            sparse_post_ms: profile.postprocess_ms,
            sparse_flow_ops: profile.flow_ops,
            shape_slat_ms,
            shape_slat_flow_ops: shape.slat.flow_ops,
            tex_slat_ms,
            tex_slat_flow_ops: tex.flow_ops,
            decode_ms,
            decode_stage_fenced: decoded.timings.stage_fenced,
            decode_shape_decoder_ms: decoded.timings.shape_decoder_ms,
            decode_tex_decoder_ms: decoded.timings.tex_decoder_ms,
            decode_attr_merge_ms: decoded.timings.attr_merge_ms,
            decode_mesh_ms: decoded.timings.mesh_ms,
            decode_pbr_ms: decoded.timings.pbr_ms,
            decode_shape_conv_calls: decoded.timings.shape_conv_calls,
            decode_tex_conv_calls: decoded.timings.tex_conv_calls,
            decode_shape_wgpu_dispatches: decoded.timings.shape_wgpu_dispatches,
            decode_tex_wgpu_dispatches: decoded.timings.tex_wgpu_dispatches,
            decode_shape_wgpu_chunked_calls: decoded.timings.shape_wgpu_chunked_calls,
            decode_tex_wgpu_chunked_calls: decoded.timings.tex_wgpu_chunked_calls,
            decode_shape_wgpu_input_bytes: decoded.timings.shape_wgpu_input_bytes,
            decode_tex_wgpu_input_bytes: decoded.timings.tex_wgpu_input_bytes,
            decode_shape_wgpu_output_bytes: decoded.timings.shape_wgpu_output_bytes,
            decode_tex_wgpu_output_bytes: decoded.timings.tex_wgpu_output_bytes,
            decode_shape_wgpu_max_chunk_rows: decoded.timings.shape_wgpu_max_chunk_rows,
            decode_tex_wgpu_max_chunk_rows: decoded.timings.tex_wgpu_max_chunk_rows,
            total_ms: since(total_start),
        };
        let conditioning: TrellisStageConditioning<F> = resolved_conditioning(
            overrides.cond_512,
            overrides.neg_cond_512,
            overrides.cond_1024,
            overrides.neg_cond_1024,
        );
        let output: TrellisStageOutput<F, D, C, U, M> = TrellisStageOutput {
            sparse,
            shape_slat: shape.slat,
            shape_slat_lr: shape.slat_lr,
            tex_slat: tex,
            conditioning,
            decode_shape_input: overrides.decode_shape_input,
            decode_tex_input: overrides.decode_tex_input,
            decode_source: decoded.source,
            decode_shape_subs: decoded.shape_subs,
            decode_tex_voxels: decoded.tex_voxels,
            mesh: decoded.mesh,
            pbr: decoded.pbr,
        };
        assert(timings_of(results, no_time, now, since, timings));
        assert(output == output_of(results, resolved, base));
        Ok((output, timings))
    }
}

} // verus!
