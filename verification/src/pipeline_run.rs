//! One run of the pipeline: what is settled before it, its steps, and what is
//! read off its results.
use crate::overrides::{SamplerConfigOverride, TrellisNoiseOverrides};
use crate::pipeline_config::{
    cascade_resolution, cascade_target, runtime_stage_fence_enabled, RuntimeToggles,
    TrellisStageRunConfig,
};
use crate::runtime_access::RuntimeBackend;
use vstd::prelude::*;
use vstd::string::*;

verus! {

// ---------------------------------------------------------------------------
// Before the run
// ---------------------------------------------------------------------------

/// Resolution of the first round of a cascade.
pub const CASCADE_BASE_RESOLUTION: usize = 512;

/// What a run is carried out with.
#[derive(Clone, Copy, Debug, PartialEq, Eq, Structural)]
pub struct RunPlan {
    /// Limit on sparse coordinates.
    pub max_sparse_coords: Option<usize>,
    /// Limit on tokens of a cascade.
    pub max_num_tokens: usize,
    /// Sampler settings of the caller are in force.
    pub use_sampler_overrides: bool,
    /// Sparse coordinates are read back to the host.
    pub materialize_host_coords: bool,
    /// Decoding resolution of a shape cascade, where the run has one.
    pub cascade: Option<usize>,
}

/// Sparse coordinates are needed on the host: by a cascade, unless the sparse
/// model runs on the device that the cascade runs on.
pub open spec fn requires_host_coords(
    cascade_pipeline: bool,
    wgpu: bool,
    sparse_backend: Option<RuntimeBackend>,
) -> bool {
    cascade_pipeline && (wgpu ==> sparse_backend != Some(RuntimeBackend::Wgpu))
}

/// What a run is carried out with.
pub open spec fn run_plan<F>(
    pipeline_type: Seq<char>,
    run_config: TrellisStageRunConfig,
    overrides: TrellisNoiseOverrides<F>,
    capture_sampler_trace: bool,
    parity_strict: bool,
    wgpu: bool,
    sparse_backend: Option<RuntimeBackend>,
) -> RunPlan {
    RunPlan {
        max_sparse_coords: if run_config.max_sparse_coords == Some(0usize) {
            None
        } else {
            run_config.max_sparse_coords
        },
        max_num_tokens: match run_config.max_num_tokens {
            Some(limit) => if limit > 0 {
                limit
            } else {
                49_152
            },
            None => 49_152,
        },
        use_sampler_overrides: !parity_strict,
        materialize_host_coords: requires_host_coords(
            cascade_resolution(pipeline_type) is Some,
            wgpu,
            sparse_backend,
        ) || capture_sampler_trace || overrides.shape_noise_dense is Some
            || overrides.tex_noise_dense is Some,
        cascade: if overrides.shape_slat is None {
            cascade_resolution(pipeline_type)
        } else {
            None
        },
    }
}

/// Settles a run.
pub fn plan_run<F>(
    pipeline_type: &str,
    run_config: &TrellisStageRunConfig,
    overrides: &TrellisNoiseOverrides<F>,
    capture_sampler_trace: bool,
    parity_strict: bool,
    wgpu: bool,
    sparse_backend: Option<RuntimeBackend>,
) -> (r: RunPlan)
    ensures
        r == run_plan(
            pipeline_type@,
            *run_config,
            *overrides,
            capture_sampler_trace,
            parity_strict,
            wgpu,
            sparse_backend,
        ),
{
    let target: Option<usize> = cascade_target(pipeline_type);
    let requires_host_coords: bool = if target.is_none() {
        false
    } else if wgpu {
        match sparse_backend {
            Some(RuntimeBackend::Wgpu) => false,
            _ => true,
        }
    } else {
        true
    };
    RunPlan {
        max_sparse_coords: run_config.sparse_coord_limit(),
        max_num_tokens: run_config.token_limit(),
        use_sampler_overrides: !parity_strict,
        materialize_host_coords: requires_host_coords || capture_sampler_trace
            || overrides.shape_noise_dense.is_some() || overrides.tex_noise_dense.is_some(),
        cascade: if overrides.shape_slat.is_none() {
            target
        } else {
            None
        },
    }
}

/// The sampler settings of the caller, unless runs are compared strictly.
pub open spec fn sampler_in_force<F>(
    plan: RunPlan,
    given: Option<SamplerConfigOverride<F>>,
) -> Option<SamplerConfigOverride<F>> {
    if plan.use_sampler_overrides {
        given
    } else {
        None
    }
}

/// The sampler settings of the caller, unless runs are compared strictly.
pub fn sampler_override<F: Copy>(
    plan: &RunPlan,
    given: Option<SamplerConfigOverride<F>>,
) -> (r: Option<SamplerConfigOverride<F>>)
    ensures
        r == sampler_in_force(*plan, given),
{
    if plan.use_sampler_overrides {
        given
    } else {
        None
    }
}

// ---------------------------------------------------------------------------
// After the stages
// ---------------------------------------------------------------------------

/// Rows of a stage: those on the host, else those of the device tensors in
/// order, else `fallback`.
pub open spec fn stage_rows(
    host_rows: int,
    wgpu: bool,
    coords_rows: Option<usize>,
    feature_rows: Option<usize>,
    fallback: int,
) -> int {
    if host_rows > 0 {
        host_rows
    } else if wgpu && coords_rows is Some {
        coords_rows->Some_0 as int
    } else if wgpu && feature_rows is Some {
        feature_rows->Some_0 as int
    } else {
        fallback
    }
}

/// Rows of the sparse structure.
pub fn sparse_rows(host_coords: usize, wgpu: bool, device_coords: Option<usize>) -> (r: usize)
    ensures
        r == stage_rows(host_coords as int, wgpu, device_coords, None, 0),
{
    tex_rows(host_coords, wgpu, device_coords, None, 0)
}

/// Rows of the shape latents.
pub fn shape_rows(
    host_coords: usize,
    wgpu: bool,
    device_coords: Option<usize>,
    features: usize,
) -> (r: usize)
    ensures
        r == stage_rows(host_coords as int, wgpu, device_coords, None, features as int),
{
    tex_rows(host_coords, wgpu, device_coords, None, features)
}

/// Rows of the texture latents.
pub fn tex_rows(
    host_coords: usize,
    wgpu: bool,
    device_coords: Option<usize>,
    device_features: Option<usize>,
    features: usize,
) -> (r: usize)
    ensures
        r == stage_rows(
            host_coords as int,
            wgpu,
            device_coords,
            device_features,
            features as int,
        ),
{
    if host_coords > 0 {
        return host_coords;
    }
    if wgpu {
        if let Some(rows) = device_coords {
            return rows;
        }
        if let Some(rows) = device_features {
            return rows;
        }
    }
    features
}

/// Whether the end of decoding waits for the device: where decoding was
/// dispatched to it and fences are on.
pub fn decode_needs_fence(
    wgpu: bool,
    shape_wgpu_dispatches: u64,
    tex_wgpu_dispatches: u64,
    toggles: &RuntimeToggles,
) -> (r: bool)
    ensures
        r == (wgpu && (shape_wgpu_dispatches > 0 || tex_wgpu_dispatches > 0)
            && toggles.stage_fence),
{
    wgpu && (shape_wgpu_dispatches > 0 || tex_wgpu_dispatches > 0) && runtime_stage_fence_enabled(
        toggles,
    )
}

/// What a failed wait is reported as.
pub open spec fn sync_failure(stage: Seq<char>, error: Seq<char>) -> Seq<char> {
    "runtime pipeline "@ + stage + " device sync failed: "@ + error
}

/// Outcome of the end of a stage: that of the wait, where there is one.
pub open spec fn sync_outcome<G>(
    stage: Seq<char>,
    waits: bool,
    sync: G,
    out: Result<(), String>,
) -> bool where G: FnOnce() -> Result<(), String> {
    if waits {
        match out {
            Ok(()) => call_ensures(sync, (), Ok::<(), String>(())),
            Err(msg) => exists|error: String| #[trigger]
                call_ensures(sync, (), Err::<(), String>(error)) && msg@ == sync_failure(
                    stage,
                    error@,
                ),
        }
    } else {
        out is Ok
    }
}

/// Waits for the device at the end of a stage, where there is one and it is asked for.
pub fn runtime_pipeline_stage_boundary_sync<G>(
    stage: &str,
    enabled: bool,
    wgpu: bool,
    sync: G,
) -> (r: Result<(), String>) where G: FnOnce() -> Result<(), String>
    requires
        enabled && wgpu ==> call_requires(sync, ()),
    ensures
        sync_outcome(stage@, enabled && wgpu, sync, r),
{
    if !enabled || !wgpu {
        return Ok(());
    }
    match sync() {
        Ok(done) => {
            assert(done == ());
            Ok(done)
        },
        Err(error) => {
            let mut msg: String = "runtime pipeline ".to_owned();
            msg.append(stage);
            msg.append(" device sync failed: ");
            msg.append(error.as_str());
            assert(call_ensures(sync, (), Err::<(), String>(error)));
            assert(msg@ =~= sync_failure(stage@, error@));
            let failed: Result<(), String> = Err(msg);
            failed
        },
    }
}

} // verus!
