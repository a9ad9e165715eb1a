//! Switches of a process: environment variables, the name of the tensor
//! backend, and the sampler step that attention runs in.
//!
//! A switch takes the value of its variable as text. `1`, `true`, `on` and
//! `yes` switch it on and `0`, `false`, `off` and `no` off, whatever their
//! case and with white space around them; anything else leaves the default.
use crate::policy::{sparse_flow_stage_debug_enabled, FlowBackend, FlowEnv};
use crate::text::{flag_or, flag_setting, occurs, str_contains};
use vstd::prelude::*;

verus! {

/// Variable of [`sparse_flow_batched_cfg_experimental_enabled`].
pub const BATCHED_CFG_VAR: &'static str = "TRELLIS2_SPARSE_FLOW_BATCHED_CFG";

/// Variable of [`sparse_flow_batched_cfg_debug_enabled`].
pub const BATCHED_CFG_DEBUG_VAR: &'static str = "TRELLIS2_SPARSE_FLOW_BATCHED_CFG_DEBUG";

/// Variable of [`sparse_flow_weight_probe_enabled`].
pub const WEIGHT_PROBE_VAR: &'static str = "TRELLIS2_SPARSE_FLOW_WEIGHT_PROBE";

/// Variable of [`sparse_flow_forward_finite_probe_enabled`].
pub const FORWARD_FINITE_PROBE_VAR: &'static str = "TRELLIS2_SPARSE_FLOW_FORWARD_FINITE_PROBE";

/// Variable of [`sparse_flow_forward_finite_probe_strict`].
pub const FORWARD_FINITE_PROBE_STRICT_VAR: &'static str =
    "TRELLIS2_SPARSE_FLOW_FORWARD_FINITE_PROBE_STRICT";

/// Variable of [`sparse_flow_sync_profile_enabled`].
pub const SYNC_PROFILE_VAR: &'static str = "TRELLIS2_SPARSE_FLOW_SYNC_PROFILE";

/// Variable of [`sparse_flow_wgpu_layer_norm_kernel_enabled`].
pub const WGPU_LAYER_NORM_KERNEL_VAR: &'static str = "TRELLIS2_SPARSE_FLOW_WGPU_LAYER_NORM_KERNEL";

/// Both guidance branches may run in one batch; off by default.
pub fn sparse_flow_batched_cfg_experimental_enabled(value: Option<&str>) -> (r: bool)
    ensures
        r == flag_setting(value, false),
{
    flag_or(value, false)
}

/// Batched guidance is logged; off by default.
pub fn sparse_flow_batched_cfg_debug_enabled(value: Option<&str>) -> (r: bool)
    ensures
        r == flag_setting(value, false),
{
    flag_or(value, false)
}

/// Loaded weights are logged: whenever stages are, and off by default otherwise.
pub fn sparse_flow_weight_probe_enabled(env: &FlowEnv, value: Option<&str>) -> (r: bool)
    ensures
        r == (env.debug.stage_debug || flag_setting(value, false)),
{
    sparse_flow_stage_debug_enabled(env) || flag_or(value, false)
}

/// Activations are searched for values that are not finite; off by default.
pub fn sparse_flow_forward_finite_probe_enabled(value: Option<&str>) -> (r: bool)
    ensures
        r == flag_setting(value, false),
{
    flag_or(value, false)
}

/// A value that is not finite ends the process; off by default.
pub fn sparse_flow_forward_finite_probe_strict(value: Option<&str>) -> (r: bool)
    ensures
        r == flag_setting(value, false),
{
    flag_or(value, false)
}

/// The device is synchronized around timed operations; off by default.
pub fn sparse_flow_sync_profile_enabled(value: Option<&str>) -> (r: bool)
    ensures
        r == flag_setting(value, false),
{
    flag_or(value, false)
}

/// Norms use their dedicated kernels; on by default.
pub fn sparse_flow_wgpu_layer_norm_kernel_enabled(value: Option<&str>) -> (r: bool)
    ensures
        r == flag_setting(value, true),
{
    flag_or(value, true)
}

impl FlowBackend {
    /// Backend whose type has the given name.
    pub open spec fn named(name: Seq<char>) -> FlowBackend {
        if !occurs(name, "Wgpu"@) && !occurs(name, "cubecl_wgpu"@) {
            FlowBackend::Cpu
        } else if occurs(name, "Fusion<"@) {
            FlowBackend::WgpuFusion
        } else {
            FlowBackend::Wgpu
        }
    }

    /// Backend whose type has the given name.
    pub fn from_type_name(name: &str) -> (r: FlowBackend)
        ensures
            r == FlowBackend::named(name@),
    {
        if !str_contains(name, "Wgpu") && !str_contains(name, "cubecl_wgpu") {
            return FlowBackend::Cpu;
        }
        if str_contains(name, "Fusion<") {
            FlowBackend::WgpuFusion
        } else {
            FlowBackend::Wgpu
        }
    }
}

/// The sampler step under way: its number and how many there are.
#[derive(Clone, Copy, Debug, PartialEq, Eq, Structural)]
pub struct SamplerStep {
    pub step_idx: usize,
    pub step_count: usize,
}

/// The sampler steps that are announced during a run.
pub ghost enum StepNotice {
    /// Every step of a run with that many steps.
    Counted { step_count: usize },
    /// None: what was announced before the run stays.
    Fixed { step: Option<SamplerStep> },
}

impl StepNotice {
    /// Notices of a run of `step_count` steps that starts with `before` announced.
    pub open spec fn of(wgpu: bool, before: Option<SamplerStep>, step_count: usize) -> StepNotice {
        if wgpu {
            StepNotice::Counted { step_count }
        } else {
            StepNotice::Fixed { step: before }
        }
    }

    /// What is announced during the step of number `step_idx`.
    pub open spec fn at(self, step_idx: int) -> Option<SamplerStep> {
        match self {
            StepNotice::Counted { step_count } => Some(
                SamplerStep { step_idx: step_idx as usize, step_count },
            ),
            StepNotice::Fixed { step } => step,
        }
    }
}

/// What is announced once a run has ended: nothing, where steps are announced.
pub open spec fn step_after_run(wgpu: bool, before: Option<SamplerStep>) -> Option<SamplerStep> {
    if wgpu {
        None
    } else {
        before
    }
}

/// Announces the sampler step to the half-precision policy of attention,
/// which only the WGPU runtime has.
pub fn set_sparse_flow_sampler_step_for_attention(
    current: &mut Option<SamplerStep>,
    wgpu: bool,
    step_idx: usize,
    step_count: usize,
)
    ensures
        *final(current) == (if wgpu {
            Some(SamplerStep { step_idx, step_count })
        } else {
            *old(current)
        }),
{
    if wgpu {
        *current = Some(SamplerStep { step_idx, step_count });
    }
}

/// Ends the announced sampler step.
pub fn clear_sparse_flow_sampler_step_for_attention(current: &mut Option<SamplerStep>, wgpu: bool)
    ensures
        *final(current) == step_after_run(wgpu, *old(current)),
{
    if wgpu {
        *current = None;
    }
}

} // verus!
