//! Settings of a pipeline run, and the model toggles that follow from them.
use crate::policy::RuntimeModelDebugConfig;
use crate::text::str_eq;
use vstd::prelude::*;

verus! {

/// Runtime that sampled the sparse structure.
#[derive(Clone, Copy, Debug, PartialEq, Eq, Structural)]
pub enum SparseStructureStageSource {
    RuntimeModelCpu,
    RuntimeModelWgpu,
}

impl SparseStructureStageSource {
    /// Name in reports.
    pub fn as_str(self) -> (r: &'static str)
        ensures
            r@ == (match self {
                SparseStructureStageSource::RuntimeModelCpu => "runtime_model_cpu"@,
                SparseStructureStageSource::RuntimeModelWgpu => "runtime_model_wgpu"@,
            }),
    {
        match self {
            SparseStructureStageSource::RuntimeModelCpu => "runtime_model_cpu",
            SparseStructureStageSource::RuntimeModelWgpu => "runtime_model_wgpu",
        }
    }
}

/// What decoded the latents.
#[derive(Clone, Copy, Debug, PartialEq, Eq, Structural)]
pub enum DecodeStageSource {
    Runtime,
}

impl DecodeStageSource {
    /// Name in reports.
    pub fn as_str(self) -> (r: &'static str)
        ensures
            r@ == "runtime"@,
    {
        match self {
            DecodeStageSource::Runtime => "runtime",
        }
    }
}

/// What decoding puts out.
#[derive(Clone, Copy, Debug, PartialEq, Eq, Structural)]
pub enum TrellisDecodeOutputMode {
    /// A mesh with baked textures.
    NativePbr,
    /// Voxels for an outside exporter.
    OvoxelHookExport,
}

impl Default for TrellisDecodeOutputMode {
    fn default() -> (r: Self)
        ensures
            r == TrellisDecodeOutputMode::NativePbr,
    {
        TrellisDecodeOutputMode::NativePbr
    }
}

impl TrellisDecodeOutputMode {
    /// Name in reports.
    pub fn as_str(self) -> (r: &'static str)
        ensures
            r@ == (match self {
                TrellisDecodeOutputMode::NativePbr => "native-pbr"@,
                TrellisDecodeOutputMode::OvoxelHookExport => "ovoxel-hook-export"@,
            }),
    {
        match self {
            TrellisDecodeOutputMode::NativePbr => "native-pbr",
            TrellisDecodeOutputMode::OvoxelHookExport => "ovoxel-hook-export",
        }
    }

    /// Whether textures are baked.
    pub fn needs_native_pbr(self) -> (r: bool)
        ensures
            r == (self == TrellisDecodeOutputMode::NativePbr),
    {
        match self {
            TrellisDecodeOutputMode::NativePbr => true,
            TrellisDecodeOutputMode::OvoxelHookExport => false,
        }
    }
}

/// Where a limit on sparse coordinates comes from.
#[derive(Clone, Copy, Debug, PartialEq, Eq, Structural)]
pub enum SparseCoordCapSource {
    ExplicitRunConfig,
}

impl SparseCoordCapSource {
    /// Name in reports.
    pub fn as_str(self) -> (r: &'static str)
        ensures
            r@ == "explicit_run_config"@,
    {
        match self {
            SparseCoordCapSource::ExplicitRunConfig => "explicit_run_config",
        }
    }
}

/// Number formats that a compute profile stands for.
#[derive(Clone, Copy, Debug, PartialEq, Eq, Structural)]
pub struct TrellisComputeProfile {
    pub wgpu_sparse_module_attention_f16: bool,
    pub wgpu_slat_module_attention_f16: bool,
    pub wgpu_linear_f16: bool,
    pub wgpu_flow_torso_f16: bool,
    pub wgpu_decoder_conv_f16: bool,
    pub wgpu_sparse_self_attention_f16: bool,
    pub wgpu_sparse_cross_attention_f16: bool,
    /// Sampler steps at the end that run in single precision.
    pub wgpu_sparse_final_f32_steps: usize,
}

/// Settings of one run.
#[derive(Clone, Copy, Debug, PartialEq, Eq, Structural)]
pub struct TrellisStageRunConfig {
    pub max_sparse_coords: Option<usize>,
    pub max_num_tokens: Option<usize>,
    pub target_faces: Option<usize>,
    pub pbr_texture_size: Option<usize>,
    pub compute_profile: TrellisComputeProfile,
    pub decode_output_mode: TrellisDecodeOutputMode,
    pub runtime_stage_debug: bool,
    pub runtime_attention_debug: bool,
    pub runtime_decoder_conv_telemetry: bool,
    pub runtime_stage_fence: bool,
}

impl TrellisStageRunConfig {
    /// A run with a compute profile and nothing else set.
    pub fn with_profile(compute_profile: TrellisComputeProfile) -> (r: Self)
        ensures
            r.max_sparse_coords is None,
            r.max_num_tokens is None,
            r.target_faces is None,
            r.pbr_texture_size is None,
            r.compute_profile == compute_profile,
            r.decode_output_mode == TrellisDecodeOutputMode::NativePbr,
            !r.runtime_stage_debug,
            !r.runtime_attention_debug,
            !r.runtime_decoder_conv_telemetry,
            !r.runtime_stage_fence,
    {
        TrellisStageRunConfig {
            max_sparse_coords: None,
            max_num_tokens: None,
            target_faces: None,
            pbr_texture_size: None,
            compute_profile,
            decode_output_mode: TrellisDecodeOutputMode::default(),
            runtime_stage_debug: false,
            runtime_attention_debug: false,
            runtime_decoder_conv_telemetry: false,
            runtime_stage_fence: false,
        }
    }

    /// Limit on sparse coordinates; zero stands for none.
    pub fn sparse_coord_limit(&self) -> (r: Option<usize>)
        ensures
            r == (if self.max_sparse_coords == Some(0usize) {
                None
            } else {
                self.max_sparse_coords
            }),
    {
        match self.max_sparse_coords {
            Some(limit) if limit > 0 => Some(limit),
            _ => None,
        }
    }

    /// Limit on tokens of a cascade; zero and nothing stand for the default.
    pub fn token_limit(&self) -> (r: usize)
        ensures
            r == (match self.max_num_tokens {
                Some(limit) => if limit > 0 {
                    limit
                } else {
                    49_152
                },
                None => 49_152,
            }),
            r > 0,
    {
        match self.max_num_tokens {
            Some(limit) if limit > 0 => limit,
            _ => 49_152,
        }
    }
}

/// Process-wide toggles of the pipeline.
#[derive(Clone, Copy, Debug, PartialEq, Eq, Structural)]
pub struct RuntimeToggles {
    pub stage_debug: bool,
    pub decoder_conv_telemetry: bool,
    pub stage_fence: bool,
}

impl Default for RuntimeToggles {
    fn default() -> (r: Self)
        ensures
            !r.stage_debug,
            !r.decoder_conv_telemetry,
            !r.stage_fence,
    {
        RuntimeToggles { stage_debug: false, decoder_conv_telemetry: false, stage_fence: false }
    }
}

/// Toggles of a run.
pub open spec fn run_toggles(run_config: TrellisStageRunConfig) -> RuntimeToggles {
    RuntimeToggles {
        stage_debug: run_config.runtime_stage_debug,
        decoder_conv_telemetry: run_config.runtime_decoder_conv_telemetry,
        stage_fence: run_config.runtime_stage_fence,
    }
}

/// Puts the toggles of a run in force.
pub fn set_runtime_debug_toggles(toggles: &mut RuntimeToggles, run_config: TrellisStageRunConfig)
    ensures
        *final(toggles) == run_toggles(run_config),
{
    toggles.stage_debug = run_config.runtime_stage_debug;
    toggles.decoder_conv_telemetry = run_config.runtime_decoder_conv_telemetry;
    toggles.stage_fence = run_config.runtime_stage_fence;
}

/// Whether stages are logged in detail.
pub fn runtime_stage_debug_enabled(toggles: &RuntimeToggles) -> (r: bool)
    ensures
        r == toggles.stage_debug,
{
    toggles.stage_debug
}

/// Whether stages wait for the device at their end.
pub fn runtime_stage_fence_enabled(toggles: &RuntimeToggles) -> (r: bool)
    ensures
        r == toggles.stage_fence,
{
    toggles.stage_fence
}

/// Whether decoder convolutions are counted.
pub fn runtime_decoder_conv_telemetry_enabled(toggles: &RuntimeToggles) -> (r: bool)
    ensures
        r == toggles.decoder_conv_telemetry,
{
    toggles.decoder_conv_telemetry
}

/// Kind of flow stage that toggles are set for.
#[derive(Clone, Copy, Debug, PartialEq, Eq, Structural)]
pub enum RuntimeFlowStage {
    SparseStructure,
    SLat,
}

/// Half-precision policy of attention.
#[derive(Clone, Copy, Debug, PartialEq, Eq, Structural)]
pub struct AttentionPolicy {
    pub self_attention_f16: bool,
    pub cross_attention_f16: bool,
    /// Sampler steps at the end that run in single precision.
    pub final_f32_steps: usize,
}

/// Model toggles of a stage.
pub open spec fn stage_debug_config(
    run_config: TrellisStageRunConfig,
    stage: RuntimeFlowStage,
) -> RuntimeModelDebugConfig {
    RuntimeModelDebugConfig {
        stage_debug: run_config.runtime_stage_debug,
        attention_debug: run_config.runtime_attention_debug,
        sparse_flow_module_attention: true,
        sparse_flow_module_attention_f16: match stage {
            RuntimeFlowStage::SparseStructure =>
                run_config.compute_profile.wgpu_sparse_module_attention_f16,
            RuntimeFlowStage::SLat => run_config.compute_profile.wgpu_slat_module_attention_f16,
        },
        sparse_flow_linear_f16: run_config.compute_profile.wgpu_linear_f16,
        sparse_flow_torso_f16: run_config.compute_profile.wgpu_flow_torso_f16,
        sparse_flow_stock_bf16_emulation: false,
        sparse_flow_coord_rope_kernel: true,
        sparse_decoder_conv_f16: run_config.compute_profile.wgpu_decoder_conv_f16,
    }
}

/// Attention policy of a stage.
pub open spec fn stage_attention_policy(
    run_config: TrellisStageRunConfig,
    stage: RuntimeFlowStage,
) -> AttentionPolicy {
    let profile = run_config.compute_profile;
    match stage {
        RuntimeFlowStage::SparseStructure => AttentionPolicy {
            self_attention_f16: profile.wgpu_sparse_self_attention_f16,
            cross_attention_f16: profile.wgpu_sparse_cross_attention_f16,
            final_f32_steps: profile.wgpu_sparse_final_f32_steps,
        },
        RuntimeFlowStage::SLat => AttentionPolicy {
            self_attention_f16: profile.wgpu_slat_module_attention_f16,
            cross_attention_f16: profile.wgpu_slat_module_attention_f16,
            final_f32_steps: 0,
        },
    }
}

/// Model toggles and attention policy that a stage runs with.
#[derive(Clone, Copy, Debug, PartialEq, Eq, Structural)]
pub struct StageSettings {
    pub debug: RuntimeModelDebugConfig,
    pub policy: AttentionPolicy,
}

/// Settings of a stage.
pub open spec fn settings_of(
    run_config: TrellisStageRunConfig,
    stage: RuntimeFlowStage,
) -> StageSettings {
    StageSettings {
        debug: stage_debug_config(run_config, stage),
        policy: stage_attention_policy(run_config, stage),
    }
}

/// Settings of a stage.
pub fn stage_settings(run_config: TrellisStageRunConfig, stage: RuntimeFlowStage) -> (r:
    StageSettings)
    ensures
        r == settings_of(run_config, stage),
{
    let profile: TrellisComputeProfile = run_config.compute_profile;
    let module_attention_f16: bool = match stage {
        RuntimeFlowStage::SparseStructure => profile.wgpu_sparse_module_attention_f16,
        RuntimeFlowStage::SLat => profile.wgpu_slat_module_attention_f16,
    };
    let debug: RuntimeModelDebugConfig = RuntimeModelDebugConfig {
        stage_debug: run_config.runtime_stage_debug,
        attention_debug: run_config.runtime_attention_debug,
        sparse_flow_module_attention: true,
        sparse_flow_module_attention_f16: module_attention_f16,
        sparse_flow_linear_f16: profile.wgpu_linear_f16,
        sparse_flow_torso_f16: profile.wgpu_flow_torso_f16,
        sparse_flow_stock_bf16_emulation: false,
        sparse_flow_coord_rope_kernel: true,
        sparse_decoder_conv_f16: profile.wgpu_decoder_conv_f16,
    };
    let policy: AttentionPolicy = match stage {
        RuntimeFlowStage::SparseStructure => AttentionPolicy {
            self_attention_f16: profile.wgpu_sparse_self_attention_f16,
            cross_attention_f16: profile.wgpu_sparse_cross_attention_f16,
            final_f32_steps: profile.wgpu_sparse_final_f32_steps,
        },
        RuntimeFlowStage::SLat => {
            let half: bool = profile.wgpu_slat_module_attention_f16;
            AttentionPolicy {
                self_attention_f16: half,
                cross_attention_f16: half,
                final_f32_steps: 0,
            }
        },
    };
    StageSettings { debug, policy }
}

/// Puts the model toggles and the attention policy of a stage in force.
pub fn set_runtime_model_debug_config_for_stage(
    config: &mut RuntimeModelDebugConfig,
    policy: &mut AttentionPolicy,
    run_config: TrellisStageRunConfig,
    stage: RuntimeFlowStage,
)
    ensures
        *final(config) == stage_debug_config(run_config, stage),
        *final(policy) == stage_attention_policy(run_config, stage),
{
    let settings: StageSettings = stage_settings(run_config, stage);
    *config = settings.debug;
    *policy = settings.policy;
}

// ---------------------------------------------------------------------------
// Pipeline types
// ---------------------------------------------------------------------------

/// The name in use for a pipeline type: two older names stand for newer ones.
pub open spec fn canonical_name(pipeline_type: Seq<char>) -> Seq<char> {
    if pipeline_type == "512"@ {
        "512_base"@
    } else if pipeline_type == "1024_single"@ {
        "1024"@
    } else {
        pipeline_type
    }
}

/// The name in use for a pipeline type.
pub fn canonical_pipeline_type<'a>(pipeline_type: &'a str) -> (r: &'a str)
    ensures
        r@ == canonical_name(pipeline_type@),
{
    if str_eq(pipeline_type, "512") {
        "512_base"
    } else if str_eq(pipeline_type, "1024_single") {
        "1024"
    } else {
        pipeline_type
    }
}

/// A name in use stands for itself.
pub proof fn canonical_names_are_final(pipeline_type: Seq<char>)
    ensures
        canonical_name(canonical_name(pipeline_type)) == canonical_name(pipeline_type),
        canonical_name(pipeline_type) != "512"@,
        canonical_name(pipeline_type) != "1024_single"@,
{
    reveal_strlit("512");
    reveal_strlit("512_base");
    reveal_strlit("1024");
    reveal_strlit("1024_single");
    assert("512"@.len() == 3 && "512_base"@.len() == 8 && "1024"@.len() == 4 && "1024_single"@.len()
        == 11);
}

/// The pipeline works at the lower resolution throughout.
pub open spec fn is_512_pipeline(pipeline_type: Seq<char>) -> bool {
    pipeline_type == "512"@ || pipeline_type == "512_base"@
}

/// Whether the pipeline works at the lower resolution throughout.
pub fn prefers_512(pipeline_type: &str) -> (r: bool)
    ensures
        r == is_512_pipeline(pipeline_type@),
{
    str_eq(pipeline_type, "512") || str_eq(pipeline_type, "512_base")
}

/// Decoding resolution of a pipeline that refines shapes in two rounds.
pub open spec fn cascade_resolution(pipeline_type: Seq<char>) -> Option<usize> {
    if pipeline_type == "1024_cascade"@ {
        Some(1024)
    } else if pipeline_type == "1536_cascade"@ {
        Some(1536)
    } else {
        None
    }
}

/// Decoding resolution of a pipeline that refines shapes in two rounds.
pub fn cascade_target(pipeline_type: &str) -> (r: Option<usize>)
    ensures
        r == cascade_resolution(pipeline_type@),
{
    if str_eq(pipeline_type, "1024_cascade") {
        Some(1024)
    } else if str_eq(pipeline_type, "1536_cascade") {
        Some(1536)
    } else {
        None
    }
}

} // verus!
