//! What the stages of a run give: samples, decoded latents, timings.
//!
//! Numbers are of a type `F`, durations of a type `U`, rows and coordinates on
//! a device of types `D` and `C`, meshes of a type `M`.
use crate::overrides::{
    DecodeShapeSubSample, DecodeTexVoxelSample, SparseRowNoiseOverride, TrellisStageConditioning,
};
use crate::pipeline_config::{DecodeStageSource, SparseStructureStageSource};
use crate::sampling::FlowEulerSampleConfig;
use crate::telemetry::SparseFlowOpTimingSummary;
use core::ops::Range;
use vstd::prelude::*;

verus! {

/// How long the parts of the sparse stage took.
#[derive(Clone, Copy, Debug)]
pub struct SparseStructureRuntimeProfile<U> {
    pub cond_prepare_ms: U,
    pub sample_ms: U,
    pub postprocess_ms: U,
    pub flow_ops: SparseFlowOpTimingSummary,
}

/// A sampled sparse structure.
#[derive(Clone, Debug)]
pub struct SparseStructureSample<F, C, U> {
    pub source: SparseStructureStageSource,
    pub sampler_config: FlowEulerSampleConfig<F>,
    pub sigma_min: F,
    pub step_count: usize,
    pub resolution: usize,
    pub flow_resolution: usize,
    pub flow_channels: usize,
    pub noise: Vec<F>,
    pub step_0_pred_v: Vec<F>,
    pub step_0_pred_v_pos: Vec<F>,
    pub step_0_pred_v_neg: Vec<F>,
    pub step_0_x_t: Vec<F>,
    pub step_mid_x_t: Vec<F>,
    pub step_last_x_t: Vec<F>,
    pub step_pred_v: Vec<Vec<F>>,
    pub step_x_t: Vec<Vec<F>>,
    pub latent: Vec<F>,
    pub coords: Vec<[u32; 4]>,
    pub layout: Vec<Range<usize>>,
    pub coords_wgpu: Option<C>,
    pub runtime_profile: Option<SparseStructureRuntimeProfile<U>>,
}

/// Sampled shape latents.
#[derive(Clone, Debug)]
pub struct ShapeSLatSample<F, D, C> {
    pub sampler_config: FlowEulerSampleConfig<F>,
    pub sigma_min: F,
    pub step_count: usize,
    pub dense_resolution: usize,
    pub dense_channels: usize,
    pub dense_noise: Option<Vec<F>>,
    pub features: Vec<[F; 32]>,
    pub noise: Vec<[F; 32]>,
    pub step_0_pred_v: Vec<[F; 32]>,
    pub step_0_pred_v_pos: Vec<[F; 32]>,
    pub step_0_pred_v_neg: Vec<[F; 32]>,
    pub step_0_x_t: Vec<[F; 32]>,
    pub step_mid_x_t: Vec<[F; 32]>,
    pub step_last_x_t: Vec<[F; 32]>,
    pub coords: Vec<[u32; 4]>,
    pub layout: Vec<Range<usize>>,
    pub flow_ops: SparseFlowOpTimingSummary,
    pub coords_wgpu: Option<C>,
    pub features_wgpu: Option<D>,
}

/// Sampled texture latents.
#[derive(Clone, Debug)]
pub struct TexSLatSample<F, D, C> {
    pub sampler_config: FlowEulerSampleConfig<F>,
    pub sigma_min: F,
    pub step_count: usize,
    pub dense_resolution: usize,
    pub dense_channels: usize,
    pub dense_noise: Option<Vec<F>>,
    pub features: Vec<[F; 32]>,
    pub noise: Vec<[F; 32]>,
    pub step_0_pred_v: Vec<[F; 32]>,
    pub step_0_pred_v_pos: Vec<[F; 32]>,
    pub step_0_pred_v_neg: Vec<[F; 32]>,
    pub step_0_x_t: Vec<[F; 32]>,
    pub step_mid_x_t: Vec<[F; 32]>,
    pub step_last_x_t: Vec<[F; 32]>,
    pub shape_slat_cond: Vec<[F; 32]>,
    pub coords: Vec<[u32; 4]>,
    pub layout: Vec<Range<usize>>,
    pub flow_ops: SparseFlowOpTimingSummary,
    pub coords_wgpu: Option<C>,
    pub features_wgpu: Option<D>,
}

/// Shape latents with what later stages read beside them.
#[derive(Clone, Debug)]
pub struct ShapeStage<F, D, C> {
    pub slat: ShapeSLatSample<F, D, C>,
    /// Latents of the first round of a cascade.
    pub slat_lr: Option<ShapeSLatSample<F, D, C>>,
    /// Resolution of the latents.
    pub sparse_resolution: usize,
    /// Resolution that they are decoded at.
    pub decode_resolution: usize,
}

/// A baked material with what it was baked from.
#[derive(Clone, Debug)]
pub struct PbrBakeDebug<F> {
    pub texture_width: usize,
    pub texture_height: usize,
    pub uvs: Vec<[F; 2]>,
    pub raster_mask: Vec<u8>,
    pub sample_positions: Vec<[F; 3]>,
    pub sample_attrs: Vec<[F; 6]>,
    pub base_color_float: Vec<[F; 4]>,
    pub metallic_float: Vec<F>,
    pub roughness_float: Vec<F>,
    pub alpha_float: Vec<F>,
    pub base_color_rgba_u8: Vec<u8>,
    pub metallic_roughness_u8: Vec<u8>,
}

/// How long the parts of decoding took, and what they dispatched.
#[derive(Clone, Copy, Debug)]
pub struct DecodeRuntimeTimings<U> {
    pub stage_fenced: bool,
    pub shape_decoder_ms: U,
    pub tex_decoder_ms: U,
    pub attr_merge_ms: U,
    pub mesh_ms: U,
    pub pbr_ms: U,
    pub shape_conv_calls: u64,
    pub tex_conv_calls: u64,
    pub shape_wgpu_dispatches: u64,
    pub tex_wgpu_dispatches: u64,
    pub shape_wgpu_chunked_calls: u64,
    pub tex_wgpu_chunked_calls: u64,
    pub shape_wgpu_input_bytes: u64,
    pub tex_wgpu_input_bytes: u64,
    pub shape_wgpu_output_bytes: u64,
    pub tex_wgpu_output_bytes: u64,
    pub shape_wgpu_max_chunk_rows: usize,
    pub tex_wgpu_max_chunk_rows: usize,
}

/// Decoded latents.
#[derive(Clone, Debug)]
pub struct DecodedLatentOutput<F, U, M> {
    pub source: DecodeStageSource,
    pub mesh: M,
    pub shape_subs: Vec<DecodeShapeSubSample<F>>,
    pub tex_voxels: DecodeTexVoxelSample<F>,
    pub pbr: Option<PbrBakeDebug<F>>,
    pub timings: DecodeRuntimeTimings<U>,
}

/// What a run gives.
#[derive(Clone, Debug)]
pub struct TrellisStageOutput<F, D, C, U, M> {
    pub sparse: SparseStructureSample<F, C, U>,
    pub shape_slat: ShapeSLatSample<F, D, C>,
    pub shape_slat_lr: Option<ShapeSLatSample<F, D, C>>,
    pub tex_slat: TexSLatSample<F, D, C>,
    pub conditioning: TrellisStageConditioning<F>,
    pub decode_shape_input: Option<SparseRowNoiseOverride<F>>,
    pub decode_tex_input: Option<SparseRowNoiseOverride<F>>,
    pub decode_source: DecodeStageSource,
    pub decode_shape_subs: Vec<DecodeShapeSubSample<F>>,
    pub decode_tex_voxels: DecodeTexVoxelSample<F>,
    pub mesh: M,
    pub pbr: Option<PbrBakeDebug<F>>,
}

/// How long a run took, and what it counted.
#[derive(Clone, Copy, Debug)]
pub struct TrellisStageTimings<U> {
    pub sparse_ms: U,
    pub sparse_cond_ms: U,
    pub sparse_sample_ms: U,
    pub sparse_post_ms: U,
    pub sparse_flow_ops: SparseFlowOpTimingSummary,
    pub shape_slat_ms: U,
    pub shape_slat_flow_ops: SparseFlowOpTimingSummary,
    pub tex_slat_ms: U,
    pub tex_slat_flow_ops: SparseFlowOpTimingSummary,
    pub decode_ms: U,
    pub decode_stage_fenced: bool,
    pub decode_shape_decoder_ms: U,
    pub decode_tex_decoder_ms: U,
    pub decode_attr_merge_ms: U,
    pub decode_mesh_ms: U,
    pub decode_pbr_ms: U,
    pub decode_shape_conv_calls: u64,
    pub decode_tex_conv_calls: u64,
    pub decode_shape_wgpu_dispatches: u64,
    pub decode_tex_wgpu_dispatches: u64,
    pub decode_shape_wgpu_chunked_calls: u64,
    pub decode_tex_wgpu_chunked_calls: u64,
    pub decode_shape_wgpu_input_bytes: u64,
    pub decode_tex_wgpu_input_bytes: u64,
    pub decode_shape_wgpu_output_bytes: u64,
    pub decode_tex_wgpu_output_bytes: u64,
    pub decode_shape_wgpu_max_chunk_rows: usize,
    pub decode_tex_wgpu_max_chunk_rows: usize,
    pub total_ms: U,
}

} // verus!
