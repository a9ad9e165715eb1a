//! Values that a caller puts in the place of sampled ones.
use crate::sampling::FlowEulerSampleConfig;
use vstd::prelude::*;

verus! {

/// Latent rows with their coordinates.
#[derive(Clone, Debug)]
pub struct SparseRowNoiseOverride<F> {
    pub coords: Vec<[u32; 4]>,
    pub feats: Vec<[F; 32]>,
}

/// Subdivisions of decoded shapes.
#[derive(Clone, Debug)]
pub struct DecodeShapeSubSample<F> {
    pub coords: Vec<[u32; 4]>,
    pub feats: Vec<[F; 8]>,
    pub spatial_shape: [u32; 3],
}

/// Decoded voxels with their materials.
#[derive(Clone, Debug)]
pub struct DecodeTexVoxelSample<F> {
    pub coords: Vec<[u32; 4]>,
    pub feats: Vec<[F; 6]>,
    pub spatial_shape: [u32; 3],
}

/// A sampler with all its settings.
#[derive(Clone, Copy, Debug)]
pub struct SamplerConfigOverride<F> {
    pub sigma_min: F,
    pub config: FlowEulerSampleConfig<F>,
}

/// What a caller fixes of a run.
#[derive(Clone, Debug)]
pub struct TrellisNoiseOverrides<F> {
    pub sparse_noise: Option<Vec<F>>,
    pub sparse_coords: Option<Vec<[u32; 4]>>,
    pub shape_noise: Option<SparseRowNoiseOverride<F>>,
    pub shape_noise_lr: Option<SparseRowNoiseOverride<F>>,
    pub shape_noise_hr: Option<SparseRowNoiseOverride<F>>,
    pub tex_noise: Option<SparseRowNoiseOverride<F>>,
    pub shape_slat: Option<SparseRowNoiseOverride<F>>,
    pub tex_slat: Option<SparseRowNoiseOverride<F>>,
    pub decode_shape_input: Option<SparseRowNoiseOverride<F>>,
    pub decode_tex_input: Option<SparseRowNoiseOverride<F>>,
    pub decode_shape_subs: Option<Vec<DecodeShapeSubSample<F>>>,
    pub decode_tex_voxels: Option<DecodeTexVoxelSample<F>>,
    pub decode_mesh_vertices: Option<Vec<[F; 3]>>,
    pub decode_mesh_faces: Option<Vec<[u32; 3]>>,
    pub shape_noise_dense: Option<Vec<F>>,
    pub tex_noise_dense: Option<Vec<F>>,
    pub sparse_sampler: Option<SamplerConfigOverride<F>>,
    pub shape_sampler: Option<SamplerConfigOverride<F>>,
    pub tex_sampler: Option<SamplerConfigOverride<F>>,
    pub cond_512: Option<Vec<F>>,
    pub neg_cond_512: Option<Vec<F>>,
    pub cond_1024: Option<Vec<F>>,
    pub neg_cond_1024: Option<Vec<F>>,
}

/// Condition tokens of a run at both resolutions, with their negatives.
#[derive(Clone, Debug)]
pub struct TrellisStageConditioning<F> {
    pub cond_512: Vec<F>,
    pub neg_cond_512: Vec<F>,
    pub cond_1024: Option<Vec<F>>,
    pub neg_cond_1024: Option<Vec<F>>,
}

impl<F> TrellisNoiseOverrides<F> {
    /// Overrides that fix nothing.
    pub open spec fn nothing() -> Self {
        TrellisNoiseOverrides {
            sparse_noise: None,
            sparse_coords: None,
            shape_noise: None,
            shape_noise_lr: None,
            shape_noise_hr: None,
            tex_noise: None,
            shape_slat: None,
            tex_slat: None,
            decode_shape_input: None,
            decode_tex_input: None,
            decode_shape_subs: None,
            decode_tex_voxels: None,
            decode_mesh_vertices: None,
            decode_mesh_faces: None,
            shape_noise_dense: None,
            tex_noise_dense: None,
            sparse_sampler: None,
            shape_sampler: None,
            tex_sampler: None,
            cond_512: None,
            neg_cond_512: None,
            cond_1024: None,
            neg_cond_1024: None,
        }
    }

    /// Whether nothing is fixed.
    pub fn is_empty(&self) -> (r: bool)
        ensures
            r == (*self == TrellisNoiseOverrides::<F>::nothing()),
    {
        self.sparse_noise.is_none() && self.sparse_coords.is_none() && self.shape_noise.is_none()
            && self.shape_noise_lr.is_none() && self.shape_noise_hr.is_none()
            && self.tex_noise.is_none() && self.shape_slat.is_none() && self.tex_slat.is_none()
            && self.decode_shape_input.is_none() && self.decode_tex_input.is_none()
            && self.decode_shape_subs.is_none() && self.decode_tex_voxels.is_none()
            && self.decode_mesh_vertices.is_none() && self.decode_mesh_faces.is_none()
            && self.shape_noise_dense.is_none() && self.tex_noise_dense.is_none()
            && self.sparse_sampler.is_none() && self.shape_sampler.is_none()
            && self.tex_sampler.is_none() && self.cond_512.is_none()
            && self.neg_cond_512.is_none() && self.cond_1024.is_none()
            && self.neg_cond_1024.is_none()
    }

    /// The overrides in force once the conditioning is resolved: the resolved
    /// conditioning, and all else as given.
    pub fn with_conditioning(self, conditioning: TrellisStageConditioning<F>) -> (r: Self)
        ensures
            r == (TrellisNoiseOverrides {
                cond_512: Some(conditioning.cond_512),
                neg_cond_512: Some(conditioning.neg_cond_512),
                cond_1024: conditioning.cond_1024,
                neg_cond_1024: conditioning.neg_cond_1024,
                ..self
            }),
    {
        let mut merged: TrellisNoiseOverrides<F> = self;
        merged.cond_512 = Some(conditioning.cond_512);
        merged.neg_cond_512 = Some(conditioning.neg_cond_512);
        merged.cond_1024 = conditioning.cond_1024;
        merged.neg_cond_1024 = conditioning.neg_cond_1024;
        merged
    }
}

impl<F> Default for TrellisNoiseOverrides<F> {
    fn default() -> (r: Self)
        ensures
            r == TrellisNoiseOverrides::<F>::nothing(),
    {
        TrellisNoiseOverrides {
            sparse_noise: None,
            sparse_coords: None,
            shape_noise: None,
            shape_noise_lr: None,
            shape_noise_hr: None,
            tex_noise: None,
            shape_slat: None,
            tex_slat: None,
            decode_shape_input: None,
            decode_tex_input: None,
            decode_shape_subs: None,
            decode_tex_voxels: None,
            decode_mesh_vertices: None,
            decode_mesh_faces: None,
            shape_noise_dense: None,
            tex_noise_dense: None,
            sparse_sampler: None,
            shape_sampler: None,
            tex_sampler: None,
            cond_512: None,
            neg_cond_512: None,
            cond_1024: None,
            neg_cond_1024: None,
        }
    }
}

} // verus!
