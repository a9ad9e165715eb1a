//! Configuration of a sparse-structure flow model.
//!
//! The ratio of the MLP and the rotary frequencies are numbers of a type `F`
//! that only the tensor code interprets.
use crate::arith::{imax, max_usize};
use crate::text::str_eq;
use vstd::prelude::*;

verus! {

/// Shape and switches of a sparse-structure flow model.
#[derive(Clone, Debug)]
pub struct SparseStructureFlowConfig<F> {
    pub resolution: usize,
    pub in_channels: usize,
    pub out_channels: usize,
    pub model_channels: usize,
    pub cond_channels: usize,
    pub num_blocks: usize,
    pub num_heads: Option<usize>,
    pub num_head_channels: usize,
    pub mlp_ratio: F,
    pub pe_mode: String,
    pub rope_freq: [F; 2],
    pub share_mod: bool,
    pub qk_rms_norm: bool,
    pub qk_rms_norm_cross: bool,
    pub frequency_embedding_size: usize,
}

/// Grid resolution where none is configured.
pub fn default_resolution() -> (r: usize)
    ensures
        r == 16,
{
    16
}

/// Input channels where none are configured.
pub fn default_in_channels() -> (r: usize)
    ensures
        r == 8,
{
    8
}

/// Output channels where none are configured.
pub fn default_out_channels() -> (r: usize)
    ensures
        r == 8,
{
    8
}

/// Channels of the transformer where none are configured.
pub fn default_model_channels() -> (r: usize)
    ensures
        r == 1536,
{
    1536
}

/// Channels of the condition where none are configured.
pub fn default_cond_channels() -> (r: usize)
    ensures
        r == 1024,
{
    1024
}

/// Number of transformer blocks where none is configured.
pub fn default_num_blocks() -> (r: usize)
    ensures
        r == 30,
{
    30
}

/// Channels of one head where none are configured.
pub fn default_num_head_channels() -> (r: usize)
    ensures
        r == 64,
{
    64
}

/// Position encoding where none is configured: rotary.
pub fn default_pe_mode() -> (r: String)
    ensures
        r@ == "rope"@,
{
    "rope".to_owned()
}

/// Whether modulation is shared between blocks, where nothing is configured.
pub fn default_share_mod() -> (r: bool)
    ensures
        r,
{
    true
}

/// Whether self-attention normalizes queries and keys, where nothing is configured.
pub fn default_qk_rms_norm() -> (r: bool)
    ensures
        r,
{
    true
}

/// Whether cross-attention normalizes queries and keys, where nothing is configured.
pub fn default_qk_rms_norm_cross() -> (r: bool)
    ensures
        r,
{
    true
}

/// Width of the timestep embedding where none is configured.
pub fn default_frequency_embedding_size() -> (r: usize)
    ensures
        r == 256,
{
    256
}

/// Number of attention heads: the configured one, else as many as the head
/// width allows, but at least one.
pub open spec fn head_count(
    num_heads: Option<usize>,
    model_channels: int,
    num_head_channels: int,
) -> int {
    imax(
        match num_heads {
            Some(n) => n as int,
            None => model_channels / imax(num_head_channels, 1),
        },
        1,
    )
}

impl<F> SparseStructureFlowConfig<F> {
    /// The configuration in force where a file gives nothing but the two float settings.
    pub fn with_defaults(mlp_ratio: F, rope_freq: [F; 2]) -> (r: Self)
        ensures
            r.resolution == 16,
            r.in_channels == 8,
            r.out_channels == 8,
            r.model_channels == 1536,
            r.cond_channels == 1024,
            r.num_blocks == 30,
            r.num_heads is None,
            r.num_head_channels == 64,
            r.mlp_ratio == mlp_ratio,
            r.pe_mode@ == "rope"@,
            r.rope_freq == rope_freq,
            r.share_mod,
            r.qk_rms_norm,
            r.qk_rms_norm_cross,
            r.frequency_embedding_size == 256,
    {
        SparseStructureFlowConfig {
            resolution: default_resolution(),
            in_channels: default_in_channels(),
            out_channels: default_out_channels(),
            model_channels: default_model_channels(),
            cond_channels: default_cond_channels(),
            num_blocks: default_num_blocks(),
            num_heads: None,
            num_head_channels: default_num_head_channels(),
            mlp_ratio,
            pe_mode: default_pe_mode(),
            rope_freq,
            share_mod: default_share_mod(),
            qk_rms_norm: default_qk_rms_norm(),
            qk_rms_norm_cross: default_qk_rms_norm_cross(),
            frequency_embedding_size: default_frequency_embedding_size(),
        }
    }

    /// Number of attention heads.
    pub fn num_heads(&self) -> (r: usize)
        ensures
            r == head_count(
                self.num_heads,
                self.model_channels as int,
                self.num_head_channels as int,
            ),
            r >= 1,
    {
        let heads: usize = match self.num_heads {
            Some(n) => n,
            None => self.model_channels / max_usize(self.num_head_channels, 1),
        };
        max_usize(heads, 1)
    }

    /// Whether positions are encoded by rotation.
    pub fn uses_rope(&self) -> (r: bool)
        ensures
            r == (self.pe_mode@ == "rope"@),
    {
        str_eq(self.pe_mode.as_str(), "rope")
    }
}

} // verus!
