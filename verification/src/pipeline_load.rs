//! Which models a pipeline loads, from where, and which of them ahead of the
//! first run.
use crate::arith::{imax, max_usize};
use crate::pipeline_config::{
    canonical_name, canonical_pipeline_type, is_512_pipeline, prefers_512,
};
use crate::text::{str_eq, trim, trimmed};
use vstd::prelude::*;
use vstd::string::*;

verus! {

// ---------------------------------------------------------------------------
// Arguments
// ---------------------------------------------------------------------------

/// Settings of a sampler, with numbers of type `F`.
#[derive(Clone, Copy, Debug)]
pub struct TrellisSamplerParams<F> {
    pub steps: usize,
    pub rescale_t: F,
    pub guidance_strength: F,
    pub guidance_rescale: F,
    pub guidance_interval: [F; 2],
}

/// A sampler of the pipeline.
#[derive(Clone, Copy, Debug)]
pub struct TrellisSamplerConfig<F> {
    pub sigma_min: F,
    pub params: TrellisSamplerParams<F>,
}

/// Sampler settings that a caller replaces.
#[derive(Clone, Copy, Debug)]
pub struct TrellisSamplerRuntimeOverrides<F> {
    pub sparse_steps: Option<usize>,
    pub shape_steps: Option<usize>,
    pub tex_steps: Option<usize>,
    pub sparse_guidance_strength: Option<F>,
    pub shape_guidance_strength: Option<F>,
    pub tex_guidance_strength: Option<F>,
}

/// A pipeline description: its samplers, and its models by key. `N` are the
/// latent normalizations.
#[derive(Debug)]
pub struct TrellisPipelineArgs<F, N> {
    pub default_pipeline_type: String,
    pub models: Vec<(String, String)>,
    pub sparse_structure_sampler: TrellisSamplerConfig<F>,
    pub shape_slat_sampler: TrellisSamplerConfig<F>,
    pub tex_slat_sampler: TrellisSamplerConfig<F>,
    pub shape_slat_normalization: N,
    pub tex_slat_normalization: N,
    /// Name of the image-conditioning model.
    pub image_cond_model: Option<String>,
}

/// A directory by its path components.
#[derive(Debug)]
pub struct ModelDir {
    pub components: Vec<Vec<u8>>,
}

impl ModelDir {
    /// The components as sequences.
    pub open spec fn view(self) -> Seq<Seq<u8>> {
        self.components@.map_values(|c: Vec<u8>| c@)
    }

    /// Another value for the same directory.
    pub fn copy(&self) -> (r: ModelDir)
        ensures
            r@ == self@,
    {
        let mut components: Vec<Vec<u8>> = Vec::new();
        let mut i: usize = 0;
        while i < self.components.len()
            invariant
                i <= self.components.len(),
                components@.len() == i,
                forall|j: int| 0 <= j < i ==> (#[trigger] components@[j])@ == self.components@[j]@,
            decreases self.components.len() - i,
        {
            components.push(copy_bytes(&self.components[i]));
            i = i + 1;
        }
        let r: ModelDir = ModelDir { components };
        assert(r@ =~= self@);
        r
    }

    /// Whether two values name the same directory.
    pub fn same(&self, other: &ModelDir) -> (r: bool)
        ensures
            r == (self@ == other@),
    {
        if self.components.len() != other.components.len() {
            assert(self@.len() != other@.len());
            return false;
        }
        let mut i: usize = 0;
        while i < self.components.len()
            invariant
                i <= self.components.len(),
                self.components@.len() == other.components@.len(),
                forall|j: int|
                    0 <= j < i ==> (#[trigger] self.components@[j])@ == other.components@[j]@,
            decreases self.components.len() - i,
        {
            if !same_bytes(&self.components[i], &other.components[i]) {
                assert(self@[i as int] != other@[i as int]);
                return false;
            }
            i = i + 1;
        }
        assert(self@ =~= other@);
        true
    }
}

fn copy_bytes(bytes: &Vec<u8>) -> (r: Vec<u8>)
    ensures
        r@ == bytes@,
{
    let mut out: Vec<u8> = Vec::new();
    let mut i: usize = 0;
    while i < bytes.len()
        invariant
            i <= bytes.len(),
            out@ == bytes@.take(i as int),
        decreases bytes.len() - i,
    {
        out.push(bytes[i]);
        assert(out@ =~= bytes@.take(i + 1));
        i = i + 1;
    }
    assert(bytes@.take(i as int) =~= bytes@);
    out
}

fn same_bytes(a: &Vec<u8>, b: &Vec<u8>) -> (r: bool)
    ensures
        r == (a@ == b@),
{
    if a.len() != b.len() {
        return false;
    }
    let mut i: usize = 0;
    while i < a.len()
        invariant
            i <= a.len(),
            a@.len() == b@.len(),
            forall|j: int| 0 <= j < i ==> a@[j] == b@[j],
        decreases a.len() - i,
    {
        if a[i] != b[i] {
            return false;
        }
        i = i + 1;
    }
    assert(a@ =~= b@);
    true
}

/// View of an optional directory.
pub open spec fn dir_view(dir: Option<ModelDir>) -> Option<Seq<Seq<u8>>> {
    match dir {
        Some(d) => Some(d@),
        None => None,
    }
}

/// View of an optional borrowed directory.
pub open spec fn dir_ref_view(dir: Option<&ModelDir>) -> Option<Seq<Seq<u8>>> {
    match dir {
        Some(d) => Some(d@),
        None => None,
    }
}

/// View of an optional text.
pub open spec fn text_view(text: Option<String>) -> Option<Seq<char>> {
    match text {
        Some(s) => Some(s@),
        None => None,
    }
}

fn copy_dir(dir: Option<&ModelDir>) -> (r: Option<ModelDir>)
    ensures
        dir_view(r) == dir_ref_view(dir),
{
    match dir {
        Some(d) => Some(d.copy()),
        None => None,
    }
}

/// Name under the first pair with a key.
pub open spec fn lookup(models: Seq<(String, String)>, key: Seq<char>) -> Option<Seq<char>>
    decreases models.len(),
{
    if models.len() == 0 {
        None
    } else if models[0].0@ == key {
        Some(models[0].1@)
    } else {
        lookup(models.skip(1), key)
    }
}

/// Finds the model of a key.
pub fn find_model(models: &Vec<(String, String)>, key: &str) -> (r: Option<String>)
    ensures
        text_view(r) == lookup(models@, key@),
{
    let mut i: usize = 0;
    assert(models@.skip(0) =~= models@);
    while i < models.len()
        invariant
            i <= models.len(),
            lookup(models@, key@) == lookup(models@.skip(i as int), key@),
        decreases models.len() - i,
    {
        assert(models@.skip(i as int)[0] == models@[i as int]);
        if str_eq(models[i].0.as_str(), key) {
            return Some(models[i].1.as_str().to_owned());
        }
        assert(models@.skip(i as int).skip(1) =~= models@.skip(i + 1));
        i = i + 1;
    }
    None
}

// ---------------------------------------------------------------------------
// Load specs
// ---------------------------------------------------------------------------

/// How a flow model is loaded.
#[derive(Debug)]
pub struct FlowRuntimeLoadSpec {
    pub weights_root: ModelDir,
    pub image_large_root: Option<ModelDir>,
    pub model_stem: String,
    pub prefer_wgpu: bool,
    pub slat_dense_resolution: Option<usize>,
    pub stage_label: &'static str,
    pub flow_key: Option<String>,
}

/// Contents of a [`FlowRuntimeLoadSpec`].
pub struct FlowSpecView {
    pub weights_root: Seq<Seq<u8>>,
    pub image_large_root: Option<Seq<Seq<u8>>>,
    pub model_stem: Seq<char>,
    pub prefer_wgpu: bool,
    pub slat_dense_resolution: Option<usize>,
    pub stage_label: Seq<char>,
    pub flow_key: Option<Seq<char>>,
}

impl FlowRuntimeLoadSpec {
    /// Contents.
    pub open spec fn view(self) -> FlowSpecView {
        FlowSpecView {
            weights_root: self.weights_root@,
            image_large_root: dir_view(self.image_large_root),
            model_stem: self.model_stem@,
            prefer_wgpu: self.prefer_wgpu,
            slat_dense_resolution: self.slat_dense_resolution,
            stage_label: self.stage_label@,
            flow_key: text_view(self.flow_key),
        }
    }
}

impl FlowSpecView {
    /// Both specs load the same model in the same way.
    pub open spec fn same_model(self, other: FlowSpecView) -> bool {
        &&& self.weights_root == other.weights_root
        &&& self.image_large_root == other.image_large_root
        &&& self.model_stem == other.model_stem
        &&& self.prefer_wgpu == other.prefer_wgpu
        &&& self.slat_dense_resolution == other.slat_dense_resolution
    }
}

/// View of an optional spec.
pub open spec fn spec_view(spec: Option<FlowRuntimeLoadSpec>) -> Option<FlowSpecView> {
    match spec {
        Some(s) => Some(s@),
        None => None,
    }
}

/// View of an optional borrowed spec.
pub open spec fn spec_ref_view(spec: Option<&FlowRuntimeLoadSpec>) -> Option<FlowSpecView> {
    match spec {
        Some(s) => Some(s@),
        None => None,
    }
}

/// Two specs are there and load the same model.
pub open spec fn load_same_model(a: Option<FlowSpecView>, b: Option<FlowSpecView>) -> bool {
    match (a, b) {
        (Some(x), Some(y)) => x.same_model(y),
        _ => false,
    }
}

/// Whether two specs are there and load the same model in the same way.
pub fn flow_specs_load_same_model(
    selected: Option<&FlowRuntimeLoadSpec>,
    candidate: Option<&FlowRuntimeLoadSpec>,
) -> (r: bool)
    ensures
        r == load_same_model(spec_ref_view(selected), spec_ref_view(candidate)),
{
    match (selected, candidate) {
        (Some(a), Some(b)) => {
            let same_large: bool = match (&a.image_large_root, &b.image_large_root) {
                (Some(x), Some(y)) => x.same(y),
                (None, None) => true,
                _ => false,
            };
            a.weights_root.same(&b.weights_root) && same_large && str_eq(
                a.model_stem.as_str(),
                b.model_stem.as_str(),
            ) && a.prefer_wgpu == b.prefer_wgpu && a.slat_dense_resolution
                == b.slat_dense_resolution
        },
        _ => false,
    }
}

/// To load the same model is symmetric and transitive, and holds of a spec and itself.
pub proof fn same_model_is_an_equivalence(
    a: Option<FlowSpecView>,
    b: Option<FlowSpecView>,
    c: Option<FlowSpecView>,
)
    ensures
        a is Some ==> load_same_model(a, a),
        load_same_model(a, b) == load_same_model(b, a),
        load_same_model(a, b) && load_same_model(b, c) ==> load_same_model(a, c),
{
}

/// A variant of the shape model is loaded ahead of the first run.
pub open spec fn preloads_variant(
    pipeline_type: Seq<char>,
    selected: Option<FlowSpecView>,
    candidate: Option<FlowSpecView>,
    expected_flow_key: Seq<char>,
) -> bool {
    &&& pipeline_type == "1024_cascade"@
    &&& candidate matches Some(spec) && spec.flow_key == Some(expected_flow_key)
    &&& !load_same_model(selected, candidate)
}

/// Whether a variant of the shape model is loaded ahead of the first run: in
/// the medium cascade, unless it is the selected shape model anyway.
pub fn should_preload_shape_flow_variant(
    pipeline_type: &str,
    selected_shape_spec: Option<&FlowRuntimeLoadSpec>,
    candidate_shape_spec: Option<&FlowRuntimeLoadSpec>,
    expected_flow_key: &str,
) -> (r: bool)
    ensures
        r == preloads_variant(
            pipeline_type@,
            spec_ref_view(selected_shape_spec),
            spec_ref_view(candidate_shape_spec),
            expected_flow_key@,
        ),
{
    if !str_eq(pipeline_type, "1024_cascade") {
        return false;
    }
    match candidate_shape_spec {
        None => false,
        Some(candidate) => {
            let expected: bool = match &candidate.flow_key {
                Some(key) => str_eq(key.as_str(), expected_flow_key),
                None => false,
            };
            expected && !flow_specs_load_same_model(selected_shape_spec, Some(candidate))
        },
    }
}

/// Kinds of latent decoders.
#[derive(Clone, Copy, Debug, PartialEq, Eq, Structural)]
pub enum DecoderRuntimeKind {
    Shape,
    Tex,
}

/// How a model other than a flow model is loaded.
#[derive(Debug)]
pub struct ModelLoadSpec {
    pub weights_root: ModelDir,
    pub image_large_root: Option<ModelDir>,
    /// Stem of the weight file, or name of the image-conditioning model.
    pub model: String,
    pub prefer_wgpu: bool,
}

/// Contents of a [`ModelLoadSpec`].
pub struct ModelSpecView {
    pub weights_root: Seq<Seq<u8>>,
    pub image_large_root: Option<Seq<Seq<u8>>>,
    pub model: Seq<char>,
    pub prefer_wgpu: bool,
}

impl ModelLoadSpec {
    /// Contents.
    pub open spec fn view(self) -> ModelSpecView {
        ModelSpecView {
            weights_root: self.weights_root@,
            image_large_root: dir_view(self.image_large_root),
            model: self.model@,
            prefer_wgpu: self.prefer_wgpu,
        }
    }
}

/// View of an optional spec.
pub open spec fn model_spec_view(spec: Option<ModelLoadSpec>) -> Option<ModelSpecView> {
    match spec {
        Some(s) => Some(s@),
        None => None,
    }
}

/// How a latent decoder is loaded.
#[derive(Debug)]
pub struct DecoderRuntimeLoadSpec {
    pub kind: DecoderRuntimeKind,
    pub load: ModelLoadSpec,
}

/// Where weights are looked for, and on which device they go.
#[derive(Clone, Copy, Debug)]
pub struct ModelAssets<'a> {
    pub weights_root: Option<&'a ModelDir>,
    pub image_large_root: Option<&'a ModelDir>,
    pub prefer_wgpu: bool,
}

/// Spec of a flow model: there where both a directory and the model are known.
pub open spec fn flow_spec_of(
    assets: ModelAssets<'_>,
    model: Option<Seq<char>>,
    stage_label: Seq<char>,
    flow_key: Option<Seq<char>>,
) -> Option<FlowSpecView> {
    match (dir_ref_view(assets.weights_root), model) {
        (Some(weights_root), Some(model_stem)) => Some(
            FlowSpecView {
                weights_root,
                image_large_root: dir_ref_view(assets.image_large_root),
                model_stem,
                prefer_wgpu: assets.prefer_wgpu,
                slat_dense_resolution: None,
                stage_label,
                flow_key,
            },
        ),
        _ => None,
    }
}

fn flow_spec(
    assets: ModelAssets<'_>,
    model: Option<String>,
    stage_label: &'static str,
    flow_key: Option<&str>,
) -> (r: Option<FlowRuntimeLoadSpec>)
    ensures
        spec_view(r) == flow_spec_of(
            assets,
            text_view(model),
            stage_label@,
            match flow_key {
                Some(key) => Some(key@),
                None => None,
            },
        ),
{
    match (assets.weights_root, model) {
        (Some(weights_root), Some(model_stem)) => {
            let flow_key: Option<String> = match flow_key {
                Some(key) => Some(key.to_owned()),
                None => None,
            };
            Some(
                FlowRuntimeLoadSpec {
                    weights_root: weights_root.copy(),
                    image_large_root: copy_dir(assets.image_large_root),
                    model_stem,
                    prefer_wgpu: assets.prefer_wgpu,
                    slat_dense_resolution: None,
                    stage_label,
                    flow_key,
                },
            )
        },
        _ => None,
    }
}

/// Spec of another model: there where both a directory and the model are known.
pub open spec fn model_spec_of(assets: ModelAssets<'_>, model: Option<Seq<char>>) -> Option<
    ModelSpecView,
> {
    match (dir_ref_view(assets.weights_root), model) {
        (Some(weights_root), Some(model)) => Some(
            ModelSpecView {
                weights_root,
                image_large_root: dir_ref_view(assets.image_large_root),
                model,
                prefer_wgpu: assets.prefer_wgpu,
            },
        ),
        _ => None,
    }
}

fn model_spec(assets: ModelAssets<'_>, model: Option<String>) -> (r: Option<ModelLoadSpec>)
    ensures
        model_spec_view(r) == model_spec_of(assets, text_view(model)),
{
    match (assets.weights_root, model) {
        (Some(weights_root), Some(model)) => Some(
            ModelLoadSpec {
                weights_root: weights_root.copy(),
                image_large_root: copy_dir(assets.image_large_root),
                model,
                prefer_wgpu: assets.prefer_wgpu,
            },
        ),
        _ => None,
    }
}

// ---------------------------------------------------------------------------
// The pipeline
// ---------------------------------------------------------------------------

/// A pipeline with everything settled but the loaded models.
#[derive(Debug)]
pub struct TrellisStageRuntime<F, N> {
    pub pipeline_type: String,
    pub sparse_sampler: TrellisSamplerConfig<F>,
    pub shape_sampler: TrellisSamplerConfig<F>,
    pub tex_sampler: TrellisSamplerConfig<F>,
    pub shape_norm: N,
    pub tex_norm: N,
    pub sparse_flow_spec: Option<FlowRuntimeLoadSpec>,
    pub shape_flow_spec: Option<FlowRuntimeLoadSpec>,
    pub shape_flow_512_spec: Option<FlowRuntimeLoadSpec>,
    pub shape_flow_1024_spec: Option<FlowRuntimeLoadSpec>,
    pub tex_flow_spec: Option<FlowRuntimeLoadSpec>,
    pub sparse_structure_decoder_spec: Option<ModelLoadSpec>,
    pub shape_decoder_spec: Option<DecoderRuntimeLoadSpec>,
    pub tex_decoder_spec: Option<DecoderRuntimeLoadSpec>,
    pub image_conditioning_spec: Option<ModelLoadSpec>,
}

/// A sampler with its overrides: at least one step, and the guidance as given.
pub open spec fn overridden<F>(
    sampler: TrellisSamplerConfig<F>,
    steps: Option<usize>,
    guidance_strength: Option<F>,
) -> TrellisSamplerConfig<F> {
    TrellisSamplerConfig {
        sigma_min: sampler.sigma_min,
        params: TrellisSamplerParams {
            steps: match steps {
                Some(n) => imax(n as int, 1) as usize,
                None => sampler.params.steps,
            },
            rescale_t: sampler.params.rescale_t,
            guidance_strength: match guidance_strength {
                Some(strength) => strength,
                None => sampler.params.guidance_strength,
            },
            guidance_rescale: sampler.params.guidance_rescale,
            guidance_interval: sampler.params.guidance_interval,
        },
    }
}

/// Replaces the steps and the guidance of a sampler.
pub fn override_sampler<F: Copy>(
    sampler: TrellisSamplerConfig<F>,
    steps: Option<usize>,
    guidance_strength: Option<F>,
) -> (r: TrellisSamplerConfig<F>)
    ensures
        r == overridden(sampler, steps, guidance_strength),
{
    let mut params: TrellisSamplerParams<F> = sampler.params;
    if let Some(n) = steps {
        params.steps = max_usize(n, 1);
    }
    if let Some(strength) = guidance_strength {
        params.guidance_strength = strength;
    }
    TrellisSamplerConfig { sigma_min: sampler.sigma_min, params }
}

/// Key of the shape model of a pipeline.
pub open spec fn shape_flow_key_of(pipeline_type: Seq<char>) -> Seq<char> {
    if is_512_pipeline(pipeline_type) {
        "shape_slat_flow_model_512"@
    } else {
        "shape_slat_flow_model_1024"@
    }
}

/// Key of the texture model of a pipeline.
pub open spec fn tex_flow_key_of(pipeline_type: Seq<char>) -> Seq<char> {
    if is_512_pipeline(pipeline_type) {
        "tex_slat_flow_model_512"@
    } else {
        "tex_slat_flow_model_1024"@
    }
}

/// Name of the image-conditioning model without white space around it, if
/// anything is left.
pub open spec fn image_model_name(name: Option<String>) -> Option<Seq<char>> {
    match name {
        Some(text) => if trimmed(text@).len() > 0 {
            Some(trimmed(text@))
        } else {
            None
        },
        None => None,
    }
}

/// Spec of a flow model under a key of the pipeline description.
pub open spec fn keyed_flow_spec<F, N>(
    args: TrellisPipelineArgs<F, N>,
    assets: ModelAssets<'_>,
    key: Seq<char>,
    stage_label: Seq<char>,
) -> Option<FlowSpecView> {
    flow_spec_of(assets, lookup(args.models@, key), stage_label, Some(key))
}

impl<F: Copy, N: Clone> TrellisStageRuntime<F, N> {
    /// The load specs are those of a pipeline description.
    pub open spec fn loads(
        self,
        args: TrellisPipelineArgs<F, N>,
        assets: ModelAssets<'_>,
    ) -> bool {
        let pipeline_type = self.pipeline_type@;
        &&& spec_view(self.sparse_flow_spec) == flow_spec_of(
            assets,
            lookup(args.models@, "sparse_structure_flow_model"@),
            "sparse flow"@,
            None,
        )
        &&& spec_view(self.shape_flow_spec) == keyed_flow_spec(
            args,
            assets,
            shape_flow_key_of(pipeline_type),
            "shape slat"@,
        )
        &&& spec_view(self.shape_flow_512_spec) == keyed_flow_spec(
            args,
            assets,
            "shape_slat_flow_model_512"@,
            "shape slat"@,
        )
        &&& spec_view(self.shape_flow_1024_spec) == keyed_flow_spec(
            args,
            assets,
            "shape_slat_flow_model_1024"@,
            "shape slat"@,
        )
        &&& spec_view(self.tex_flow_spec) == keyed_flow_spec(
            args,
            assets,
            tex_flow_key_of(pipeline_type),
            "tex slat"@,
        )
        &&& model_spec_view(self.sparse_structure_decoder_spec) == model_spec_of(
            assets,
            lookup(args.models@, "sparse_structure_decoder"@),
        )
        &&& decoder_spec_is(
            self.shape_decoder_spec,
            DecoderRuntimeKind::Shape,
            model_spec_of(assets, lookup(args.models@, "shape_slat_decoder"@)),
        )
        &&& decoder_spec_is(
            self.tex_decoder_spec,
            DecoderRuntimeKind::Tex,
            model_spec_of(assets, lookup(args.models@, "tex_slat_decoder"@)),
        )
        &&& model_spec_view(self.image_conditioning_spec) == model_spec_of(
            assets,
            image_model_name(args.image_cond_model),
        )
    }

    /// A pipeline without weights.
    pub fn from_args(
        args: &TrellisPipelineArgs<F, N>,
        preferred_pipeline_type: Option<&str>,
    ) -> (r: Self)
        ensures
            r.pipeline_type@ == canonical_name(
                requested_type(args.default_pipeline_type@, preferred_pipeline_type),
            ),
            r.sparse_sampler == args.sparse_structure_sampler,
            r.shape_sampler == args.shape_slat_sampler,
            r.tex_sampler == args.tex_slat_sampler,
            cloned(args.shape_slat_normalization, r.shape_norm),
            cloned(args.tex_slat_normalization, r.tex_norm),
            r.sparse_flow_spec is None,
            r.shape_flow_spec is None,
            r.shape_flow_512_spec is None,
            r.shape_flow_1024_spec is None,
            r.tex_flow_spec is None,
            r.sparse_structure_decoder_spec is None,
            r.shape_decoder_spec is None,
            r.tex_decoder_spec is None,
            r.image_conditioning_spec is None,
    {
        Self::from_args_with_assets(
            args,
            preferred_pipeline_type,
            ModelAssets { weights_root: None, image_large_root: None, prefer_wgpu: false },
            None,
        )
    }

    /// A pipeline with its samplers settled and its models located.
    pub fn from_args_with_assets(
        args: &TrellisPipelineArgs<F, N>,
        preferred_pipeline_type: Option<&str>,
        assets: ModelAssets<'_>,
        sampler_overrides: Option<TrellisSamplerRuntimeOverrides<F>>,
    ) -> (r: Self)
        ensures
            r.pipeline_type@ == canonical_name(
                requested_type(args.default_pipeline_type@, preferred_pipeline_type),
            ),
            match sampler_overrides {
                Some(o) => {
                    &&& r.sparse_sampler == overridden(
                        args.sparse_structure_sampler,
                        o.sparse_steps,
                        o.sparse_guidance_strength,
                    )
                    &&& r.shape_sampler == overridden(
                        args.shape_slat_sampler,
                        o.shape_steps,
                        o.shape_guidance_strength,
                    )
                    &&& r.tex_sampler == overridden(
                        args.tex_slat_sampler,
                        o.tex_steps,
                        o.tex_guidance_strength,
                    )
                },
                None => {
                    &&& r.sparse_sampler == args.sparse_structure_sampler
                    &&& r.shape_sampler == args.shape_slat_sampler
                    &&& r.tex_sampler == args.tex_slat_sampler
                },
            },
            cloned(args.shape_slat_normalization, r.shape_norm),
            cloned(args.tex_slat_normalization, r.tex_norm),
            r.loads(*args, assets),
    {
        let requested: &str = match preferred_pipeline_type {
            Some(preferred) => preferred,
            None => args.default_pipeline_type.as_str(),
        };
        let pipeline_type: String = canonical_pipeline_type(requested).to_owned();
        let mut sparse_sampler: TrellisSamplerConfig<F> = args.sparse_structure_sampler;
        let mut shape_sampler: TrellisSamplerConfig<F> = args.shape_slat_sampler;
        let mut tex_sampler: TrellisSamplerConfig<F> = args.tex_slat_sampler;
        if let Some(o) = sampler_overrides {
            sparse_sampler =
            override_sampler(sparse_sampler, o.sparse_steps, o.sparse_guidance_strength);
            shape_sampler =
            override_sampler(shape_sampler, o.shape_steps, o.shape_guidance_strength);
            tex_sampler = override_sampler(tex_sampler, o.tex_steps, o.tex_guidance_strength);
        }
        let prefer_512_slat: bool = prefers_512(pipeline_type.as_str());
        let shape_flow_key: &str = if prefer_512_slat {
            "shape_slat_flow_model_512"
        } else {
            "shape_slat_flow_model_1024"
        };
        let tex_flow_key: &str = if prefer_512_slat {
            "tex_slat_flow_model_512"
        } else {
            "tex_slat_flow_model_1024"
        };
        let models: &Vec<(String, String)> = &args.models;
        let sparse_flow_spec: Option<FlowRuntimeLoadSpec> = flow_spec(
            assets,
            find_model(models, "sparse_structure_flow_model"),
            "sparse flow",
            None,
        );
        let shape_flow_spec: Option<FlowRuntimeLoadSpec> = flow_spec(
            assets,
            find_model(models, shape_flow_key),
            "shape slat",
            Some(shape_flow_key),
        );
        let shape_flow_512_spec: Option<FlowRuntimeLoadSpec> = flow_spec(
            assets,
            find_model(models, "shape_slat_flow_model_512"),
            "shape slat",
            Some("shape_slat_flow_model_512"),
        );
        let shape_flow_1024_spec: Option<FlowRuntimeLoadSpec> = flow_spec(
            assets,
            find_model(models, "shape_slat_flow_model_1024"),
            "shape slat",
            Some("shape_slat_flow_model_1024"),
        );
        let tex_flow_spec: Option<FlowRuntimeLoadSpec> = flow_spec(
            assets,
            find_model(models, tex_flow_key),
            "tex slat",
            Some(tex_flow_key),
        );
        let sparse_structure_decoder_spec: Option<ModelLoadSpec> = model_spec(
            assets,
            find_model(models, "sparse_structure_decoder"),
        );
        let shape_decoder_spec: Option<DecoderRuntimeLoadSpec> = decoder_spec(
            DecoderRuntimeKind::Shape,
            model_spec(assets, find_model(models, "shape_slat_decoder")),
        );
        let tex_decoder_spec: Option<DecoderRuntimeLoadSpec> = decoder_spec(
            DecoderRuntimeKind::Tex,
            model_spec(assets, find_model(models, "tex_slat_decoder")),
        );
        let image_conditioning_spec: Option<ModelLoadSpec> = model_spec(
            assets,
            image_model(&args.image_cond_model),
        );
        TrellisStageRuntime {
            pipeline_type,
            sparse_sampler,
            shape_sampler,
            tex_sampler,
            shape_norm: args.shape_slat_normalization.clone(),
            tex_norm: args.tex_slat_normalization.clone(),
            sparse_flow_spec,
            shape_flow_spec,
            shape_flow_512_spec,
            shape_flow_1024_spec,
            tex_flow_spec,
            sparse_structure_decoder_spec,
            shape_decoder_spec,
            tex_decoder_spec,
            image_conditioning_spec,
        }
    }

    /// Name of the pipeline type in use.
    pub fn pipeline_type(&self) -> (r: &str)
        ensures
            r@ == self.pipeline_type@,
    {
        self.pipeline_type.as_str()
    }

    /// Models that are loaded ahead of the first run.
    pub open spec fn preloaded(self, lazy: bool) -> Seq<ModelSlot> {
        if lazy {
            Seq::empty()
        } else {
            let first = seq![ModelSlot::SparseFlow, ModelSlot::ShapeFlow];
            let with_512 = if self.preloads_512() {
                first.push(ModelSlot::ShapeFlow512)
            } else {
                first
            };
            let with_1024 = if self.preloads_1024() {
                with_512.push(ModelSlot::ShapeFlow1024)
            } else {
                with_512
            };
            with_1024 + seq![
                ModelSlot::TexFlow,
                ModelSlot::SparseStructureDecoder,
                ModelSlot::ShapeDecoder,
                ModelSlot::TexDecoder,
                ModelSlot::ImageConditioning,
            ]
        }
    }

    /// The lower variant of the shape model is loaded ahead.
    pub open spec fn preloads_512(self) -> bool {
        preloads_variant(
            self.pipeline_type@,
            spec_view(self.shape_flow_spec),
            spec_view(self.shape_flow_512_spec),
            "shape_slat_flow_model_512"@,
        )
    }

    /// The higher variant of the shape model is loaded ahead.
    pub open spec fn preloads_1024(self) -> bool {
        preloads_variant(
            self.pipeline_type@,
            spec_view(self.shape_flow_spec),
            spec_view(self.shape_flow_1024_spec),
            "shape_slat_flow_model_1024"@,
        )
    }

    /// Lists the models that are loaded ahead of the first run.
    pub fn preload_slots(&self, lazy: bool) -> (r: Vec<ModelSlot>)
        ensures
            r@ == self.preloaded(lazy),
    {
        let mut slots: Vec<ModelSlot> = Vec::new();
        if lazy {
            assert(slots@ =~= self.preloaded(lazy));
            return slots;
        }
        slots.push(ModelSlot::SparseFlow);
        slots.push(ModelSlot::ShapeFlow);
        let pipeline_type: &str = self.pipeline_type.as_str();
        if should_preload_shape_flow_variant(
            pipeline_type,
            self.shape_flow_spec.as_ref(),
            self.shape_flow_512_spec.as_ref(),
            "shape_slat_flow_model_512",
        ) {
            slots.push(ModelSlot::ShapeFlow512);
        }
        if should_preload_shape_flow_variant(
            pipeline_type,
            self.shape_flow_spec.as_ref(),
            self.shape_flow_1024_spec.as_ref(),
            "shape_slat_flow_model_1024",
        ) {
            slots.push(ModelSlot::ShapeFlow1024);
        }
        slots.push(ModelSlot::TexFlow);
        slots.push(ModelSlot::SparseStructureDecoder);
        slots.push(ModelSlot::ShapeDecoder);
        slots.push(ModelSlot::TexDecoder);
        slots.push(ModelSlot::ImageConditioning);
        assert(slots@ =~= self.preloaded(lazy));
        slots
    }

    /// Slot of the lower shape model: that of the selected one where both are the same.
    pub fn shape_flow_runtime_512(&self) -> (r: ModelSlot)
        ensures
            r == (if load_same_model(
                spec_view(self.shape_flow_spec),
                spec_view(self.shape_flow_512_spec),
            ) {
                ModelSlot::ShapeFlow
            } else {
                ModelSlot::ShapeFlow512
            }),
    {
        if flow_specs_load_same_model(
            self.shape_flow_spec.as_ref(),
            self.shape_flow_512_spec.as_ref(),
        ) {
            return ModelSlot::ShapeFlow;
        }
        ModelSlot::ShapeFlow512
    }

    /// Slot of the higher shape model: that of the selected one where both are the same.
    pub fn shape_flow_runtime_1024(&self) -> (r: ModelSlot)
        ensures
            r == (if load_same_model(
                spec_view(self.shape_flow_spec),
                spec_view(self.shape_flow_1024_spec),
            ) {
                ModelSlot::ShapeFlow
            } else {
                ModelSlot::ShapeFlow1024
            }),
    {
        if flow_specs_load_same_model(
            self.shape_flow_spec.as_ref(),
            self.shape_flow_1024_spec.as_ref(),
        ) {
            return ModelSlot::ShapeFlow;
        }
        ModelSlot::ShapeFlow1024
    }
}

/// Places of loaded models.
#[derive(Clone, Copy, Debug, PartialEq, Eq, Structural)]
pub enum ModelSlot {
    SparseFlow,
    ShapeFlow,
    ShapeFlow512,
    ShapeFlow1024,
    TexFlow,
    SparseStructureDecoder,
    ShapeDecoder,
    TexDecoder,
    ImageConditioning,
}

/// Pipeline type that is asked for: the preferred one, or that of the description.
pub open spec fn requested_type(default: Seq<char>, preferred: Option<&str>) -> Seq<char> {
    match preferred {
        Some(name) => name@,
        None => default,
    }
}

/// A decoder spec holds a kind and a model spec.
pub open spec fn decoder_spec_is(
    spec: Option<DecoderRuntimeLoadSpec>,
    kind: DecoderRuntimeKind,
    load: Option<ModelSpecView>,
) -> bool {
    match spec {
        Some(s) => s.kind == kind && load == Some(s.load@),
        None => load is None,
    }
}

fn decoder_spec(kind: DecoderRuntimeKind, load: Option<ModelLoadSpec>) -> (r: Option<
    DecoderRuntimeLoadSpec,
>)
    ensures
        decoder_spec_is(r, kind, model_spec_view(load)),
{
    match load {
        Some(load) => Some(DecoderRuntimeLoadSpec { kind, load }),
        None => None,
    }
}

fn image_model(name: &Option<String>) -> (r: Option<String>)
    ensures
        text_view(r) == image_model_name(*name),
{
    match name {
        Some(text) => {
            let name: &str = trim(text.as_str());
            if name.unicode_len() == 0 {
                None
            } else {
                Some(name.to_owned())
            }
        },
        None => None,
    }
}

/// A model that is loaded ahead beside the selected shape model is another
/// one: no model is loaded twice.
pub proof fn preloading_loads_no_model_twice<F: Copy, N: Clone>(runtime: TrellisStageRuntime<F, N>)
    ensures
        runtime.preloaded(false).contains(ModelSlot::ShapeFlow512) ==> !load_same_model(
            spec_view(runtime.shape_flow_spec),
            spec_view(runtime.shape_flow_512_spec),
        ),
        runtime.preloaded(false).contains(ModelSlot::ShapeFlow1024) ==> !load_same_model(
            spec_view(runtime.shape_flow_spec),
            spec_view(runtime.shape_flow_1024_spec),
        ),
        runtime.preloaded(false).no_duplicates(),
{
}

/// The medium cascade works with the higher shape model, so of the two
/// variants only the lower one is ever loaded ahead: where it is known, and is
/// not the same file. Other pipelines load no variant ahead.
pub proof fn only_the_medium_cascade_preloads_a_variant<F: Copy, N: Clone>(
    runtime: TrellisStageRuntime<F, N>,
    args: TrellisPipelineArgs<F, N>,
    assets: ModelAssets<'_>,
)
    requires
        runtime.loads(args, assets),
    ensures
        !runtime.preloads_1024(),
        runtime.preloads_512() <==> runtime.pipeline_type@ == "1024_cascade"@
            && assets.weights_root is Some && lookup(args.models@, "shape_slat_flow_model_512"@)
            is Some && lookup(args.models@, "shape_slat_flow_model_512"@) != lookup(
            args.models@,
            "shape_slat_flow_model_1024"@,
        ),
{
    reveal_strlit("1024_cascade");
    reveal_strlit("512");
    reveal_strlit("512_base");
    assert("1024_cascade"@.len() == 12 && "512"@.len() == 3 && "512_base"@.len() == 8);
}

} // verus!
