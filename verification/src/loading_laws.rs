//! What is loaded from where, stated of inputs and results.
use crate::overrides::TrellisNoiseOverrides;
use crate::pipeline_load::{
    lookup, overridden, ModelAssets, TrellisPipelineArgs, TrellisSamplerConfig, TrellisStageRuntime,
};
use crate::policy::FlowEnv;
use crate::runtime_access::RuntimeBackend;
use crate::text::{lowered, occurs, occurs_at};
use crate::weight_load::{
    config_fault, weight_form_of, weight_load_outcome, with_resolution, ConfigError, WeightForm,
};
use crate::flow_config::SparseStructureFlowConfig;
use crate::weight_parts::{
    is_last_slash, joined_payloads, merge_outcome, part_reads, part_result, part_url, parts_read,
    payload_read, slashed, without_end_slashes, BurnpackPartsManifest, PartLocation,
};
use crate::weight_store::{store_outcome, StoreSource};
use crate::weights::{
    candidates_outcome, cpu_load_outcome, extension_of, file_stem_of, is_extension_dot, load_fails,
    model_source, present_positions, stem_suffixed, wgpu_load_outcome, LoadedFlow, ModelRoot,
};
use vstd::prelude::*;

verus! {

// ---------------------------------------------------------------------------
// Models of a pipeline
// ---------------------------------------------------------------------------

/// A model is found under the first entry with its key, and under none where no
/// entry has it.
pub proof fn models_are_found_by_their_key(models: Seq<(String, String)>, key: Seq<char>)
    ensures
        match lookup(models, key) {
            Some(found) => exists|i: int|
                0 <= i < models.len() && (#[trigger] models[i]).0@ == key && models[i].1@ == found
                    && forall|j: int| 0 <= j < i ==> (#[trigger] models[j]).0@ != key,
            None => forall|j: int| 0 <= j < models.len() ==> (#[trigger] models[j]).0@ != key,
        },
    decreases models.len(),
{
    if models.len() > 0 {
        if models[0].0@ == key {
            assert(models[0].0@ == key);
        } else {
            let rest = models.skip(1);
            models_are_found_by_their_key(rest, key);
            match lookup(rest, key) {
                Some(found) => {
                    let i = choose|i: int|
                        0 <= i < rest.len() && (#[trigger] rest[i]).0@ == key && rest[i].1@ == found
                            && forall|j: int| 0 <= j < i ==> (#[trigger] rest[j]).0@ != key;
                    assert(models[i + 1] == rest[i]);
                    assert forall|j: int| 0 <= j < i + 1 implies (#[trigger] models[j]).0@
                        != key by {
                        if j > 0 {
                            assert(models[j] == rest[j - 1]);
                        }
                    }
                },
                None => {
                    assert forall|j: int| 0 <= j < models.len() implies (#[trigger] models[j]).0@
                        != key by {
                        if j > 0 {
                            assert(models[j] == rest[j - 1]);
                        }
                    }
                },
            }
        }
    }
}

/// With a directory of weights, every model of a pipeline is located by the
/// entry of its own key, in that directory; the flow models of the latents are
/// those of the lower resolution exactly for the pipelines that stay at it.
pub proof fn models_are_located_by_their_own_entries<F: Copy, N: Clone>(
    runtime: TrellisStageRuntime<F, N>,
    args: TrellisPipelineArgs<F, N>,
    assets: ModelAssets<'_>,
)
    requires
        runtime.loads(args, assets),
        assets.weights_root is Some,
    ensures
        ({
            let models = args.models@;
            let root = assets.weights_root->Some_0@;
            let low = runtime.pipeline_type@ == "512"@ || runtime.pipeline_type@ == "512_base"@;
            let shape_key = if low {
                "shape_slat_flow_model_512"@
            } else {
                "shape_slat_flow_model_1024"@
            };
            let tex_key = if low {
                "tex_slat_flow_model_512"@
            } else {
                "tex_slat_flow_model_1024"@
            };
            &&& match runtime.sparse_flow_spec {
                Some(spec) => lookup(models, "sparse_structure_flow_model"@) == Some(
                    spec.model_stem@,
                ) && spec.weights_root@ == root && spec.prefer_wgpu == assets.prefer_wgpu,
                None => lookup(models, "sparse_structure_flow_model"@) is None,
            }
            &&& match runtime.shape_flow_spec {
                Some(spec) => lookup(models, shape_key) == Some(spec.model_stem@)
                    && spec.weights_root@ == root && spec.prefer_wgpu == assets.prefer_wgpu
                    && spec.flow_key is Some && spec.flow_key->Some_0@ == shape_key,
                None => lookup(models, shape_key) is None,
            }
            &&& match runtime.shape_flow_512_spec {
                Some(spec) => lookup(models, "shape_slat_flow_model_512"@) == Some(
                    spec.model_stem@,
                ) && spec.weights_root@ == root,
                None => lookup(models, "shape_slat_flow_model_512"@) is None,
            }
            &&& match runtime.shape_flow_1024_spec {
                Some(spec) => lookup(models, "shape_slat_flow_model_1024"@) == Some(
                    spec.model_stem@,
                ) && spec.weights_root@ == root,
                None => lookup(models, "shape_slat_flow_model_1024"@) is None,
            }
            &&& match runtime.tex_flow_spec {
                Some(spec) => lookup(models, tex_key) == Some(spec.model_stem@)
                    && spec.weights_root@ == root && spec.prefer_wgpu == assets.prefer_wgpu
                    && spec.flow_key is Some && spec.flow_key->Some_0@ == tex_key,
                None => lookup(models, tex_key) is None,
            }
            &&& match runtime.sparse_structure_decoder_spec {
                Some(spec) => lookup(models, "sparse_structure_decoder"@) == Some(spec.model@)
                    && spec.weights_root@ == root,
                None => lookup(models, "sparse_structure_decoder"@) is None,
            }
            &&& match runtime.shape_decoder_spec {
                Some(spec) => lookup(models, "shape_slat_decoder"@) == Some(spec.load.model@)
                    && spec.load.weights_root@ == root,
                None => lookup(models, "shape_slat_decoder"@) is None,
            }
            &&& match runtime.tex_decoder_spec {
                Some(spec) => lookup(models, "tex_slat_decoder"@) == Some(spec.load.model@)
                    && spec.load.weights_root@ == root,
                None => lookup(models, "tex_slat_decoder"@) is None,
            }
        }),
{
}

/// Without a directory of weights no model is located.
pub proof fn nothing_is_located_without_weights<F: Copy, N: Clone>(
    runtime: TrellisStageRuntime<F, N>,
    args: TrellisPipelineArgs<F, N>,
    assets: ModelAssets<'_>,
)
    requires
        runtime.loads(args, assets),
        assets.weights_root is None,
    ensures
        runtime.sparse_flow_spec is None,
        runtime.shape_flow_spec is None,
        runtime.shape_flow_512_spec is None,
        runtime.shape_flow_1024_spec is None,
        runtime.tex_flow_spec is None,
        runtime.sparse_structure_decoder_spec is None,
        runtime.shape_decoder_spec is None,
        runtime.tex_decoder_spec is None,
        runtime.image_conditioning_spec is None,
{
}

/// Overridden samplers take the given steps, at least one, and the given
/// strength; what is not given stays, and so does everything else.
pub proof fn samplers_keep_what_is_not_overridden<F>(
    sampler: TrellisSamplerConfig<F>,
    steps: Option<usize>,
    strength: Option<F>,
)
    ensures
        ({
            let after = overridden(sampler, steps, strength);
            &&& steps matches Some(n) ==> after.params.steps == (if n == 0 {
                1
            } else {
                n
            })
            &&& steps is None ==> after.params.steps == sampler.params.steps
            &&& strength matches Some(s) ==> after.params.guidance_strength == s
            &&& strength is None ==> after.params.guidance_strength
                == sampler.params.guidance_strength
            &&& after.sigma_min == sampler.sigma_min
            &&& after.params.rescale_t == sampler.params.rescale_t
            &&& after.params.guidance_rescale == sampler.params.guidance_rescale
            &&& after.params.guidance_interval == sampler.params.guidance_interval
            &&& overridden(sampler, None, None) == sampler
        }),
{
}

/// Overrides that fix nothing fix nothing of any stage.
pub proof fn nothing_is_fixed_by_empty_overrides<F>()
    ensures
        ({
            let o = TrellisNoiseOverrides::<F>::nothing();
            &&& o.sparse_noise is None && o.sparse_coords is None && o.shape_noise is None
            &&& o.shape_noise_lr is None && o.shape_noise_hr is None && o.tex_noise is None
            &&& o.shape_slat is None && o.tex_slat is None && o.decode_shape_input is None
            &&& o.decode_tex_input is None && o.decode_shape_subs is None
            &&& o.decode_tex_voxels is None && o.decode_mesh_vertices is None
            &&& o.decode_mesh_faces is None && o.shape_noise_dense is None
            &&& o.tex_noise_dense is None && o.sparse_sampler is None && o.shape_sampler is None
            &&& o.tex_sampler is None && o.cond_512 is None && o.neg_cond_512 is None
            &&& o.cond_1024 is None && o.neg_cond_1024 is None
        }),
{
}

// ---------------------------------------------------------------------------
// Weight files
// ---------------------------------------------------------------------------

/// The extension of a name is what stands behind its last dot.
pub proof fn names_split_at_their_last_dot(stem: Seq<char>, ext: Seq<char>)
    requires
        stem.len() > 0,
        forall|j: int| 0 <= j < ext.len() ==> #[trigger] ext[j] != '.',
    ensures
        extension_of(stem + seq!['.'] + ext) == Some(ext),
        file_stem_of(stem + seq!['.'] + ext) == stem,
{
    let name = stem + seq!['.'] + ext;
    let at = stem.len() as int;
    assert(is_extension_dot(name, at)) by {
        assert forall|j: int| at < j < name.len() implies #[trigger] name[j] != '.' by {
            assert(name[j] == ext[j - at - 1]);
        }
    }
    let i = choose|i: int| is_extension_dot(name, i);
    assert(is_extension_dot(name, i));
    assert(i == at) by {
        if i < at {
            assert(name[at] == '.');
        }
    }
    assert(name.skip(at + 1) =~= ext);
    assert(name.take(at) =~= stem);
}

/// A suffix goes behind the stem of a name and in front of its extension, once.
pub proof fn suffixes_go_behind_the_stem(stem: Seq<char>, ext: Seq<char>, suffix: Seq<char>)
    requires
        stem.len() > 0,
        ext.len() > 0,
        forall|j: int| 0 <= j < ext.len() ==> #[trigger] ext[j] != '.',
    ensures
        suffix.len() <= stem.len() && stem.skip(stem.len() - suffix.len()) == suffix
            ==> stem_suffixed(stem + seq!['.'] + ext, suffix) == stem + seq!['.'] + ext,
        !(suffix.len() <= stem.len() && stem.skip(stem.len() - suffix.len()) == suffix)
            ==> stem_suffixed(stem + seq!['.'] + ext, suffix) == stem + suffix + seq!['.'] + ext,
{
    names_split_at_their_last_dot(stem, ext);
    reveal_strlit(".");
    assert("."@ =~= seq!['.']);
    let k = stem.len() - suffix.len();
    if 0 <= k {
        assert(stem.subrange(k, k + suffix.len()) =~= stem.skip(k));
    }
}

/// Files named `.bpk`, in any case, are burnpacks, filled from their parts where
/// a list of parts is used in the browser; all others are safetensors, from
/// memory where they are in memory.
pub proof fn weight_files_are_told_by_their_names(
    stem: Seq<char>,
    ext: Seq<char>,
    wasm32: bool,
    has_parts: bool,
    is_virtual: bool,
)
    requires
        stem.len() > 0,
        forall|j: int| 0 <= j < ext.len() ==> #[trigger] ext[j] != '.',
    ensures
        ({
            let form = weight_form_of(stem + seq!['.'] + ext, wasm32, has_parts, is_virtual);
            let burnpack = lowered(ext) == seq!['b', 'p', 'k'];
            &&& burnpack && wasm32 && has_parts ==> form is ChunkedParts
            &&& burnpack && !(wasm32 && has_parts) ==> form is Burnpack
            &&& !burnpack && is_virtual ==> form is VirtualSafetensors
            &&& !burnpack && !is_virtual ==> form is Safetensors
        }),
{
    names_split_at_their_last_dot(stem, ext);
    reveal_strlit("bpk");
    assert("bpk"@ =~= seq!['b', 'p', 'k']);
}

/// A model is filled from a store over its own file: the blob of a burnpack, the
/// bytes of a file in memory, or the file at its path.
pub proof fn models_are_filled_from_their_own_files<M, B, V, C, L>(
    form: WeightForm,
    path: Seq<char>,
    read_blob: B,
    read_virtual: V,
    fill_chunked: C,
    fill: L,
    model: M,
    blob: Seq<u8>,
    memory: Seq<u8>,
    filled: spec_fn(StoreSource, M) -> bool,
    chunked: spec_fn(M) -> bool,
) where
    B: FnOnce() -> Result<Vec<u8>, String>,
    V: FnOnce() -> Result<Vec<u8>, String>,
    C: FnOnce() -> Result<Result<M, String>, String>,
    L: FnOnce(burn_store::SafetensorsStore) -> Result<M, String>,

    requires
        weight_load_outcome(form, path, read_blob, read_virtual, fill_chunked, fill, Ok(model)),
        forall|bytes: Vec<u8>| #[trigger]
            call_ensures(read_blob, (), Ok(bytes)) ==> bytes@ == blob,
        forall|bytes: Vec<u8>| #[trigger]
            call_ensures(read_virtual, (), Ok(bytes)) ==> bytes@ == memory,
        forall|m: M| #[trigger] call_ensures(fill_chunked, (), Ok(Ok(m))) ==> chunked(m),
        forall|source: StoreSource, store: burn_store::SafetensorsStore, m: M| #[trigger]
            store_outcome(source, Ok(store)) && #[trigger] call_ensures(fill, (store,), Ok(m))
                ==> filled(source, m),
    ensures
        match form {
            WeightForm::ChunkedParts => chunked(model),
            WeightForm::Burnpack => filled(StoreSource::Bytes(blob), model),
            WeightForm::VirtualSafetensors => filled(StoreSource::Bytes(memory), model),
            WeightForm::Safetensors => filled(StoreSource::File(path), model),
        },
{
}

/// A configuration is taken with the resolution that is asked for, and as it is
/// where none is; nothing but its resolution changes.
pub proof fn configurations_keep_all_but_the_resolution<F>(
    config: SparseStructureFlowConfig<F>,
    resolution: usize,
    path: Seq<char>,
)
    ensures
        with_resolution(config, None) == config,
        with_resolution(config, Some(resolution)) == (SparseStructureFlowConfig {
            resolution,
            ..config
        }),
        config.share_mod && resolution > 0 ==> config_fault(
            Ok::<SparseStructureFlowConfig<F>, ConfigError>(config),
            path,
            Some(resolution),
        ) is None,
        config.share_mod ==> config_fault(
            Ok::<SparseStructureFlowConfig<F>, ConfigError>(config),
            path,
            None,
        ) is None,
        config_fault(
            Ok::<SparseStructureFlowConfig<F>, ConfigError>(config),
            path,
            Some(0),
        ) is Some,
        !config.share_mod ==> config_fault(
            Ok::<SparseStructureFlowConfig<F>, ConfigError>(config),
            path,
            None,
        ) is Some,
{
}

/// Candidates are tried in order: the model is that of the first one that
/// loads, and there is none only where no candidate loads.
pub proof fn first_candidate_that_loads_is_taken<X, M, L>(
    stem: Seq<char>,
    candidates: Seq<String>,
    context: X,
    load: L,
    out: Result<M, String>,
    loads: spec_fn(usize) -> bool,
) where L: Fn(&X, usize) -> Result<M, String>
    requires
        candidates.len() <= usize::MAX,
        candidates_outcome(stem, candidates, context, load, out),
        forall|i: usize, m: M| #[trigger] call_ensures(load, (&context, i), Ok(m)) ==> loads(i),
        forall|i: usize, e: String| #[trigger]
            call_ensures(load, (&context, i), Err::<M, String>(e)) ==> !loads(i),
    ensures
        out is Ok <==> exists|i: usize| i < candidates.len() && #[trigger] loads(i),
        out matches Ok(model) ==> exists|k: usize|
            k < candidates.len() && #[trigger] call_ensures(load, (&context, k), Ok(model))
                && forall|j: usize| j < k ==> !#[trigger] loads(j),
{
    match out {
        Ok(model) => {
            let k = choose|k: usize|
                k < candidates.len() && #[trigger] call_ensures(load, (&context, k), Ok(model))
                    && forall|j: usize| j < k ==> #[trigger] load_fails::<X, M, L>(
                    context,
                    load,
                    j,
                );
            assert(loads(k));
            assert forall|j: usize| j < k implies !#[trigger] loads(j) by {
                assert(load_fails::<X, M, L>(context, load, j));
            }
        },
        Err(_) => {
            assert forall|j: usize| j < candidates.len() implies !#[trigger] loads(j) by {
                assert(load_fails::<X, M, L>(context, load, j));
            }
        },
    }
}

/// Models of another repository lie under `ckpts` of the second directory, or
/// of the first where there is no second; all others lie under their own name in
/// the first.
pub proof fn models_lie_under_their_directories(
    front: Seq<char>,
    back: Seq<char>,
    ext: Seq<char>,
    has_second: bool,
    root: ModelRoot,
    relative: Seq<char>,
)
    requires
        ({
            let mark = seq!['/', 'c', 'k', 'p', 't', 's', '/'];
            let stem = front + mark + back;
            &&& model_source(stem, ext, has_second, root, relative)
            &&& !occurs_at(stem, "ckpts/"@, 0)
            &&& forall|j: int| 0 <= j < front.len() ==> !#[trigger] occurs_at(stem, mark, j)
        }),
    ensures
        root == (if has_second {
            ModelRoot::ImageLarge
        } else {
            ModelRoot::Weights
        }),
        relative == seq!['c', 'k', 'p', 't', 's', '/'] + back + seq!['.'] + ext,
{
    let mark = seq!['/', 'c', 'k', 'p', 't', 's', '/'];
    let stem = front + mark + back;
    reveal_strlit("/ckpts/");
    reveal_strlit("ckpts/");
    reveal_strlit(".");
    assert("/ckpts/"@ =~= mark);
    assert("ckpts/"@ =~= seq!['c', 'k', 'p', 't', 's', '/']);
    assert("."@ =~= seq!['.']);
    assert(stem.subrange(front.len() as int, front.len() as int + 7) =~= mark);
    assert(occurs_at(stem, "/ckpts/"@, front.len() as int));
    let i = choose|i: int| #[trigger]
        crate::text::is_first_occurrence(stem, "/ckpts/"@, i) && relative == "ckpts/"@ + stem.skip(
            i + 7,
        ) + "."@ + ext;
    assert(i == front.len()) by {
        if i > front.len() {
            assert(!occurs_at(stem, "/ckpts/"@, front.len() as int));
        } else if i < front.len() {
            assert(occurs_at(stem, mark, i));
        }
    }
    assert(stem.skip(front.len() as int + 7) =~= back);
}

// ---------------------------------------------------------------------------
// Parts of weight files
// ---------------------------------------------------------------------------

proof fn lemma_joined_is_flattened(payloads: Seq<Vec<u8>>)
    ensures
        joined_payloads(payloads) == payloads.map_values(|p: Vec<u8>| p@).flatten(),
    decreases payloads.len(),
{
    let f = |p: Vec<u8>| p@;
    let list = payloads.map_values(f);
    if payloads.len() == 0 {
        assert(list =~= Seq::<Seq<u8>>::empty());
        assert(list.flatten() =~= Seq::<u8>::empty());
    } else {
        lemma_joined_is_flattened(payloads.drop_last());
        let front = payloads.drop_last().map_values(f);
        assert(list =~= front.push(payloads.last()@));
        front.lemma_flatten_push(payloads.last()@);
    }
}

/// A file that comes in parts is what its parts hold, each read by its own
/// number and decoded, one behind the other in the order of their list. Every
/// part has the size that is listed for it, up to the padding of its file, where
/// one is.
pub proof fn parts_are_joined_in_their_order<L, S, R, C>(
    manifest: BurnpackPartsManifest,
    burnpack: Seq<char>,
    manifest_url: Option<&str>,
    locate: L,
    stat: S,
    read: R,
    decode: C,
    merged: Vec<u8>,
    body: spec_fn(int) -> Seq<u8>,
    placed: spec_fn(int) -> bool,
    size: spec_fn(int) -> int,
) where
    L: Fn(usize) -> Result<PartLocation, String>,
    S: Fn(usize) -> Result<u64, String>,
    R: Fn(usize) -> Result<Vec<u8>, String>,
    C: Fn(&Vec<u8>) -> Result<Vec<u8>, String>,

    requires
        manifest.parts@.len() <= usize::MAX,
        merge_outcome(manifest, burnpack, manifest_url, locate, stat, read, decode, Ok(merged)),
        forall|i: usize, raw: Vec<u8>, payload: Vec<u8>| #[trigger]
            call_ensures(read, (i,), Ok(raw)) && #[trigger] call_ensures(
                decode,
                (&raw,),
                Ok(payload),
            ) ==> payload@ == body(i as int),
        forall|i: usize, location: PartLocation| #[trigger]
            call_ensures(locate, (i,), Ok(location)) ==> placed(i as int) == (location.is_virtual
                || location.on_disk),
        forall|i: usize, found: u64| #[trigger]
            call_ensures(stat, (i,), Ok(found)) ==> size(i as int) == found,
    ensures
        merged@ == Seq::new(manifest.parts@.len(), body).flatten(),
        forall|i: int|
            #![trigger manifest.parts@[i]]
            0 <= i < manifest.parts@.len() && placed(i) ==> ({
                let listed = manifest.parts@[i].bytes as int;
                listed == 0 || body(i).len() == listed || listed <= size(i) <= listed + 256
            }),
{
    let payloads = choose|payloads: Seq<Vec<u8>>| #[trigger]
        parts_read(manifest, burnpack, manifest_url, locate, stat, read, decode, payloads)
            && payloads.len() == manifest.parts@.len() && merged@ == joined_payloads(payloads);
    lemma_joined_is_flattened(payloads);
    let list = payloads.map_values(|p: Vec<u8>| p@);
    assert forall|i: int| 0 <= i < payloads.len() implies (#[trigger] payloads[i])@ == body(i) && (placed(
        i,
    ) ==> ({
        let listed = manifest.parts@[i].bytes as int;
        listed == 0 || body(i).len() == listed || listed <= size(i) <= listed + 256
    })) by {
        let k = i as usize;
        assert(part_reads(
            manifest,
            k,
            burnpack,
            manifest_url,
            locate,
            stat,
            read,
            decode,
            Ok(payloads[i]),
        ));
        let location = choose|location: PartLocation| #[trigger]
            call_ensures(locate, (k,), Ok(location)) && part_result(
                manifest.parts@[i],
                k,
                manifest.parts@.len() as int,
                location,
                burnpack,
                manifest_url,
                stat,
                read,
                decode,
                Ok(payloads[i]),
            );
        let (found, raw) = choose|size: u64, raw: Vec<u8>| #[trigger]
            payload_read(
                manifest.parts@[i],
                k,
                location,
                stat,
                read,
                decode,
                size,
                raw,
                payloads[i],
            ) && crate::weight_parts::part_size_fits(
                manifest.parts@[i].bytes as int,
                size as int,
                payloads[i]@.len() as int,
            );
    }
    assert forall|i: int|
        #![trigger manifest.parts@[i]]
        0 <= i < manifest.parts@.len() && placed(i) implies ({
        let listed = manifest.parts@[i].bytes as int;
        listed == 0 || body(i).len() == listed || listed <= size(i) <= listed + 256
    }) by {
        assert(payloads[i]@ == body(i));
    }
    assert(list =~= Seq::new(manifest.parts@.len(), body));
}

/// Parts with relative names lie beside their list: a list at `dir/name` has its
/// part `entry` at `dir/entry`. Parts with full addresses lie there.
pub proof fn parts_lie_beside_their_list(
    dir: Seq<char>,
    name: Seq<char>,
    entry: Seq<char>,
    url: Seq<char>,
)
    requires
        dir.len() > 0,
        dir.last() != '/',
        forall|j: int| 0 <= j < name.len() ==> #[trigger] name[j] != '/',
        forall|j: int| 0 <= j < entry.len() ==> #[trigger] entry[j] != '\\',
        part_url(dir + seq!['/'] + name, entry, url),
    ensures
        entry.len() > 0 && entry[0] == '/' ==> url == entry,
        (exists|i: int|
            0 <= i && i + 3 <= entry.len() && #[trigger] entry[i] == ':' && entry[i + 1] == '/'
                && entry[i + 2] == '/') ==> url == entry,
        !(entry.len() > 0 && entry[0] == '/') && !(exists|i: int|
            0 <= i && i + 3 <= entry.len() && #[trigger] entry[i] == ':' && entry[i + 1] == '/'
                && entry[i + 2] == '/') ==> url == dir + seq!['/'] + entry,
{
    let list = dir + seq!['/'] + name;
    let at = dir.len() as int;
    reveal_strlit("://");
    reveal_strlit("/");
    assert("/"@ =~= seq!['/']);
    assert("://"@ =~= seq![':', '/', '/']);
    assert(occurs_at(entry, "/"@, 0) <==> entry.len() > 0 && entry[0] == '/') by {
        if entry.len() > 0 {
            assert(entry.subrange(0, 1) =~= seq![entry[0]]);
            assert(seq!['/'][0] == '/');
        }
    }
    let full = exists|i: int|
        0 <= i && i + 3 <= entry.len() && #[trigger] entry[i] == ':' && entry[i + 1] == '/'
            && entry[i + 2] == '/';
    assert(occurs(entry, "://"@) <==> full) by {
        if full {
            let i = choose|i: int|
                0 <= i && i + 3 <= entry.len() && #[trigger] entry[i] == ':' && entry[i + 1] == '/'
                    && entry[i + 2] == '/';
            assert(entry.subrange(i, i + 3) =~= seq![':', '/', '/']);
            assert(occurs_at(entry, "://"@, i));
        }
        if occurs(entry, "://"@) {
            let i = choose|i: int| #[trigger] occurs_at(entry, "://"@, i);
            let s = entry.subrange(i, i + 3);
            assert(s == seq![':', '/', '/']);
            assert(s[0] == entry[i] && s[1] == entry[i + 1] && s[2] == entry[i + 2]);
        }
    }
    assert(is_last_slash(list, at)) by {
        assert forall|j: int| at < j < list.len() implies #[trigger] list[j] != '/' by {
            assert(list[j] == name[j - at - 1]);
        }
    }
    assert(slashed(entry) =~= entry);
    if !full && !(entry.len() > 0 && entry[0] == '/') {
        let i = choose|i: int| #[trigger]
            is_last_slash(list, i) && url == without_end_slashes(list.take(i)) + "/"@ + slashed(
                entry,
            );
        assert(i == at) by {
            if i < at {
                assert(list[at] == '/');
            }
        }
        assert(list.take(at) =~= dir);
        assert(without_end_slashes(dir) == dir);
    }
}

// ---------------------------------------------------------------------------
// Backends
// ---------------------------------------------------------------------------

/// The positions of what is present come once each, in rising order.
pub proof fn present_entries_are_listed_in_order(present: Seq<bool>, n: int)
    requires
        0 <= n <= present.len(),
        present.len() <= usize::MAX,
    ensures
        forall|i: int|
            0 <= i < present_positions(present, n).len() ==> {
                let at = #[trigger] present_positions(present, n)[i];
                at < n && present[at as int]
            },
        forall|i: int, j: int|
            0 <= i < j < present_positions(present, n).len() ==> #[trigger] present_positions(
                present,
                n,
            )[i] < #[trigger] present_positions(present, n)[j],
        forall|at: int|
            0 <= at < n && #[trigger] present[at] ==> present_positions(present, n).contains(
                at as usize,
            ),
    decreases n,
{
    if n > 0 {
        present_entries_are_listed_in_order(present, n - 1);
        let before = present_positions(present, n - 1);
        let all = present_positions(present, n);
        assert forall|at: int| 0 <= at < n && #[trigger] present[at] implies all.contains(
            at as usize,
        ) by {
            if at == n - 1 {
                assert(all[before.len() as int] == at as usize);
            } else {
                let i = choose|i: int| 0 <= i < before.len() && before[i] == at as usize;
                assert(before.contains(at as usize));
                assert(all[i] == at as usize);
            }
        }
    }
}

/// A model is the one that was loaded on the backend that it is given out with,
/// and that is the backend that was asked for.
pub proof fn models_stay_on_the_backend_they_were_loaded_on<M, L>(
    env: FlowEnv,
    stem: Seq<char>,
    load: L,
    backend: RuntimeBackend,
    model: M,
    error: String,
) where L: Fn(RuntimeBackend) -> Result<LoadedFlow<M>, String>
    ensures
        wgpu_load_outcome(env, stem, load, Ok((backend, model))) ==> backend == RuntimeBackend::Wgpu,
        cpu_load_outcome(load, Ok((backend, model))) ==> backend == RuntimeBackend::Cpu,
        wgpu_load_outcome(env, stem, load, Ok((backend, model))) || cpu_load_outcome(
            load,
            Ok((backend, model)),
        ) ==> exists|flow: LoadedFlow<M>| #[trigger]
            call_ensures(load, (backend,), Ok(flow)) && flow.model == model,
        cpu_load_outcome(load, Err::<(RuntimeBackend, M), String>(error)) ==> call_ensures(
            load,
            (RuntimeBackend::Cpu,),
            Err(error),
        ),
{
}

} // verus!
