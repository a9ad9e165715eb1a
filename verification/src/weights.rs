//! Finding the weights of a model: file names, candidates, and the choice
//! among them.
//!
//! Directories belong to the caller; names are single path components and
//! relative paths are written with `/`.
use crate::arith::{sat, saturating_mul};
use crate::policy::{
    estimated_peak_bytes, sparse_flow_chunked_forward_enabled, sparse_flow_wgpu_may_overflow,
    FlowEnv,
};
use crate::runtime_access::RuntimeBackend;
use crate::text::{
    chars_eq, chars_of, decimal, find, is_first_occurrence, lower_chars, lowered, occurs,
    occurs_at, push_usize, rfind_char, str_ends_with, str_starts_with,
};
use vstd::prelude::*;
use vstd::string::*;

verus! {

/// Suffix of half-precision weight files.
pub fn f16_suffix() -> (r: &'static str)
    ensures
        r@ == "_f16"@,
{
    "_f16"
}

// ---------------------------------------------------------------------------
// File names
// ---------------------------------------------------------------------------

/// Position of the dot before a file name's extension: the last dot, unless
/// the name begins with it.
pub open spec fn is_extension_dot(name: Seq<char>, i: int) -> bool {
    &&& 0 < i < name.len()
    &&& name[i] == '.'
    &&& forall|j: int| i < j < name.len() ==> #[trigger] name[j] != '.'
}

/// A file name without its extension.
pub open spec fn file_stem_of(name: Seq<char>) -> Seq<char> {
    if exists|i: int| is_extension_dot(name, i) {
        name.take(choose|i: int| is_extension_dot(name, i))
    } else {
        name
    }
}

/// A file name's extension.
pub open spec fn extension_of(name: Seq<char>) -> Option<Seq<char>> {
    if exists|i: int| is_extension_dot(name, i) {
        Some(name.skip((choose|i: int| is_extension_dot(name, i)) + 1))
    } else {
        None
    }
}

/// There is one extension dot at most.
proof fn lemma_extension_dot(name: Seq<char>, i: int)
    requires
        is_extension_dot(name, i),
    ensures
        file_stem_of(name) == name.take(i),
        extension_of(name) == Some(name.skip(i + 1)),
{
    let c = choose|j: int| is_extension_dot(name, j);
    assert(is_extension_dot(name, c));
    if c < i {
        assert(name[i] != '.');
    } else if i < c {
        assert(name[c] != '.');
    }
}

/// Position of the dot before a file name's extension.
fn extension_dot(v: &Vec<char>) -> (r: Option<usize>)
    ensures
        match r {
            Some(i) => is_extension_dot(v@, i as int),
            None => !exists|i: int| is_extension_dot(v@, i),
        },
{
    match rfind_char(v, '.') {
        Some(i) => if i == 0 {
            assert forall|j: int| !is_extension_dot(v@, j) by {
                if is_extension_dot(v@, j) {
                    assert(v@[j] != '.');
                }
            }
            None
        } else {
            Some(i)
        },
        None => {
            assert forall|j: int| !is_extension_dot(v@, j) by {
                if is_extension_dot(v@, j) {
                    assert(v@[j] != '.');
                }
            }
            None
        },
    }
}

/// A file name without its extension.
pub fn file_stem<'a>(name: &'a str) -> (r: &'a str)
    ensures
        r@ == file_stem_of(name@),
{
    let v: Vec<char> = chars_of(name);
    match extension_dot(&v) {
        Some(i) => {
            proof {
                lemma_extension_dot(name@, i as int);
                assert(name@.subrange(0, i as int) =~= name@.take(i as int));
            }
            name.substring_char(0, i)
        },
        None => name,
    }
}

/// A file name's extension.
pub fn file_extension<'a>(name: &'a str) -> (r: Option<&'a str>)
    ensures
        match r {
            Some(ext) => extension_of(name@) == Some(ext@),
            None => extension_of(name@) is None,
        },
{
    let v: Vec<char> = chars_of(name);
    let n: usize = v.len();
    match extension_dot(&v) {
        Some(i) => {
            proof {
                lemma_extension_dot(name@, i as int);
                assert(name@.subrange(i as int + 1, name@.len() as int) =~= name@.skip(
                    i as int + 1,
                ));
            }
            Some(name.substring_char(i + 1, n))
        },
        None => None,
    }
}

/// `stem` with an extension, where the extension is not empty.
pub open spec fn joined_name(stem: Seq<char>, ext: Seq<char>) -> Seq<char> {
    if ext.len() == 0 {
        stem
    } else {
        stem + "."@ + ext
    }
}

fn join_name(stem: &str, ext: &str) -> (r: String)
    ensures
        r@ == joined_name(stem@, ext@),
{
    let mut out: String = stem.to_owned();
    if !ext.is_empty() {
        out.append(".");
        out.append(ext);
    }
    out
}

/// A file name with another extension.
pub fn with_extension(name: &str, ext: &str) -> (r: String)
    ensures
        r@ == joined_name(file_stem_of(name@), ext@),
{
    join_name(file_stem(name), ext)
}

/// A file name whose stem ends with `suffix`, which is added where it is missing.
pub open spec fn stem_suffixed(name: Seq<char>, suffix: Seq<char>) -> Seq<char> {
    let stem = file_stem_of(name);
    if occurs_at(stem, suffix, stem.len() - suffix.len()) {
        name
    } else {
        joined_name(
            stem + suffix,
            match extension_of(name) {
                Some(ext) => ext,
                None => Seq::empty(),
            },
        )
    }
}

/// A file name whose stem ends with `suffix`, which is added where it is missing.
pub fn with_file_stem_suffix(name: &str, suffix: &str) -> (r: String)
    ensures
        r@ == stem_suffixed(name@, suffix@),
{
    let stem: &str = file_stem(name);
    if str_ends_with(stem, suffix) {
        return name.to_owned();
    }
    let mut suffixed: String = stem.to_owned();
    suffixed.append(suffix);
    match file_extension(name) {
        Some(ext) => join_name(suffixed.as_str(), ext),
        None => {
            assert(suffixed@ == joined_name(suffixed@, Seq::empty()));
            suffixed
        },
    }
}

/// Adding a suffix twice is adding it once, for names with a stem.
pub proof fn suffixing_is_idempotent(stem: Seq<char>, ext: Seq<char>, suffix: Seq<char>)
    requires
        stem.len() > 0,
        ext.len() > 0,
        forall|j: int| 0 <= j < ext.len() ==> #[trigger] ext[j] != '.',
        suffix.len() > 0,
    ensures
        ({
            let name = joined_name(stem, ext);
            let once = stem_suffixed(name, suffix);
            stem_suffixed(once, suffix) == once
        }),
{
    let name = joined_name(stem, ext);
    let once = stem_suffixed(name, suffix);
    lemma_joined_name(stem, ext);
    if !occurs_at(stem, suffix, stem.len() - suffix.len()) {
        let longer = stem + suffix;
        lemma_joined_name(longer, ext);
        assert(longer.subrange(longer.len() - suffix.len(), longer.len() as int) =~= suffix);
    }
}

/// A stem joined with an extension without dots comes apart into both.
proof fn lemma_joined_name(stem: Seq<char>, ext: Seq<char>)
    requires
        stem.len() > 0,
        ext.len() > 0,
        forall|j: int| 0 <= j < ext.len() ==> #[trigger] ext[j] != '.',
    ensures
        file_stem_of(joined_name(stem, ext)) == stem,
        extension_of(joined_name(stem, ext)) == Some(ext),
{
    reveal_strlit(".");
    let name = joined_name(stem, ext);
    let i = stem.len() as int;
    assert(name[i] == '.');
    assert forall|j: int| i < j < name.len() implies #[trigger] name[j] != '.' by {
        assert(name[j] == ext[j - i - 1]);
    }
    assert(is_extension_dot(name, i));
    lemma_extension_dot(name, i);
    assert(name.take(i) =~= stem);
    assert(name.skip(i + 1) =~= ext);
}

/// Whether a file name is that of a burnpack, in capitals or small letters.
pub fn is_burnpack_name(name: &str) -> (r: bool)
    ensures
        r == (extension_of(name@) matches Some(ext) && lowered(ext) == "bpk"@),
{
    match file_extension(name) {
        Some(ext) => chars_eq(&lower_chars(ext), "bpk"),
        None => false,
    }
}

// ---------------------------------------------------------------------------
// Model sources
// ---------------------------------------------------------------------------

/// Directory that a model file is looked up in.
#[derive(Clone, Copy, Debug, PartialEq, Eq, Structural)]
pub enum ModelRoot {
    /// Directory of the model's weights.
    Weights,
    /// Directory of the large image model.
    ImageLarge,
}

/// A model file: a directory and a relative path in it.
#[derive(Debug)]
pub struct ModelSource {
    pub root: ModelRoot,
    pub relative: String,
}

/// Directory and relative path of a model file.
///
/// Stems under `ckpts/` belong to the model's own weights; a stem with
/// `/ckpts/` further on belongs to the large image model, where there is one,
/// from `ckpts/` on.
pub open spec fn model_source(
    stem: Seq<char>,
    ext: Seq<char>,
    has_image_large_root: bool,
    root: ModelRoot,
    relative: Seq<char>,
) -> bool {
    if occurs_at(stem, "ckpts/"@, 0) || !occurs(stem, "/ckpts/"@) {
        root == ModelRoot::Weights && relative == stem + "."@ + ext
    } else {
        &&& root == (if has_image_large_root {
            ModelRoot::ImageLarge
        } else {
            ModelRoot::Weights
        })
        &&& exists|i: int| #[trigger]
            is_first_occurrence(stem, "/ckpts/"@, i) && relative == "ckpts/"@ + stem.skip(i + 7)
                + "."@ + ext
    }
}

/// Directory and relative path of a model file.
pub fn resolve_model_source_path(stem: &str, ext: &str, has_image_large_root: bool) -> (r:
    ModelSource)
    ensures
        model_source(stem@, ext@, has_image_large_root, r.root, r.relative@),
{
    if !str_starts_with(stem, "ckpts/") {
        let v: Vec<char> = chars_of(stem);
        let n: usize = v.len();
        if let Some(i) = find(&v, "/ckpts/") {
            proof {
                reveal_strlit("/ckpts/");
                assert(stem@.subrange(i as int + 7, stem@.len() as int) =~= stem@.skip(
                    i as int + 7,
                ));
                assert(occurs_at(stem@, "/ckpts/"@, i as int));
            }
            let suffix: &str = stem.substring_char(i + 7, n);
            let mut relative: String = "ckpts/".to_owned();
            relative.append(suffix);
            relative.append(".");
            relative.append(ext);
            let root: ModelRoot = if has_image_large_root {
                ModelRoot::ImageLarge
            } else {
                ModelRoot::Weights
            };
            return ModelSource { root, relative };
        }
    }
    let mut relative: String = stem.to_owned();
    relative.append(".");
    relative.append(ext);
    ModelSource { root: ModelRoot::Weights, relative }
}

/// Whether half-precision files are tried first: canonical weights come first.
pub fn prefer_f16_burnpack() -> (r: bool)
    ensures
        !r,
{
    false
}

/// Names of the weight files that are tried, in order: the burnpack, its
/// half-precision form, the safetensors file.
pub fn weight_candidate_names(source: &str) -> (r: Vec<String>)
    ensures
        ({
            let burnpack = joined_name(file_stem_of(source@), "bpk"@);
            &&& r@.len() == 3
            &&& r@[0]@ == burnpack
            &&& r@[1]@ == stem_suffixed(burnpack, "_f16"@)
            &&& r@[2]@ == source@
        }),
{
    let burnpack: String = with_extension(source, "bpk");
    let burnpack_f16: String = with_file_stem_suffix(burnpack.as_str(), f16_suffix());
    let mut out: Vec<String> = Vec::new();
    if prefer_f16_burnpack() {
        out.push(burnpack_f16);
        out.push(burnpack);
    } else {
        out.push(burnpack);
        out.push(burnpack_f16);
    }
    out.push(source.to_owned());
    out
}

/// Positions of the candidates that are there, in order, among the first `n`.
pub open spec fn present_positions(present: Seq<bool>, n: int) -> Seq<usize>
    decreases n,
{
    if n <= 0 {
        Seq::empty()
    } else if present[n - 1] {
        present_positions(present, n - 1).push((n - 1) as usize)
    } else {
        present_positions(present, n - 1)
    }
}

/// A weight file is usable where it exists, or where it exists in parts.
pub fn candidate_exists_or_has_parts(exists_whole: bool, has_parts: bool) -> (r: bool)
    ensures
        r == (exists_whole || has_parts),
{
    exists_whole || has_parts
}

/// Positions of the candidates that are there, in order.
pub fn resolve_model_weight_candidates(present: &Vec<bool>) -> (r: Vec<usize>)
    ensures
        r@ == present_positions(present@, present@.len() as int),
{
    let mut out: Vec<usize> = Vec::new();
    let mut i: usize = 0;
    while i < present.len()
        invariant
            i <= present.len(),
            out@ == present_positions(present@, i as int),
        decreases present.len() - i,
    {
        if present[i] {
            out.push(i);
        }
        i = i + 1;
    }
    out
}

// ---------------------------------------------------------------------------
// Loading
// ---------------------------------------------------------------------------

/// What is answered where no weight file is there.
pub open spec fn no_weights_text(stem: Seq<char>) -> Seq<char> {
    "unable to resolve sparse structure flow weights for stem '"@ + stem + "'"@
}

/// What is answered where every weight file failed, the last one with `err`.
pub open spec fn failed_weights_text(
    stem: Seq<char>,
    candidate: Seq<char>,
    err: Seq<char>,
) -> Seq<char> {
    "failed to load sparse structure flow weights for stem '"@ + stem + "': "@ + candidate + " ("@
        + err + ")"@
}

fn failed_weights_message(stem: &str, candidate: &str, err: &str) -> (r: String)
    ensures
        r@ == failed_weights_text(stem@, candidate@, err@),
{
    let mut out: String = "failed to load sparse structure flow weights for stem '".to_owned();
    out.append(stem);
    out.append("': ");
    out.append(candidate);
    out.append(" (");
    out.append(err);
    out.append(")");
    out
}

/// Loading from position `i` fails.
pub open spec fn load_fails<X, M, L>(context: X, load: L, i: usize) -> bool where
    L: Fn(&X, usize) -> Result<M, String>,
 {
    exists|e: String| call_ensures(load, (&context, i), Err::<M, String>(e))
}

/// Outcome of trying weight files in order: the first that loads, or the
/// failure of the last one.
pub open spec fn candidates_outcome<X, M, L>(
    stem: Seq<char>,
    candidates: Seq<String>,
    context: X,
    load: L,
    out: Result<M, String>,
) -> bool where L: Fn(&X, usize) -> Result<M, String> {
    match out {
        Ok(model) => exists|k: usize|
            k < candidates.len() && #[trigger] call_ensures(load, (&context, k), Ok(model))
                && forall|j: usize| j < k ==> #[trigger] load_fails::<X, M, L>(context, load, j),
        Err(msg) => if candidates.len() == 0 {
            msg@ == no_weights_text(stem)
        } else {
            &&& forall|j: usize|
                j < candidates.len() ==> #[trigger] load_fails::<X, M, L>(context, load, j)
            &&& exists|e: String|
                #[trigger] call_ensures(
                    load,
                    (&context, (candidates.len() - 1) as usize),
                    Err::<M, String>(e),
                ) && msg@ == failed_weights_text(stem, candidates.last()@, e@)
        },
    }
}

/// Loads the first weight file that can be loaded.
///
/// `candidates` are the files as they are shown to the user, `load` loads the
/// one at a position. Where all fail, the last failure is answered.
pub fn load_first_candidate<X, M, L>(
    stem: &str,
    candidates: &Vec<String>,
    context: &X,
    load: &L,
) -> (r: Result<M, String>) where L: Fn(&X, usize) -> Result<M, String>
    requires
        forall|c: &X, i: usize| call_requires(*load, (c, i)),
    ensures
        candidates_outcome(stem@, candidates@, *context, *load, r),
{
    if candidates.len() == 0 {
        let mut out: String =
            "unable to resolve sparse structure flow weights for stem '".to_owned();
        out.append(stem);
        out.append("'");
        return Err(out);
    }
    let mut last_error: String = String::new();
    let mut i: usize = 0;
    while i < candidates.len()
        invariant
            i <= candidates.len(),
            candidates.len() > 0,
            forall|c: &X, i: usize| call_requires(*load, (c, i)),
            forall|j: usize| j < i ==> #[trigger] load_fails::<X, M, L>(*context, *load, j),
            i > 0 ==> call_ensures(
                *load,
                (context, (i - 1) as usize),
                Err::<M, String>(last_error),
            ),
        decreases candidates.len() - i,
    {
        match load(context, i) {
            Ok(model) => {
                return Ok(model);
            },
            Err(e) => {
                assert(load_fails::<X, M, L>(*context, *load, i));
                last_error = e;
            },
        }
        i = i + 1;
    }
    let last: usize = candidates.len() - 1;
    Err(failed_weights_message(stem, candidates[last].as_str(), last_error.as_str()))
}

/// Resolution in force after an override.
pub fn override_resolution(configured: usize, given: Option<usize>) -> (r: Result<usize, String>)
    ensures
        match given {
            Some(0) => r matches Err(msg) && msg@
                == "sparse flow resolution override must be > 0"@,
            Some(n) => r == Ok::<usize, String>(n),
            None => r == Ok::<usize, String>(configured),
        },
{
    match given {
        Some(n) => if n == 0 {
            Err("sparse flow resolution override must be > 0".to_owned())
        } else {
            Ok(n)
        },
        None => Ok(configured),
    }
}

/// Checks that a configuration can be run: blocks share their modulation.
pub fn check_share_mod(share_mod: bool, config_path: &str) -> (r: Result<(), String>)
    ensures
        r is Ok <==> share_mod,
        r matches Err(msg) ==> msg@ == "unsupported sparse structure flow config '"@ + config_path@
            + "': share_mod=false is not yet supported"@,
{
    if share_mod {
        Ok(())
    } else {
        let mut out: String = "unsupported sparse structure flow config '".to_owned();
        out.append(config_path);
        out.append("': share_mod=false is not yet supported");
        Err(out)
    }
}

/// Backend that a flow model is loaded on.
pub fn flow_load_backend(env: &FlowEnv, prefer_wgpu: bool, model_stem: &str) -> (r: Result<
    RuntimeBackend,
    String,
>)
    ensures
        if !prefer_wgpu {
            r == Ok::<RuntimeBackend, String>(RuntimeBackend::Cpu)
        } else if env.wgpu {
            r == Ok::<RuntimeBackend, String>(RuntimeBackend::Wgpu)
        } else {
            r matches Err(msg) && msg@
                == "burn_trellis: sparse flow runtime requested wgpu for model '"@ + model_stem@
                + "' but crate was built without runtime-model-wgpu"@
        },
{
    if !prefer_wgpu {
        return Ok(RuntimeBackend::Cpu);
    }
    if env.wgpu {
        return Ok(RuntimeBackend::Wgpu);
    }
    let mut out: String =
        "burn_trellis: sparse flow runtime requested wgpu for model '".to_owned();
    out.append(model_stem);
    out.append("' but crate was built without runtime-model-wgpu");
    Err(out)
}

/// Checks that a model fits the device: by its estimated peak, or because its
/// inputs are processed in chunks.
///
/// `mlp_channels` is the width of the hidden MLP layer.
pub fn check_wgpu_fit(
    env: &FlowEnv,
    model_stem: &str,
    resolution: usize,
    model_channels: usize,
    mlp_channels: usize,
) -> (r: Result<(), String>)
    ensures
        r is Ok <==> estimated_peak_bytes(
            resolution as int,
            model_channels as int,
            mlp_channels as int,
        ) <= 3_221_225_472 || env.chunked_forward(sat(sat(resolution * resolution) * resolution)),
        r matches Err(msg) ==> msg@
            == "burn_trellis: sparse flow wgpu estimated peak exceeds safe budget for model '"@
            + model_stem@ + "' (resolution="@ + decimal(resolution as nat) + ", model_channels="@
            + decimal(model_channels as nat) + "); refusing cpu fallback"@,
{
    let tokens: usize = saturating_mul(saturating_mul(resolution, resolution), resolution);
    if sparse_flow_wgpu_may_overflow(resolution, model_channels, mlp_channels)
        && !sparse_flow_chunked_forward_enabled(env, tokens) {
        let mut out: String =
            "burn_trellis: sparse flow wgpu estimated peak exceeds safe budget for model '".to_owned();
        out.append(model_stem);
        out.append("' (resolution=");
        push_usize(&mut out, resolution);
        out.append(", model_channels=");
        push_usize(&mut out, model_channels);
        out.append("); refusing cpu fallback");
        return Err(out);
    }
    Ok(())
}

/// A loaded flow model with the widths that its memory use follows from.
#[derive(Debug)]
pub struct LoadedFlow<M> {
    pub model: M,
    pub resolution: usize,
    pub model_channels: usize,
    /// Width of the hidden MLP layer.
    pub mlp_channels: usize,
}

/// Loading on the device failed, and the host is no substitute.
pub open spec fn wgpu_load_text(error: Seq<char>, model_stem: Seq<char>) -> Seq<char> {
    "burn_trellis: failed to load sparse flow runtime on wgpu ("@ + error
        + "); refusing cpu fallback for model '"@ + model_stem + "'"@
}

/// Why a loaded model does not run on the device.
pub open spec fn wgpu_fit_fault<M>(
    env: FlowEnv,
    loaded: LoadedFlow<M>,
    model_stem: Seq<char>,
) -> Option<Seq<char>> {
    let resolution = loaded.resolution;
    if estimated_peak_bytes(
        resolution as int,
        loaded.model_channels as int,
        loaded.mlp_channels as int,
    ) <= 3_221_225_472 || env.chunked_forward(sat(sat(resolution * resolution) * resolution)) {
        None
    } else {
        Some(
            "burn_trellis: sparse flow wgpu estimated peak exceeds safe budget for model '"@
                + model_stem + "' (resolution="@ + decimal(resolution as nat)
                + ", model_channels="@ + decimal(loaded.model_channels as nat)
                + "); refusing cpu fallback"@,
        )
    }
}

/// Outcome of loading a flow model on the device.
pub open spec fn wgpu_load_outcome<M, L>(
    env: FlowEnv,
    model_stem: Seq<char>,
    load: L,
    out: Result<(RuntimeBackend, M), String>,
) -> bool where L: Fn(RuntimeBackend) -> Result<LoadedFlow<M>, String> {
    exists|loaded: Result<LoadedFlow<M>, String>| #[trigger]
        call_ensures(load, (RuntimeBackend::Wgpu,), loaded) && match loaded {
            Err(e) => out matches Err(msg) && msg@ == wgpu_load_text(e@, model_stem),
            Ok(flow) => match wgpu_fit_fault(env, flow, model_stem) {
                Some(text) => out matches Err(msg) && msg@ == text,
                None => out == Ok::<(RuntimeBackend, M), String>((RuntimeBackend::Wgpu, flow.model)),
            },
        }
}

/// Outcome of loading a flow model on the host.
pub open spec fn cpu_load_outcome<M, L>(
    load: L,
    out: Result<(RuntimeBackend, M), String>,
) -> bool where L: Fn(RuntimeBackend) -> Result<LoadedFlow<M>, String> {
    exists|loaded: Result<LoadedFlow<M>, String>| #[trigger]
        call_ensures(load, (RuntimeBackend::Cpu,), loaded) && match loaded {
            Err(e) => out == Err::<(RuntimeBackend, M), String>(e),
            Ok(flow) => out == Ok::<(RuntimeBackend, M), String>((RuntimeBackend::Cpu, flow.model)),
        }
}

/// Loads a flow model on the backend that is asked for; there is no way back
/// from the device to the host.
pub fn load_flow_on_backend<M, L>(
    env: &FlowEnv,
    prefer_wgpu: bool,
    model_stem: &str,
    load: L,
) -> (r: Result<(RuntimeBackend, M), String>) where
    L: Fn(RuntimeBackend) -> Result<LoadedFlow<M>, String>,

    requires
        !prefer_wgpu ==> call_requires(load, (RuntimeBackend::Cpu,)),
        prefer_wgpu && env.wgpu ==> call_requires(load, (RuntimeBackend::Wgpu,)),
    ensures
        if !prefer_wgpu {
            cpu_load_outcome(load, r)
        } else if env.wgpu {
            wgpu_load_outcome(*env, model_stem@, load, r)
        } else {
            r matches Err(msg) && msg@
                == "burn_trellis: sparse flow runtime requested wgpu for model '"@ + model_stem@
                + "' but crate was built without runtime-model-wgpu"@
        },
{
    let backend: RuntimeBackend = match flow_load_backend(env, prefer_wgpu, model_stem) {
        Ok(backend) => backend,
        Err(msg) => return Err(msg),
    };
    let loaded: Result<LoadedFlow<M>, String> = load(backend);
    let ghost loaded_ghost = loaded;
    assert(call_ensures(load, (backend,), loaded_ghost));
    match loaded {
        Ok(flow) => {
            if let RuntimeBackend::Wgpu = backend {
                match check_wgpu_fit(
                    env,
                    model_stem,
                    flow.resolution,
                    flow.model_channels,
                    flow.mlp_channels,
                ) {
                    Ok(()) => {},
                    Err(msg) => return Err(msg),
                }
            }
            Ok((backend, flow.model))
        },
        Err(e) => match backend {
            RuntimeBackend::Cpu => Err(e),
            RuntimeBackend::Wgpu => {
                let mut out: String =
                    "burn_trellis: failed to load sparse flow runtime on wgpu (".to_owned();
                out.append(e.as_str());
                out.append("); refusing cpu fallback for model '");
                out.append(model_stem);
                out.append("'");
                Err(out)
            },
        },
    }
}

} // verus!
