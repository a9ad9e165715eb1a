//! Loading the weights of a sparse-flow model from one file.
//!
//! Reading files and filling models come as functions; the store between them
//! is built here.
use crate::flow_config::SparseStructureFlowConfig;
use crate::text::lowered;
use crate::weight_store::{
    build_safetensor_store, build_safetensor_store_from_bytes, store_outcome, StoreSource,
};
use crate::weights::{
    candidates_outcome, check_share_mod, extension_of, is_burnpack_name, load_first_candidate,
    override_resolution,
};
use vstd::prelude::*;
use vstd::string::*;

verus! {

/// Form in which a weight file is stored.
#[derive(Clone, Copy, Debug, PartialEq, Eq, Structural)]
pub enum WeightForm {
    /// Burnpack parts that are read one by one.
    ChunkedParts,
    /// A burnpack around one safetensors blob.
    Burnpack,
    /// A safetensors file in memory.
    VirtualSafetensors,
    /// A safetensors file on disk.
    Safetensors,
}

/// A file name is that of a burnpack.
pub open spec fn names_burnpack(file_name: Seq<char>) -> bool {
    extension_of(file_name) matches Some(ext) && lowered(ext) == "bpk"@
}

/// Form in which a weight file is stored.
pub open spec fn weight_form_of(
    file_name: Seq<char>,
    wasm32: bool,
    has_parts_manifest: bool,
    is_virtual: bool,
) -> WeightForm {
    if names_burnpack(file_name) {
        if wasm32 && has_parts_manifest {
            WeightForm::ChunkedParts
        } else {
            WeightForm::Burnpack
        }
    } else if is_virtual {
        WeightForm::VirtualSafetensors
    } else {
        WeightForm::Safetensors
    }
}

/// Form in which a weight file is stored.
pub fn weight_form(
    file_name: &str,
    wasm32: bool,
    has_parts_manifest: bool,
    is_virtual: bool,
) -> (r: WeightForm)
    ensures
        r == weight_form_of(file_name@, wasm32, has_parts_manifest, is_virtual),
{
    if is_burnpack_name(file_name) {
        if wasm32 && has_parts_manifest {
            return WeightForm::ChunkedParts;
        }
        return WeightForm::Burnpack;
    }
    if is_virtual {
        WeightForm::VirtualSafetensors
    } else {
        WeightForm::Safetensors
    }
}

/// What is answered where a model cannot be filled from a file.
pub open spec fn fill_failure_text(form: WeightForm, path: Seq<char>, error: Seq<char>) -> Seq<
    char,
> {
    match form {
        WeightForm::ChunkedParts => "failed to load sparse flow burnpack parts '"@ + path
            + "' on wasm chunked safetensors path: "@ + error,
        WeightForm::Burnpack => "failed to load sparse flow burnpack '"@ + path
            + "' as safetensors blob: "@ + error,
        _ => "failed to load sparse flow safetensors '"@ + path + "': "@ + error,
    }
}

fn fill_failure(form: WeightForm, path: &str, error: &str) -> (r: String)
    ensures
        r@ == fill_failure_text(form, path@, error@),
{
    match form {
        WeightForm::ChunkedParts => {
            let mut out: String = "failed to load sparse flow burnpack parts '".to_owned();
            out.append(path);
            out.append("' on wasm chunked safetensors path: ");
            out.append(error);
            out
        },
        WeightForm::Burnpack => {
            let mut out: String = "failed to load sparse flow burnpack '".to_owned();
            out.append(path);
            out.append("' as safetensors blob: ");
            out.append(error);
            out
        },
        _ => {
            let mut out: String = "failed to load sparse flow safetensors '".to_owned();
            out.append(path);
            out.append("': ");
            out.append(error);
            out
        },
    }
}

/// What is answered where a file in memory cannot be read.
pub open spec fn virtual_read_text(path: Seq<char>, error: Seq<char>) -> Seq<char> {
    "failed to read virtual sparse flow safetensors '"@ + path + "': "@ + error
}

/// Outcome of filling a model from a source by way of a store.
pub open spec fn fill_outcome<M, L>(
    form: WeightForm,
    path: Seq<char>,
    source: StoreSource,
    fill: L,
    out: Result<M, String>,
) -> bool where L: FnOnce(burn_store::SafetensorsStore) -> Result<M, String> {
    exists|store: Result<burn_store::SafetensorsStore, String>| #[trigger]
        store_outcome(source, store) && match store {
            Err(msg) => out == Err::<M, String>(msg),
            Ok(store) => exists|filled: Result<M, String>| #[trigger]
                call_ensures(fill, (store,), filled) && match filled {
                    Ok(model) => out == Ok::<M, String>(model),
                    Err(e) => out matches Err(msg) && msg@ == fill_failure_text(form, path, e@),
                },
        }
}

/// Outcome of loading one weight file.
pub open spec fn weight_load_outcome<M, B, V, C, L>(
    form: WeightForm,
    path: Seq<char>,
    read_blob: B,
    read_virtual: V,
    fill_chunked: C,
    fill: L,
    out: Result<M, String>,
) -> bool where
    B: FnOnce() -> Result<Vec<u8>, String>,
    V: FnOnce() -> Result<Vec<u8>, String>,
    C: FnOnce() -> Result<Result<M, String>, String>,
    L: FnOnce(burn_store::SafetensorsStore) -> Result<M, String>,
 {
    match form {
        WeightForm::ChunkedParts => exists|filled: Result<Result<M, String>, String>| #[trigger]
            call_ensures(fill_chunked, (), filled) && match filled {
                Ok(Ok(model)) => out == Ok::<M, String>(model),
                Ok(Err(e)) => out matches Err(msg) && msg@ == fill_failure_text(form, path, e@),
                Err(e) => out == Err::<M, String>(e),
            },
        WeightForm::Burnpack => exists|blob: Result<Vec<u8>, String>| #[trigger]
            call_ensures(read_blob, (), blob) && match blob {
                Ok(bytes) => fill_outcome(form, path, StoreSource::Bytes(bytes@), fill, out),
                Err(e) => out == Err::<M, String>(e),
            },
        WeightForm::VirtualSafetensors => exists|read: Result<Vec<u8>, String>| #[trigger]
            call_ensures(read_virtual, (), read) && match read {
                Ok(bytes) => fill_outcome(form, path, StoreSource::Bytes(bytes@), fill, out),
                Err(e) => out matches Err(msg) && msg@ == virtual_read_text(path, e@),
            },
        WeightForm::Safetensors => fill_outcome(form, path, StoreSource::File(path), fill, out),
    }
}

fn fill_from<M, L>(
    form: WeightForm,
    path: &str,
    source: Ghost<StoreSource>,
    store: Result<burn_store::SafetensorsStore, String>,
    fill: L,
) -> (r: Result<M, String>) where L: FnOnce(burn_store::SafetensorsStore) -> Result<M, String>
    requires
        store_outcome(source@, store),
        forall|s: burn_store::SafetensorsStore| call_requires(fill, (s,)),
    ensures
        fill_outcome(form, path@, source@, fill, r),
{
    let ghost built = store;
    let store: burn_store::SafetensorsStore = match store {
        Ok(store) => store,
        Err(msg) => {
            let failed: Result<M, String> = Err(msg);
            assert(store_outcome(source@, built));
            return failed;
        },
    };
    let ghost store_ghost = store;
    let filled: Result<M, String> = fill(store);
    let ghost filled_ghost = filled;
    assert(call_ensures(fill, (store_ghost,), filled_ghost));
    match filled {
        Ok(model) => Ok(model),
        Err(e) => Err(fill_failure(form, path, e.as_str())),
    }
}

/// Loads one weight file. The file is given by its name and by its path, which
/// also stands in messages.
///
/// `read_blob` takes the blob out of a burnpack, `read_virtual` reads a file in
/// memory, `fill_chunked` fills a model part by part, and `fill` fills one from
/// a store.
pub fn load_sparse_model_weights<M, B, V, C, L>(
    file_name: &str,
    path: &str,
    wasm32: bool,
    has_parts_manifest: bool,
    is_virtual: bool,
    read_blob: B,
    read_virtual: V,
    fill_chunked: C,
    fill: L,
) -> (r: Result<M, String>) where
    B: FnOnce() -> Result<Vec<u8>, String>,
    V: FnOnce() -> Result<Vec<u8>, String>,
    C: FnOnce() -> Result<Result<M, String>, String>,
    L: FnOnce(burn_store::SafetensorsStore) -> Result<M, String>,

    requires
        ({
            let form = weight_form_of(file_name@, wasm32, has_parts_manifest, is_virtual);
            &&& form is Burnpack ==> call_requires(read_blob, ())
            &&& form is VirtualSafetensors ==> call_requires(read_virtual, ())
            &&& form is ChunkedParts ==> call_requires(fill_chunked, ())
            &&& !(form is ChunkedParts) ==> forall|s: burn_store::SafetensorsStore|
                call_requires(fill, (s,))
        }),
    ensures
        weight_load_outcome(
            weight_form_of(file_name@, wasm32, has_parts_manifest, is_virtual),
            path@,
            read_blob,
            read_virtual,
            fill_chunked,
            fill,
            r,
        ),
{
    let form: WeightForm = weight_form(file_name, wasm32, has_parts_manifest, is_virtual);
    match form {
        WeightForm::ChunkedParts => {
            let filled: Result<Result<M, String>, String> = fill_chunked();
            let ghost filled_ghost = filled;
            assert(call_ensures(fill_chunked, (), filled_ghost));
            match filled {
                Ok(Ok(model)) => Ok(model),
                Ok(Err(e)) => Err(fill_failure(form, path, e.as_str())),
                Err(e) => Err(e),
            }
        },
        WeightForm::Burnpack => {
            let blob: Result<Vec<u8>, String> = read_blob();
            let ghost blob_ghost = blob;
            assert(call_ensures(read_blob, (), blob_ghost));
            match blob {
                Ok(bytes) => {
                    let ghost source = StoreSource::Bytes(bytes@);
                    fill_from(
                        form,
                        path,
                        Ghost(source),
                        build_safetensor_store_from_bytes(bytes),
                        fill,
                    )
                },
                Err(e) => Err(e),
            }
        },
        WeightForm::VirtualSafetensors => {
            let read: Result<Vec<u8>, String> = read_virtual();
            let ghost read_ghost = read;
            assert(call_ensures(read_virtual, (), read_ghost));
            match read {
                Ok(bytes) => {
                    let ghost source = StoreSource::Bytes(bytes@);
                    fill_from(
                        form,
                        path,
                        Ghost(source),
                        build_safetensor_store_from_bytes(bytes),
                        fill,
                    )
                },
                Err(e) => {
                    let mut out: String =
                        "failed to read virtual sparse flow safetensors '".to_owned();
                    out.append(path);
                    out.append("': ");
                    out.append(e.as_str());
                    Err(out)
                },
            }
        },
        WeightForm::Safetensors => fill_from(
            form,
            path,
            Ghost(StoreSource::File(path@)),
            build_safetensor_store(path),
            fill,
        ),
    }
}

// ---------------------------------------------------------------------------
// Models by stem
// ---------------------------------------------------------------------------

/// Why a configuration is not there.
#[derive(Debug)]
pub enum ConfigError {
    /// Its file cannot be read.
    Read(String),
    /// Its file does not parse.
    Parse(String),
}

/// Why the configuration of a model is refused.
pub open spec fn config_fault<F>(
    read: Result<SparseStructureFlowConfig<F>, ConfigError>,
    config_path: Seq<char>,
    resolution_override: Option<usize>,
) -> Option<Seq<char>> {
    match read {
        Err(ConfigError::Read(e)) => Some(
            "failed to read sparse structure flow config '"@ + config_path + "': "@ + e@,
        ),
        Err(ConfigError::Parse(e)) => Some(
            "failed to parse sparse structure flow config json: "@ + e@,
        ),
        Ok(config) => if resolution_override == Some(0usize) {
            Some("sparse flow resolution override must be > 0"@)
        } else if !config.share_mod {
            Some(
                "unsupported sparse structure flow config '"@ + config_path
                    + "': share_mod=false is not yet supported"@,
            )
        } else {
            None
        },
    }
}

/// A configuration with its resolution replaced, where another one is given.
pub open spec fn with_resolution<F>(
    config: SparseStructureFlowConfig<F>,
    resolution_override: Option<usize>,
) -> SparseStructureFlowConfig<F> {
    match resolution_override {
        Some(resolution) => SparseStructureFlowConfig { resolution, ..config },
        None => config,
    }
}

/// Takes the configuration of a model that is read from a file.
pub fn accept_config<F>(
    read: Result<SparseStructureFlowConfig<F>, ConfigError>,
    config_path: &str,
    resolution_override: Option<usize>,
) -> (r: Result<SparseStructureFlowConfig<F>, String>)
    ensures
        match config_fault(read, config_path@, resolution_override) {
            Some(text) => r matches Err(msg) && msg@ == text,
            None => read is Ok && r == Ok::<SparseStructureFlowConfig<F>, String>(
                with_resolution(read->Ok_0, resolution_override),
            ),
        },
{
    let mut config: SparseStructureFlowConfig<F> = match read {
        Ok(config) => config,
        Err(ConfigError::Parse(e)) => {
            let mut out: String = "failed to parse sparse structure flow config json: ".to_owned();
            out.append(e.as_str());
            return Err(out);
        },
        Err(ConfigError::Read(e)) => {
            let mut out: String = "failed to read sparse structure flow config '".to_owned();
            out.append(config_path);
            out.append("': ");
            out.append(e.as_str());
            return Err(out);
        },
    };
    let resolution: usize = match override_resolution(config.resolution, resolution_override) {
        Ok(resolution) => resolution,
        Err(msg) => return Err(msg),
    };
    config.resolution = resolution;
    match check_share_mod(config.share_mod, config_path) {
        Ok(()) => Ok(config),
        Err(msg) => Err(msg),
    }
}

/// Loads a model: its configuration first, then the first weight file that
/// can be loaded with it.
pub fn load_flow_from_stem<F, M, L>(
    model_stem: &str,
    config_path: &str,
    read: Result<SparseStructureFlowConfig<F>, ConfigError>,
    resolution_override: Option<usize>,
    candidates: &Vec<String>,
    load: L,
) -> (r: Result<(SparseStructureFlowConfig<F>, M), String>) where
    L: Fn(&SparseStructureFlowConfig<F>, usize) -> Result<M, String>,

    requires
        forall|c: &SparseStructureFlowConfig<F>, i: usize| call_requires(load, (c, i)),
    ensures
        match config_fault(read, config_path@, resolution_override) {
            Some(text) => r matches Err(msg) && msg@ == text,
            None => {
                let config = with_resolution(read->Ok_0, resolution_override);
                exists|loaded: Result<M, String>| #[trigger]
                    candidates_outcome(model_stem@, candidates@, config, load, loaded)
                        && match loaded {
                        Ok(model) => r == Ok::<(SparseStructureFlowConfig<F>, M), String>(
                            (config, model),
                        ),
                        Err(e) => r == Err::<(SparseStructureFlowConfig<F>, M), String>(e),
                    }
            },
        },
{
    let config: SparseStructureFlowConfig<F> = match accept_config(
        read,
        config_path,
        resolution_override,
    ) {
        Ok(config) => config,
        Err(msg) => return Err(msg),
    };
    let loaded: Result<M, String> = load_first_candidate(model_stem, candidates, &config, &load);
    assert(candidates_outcome(model_stem@, candidates@, config, load, loaded));
    match loaded {
        Ok(model) => Ok((config, model)),
        Err(e) => Err(e),
    }
}

} // verus!
