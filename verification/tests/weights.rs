use burn_store::ModuleStore;
use burn_trellis::policy::{FlowEnv, RuntimeModelDebugConfig};
use burn_trellis::runtime_access::RuntimeBackend;
use burn_trellis::flow_config::SparseStructureFlowConfig;
use burn_trellis::weight_load::{
    load_flow_from_stem, load_sparse_model_weights, weight_form, ConfigError, WeightForm,
};
use burn_trellis::weight_parts::{
    blob_route, burnpack_parts_manifest_name, check_parts_manifest,
    load_blob_bytes_from_burnpack_or_parts, load_blob_bytes_from_burnpack_parts,
    merge_burnpack_parts, part_size_matches, resolve_manifest_part_url, BlobRoute,
    BurnpackPartEntry, BurnpackPartsManifest, ManifestError, PartLocation,
};
use burn_trellis::weight_store::{
    build_safetensor_store, build_safetensor_store_from_bytes, invalid_rule_message,
    key_remap_rules,
};
use burn_trellis::weights::{
    check_share_mod, check_wgpu_fit, is_burnpack_name, load_first_candidate, load_flow_on_backend,
    override_resolution, resolve_model_source_path, resolve_model_weight_candidates,
    weight_candidate_names, with_file_stem_suffix, LoadedFlow, ModelRoot,
};

/// A safetensors file with one-element tensors of the given names.
fn safetensors(names: &[&str]) -> Vec<u8> {
    let mut header = String::from("{");
    for (i, name) in names.iter().enumerate() {
        if i > 0 {
            header.push(',');
        }
        header.push_str(&format!(
            "\"{name}\":{{\"dtype\":\"F32\",\"shape\":[1],\"data_offsets\":[{},{}]}}",
            4 * i,
            4 * i + 4
        ));
    }
    header.push('}');
    while header.len() % 8 != 0 {
        header.push(' ');
    }
    let mut bytes = (header.len() as u64).to_le_bytes().to_vec();
    bytes.extend_from_slice(header.as_bytes());
    for i in 0..names.len() {
        bytes.extend_from_slice(&(i as f32 + 0.5).to_le_bytes());
    }
    bytes
}

#[test]
fn stored_parameters_are_renamed_to_the_models() {
    let bytes = safetensors(&[
        "t_embedder.mlp.0.weight",
        "t_embedder.mlp.2.bias",
        "adaLN_modulation.1.weight",
        "blocks.12.mlp.mlp.0.bias",
        "blocks.12.mlp.mlp.2.weight",
        "blocks.3.norm2.weight",
        "blocks.3.norm2.bias",
        "blocks.3.self_attn.to_qkv.bias",
    ]);
    let mut store = build_safetensor_store_from_bytes(bytes).expect("rules should compile");
    let mut keys = store.keys().expect("safetensors should parse");
    keys.sort();
    assert_eq!(
        keys,
        vec![
            "ada_ln_modulation.weight",
            "blocks.12.mlp.mlp_0.bias",
            "blocks.12.mlp.mlp_2.weight",
            "blocks.3.norm2.beta",
            "blocks.3.norm2.gamma",
            "blocks.3.self_attn.to_qkv.bias",
            "t_embedder.mlp_0.weight",
            "t_embedder.mlp_2.bias",
        ]
    );
}

#[test]
fn stored_values_survive_the_renaming() {
    let bytes = safetensors(&["blocks.3.norm2.weight", "blocks.3.norm2.bias"]);
    let mut store = build_safetensor_store_from_bytes(bytes).expect("rules should compile");
    let snapshot = store
        .get_snapshot("blocks.3.norm2.beta")
        .expect("safetensors should parse")
        .expect("the renamed parameter should be there");
    let data = snapshot.to_data().expect("tensor should read");
    assert_eq!(data.to_vec::<f32>().expect("floats"), vec![1.5]);
}

#[test]
fn broken_files_are_found_when_the_store_reads() {
    let mut store = build_safetensor_store_from_bytes(vec![1, 2, 3]).expect("rules should compile");
    assert!(store.keys().is_err());
}

#[test]
fn missing_files_are_found_when_the_store_reads() {
    let mut store =
        build_safetensor_store("/nonexistent/flow.safetensors").expect("rules should compile");
    let complaint = format!("{:?}", store.keys().expect_err("there is no such file"));
    assert!(complaint.contains("NotFound") || complaint.contains("No such file"), "{complaint}");
}

#[test]
fn renaming_rules_come_in_order() {
    let rules = key_remap_rules();
    assert_eq!(rules.len(), 7);
    assert_eq!(rules[0], (r"^(t_embedder)\.mlp\.0\.(weight|bias)$", "$1.mlp_0.$2"));
    assert_eq!(rules[6], (r"^(blocks\.\d+\.norm2)\.bias$", "$1.beta"));
    assert_eq!(
        invalid_rule_message("(", "x", "unclosed group"),
        "invalid sparse flow remap rule (->x: unclosed group"
    );
}

#[test]
fn model_files_belong_to_a_directory() {
    let own = resolve_model_source_path("ckpts/flow", "json", true);
    assert_eq!((own.root, own.relative.as_str()), (ModelRoot::Weights, "ckpts/flow.json"));
    let large = resolve_model_source_path("org/model/ckpts/flow", "safetensors", true);
    assert_eq!(
        (large.root, large.relative.as_str()),
        (ModelRoot::ImageLarge, "ckpts/flow.safetensors")
    );
    let only = resolve_model_source_path("org/model/ckpts/flow", "json", false);
    assert_eq!((only.root, only.relative.as_str()), (ModelRoot::Weights, "ckpts/flow.json"));
    let plain = resolve_model_source_path("flow", "json", true);
    assert_eq!((plain.root, plain.relative.as_str()), (ModelRoot::Weights, "flow.json"));
}

#[test]
fn weight_files_are_tried_in_order() {
    assert_eq!(
        weight_candidate_names("flow.safetensors"),
        vec!["flow.bpk", "flow_f16.bpk", "flow.safetensors"]
    );
    assert_eq!(resolve_model_weight_candidates(&vec![false, true, true]), vec![1, 2]);
    assert_eq!(with_file_stem_suffix("flow_f16.bpk", "_f16"), "flow_f16.bpk");
    assert!(is_burnpack_name("flow.BPK"));
    assert!(!is_burnpack_name("flow.safetensors"));
}

#[test]
fn the_first_loadable_file_wins() {
    let candidates = vec!["a.bpk".to_string(), "b.bpk".to_string()];
    let loaded = load_first_candidate("flow", &candidates, &10usize, &|base: &usize, i: usize| {
        if i == 0 {
            Err("broken".to_string())
        } else {
            Ok(base + i)
        }
    });
    assert_eq!(loaded, Ok(11));
    let none: Result<usize, String> =
        load_first_candidate("flow", &vec![], &(), &|_c: &(), _i: usize| Ok(0));
    assert_eq!(
        none.unwrap_err(),
        "unable to resolve sparse structure flow weights for stem 'flow'"
    );
    let all: Result<usize, String> =
        load_first_candidate("flow", &candidates, &(), &|_c: &(), i: usize| {
            Err(format!("broken {i}"))
        });
    assert_eq!(
        all.unwrap_err(),
        "failed to load sparse structure flow weights for stem 'flow': b.bpk (broken 1)"
    );
}

fn env(wgpu: bool) -> FlowEnv {
    FlowEnv {
        wgpu,
        wasm32: false,
        debug: RuntimeModelDebugConfig {
            stage_debug: false,
            attention_debug: false,
            sparse_flow_module_attention: true,
            sparse_flow_module_attention_f16: false,
            sparse_flow_linear_f16: false,
            sparse_flow_torso_f16: false,
            sparse_flow_stock_bf16_emulation: false,
            sparse_flow_coord_rope_kernel: true,
            sparse_decoder_conv_f16: false,
        },
        self_attention_f16: false,
        cross_attention_f16: false,
        batched_cfg: false,
    }
}

#[test]
fn models_load_on_the_backend_that_is_asked_for() {
    let load = |backend: RuntimeBackend| {
        Ok(LoadedFlow { model: backend, resolution: 16, model_channels: 8, mlp_channels: 16 })
    };
    assert_eq!(
        load_flow_on_backend(&env(false), false, "flow", load),
        Ok((RuntimeBackend::Cpu, RuntimeBackend::Cpu))
    );
    assert_eq!(
        load_flow_on_backend(&env(true), true, "flow", load),
        Ok((RuntimeBackend::Wgpu, RuntimeBackend::Wgpu))
    );
    assert_eq!(
        load_flow_on_backend(&env(false), true, "flow", load).unwrap_err(),
        "burn_trellis: sparse flow runtime requested wgpu for model 'flow' but crate was built without runtime-model-wgpu"
    );
    let fails = |_backend: RuntimeBackend| -> Result<LoadedFlow<()>, String> { Err("no file".to_string()) };
    assert_eq!(
        load_flow_on_backend(&env(true), true, "flow", fails).unwrap_err(),
        "burn_trellis: failed to load sparse flow runtime on wgpu (no file); refusing cpu fallback for model 'flow'"
    );
    assert_eq!(load_flow_on_backend(&env(true), false, "flow", fails).unwrap_err(), "no file");
}

#[test]
fn configurations_are_checked() {
    assert_eq!(override_resolution(16, None), Ok(16));
    assert_eq!(override_resolution(16, Some(8)), Ok(8));
    assert_eq!(
        override_resolution(16, Some(0)).unwrap_err(),
        "sparse flow resolution override must be > 0"
    );
    assert!(check_share_mod(true, "flow.json").is_ok());
    assert_eq!(
        check_share_mod(false, "flow.json").unwrap_err(),
        "unsupported sparse structure flow config 'flow.json': share_mod=false is not yet supported"
    );
    assert!(check_wgpu_fit(&env(true), "flow", 64, 1536, 8192).is_ok());
    assert_eq!(
        check_wgpu_fit(&env(false), "flow", 64, 1536, 8192).unwrap_err(),
        "burn_trellis: sparse flow wgpu estimated peak exceeds safe budget for model 'flow' (resolution=64, model_channels=1536); refusing cpu fallback"
    );
}

fn manifest(parts: &[(&str, u64)]) -> BurnpackPartsManifest {
    BurnpackPartsManifest {
        source_file: "flow.bpk".to_string(),
        parts: parts
            .iter()
            .map(|(path, bytes)| BurnpackPartEntry { path: path.to_string(), bytes: *bytes })
            .collect(),
    }
}

#[test]
fn manifests_are_checked() {
    assert_eq!(burnpack_parts_manifest_name(Some("flow.bpk")), "flow.bpk.parts.json");
    assert_eq!(burnpack_parts_manifest_name(None), "model.bpk.parts.json");
    let listed = manifest(&[("a", 1)]);
    assert!(check_parts_manifest(&listed, Some("flow.bpk"), "m", "w/flow.bpk").is_ok());
    assert_eq!(
        check_parts_manifest(&listed, Some("other.bpk"), "m", "w/other.bpk").unwrap_err(),
        "burnpack parts manifest 'm' source_file 'flow.bpk' does not match requested 'w/other.bpk'"
    );
    assert_eq!(
        check_parts_manifest(&manifest(&[]), None, "m", "w").unwrap_err(),
        "burnpack parts manifest 'm' contains no parts"
    );
}

#[test]
fn parts_are_routed_and_addressed() {
    assert_eq!(blob_route(false, true, true), BlobRoute::Whole);
    assert_eq!(blob_route(true, true, true), BlobRoute::Parts);
    assert_eq!(blob_route(false, true, false), BlobRoute::Parts);
    assert_eq!(
        resolve_manifest_part_url("https://host/dir/m.json", "sub\\a.part"),
        "https://host/dir/sub/a.part"
    );
    assert_eq!(resolve_manifest_part_url("https://host/dir/m.json", "/a"), "/a");
    assert_eq!(resolve_manifest_part_url("https://host/m.json", "http://x/a"), "http://x/a");
    assert_eq!(resolve_manifest_part_url("m.json", "a"), "a");
    assert!(part_size_matches(0, 9, 9));
    assert!(part_size_matches(100, 356, 9));
    assert!(!part_size_matches(100, 357, 9));
    assert!(part_size_matches(100, 1, 100));
}

fn merge(
    listed: &BurnpackPartsManifest,
    url: Option<&str>,
    on_disk: bool,
    stat: impl Fn(usize) -> Result<u64, String>,
    read: impl Fn(usize) -> Result<Vec<u8>, String>,
    decode: impl Fn(&Vec<u8>) -> Result<Vec<u8>, String>,
) -> Result<Vec<u8>, String> {
    merge_burnpack_parts(
        listed,
        "w/flow.bpk",
        url,
        |i: usize| {
            Ok(PartLocation { shown: format!("w/p{i}"), is_virtual: false, on_disk })
        },
        stat,
        read,
        decode,
    )
}

#[test]
fn parts_are_joined_in_order() {
    let listed = manifest(&[("p0", 3), ("p1", 0)]);
    let merged = merge(
        &listed,
        None,
        true,
        |_i| Ok(3),
        |i| Ok(vec![i as u8; 3]),
        |raw| Ok(raw[1..].to_vec()),
    );
    assert_eq!(merged, Ok(vec![0, 0, 1, 1]));
}

#[test]
fn failing_parts_are_named() {
    let listed = manifest(&[("p0", 3)]);
    let ok = |raw: &Vec<u8>| Ok(raw.clone());
    assert_eq!(
        merge(&listed, None, true, |_i| Err("gone".to_string()), |_i| Ok(vec![]), ok).unwrap_err(),
        "failed to stat burnpack part 'w/p0': gone"
    );
    assert_eq!(
        merge(&listed, None, true, |_i| Ok(3), |_i| Err("denied".to_string()), ok).unwrap_err(),
        "failed to read burnpack part 1/1 'w/p0' for 'w/flow.bpk': denied"
    );
    assert_eq!(
        merge(
            &listed,
            None,
            true,
            |_i| Ok(3),
            |_i| Ok(vec![]),
            |_raw: &Vec<u8>| Err("no blob".to_string())
        )
        .unwrap_err(),
        "failed to decode burnpack part 1/1 'w/p0' for 'w/flow.bpk': no blob"
    );
    assert_eq!(
        merge(&listed, None, true, |_i| Ok(900), |_i| Ok(vec![1]), ok).unwrap_err(),
        "burnpack part 'w/p0' size mismatch: manifest=3 file=900 payload=1"
    );
    let preload = merge(&listed, Some("https://host/m.json"), false, |_i| Ok(3), |_i| Ok(vec![]), ok)
        .unwrap_err();
    assert!(preload.contains("was not preloaded"), "{preload}");
    assert!(preload.contains("source_url=https://host/p0"), "{preload}");
}

fn fill(mut store: burn_store::SafetensorsStore) -> Result<Vec<String>, String> {
    store.keys().map_err(|_err| "not safetensors".to_string())
}

fn load_file(
    file_name: &str,
    wasm32: bool,
    is_virtual: bool,
    blob: Result<Vec<u8>, String>,
    bytes: Result<Vec<u8>, String>,
) -> Result<Vec<String>, String> {
    load_sparse_model_weights(
        file_name,
        "/nonexistent/flow",
        wasm32,
        true,
        is_virtual,
        || blob.clone(),
        || bytes.clone(),
        || Ok(Err("short shard".to_string())),
        fill,
    )
}

#[test]
fn weight_files_are_read_in_their_form() {
    assert_eq!(weight_form("flow.bpk", true, true, false), WeightForm::ChunkedParts);
    assert_eq!(weight_form("flow.bpk", true, false, true), WeightForm::Burnpack);
    assert_eq!(weight_form("flow.st", false, true, true), WeightForm::VirtualSafetensors);
    assert_eq!(weight_form("flow.st", true, true, false), WeightForm::Safetensors);
    let file = safetensors(&["t_embedder.mlp.0.weight"]);
    let keys = vec!["t_embedder.mlp_0.weight".to_string()];
    let none = || Err("unused".to_string());
    assert_eq!(load_file("flow.bpk", false, false, Ok(file.clone()), none()), Ok(keys.clone()));
    assert_eq!(load_file("flow.st", false, true, none(), Ok(file)), Ok(keys));
    assert_eq!(
        load_file("flow.bpk", false, false, Ok(vec![1]), none()).unwrap_err(),
        "failed to load sparse flow burnpack '/nonexistent/flow' as safetensors blob: not safetensors"
    );
    assert_eq!(load_file("flow.bpk", false, false, none(), none()).unwrap_err(), "unused");
    assert_eq!(
        load_file("flow.bpk", true, false, none(), none()).unwrap_err(),
        "failed to load sparse flow burnpack parts '/nonexistent/flow' on wasm chunked safetensors path: short shard"
    );
    assert_eq!(
        load_file("flow.st", false, true, none(), none()).unwrap_err(),
        "failed to read virtual sparse flow safetensors '/nonexistent/flow': unused"
    );
    assert_eq!(
        load_file("flow.st", false, false, none(), none()).unwrap_err(),
        "failed to load sparse flow safetensors '/nonexistent/flow': not safetensors"
    );
}

#[test]
fn models_are_loaded_by_stem() {
    let config = || SparseStructureFlowConfig::with_defaults(4.0f32, [1.0, 10_000.0]);
    let candidates = vec!["a.bpk".to_string()];
    let load = |config: &SparseStructureFlowConfig<f32>, i: usize| Ok(config.resolution + i);
    let (loaded_config, model) =
        load_flow_from_stem("flow", "flow.json", Ok(config()), Some(32), &candidates, load)
            .unwrap();
    assert_eq!((loaded_config.resolution, model), (32, 32));
    let fault = |read, resolution| {
        load_flow_from_stem("flow", "flow.json", read, resolution, &candidates, load)
            .map(|_| ())
            .unwrap_err()
    };
    assert_eq!(
        fault(Err(ConfigError::Read("gone".to_string())), None),
        "failed to read sparse structure flow config 'flow.json': gone"
    );
    assert_eq!(
        fault(Err(ConfigError::Parse("bad json".to_string())), None),
        "failed to parse sparse structure flow config json: bad json"
    );
    assert_eq!(fault(Ok(config()), Some(0)), "sparse flow resolution override must be > 0");
    let mut unshared = config();
    unshared.share_mod = false;
    assert_eq!(
        fault(Ok(unshared), None),
        "unsupported sparse structure flow config 'flow.json': share_mod=false is not yet supported"
    );
}

#[test]
fn weight_files_are_read_whole_or_in_parts() {
    let load = |listed: Result<BurnpackPartsManifest, ManifestError>| {
        load_blob_bytes_from_burnpack_parts(
            &listed,
            Some("flow.bpk"),
            "w/flow.bpk.parts.json",
            "w/flow.bpk",
            None,
            |i: usize| {
                Ok(PartLocation { shown: format!("w/p{i}"), is_virtual: false, on_disk: true })
            },
            |_i: usize| Ok(2),
            |i: usize| Ok(vec![i as u8; 2]),
            |raw: &Vec<u8>| Ok(raw.iter().map(|byte| byte + 1).collect()),
        )
    };
    assert_eq!(load(Ok(manifest(&[("p0", 2), ("p1", 2)]))), Ok(vec![1, 1, 2, 2]));
    assert_eq!(
        load(Err(ManifestError::Read("gone".to_string()))).unwrap_err(),
        "failed to read burnpack parts manifest 'w/flow.bpk.parts.json': gone"
    );
    assert_eq!(
        load(Err(ManifestError::Parse("bad".to_string()))).unwrap_err(),
        "failed to parse burnpack parts manifest 'w/flow.bpk.parts.json': bad"
    );
    assert_eq!(
        load(Ok(manifest(&[]))).unwrap_err(),
        "burnpack parts manifest 'w/flow.bpk.parts.json' contains no parts"
    );

    let route = |wasm32: bool, manifest_exists: bool, burnpack_exists: bool| {
        load_blob_bytes_from_burnpack_or_parts(
            wasm32,
            manifest_exists,
            burnpack_exists,
            || Ok(vec![1]),
            || Err("parts".to_string()),
        )
    };
    assert_eq!(route(false, true, true), Ok(vec![1]));
    assert_eq!(route(true, false, true), Ok(vec![1]));
    assert_eq!(route(true, true, true), Err("parts".to_string()));
    assert_eq!(route(false, false, false), Err("parts".to_string()));
}
