use burn_trellis::layout::{check_layout, sum_lengths, LayoutFault};
use burn_trellis::rope::{
    dense_grid_token_coords, rope_angles, rope_coord_range, rope_cos_sin_cached, RopeCache,
    RopeCacheKey,
};
use burn_trellis::runtime_access::{
    check_condition_backends, flatten_coords, sparse_tensor_device_from_wgpu_tensors_layout,
    sparse_tensor_from_host_layout, sparse_tensor_from_wgpu_tensors_layout,
    state_host_rows, varlen_tensor_device_from_wgpu_tensor_layout, varlen_tensor_from_host_layout,
    varlen_tensor_from_wgpu_tensor_layout, RuntimeBackend,
};
use burn_trellis::tensors::{DeviceTensor, SparseTensorOwned, VarLenTensorOwned};
use burn_trellis::vae_decoder::{
    decode_tex_attrs_from_host, decode_tex_outputs_from_host, LoadedUnetDecoder,
    SparseUnetVaeDecoderRuntime,
};
use std::ops::Range;
use std::sync::Arc;

type HostRows = VarLenTensorOwned<f32, u32>;
type HostVoxels = SparseTensorOwned<f32, u32, u32>;

#[test]
fn dense_grid_token_coords_follow_dense_voxel_flatten_order() {
    let (values, dims) = dense_grid_token_coords(2);
    assert_eq!(dims, [8, 3]);
    assert_eq!(
        values,
        vec![
            0, 0, 0, 0, 0, 1, 0, 1, 0, 0, 1, 1, 1, 0, 0, 1, 0, 1, 1, 1, 0, 1, 1, 1,
        ]
    );
}

#[test]
fn varlen_device_owned_conversion_requires_device_tensor() {
    let owned = HostRows::from_layout(vec![0.0; 32], vec![0..1], 32)
        .expect("host varlen tensor should build");
    let err = owned
        .as_device_owned("test varlen to device")
        .expect_err("host-only varlen tensor should not convert to device-owned view");
    assert!(
        err.contains("host-only"),
        "expected host-only conversion error, got: {err}"
    );
}

#[test]
fn sparse_device_owned_conversion_requires_device_tensors() {
    let sparse = HostVoxels::from_layout(vec![[0, 0, 0, 0]], vec![0.0; 32], vec![0..1], 32, 8)
        .expect("host sparse tensor should build");
    let err = sparse
        .as_device_owned("test sparse to device")
        .expect_err("host-only sparse tensor should not convert to device-owned view");
    assert!(
        err.contains("host-only"),
        "expected host-only conversion error, got: {err}"
    );
}

#[test]
fn layouts_are_contiguous_or_named() {
    assert_eq!(check_layout(&vec![0..2, 2..2, 2..5]), Ok(5));
    assert_eq!(check_layout(&vec![]), Ok(0));
    assert_eq!(
        check_layout(&vec![0..2, Range { start: 5, end: 2 }]),
        Err(LayoutFault::Reversed { batch: 1, start: 5, end: 2 })
    );
    assert_eq!(
        check_layout(&vec![0..2, 3..5]),
        Err(LayoutFault::Gap { batch: 1, start: 3, expected: 2 })
    );
    assert_eq!(
        LayoutFault::Gap { batch: 1, start: 3, expected: 2 }.message(),
        "varlen tensor layout must be contiguous from row 0; batch 1 starts at 3 but expected 2"
    );
    assert_eq!(
        LayoutFault::Reversed { batch: 1, start: 5, end: 2 }.message(),
        "varlen tensor layout range has start>end at batch 1: 5..2"
    );
    assert_eq!(sum_lengths(&vec![0..2, 2..5]), 5);
}

#[test]
fn row_tensors_name_their_faults() {
    let no_channels = HostRows::from_layout(vec![], vec![], 0).unwrap_err();
    assert_eq!(no_channels, "varlen tensor channels must be > 0");
    let short = HostRows::from_layout(vec![0.0; 5], vec![0..2], 3).unwrap_err();
    assert_eq!(
        short,
        "varlen tensor feature length mismatch: expected 6 (rows=2 channels=3), got 5"
    );
    let huge = HostRows::from_layout(vec![], vec![0..usize::MAX], 2).unwrap_err();
    assert_eq!(huge, "varlen tensor element count overflow");
    let rows = HostRows::from_wgpu_tensor(DeviceTensor { handle: 7, rows: 3, cols: 2 }, vec![0..2])
        .unwrap_err();
    assert_eq!(rows, "varlen tensor layout rows mismatch: layout_rows=2 tensor_rows=3");
}

#[test]
fn voxel_tensors_name_their_faults() {
    let flat = HostVoxels::from_layout(vec![[0; 4]], vec![0.0], vec![0..1], 1, 0).unwrap_err();
    assert_eq!(flat, "sparse tensor resolution must be > 0");
    let rows = HostVoxels::from_layout(vec![[0; 4]], vec![0.0; 2], vec![0..2], 1, 8).unwrap_err();
    assert_eq!(rows, "sparse tensor row mismatch: coords=1 feats_rows=2");
    let batch =
        HostVoxels::from_layout(vec![[0; 4], [0; 4]], vec![0.0; 2], vec![0..1, 1..2], 1, 8)
            .unwrap_err();
    assert_eq!(
        batch,
        "sparse tensor layout/coord batch mismatch at row 1: coord_batch=0 expected=1"
    );
    let values = HostRows::from_layout(vec![0.0; 2], vec![0..2], 1).unwrap();
    let cols = HostVoxels::from_wgpu_tensors(DeviceTensor { handle: 1, rows: 2, cols: 3 }, values, 8)
        .unwrap_err();
    assert_eq!(cols, "sparse tensor coord tensor must have 4 columns, got 3");
    let values = HostRows::from_layout(vec![0.0; 2], vec![0..2], 1).unwrap();
    let rows = HostVoxels::from_wgpu_tensors(DeviceTensor { handle: 1, rows: 3, cols: 4 }, values, 8)
        .unwrap_err();
    assert_eq!(rows, "sparse tensor row mismatch: coords_rows=3 feats_rows=2");
}

#[test]
fn host_tensors_give_back_what_they_hold() {
    let owned = HostRows::from_layout(vec![1.0, 2.0, 3.0, 4.0], vec![0..1, 1..2], 2).unwrap();
    assert_eq!(owned.rows(), 2);
    assert_eq!(owned.channels(), 2);
    assert_eq!(owned.batch_size(), 2);
    assert_eq!(owned.feats_host("rows").unwrap(), vec![1.0, 2.0, 3.0, 4.0]);
    assert!(owned.feats_wgpu().is_none());
    let replaced = owned.replace_feats(vec![9.0, 8.0], 1).unwrap();
    assert_eq!(replaced.feats(), &vec![9.0, 8.0]);
    assert_eq!(replaced.layout(), owned.layout());
    let sparse =
        HostVoxels::from_layout(vec![[0, 1, 2, 3]], vec![1.0, 2.0], vec![0..1], 2, 8).unwrap();
    assert_eq!(sparse.coords(), &vec![[0, 1, 2, 3]]);
    assert_eq!(sparse.sparse_resolution(), 8);
    assert_eq!(state_host_rows(&sparse, 1, 2).unwrap(), &vec![1.0, 2.0]);
}

#[test]
fn device_tensors_keep_their_handles() {
    let feats = DeviceTensor { handle: 7u32, rows: 3, cols: 2 };
    let coords = DeviceTensor { handle: 9u32, rows: 3, cols: 4 };
    let device = sparse_tensor_device_from_wgpu_tensors_layout::<f32, u32, u32>(
        RuntimeBackend::Wgpu,
        coords,
        feats,
        vec![0..1, 1..3],
        16,
    )
    .unwrap();
    assert_eq!(device.coords.handle, 9);
    assert_eq!(device.values.values.handle, 7);
    assert_eq!(device.values.layout.offsets, vec![0, 1]);
    assert_eq!(device.values.layout.lengths, vec![1, 2]);
    assert_eq!(device.values.layout.rows, 3);
    assert_eq!(device.values.channels, 2);
    assert_eq!(device.sparse_resolution, 16);
    let rows = varlen_tensor_device_from_wgpu_tensor_layout::<f32, u32>(
        RuntimeBackend::Wgpu,
        feats,
        vec![0..3],
    )
    .unwrap();
    assert_eq!(rows.rows(), 3);
}

#[test]
fn device_assembly_names_its_faults() {
    let feats = DeviceTensor { handle: 7u32, rows: 3, cols: 2 };
    let coords = DeviceTensor { handle: 9u32, rows: 3, cols: 4 };
    let assemble = |backend, coords, feats| {
        sparse_tensor_from_wgpu_tensors_layout::<f32, u32, u32>(backend, coords, feats, vec![0..3], 8)
            .map(|_| ())
    };
    assert_eq!(
        assemble(RuntimeBackend::Cpu, coords, feats).unwrap_err(),
        "sparse flow wgpu tensor assembly requires wgpu runtime backend"
    );
    assert_eq!(
        assemble(RuntimeBackend::Wgpu, DeviceTensor { handle: 9, rows: 3, cols: 3 }, feats)
            .unwrap_err(),
        "sparse flow coord tensor must have 4 columns, got 3"
    );
    assert_eq!(
        assemble(RuntimeBackend::Wgpu, coords, DeviceTensor { handle: 7, rows: 3, cols: 0 })
            .unwrap_err(),
        "sparse flow feature tensor channels must be > 0"
    );
    assert_eq!(
        assemble(RuntimeBackend::Wgpu, coords, DeviceTensor { handle: 7, rows: 2, cols: 2 })
            .unwrap_err(),
        "sparse flow tensor row mismatch: coords_rows=3 feat_rows=2"
    );
    assert!(assemble(RuntimeBackend::Wgpu, coords, feats).is_ok());
    assert_eq!(
        varlen_tensor_from_wgpu_tensor_layout::<f32, u32>(RuntimeBackend::Cpu, feats, vec![0..3])
            .map(|_| ())
            .unwrap_err(),
        "sparse flow wgpu varlen tensor assembly requires wgpu runtime backend"
    );
}

#[test]
fn host_rows_are_uploaded_on_the_device() {
    let upload_rows = |feats: &Vec<f32>, rows: usize, cols: usize| {
        assert_eq!((rows, cols), (1, 2));
        feats[0] as u32
    };
    let upload_coords = |flat: &Vec<i32>, rows: usize| {
        assert_eq!(rows, 1);
        flat[3] as u32
    };
    let sparse = sparse_tensor_from_host_layout::<f32, u32, u32, _, _>(
        RuntimeBackend::Wgpu,
        vec![[0, 1, 2, 3]],
        vec![5.0, 6.0],
        vec![0..1],
        2,
        8,
        upload_rows,
        upload_coords,
    )
    .unwrap();
    assert_eq!(sparse.values().feats_wgpu().unwrap().handle, 5);
    assert_eq!(sparse.coords_wgpu().unwrap().handle, 3);
    let short = varlen_tensor_from_host_layout::<f32, u32, _>(
        RuntimeBackend::Wgpu,
        vec![1.0],
        vec![0..1],
        2,
        |_feats: &Vec<f32>, _rows: usize, _cols: usize| 0,
    )
    .map(|_| ())
    .unwrap_err();
    assert_eq!(
        short,
        "sparse flow concat host feature length mismatch: expected 2 (rows=1 channels=2), got 1"
    );
    assert_eq!(flatten_coords(&vec![[0, 1, 2, 3]]).unwrap(), vec![0, 1, 2, 3]);
    assert_eq!(
        flatten_coords(&vec![[0; 4], [0, u32::MAX, 0, 0]]).unwrap_err(),
        "sparse flow coord conversion overflow at row 1 value 4294967295"
    );
    assert_eq!(
        check_condition_backends(RuntimeBackend::Cpu, RuntimeBackend::Wgpu, RuntimeBackend::Cpu)
            .unwrap_err(),
        "sparse flow condition backend does not match runtime backend"
    );
}

#[test]
fn rotary_ranges_are_computed_once() {
    let key = RopeCacheKey {
        resolution: 2,
        token_start: 0,
        tokens: 8,
        pairs: 3,
        rope_freq_0_bits: 1,
        rope_freq_1_bits: 2,
    };
    let mut cache: RopeCache<Arc<u32>> = RopeCache::new();
    assert_eq!(*rope_cos_sin_cached(&mut cache, key, || 41), 41);
    assert_eq!(*rope_cos_sin_cached(&mut cache, key, || 42), 41);
    assert_eq!(cache.len(), 1);
    let trivial = RopeCacheKey { tokens: 0, ..key };
    assert_eq!(*rope_cos_sin_cached(&mut cache, trivial, || 43), 43);
    assert_eq!(cache.len(), 1);
    for start in 1..256usize {
        let other = RopeCacheKey { token_start: start, ..key };
        rope_cos_sin_cached(&mut cache, other, || 0);
    }
    assert_eq!(cache.len(), 256);
    rope_cos_sin_cached(&mut cache, RopeCacheKey { token_start: 999, ..key }, || 0);
    assert_eq!(cache.len(), 1, "a full cache is emptied before it grows");
    assert_eq!(rope_angles(2, 0, 8, 3).len(), 24);
    assert_eq!(rope_coord_range(8, 3, 2, 4), 2..6);
}

#[test]
fn texture_decoder_checks_its_outputs() {
    let too_few = SparseUnetVaeDecoderRuntime::from_loaded(LoadedUnetDecoder {
        runtime: (),
        out_channels: 5,
        pred_subdiv: false,
    })
    .unwrap_err();
    assert_eq!(too_few, "sparse unet vae decoder runtime out_channels=5 is below required 6");
    let subdivides = SparseUnetVaeDecoderRuntime::from_loaded(LoadedUnetDecoder {
        runtime: (),
        out_channels: 6,
        pred_subdiv: true,
    })
    .unwrap_err();
    assert_eq!(subdivides, "sparse unet vae decoder runtime expects pred_subdiv=false");
    let decoder = SparseUnetVaeDecoderRuntime::load_from_stem(
        "weights",
        None,
        "tex",
        false,
        |root: &str, large: Option<&str>, stem: &str| {
            assert_eq!((root, large, stem), ("weights", None, "tex"));
            Ok(LoadedUnetDecoder { runtime: 11u8, out_channels: 7, pred_subdiv: false })
        },
    )
    .unwrap();
    assert_eq!(decoder.out_channels(), 7);
    assert_eq!(*decoder.inner(), 11);
}

#[test]
fn texture_rows_become_attributes() {
    let to_attr = |v: f32| v * 0.5 + 0.5;
    let feats: Vec<f32> = vec![-1.0, 0.0, 1.0, -1.0, 0.0, 1.0, 9.0];
    let out = decode_tex_outputs_from_host(vec![[0, 1, 2, 3]], &feats, 7, to_attr).unwrap();
    assert_eq!(out.coords, vec![[0, 1, 2, 3]]);
    assert_eq!(out.attrs, vec![[0.0, 0.5, 1.0, 0.0, 0.5, 1.0]]);
    assert_eq!(
        decode_tex_attrs_from_host(&feats, 7, Some(1), to_attr).unwrap(),
        out.attrs
    );
    assert_eq!(
        decode_tex_outputs_from_host(vec![], &feats, 5, to_attr).map(|_| ()).unwrap_err(),
        "sparse unet vae decoder expected at least 6 channels, got 5"
    );
    assert_eq!(
        decode_tex_outputs_from_host(vec![[0; 4]; 2], &feats, 7, to_attr)
            .map(|_| ())
            .unwrap_err(),
        "tex decoder output feats len 7 does not match rows*out_channels = 14"
    );
    assert_eq!(
        decode_tex_attrs_from_host(&feats, 6, None, to_attr).unwrap_err(),
        "tex decoder feats len 7 is not divisible by out_channels=6"
    );
    assert_eq!(
        decode_tex_attrs_from_host(&feats, 7, Some(2), to_attr).unwrap_err(),
        "tex decoder output row mismatch: expected_rows=2 actual_rows=1"
    );
}
