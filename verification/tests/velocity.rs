use burn_trellis::flow_config::SparseStructureFlowConfig;
use burn_trellis::runtime_access::{sample_sparse_rows_with_trace_wgpu_inputs, RuntimeBackend};
use burn_trellis::tensors::{DeviceTensor, SparseTensorOwned, VarLenTensorOwned};
use burn_trellis::velocity::{
    predict_velocity_sparse_tensor_with_cache, predict_velocity_tensor_with_cache,
    predict_velocity_with_condition, prepare_condition, DenseTensor, TokenTensor,
};

fn config() -> SparseStructureFlowConfig<f32> {
    let mut config = SparseStructureFlowConfig::with_defaults(2.0, [1.0, 10_000.0]);
    config.resolution = 2;
    config.in_channels = 3;
    config.out_channels = 2;
    config
}

#[test]
fn conditions_have_whole_tokens() {
    let upload =
        |values: &[u8], tokens: usize, channels: usize| (values.to_vec(), tokens, channels);
    assert_eq!(prepare_condition(&[1, 2, 3, 4], 2, 2, upload), Ok((vec![1, 2, 3, 4], 2, 2)));
    assert_eq!(
        prepare_condition(&[1, 2, 3], 2, 2, upload),
        Err("sparse flow cond length mismatch: expected 4, got 3".to_string())
    );
}

#[test]
fn host_requests_carry_the_concatenated_condition() {
    let forward = |input: Vec<u32>| Ok(vec![input[0], input[16], input.len() as u32]);
    let x_t = vec![7u32; 16];
    let concat = vec![9u32; 8];
    assert_eq!(
        predict_velocity_with_condition(&config(), &x_t, Some(concat.as_slice()), forward),
        Ok(vec![7, 9, 24])
    );
    assert_eq!(
        predict_velocity_with_condition(&config(), &x_t, None, forward),
        Err("sparse flow channel mismatch: state=2 concat=0 expected_in=3".to_string())
    );
    assert_eq!(
        predict_velocity_with_condition(&config(), &x_t[1..], None, forward),
        Err(
            "sparse flow sample length mismatch: sample len 15 is not divisible by voxel count 8"
                .to_string()
        )
    );
}

#[test]
fn dense_states_join_their_condition() {
    let run = |channels: usize, batches: usize| {
        predict_velocity_tensor_with_cache(
            &config(),
            DenseTensor { tensor: "x".to_string(), dims: (2, 2, 2, 2) },
            batches,
            Some(DenseTensor { tensor: "c".to_string(), dims: (channels, 2, 2, 2) }),
            |x: String, c: String| format!("{x}+{c}"),
            |x: String, timesteps: usize| format!("{x} at {timesteps}"),
        )
    };
    assert_eq!(run(1, 3), Ok("x+c at 3".to_string()));
    assert_eq!(run(1, 0), Ok("x+c at 1".to_string()));
    assert_eq!(run(0, 1), Err("concat cond tensor has zero channels".to_string()));
}

#[test]
fn sparse_states_match_their_coordinates() {
    let run = |coords: (usize, usize)| {
        predict_velocity_sparse_tensor_with_cache(
            &config(),
            TokenTensor { tensor: "x".to_string(), dims: (5, 2) },
            2,
            coords,
            Some(TokenTensor { tensor: "c".to_string(), dims: (5, 1) }),
            |x: String, c: String| format!("{x}+{c}"),
            |x: String, timesteps: usize| format!("{x} at {timesteps}"),
        )
    };
    assert_eq!(run((5, 3)), Ok("x+c at 2".to_string()));
    assert_eq!(
        run((5, 4)),
        Err("sparse flow token coord shape mismatch: expected 3 columns, got 4".to_string())
    );
    assert_eq!(
        run((4, 3)),
        Err("sparse flow token coord mismatch: tokens=5 coords=4".to_string())
    );
}

#[test]
fn device_rows_are_assembled_before_sampling() {
    let run = |backend: RuntimeBackend, concat_rows: usize| {
        sample_sparse_rows_with_trace_wgpu_inputs(
            backend,
            DeviceTensor { handle: 'c', rows: 3, cols: 4 },
            DeviceTensor { handle: 'x', rows: 3, cols: 2 },
            Some(DeviceTensor { handle: 'y', rows: concat_rows, cols: 5 }),
            vec![0..1, 1..3],
            16,
            |sparse: &SparseTensorOwned<f32, char, char>,
             concat: Option<&VarLenTensorOwned<f32, char>>| {
                Ok((sparse.rows(), sparse.channels(), concat.map(|rows| rows.channels())))
            },
        )
    };
    assert_eq!(run(RuntimeBackend::Wgpu, 3), Ok((3, 2, Some(5))));
    assert_eq!(
        run(RuntimeBackend::Cpu, 3).unwrap_err(),
        "sparse flow wgpu sparse input tensor assembly failed (sparse flow wgpu tensor assembly requires wgpu runtime backend)"
    );
    assert!(run(RuntimeBackend::Wgpu, 2)
        .unwrap_err()
        .starts_with("sparse flow wgpu concat input tensor assembly failed ("));
}
