use burn_trellis::flags::SamplerStep;
use burn_trellis::flow_config::SparseStructureFlowConfig;
use burn_trellis::sampling::{
    batched_halves, batched_route, euler_steps, guidance_choice, predict_with_cfg,
    predict_with_cfg_sparse, reports_progress, runtime_sample_progress_interval,
    sample_cfg_needs_negative_condition, trace_parts, BatchedCache, Capture, CfgPrediction,
    GuidanceBranch, GuidanceChoice, GuidanceState, TraceParts,
};
use burn_trellis::sampling_checks::{
    check_aggregation, check_condition, check_dense_request, check_dense_sample,
    check_row_sampling, condition_batch_range, merge_dense_input, ConditionDims, DenseSample,
};
use burn_trellis::sampling_runs::{
    sample_final_tensor, sample_sparse_rows_with_trace, sample_with_trace,
};
use burn_trellis::telemetry::{
    host_transfer_stats, reset_host_transfer_stats, HostTransferStats,
};
use burn_trellis::tensors::{SparseTensorOwned, VarLenTensorOwned};
use std::cell::RefCell;

type Voxels = SparseTensorOwned<f32, u32, u32>;

fn tiny_config() -> SparseStructureFlowConfig<f32> {
    let mut config = SparseStructureFlowConfig::with_defaults(2.0, [1.0, 10_000.0]);
    config.resolution = 2;
    config.in_channels = 2;
    config.out_channels = 2;
    config.model_channels = 8;
    config.cond_channels = 4;
    config.num_blocks = 1;
    config.num_heads = Some(2);
    config.num_head_channels = 4;
    config.frequency_embedding_size = 8;
    config
}

fn single(velocity: Vec<f32>) -> Result<CfgPrediction<Vec<f32>>, String> {
    Ok(CfgPrediction { guided: velocity.clone(), pos: Some(velocity), neg: None })
}

fn merged(parts: &TraceParts<Vec<f32>>) -> Vec<f32> {
    let mut all = Vec::new();
    for part in [
        &parts.samples,
        &parts.step_0_pred_v,
        &parts.step_0_pred_v_pos,
        &parts.step_0_pred_v_neg,
        &parts.step_0_x_t,
        &parts.step_mid_x_t,
        &parts.step_last_x_t,
    ] {
        all.extend_from_slice(part);
    }
    for part in parts.step_pred_v.iter().chain(&parts.step_x_t) {
        all.extend_from_slice(part);
    }
    all
}

#[test]
fn sample_trace_uses_single_host_readback_when_capturing_snapshots() {
    let config = tiny_config();
    let voxel = config.resolution * config.resolution * config.resolution;
    let noise = vec![0.0f32; config.out_channels * voxel];
    let mut stats = HostTransferStats::default();
    reset_host_transfer_stats(&mut stats);
    let mut step = None;
    let trace = sample_with_trace(
        &config,
        noise.len(),
        None,
        4,
        2,
        true,
        true,
        &mut step,
        &mut stats,
        |plan: DenseSample| {
            assert_eq!(plan.state_channels, 2);
            (noise.clone(), ())
        },
        |_context: &(), x: &Vec<f32>, step: usize, announced: Option<SamplerStep>| {
            assert_eq!(announced, Some(SamplerStep { step_idx: step, step_count: 4 }));
            single(vec![1.0; x.len()])
        },
        |x: &Vec<f32>, v: &Vec<f32>, _step: usize| -> Vec<f32> {
            x.iter().zip(v).map(|(x, v)| x - 0.25 * v).collect()
        },
        |x: &Vec<f32>| Ok(x.clone()),
        |parts: &TraceParts<Vec<f32>>| Ok(merged(parts)),
    )
    .expect("sample trace");
    assert_eq!(step, None, "the announcement ends with the run");
    let stats = host_transfer_stats(&stats);
    assert_eq!(stats.readback_elements, 15 * 16);
    assert_eq!(
        stats.readback_count, 1,
        "dense trace snapshot capture should use a single merged host readback"
    );
    let expected_len = noise.len();
    assert_eq!(trace.samples.len(), expected_len);
    assert_eq!(trace.step_0_x_t.len(), expected_len);
    assert_eq!(trace.step_mid_x_t.len(), expected_len);
    assert_eq!(trace.step_last_x_t.len(), expected_len);
    assert_eq!(trace.samples, vec![-1.0; 16]);
    assert_eq!(trace.step_0_x_t, vec![-0.25; 16]);
    assert_eq!(trace.step_mid_x_t, vec![-0.75; 16]);
    assert_eq!(trace.step_last_x_t, trace.samples);
    assert_eq!(trace.step_0_pred_v_pos, vec![1.0; 16]);
    assert_eq!(trace.step_0_pred_v_neg, trace.samples, "a missing branch reads as the sample");
    assert_eq!(trace.step_x_t.len(), 4);
    assert_eq!(trace.step_x_t[1], vec![-0.5; 16]);
    assert_eq!(trace.step_pred_v[3], vec![1.0; 16]);
}

struct RowRun {
    trace: burn_trellis::sampling::SparseFlowRowTrace<f32, u32>,
    readbacks: u64,
    items: Vec<(usize, usize, usize)>,
}

fn run_rows(
    sparse: &Voxels,
    cond: ConditionDims,
    row_channels: usize,
    capture: bool,
    materialize: bool,
    keeps_rows: bool,
) -> Result<RowRun, String> {
    let config = tiny_config();
    let channels = config.out_channels;
    let feats = sparse.feats().clone();
    let mut stats = HostTransferStats::default();
    let mut current = None;
    let items = RefCell::new(Vec::new());
    let trace = sample_sparse_rows_with_trace(
        sparse,
        None,
        cond,
        cond,
        config.in_channels,
        config.out_channels,
        row_channels,
        4,
        2,
        capture,
        materialize,
        false,
        &mut current,
        &mut stats,
        |item: usize, start: usize, end: usize| {
            items.borrow_mut().push((item, start, end));
            Ok((feats[start * channels..end * channels].to_vec(), item))
        },
        |item: &usize, x: &Vec<f32>, _step: usize, announced: Option<SamplerStep>| {
            assert_eq!(announced, None);
            single(vec![*item as f32 + 1.0; x.len()])
        },
        |x: &Vec<f32>, v: &Vec<f32>, _step: usize| -> Vec<f32> {
            x.iter().zip(v).map(|(x, v)| x - v).collect()
        },
        |x: &Vec<f32>, _rows: usize| -> Vec<f32> {
            x.chunks(channels).flat_map(|row| row[..row_channels].to_vec()).collect()
        },
        |parts: &Vec<Vec<Vec<f32>>>, k: usize| -> Vec<f32> {
            parts.iter().flat_map(|item| item[k].clone()).collect()
        },
        |rows: &Vec<f32>| rows.len(),
        |rows: &Vec<f32>| if keeps_rows { Some(rows.len() as u32) } else { None },
        |rows: &Vec<f32>| Ok(rows.clone()),
        |parts: &Vec<Vec<f32>>| Ok(parts.concat()),
    )?;
    let readbacks = host_transfer_stats(&stats).readback_count;
    Ok(RowRun { trace, readbacks, items: items.into_inner() })
}

fn one_condition() -> ConditionDims {
    ConditionDims { batches: 1, tokens: 4, channels: 4 }
}

#[test]
fn sample_sparse_rows_trace_uses_single_host_readback_when_capturing_snapshots() {
    let coords = vec![[0u32, 0, 0, 0], [0u32, 1, 0, 0], [0u32, 1, 1, 0]];
    let row_channels = 2usize;
    let noise = vec![0.0f32; 2 * coords.len()];
    let sparse =
        Voxels::from_layout(coords.clone(), noise, vec![0..coords.len()], 2, 2).expect("sparse tensor");
    let run = run_rows(&sparse, one_condition(), row_channels, true, true, false)
        .expect("sample sparse rows with trace");
    assert_eq!(
        run.readbacks, 1,
        "sparse-row trace snapshot capture should use a single merged host readback"
    );
    let expected_len = coords.len() * row_channels;
    assert_eq!(run.trace.samples.len(), expected_len);
    assert_eq!(run.trace.step_0_x_t.len(), expected_len);
    assert_eq!(run.trace.step_mid_x_t.len(), expected_len);
    assert_eq!(run.trace.step_last_x_t.len(), expected_len);
    assert!(
        run.trace.device.samples.is_none(),
        "cpu sparse-flow trace should not populate wgpu samples tensor"
    );
    assert!(
        run.trace.device.step_0_x_t.is_none()
            && run.trace.device.step_mid_x_t.is_none()
            && run.trace.device.step_last_x_t.is_none(),
        "cpu sparse-flow trace should not populate wgpu snapshot tensors"
    );
    assert_eq!(run.trace.samples, vec![-4.0; 6]);
    assert_eq!(run.trace.step_mid_x_t, vec![-3.0; 6]);
}

#[test]
fn sample_sparse_rows_trace_batched_uses_single_host_readback_when_capturing_snapshots() {
    let coords = vec![
        [0u32, 0, 0, 0],
        [0u32, 1, 0, 0],
        [1u32, 0, 0, 0],
        [1u32, 1, 0, 0],
    ];
    let row_channels = 2usize;
    let noise = vec![0.0f32; 2 * coords.len()];
    let sparse =
        Voxels::from_layout(coords.clone(), noise, vec![0..2, 2..4], 2, 2).expect("sparse tensor");
    let run = run_rows(&sparse, one_condition(), row_channels, true, true, false)
        .expect("sample sparse rows with trace");
    assert_eq!(
        run.readbacks, 1,
        "batched sparse-row trace snapshot capture should use a single merged host readback"
    );
    let expected_len = coords.len() * row_channels;
    assert_eq!(run.trace.samples.len(), expected_len);
    assert_eq!(run.trace.step_0_x_t.len(), expected_len);
    assert_eq!(run.trace.step_mid_x_t.len(), expected_len);
    assert_eq!(run.trace.step_last_x_t.len(), expected_len);
    assert_eq!(run.items, vec![(0, 0, 2), (1, 2, 4)]);
    assert_eq!(run.trace.samples, vec![-4.0, -4.0, -4.0, -4.0, -8.0, -8.0, -8.0, -8.0]);
}

#[test]
fn device_rows_stay_on_the_device() {
    let sparse =
        Voxels::from_layout(vec![[0; 4], [1, 0, 0, 0]], vec![0.0; 4], vec![0..1, 1..1, 1..2], 2, 2);
    assert_eq!(
        sparse.map(|_| ()).unwrap_err(),
        "sparse tensor layout/coord batch mismatch at row 1: coord_batch=1 expected=2"
    );
    let sparse =
        Voxels::from_layout(vec![[0; 4], [2, 0, 0, 0]], vec![0.0; 4], vec![0..1, 1..1, 1..2], 2, 2)
            .unwrap();
    let run = run_rows(&sparse, one_condition(), 1, false, false, true).unwrap();
    assert_eq!(run.items, vec![(0, 0, 1), (2, 1, 2)], "empty batch items are passed over");
    assert_eq!(run.readbacks, 0);
    assert!(run.trace.samples.is_empty());
    assert_eq!(run.trace.device.samples, Some(2));
    assert_eq!(run.trace.device.step_last_x_t, Some(2));
    let run = run_rows(&sparse, one_condition(), 1, false, true, true).unwrap();
    assert_eq!(run.readbacks, 1);
    assert_eq!(run.trace.samples, vec![-4.0, -12.0]);
    assert_eq!(run.trace.step_0_x_t, run.trace.samples);
    let run = run_rows(&sparse, one_condition(), 0, true, true, true).unwrap();
    assert_eq!(run.trace.row_channels, 0);
    assert!(run.items.is_empty(), "without a channel to return nothing is sampled");
}

#[test]
fn row_sampling_names_its_faults() {
    let sparse = Voxels::from_layout(vec![[0; 4]], vec![0.0; 2], vec![0..1], 2, 2).unwrap();
    let check = |concat: Option<&VarLenTensorOwned<f32, u32>>, cond, neg, inputs, outputs| {
        check_row_sampling(&sparse, concat, cond, neg, inputs, outputs, 2).map(|_| ()).unwrap_err()
    };
    let one = one_condition();
    assert_eq!(
        check(None, one, one, 2, 3),
        "sparse flow state/output mismatch: state=2 expected_out=3"
    );
    assert_eq!(
        check(None, one, one, 5, 2),
        "sparse flow channel mismatch: state=2 concat=0 expected_in=5"
    );
    let rows = VarLenTensorOwned::from_layout(vec![0.0; 6], vec![0..2], 3).unwrap();
    assert_eq!(
        check(Some(&rows), one, one, 5, 2),
        "sparse flow row concat cond row mismatch: rows=2 sparse_rows=1"
    );
    let rows = VarLenTensorOwned::from_layout(vec![0.0; 3], vec![0..0, 0..1], 3).unwrap();
    assert_eq!(
        check(Some(&rows), one, one, 5, 2),
        "sparse flow concat tensor layout does not match sparse tensor layout"
    );
    assert_eq!(
        check(None, one, ConditionDims { batches: 1, tokens: 5, channels: 4 }, 2, 2),
        "sparse flow negative condition shape mismatch: cond=[1,4,4] neg=[1,5,4]"
    );
    let two = ConditionDims { batches: 2, tokens: 4, channels: 4 };
    assert_eq!(
        check(None, two, one, 2, 2),
        "sparse flow condition batch mismatch: cond_batches=2 sparse_batches=1"
    );
    assert_eq!(
        check(None, one, two, 2, 2),
        "sparse flow negative condition batch mismatch: neg_batches=2 sparse_batches=1"
    );
    assert_eq!(
        check_aggregation("samples", 0, 0, 4).unwrap_err(),
        "sparse flow samples aggregation produced no batch tensors"
    );
    assert_eq!(
        check_aggregation("samples", 1, 3, 4).unwrap_err(),
        "sparse flow samples aggregation element mismatch: got=3 expected=4"
    );
    assert_eq!(condition_batch_range(1, 3, "condition"), Ok(0..1));
    assert_eq!(condition_batch_range(4, 3, "condition"), Ok(3..4));
    assert_eq!(
        condition_batch_range(2, 3, "negative condition").unwrap_err(),
        "sparse flow negative condition batch selection out of range: idx=3 batches=2"
    );
}

#[test]
fn dense_shapes_name_their_faults() {
    let fault = |resolution, len, concat, inputs, outputs| {
        check_dense_sample(resolution, len, concat, inputs, outputs).unwrap_err()
    };
    assert_eq!(fault(0, 8, None, 1, 1), "sparse flow resolution produced zero voxels");
    assert_eq!(
        fault(2, 9, None, 1, 1),
        "sparse flow sample length mismatch: sample len 9 is not divisible by voxel count 8"
    );
    assert_eq!(
        fault(2, 16, None, 2, 3),
        "sparse flow state/output mismatch: state=2 expected_out=3"
    );
    assert_eq!(
        fault(2, 16, Some(8), 2, 2),
        "sparse flow channel mismatch: state=2 concat=1 expected_in=2"
    );
    assert_eq!(
        fault(2, 16, Some(9), 3, 2),
        "sparse flow concat cond length mismatch: len 9 is not divisible by voxel count 8"
    );
    let plan = check_dense_sample(2, 16, Some(8), 3, 2).unwrap();
    assert_eq!((plan.voxel, plan.state_channels, plan.concat_channels), (8, 2, 1));
    assert!(check_dense_request(2, 16, Some(8), 3, 2).is_ok());
    assert_eq!(merge_dense_input(&[1, 2], Some(&[3])), vec![1, 2, 3]);
    assert!(check_condition(16, 4, 4).is_ok());
    assert!(check_condition(15, 4, 4).is_err());
}

#[test]
fn failing_predictions_end_a_run() {
    let config = tiny_config();
    let mut current = Some(SamplerStep { step_idx: 9, step_count: 10 });
    let out = sample_final_tensor(
        &config,
        16,
        None,
        4,
        true,
        &mut current,
        |_plan: DenseSample| (vec![0.0f32; 16], ()),
        |_context: &(), x: &Vec<f32>, step: usize, _announced: Option<SamplerStep>| {
            if step == 2 {
                Err("device lost".to_string())
            } else {
                single(x.clone())
            }
        },
        |x: &Vec<f32>, _v: &Vec<f32>, _step: usize| x.clone(),
    );
    assert_eq!(out, Err("device lost".to_string()));
    assert_eq!(current, None, "a failing run ends its announcement too");
}

#[test]
fn guidance_asks_for_the_branches_it_needs() {
    let state = |in_interval, one, zero| GuidanceState {
        in_interval,
        strength_is_one: one,
        strength_is_zero: zero,
    };
    assert_eq!(guidance_choice(state(false, false, true)), GuidanceChoice::Positive);
    assert_eq!(guidance_choice(state(true, true, false)), GuidanceChoice::Positive);
    assert_eq!(guidance_choice(state(true, false, true)), GuidanceChoice::Negative);
    assert_eq!(guidance_choice(state(true, false, false)), GuidanceChoice::Both);
    assert!(sample_cfg_needs_negative_condition(false, &vec![false, true]));
    assert!(!sample_cfg_needs_negative_condition(true, &vec![false, true]));
    assert!(!sample_cfg_needs_negative_condition(false, &vec![false, false]));
    let both = predict_with_cfg_sparse(
        state(true, false, false),
        Some(BatchedCache::Stacked),
        |_branch: GuidanceBranch| Err("branches run as one batch".to_string()),
        |cache: BatchedCache| {
            assert_eq!(cache, BatchedCache::Stacked);
            Ok((3, 5))
        },
        |pos: &i32, neg: &i32| 10 * pos + neg,
    )
    .unwrap();
    assert_eq!((both.guided, both.pos, both.neg), (35, Some(3), Some(5)));
    let failed = predict_with_cfg(
        state(true, false, false),
        |branch: GuidanceBranch| {
            if branch == GuidanceBranch::Negative {
                Err("no negative".to_string())
            } else {
                Ok(1)
            }
        },
        |pos: &i32, _neg: &i32| *pos,
    );
    assert_eq!(failed.map(|p| p.guided), Err("no negative".to_string()));
}

#[test]
fn batched_guidance_is_routed_by_its_caches() {
    assert_eq!(batched_route(false, true, true, true, true), None);
    assert_eq!(batched_route(true, true, true, true, false), Some(BatchedCache::Given));
    assert_eq!(batched_route(true, true, true, false, true), Some(BatchedCache::Joined));
    assert_eq!(batched_route(true, false, false, false, false), Some(BatchedCache::Stacked));
    assert_eq!(batched_route(true, true, false, false, false), None);
    assert_eq!(batched_halves(3), (0..3, 3..6));
}

#[test]
fn progress_is_reported_at_intervals() {
    assert_eq!(runtime_sample_progress_interval(16), 1);
    assert_eq!(runtime_sample_progress_interval(50), 6);
    assert!(reports_progress(5, 50));
    assert!(!reports_progress(6, 50));
    assert!(reports_progress(49, 50));
}

#[test]
fn a_run_without_snapshots_reads_as_the_sample() {
    let run = euler_steps(
        &(),
        1i32,
        3,
        1,
        Capture::Off,
        false,
        &mut None,
        &|_c: &(), x: &i32, _i: usize, _announced: Option<SamplerStep>| {
            Ok(CfgPrediction { guided: *x, pos: Some(*x), neg: None })
        },
        &|x: &i32, v: &i32, _i: usize| x + v,
    )
    .unwrap();
    assert_eq!(run.samples, 8);
    let parts = trace_parts(run);
    assert_eq!(parts.step_0_x_t, 8);
    assert_eq!(parts.step_0_pred_v, 8);
    assert!(parts.step_x_t.is_empty());
}
