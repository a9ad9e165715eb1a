//! Whole sampler runs: check the shapes, walk the steps, read the trace back.
//!
//! Tensors have any type `T`; what is done with them comes as functions.
use crate::flags::{step_after_run, SamplerStep, StepNotice};
use crate::flow_config::SparseStructureFlowConfig;
use crate::layout::layout_rows;
use crate::sampling::{
    euler_outcome, euler_steps, host_rows_required, is_plain_trace, is_split_trace,
    lemma_nonempty_prefix, nonempty_batches, parts_of_run, plain_dense_trace, split_dense_trace,
    trace_parts, Capture, CfgPrediction, EulerRun, FlowEulerSampleTrace, RowTraceDevice,
    SparseFlowRowTrace, TraceParts,
};
use crate::sampling_checks::{
    aggregation_text, check_aggregation, check_dense_sample, check_row_sampling,
    concat_channels_of, dense_sample_fault, row_sampling_fault, ConditionDims, DenseSample,
    RowSampling,
};
use crate::arith::{imax, imin, max_usize, sat};
use crate::telemetry::{record_host_readback, wrapping_sum, HostTransferStats};
use crate::tensors::{SparseTensorOwned, VarLenTensorOwned};
use core::ops::Range;
use vstd::prelude::*;

verus! {

// ---------------------------------------------------------------------------
// Dense grids
// ---------------------------------------------------------------------------

/// Shape of a dense sample that is accepted.
pub open spec fn dense_plan_of<F>(
    config: SparseStructureFlowConfig<F>,
    concat_len: Option<usize>,
) -> DenseSample {
    let voxel = config.resolution * config.resolution * config.resolution;
    DenseSample {
        voxel: voxel as usize,
        state_channels: config.out_channels,
        concat_channels: concat_channels_of(concat_len, voxel) as usize,
    }
}

/// Outcome of reading a dense run back: all parts in one piece where snapshots
/// were captured, the sample alone otherwise.
pub open spec fn dense_readback<T: Clone, F, Q, M>(
    run: EulerRun<T>,
    capture_snapshots: bool,
    steps: usize,
    segment: int,
    read: Q,
    read_merged: M,
    out: Result<FlowEulerSampleTrace<F>, String>,
) -> bool where
    Q: FnOnce(&T) -> Result<Vec<F>, String>,
    M: FnOnce(&TraceParts<T>) -> Result<Vec<F>, String>,
 {
    if capture_snapshots {
        exists|parts: TraceParts<T>, merged: Result<Vec<F>, String>|
            parts_of_run(run, parts) && #[trigger] call_ensures(read_merged, (&parts,), merged)
                && match merged {
                Ok(values) => out matches Ok(trace) && is_split_trace(
                    trace,
                    steps,
                    values@,
                    segment,
                    run.preds@.len() as int,
                    run.states@.len() as int,
                ),
                Err(e) => out == Err::<FlowEulerSampleTrace<F>, String>(e),
            }
    } else {
        exists|samples: Result<Vec<F>, String>| #[trigger]
            call_ensures(read, (&run.samples,), samples) && match samples {
                Ok(values) => out matches Ok(trace) && is_plain_trace(trace, steps, values@),
                Err(e) => out == Err::<FlowEulerSampleTrace<F>, String>(e),
            }
    }
}

/// One readback of `elements` numbers was counted, and no other.
pub open spec fn read_back_once(
    before: HostTransferStats,
    after: HostTransferStats,
    elements: int,
) -> bool {
    &&& after.readback_count == wrapping_sum(before.readback_count, 1)
    &&& after.readback_elements == wrapping_sum(before.readback_elements, elements as usize as u64)
}

/// Numbers that the readback of a dense run is counted with: those of all
/// parts, or those of the sample, of which there are at least `values`.
pub open spec fn dense_read_elements(
    segment: int,
    steps: int,
    capture_snapshots: bool,
    values: int,
) -> int {
    if capture_snapshots {
        (7 + 2 * steps) * segment
    } else {
        imax(segment, values)
    }
}

/// Which snapshots a dense run keeps.
pub open spec fn dense_capture(capture_snapshots: bool) -> Capture {
    if capture_snapshots {
        Capture::All
    } else {
        Capture::Off
    }
}

/// Outcome of an accepted dense run that began with a state and a context.
pub open spec fn dense_run_outcome<X, T: Clone, F, P, A, Q, M>(
    begun: (T, X),
    steps: usize,
    mid_step: usize,
    capture_snapshots: bool,
    segment: int,
    notice: StepNotice,
    predict: P,
    advance: A,
    read: Q,
    read_merged: M,
    out: Result<FlowEulerSampleTrace<F>, String>,
) -> bool where
    P: Fn(&X, &T, usize, Option<SamplerStep>) -> Result<CfgPrediction<T>, String>,
    A: Fn(&T, &T, usize) -> T,
    Q: FnOnce(&T) -> Result<Vec<F>, String>,
    M: FnOnce(&TraceParts<T>) -> Result<Vec<F>, String>,
 {
    exists|run: Result<EulerRun<T>, String>| #[trigger]
        euler_outcome(
            begun.1,
            begun.0,
            steps,
            mid_step,
            dense_capture(capture_snapshots),
            notice,
            predict,
            advance,
            run,
        ) && match run {
            Ok(run) => dense_readback(
                run,
                capture_snapshots,
                steps,
                segment,
                read,
                read_merged,
                out,
            ),
            Err(e) => out == Err::<FlowEulerSampleTrace<F>, String>(e),
        }
}

/// Samples a dense grid and reads the trace back.
///
/// `begin` uploads the first state and what predictions need besides;
/// `read_merged` reads all parts in one piece, one after the other.
pub fn sample_with_trace<X, T: Clone, F: Copy, B, P, A, Q, M>(
    config: &SparseStructureFlowConfig<F>,
    noise_len: usize,
    concat_len: Option<usize>,
    steps: usize,
    mid_step: usize,
    capture_snapshots: bool,
    wgpu: bool,
    current: &mut Option<SamplerStep>,
    stats: &mut HostTransferStats,
    begin: B,
    predict: P,
    advance: A,
    read: Q,
    read_merged: M,
) -> (r: Result<FlowEulerSampleTrace<F>, String>) where
    B: Fn(DenseSample) -> (T, X),
    P: Fn(&X, &T, usize, Option<SamplerStep>) -> Result<CfgPrediction<T>, String>,
    A: Fn(&T, &T, usize) -> T,
    Q: FnOnce(&T) -> Result<Vec<F>, String>,
    M: FnOnce(&TraceParts<T>) -> Result<Vec<F>, String>,

    requires
        config.resolution * config.resolution * config.resolution <= usize::MAX,
        7 + 2 * steps <= usize::MAX,
        forall|plan: DenseSample| call_requires(begin, (plan,)),
        forall|c: &X, x: &T, i: usize, s: Option<SamplerStep>|
            call_requires(predict, (c, x, i, s)),
        forall|x: &T, v: &T, i: usize| call_requires(advance, (x, v, i)),
        !capture_snapshots ==> forall|x: &T| call_requires(read, (x,)),
        capture_snapshots ==> forall|parts: &TraceParts<T>| call_requires(read_merged, (parts,)),
        forall|parts: &TraceParts<T>, values: Vec<F>| #[trigger]
            call_ensures(read_merged, (parts,), Ok::<Vec<F>, String>(values)) ==> values@.len() == (
            7 + parts.step_pred_v@.len() + parts.step_x_t@.len()) * noise_len,
    ensures
        match dense_sample_fault(
            config.resolution as int,
            noise_len as int,
            concat_len,
            config.in_channels as int,
            config.out_channels as int,
        ) {
            Some(text) => r matches Err(msg) && msg@ == text,
            None => exists|begun: (T, X)| #[trigger]
                call_ensures(begin, (dense_plan_of(*config, concat_len),), begun)
                    && dense_run_outcome(
                    begun,
                    steps,
                    mid_step,
                    capture_snapshots,
                    noise_len as int,
                    StepNotice::of(wgpu, *old(current), steps),
                    predict,
                    advance,
                    read,
                    read_merged,
                    r,
                ),
        },
        match r {
            Ok(trace) => read_back_once(
                *old(stats),
                *final(stats),
                dense_read_elements(
                    noise_len as int,
                    steps as int,
                    capture_snapshots,
                    trace.samples@.len() as int,
                ),
            ),
            Err(_) => *final(stats) == *old(stats),
        },
        dense_sample_fault(
            config.resolution as int,
            noise_len as int,
            concat_len,
            config.in_channels as int,
            config.out_channels as int,
        ) is None ==> *final(current) == step_after_run(wgpu, *old(current)),
        dense_sample_fault(
            config.resolution as int,
            noise_len as int,
            concat_len,
            config.in_channels as int,
            config.out_channels as int,
        ) is Some ==> *final(current) == *old(current),
{
    let ghost notice = StepNotice::of(wgpu, *current, steps);
    let plan: DenseSample = match check_dense_sample(
        config.resolution,
        noise_len,
        concat_len,
        config.in_channels,
        config.out_channels,
    ) {
        Ok(plan) => plan,
        Err(msg) => return Err(msg),
    };
    assert(plan == dense_plan_of(*config, concat_len));
    let begun: (T, X) = begin(plan);
    let ghost begun_ghost = begun;
    let (x0, context): (T, X) = begun;
    let capture: Capture = if capture_snapshots {
        Capture::All
    } else {
        Capture::Off
    };
    let run: Result<EulerRun<T>, String> = euler_steps(
        &context,
        x0,
        steps,
        mid_step,
        capture,
        wgpu,
        current,
        &predict,
        &advance,
    );
    assert(call_ensures(begin, (dense_plan_of(*config, concat_len),), begun_ghost));
    assert(euler_outcome(
        begun_ghost.1,
        begun_ghost.0,
        steps,
        mid_step,
        dense_capture(capture_snapshots),
        notice,
        predict,
        advance,
        run,
    ));
    let run: EulerRun<T> = match run {
        Ok(run) => run,
        Err(e) => {
            let failed: Result<FlowEulerSampleTrace<F>, String> = Err(e);
            assert(dense_run_outcome(
                begun_ghost,
                steps,
                mid_step,
                capture_snapshots,
                noise_len as int,
                notice,
                predict,
                advance,
                read,
                read_merged,
                failed,
            ));
            return failed;
        },
    };
    let ghost run_ghost = run;
    let out: Result<FlowEulerSampleTrace<F>, String> = if capture_snapshots {
        let pred_count: usize = run.preds.len();
        let state_count: usize = run.states.len();
        assert(pred_count == steps && state_count == steps);
        let parts: TraceParts<T> = trace_parts(run);
        let merged: Result<Vec<F>, String> = read_merged(&parts);
        let ghost merged_ghost = merged;
        let out: Result<FlowEulerSampleTrace<F>, String> = match merged {
            Ok(values) => {
                record_host_readback(stats, values.len());
                Ok(split_dense_trace(steps, &values, noise_len, pred_count, state_count))
            },
            Err(e) => Err(e),
        };
        assert(call_ensures(read_merged, (&parts,), merged_ghost));
        out
    } else {
        let samples: Result<Vec<F>, String> = read(&run.samples);
        let ghost samples_ghost = samples;
        let out: Result<FlowEulerSampleTrace<F>, String> = match samples {
            Ok(values) => {
                record_host_readback(stats, max_usize(noise_len, values.len()));
                Ok(plain_dense_trace(steps, values))
            },
            Err(e) => Err(e),
        };
        assert(call_ensures(read, (&run_ghost.samples,), samples_ghost));
        out
    };
    assert(dense_readback(
        run_ghost,
        capture_snapshots,
        steps,
        noise_len as int,
        read,
        read_merged,
        out,
    ));
    out
}

/// Outcome of an accepted run that keeps the sample on the device.
pub open spec fn final_run_outcome<X, T: Clone, P, A>(
    begun: (T, X),
    steps: usize,
    notice: StepNotice,
    predict: P,
    advance: A,
    out: Result<T, String>,
) -> bool where
    P: Fn(&X, &T, usize, Option<SamplerStep>) -> Result<CfgPrediction<T>, String>,
    A: Fn(&T, &T, usize) -> T,
 {
    exists|run: Result<EulerRun<T>, String>| #[trigger]
        euler_outcome(begun.1, begun.0, steps, 0, Capture::Off, notice, predict, advance, run)
            && match run {
            Ok(run) => out == Ok::<T, String>(run.samples),
            Err(e) => out == Err::<T, String>(e),
        }
}

/// Samples a dense grid and keeps the sample on the device.
pub fn sample_final_tensor<X, T: Clone, F: Copy, B, P, A>(
    config: &SparseStructureFlowConfig<F>,
    noise_len: usize,
    concat_len: Option<usize>,
    steps: usize,
    wgpu: bool,
    current: &mut Option<SamplerStep>,
    begin: B,
    predict: P,
    advance: A,
) -> (r: Result<T, String>) where
    B: Fn(DenseSample) -> (T, X),
    P: Fn(&X, &T, usize, Option<SamplerStep>) -> Result<CfgPrediction<T>, String>,
    A: Fn(&T, &T, usize) -> T,

    requires
        config.resolution * config.resolution * config.resolution <= usize::MAX,
        forall|plan: DenseSample| call_requires(begin, (plan,)),
        forall|c: &X, x: &T, i: usize, s: Option<SamplerStep>|
            call_requires(predict, (c, x, i, s)),
        forall|x: &T, v: &T, i: usize| call_requires(advance, (x, v, i)),
    ensures
        match dense_sample_fault(
            config.resolution as int,
            noise_len as int,
            concat_len,
            config.in_channels as int,
            config.out_channels as int,
        ) {
            Some(text) => r matches Err(msg) && msg@ == text,
            None => exists|begun: (T, X)| #[trigger]
                call_ensures(begin, (dense_plan_of(*config, concat_len),), begun)
                    && final_run_outcome(
                    begun,
                    steps,
                    StepNotice::of(wgpu, *old(current), steps),
                    predict,
                    advance,
                    r,
                ),
        },
        dense_sample_fault(
            config.resolution as int,
            noise_len as int,
            concat_len,
            config.in_channels as int,
            config.out_channels as int,
        ) is None ==> *final(current) == step_after_run(wgpu, *old(current)),
        dense_sample_fault(
            config.resolution as int,
            noise_len as int,
            concat_len,
            config.in_channels as int,
            config.out_channels as int,
        ) is Some ==> *final(current) == *old(current),
{
    let ghost notice = StepNotice::of(wgpu, *current, steps);
    let plan: DenseSample = match check_dense_sample(
        config.resolution,
        noise_len,
        concat_len,
        config.in_channels,
        config.out_channels,
    ) {
        Ok(plan) => plan,
        Err(msg) => return Err(msg),
    };
    assert(plan == dense_plan_of(*config, concat_len));
    let begun: (T, X) = begin(plan);
    let ghost begun_ghost = begun;
    let (x0, context): (T, X) = begun;
    let run: Result<EulerRun<T>, String> = euler_steps(
        &context,
        x0,
        steps,
        0,
        Capture::Off,
        wgpu,
        current,
        &predict,
        &advance,
    );
    assert(call_ensures(begin, (dense_plan_of(*config, concat_len),), begun_ghost));
    let ghost run_ghost = run;
    let out: Result<T, String> = match run {
        Ok(run) => Ok(run.samples),
        Err(e) => Err(e),
    };
    assert(euler_outcome(
        begun_ghost.1,
        begun_ghost.0,
        steps,
        0,
        Capture::Off,
        notice,
        predict,
        advance,
        run_ghost,
    ));
    out
}

// ---------------------------------------------------------------------------
// Sparse rows
// ---------------------------------------------------------------------------

/// Parts that the trace of sparse rows has.
pub const ROW_TRACE_PARTS: usize = 7;

/// Names of the parts, in order.
pub open spec fn part_label(k: int) -> Seq<char> {
    if k == 0 {
        "samples"@
    } else if k == 1 {
        "step_0_pred_v"@
    } else if k == 2 {
        "step_0_pred_v_pos"@
    } else if k == 3 {
        "step_0_pred_v_neg"@
    } else if k == 4 {
        "step_0_x_t"@
    } else if k == 5 {
        "step_mid_x_t"@
    } else {
        "step_last_x_t"@
    }
}

fn label(k: usize) -> (r: &'static str)
    ensures
        r@ == part_label(k as int),
{
    if k == 0 {
        "samples"
    } else if k == 1 {
        "step_0_pred_v"
    } else if k == 2 {
        "step_0_pred_v_pos"
    } else if k == 3 {
        "step_0_pred_v_neg"
    } else if k == 4 {
        "step_0_x_t"
    } else if k == 5 {
        "step_mid_x_t"
    } else {
        "step_last_x_t"
    }
}

/// Which snapshots a row run keeps.
pub open spec fn row_capture(capture_snapshots: bool) -> Capture {
    if capture_snapshots {
        Capture::Ends
    } else {
        Capture::Off
    }
}

/// Number of parts that are kept of a row run.
pub open spec fn part_count(capture_snapshots: bool) -> int {
    if capture_snapshots {
        7
    } else {
        1
    }
}

/// `out` are the parts of a run as rows.
pub open spec fn rows_of_run<T: Clone, B, R>(
    run: EulerRun<T>,
    capture_snapshots: bool,
    rows: R,
    row_count: usize,
    out: Seq<B>,
) -> bool where R: Fn(&T, usize) -> B {
    &&& out.len() == part_count(capture_snapshots)
    &&& if capture_snapshots {
        exists|parts: TraceParts<T>| #[trigger]
            parts_of_run(run, parts) && call_ensures(rows, (&parts.samples, row_count), out[0])
                && call_ensures(rows, (&parts.step_0_pred_v, row_count), out[1]) && call_ensures(
                rows,
                (&parts.step_0_pred_v_pos, row_count),
                out[2],
            ) && call_ensures(rows, (&parts.step_0_pred_v_neg, row_count), out[3]) && call_ensures(
                rows,
                (&parts.step_0_x_t, row_count),
                out[4],
            ) && call_ensures(rows, (&parts.step_mid_x_t, row_count), out[5]) && call_ensures(
                rows,
                (&parts.step_last_x_t, row_count),
                out[6],
            )
    } else {
        call_ensures(rows, (&run.samples, row_count), out[0])
    }
}

/// Outcome of sampling one batch item with the rows `start..end`; `announced`
/// says whether it came to the steps.
pub open spec fn batch_outcome<X, T: Clone, B, G, P, A, R>(
    notice: StepNotice,
    begin: G,
    predict: P,
    advance: A,
    rows: R,
    steps: usize,
    mid_step: usize,
    capture_snapshots: bool,
    item: usize,
    start: usize,
    end: usize,
    announced: bool,
    out: Result<Vec<B>, String>,
) -> bool where
    G: Fn(usize, usize, usize) -> Result<(T, X), String>,
    P: Fn(&X, &T, usize, Option<SamplerStep>) -> Result<CfgPrediction<T>, String>,
    A: Fn(&T, &T, usize) -> T,
    R: Fn(&T, usize) -> B,
 {
    exists|begun: Result<(T, X), String>| #[trigger]
        call_ensures(begin, (item, start, end), begun) && match begun {
            Err(e) => !announced && out == Err::<Vec<B>, String>(e),
            Ok(first) => announced && exists|run: Result<EulerRun<T>, String>| #[trigger]
                euler_outcome(
                    first.1,
                    first.0,
                    steps,
                    mid_step,
                    row_capture(capture_snapshots),
                    notice,
                    predict,
                    advance,
                    run,
                ) && match run {
                    Err(e) => out == Err::<Vec<B>, String>(e),
                    Ok(run) => out matches Ok(parts) && rows_of_run(
                        run,
                        capture_snapshots,
                        rows,
                        (end - start) as usize,
                        parts@,
                    ),
                },
        }
}

/// What is announced after rows were sampled: nothing, where steps were
/// announced.
pub open spec fn step_afterwards(
    wgpu: bool,
    before: Option<SamplerStep>,
    announced: bool,
) -> Option<SamplerStep> {
    if announced {
        step_after_run(wgpu, before)
    } else {
        before
    }
}

/// Samples one batch item with the rows `start..end`.
fn sample_batch_rows<X, T: Clone, B, G, P, A, R>(
    begin: &G,
    predict: &P,
    advance: &A,
    rows: &R,
    steps: usize,
    mid_step: usize,
    capture_snapshots: bool,
    item: usize,
    start: usize,
    end: usize,
    wgpu: bool,
    current: &mut Option<SamplerStep>,
) -> (r: Result<Vec<B>, String>) where
    G: Fn(usize, usize, usize) -> Result<(T, X), String>,
    P: Fn(&X, &T, usize, Option<SamplerStep>) -> Result<CfgPrediction<T>, String>,
    A: Fn(&T, &T, usize) -> T,
    R: Fn(&T, usize) -> B,

    requires
        start <= end,
        call_requires(*begin, (item, start, end)),
        forall|c: &X, x: &T, i: usize, s: Option<SamplerStep>|
            call_requires(*predict, (c, x, i, s)),
        forall|x: &T, v: &T, i: usize| call_requires(*advance, (x, v, i)),
        forall|x: &T, n: usize| call_requires(*rows, (x, n)),
    ensures
        exists|announced: bool| #[trigger]
            batch_outcome(
                StepNotice::of(wgpu, *old(current), steps),
                *begin,
                *predict,
                *advance,
                *rows,
                steps,
                mid_step,
                capture_snapshots,
                item,
                start,
                end,
                announced,
                r,
            ) && *final(current) == step_afterwards(wgpu, *old(current), announced),
{
    let ghost notice = StepNotice::of(wgpu, *current, steps);
    let begun: Result<(T, X), String> = begin(item, start, end);
    let ghost begun_ghost = begun;
    assert(call_ensures(*begin, (item, start, end), begun_ghost));
    let first: (T, X) = match begun {
        Ok(first) => first,
        Err(e) => {
            let failed: Result<Vec<B>, String> = Err(e);
            assert(batch_outcome(
                notice,
                *begin,
                *predict,
                *advance,
                *rows,
                steps,
                mid_step,
                capture_snapshots,
                item,
                start,
                end,
                false,
                failed,
            ));
            return failed;
        },
    };
    let ghost first_ghost = first;
    let (x0, context): (T, X) = first;
    let capture: Capture = if capture_snapshots {
        Capture::Ends
    } else {
        Capture::Off
    };
    let run: Result<EulerRun<T>, String> = euler_steps(
        &context,
        x0,
        steps,
        mid_step,
        capture,
        wgpu,
        current,
        predict,
        advance,
    );
    assert(euler_outcome(
        first_ghost.1,
        first_ghost.0,
        steps,
        mid_step,
        row_capture(capture_snapshots),
        notice,
        *predict,
        *advance,
        run,
    ));
    let run: EulerRun<T> = match run {
        Ok(run) => run,
        Err(e) => {
            let failed: Result<Vec<B>, String> = Err(e);
            assert(batch_outcome(
                notice,
                *begin,
                *predict,
                *advance,
                *rows,
                steps,
                mid_step,
                capture_snapshots,
                item,
                start,
                end,
                true,
                failed,
            ));
            return failed;
        },
    };
    let ghost run_ghost = run;
    let row_count: usize = end - start;
    let mut out: Vec<B> = Vec::new();
    if capture_snapshots {
        let parts: TraceParts<T> = trace_parts(run);
        out.push(rows(&parts.samples, row_count));
        out.push(rows(&parts.step_0_pred_v, row_count));
        out.push(rows(&parts.step_0_pred_v_pos, row_count));
        out.push(rows(&parts.step_0_pred_v_neg, row_count));
        out.push(rows(&parts.step_0_x_t, row_count));
        out.push(rows(&parts.step_mid_x_t, row_count));
        out.push(rows(&parts.step_last_x_t, row_count));
        assert(parts_of_run(run_ghost, parts));
    } else {
        out.push(rows(&run.samples, row_count));
    }
    assert(rows_of_run(run_ghost, capture_snapshots, *rows, row_count, out@));
    let done: Result<Vec<B>, String> = Ok(out);
    assert(batch_outcome(
            notice,
            *begin,
            *predict,
            *advance,
            *rows,
            steps,
            mid_step,
            capture_snapshots,
            item,
            start,
            end,
            true,
            done,
    ));
    done
}

/// The first `n` parts are joined over all batch items and have the expected size.
pub open spec fn joined_upto<B, J, E>(
    parts: Vec<Vec<B>>,
    total_elements: usize,
    join: J,
    elements: E,
    n: int,
    joined: Seq<B>,
) -> bool where J: Fn(&Vec<Vec<B>>, usize) -> B, E: Fn(&B) -> usize {
    &&& joined.len() == n
    &&& n > 0 ==> parts@.len() > 0
    &&& forall|k: int|
        0 <= k < n ==> call_ensures(join, (&parts, k as usize), #[trigger] joined[k])
            && call_ensures(elements, (&joined[k],), total_elements)
}

/// Part `k` cannot be joined, and why.
pub open spec fn join_fault<B, J, E>(
    parts: Vec<Vec<B>>,
    total_elements: usize,
    join: J,
    elements: E,
    k: int,
    text: Seq<char>,
) -> bool where J: Fn(&Vec<Vec<B>>, usize) -> B, E: Fn(&B) -> usize {
    if parts@.len() == 0 {
        text == aggregation_text(part_label(k), 0, 0, total_elements as int)
    } else {
        exists|joined: B, got: usize|
            call_ensures(join, (&parts, k as usize), joined) && #[trigger] call_ensures(
                elements,
                (&joined,),
                got,
            ) && got != total_elements && text == aggregation_text(
                part_label(k),
                parts@.len() as int,
                got as int,
                total_elements as int,
            )
    }
}

/// Outcome of joining all parts in order: the first that cannot be joined decides.
pub open spec fn join_outcome<B, J, E>(
    parts: Vec<Vec<B>>,
    columns: int,
    total_elements: usize,
    join: J,
    elements: E,
    out: Result<Vec<B>, String>,
) -> bool where J: Fn(&Vec<Vec<B>>, usize) -> B, E: Fn(&B) -> usize {
    match out {
        Ok(joined) => joined_upto(parts, total_elements, join, elements, columns, joined@),
        Err(msg) => exists|k: int, joined: Seq<B>|
            0 <= k < columns && #[trigger] joined_upto(
                parts,
                total_elements,
                join,
                elements,
                k,
                joined,
            ) && join_fault(parts, total_elements, join, elements, k, msg@),
    }
}

/// Joins each part over all batch items.
fn join_parts<B, J, E>(
    parts: &Vec<Vec<B>>,
    columns: usize,
    total_elements: usize,
    join: &J,
    elements: &E,
) -> (r: Result<Vec<B>, String>) where J: Fn(&Vec<Vec<B>>, usize) -> B, E: Fn(&B) -> usize
    requires
        forall|p: &Vec<Vec<B>>, k: usize| call_requires(*join, (p, k)),
        forall|b: &B| call_requires(*elements, (b,)),
    ensures
        join_outcome(*parts, columns as int, total_elements, *join, *elements, r),
{
    let mut joined: Vec<B> = Vec::new();
    let mut k: usize = 0;
    while k < columns
        invariant
            k <= columns,
            forall|p: &Vec<Vec<B>>, k: usize| call_requires(*join, (p, k)),
            forall|b: &B| call_requires(*elements, (b,)),
            joined_upto(*parts, total_elements, *join, *elements, k as int, joined@),
        decreases columns - k,
    {
        if parts.len() == 0 {
            let checked: Result<(), String> = check_aggregation(label(k), 0, 0, total_elements);
            match checked {
                Ok(()) => {},
                Err(msg) => {
                    assert(join_fault(*parts, total_elements, *join, *elements, k as int, msg@));
                    let failed: Result<Vec<B>, String> = Err(msg);
                    return failed;
                },
            }
        }
        let merged: B = join(parts, k);
        let got: usize = elements(&merged);
        match check_aggregation(label(k), parts.len(), got, total_elements) {
            Ok(()) => {},
            Err(msg) => {
                assert(call_ensures(*elements, (&merged,), got));
                assert(join_fault(*parts, total_elements, *join, *elements, k as int, msg@));
                let failed: Result<Vec<B>, String> = Err(msg);
                return failed;
            },
        }
        let ghost before = joined@;
        joined.push(merged);
        proof {
            assert forall|j: int| 0 <= j < k + 1 implies call_ensures(
                *join,
                (parts, j as usize),
                #[trigger] joined@[j],
            ) && call_ensures(*elements, (&joined@[j],), total_elements) by {
                if j < k {
                    assert(joined@[j] == before[j]);
                }
            }
        }
        k = k + 1;
    }
    Ok(joined)
}

/// Device rows of a trace: of every part where snapshots were captured, of the
/// sample for every part otherwise.
pub open spec fn device_rows<B, D: Clone, V>(
    joined: Seq<B>,
    capture_snapshots: bool,
    device: V,
    rows: RowTraceDevice<D>,
) -> bool where V: Fn(&B) -> Option<D> {
    &&& call_ensures(device, (&joined[0],), rows.samples)
    &&& if capture_snapshots {
        &&& call_ensures(device, (&joined[1],), rows.step_0_pred_v)
        &&& call_ensures(device, (&joined[2],), rows.step_0_pred_v_pos)
        &&& call_ensures(device, (&joined[3],), rows.step_0_pred_v_neg)
        &&& call_ensures(device, (&joined[4],), rows.step_0_x_t)
        &&& call_ensures(device, (&joined[5],), rows.step_mid_x_t)
        &&& call_ensures(device, (&joined[6],), rows.step_last_x_t)
    } else {
        &&& copied(rows.samples, rows.step_0_pred_v)
        &&& copied(rows.samples, rows.step_0_pred_v_pos)
        &&& copied(rows.samples, rows.step_0_pred_v_neg)
        &&& copied(rows.samples, rows.step_0_x_t)
        &&& copied(rows.samples, rows.step_mid_x_t)
        &&& copied(rows.samples, rows.step_last_x_t)
    }
}

/// `b` is a copy of `a`.
pub open spec fn copied<D: Clone>(a: Option<D>, b: Option<D>) -> bool {
    match (a, b) {
        (Some(x), Some(y)) => cloned(x, y),
        (None, None) => true,
        _ => false,
    }
}

fn copy_rows<D: Clone>(rows: &Option<D>) -> (r: Option<D>)
    ensures
        copied(*rows, r),
{
    match rows {
        Some(d) => Some(d.clone()),
        None => None,
    }
}

/// Outcome of reading joined parts back: only where the host needs them.
pub open spec fn row_readback<B, F, D, Q, M>(
    joined: Vec<B>,
    capture_snapshots: bool,
    materialize_host_rows: bool,
    steps: usize,
    used_channels: usize,
    total_elements: int,
    device: RowTraceDevice<D>,
    read: Q,
    read_merged: M,
    out: Result<SparseFlowRowTrace<F, D>, String>,
) -> bool where
    Q: FnOnce(&B) -> Result<Vec<F>, String>,
    M: FnOnce(&Vec<B>) -> Result<Vec<F>, String>,
 {
    if !materialize_host_rows && device.samples is Some {
        out matches Ok(trace) && trace.is_device_only(steps, used_channels, device)
    } else if capture_snapshots {
        exists|merged: Result<Vec<F>, String>| #[trigger]
            call_ensures(read_merged, (&joined,), merged) && match merged {
                Ok(values) => out matches Ok(trace) && trace.is_split(
                    steps,
                    used_channels,
                    values@,
                    total_elements,
                    device,
                ),
                Err(e) => out == Err::<SparseFlowRowTrace<F, D>, String>(e),
            }
    } else {
        exists|samples: Result<Vec<F>, String>| #[trigger]
            call_ensures(read, (&joined@[0],), samples) && match samples {
                Ok(values) => out matches Ok(trace) && trace.is_plain(
                    steps,
                    used_channels,
                    values@,
                    device,
                ),
                Err(e) => out == Err::<SparseFlowRowTrace<F, D>, String>(e),
            }
    }
}

/// Outcome of turning the parts of all batch items into a trace.
pub open spec fn trace_outcome<B, F, D: Clone, J, E, V, Q, M>(
    parts: Vec<Vec<B>>,
    capture_snapshots: bool,
    materialize_host_rows: bool,
    steps: usize,
    used_channels: usize,
    total_elements: usize,
    join: J,
    elements: E,
    device: V,
    read: Q,
    read_merged: M,
    out: Result<SparseFlowRowTrace<F, D>, String>,
) -> bool where
    J: Fn(&Vec<Vec<B>>, usize) -> B,
    E: Fn(&B) -> usize,
    V: Fn(&B) -> Option<D>,
    Q: FnOnce(&B) -> Result<Vec<F>, String>,
    M: FnOnce(&Vec<B>) -> Result<Vec<F>, String>,
 {
    exists|joined: Result<Vec<B>, String>| #[trigger]
        join_outcome(
            parts,
            part_count(capture_snapshots),
            total_elements,
            join,
            elements,
            joined,
        ) && match joined {
            Err(e) => out == Err::<SparseFlowRowTrace<F, D>, String>(e),
            Ok(joined) => exists|rows: RowTraceDevice<D>| #[trigger]
                device_rows(joined@, capture_snapshots, device, rows) && row_readback(
                    joined,
                    capture_snapshots,
                    materialize_host_rows,
                    steps,
                    used_channels,
                    total_elements as int,
                    rows,
                    read,
                    read_merged,
                    out,
                ),
        }
}

/// What is counted where `out` was made of sampled rows: one readback, unless
/// reading failed or the rows stay on the device.
pub open spec fn rows_read_back<F, D>(
    before: HostTransferStats,
    after: HostTransferStats,
    capture_snapshots: bool,
    materialize_host_rows: bool,
    total_elements: int,
    out: Result<SparseFlowRowTrace<F, D>, String>,
) -> bool {
    match out {
        Err(_) => after == before,
        Ok(trace) => if !materialize_host_rows && trace.device.samples is Some {
            after == before
        } else {
            read_back_once(
                before,
                after,
                if capture_snapshots {
                    7 * total_elements
                } else {
                    imax(total_elements, trace.samples@.len() as int)
                },
            )
        },
    }
}

/// Turns the parts of all batch items into a trace.
fn finish_row_trace<B, F: Copy, D: Clone, J, E, V, Q, M>(
    parts: &Vec<Vec<B>>,
    capture_snapshots: bool,
    materialize_host_rows: bool,
    steps: usize,
    used_channels: usize,
    total_elements: usize,
    join: &J,
    elements: &E,
    device: &V,
    stats: &mut HostTransferStats,
    read: Q,
    read_merged: M,
) -> (r: Result<SparseFlowRowTrace<F, D>, String>) where
    J: Fn(&Vec<Vec<B>>, usize) -> B,
    E: Fn(&B) -> usize,
    V: Fn(&B) -> Option<D>,
    Q: FnOnce(&B) -> Result<Vec<F>, String>,
    M: FnOnce(&Vec<B>) -> Result<Vec<F>, String>,

    requires
        forall|p: &Vec<Vec<B>>, k: usize| call_requires(*join, (p, k)),
        forall|b: &B| call_requires(*elements, (b,)),
        forall|b: &B| call_requires(*device, (b,)),
        !capture_snapshots ==> forall|b: &B| call_requires(read, (b,)),
        capture_snapshots ==> forall|v: &Vec<B>| call_requires(read_merged, (v,)),
        forall|v: &Vec<B>, values: Vec<F>| #[trigger]
            call_ensures(read_merged, (v,), Ok::<Vec<F>, String>(values)) ==> values@.len()
                == v@.len() * total_elements,
    ensures
        trace_outcome(
            *parts,
            capture_snapshots,
            materialize_host_rows,
            steps,
            used_channels,
            total_elements,
            *join,
            *elements,
            *device,
            read,
            read_merged,
            r,
        ),
        rows_read_back(
            *old(stats),
            *final(stats),
            capture_snapshots,
            materialize_host_rows,
            total_elements as int,
            r,
        ),
{
    let columns: usize = if capture_snapshots {
        ROW_TRACE_PARTS
    } else {
        1
    };
    let joined: Result<Vec<B>, String> = join_parts(
        parts,
        columns,
        total_elements,
        join,
        elements,
    );
    assert(join_outcome(
        *parts,
        part_count(capture_snapshots),
        total_elements,
        *join,
        *elements,
        joined,
    ));
    let joined: Vec<B> = match joined {
        Ok(joined) => joined,
        Err(e) => {
            let failed: Result<SparseFlowRowTrace<F, D>, String> = Err(e);
            return failed;
        },
    };
    let samples: Option<D> = device(&joined[0]);
    let rows: RowTraceDevice<D> = if capture_snapshots {
        RowTraceDevice {
            samples,
            step_0_pred_v: device(&joined[1]),
            step_0_pred_v_pos: device(&joined[2]),
            step_0_pred_v_neg: device(&joined[3]),
            step_0_x_t: device(&joined[4]),
            step_mid_x_t: device(&joined[5]),
            step_last_x_t: device(&joined[6]),
        }
    } else {
        RowTraceDevice {
            step_0_pred_v: copy_rows(&samples),
            step_0_pred_v_pos: copy_rows(&samples),
            step_0_pred_v_neg: copy_rows(&samples),
            step_0_x_t: copy_rows(&samples),
            step_mid_x_t: copy_rows(&samples),
            step_last_x_t: copy_rows(&samples),
            samples,
        }
    };
    let ghost rows_ghost = rows;
    assert(device_rows(joined@, capture_snapshots, *device, rows_ghost));
    let out: Result<SparseFlowRowTrace<F, D>, String> = if !host_rows_required(
        materialize_host_rows,
        rows.samples.is_some(),
    ) {
        Ok(SparseFlowRowTrace::device_only(steps, used_channels, rows))
    } else if capture_snapshots {
        let merged: Result<Vec<F>, String> = read_merged(&joined);
        let ghost merged_ghost = merged;
        let out: Result<SparseFlowRowTrace<F, D>, String> = match merged {
            Ok(values) => {
                record_host_readback(stats, values.len());
                Ok(
                    SparseFlowRowTrace::from_merged(
                        steps,
                        used_channels,
                        &values,
                        total_elements,
                        rows,
                    ),
                )
            },
            Err(e) => Err(e),
        };
        assert(call_ensures(read_merged, (&joined,), merged_ghost));
        out
    } else {
        let samples: Result<Vec<F>, String> = read(&joined[0]);
        let ghost samples_ghost = samples;
        let out: Result<SparseFlowRowTrace<F, D>, String> = match samples {
            Ok(values) => {
                record_host_readback(stats, max_usize(total_elements, values.len()));
                Ok(SparseFlowRowTrace::from_samples(steps, used_channels, values, rows))
            },
            Err(e) => Err(e),
        };
        assert(call_ensures(read, (&joined@[0],), samples_ghost));
        out
    };
    assert(row_readback(
        joined,
        capture_snapshots,
        materialize_host_rows,
        steps,
        used_channels,
        total_elements as int,
        rows_ghost,
        read,
        read_merged,
        out,
    ));
    out
}

/// The first `n` batch items that have rows gave `parts`.
pub open spec fn items_sampled<X, T: Clone, B, G, P, A, R>(
    layout: Seq<Range<usize>>,
    notice: StepNotice,
    begin: G,
    predict: P,
    advance: A,
    rows: R,
    steps: usize,
    mid_step: usize,
    capture_snapshots: bool,
    n: int,
    parts: Seq<Vec<B>>,
) -> bool where
    G: Fn(usize, usize, usize) -> Result<(T, X), String>,
    P: Fn(&X, &T, usize, Option<SamplerStep>) -> Result<CfgPrediction<T>, String>,
    A: Fn(&T, &T, usize) -> T,
    R: Fn(&T, usize) -> B,
 {
    let items = nonempty_batches(layout, layout.len() as int);
    &&& 0 <= n <= items.len()
    &&& parts.len() == n
    &&& forall|j: int|
        0 <= j < n ==> batch_outcome(
            notice,
            begin,
            predict,
            advance,
            rows,
            steps,
            mid_step,
            capture_snapshots,
            items[j] as usize,
            layout[items[j]].start,
            layout[items[j]].end,
            true,
            Ok(#[trigger] parts[j]),
        )
}

/// Outcome of sampling all batch items that have rows, in order: the first
/// failure ends the walk. `announced` says whether it came to any step.
pub open spec fn batches_outcome<X, T: Clone, B, G, P, A, R>(
    layout: Seq<Range<usize>>,
    notice: StepNotice,
    begin: G,
    predict: P,
    advance: A,
    rows: R,
    steps: usize,
    mid_step: usize,
    capture_snapshots: bool,
    announced: bool,
    out: Result<Vec<Vec<B>>, String>,
) -> bool where
    G: Fn(usize, usize, usize) -> Result<(T, X), String>,
    P: Fn(&X, &T, usize, Option<SamplerStep>) -> Result<CfgPrediction<T>, String>,
    A: Fn(&T, &T, usize) -> T,
    R: Fn(&T, usize) -> B,
 {
    let items = nonempty_batches(layout, layout.len() as int);
    match out {
        Ok(parts) => announced == (items.len() > 0) && items_sampled(
            layout,
            notice,
            begin,
            predict,
            advance,
            rows,
            steps,
            mid_step,
            capture_snapshots,
            items.len() as int,
            parts@,
        ),
        Err(e) => exists|j: int, parts: Seq<Vec<B>>, reached: bool|
            0 <= j < items.len() && #[trigger] items_sampled(
                layout,
                notice,
                begin,
                predict,
                advance,
                rows,
                steps,
                mid_step,
                capture_snapshots,
                j,
                parts,
            ) && #[trigger] batch_outcome(
                notice,
                begin,
                predict,
                advance,
                rows,
                steps,
                mid_step,
                capture_snapshots,
                items[j] as usize,
                layout[items[j]].start,
                layout[items[j]].end,
                reached,
                Err(e),
            ) && announced == (reached || j > 0),
    }
}

/// Samples the batch items that have rows, in order; the first failure ends
/// the walk.
fn sample_batches<X, T: Clone, B, G, P, A, R>(
    layout: &Vec<Range<usize>>,
    begin: &G,
    predict: &P,
    advance: &A,
    rows: &R,
    steps: usize,
    mid_step: usize,
    capture_snapshots: bool,
    wgpu: bool,
    current: &mut Option<SamplerStep>,
) -> (r: Result<Vec<Vec<B>>, String>) where
    G: Fn(usize, usize, usize) -> Result<(T, X), String>,
    P: Fn(&X, &T, usize, Option<SamplerStep>) -> Result<CfgPrediction<T>, String>,
    A: Fn(&T, &T, usize) -> T,
    R: Fn(&T, usize) -> B,

    requires
        forall|i: usize, a: usize, b: usize| call_requires(*begin, (i, a, b)),
        forall|c: &X, x: &T, i: usize, s: Option<SamplerStep>|
            call_requires(*predict, (c, x, i, s)),
        forall|x: &T, v: &T, i: usize| call_requires(*advance, (x, v, i)),
        forall|x: &T, n: usize| call_requires(*rows, (x, n)),
    ensures
        exists|announced: bool| #[trigger]
            batches_outcome(
                layout@,
                StepNotice::of(wgpu, *old(current), steps),
                *begin,
                *predict,
                *advance,
                *rows,
                steps,
                mid_step,
                capture_snapshots,
                announced,
                r,
            ) && *final(current) == step_afterwards(wgpu, *old(current), announced),
{
    let ghost before = *current;
    let ghost notice = StepNotice::of(wgpu, before, steps);
    let ghost items = nonempty_batches(layout@, layout@.len() as int);
    let mut out: Vec<Vec<B>> = Vec::new();
    let mut i: usize = 0;
    while i < layout.len()
        invariant
            i <= layout.len(),
            items == nonempty_batches(layout@, layout@.len() as int),
            before == *old(current),
            notice == StepNotice::of(wgpu, before, steps),
            forall|i: usize, a: usize, b: usize| call_requires(*begin, (i, a, b)),
            forall|c: &X, x: &T, i: usize, s: Option<SamplerStep>|
                call_requires(*predict, (c, x, i, s)),
            forall|x: &T, v: &T, i: usize| call_requires(*advance, (x, v, i)),
            forall|x: &T, n: usize| call_requires(*rows, (x, n)),
            out@.len() == nonempty_batches(layout@, i as int).len(),
            items.take(out@.len() as int) == nonempty_batches(layout@, i as int),
            *current == step_afterwards(wgpu, before, out@.len() > 0),
            items_sampled(
                layout@,
                notice,
                *begin,
                *predict,
                *advance,
                *rows,
                steps,
                mid_step,
                capture_snapshots,
                out@.len() as int,
                out@,
            ),
        decreases layout.len() - i,
    {
        let start: usize = layout[i].start;
        let end: usize = layout[i].end;
        proof {
            lemma_nonempty_prefix(layout@, i as int + 1, layout@.len() as int);
        }
        if end > start {
            let ghost n = out@.len() as int;
            let ghost earlier = out@;
            proof {
                let upto = nonempty_batches(layout@, i as int + 1);
                assert(upto == nonempty_batches(layout@, i as int).push(i as int));
                assert(items.take(upto.len() as int)[n] == upto[n]);
                assert(items[n] == i);
                assert(StepNotice::of(wgpu, *current, steps) == notice);
            }
            let sampled: Result<Vec<B>, String> = sample_batch_rows(
                begin,
                predict,
                advance,
                rows,
                steps,
                mid_step,
                capture_snapshots,
                i,
                start,
                end,
                wgpu,
                current,
            );
            let ghost sampled_ghost = sampled;
            let ghost reached = choose|reached: bool| #[trigger]
                batch_outcome(
                    notice,
                    *begin,
                    *predict,
                    *advance,
                    *rows,
                    steps,
                    mid_step,
                    capture_snapshots,
                    i,
                    start,
                    end,
                    reached,
                    sampled,
                ) && *current == step_afterwards(
                    wgpu,
                    step_afterwards(wgpu, before, n > 0),
                    reached,
                );
            assert(items[n] as usize == i);
            assert(batch_outcome(
                notice,
                *begin,
                *predict,
                *advance,
                *rows,
                steps,
                mid_step,
                capture_snapshots,
                items[n] as usize,
                layout@[items[n]].start,
                layout@[items[n]].end,
                reached,
                sampled,
            ));
            match sampled {
                Ok(part) => {
                    assert(reached);
                    out.push(part);
                    assert forall|j: int| 0 <= j < n + 1 implies batch_outcome(
                        notice,
                        *begin,
                        *predict,
                        *advance,
                        *rows,
                        steps,
                        mid_step,
                        capture_snapshots,
                        items[j] as usize,
                        layout@[items[j]].start,
                        layout@[items[j]].end,
                        true,
                        Ok(#[trigger] out@[j]),
                    ) by {
                        if j < n {
                            assert(out@[j] == earlier[j]);
                        }
                    }
                },
                Err(e) => {
                    let failed: Result<Vec<Vec<B>>, String> = Err(e);
                    assert(sampled_ghost == Err::<Vec<B>, String>(failed->Err_0));
                    assert(items_sampled(
                        layout@,
                        notice,
                        *begin,
                        *predict,
                        *advance,
                        *rows,
                        steps,
                        mid_step,
                        capture_snapshots,
                        n,
                        earlier,
                    ));
                    assert(batches_outcome(
                        layout@,
                        notice,
                        *begin,
                        *predict,
                        *advance,
                        *rows,
                        steps,
                        mid_step,
                        capture_snapshots,
                        reached || n > 0,
                        failed,
                    ));
                    return failed;
                },
            }
        }
        i = i + 1;
    }
    assert(items.take(items.len() as int) =~= items);
    let done: Result<Vec<Vec<B>>, String> = Ok(out);
    assert(batches_outcome(
        layout@,
        notice,
        *begin,
        *predict,
        *advance,
        *rows,
        steps,
        mid_step,
        capture_snapshots,
        items.len() > 0,
        done,
    ));
    done
}

/// Samples sparse rows, batch item by batch item, and reads the trace back.
///
/// `begin` gives the first state of a batch item and what its predictions need
/// besides; `rows` cuts a state down to the returned channels; `join` joins one
/// part of all batch items, and `elements` counts what came out; `device` keeps
/// joined rows on the device where the backend can. Rows that the host needs are
/// read back at once, whatever the number of batch items.
pub fn sample_sparse_rows_with_trace<X, T: Clone, B, F: Copy, D: Clone, C, G, P, A, R, J, E, V, Q, M>(
    sparse: &SparseTensorOwned<F, D, C>,
    concat: Option<&VarLenTensorOwned<F, D>>,
    cond: ConditionDims,
    neg: ConditionDims,
    in_channels: usize,
    out_channels: usize,
    row_channels: usize,
    steps: usize,
    mid_step: usize,
    capture_snapshots: bool,
    materialize_host_rows: bool,
    wgpu: bool,
    current: &mut Option<SamplerStep>,
    stats: &mut HostTransferStats,
    begin: G,
    predict: P,
    advance: A,
    rows: R,
    join: J,
    elements: E,
    device: V,
    read: Q,
    read_merged: M,
) -> (r: Result<SparseFlowRowTrace<F, D>, String>) where
    G: Fn(usize, usize, usize) -> Result<(T, X), String>,
    P: Fn(&X, &T, usize, Option<SamplerStep>) -> Result<CfgPrediction<T>, String>,
    A: Fn(&T, &T, usize) -> T,
    R: Fn(&T, usize) -> B,
    J: Fn(&Vec<Vec<B>>, usize) -> B,
    E: Fn(&B) -> usize,
    V: Fn(&B) -> Option<D>,
    Q: FnOnce(&B) -> Result<Vec<F>, String>,
    M: FnOnce(&Vec<B>) -> Result<Vec<F>, String>,

    requires
        forall|i: usize, a: usize, b: usize| call_requires(begin, (i, a, b)),
        forall|c: &X, x: &T, i: usize, s: Option<SamplerStep>|
            call_requires(predict, (c, x, i, s)),
        forall|x: &T, v: &T, i: usize| call_requires(advance, (x, v, i)),
        forall|x: &T, n: usize| call_requires(rows, (x, n)),
        forall|p: &Vec<Vec<B>>, k: usize| call_requires(join, (p, k)),
        forall|b: &B| call_requires(elements, (b,)),
        forall|b: &B| call_requires(device, (b,)),
        !capture_snapshots ==> forall|b: &B| call_requires(read, (b,)),
        capture_snapshots ==> forall|v: &Vec<B>| call_requires(read_merged, (v,)),
        forall|v: &Vec<B>, values: Vec<F>| #[trigger]
            call_ensures(read_merged, (v,), Ok::<Vec<F>, String>(values)) ==> values@.len()
                == v@.len() * sat(
                layout_rows(sparse.rows_tensor().ranges()) * imin(
                    row_channels as int,
                    sparse.rows_tensor().width() as int,
                ),
            ),
    ensures
        ({
            let layout = sparse.rows_tensor().ranges();
            let row_count = layout_rows(layout);
            let used = imin(row_channels as int, sparse.rows_tensor().width() as int);
            let untouched = *final(stats) == *old(stats) && *final(current) == *old(current);
            if row_count == 0 {
                untouched && (r matches Ok(trace) && trace.is_empty_trace(steps))
            } else {
                match row_sampling_fault(
                    *sparse,
                    concat,
                    cond,
                    neg,
                    in_channels as int,
                    out_channels as int,
                ) {
                    Some(text) => untouched && (r matches Err(msg) && msg@ == text),
                    None => if used == 0 {
                        untouched && (r matches Ok(trace) && trace.is_empty_trace(steps))
                    } else {
                        exists|parts: Result<Vec<Vec<B>>, String>, announced: bool| #[trigger]
                            batches_outcome(
                                layout,
                                StepNotice::of(wgpu, *old(current), steps),
                                begin,
                                predict,
                                advance,
                                rows,
                                steps,
                                mid_step,
                                capture_snapshots,
                                announced,
                                parts,
                            ) && *final(current) == step_afterwards(
                                wgpu,
                                *old(current),
                                announced,
                            ) && match parts {
                                Err(e) => *final(stats) == *old(stats) && r == Err::<SparseFlowRowTrace<F, D>, String>(e),
                                Ok(parts) => trace_outcome(
                                    parts,
                                    capture_snapshots,
                                    materialize_host_rows,
                                    steps,
                                    used as usize,
                                    sat(row_count * used) as usize,
                                    join,
                                    elements,
                                    device,
                                    read,
                                    read_merged,
                                    r,
                                ) && rows_read_back(
                                    *old(stats),
                                    *final(stats),
                                    capture_snapshots,
                                    materialize_host_rows,
                                    sat(row_count * used),
                                    r,
                                ),
                            }
                    },
                }
            }
        }),
{
    let sampling: RowSampling = match check_row_sampling(
        sparse,
        concat,
        cond,
        neg,
        in_channels,
        out_channels,
        row_channels,
    ) {
        Ok(sampling) => sampling,
        Err(msg) => return Err(msg),
    };
    let (used_channels, total_elements): (usize, usize) = match sampling {
        RowSampling::Nothing => return Ok(SparseFlowRowTrace::empty(steps)),
        RowSampling::Rows { used_channels, total_elements, .. } => (used_channels, total_elements),
    };
    let ghost before = *current;
    let parts: Result<Vec<Vec<B>>, String> = sample_batches(
        sparse.layout(),
        &begin,
        &predict,
        &advance,
        &rows,
        steps,
        mid_step,
        capture_snapshots,
        wgpu,
        current,
    );
    let ghost announced = choose|announced: bool| #[trigger]
        batches_outcome(
            sparse.rows_tensor().ranges(),
            StepNotice::of(wgpu, before, steps),
            begin,
            predict,
            advance,
            rows,
            steps,
            mid_step,
            capture_snapshots,
            announced,
            parts,
        ) && *current == step_afterwards(wgpu, before, announced);
    assert(batches_outcome(
        sparse.rows_tensor().ranges(),
        StepNotice::of(wgpu, before, steps),
        begin,
        predict,
        advance,
        rows,
        steps,
        mid_step,
        capture_snapshots,
        announced,
        parts,
    ));
    match parts {
        Err(e) => {
            let failed: Result<SparseFlowRowTrace<F, D>, String> = Err(e);
            failed
        },
        Ok(parts) => finish_row_trace(
            &parts,
            capture_snapshots,
            materialize_host_rows,
            steps,
            used_channels,
            total_elements,
            &join,
            &elements,
            &device,
            stats,
            read,
            read_merged,
        ),
    }
}

} // verus!
