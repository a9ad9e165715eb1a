//! What a sampler run does, stated of its inputs and results.
use crate::flags::{step_after_run, SamplerStep, StepNotice};
use crate::sampler::{
    advanced_by, host_guided, host_path, host_step, host_trace_outcome, mixed_and_rescaled, zipped,
    HostSampleTrace,
};
use crate::sampling::{
    euler_outcome, euler_path, guided_prediction, is_split_trace, merged_readback_gives_back_parts,
    nonempty_batches, parts_of_run, run_snapshots, segment_of, Capture, CfgPrediction, EulerRun,
    FlowEulerSampleTrace, GuidanceBranch, GuidanceState, RowTraceDevice, SparseFlowRowTrace,
    TraceParts,
};
use crate::sampling_runs::{
    batch_outcome, batches_outcome, dense_capture, dense_readback, dense_run_outcome, device_rows,
    final_run_outcome, join_outcome, part_count, row_capture, row_readback, rows_of_run,
    trace_outcome,
};
use core::ops::Range;
use vstd::prelude::*;

verus! {

// ---------------------------------------------------------------------------
// Steps
// ---------------------------------------------------------------------------

/// What step `i` turns from a state of stage `i` into a state of stage `i + 1`
/// holds along a path.
proof fn lemma_path_stages<X, T, P, A>(
    context: X,
    notice: StepNotice,
    predict: P,
    advance: A,
    x0: T,
    n: int,
    states: Seq<T>,
    preds: Seq<CfgPrediction<T>>,
    stage: spec_fn(int, T) -> bool,
    k: int,
) where
    P: Fn(&X, &T, usize, Option<SamplerStep>) -> Result<CfgPrediction<T>, String>,
    A: Fn(&T, &T, usize) -> T,

    requires
        n <= usize::MAX,
        euler_path(context, notice, predict, advance, x0, n, states, preds),
        0 <= k <= n,
        stage(0, x0),
        forall|i: usize, x: T, p: CfgPrediction<T>, y: T|
            i < n && stage(i as int, x) && #[trigger] call_ensures(
                predict,
                (&context, &x, i, notice.at(i as int)),
                Ok(p),
            ) && #[trigger] call_ensures(advance, (&x, &p.guided, i), y) ==> stage(i + 1, y),
    ensures
        stage(k, states[k]),
    decreases k,
{
    if k > 0 {
        lemma_path_stages(
            context,
            notice,
            predict,
            advance,
            x0,
            n,
            states,
            preds,
            stage,
            k - 1,
        );
        let i = (k - 1) as usize;
        let p = preds[k - 1];
        assert(call_ensures(predict, (&context, &states[k - 1], i, notice.at(i as int)), Ok(p)));
        assert(call_ensures(advance, (&states[k - 1], &p.guided, i), states[k]));
    }
}

/// Step `i` of a run is predicted and advanced under its own number, from the
/// state that the steps before it lead to: whatever step `i` carries from stage
/// `i` to stage `i + 1` is carried from the first state to the sample, and the
/// snapshots are those of their own stages. `moves` holds of every velocity
/// that step `i` predicts at stage `i`.
pub proof fn steps_are_taken_in_turn<X, T: Clone, P, A>(
    context: X,
    x0: T,
    steps: usize,
    mid_step: usize,
    capture: Capture,
    notice: StepNotice,
    predict: P,
    advance: A,
    run: EulerRun<T>,
    stage: spec_fn(int, T) -> bool,
    moves: spec_fn(int, T) -> bool,
) where
    P: Fn(&X, &T, usize, Option<SamplerStep>) -> Result<CfgPrediction<T>, String>,
    A: Fn(&T, &T, usize) -> T,

    requires
        euler_outcome(
            context,
            x0,
            steps,
            mid_step,
            capture,
            notice,
            predict,
            advance,
            Ok(run),
        ),
        stage(0, x0),
        forall|i: usize, x: T, p: CfgPrediction<T>, y: T|
            i < steps && stage(i as int, x) && #[trigger] call_ensures(
                predict,
                (&context, &x, i, notice.at(i as int)),
                Ok(p),
            ) && #[trigger] call_ensures(advance, (&x, &p.guided, i), y) ==> stage(i + 1, y),
        forall|i: usize, x: T, p: CfgPrediction<T>|
            i < steps && stage(i as int, x) && #[trigger] call_ensures(
                predict,
                (&context, &x, i, notice.at(i as int)),
                Ok(p),
            ) ==> moves(i as int, p.guided),
        forall|a: T, b: T| #[trigger] cloned(a, b) ==> a == b,
    ensures
        stage(steps as int, run.samples),
        capture != Capture::Off && steps > 0 ==> run.step_0 is Some && stage(
            1,
            run.step_0->Some_0,
        ),
        capture != Capture::Off && mid_step < steps ==> run.step_mid is Some && stage(
            mid_step + 1,
            run.step_mid->Some_0,
        ),
        capture != Capture::Off && steps > 0 ==> run.step_last == Some(run.samples),
        capture == Capture::Off ==> run.step_0 is None && run.step_mid is None && run.step_last
            is None && run.first is None,
        capture != Capture::Off && steps > 0 ==> run.first is Some && call_ensures(
            predict,
            (&context, &x0, 0, notice.at(0)),
            Ok(run.first->Some_0),
        ),
        capture == Capture::All ==> run.states@.len() == steps && run.preds@.len() == steps,
        capture == Capture::All ==> forall|i: int|
            0 <= i < steps ==> stage(i + 1, #[trigger] run.states@[i]),
        capture == Capture::All && steps > 0 ==> run.states@[steps - 1] == run.samples,
        capture == Capture::All ==> forall|i: int|
            0 <= i < steps ==> moves(i, #[trigger] run.preds@[i]),
{
    let (states, preds) = choose|states: Seq<T>, preds: Seq<CfgPrediction<T>>| #[trigger]
        euler_path(context, notice, predict, advance, x0, steps as int, states, preds)
            && run_snapshots(
            run,
            capture,
            steps as int,
            mid_step as int,
            steps as int,
            states,
            preds,
        );
    assert forall|k: int| 0 <= k <= steps implies stage(k, #[trigger] states[k]) by {
        lemma_path_stages(
            context,
            notice,
            predict,
            advance,
            x0,
            steps as int,
            states,
            preds,
            stage,
            k,
        );
    }
    if capture != Capture::Off && steps > 0 {
        assert(run.first->Some_0 == preds[0]);
        assert(call_ensures(predict, (&context, &states[0], 0usize, notice.at(0)), Ok(preds[0])));
    }
    if capture == Capture::All {
        assert forall|i: int| 0 <= i < steps implies stage(i + 1, #[trigger] run.states@[i]) by {
            assert(cloned(states[i + 1], run.states@[i]));
            assert(stage(i + 1, states[i + 1]));
        }
        assert forall|i: int| 0 <= i < steps implies moves(i, #[trigger] run.preds@[i]) by {
            assert(cloned(preds[i].guided, run.preds@[i]));
            let k = i as usize;
            assert(call_ensures(
                predict,
                (&context, &states[i], k, notice.at(k as int)),
                Ok(preds[i]),
            ));
            assert(stage(i, states[i]));
        }
        if steps > 0 {
            assert(cloned(states[steps - 1 + 1], run.states@[steps - 1]));
        }
    }
}

/// On the WGPU runtime every step is announced with its number and the number of
/// steps, and nothing is announced once a run has ended; elsewhere what was
/// announced before stays throughout.
pub proof fn steps_are_announced(wgpu: bool, before: Option<SamplerStep>, steps: usize, i: usize)
    ensures
        wgpu ==> StepNotice::of(wgpu, before, steps).at(i as int) == Some(
            SamplerStep { step_idx: i, step_count: steps },
        ),
        !wgpu ==> StepNotice::of(wgpu, before, steps).at(i as int) == before,
        wgpu ==> step_after_run(wgpu, before) is None,
        !wgpu ==> step_after_run(wgpu, before) == before,
{
}

/// A run ends with the error of the step that fails, which stands where the
/// steps before it lead.
pub proof fn failing_step_ends_the_run<X, T: Clone, P, A>(
    context: X,
    x0: T,
    steps: usize,
    mid_step: usize,
    capture: Capture,
    notice: StepNotice,
    predict: P,
    advance: A,
    error: String,
    stage: spec_fn(int, T) -> bool,
) where
    P: Fn(&X, &T, usize, Option<SamplerStep>) -> Result<CfgPrediction<T>, String>,
    A: Fn(&T, &T, usize) -> T,

    requires
        euler_outcome(
            context,
            x0,
            steps,
            mid_step,
            capture,
            notice,
            predict,
            advance,
            Err(error),
        ),
        stage(0, x0),
        forall|i: usize, x: T, p: CfgPrediction<T>, y: T|
            i < steps && stage(i as int, x) && #[trigger] call_ensures(
                predict,
                (&context, &x, i, notice.at(i as int)),
                Ok(p),
            ) && #[trigger] call_ensures(advance, (&x, &p.guided, i), y) ==> stage(i + 1, y),
    ensures
        exists|i: usize, x: T|
            i < steps && stage(i as int, x) && #[trigger] call_ensures(
                predict,
                (&context, &x, i, notice.at(i as int)),
                Err(error),
            ),
{
    let (k, states, preds) = choose|k: int, states: Seq<T>, preds: Seq<CfgPrediction<T>>|
        0 <= k < steps && #[trigger] euler_path(
            context,
            notice,
            predict,
            advance,
            x0,
            k,
            states,
            preds,
        ) && call_ensures(
            predict,
            (&context, &states[k], k as usize, notice.at(k)),
            Err(error),
        );
    lemma_path_stages(context, notice, predict, advance, x0, k, states, preds, stage, k);
    let i = k as usize;
    assert(call_ensures(predict, (&context, &states[k], i, notice.at(i as int)), Err(error)));
}

/// Where every step moves by its own time difference times a constant velocity,
/// a run moves by the time between its first and its last moment.
pub proof fn constant_velocity_moves_by_the_whole_time<X, T: Clone, P, A>(
    context: X,
    x0: T,
    steps: usize,
    mid_step: usize,
    capture: Capture,
    notice: StepNotice,
    predict: P,
    advance: A,
    run: EulerRun<T>,
    place: spec_fn(T) -> int,
    time: spec_fn(int) -> int,
    velocity: int,
) where
    P: Fn(&X, &T, usize, Option<SamplerStep>) -> Result<CfgPrediction<T>, String>,
    A: Fn(&T, &T, usize) -> T,

    requires
        euler_outcome(
            context,
            x0,
            steps,
            mid_step,
            capture,
            notice,
            predict,
            advance,
            Ok(run),
        ),
        forall|x: &T, v: &T, i: usize, y: T| #[trigger]
            call_ensures(advance, (x, v, i), y) ==> place(y) == place(*x) - (time(i as int) - time(
                i + 1,
            )) * velocity,
        forall|a: T, b: T| #[trigger] cloned(a, b) ==> a == b,
    ensures
        place(run.samples) == place(x0) - (time(0) - time(steps as int)) * velocity,
{
    let stage = |i: int, x: T| place(x) == place(x0) - (time(0) - time(i)) * velocity;
    assert((time(0) - time(0)) * velocity == 0);
    assert forall|i: usize, x: T, p: CfgPrediction<T>, y: T|
        i < steps && stage(i as int, x) && #[trigger] call_ensures(
            predict,
            (&context, &x, i, notice.at(i as int)),
            Ok(p),
        ) && #[trigger] call_ensures(advance, (&x, &p.guided, i), y) implies stage(i + 1, y) by {
        let (a, b, c) = (time(0), time(i as int), time(i + 1));
        assert((a - b) * velocity + (b - c) * velocity == (a - c) * velocity) by (nonlinear_arith);
    }
    steps_are_taken_in_turn(
        context,
        x0,
        steps,
        mid_step,
        capture,
        notice,
        predict,
        advance,
        run,
        stage,
        |i: int, v: T| true,
    );
}

// ---------------------------------------------------------------------------
// Guidance
// ---------------------------------------------------------------------------

/// Inside the interval a guided velocity is the weighted sum of both branches,
/// also where one branch is left out for its weight; outside it is that of the
/// positive branch.
pub proof fn guidance_weighs_both_branches<T: Clone, V, G>(
    state: GuidanceState,
    velocity: V,
    combine: G,
    p: CfgPrediction<T>,
    strength: int,
    amount: spec_fn(T) -> int,
    positive: int,
    negative: int,
) where V: Fn(GuidanceBranch) -> Result<T, String>, G: Fn(&T, &T) -> T
    requires
        guided_prediction(state, velocity, combine, Ok(p)),
        state.strength_is_one == (strength == 1),
        state.strength_is_zero == (strength == 0),
        forall|v: T| #[trigger]
            call_ensures(velocity, (GuidanceBranch::Positive,), Ok(v)) ==> amount(v) == positive,
        forall|v: T| #[trigger]
            call_ensures(velocity, (GuidanceBranch::Negative,), Ok(v)) ==> amount(v) == negative,
        forall|a: &T, b: &T, c: T| #[trigger]
            call_ensures(combine, (a, b), c) ==> amount(c) == strength * amount(*a) + (1 - strength)
                * amount(*b),
        forall|a: T, b: T| #[trigger] cloned(a, b) ==> a == b,
    ensures
        state.in_interval ==> amount(p.guided) == strength * positive + (1 - strength) * negative,
        !state.in_interval ==> amount(p.guided) == positive,
        p.pos matches Some(v) ==> amount(v) == positive,
        p.neg matches Some(v) ==> amount(v) == negative,
        p.pos is None <==> state.in_interval && strength == 0,
        p.neg is None <==> !state.in_interval || strength == 1,
{
    assert(1 * positive + 0 * negative == positive);
    assert(0 * positive + 1 * negative == negative);
}

// ---------------------------------------------------------------------------
// Dense runs
// ---------------------------------------------------------------------------

/// A run without a trace gives what its steps lead to.
pub proof fn final_state_is_that_of_the_last_step<X, T: Clone, P, A>(
    begun: (T, X),
    steps: usize,
    notice: StepNotice,
    predict: P,
    advance: A,
    out: T,
    stage: spec_fn(int, T) -> bool,
) where
    P: Fn(&X, &T, usize, Option<SamplerStep>) -> Result<CfgPrediction<T>, String>,
    A: Fn(&T, &T, usize) -> T,

    requires
        final_run_outcome(begun, steps, notice, predict, advance, Ok(out)),
        stage(0, begun.0),
        forall|i: usize, x: T, p: CfgPrediction<T>, y: T|
            i < steps && stage(i as int, x) && #[trigger] call_ensures(
                predict,
                (&begun.1, &x, i, notice.at(i as int)),
                Ok(p),
            ) && #[trigger] call_ensures(advance, (&x, &p.guided, i), y) ==> stage(i + 1, y),
        forall|a: T, b: T| #[trigger] cloned(a, b) ==> a == b,
    ensures
        stage(steps as int, out),
{
    let run = choose|run: Result<EulerRun<T>, String>| #[trigger]
        euler_outcome(
            begun.1,
            begun.0,
            steps,
            0,
            Capture::Off,
            notice,
            predict,
            advance,
            run,
        ) && match run {
            Ok(run) => Ok::<T, String>(out) == Ok::<T, String>(run.samples),
            Err(e) => Ok::<T, String>(out) == Err::<T, String>(e),
        };
    steps_are_taken_in_turn(
        begun.1,
        begun.0,
        steps,
        0,
        Capture::Off,
        notice,
        predict,
        advance,
        run->Ok_0,
        stage,
        |i: int, v: T| true,
    );
}

/// What is read back of a run, part after part.
pub open spec fn read_in_order<T, F>(parts: TraceParts<T>, host: spec_fn(T) -> Seq<F>) -> Seq<
    Seq<F>,
> {
    seq![
        host(parts.samples),
        host(parts.step_0_pred_v),
        host(parts.step_0_pred_v_pos),
        host(parts.step_0_pred_v_neg),
        host(parts.step_0_x_t),
        host(parts.step_mid_x_t),
        host(parts.step_last_x_t),
    ] + parts.step_pred_v@.map_values(host) + parts.step_x_t@.map_values(host)
}

/// The parts of a trace are what the host sees of the steps they are named
/// after: the states behind the first, the middle, the last and every step, and
/// the velocities of the first and every step. Without snapshots the sample
/// stands for every state.
pub proof fn dense_trace_shows_the_steps<X, T: Clone, F, P, A, Q, M>(
    begun: (T, X),
    steps: usize,
    mid_step: usize,
    capture_snapshots: bool,
    segment: nat,
    notice: StepNotice,
    predict: P,
    advance: A,
    read: Q,
    read_merged: M,
    trace: FlowEulerSampleTrace<F>,
    host: spec_fn(T) -> Seq<F>,
    stage: spec_fn(int, T) -> bool,
    moves: spec_fn(int, T) -> bool,
    shown: spec_fn(int, Seq<F>) -> bool,
    shown_move: spec_fn(int, Seq<F>) -> bool,
) where
    P: Fn(&X, &T, usize, Option<SamplerStep>) -> Result<CfgPrediction<T>, String>,
    A: Fn(&T, &T, usize) -> T,
    Q: FnOnce(&T) -> Result<Vec<F>, String>,
    M: FnOnce(&TraceParts<T>) -> Result<Vec<F>, String>,

    requires
        dense_run_outcome(
            begun,
            steps,
            mid_step,
            capture_snapshots,
            segment as int,
            notice,
            predict,
            advance,
            read,
            read_merged,
            Ok(trace),
        ),
        stage(0, begun.0),
        forall|i: usize, x: T, p: CfgPrediction<T>, y: T|
            i < steps && stage(i as int, x) && #[trigger] call_ensures(
                predict,
                (&begun.1, &x, i, notice.at(i as int)),
                Ok(p),
            ) && #[trigger] call_ensures(advance, (&x, &p.guided, i), y) ==> stage(i + 1, y),
        forall|i: usize, x: T, p: CfgPrediction<T>|
            i < steps && stage(i as int, x) && #[trigger] call_ensures(
                predict,
                (&begun.1, &x, i, notice.at(i as int)),
                Ok(p),
            ) ==> moves(i as int, p.guided),
        forall|a: T, b: T| #[trigger] cloned(a, b) ==> a == b,
        forall|x: T| (#[trigger] host(x)).len() == segment,
        forall|i: int, x: T| #[trigger] stage(i, x) ==> shown(i, host(x)),
        forall|i: int, v: T| #[trigger] moves(i, v) ==> shown_move(i, host(v)),
        forall|x: &T, values: Vec<F>| #[trigger]
            call_ensures(read, (x,), Ok(values)) ==> values@ == host(*x),
        forall|parts: &TraceParts<T>, values: Vec<F>| #[trigger]
            call_ensures(read_merged, (parts,), Ok(values)) ==> values@ == read_in_order(
                *parts,
                host,
            ).flatten(),
    ensures
        trace.steps == steps,
        shown(steps as int, trace.samples@),
        trace.step_last_x_t@ == trace.samples@,
        capture_snapshots && steps > 0 ==> shown(1, trace.step_0_x_t@),
        capture_snapshots && mid_step < steps ==> shown(mid_step + 1, trace.step_mid_x_t@),
        capture_snapshots && steps > 0 ==> shown_move(0, trace.step_0_pred_v@),
        capture_snapshots && steps > 0 ==> exists|p: CfgPrediction<T>| #[trigger]
            call_ensures(predict, (&begun.1, &begun.0, 0usize, notice.at(0)), Ok(p)) && (p.pos
                matches Some(v) ==> trace.step_0_pred_v_pos@ == host(v)) && (p.neg matches Some(v)
                ==> trace.step_0_pred_v_neg@ == host(v)),
        capture_snapshots ==> trace.step_x_t@.len() == steps && trace.step_pred_v@.len() == steps,
        capture_snapshots ==> forall|i: int|
            0 <= i < steps ==> shown(i + 1, (#[trigger] trace.step_x_t@[i])@),
        capture_snapshots ==> forall|i: int|
            0 <= i < steps ==> shown_move(i, (#[trigger] trace.step_pred_v@[i])@),
        !capture_snapshots ==> trace.step_0_x_t@ == trace.samples@ && trace.step_mid_x_t@
            == trace.samples@,
{
    let capture = if capture_snapshots {
        Capture::All
    } else {
        Capture::Off
    };
    let out: Result<FlowEulerSampleTrace<F>, String> = Ok(trace);
    let run_result = choose|run: Result<EulerRun<T>, String>| #[trigger]
        euler_outcome(
            begun.1,
            begun.0,
            steps,
            mid_step,
            dense_capture(capture_snapshots),
            notice,
            predict,
            advance,
            run,
        ) && match run {
            Ok(run) => dense_readback(
                run,
                capture_snapshots,
                steps,
                segment as int,
                read,
                read_merged,
                out,
            ),
            Err(e) => out == Err::<FlowEulerSampleTrace<F>, String>(e),
        };
    let run = run_result->Ok_0;
    steps_are_taken_in_turn(
        begun.1,
        begun.0,
        steps,
        mid_step,
        capture,
        notice,
        predict,
        advance,
        run,
        stage,
        moves,
    );
    assert(shown(steps as int, host(run.samples)));
    if capture_snapshots {
        let (parts, merged) = choose|parts: TraceParts<T>, merged: Result<Vec<F>, String>|
            parts_of_run(run, parts) && #[trigger] call_ensures(read_merged, (&parts,), merged)
                && match merged {
                Ok(values) => out matches Ok(trace) && is_split_trace(
                    trace,
                    steps,
                    values@,
                    segment as int,
                    run.preds@.len() as int,
                    run.states@.len() as int,
                ),
                Err(e) => out == Err::<FlowEulerSampleTrace<F>, String>(e),
            };
        let values = merged->Ok_0;
        let all = read_in_order(parts, host);
        assert(all.len() == 7 + 2 * steps);
        assert forall|k: int| 0 <= k < all.len() implies (#[trigger] all[k]).len() == segment by {}
        assert forall|k: int| 0 <= k < all.len() implies #[trigger] segment_of(
            values@,
            segment as int,
            k,
        ) == all[k] by {
            merged_readback_gives_back_parts(all, segment, k);
        }
        assert(all[0] == host(parts.samples) && all[1] == host(parts.step_0_pred_v) && all[2]
            == host(parts.step_0_pred_v_pos) && all[3] == host(parts.step_0_pred_v_neg) && all[4]
            == host(parts.step_0_x_t) && all[5] == host(parts.step_mid_x_t) && all[6] == host(
            parts.step_last_x_t,
        ));
        assert(segment_of(values@, segment as int, 0) == all[0]);
        assert(segment_of(values@, segment as int, 1) == all[1]);
        assert(segment_of(values@, segment as int, 2) == all[2]);
        assert(segment_of(values@, segment as int, 3) == all[3]);
        assert(segment_of(values@, segment as int, 4) == all[4]);
        assert(segment_of(values@, segment as int, 5) == all[5]);
        assert(segment_of(values@, segment as int, 6) == all[6]);
        assert forall|i: int| 0 <= i < steps implies shown(
            i + 1,
            (#[trigger] trace.step_x_t@[i])@,
        ) by {
            assert(segment_of(values@, segment as int, 7 + steps + i) == all[7 + steps + i]);
            assert(all[7 + steps + i] == host(run.states@[i]));
            assert(stage(i + 1, run.states@[i]));
        }
        assert forall|i: int| 0 <= i < steps implies shown_move(
            i,
            (#[trigger] trace.step_pred_v@[i])@,
        ) by {
            assert(segment_of(values@, segment as int, 7 + i) == all[7 + i]);
            assert(all[7 + i] == host(run.preds@[i]));
            assert(moves(i, run.preds@[i]));
        }
        if steps > 0 {
            let p = run.first->Some_0;
            assert(call_ensures(predict, (&begun.1, &begun.0, 0usize, notice.at(0)), Ok(p)));
            assert(moves(0, p.guided));
            assert(stage(1, run.step_0->Some_0));
        }
    }
}

// ---------------------------------------------------------------------------
// Sparse rows
// ---------------------------------------------------------------------------

/// The batch items that are sampled are those that have rows, each once, in
/// order.
pub proof fn items_with_rows_are_sampled_once(layout: Seq<Range<usize>>, n: int)
    requires
        0 <= n <= layout.len(),
    ensures
        ({
            let items = nonempty_batches(layout, n);
            &&& forall|j: int|
                0 <= j < items.len() ==> 0 <= (#[trigger] items[j]) < n && layout[items[j]].start
                    < layout[items[j]].end
            &&& forall|a: int, b: int|
                0 <= a < b < items.len() ==> (#[trigger] items[a]) < (#[trigger] items[b])
            &&& forall|k: int|
                0 <= k < n && (#[trigger] layout[k]).start < layout[k].end ==> items.contains(k)
        }),
    decreases n,
{
    if n > 0 {
        items_with_rows_are_sampled_once(layout, n - 1);
        let front = nonempty_batches(layout, n - 1);
        let items = nonempty_batches(layout, n);
        assert forall|k: int|
            0 <= k < n && (#[trigger] layout[k]).start < layout[k].end implies items.contains(
            k,
        ) by {
            if k < n - 1 {
                assert(front.contains(k));
                let j = choose|j: int| 0 <= j < front.len() && front[j] == k;
                assert(items[j] == k);
            } else {
                assert(items.last() == k);
            }
        }
    }
}

/// A batch item starts from its own rows, and its parts show its own steps: the
/// sample and the snapshots in their order, cut down to the number of its rows.
pub proof fn item_parts_show_the_steps<X, T: Clone, B, G, P, A, R>(
    notice: StepNotice,
    begin: G,
    predict: P,
    advance: A,
    rows: R,
    steps: usize,
    mid_step: usize,
    capture_snapshots: bool,
    item: usize,
    start: usize,
    end: usize,
    announced: bool,
    parts: Vec<B>,
    own: spec_fn(X) -> bool,
    stage: spec_fn(int, T) -> bool,
    moves: spec_fn(int, T) -> bool,
    shown: spec_fn(int, B) -> bool,
    shown_move: spec_fn(int, B) -> bool,
) where
    G: Fn(usize, usize, usize) -> Result<(T, X), String>,
    P: Fn(&X, &T, usize, Option<SamplerStep>) -> Result<CfgPrediction<T>, String>,
    A: Fn(&T, &T, usize) -> T,
    R: Fn(&T, usize) -> B,

    requires
        start <= end,
        batch_outcome(
            notice,
            begin,
            predict,
            advance,
            rows,
            steps,
            mid_step,
            capture_snapshots,
            item,
            start,
            end,
            announced,
            Ok(parts),
        ),
        forall|x: T, c: X| #[trigger]
            call_ensures(begin, (item, start, end), Ok((x, c))) ==> stage(0, x) && own(c),
        forall|c: X, i: usize, x: T, p: CfgPrediction<T>, y: T|
            own(c) && i < steps && stage(i as int, x) && #[trigger] call_ensures(
                predict,
                (&c, &x, i, notice.at(i as int)),
                Ok(p),
            ) && #[trigger] call_ensures(advance, (&x, &p.guided, i), y) ==> stage(i + 1, y),
        forall|c: X, i: usize, x: T, p: CfgPrediction<T>|
            own(c) && i < steps && stage(i as int, x) && #[trigger] call_ensures(
                predict,
                (&c, &x, i, notice.at(i as int)),
                Ok(p),
            ) ==> moves(i as int, p.guided),
        forall|a: T, b: T| #[trigger] cloned(a, b) ==> a == b,
        forall|i: int, x: &T, n: usize, b: B| #[trigger]
            stage(i, *x) && n == end - start && #[trigger] call_ensures(rows, (x, n), b) ==> shown(
                i,
                b,
            ),
        forall|i: int, v: &T, n: usize, b: B| #[trigger]
            moves(i, *v) && n == end - start && #[trigger] call_ensures(rows, (v, n), b)
                ==> shown_move(i, b),
    ensures
        announced,
        parts@.len() == (if capture_snapshots {
            7int
        } else {
            1int
        }),
        shown(steps as int, parts@[0]),
        capture_snapshots && steps > 0 ==> shown_move(0, parts@[1]) && shown(1, parts@[4]) && shown(
            steps as int,
            parts@[6],
        ),
        capture_snapshots && mid_step < steps ==> shown(mid_step + 1, parts@[5]),
{
    let out: Result<Vec<B>, String> = Ok(parts);
    let begun = choose|begun: Result<(T, X), String>| #[trigger]
        call_ensures(begin, (item, start, end), begun) && match begun {
            Err(e) => !announced && out == Err::<Vec<B>, String>(e),
            Ok(first) => announced && exists|run: Result<EulerRun<T>, String>| #[trigger]
                euler_outcome(
                    first.1,
                    first.0,
                    steps,
                    mid_step,
                    row_capture(capture_snapshots),
                    notice,
                    predict,
                    advance,
                    run,
                ) && match run {
                    Err(e) => out == Err::<Vec<B>, String>(e),
                    Ok(run) => out matches Ok(parts) && rows_of_run(
                        run,
                        capture_snapshots,
                        rows,
                        (end - start) as usize,
                        parts@,
                    ),
                },
        };
    let first = begun->Ok_0;
    let run_result = choose|run: Result<EulerRun<T>, String>| #[trigger]
        euler_outcome(
            first.1,
            first.0,
            steps,
            mid_step,
            row_capture(capture_snapshots),
            notice,
            predict,
            advance,
            run,
        ) && match run {
            Err(e) => out == Err::<Vec<B>, String>(e),
            Ok(run) => out matches Ok(parts) && rows_of_run(
                run,
                capture_snapshots,
                rows,
                (end - start) as usize,
                parts@,
            ),
        };
    let run = run_result->Ok_0;
    assert(call_ensures(begin, (item, start, end), Ok((first.0, first.1))));
    steps_are_taken_in_turn(
        first.1,
        first.0,
        steps,
        mid_step,
        row_capture(capture_snapshots),
        notice,
        predict,
        advance,
        run,
        stage,
        moves,
    );
    let n = (end - start) as usize;
    assert(stage(steps as int, run.samples));
    if capture_snapshots {
        let cut = choose|cut: TraceParts<T>| #[trigger]
            parts_of_run(run, cut) && call_ensures(rows, (&cut.samples, n), parts@[0])
                && call_ensures(rows, (&cut.step_0_pred_v, n), parts@[1]) && call_ensures(
                rows,
                (&cut.step_0_pred_v_pos, n),
                parts@[2],
            ) && call_ensures(rows, (&cut.step_0_pred_v_neg, n), parts@[3]) && call_ensures(
                rows,
                (&cut.step_0_x_t, n),
                parts@[4],
            ) && call_ensures(rows, (&cut.step_mid_x_t, n), parts@[5]) && call_ensures(
                rows,
                (&cut.step_last_x_t, n),
                parts@[6],
            );
        assert(parts_of_run(run, cut));
        assert(stage(steps as int, cut.samples));
        if steps > 0 {
            assert(moves(0, cut.step_0_pred_v));
            assert(stage(1, cut.step_0_x_t));
            assert(stage(steps as int, cut.step_last_x_t));
        }
        if mid_step < steps {
            assert(stage(mid_step + 1, cut.step_mid_x_t));
        }
    }
}

/// All batch items with rows are sampled in order, each from its own rows: what
/// holds of every item's parts holds of the parts at its place.
pub proof fn batch_items_are_sampled_in_turn<X, T: Clone, B, G, P, A, R>(
    layout: Seq<Range<usize>>,
    notice: StepNotice,
    begin: G,
    predict: P,
    advance: A,
    rows: R,
    steps: usize,
    mid_step: usize,
    capture_snapshots: bool,
    announced: bool,
    parts: Vec<Vec<B>>,
    good: spec_fn(int, Vec<B>) -> bool,
) where
    G: Fn(usize, usize, usize) -> Result<(T, X), String>,
    P: Fn(&X, &T, usize, Option<SamplerStep>) -> Result<CfgPrediction<T>, String>,
    A: Fn(&T, &T, usize) -> T,
    R: Fn(&T, usize) -> B,

    requires
        layout.len() <= usize::MAX,
        batches_outcome(
            layout,
            notice,
            begin,
            predict,
            advance,
            rows,
            steps,
            mid_step,
            capture_snapshots,
            announced,
            Ok(parts),
        ),
        forall|item: usize, p: Vec<B>|
            item < layout.len() && #[trigger] batch_outcome(
                notice,
                begin,
                predict,
                advance,
                rows,
                steps,
                mid_step,
                capture_snapshots,
                item,
                layout[item as int].start,
                layout[item as int].end,
                true,
                Ok(p),
            ) ==> good(item as int, p),
    ensures
        parts@.len() == nonempty_batches(layout, layout.len() as int).len(),
        forall|j: int|
            0 <= j < parts@.len() ==> good(
                nonempty_batches(layout, layout.len() as int)[j],
                #[trigger] parts@[j],
            ),
        announced <==> parts@.len() > 0,
{
    let items = nonempty_batches(layout, layout.len() as int);
    items_with_rows_are_sampled_once(layout, layout.len() as int);
    assert forall|j: int| 0 <= j < parts@.len() implies good(items[j], #[trigger] parts@[j]) by {
        let item = items[j] as usize;
        assert(batch_outcome(
            notice,
            begin,
            predict,
            advance,
            rows,
            steps,
            mid_step,
            capture_snapshots,
            item,
            layout[item as int].start,
            layout[item as int].end,
            true,
            Ok(parts@[j]),
        ));
    }
}

/// The rows of a trace are those of all batch items, joined part by part: with
/// snapshots every field shows its own part, without them the samples. Rows that
/// stay on the device leave the host fields empty.
pub proof fn row_traces_show_the_joined_parts<B, F, D: Clone, J, E, V, Q, M>(
    parts: Vec<Vec<B>>,
    capture_snapshots: bool,
    materialize_host_rows: bool,
    steps: usize,
    used_channels: usize,
    total_elements: usize,
    join: J,
    elements: E,
    device: V,
    read: Q,
    read_merged: M,
    trace: SparseFlowRowTrace<F, D>,
    column: spec_fn(int) -> Seq<F>,
    host: spec_fn(B) -> Seq<F>,
    kept: spec_fn(Seq<F>) -> Option<D>,
) where
    J: Fn(&Vec<Vec<B>>, usize) -> B,
    E: Fn(&B) -> usize,
    V: Fn(&B) -> Option<D>,
    Q: FnOnce(&B) -> Result<Vec<F>, String>,
    M: FnOnce(&Vec<B>) -> Result<Vec<F>, String>,

    requires
        trace_outcome(
            parts,
            capture_snapshots,
            materialize_host_rows,
            steps,
            used_channels,
            total_elements,
            join,
            elements,
            device,
            read,
            read_merged,
            Ok(trace),
        ),
        forall|k: usize, b: B| #[trigger]
            call_ensures(join, (&parts, k), b) ==> host(b) == column(k as int),
        forall|b: &B, n: usize| #[trigger]
            call_ensures(elements, (b,), n) ==> n == host(*b).len(),
        forall|b: &B, d: Option<D>| #[trigger]
            call_ensures(device, (b,), d) ==> d == kept(host(*b)),
        forall|b: &B, values: Vec<F>| #[trigger]
            call_ensures(read, (b,), Ok(values)) ==> values@ == host(*b),
        forall|list: &Vec<B>, values: Vec<F>| #[trigger]
            call_ensures(read_merged, (list,), Ok(values)) ==> values@ == list@.map_values(
                host,
            ).flatten(),
        forall|a: D, b: D| #[trigger] cloned(a, b) ==> a == b,
    ensures
        trace.steps == steps,
        trace.row_channels == used_channels,
        column(0).len() == total_elements,
        ({
            let stays = !materialize_host_rows && trace.device.samples is Some;
            &&& stays ==> trace.samples@.len() == 0 && trace.step_0_pred_v@.len() == 0
                && trace.step_0_pred_v_pos@.len() == 0 && trace.step_0_pred_v_neg@.len() == 0
                && trace.step_0_x_t@.len() == 0 && trace.step_mid_x_t@.len() == 0
                && trace.step_last_x_t@.len() == 0
            &&& !stays ==> trace.samples@ == column(0)
            &&& !stays && capture_snapshots ==> trace.step_0_pred_v@ == column(1)
            &&& !stays && capture_snapshots ==> trace.step_0_pred_v_pos@ == column(2)
            &&& !stays && capture_snapshots ==> trace.step_0_pred_v_neg@ == column(3)
            &&& !stays && capture_snapshots ==> trace.step_0_x_t@ == column(4)
            &&& !stays && capture_snapshots ==> trace.step_mid_x_t@ == column(5)
            &&& !stays && capture_snapshots ==> trace.step_last_x_t@ == column(6)
            &&& !stays && !capture_snapshots ==> trace.step_0_pred_v@ == column(0)
            &&& !stays && !capture_snapshots ==> trace.step_0_pred_v_pos@ == column(0)
            &&& !stays && !capture_snapshots ==> trace.step_0_pred_v_neg@ == column(0)
            &&& !stays && !capture_snapshots ==> trace.step_0_x_t@ == column(0)
            &&& !stays && !capture_snapshots ==> trace.step_mid_x_t@ == column(0)
            &&& !stays && !capture_snapshots ==> trace.step_last_x_t@ == column(0)
            &&& trace.device.samples == kept(column(0))
            &&& capture_snapshots ==> trace.device.step_0_pred_v == kept(column(1))
            &&& capture_snapshots ==> trace.device.step_0_pred_v_pos == kept(column(2))
            &&& capture_snapshots ==> trace.device.step_0_pred_v_neg == kept(column(3))
            &&& capture_snapshots ==> trace.device.step_0_x_t == kept(column(4))
            &&& capture_snapshots ==> trace.device.step_mid_x_t == kept(column(5))
            &&& capture_snapshots ==> trace.device.step_last_x_t == kept(column(6))
            &&& !capture_snapshots ==> trace.device.step_0_pred_v == kept(column(0))
            &&& !capture_snapshots ==> trace.device.step_0_pred_v_pos == kept(column(0))
            &&& !capture_snapshots ==> trace.device.step_0_pred_v_neg == kept(column(0))
            &&& !capture_snapshots ==> trace.device.step_0_x_t == kept(column(0))
            &&& !capture_snapshots ==> trace.device.step_mid_x_t == kept(column(0))
            &&& !capture_snapshots ==> trace.device.step_last_x_t == kept(column(0))
        }),
{
    let out: Result<SparseFlowRowTrace<F, D>, String> = Ok(trace);
    let joined_result = choose|joined: Result<Vec<B>, String>| #[trigger]
        join_outcome(
            parts,
            part_count(capture_snapshots),
            total_elements,
            join,
            elements,
            joined,
        ) && match joined {
            Err(e) => out == Err::<SparseFlowRowTrace<F, D>, String>(e),
            Ok(joined) => exists|rows: RowTraceDevice<D>| #[trigger]
                device_rows(joined@, capture_snapshots, device, rows) && row_readback(
                    joined,
                    capture_snapshots,
                    materialize_host_rows,
                    steps,
                    used_channels,
                    total_elements as int,
                    rows,
                    read,
                    read_merged,
                    out,
                ),
        };
    let joined = joined_result->Ok_0;
    let rows = choose|rows: RowTraceDevice<D>| #[trigger]
        device_rows(joined@, capture_snapshots, device, rows) && row_readback(
            joined,
            capture_snapshots,
            materialize_host_rows,
            steps,
            used_channels,
            total_elements as int,
            rows,
            read,
            read_merged,
            out,
        );
    assert(device_rows(joined@, capture_snapshots, device, rows));
    assert(trace.device == rows);
    assert forall|k: int| 0 <= k < joined@.len() implies host(#[trigger] joined@[k]) == column(k)
        && host(joined@[k]).len() == total_elements by {
        let i = k as usize;
        assert(call_ensures(join, (&parts, i), joined@[k]));
    }
    assert(host(joined@[0]) == column(0));
    if capture_snapshots {
        assert(host(joined@[1]) == column(1) && host(joined@[2]) == column(2) && host(joined@[3])
            == column(3) && host(joined@[4]) == column(4) && host(joined@[5]) == column(5) && host(
            joined@[6],
        ) == column(6));
        if materialize_host_rows || rows.samples is None {
            let list = joined@.map_values(host);
            let merged = choose|merged: Result<Vec<F>, String>| #[trigger]
                call_ensures(read_merged, (&joined,), merged) && match merged {
                    Ok(values) => out matches Ok(trace) && trace.is_split(
                        steps,
                        used_channels,
                        values@,
                        total_elements as int,
                        rows,
                    ),
                    Err(e) => out == Err::<SparseFlowRowTrace<F, D>, String>(e),
                };
            let values = merged->Ok_0;
            assert forall|k: int| 0 <= k < 7 implies #[trigger] segment_of(
                values@,
                total_elements as int,
                k,
            ) == column(k) by {
                merged_readback_gives_back_parts(list, total_elements as nat, k);
                assert(list[k] == host(joined@[k]));
            }
            assert(trace.is_split(steps, used_channels, values@, total_elements as int, rows));
        }
    }
}

// ---------------------------------------------------------------------------
// Host runs
// ---------------------------------------------------------------------------

/// Step `i` of a host run is guided, predicted and advanced under its own
/// number, element by element: whatever it carries from stage `i` to stage
/// `i + 1` is carried from the noise to the samples.
pub proof fn host_steps_are_taken_in_turn<F, N, V, X, S, A>(
    sigma_min: F,
    noise: Seq<F>,
    rescales: bool,
    guidance: N,
    velocity: V,
    mix: X,
    rescale: S,
    advance: A,
    steps: usize,
    trace: HostSampleTrace<F>,
    stage: spec_fn(int, Seq<F>) -> bool,
) where
    N: Fn(usize) -> GuidanceState,
    V: Fn(&Vec<F>, usize, bool) -> Vec<F>,
    X: Fn(F, F) -> F,
    S: Fn(F, &Vec<F>, &Vec<F>, &Vec<F>, usize) -> Vec<F>,
    A: Fn(F, F, usize) -> F,

    requires
        host_trace_outcome(
            sigma_min,
            noise,
            rescales,
            guidance,
            velocity,
            mix,
            rescale,
            advance,
            steps,
            trace,
        ),
        stage(0, noise),
        forall|i: usize, state: GuidanceState, x: Vec<F>, v: Vec<F>, next: Seq<F>|
            i < steps && #[trigger] stage(i as int, x@) && #[trigger] call_ensures(
                guidance,
                (i,),
                state,
            ) && #[trigger] host_guided(
                state,
                sigma_min,
                x,
                i,
                rescales,
                velocity,
                mix,
                rescale,
                v,
            ) && #[trigger] next.len() == x@.len() && (forall|j: int|
                0 <= j < x@.len() ==> call_ensures(
                    advance,
                    (x@[j], v@[j], i),
                    #[trigger] next[j],
                )) ==> stage(i + 1, next),
    ensures
        stage(steps as int, trace.samples@),
        steps > 0 ==> stage(1, trace.step_0_x_t@),
        trace.step_last_x_t@ == trace.samples@,
{
    let states = choose|states: Seq<Vec<F>>| #[trigger]
        host_path(
            sigma_min,
            noise,
            rescales,
            guidance,
            velocity,
            mix,
            rescale,
            advance,
            steps as int,
            states,
        ) && trace.samples@ == states[steps as int]@ && trace.step_0_x_t@ == (if steps > 0 {
            states[1]@
        } else {
            noise
        });
    lemma_host_stages(
        sigma_min,
        noise,
        rescales,
        guidance,
        velocity,
        mix,
        rescale,
        advance,
        steps,
        states,
        stage,
        steps as int,
    );
    if steps > 0 {
        lemma_host_stages(
            sigma_min,
            noise,
            rescales,
            guidance,
            velocity,
            mix,
            rescale,
            advance,
            steps,
            states,
            stage,
            1,
        );
    }
}

proof fn lemma_host_stages<F, N, V, X, S, A>(
    sigma_min: F,
    noise: Seq<F>,
    rescales: bool,
    guidance: N,
    velocity: V,
    mix: X,
    rescale: S,
    advance: A,
    steps: usize,
    states: Seq<Vec<F>>,
    stage: spec_fn(int, Seq<F>) -> bool,
    k: int,
) where
    N: Fn(usize) -> GuidanceState,
    V: Fn(&Vec<F>, usize, bool) -> Vec<F>,
    X: Fn(F, F) -> F,
    S: Fn(F, &Vec<F>, &Vec<F>, &Vec<F>, usize) -> Vec<F>,
    A: Fn(F, F, usize) -> F,

    requires
        host_path(
            sigma_min,
            noise,
            rescales,
            guidance,
            velocity,
            mix,
            rescale,
            advance,
            steps as int,
            states,
        ),
        0 <= k <= steps,
        stage(0, noise),
        forall|i: usize, state: GuidanceState, x: Vec<F>, v: Vec<F>, next: Seq<F>|
            i < steps && #[trigger] stage(i as int, x@) && #[trigger] call_ensures(
                guidance,
                (i,),
                state,
            ) && #[trigger] host_guided(
                state,
                sigma_min,
                x,
                i,
                rescales,
                velocity,
                mix,
                rescale,
                v,
            ) && #[trigger] next.len() == x@.len() && (forall|j: int|
                0 <= j < x@.len() ==> call_ensures(
                    advance,
                    (x@[j], v@[j], i),
                    #[trigger] next[j],
                )) ==> stage(i + 1, next),
    ensures
        stage(k, states[k]@),
    decreases k,
{
    if k > 0 {
        lemma_host_stages(
            sigma_min,
            noise,
            rescales,
            guidance,
            velocity,
            mix,
            rescale,
            advance,
            steps,
            states,
            stage,
            k - 1,
        );
        let i = (k - 1) as usize;
        assert(host_step(
            sigma_min,
            rescales,
            guidance,
            velocity,
            mix,
            rescale,
            advance,
            k - 1,
            states[k - 1],
            states[k - 1 + 1],
        ));
        let (state, v) = choose|state: GuidanceState, v: Vec<F>|
            call_ensures(guidance, (i,), state) && #[trigger] host_guided(
                state,
                sigma_min,
                states[k - 1],
                i,
                rescales,
                velocity,
                mix,
                rescale,
                v,
            ) && advanced_by(advance, i, states[k - 1]@, v@, states[k]@);
        assert(stage(i as int, states[k - 1]@));
        let next = states[k]@;
        assert(next.len() == states[k - 1]@.len());
    }
}

/// Inside the interval every element of a guided host velocity is the weighted
/// sum of both branches at its place, also where one branch is left out for its
/// weight; outside it is that of the positive branch.
pub proof fn host_guidance_weighs_both_branches<F, V, X, S>(
    state: GuidanceState,
    sigma_min: F,
    x: Vec<F>,
    step: usize,
    velocity: V,
    mix: X,
    rescale: S,
    r: Vec<F>,
    strength: int,
    amount: spec_fn(F) -> int,
    positive: spec_fn(int) -> int,
    negative: spec_fn(int) -> int,
    j: int,
) where
    V: Fn(&Vec<F>, usize, bool) -> Vec<F>,
    X: Fn(F, F) -> F,
    S: Fn(F, &Vec<F>, &Vec<F>, &Vec<F>, usize) -> Vec<F>,

    requires
        host_guided(state, sigma_min, x, step, false, velocity, mix, rescale, r),
        state.strength_is_one == (strength == 1),
        state.strength_is_zero == (strength == 0),
        0 <= j < r@.len(),
        forall|v: Vec<F>, k: int|
            call_ensures(velocity, (&x, step, true), v) && 0 <= k < v@.len() ==> amount(
                #[trigger] v@[k],
            ) == positive(k),
        forall|v: Vec<F>, k: int|
            call_ensures(velocity, (&x, step, false), v) && 0 <= k < v@.len() ==> amount(
                #[trigger] v@[k],
            ) == negative(k),
        forall|a: Vec<F>, b: Vec<F>| #[trigger]
            call_ensures(velocity, (&x, step, true), a) && #[trigger] call_ensures(
                velocity,
                (&x, step, false),
                b,
            ) ==> a@.len() <= b@.len(),
        forall|a: F, b: F, c: F| #[trigger]
            call_ensures(mix, (a, b), c) ==> amount(c) == strength * amount(a) + (1 - strength)
                * amount(b),
    ensures
        state.in_interval ==> amount(r@[j]) == strength * positive(j) + (1 - strength) * negative(
            j,
        ),
        !state.in_interval ==> amount(r@[j]) == positive(j),
{
    assert(1 * positive(j) + 0 * negative(j) == positive(j));
    assert(0 * positive(j) + 1 * negative(j) == negative(j));
    if state.in_interval && strength != 1 && strength != 0 {
        let (pos, neg, mixed) = choose|pos: Vec<F>, neg: Vec<F>, mixed: Vec<F>|
            call_ensures(velocity, (&x, step, true), pos) && call_ensures(
                velocity,
                (&x, step, false),
                neg,
            ) && #[trigger] mixed_and_rescaled(
                sigma_min,
                x,
                step,
                false,
                mix,
                rescale,
                pos,
                neg,
                mixed,
                r,
            );
        assert(mixed_and_rescaled(
            sigma_min,
            x,
            step,
            false,
            mix,
            rescale,
            pos,
            neg,
            mixed,
            r,
        ));
        assert(zipped(pos@, neg@, mix, mixed@));
        assert(call_ensures(mix, (pos@[j], neg@[j]), mixed@[j]));
    }
}

} // verus!
