//! The Euler sampler: guidance at each step, the walk through the steps with
//! its snapshots, the walk through batch items, and the traces read back.
//!
//! States and velocities are tensors of any type `T`; the caller brings the
//! arithmetic as functions.
use crate::flags::{
    clear_sparse_flow_sampler_step_for_attention, set_sparse_flow_sampler_step_for_attention,
    step_after_run, SamplerStep, StepNotice,
};
use crate::layout::{contiguous, layout_rows, lemma_rows_total, rows_total};
use core::ops::Range;
use vstd::prelude::*;

verus! {

// ---------------------------------------------------------------------------
// Settings
// ---------------------------------------------------------------------------

/// Settings of one sampler run, with numbers of type `F`.
#[derive(Clone, Copy, Debug)]
pub struct FlowEulerSampleConfig<F> {
    pub steps: usize,
    pub rescale_t: F,
    pub guidance_strength: F,
    pub guidance_rescale: F,
    pub guidance_interval: [F; 2],
}

/// Steps of a run: at least one.
pub fn effective_steps(steps: usize) -> (r: usize)
    ensures
        r == (if steps == 0 {
            1
        } else {
            steps
        }),
{
    if steps == 0 {
        1
    } else {
        steps
    }
}

/// Number of steps between two progress reports.
pub open spec fn progress_interval(steps: int) -> int {
    if steps <= 16 {
        1
    } else {
        steps / 8
    }
}

/// Number of steps between two progress reports.
pub fn runtime_sample_progress_interval(steps: usize) -> (r: usize)
    ensures
        r == progress_interval(steps as int),
        r >= 1,
{
    if steps <= 16 {
        1
    } else {
        let interval: usize = steps / 8;
        if interval >= 1 {
            interval
        } else {
            1
        }
    }
}

/// Whether progress is reported after the step of number `step_idx`.
pub fn reports_progress(step_idx: usize, steps: usize) -> (r: bool)
    requires
        step_idx < steps,
    ensures
        r == ((step_idx + 1) % progress_interval(steps as int) == 0 || step_idx + 1 == steps),
{
    let done: usize = step_idx + 1;
    let interval: usize = runtime_sample_progress_interval(steps);
    done % interval == 0 || done == steps
}

// ---------------------------------------------------------------------------
// Guidance
// ---------------------------------------------------------------------------

/// What timestep and strength ask of guidance.
#[derive(Clone, Copy, Debug, PartialEq, Eq, Structural)]
pub struct GuidanceState {
    /// The timestep lies in the guidance interval.
    pub in_interval: bool,
    /// The strength is one, up to rounding.
    pub strength_is_one: bool,
    /// The strength is zero, up to rounding.
    pub strength_is_zero: bool,
}

/// Condition under which a velocity is predicted.
#[derive(Clone, Copy, Debug, PartialEq, Eq, Structural)]
pub enum GuidanceBranch {
    Positive,
    Negative,
}

/// Branches that a step needs.
#[derive(Clone, Copy, Debug, PartialEq, Eq, Structural)]
pub enum GuidanceChoice {
    Positive,
    Negative,
    Both,
}

/// Branches that a step needs: outside the interval and at strength one the
/// positive one, at strength zero the negative one, otherwise both.
pub open spec fn guidance_choice_of(state: GuidanceState) -> GuidanceChoice {
    if !state.in_interval || state.strength_is_one {
        GuidanceChoice::Positive
    } else if state.strength_is_zero {
        GuidanceChoice::Negative
    } else {
        GuidanceChoice::Both
    }
}

/// Branches that a step needs.
pub fn guidance_choice(state: GuidanceState) -> (r: GuidanceChoice)
    ensures
        r == guidance_choice_of(state),
{
    if !state.in_interval {
        return GuidanceChoice::Positive;
    }
    if state.strength_is_one {
        return GuidanceChoice::Positive;
    }
    if state.strength_is_zero {
        return GuidanceChoice::Negative;
    }
    GuidanceChoice::Both
}

/// Whether a run needs the negative condition at all: the strength is not one
/// and some timestep lies in the guidance interval.
pub fn sample_cfg_needs_negative_condition(
    strength_is_one: bool,
    in_interval: &Vec<bool>,
) -> (r: bool)
    ensures
        r == (!strength_is_one && exists|i: int|
            0 <= i < in_interval@.len() && #[trigger] in_interval@[i]),
{
    if strength_is_one {
        return false;
    }
    let mut i: usize = 0;
    while i < in_interval.len()
        invariant
            i <= in_interval.len(),
            !strength_is_one,
            forall|j: int| 0 <= j < i ==> !(#[trigger] in_interval@[j]),
        decreases in_interval.len() - i,
    {
        if in_interval[i] {
            assert(in_interval@[i as int]);
            return true;
        }
        i = i + 1;
    }
    false
}

/// A step uses the negative condition only where the run is known to need it.
pub proof fn negative_branch_is_anticipated(
    strength_is_one: bool,
    in_interval: Seq<bool>,
    step: int,
    strength_is_zero: bool,
)
    requires
        0 <= step < in_interval.len(),
        guidance_choice_of(
            GuidanceState { in_interval: in_interval[step], strength_is_one, strength_is_zero },
        ) != GuidanceChoice::Positive,
    ensures
        !strength_is_one && exists|i: int| 0 <= i < in_interval.len() && #[trigger] in_interval[i],
{
    assert(in_interval[step]);
}

/// A step in the given state evaluates the branch.
pub open spec fn branch_needed(state: GuidanceState, branch: GuidanceBranch) -> bool {
    match guidance_choice_of(state) {
        GuidanceChoice::Positive => branch == GuidanceBranch::Positive,
        GuidanceChoice::Negative => branch == GuidanceBranch::Negative,
        GuidanceChoice::Both => true,
    }
}

/// A guided velocity with the branch velocities it was made from.
#[derive(Debug)]
pub struct CfgPrediction<T> {
    pub guided: T,
    pub pos: Option<T>,
    pub neg: Option<T>,
}

/// `p` holds one branch velocity, which also guides.
pub open spec fn single_branch<T: Clone>(
    branch: GuidanceBranch,
    velocity: T,
    p: CfgPrediction<T>,
) -> bool {
    &&& cloned(velocity, p.guided)
    &&& match branch {
        GuidanceBranch::Positive => p.pos == Some(velocity) && p.neg is None,
        GuidanceBranch::Negative => p.pos is None && p.neg == Some(velocity),
    }
}

/// `r` is what guidance makes of the branch velocities that `velocity` gives.
pub open spec fn guided_prediction<T: Clone, V, G>(
    state: GuidanceState,
    velocity: V,
    combine: G,
    r: Result<CfgPrediction<T>, String>,
) -> bool where V: Fn(GuidanceBranch) -> Result<T, String>, G: Fn(&T, &T) -> T {
    match guidance_choice_of(state) {
        GuidanceChoice::Positive => single_prediction(velocity, GuidanceBranch::Positive, r),
        GuidanceChoice::Negative => single_prediction(velocity, GuidanceBranch::Negative, r),
        GuidanceChoice::Both => both_predictions(velocity, combine, r),
    }
}

/// One branch decides: its error, or its velocity.
pub open spec fn single_prediction<T: Clone, V>(
    velocity: V,
    branch: GuidanceBranch,
    r: Result<CfgPrediction<T>, String>,
) -> bool where V: Fn(GuidanceBranch) -> Result<T, String> {
    match r {
        Ok(p) => exists|v: T| #[trigger]
            call_ensures(velocity, (branch,), Ok(v)) && single_branch(branch, v, p),
        Err(e) => call_ensures(velocity, (branch,), Err(e)),
    }
}

/// Both branches decide: the first error, or the combined velocities.
pub open spec fn both_predictions<T, V, G>(
    velocity: V,
    combine: G,
    r: Result<CfgPrediction<T>, String>,
) -> bool where V: Fn(GuidanceBranch) -> Result<T, String>, G: Fn(&T, &T) -> T {
    match r {
        Ok(p) => p.pos is Some && p.neg is Some && call_ensures(
            velocity,
            (GuidanceBranch::Positive,),
            Ok(p.pos->Some_0),
        ) && call_ensures(velocity, (GuidanceBranch::Negative,), Ok(p.neg->Some_0))
            && call_ensures(combine, (&p.pos->Some_0, &p.neg->Some_0), p.guided),
        Err(e) => call_ensures(velocity, (GuidanceBranch::Positive,), Err(e)) || exists|v: T|
            #[trigger] call_ensures(velocity, (GuidanceBranch::Positive,), Ok(v)) && call_ensures(
                velocity,
                (GuidanceBranch::Negative,),
                Err(e),
            ),
    }
}

/// Predicts a guided velocity from the branches that the step needs.
///
/// `velocity` predicts one branch, `combine` weighs the positive against the
/// negative velocity.
pub fn predict_with_cfg<T: Clone, V, G>(
    state: GuidanceState,
    velocity: V,
    combine: G,
) -> (r: Result<CfgPrediction<T>, String>) where
    V: Fn(GuidanceBranch) -> Result<T, String>,
    G: Fn(&T, &T) -> T,

    requires
        branch_needed(state, GuidanceBranch::Positive) ==> call_requires(
            velocity,
            (GuidanceBranch::Positive,),
        ),
        branch_needed(state, GuidanceBranch::Negative) ==> call_requires(
            velocity,
            (GuidanceBranch::Negative,),
        ),
        guidance_choice_of(state) == GuidanceChoice::Both ==> forall|a: &T, b: &T|
            call_requires(combine, (a, b)),
    ensures
        guided_prediction(state, velocity, combine, r),
{
    match guidance_choice(state) {
        GuidanceChoice::Positive => match velocity(GuidanceBranch::Positive) {
            Ok(v) => Ok(CfgPrediction { guided: v.clone(), pos: Some(v), neg: None }),
            Err(e) => Err(e),
        },
        GuidanceChoice::Negative => match velocity(GuidanceBranch::Negative) {
            Ok(v) => Ok(CfgPrediction { guided: v.clone(), pos: None, neg: Some(v) }),
            Err(e) => Err(e),
        },
        GuidanceChoice::Both => {
            let pos: T = match velocity(GuidanceBranch::Positive) {
                Ok(v) => v,
                Err(e) => return Err(e),
            };
            let neg: T = match velocity(GuidanceBranch::Negative) {
                Ok(v) => v,
                Err(e) => return Err(e),
            };
            let guided: T = combine(&pos, &neg);
            Ok(CfgPrediction { guided, pos: Some(pos), neg: Some(neg) })
        },
    }
}

/// Where the cached projections of a batched prediction come from.
#[derive(Clone, Copy, Debug, PartialEq, Eq, Structural)]
pub enum BatchedCache {
    /// There are none: both conditions are stacked.
    Stacked,
    /// They were joined before the run.
    Given,
    /// They are joined for this step.
    Joined,
}

/// How both branches run as one batch, where they do.
///
/// `joins` says whether the two branch caches, both present, can be joined.
pub open spec fn batched_route_of(
    enabled: bool,
    has_pos_cache: bool,
    has_neg_cache: bool,
    has_batched_cache: bool,
    joins: bool,
) -> Option<BatchedCache> {
    if !enabled {
        None
    } else if has_batched_cache {
        Some(BatchedCache::Given)
    } else if has_pos_cache && has_neg_cache && joins {
        Some(BatchedCache::Joined)
    } else if !has_pos_cache && !has_neg_cache {
        Some(BatchedCache::Stacked)
    } else {
        None
    }
}

/// How both branches run as one batch, where they do.
pub fn batched_route(
    enabled: bool,
    has_pos_cache: bool,
    has_neg_cache: bool,
    has_batched_cache: bool,
    joins: bool,
) -> (r: Option<BatchedCache>)
    ensures
        r == batched_route_of(enabled, has_pos_cache, has_neg_cache, has_batched_cache, joins),
{
    if !enabled {
        return None;
    }
    let cache: Option<BatchedCache> = if has_batched_cache {
        Some(BatchedCache::Given)
    } else if has_pos_cache && has_neg_cache && joins {
        Some(BatchedCache::Joined)
    } else {
        None
    };
    if (!has_pos_cache && !has_neg_cache) || cache.is_some() {
        match cache {
            Some(c) => Some(c),
            None => Some(BatchedCache::Stacked),
        }
    } else {
        None
    }
}

/// Batch rows of the two branches in the output of a batched prediction.
pub fn batched_halves(sample_batches: usize) -> (r: (Range<usize>, Range<usize>))
    requires
        2 * sample_batches <= usize::MAX,
    ensures
        r.0.start == 0,
        r.0.end == sample_batches,
        r.1.start == sample_batches,
        r.1.end == 2 * sample_batches,
{
    (0..sample_batches, sample_batches..sample_batches * 2)
}

/// Predicts a guided velocity where both branches may run as one batch.
///
/// `batched` predicts both branches at once; it is used where the step needs
/// both and `route` is given.
pub fn predict_with_cfg_sparse<T: Clone, V, W, G>(
    state: GuidanceState,
    route: Option<BatchedCache>,
    velocity: V,
    batched: W,
    combine: G,
) -> (r: Result<CfgPrediction<T>, String>) where
    V: Fn(GuidanceBranch) -> Result<T, String>,
    W: Fn(BatchedCache) -> Result<(T, T), String>,
    G: Fn(&T, &T) -> T,

    requires
        guidance_choice_of(state) == GuidanceChoice::Both && route is Some ==> call_requires(
            batched,
            (route->Some_0,),
        ),
        branch_needed(state, GuidanceBranch::Positive) && (guidance_choice_of(state)
            != GuidanceChoice::Both || route is None) ==> call_requires(
            velocity,
            (GuidanceBranch::Positive,),
        ),
        branch_needed(state, GuidanceBranch::Negative) && (guidance_choice_of(state)
            != GuidanceChoice::Both || route is None) ==> call_requires(
            velocity,
            (GuidanceBranch::Negative,),
        ),
        guidance_choice_of(state) == GuidanceChoice::Both ==> forall|a: &T, b: &T|
            call_requires(combine, (a, b)),
    ensures
        guidance_choice_of(state) == GuidanceChoice::Both && route is Some ==> match r {
            Ok(p) => p.pos is Some && p.neg is Some && call_ensures(
                batched,
                (route->Some_0,),
                Ok((p.pos->Some_0, p.neg->Some_0)),
            ) && call_ensures(combine, (&p.pos->Some_0, &p.neg->Some_0), p.guided),
            Err(e) => call_ensures(batched, (route->Some_0,), Err(e)),
        },
        guidance_choice_of(state) != GuidanceChoice::Both || route is None ==> guided_prediction(
            state,
            velocity,
            combine,
            r,
        ),
{
    if let GuidanceChoice::Both = guidance_choice(state) {
        if let Some(cache) = route {
            return match batched(cache) {
                Ok((pos, neg)) => {
                    let guided: T = combine(&pos, &neg);
                    Ok(CfgPrediction { guided, pos: Some(pos), neg: Some(neg) })
                },
                Err(e) => Err(e),
            };
        }
    }
    predict_with_cfg(state, velocity, combine)
}

// ---------------------------------------------------------------------------
// Steps
// ---------------------------------------------------------------------------

/// What a run leaves behind.
#[derive(Debug)]
pub struct EulerRun<T> {
    /// State after the last step.
    pub samples: T,
    /// Prediction of the first step.
    pub first: Option<CfgPrediction<T>>,
    /// State after the first step.
    pub step_0: Option<T>,
    /// State after the middle step.
    pub step_mid: Option<T>,
    /// State after the last step.
    pub step_last: Option<T>,
    /// Guided velocities of all steps.
    pub preds: Vec<T>,
    /// States after all steps.
    pub states: Vec<T>,
}

/// Which snapshots a run keeps.
#[derive(Clone, Copy, Debug, PartialEq, Eq, Structural)]
pub enum Capture {
    /// None.
    Off,
    /// Those of the first, the middle and the last step.
    Ends,
    /// Those, and velocity and state of every step.
    All,
}

/// `states` and `preds` are `n` steps from `x0`: each prediction is made at
/// the state of its step, each next state is the step's advance.
pub open spec fn euler_path<X, T, P, A>(
    context: X,
    notice: StepNotice,
    predict: P,
    advance: A,
    x0: T,
    n: int,
    states: Seq<T>,
    preds: Seq<CfgPrediction<T>>,
) -> bool where
    P: Fn(&X, &T, usize, Option<SamplerStep>) -> Result<CfgPrediction<T>, String>,
    A: Fn(&T, &T, usize) -> T,
 {
    &&& states.len() == n + 1
    &&& preds.len() == n
    &&& states[0] == x0
    &&& forall|i: int|
        0 <= i < n ==> call_ensures(
            predict,
            (&context, &states[i], i as usize, notice.at(i)),
            Ok(#[trigger] preds[i]),
        ) && call_ensures(advance, (&states[i], &preds[i].guided, i as usize), states[i + 1])
}

/// Outcome of a run: its snapshots, or the error of the first prediction that fails.
pub open spec fn euler_outcome<X, T: Clone, P, A>(
    context: X,
    x0: T,
    steps: usize,
    mid_step: usize,
    capture: Capture,
    notice: StepNotice,
    predict: P,
    advance: A,
    out: Result<EulerRun<T>, String>,
) -> bool where
    P: Fn(&X, &T, usize, Option<SamplerStep>) -> Result<CfgPrediction<T>, String>,
    A: Fn(&T, &T, usize) -> T,
 {
    match out {
        Ok(run) => exists|states: Seq<T>, preds: Seq<CfgPrediction<T>>| #[trigger]
            euler_path(context, notice, predict, advance, x0, steps as int, states, preds)
                && run_snapshots(
                run,
                capture,
                steps as int,
                mid_step as int,
                steps as int,
                states,
                preds,
            ),
        Err(e) => exists|k: int, states: Seq<T>, preds: Seq<CfgPrediction<T>>|
            0 <= k < steps && #[trigger] euler_path(
                context,
                notice,
                predict,
                advance,
                x0,
                k,
                states,
                preds,
            ) && call_ensures(
                predict,
                (&context, &states[k], k as usize, notice.at(k)),
                Err(e),
            ),
    }
}

/// A snapshot of `value`, kept where `kept` holds.
pub open spec fn snapshot_of<T: Clone>(kept: bool, value: T, snapshot: Option<T>) -> bool {
    if kept {
        snapshot is Some && cloned(value, snapshot->Some_0)
    } else {
        snapshot is None
    }
}

/// `run` holds the snapshots of the first `n` of `steps` steps.
pub open spec fn run_snapshots<T: Clone>(
    run: EulerRun<T>,
    capture: Capture,
    steps: int,
    mid_step: int,
    n: int,
    states: Seq<T>,
    preds: Seq<CfgPrediction<T>>,
) -> bool {
    let on = capture != Capture::Off;
    &&& run.samples == states[n]
    &&& (if on && n > 0 {
        run.first is Some && cloned(preds[0].guided, run.first->Some_0.guided)
            && run.first->Some_0.pos == preds[0].pos && run.first->Some_0.neg == preds[0].neg
    } else {
        run.first is None
    })
    &&& snapshot_of(on && n > 0, states[1], run.step_0)
    &&& snapshot_of(on && mid_step < n, states[mid_step + 1], run.step_mid)
    &&& snapshot_of(on && n > 0 && n == steps, states[steps], run.step_last)
    &&& (if capture == Capture::All {
        &&& run.preds@.len() == n
        &&& run.states@.len() == n
        &&& forall|i: int| 0 <= i < n ==> cloned(preds[i].guided, #[trigger] run.preds@[i])
        &&& forall|i: int| 0 <= i < n ==> cloned(states[i + 1], #[trigger] run.states@[i])
    } else {
        run.preds@.len() == 0 && run.states@.len() == 0
    })
}

/// Runs the sampler from `x0`.
///
/// `predict` gives the guided velocity at a state in a context, `advance` the
/// state that a step of that velocity leads to. The first failing prediction
/// ends the run. Every step is announced before its prediction, and the
/// announcement ends with the run, however it ends.
pub fn euler_steps<X, T: Clone, P, A>(
    context: &X,
    x0: T,
    steps: usize,
    mid_step: usize,
    capture: Capture,
    wgpu: bool,
    current: &mut Option<SamplerStep>,
    predict: &P,
    advance: &A,
) -> (r: Result<EulerRun<T>, String>) where
    P: Fn(&X, &T, usize, Option<SamplerStep>) -> Result<CfgPrediction<T>, String>,
    A: Fn(&T, &T, usize) -> T,

    requires
        forall|c: &X, x: &T, i: usize, s: Option<SamplerStep>|
            call_requires(*predict, (c, x, i, s)),
        forall|x: &T, v: &T, i: usize| call_requires(*advance, (x, v, i)),
    ensures
        euler_outcome(
            *context,
            x0,
            steps,
            mid_step,
            capture,
            StepNotice::of(wgpu, *old(current), steps),
            *predict,
            *advance,
            r,
        ),
        *final(current) == step_after_run(wgpu, *old(current)),
{
    let ghost before = *current;
    let ghost notice = StepNotice::of(wgpu, before, steps);
    let ghost mut states: Seq<T> = seq![x0];
    let ghost mut preds: Seq<CfgPrediction<T>> = Seq::empty();
    let ghost start = x0;
    let mut run: EulerRun<T> = EulerRun {
        samples: x0,
        first: None,
        step_0: None,
        step_mid: None,
        step_last: None,
        preds: Vec::new(),
        states: Vec::new(),
    };
    let mut i: usize = 0;
    while i < steps
        invariant
            i <= steps,
            start == x0,
            forall|c: &X, x: &T, i: usize, s: Option<SamplerStep>|
                call_requires(*predict, (c, x, i, s)),
            forall|x: &T, v: &T, i: usize| call_requires(*advance, (x, v, i)),
            before == *old(current),
            notice == StepNotice::of(wgpu, before, steps),
            !wgpu ==> *current == before,
            euler_path(*context, notice, *predict, *advance, start, i as int, states, preds),
            run_snapshots(run, capture, steps as int, mid_step as int, i as int, states, preds),
        decreases steps - i,
    {
        set_sparse_flow_sampler_step_for_attention(current, wgpu, i, steps);
        assert((i as int) as usize == i);
        assert(*current == notice.at(i as int));
        let pred: CfgPrediction<T> = match predict(context, &run.samples, i, *current) {
            Ok(p) => p,
            Err(e) => {
                clear_sparse_flow_sampler_step_for_attention(current, wgpu);
                assert(euler_path(
                    *context,
                    notice,
                    *predict,
                    *advance,
                    x0,
                    i as int,
                    states,
                    preds,
                ));
                return Err(e);
            },
        };
        let next: T = advance(&run.samples, &pred.guided, i);
        let ghost old_run = run;
        proof {
            let old_states = states;
            let old_preds = preds;
            states = states.push(next);
            preds = preds.push(pred);
            assert forall|j: int| 0 <= j < i + 1 implies call_ensures(
                *predict,
                (context, &states[j], j as usize, notice.at(j)),
                Ok(#[trigger] preds[j]),
            ) && call_ensures(
                *advance,
                (&states[j], &preds[j].guided, j as usize),
                states[j + 1],
            ) by {
                if j < i {
                    assert(preds[j] == old_preds[j]);
                    assert(states[j] == old_states[j] && states[j + 1] == old_states[j + 1]);
                }
            }
        }
        let all: bool = capture == Capture::All;
        let on: bool = capture != Capture::Off;
        if all {
            run.preds.push(pred.guided.clone());
            run.states.push(next.clone());
        }
        if on && i == 0 {
            let guided: T = pred.guided.clone();
            run.first = Some(CfgPrediction { guided, pos: pred.pos, neg: pred.neg });
            run.step_0 = Some(next.clone());
        }
        if on && i == mid_step {
            run.step_mid = Some(next.clone());
        }
        if on && i + 1 == steps {
            run.step_last = Some(next.clone());
        }
        run.samples = next;
        proof {
            if all {
                assert forall|j: int| 0 <= j < i + 1 implies cloned(
                    preds[j].guided,
                    #[trigger] run.preds@[j],
                ) by {
                    if j < i {
                        assert(run.preds@[j] == old_run.preds@[j]);
                    }
                }
                assert forall|j: int| 0 <= j < i + 1 implies cloned(
                    states[j + 1],
                    #[trigger] run.states@[j],
                ) by {
                    if j < i {
                        assert(run.states@[j] == old_run.states@[j]);
                    }
                }
            }
        }
        i = i + 1;
    }
    clear_sparse_flow_sampler_step_for_attention(current, wgpu);
    Ok(run)
}

/// In a captured run of at least one step, the last snapshot is the sample.
pub proof fn last_snapshot_is_the_sample<T: Clone>(
    run: EulerRun<T>,
    capture: Capture,
    steps: int,
    mid_step: int,
    states: Seq<T>,
    preds: Seq<CfgPrediction<T>>,
)
    requires
        steps > 0,
        capture != Capture::Off,
        run_snapshots(run, capture, steps, mid_step, steps, states, preds),
    ensures
        run.step_last is Some && cloned(run.samples, run.step_last->Some_0),
{
}

// ---------------------------------------------------------------------------
// Traces
// ---------------------------------------------------------------------------

/// The parts of a run that are read back; a missing snapshot is the sample.
#[derive(Debug)]
pub struct TraceParts<T> {
    pub samples: T,
    pub step_0_pred_v: T,
    pub step_0_pred_v_pos: T,
    pub step_0_pred_v_neg: T,
    pub step_0_x_t: T,
    pub step_mid_x_t: T,
    pub step_last_x_t: T,
    pub step_pred_v: Vec<T>,
    pub step_x_t: Vec<T>,
}

/// `part` is the snapshot, or the sample where there is none.
pub open spec fn part_of<T: Clone>(snapshot: Option<T>, samples: T, part: T) -> bool {
    match snapshot {
        Some(s) => part == s,
        None => cloned(samples, part),
    }
}

fn snapshot_or<T: Clone>(snapshot: Option<T>, samples: &T) -> (r: T)
    ensures
        part_of(snapshot, *samples, r),
{
    match snapshot {
        Some(s) => s,
        None => samples.clone(),
    }
}

/// `parts` is what is read back of a run.
pub open spec fn parts_of_run<T: Clone>(run: EulerRun<T>, parts: TraceParts<T>) -> bool {
    &&& parts.samples == run.samples
    &&& match run.first {
        Some(p) => parts.step_0_pred_v == p.guided && part_of(
            p.pos,
            run.samples,
            parts.step_0_pred_v_pos,
        ) && part_of(p.neg, run.samples, parts.step_0_pred_v_neg),
        None => cloned(run.samples, parts.step_0_pred_v) && cloned(
            run.samples,
            parts.step_0_pred_v_pos,
        ) && cloned(run.samples, parts.step_0_pred_v_neg),
    }
    &&& part_of(run.step_0, run.samples, parts.step_0_x_t)
    &&& part_of(run.step_mid, run.samples, parts.step_mid_x_t)
    &&& part_of(run.step_last, run.samples, parts.step_last_x_t)
    &&& parts.step_pred_v == run.preds
    &&& parts.step_x_t == run.states
}

/// Takes a run apart into what is read back.
pub fn trace_parts<T: Clone>(run: EulerRun<T>) -> (r: TraceParts<T>)
    ensures
        parts_of_run(run, r),
{
    let samples: T = run.samples;
    let (guided, pos, neg): (T, T, T) = match run.first {
        Some(p) => (p.guided, snapshot_or(p.pos, &samples), snapshot_or(p.neg, &samples)),
        None => (samples.clone(), samples.clone(), samples.clone()),
    };
    let step_0_x_t: T = snapshot_or(run.step_0, &samples);
    let step_mid_x_t: T = snapshot_or(run.step_mid, &samples);
    let step_last_x_t: T = snapshot_or(run.step_last, &samples);
    TraceParts {
        samples,
        step_0_pred_v: guided,
        step_0_pred_v_pos: pos,
        step_0_pred_v_neg: neg,
        step_0_x_t,
        step_mid_x_t,
        step_last_x_t,
        step_pred_v: run.preds,
        step_x_t: run.states,
    }
}

/// A run of a dense grid, read back to the host.
#[derive(Debug)]
pub struct FlowEulerSampleTrace<F> {
    pub steps: usize,
    pub samples: Vec<F>,
    pub step_0_pred_v: Vec<F>,
    pub step_0_pred_v_pos: Vec<F>,
    pub step_0_pred_v_neg: Vec<F>,
    pub step_0_x_t: Vec<F>,
    pub step_mid_x_t: Vec<F>,
    pub step_last_x_t: Vec<F>,
    pub step_pred_v: Vec<Vec<F>>,
    pub step_x_t: Vec<Vec<F>>,
}

/// Segment of number `k` of a merged readback.
pub open spec fn segment_of<F>(merged: Seq<F>, segment: int, k: int) -> Seq<F> {
    merged.subrange(k * segment, (k + 1) * segment)
}

/// The elements `from..to` of a list.
pub fn copy_range<F: Copy>(values: &Vec<F>, from: usize, to: usize) -> (r: Vec<F>)
    requires
        from <= to <= values@.len(),
    ensures
        r@ == values@.subrange(from as int, to as int),
{
    let mut out: Vec<F> = Vec::new();
    let mut i: usize = from;
    while i < to
        invariant
            from <= i <= to <= values@.len(),
            out@ == values@.subrange(from as int, i as int),
        decreases to - i,
    {
        out.push(values[i]);
        assert(out@ =~= values@.subrange(from as int, i as int + 1));
        i = i + 1;
    }
    out
}

/// Segment of number `k` of a merged readback.
pub fn copy_segment<F: Copy>(merged: &Vec<F>, segment: usize, k: usize) -> (r: Vec<F>)
    requires
        (k + 1) * segment <= merged@.len(),
    ensures
        r@ == segment_of(merged@, segment as int, k as int),
{
    let len: usize = merged.len();
    proof {
        assert((k + 1) * segment == k * segment + segment) by (nonlinear_arith);
        assert(0 <= k * segment) by (nonlinear_arith);
        assert(k * segment + segment <= len);
    }
    let from: usize = k * segment;
    copy_range(merged, from, from + segment)
}

/// `count` consecutive segments from number `first` on.
fn copy_segments<F: Copy>(merged: &Vec<F>, segment: usize, first: usize, count: usize) -> (r: Vec<
    Vec<F>,
>)
    requires
        (first + count) * segment <= merged@.len(),
        first + count <= usize::MAX,
    ensures
        r@.len() == count,
        forall|i: int|
            0 <= i < count ==> (#[trigger] r@[i])@ == segment_of(
                merged@,
                segment as int,
                first + i,
            ),
{
    let mut out: Vec<Vec<F>> = Vec::new();
    let mut i: usize = 0;
    while i < count
        invariant
            i <= count,
            (first + count) * segment <= merged@.len(),
            first + count <= usize::MAX,
            out@.len() == i,
            forall|j: int|
                0 <= j < i ==> (#[trigger] out@[j])@ == segment_of(
                    merged@,
                    segment as int,
                    first + j,
                ),
        decreases count - i,
    {
        proof {
            assert((first + i + 1) * segment <= (first + count) * segment) by (nonlinear_arith)
                requires
                    i < count,
            ;
        }
        out.push(copy_segment(merged, segment, first + i));
        i = i + 1;
    }
    out
}

/// `trace` holds the segments of one merged readback: seven single ones, then
/// the velocities, then the states of all steps.
pub open spec fn is_split_trace<F>(
    trace: FlowEulerSampleTrace<F>,
    steps: usize,
    merged: Seq<F>,
    segment: int,
    pred_count: int,
    state_count: int,
) -> bool {
    &&& trace.steps == steps
    &&& trace.samples@ == segment_of(merged, segment, 0)
    &&& trace.step_0_pred_v@ == segment_of(merged, segment, 1)
    &&& trace.step_0_pred_v_pos@ == segment_of(merged, segment, 2)
    &&& trace.step_0_pred_v_neg@ == segment_of(merged, segment, 3)
    &&& trace.step_0_x_t@ == segment_of(merged, segment, 4)
    &&& trace.step_mid_x_t@ == segment_of(merged, segment, 5)
    &&& trace.step_last_x_t@ == segment_of(merged, segment, 6)
    &&& trace.step_pred_v@.len() == pred_count
    &&& forall|i: int|
        0 <= i < pred_count ==> (#[trigger] trace.step_pred_v@[i])@ == segment_of(
            merged,
            segment,
            7 + i,
        )
    &&& trace.step_x_t@.len() == state_count
    &&& forall|i: int|
        0 <= i < state_count ==> (#[trigger] trace.step_x_t@[i])@ == segment_of(
            merged,
            segment,
            7 + pred_count + i,
        )
}

/// Cuts one merged readback into the trace of a captured dense run.
pub fn split_dense_trace<F: Copy>(
    steps: usize,
    merged: &Vec<F>,
    segment: usize,
    pred_count: usize,
    state_count: usize,
) -> (r: FlowEulerSampleTrace<F>)
    requires
        7 + pred_count + state_count <= usize::MAX,
        merged@.len() == (7 + pred_count + state_count) * segment,
    ensures
        is_split_trace(
            r,
            steps,
            merged@,
            segment as int,
            pred_count as int,
            state_count as int,
        ),
{
    proof {
        let n = 7 + pred_count + state_count;
        let s = segment as int;
        assert(forall|k: int| 0 <= k <= n ==> #[trigger] (k * s) <= n * s) by (nonlinear_arith)
            requires
                s >= 0,
        ;
        assert(1 * s <= n * s && 2 * s <= n * s && 3 * s <= n * s && 4 * s <= n * s && 5 * s <= n
            * s && 6 * s <= n * s && 7 * s <= n * s);
        assert((7 + pred_count) * s <= n * s);
    }
    FlowEulerSampleTrace {
        steps,
        samples: copy_segment(merged, segment, 0),
        step_0_pred_v: copy_segment(merged, segment, 1),
        step_0_pred_v_pos: copy_segment(merged, segment, 2),
        step_0_pred_v_neg: copy_segment(merged, segment, 3),
        step_0_x_t: copy_segment(merged, segment, 4),
        step_mid_x_t: copy_segment(merged, segment, 5),
        step_last_x_t: copy_segment(merged, segment, 6),
        step_pred_v: copy_segments(merged, segment, 7, pred_count),
        step_x_t: copy_segments(merged, segment, 7 + pred_count, state_count),
    }
}

/// `trace` is that of a dense run without snapshots: every state is the sample.
pub open spec fn is_plain_trace<F>(
    trace: FlowEulerSampleTrace<F>,
    steps: usize,
    samples: Seq<F>,
) -> bool {
    &&& trace.steps == steps
    &&& trace.samples@ == samples
    &&& trace.step_0_pred_v@.len() == 0
    &&& trace.step_0_pred_v_pos@.len() == 0
    &&& trace.step_0_pred_v_neg@.len() == 0
    &&& trace.step_0_x_t@ == samples
    &&& trace.step_mid_x_t@ == samples
    &&& trace.step_last_x_t@ == samples
    &&& trace.step_pred_v@.len() == 0
    &&& trace.step_x_t@.len() == 0
}

/// The trace of a dense run without snapshots.
pub fn plain_dense_trace<F: Copy>(steps: usize, samples: Vec<F>) -> (r: FlowEulerSampleTrace<F>)
    ensures
        is_plain_trace(r, steps, samples@),
{
    let n: usize = samples.len();
    let step_0_x_t: Vec<F> = copy_range(&samples, 0, n);
    let step_mid_x_t: Vec<F> = copy_range(&samples, 0, n);
    let step_last_x_t: Vec<F> = copy_range(&samples, 0, n);
    proof {
        assert(samples@.subrange(0, n as int) =~= samples@);
    }
    FlowEulerSampleTrace {
        steps,
        samples,
        step_0_pred_v: Vec::new(),
        step_0_pred_v_pos: Vec::new(),
        step_0_pred_v_neg: Vec::new(),
        step_0_x_t,
        step_mid_x_t,
        step_last_x_t,
        step_pred_v: Vec::new(),
        step_x_t: Vec::new(),
    }
}

/// A run of sparse rows: host rows, and device rows of type `D`.
#[derive(Debug)]
pub struct SparseFlowRowTrace<F, D> {
    pub steps: usize,
    pub row_channels: usize,
    pub samples: Vec<F>,
    pub step_0_pred_v: Vec<F>,
    pub step_0_pred_v_pos: Vec<F>,
    pub step_0_pred_v_neg: Vec<F>,
    pub step_0_x_t: Vec<F>,
    pub step_mid_x_t: Vec<F>,
    pub step_last_x_t: Vec<F>,
    pub device: RowTraceDevice<D>,
}

/// Device rows of a run, where the backend keeps them.
#[derive(Debug)]
pub struct RowTraceDevice<D> {
    pub samples: Option<D>,
    pub step_0_pred_v: Option<D>,
    pub step_0_pred_v_pos: Option<D>,
    pub step_0_pred_v_neg: Option<D>,
    pub step_0_x_t: Option<D>,
    pub step_mid_x_t: Option<D>,
    pub step_last_x_t: Option<D>,
}

impl<D> RowTraceDevice<D> {
    /// No device rows at all.
    pub open spec fn is_none(self) -> bool {
        self.samples is None && self.step_0_pred_v is None && self.step_0_pred_v_pos is None
            && self.step_0_pred_v_neg is None && self.step_0_x_t is None && self.step_mid_x_t
            is None && self.step_last_x_t is None
    }

    /// No device rows at all.
    pub fn none() -> (r: Self)
        ensures
            r.is_none(),
    {
        RowTraceDevice {
            samples: None,
            step_0_pred_v: None,
            step_0_pred_v_pos: None,
            step_0_pred_v_neg: None,
            step_0_x_t: None,
            step_mid_x_t: None,
            step_last_x_t: None,
        }
    }
}

impl<F, D> SparseFlowRowTrace<F, D> {
    /// No host rows at all.
    pub open spec fn host_is_empty(self) -> bool {
        self.samples@.len() == 0 && self.step_0_pred_v@.len() == 0 && self.step_0_pred_v_pos@.len()
            == 0 && self.step_0_pred_v_neg@.len() == 0 && self.step_0_x_t@.len() == 0
            && self.step_mid_x_t@.len() == 0 && self.step_last_x_t@.len() == 0
    }

    /// The rows stay on the device.
    pub open spec fn is_device_only(
        self,
        steps: usize,
        row_channels: usize,
        device: RowTraceDevice<D>,
    ) -> bool {
        &&& self.steps == steps
        &&& self.row_channels == row_channels
        &&& self.host_is_empty()
        &&& self.device == device
    }

    /// The host rows are the seven segments of one merged readback.
    pub open spec fn is_split(
        self,
        steps: usize,
        row_channels: usize,
        merged: Seq<F>,
        segment: int,
        device: RowTraceDevice<D>,
    ) -> bool {
        &&& self.steps == steps
        &&& self.row_channels == row_channels
        &&& self.samples@ == segment_of(merged, segment, 0)
        &&& self.step_0_pred_v@ == segment_of(merged, segment, 1)
        &&& self.step_0_pred_v_pos@ == segment_of(merged, segment, 2)
        &&& self.step_0_pred_v_neg@ == segment_of(merged, segment, 3)
        &&& self.step_0_x_t@ == segment_of(merged, segment, 4)
        &&& self.step_mid_x_t@ == segment_of(merged, segment, 5)
        &&& self.step_last_x_t@ == segment_of(merged, segment, 6)
        &&& self.device == device
    }

    /// Every part of the host rows is the sample.
    pub open spec fn is_plain(
        self,
        steps: usize,
        row_channels: usize,
        samples: Seq<F>,
        device: RowTraceDevice<D>,
    ) -> bool {
        &&& self.steps == steps
        &&& self.row_channels == row_channels
        &&& self.samples@ == samples
        &&& self.step_0_pred_v@ == samples
        &&& self.step_0_pred_v_pos@ == samples
        &&& self.step_0_pred_v_neg@ == samples
        &&& self.step_0_x_t@ == samples
        &&& self.step_mid_x_t@ == samples
        &&& self.step_last_x_t@ == samples
        &&& self.device == device
    }

    /// Nothing was sampled.
    pub open spec fn is_empty_trace(self, steps: usize) -> bool {
        &&& self.steps == steps
        &&& self.row_channels == 0
        &&& self.host_is_empty()
        &&& self.device.is_none()
    }

    /// The trace of a run with nothing to sample.
    pub fn empty(steps: usize) -> (r: Self)
        ensures
            r.is_empty_trace(steps),
    {
        Self::device_only(steps, 0, RowTraceDevice::none())
    }

    /// The trace of a run whose rows stay on the device.
    pub fn device_only(steps: usize, row_channels: usize, device: RowTraceDevice<D>) -> (r: Self)
        ensures
            r.is_device_only(steps, row_channels, device),
    {
        SparseFlowRowTrace {
            steps,
            row_channels,
            samples: Vec::new(),
            step_0_pred_v: Vec::new(),
            step_0_pred_v_pos: Vec::new(),
            step_0_pred_v_neg: Vec::new(),
            step_0_x_t: Vec::new(),
            step_mid_x_t: Vec::new(),
            step_last_x_t: Vec::new(),
            device,
        }
    }

    /// Cuts one merged readback of seven segments into the trace of a captured run.
    pub fn from_merged(
        steps: usize,
        row_channels: usize,
        merged: &Vec<F>,
        segment: usize,
        device: RowTraceDevice<D>,
    ) -> (r: Self) where F: Copy
        requires
            merged@.len() == 7 * segment,
        ensures
            r.is_split(steps, row_channels, merged@, segment as int, device),
    {
        SparseFlowRowTrace {
            steps,
            row_channels,
            samples: copy_segment(merged, segment, 0),
            step_0_pred_v: copy_segment(merged, segment, 1),
            step_0_pred_v_pos: copy_segment(merged, segment, 2),
            step_0_pred_v_neg: copy_segment(merged, segment, 3),
            step_0_x_t: copy_segment(merged, segment, 4),
            step_mid_x_t: copy_segment(merged, segment, 5),
            step_last_x_t: copy_segment(merged, segment, 6),
            device,
        }
    }

    /// The trace of a run without snapshots: every part is the sample.
    pub fn from_samples(
        steps: usize,
        row_channels: usize,
        samples: Vec<F>,
        device: RowTraceDevice<D>,
    ) -> (r: Self) where F: Copy
        ensures
            r.is_plain(steps, row_channels, samples@, device),
    {
        let n: usize = samples.len();
        proof {
            assert(samples@.subrange(0, n as int) =~= samples@);
        }
        SparseFlowRowTrace {
            steps,
            row_channels,
            step_0_pred_v: copy_range(&samples, 0, n),
            step_0_pred_v_pos: copy_range(&samples, 0, n),
            step_0_pred_v_neg: copy_range(&samples, 0, n),
            step_0_x_t: copy_range(&samples, 0, n),
            step_mid_x_t: copy_range(&samples, 0, n),
            step_last_x_t: copy_range(&samples, 0, n),
            samples,
            device,
        }
    }
}

/// Whether rows are read back to the host.
pub fn host_rows_required(materialize_host_rows: bool, has_device_samples: bool) -> (r: bool)
    ensures
        r == (materialize_host_rows || !has_device_samples),
{
    materialize_host_rows || !has_device_samples
}

/// Segments read back in one piece are what was joined: the segments of equally
/// long parts, one after the other, are the parts.
pub proof fn merged_readback_gives_back_parts<F>(parts: Seq<Seq<F>>, segment: nat, k: int)
    requires
        forall|i: int| 0 <= i < parts.len() ==> (#[trigger] parts[i]).len() == segment,
        0 <= k < parts.len(),
    ensures
        parts.flatten().len() == parts.len() * segment,
        segment_of(parts.flatten(), segment as int, k) == parts[k],
    decreases parts.len(),
{
    let front = parts.drop_last();
    let last = parts.last();
    let s = segment as int;
    assert(front.push(last) =~= parts);
    front.lemma_flatten_push(last);
    assert(parts.flatten() == front.flatten() + last);
    if front.len() > 0 {
        merged_readback_gives_back_parts(front, segment, if k < front.len() {
            k
        } else {
            0
        });
    } else {
        assert(front =~= Seq::<Seq<F>>::empty());
        assert(front.flatten().len() == 0);
        assert(0 * s == 0);
    }
    assert((front.len() + 1) * s == front.len() * s + s) by (nonlinear_arith);
    assert(parts.len() == front.len() + 1);
    assert((k + 1) * s == k * s + s) by (nonlinear_arith);
    assert(0 <= k * s) by (nonlinear_arith)
        requires
            k >= 0,
            s >= 0,
    ;
    if k < front.len() {
        assert((k + 1) * s <= front.len() * s) by (nonlinear_arith)
            requires
                k + 1 <= front.len(),
                s >= 0,
        ;
        assert(segment_of(parts.flatten(), s, k) =~= segment_of(front.flatten(), s, k));
        assert(front[k] == parts[k]);
    } else {
        assert(segment_of(parts.flatten(), s, k) =~= last);
    }
}

// ---------------------------------------------------------------------------
// Batch items
// ---------------------------------------------------------------------------

/// Numbers of the batch items that have rows, in order, among the first `n`.
pub open spec fn nonempty_batches(layout: Seq<Range<usize>>, n: int) -> Seq<int>
    decreases n,
{
    if n <= 0 {
        Seq::empty()
    } else {
        let front = nonempty_batches(layout, n - 1);
        if layout[n - 1].end > layout[n - 1].start {
            front.push(n - 1)
        } else {
            front
        }
    }
}

/// The items among the first `n` are a prefix of the items among more.
pub proof fn lemma_nonempty_prefix(layout: Seq<Range<usize>>, n: int, m: int)
    requires
        0 <= n <= m <= layout.len(),
    ensures
        nonempty_batches(layout, n).len() <= nonempty_batches(layout, m).len(),
        nonempty_batches(layout, m).take(nonempty_batches(layout, n).len() as int)
            == nonempty_batches(layout, n),
    decreases m - n,
{
    let a = nonempty_batches(layout, n);
    let b = nonempty_batches(layout, m);
    if n == m {
        assert(b.take(a.len() as int) =~= a);
    } else {
        lemma_nonempty_prefix(layout, n, m - 1);
        let front = nonempty_batches(layout, m - 1);
        assert(b.take(a.len() as int) =~= front.take(a.len() as int));
    }
}

/// Elements of the sampled parts: rows of each item with rows, times channels.
pub open spec fn sampled_elements(layout: Seq<Range<usize>>, channels: int, n: int) -> int
    decreases n,
{
    if n <= 0 {
        0
    } else {
        let r = layout[n - 1];
        sampled_elements(layout, channels, n - 1) + (if r.end > r.start {
            (r.end - r.start) * channels
        } else {
            0
        })
    }
}

/// The parts of all batch items hold exactly rows times channels elements, so
/// joined parts of a sound layout always have the expected size.
pub proof fn batch_parts_fill_all_rows(layout: Seq<Range<usize>>, channels: int)
    requires
        contiguous(layout),
        channels >= 0,
    ensures
        sampled_elements(layout, channels, layout.len() as int) == layout_rows(layout) * channels,
{
    lemma_sampled_elements(layout, channels, layout.len() as int);
    lemma_rows_total(layout, layout.len() as int);
}

proof fn lemma_sampled_elements(layout: Seq<Range<usize>>, channels: int, n: int)
    requires
        0 <= n <= layout.len(),
    ensures
        sampled_elements(layout, channels, n) == rows_total(layout, n) * channels,
    decreases n,
{
    if n > 0 {
        lemma_sampled_elements(layout, channels, n - 1);
        let r = layout[n - 1];
        let before = rows_total(layout, n - 1);
        let len = if r.end >= r.start {
            r.end - r.start
        } else {
            0
        };
        assert((before + len) * channels == before * channels + len * channels) by (nonlinear_arith);
        assert(0 * channels == 0);
    } else {
        assert(0 * channels == 0);
    }
}

} // verus!
