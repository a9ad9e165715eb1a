//! The Euler sampler with interval guidance, on values of the host.
//!
//! Numbers are of a type `F`; their arithmetic is handed in as functions.
use crate::arith::imax;
use crate::pipeline_load::TrellisSamplerParams;
use crate::sampling::{
    branch_needed, copy_range, effective_steps, guidance_choice, guidance_choice_of,
    FlowEulerSampleConfig, GuidanceBranch, GuidanceChoice, GuidanceState,
};
use vstd::prelude::*;

verus! {

/// `out` is `f` of the pairs of values at equal places in `a` and `b`.
pub open spec fn zipped<F, G>(a: Seq<F>, b: Seq<F>, f: G, out: Seq<F>) -> bool where
    G: Fn(F, F) -> F,
 {
    out.len() == a.len() && forall|i: int|
        0 <= i < a.len() ==> call_ensures(f, (a[i], b[i]), #[trigger] out[i])
}

fn zip_with<F: Copy, G: Fn(F, F) -> F>(a: &Vec<F>, b: &Vec<F>, f: &G) -> (r: Vec<F>)
    requires
        a@.len() <= b@.len(),
        forall|x: F, y: F| call_requires(*f, (x, y)),
    ensures
        zipped(a@, b@, *f, r@),
{
    let mut out: Vec<F> = Vec::new();
    let mut i: usize = 0;
    while i < a.len()
        invariant
            i <= a.len(),
            a@.len() <= b@.len(),
            out@.len() == i,
            forall|x: F, y: F| call_requires(*f, (x, y)),
            forall|j: int| 0 <= j < i ==> call_ensures(*f, (a@[j], b@[j]), #[trigger] out@[j]),
        decreases a.len() - i,
    {
        out.push(f(a[i], b[i]));
        i = i + 1;
    }
    out
}

fn copied<F: Copy>(values: &Vec<F>) -> (r: Vec<F>)
    ensures
        r@ == values@,
{
    let r: Vec<F> = copy_range(values, 0, values.len());
    assert(values@.subrange(0, values@.len() as int) =~= values@);
    r
}

/// Samples of a run on the host.
#[derive(Debug)]
pub struct HostSampleTrace<F> {
    /// Values after the last step.
    pub samples: Vec<F>,
    /// Values after the first step.
    pub step_0_x_t: Vec<F>,
    /// Values after the last step.
    pub step_last_x_t: Vec<F>,
}

/// Sampler of a flow with a smallest noise level.
#[derive(Clone, Debug)]
pub struct FlowEulerGuidanceIntervalSampler<F> {
    sigma_min: F,
}

/// `r` is the velocity at `x` in step `step` that guidance makes of the branch
/// velocities. `velocity` is asked for the positive branch by `true`.
pub open spec fn host_guided<F, V, X, S>(
    state: GuidanceState,
    sigma_min: F,
    x: Vec<F>,
    step: usize,
    rescales: bool,
    velocity: V,
    mix: X,
    rescale: S,
    r: Vec<F>,
) -> bool where
    V: Fn(&Vec<F>, usize, bool) -> Vec<F>,
    X: Fn(F, F) -> F,
    S: Fn(F, &Vec<F>, &Vec<F>, &Vec<F>, usize) -> Vec<F>,
 {
    match guidance_choice_of(state) {
        GuidanceChoice::Positive => call_ensures(velocity, (&x, step, true), r),
        GuidanceChoice::Negative => call_ensures(velocity, (&x, step, false), r),
        GuidanceChoice::Both => exists|pos: Vec<F>, neg: Vec<F>, mixed: Vec<F>|
            call_ensures(velocity, (&x, step, true), pos) && call_ensures(
                velocity,
                (&x, step, false),
                neg,
            ) && #[trigger] mixed_and_rescaled(
                sigma_min,
                x,
                step,
                rescales,
                mix,
                rescale,
                pos,
                neg,
                mixed,
                r,
            ),
    }
}

/// A step outside the guidance interval, or of guidance strength one, follows
/// the positive branch alone.
pub proof fn unguided_steps_follow_the_positive_branch<F, V, X, S>(
    state: GuidanceState,
    sigma_min: F,
    x: Vec<F>,
    step: usize,
    rescales: bool,
    velocity: V,
    mix: X,
    rescale: S,
    r: Vec<F>,
) where
    V: Fn(&Vec<F>, usize, bool) -> Vec<F>,
    X: Fn(F, F) -> F,
    S: Fn(F, &Vec<F>, &Vec<F>, &Vec<F>, usize) -> Vec<F>,

    requires
        !state.in_interval || state.strength_is_one,
        host_guided(state, sigma_min, x, step, rescales, velocity, mix, rescale, r),
    ensures
        call_ensures(velocity, (&x, step, true), r),
{
}

/// `mixed` weighs the branches against each other, and `r` is it, rescaled
/// where that is asked for.
pub open spec fn mixed_and_rescaled<F, X, S>(
    sigma_min: F,
    x: Vec<F>,
    step: usize,
    rescales: bool,
    mix: X,
    rescale: S,
    pos: Vec<F>,
    neg: Vec<F>,
    mixed: Vec<F>,
    r: Vec<F>,
) -> bool where X: Fn(F, F) -> F, S: Fn(F, &Vec<F>, &Vec<F>, &Vec<F>, usize) -> Vec<F> {
    &&& zipped(pos@, neg@, mix, mixed@)
    &&& if rescales {
        call_ensures(rescale, (sigma_min, &x, &pos, &mixed, step), r)
    } else {
        r == mixed
    }
}

/// What every velocity of a run is: at least as long as the state it is asked
/// for, the negative one at least as long as the positive one.
pub open spec fn covers_state<F, V>(velocity: V) -> bool where
    V: Fn(&Vec<F>, usize, bool) -> Vec<F>,
 {
    &&& forall|x: &Vec<F>, i: usize, positive: bool, v: Vec<F>| #[trigger]
        call_ensures(velocity, (x, i, positive), v) ==> x@.len() <= v@.len()
    &&& forall|x: &Vec<F>, i: usize, pos: Vec<F>, neg: Vec<F>| #[trigger]
        call_ensures(velocity, (x, i, true), pos) && #[trigger] call_ensures(
            velocity,
            (x, i, false),
            neg,
        ) ==> pos@.len() <= neg@.len()
}

/// What every rescaled velocity is: at least as long as the state it belongs to.
pub open spec fn rescale_covers_state<F, S>(rescale: S) -> bool where
    S: Fn(F, &Vec<F>, &Vec<F>, &Vec<F>, usize) -> Vec<F>,
 {
    forall|s: F, x: &Vec<F>, pos: &Vec<F>, mixed: &Vec<F>, i: usize, v: Vec<F>| #[trigger]
        call_ensures(rescale, (s, x, pos, mixed, i), v) ==> x@.len() <= v@.len()
}

/// What a step in the given state evaluates can be evaluated: the branches it
/// needs, and where it needs both, what combines them.
pub open spec fn guided_callable<F, V, X, S>(
    state: GuidanceState,
    x: &Vec<F>,
    step: usize,
    rescales: bool,
    velocity: V,
    mix: X,
    rescale: S,
) -> bool where
    V: Fn(&Vec<F>, usize, bool) -> Vec<F>,
    X: Fn(F, F) -> F,
    S: Fn(F, &Vec<F>, &Vec<F>, &Vec<F>, usize) -> Vec<F>,
 {
    &&& branch_needed(state, GuidanceBranch::Positive) ==> call_requires(velocity, (x, step, true))
    &&& branch_needed(state, GuidanceBranch::Negative) ==> call_requires(velocity, (x, step, false))
    &&& guidance_choice_of(state) == GuidanceChoice::Both ==> forall|a: F, b: F|
        call_requires(mix, (a, b))
    &&& guidance_choice_of(state) == GuidanceChoice::Both && rescales ==> forall|
        s: F,
        a: &Vec<F>,
        b: &Vec<F>,
    |
        call_requires(rescale, (s, x, a, b, step))
}

/// `states` are `n` steps from `noise`, each along the guided velocity at the
/// state before it.
pub open spec fn host_path<F, N, V, X, S, A>(
    sigma_min: F,
    noise: Seq<F>,
    rescales: bool,
    guidance: N,
    velocity: V,
    mix: X,
    rescale: S,
    advance: A,
    n: int,
    states: Seq<Vec<F>>,
) -> bool where
    N: Fn(usize) -> GuidanceState,
    V: Fn(&Vec<F>, usize, bool) -> Vec<F>,
    X: Fn(F, F) -> F,
    S: Fn(F, &Vec<F>, &Vec<F>, &Vec<F>, usize) -> Vec<F>,
    A: Fn(F, F, usize) -> F,
 {
    &&& states.len() == n + 1
    &&& states[0]@ == noise
    &&& forall|i: int|
        0 <= i < n ==> host_step(
            sigma_min,
            rescales,
            guidance,
            velocity,
            mix,
            rescale,
            advance,
            i,
            #[trigger] states[i],
            states[i + 1],
        )
}

/// Step `i` leads from `x` to `next`.
pub open spec fn host_step<F, N, V, X, S, A>(
    sigma_min: F,
    rescales: bool,
    guidance: N,
    velocity: V,
    mix: X,
    rescale: S,
    advance: A,
    i: int,
    x: Vec<F>,
    next: Vec<F>,
) -> bool where
    N: Fn(usize) -> GuidanceState,
    V: Fn(&Vec<F>, usize, bool) -> Vec<F>,
    X: Fn(F, F) -> F,
    S: Fn(F, &Vec<F>, &Vec<F>, &Vec<F>, usize) -> Vec<F>,
    A: Fn(F, F, usize) -> F,
 {
    exists|state: GuidanceState, pred: Vec<F>|
        call_ensures(guidance, (i as usize,), state) && #[trigger] host_guided(
            state,
            sigma_min,
            x,
            i as usize,
            rescales,
            velocity,
            mix,
            rescale,
            pred,
        ) && advanced_by(advance, i as usize, x@, pred@, next@)
}

/// `next` is `x` with every value advanced along its velocity in step `step`.
pub open spec fn advanced_by<F, A>(
    advance: A,
    step: usize,
    x: Seq<F>,
    pred: Seq<F>,
    next: Seq<F>,
) -> bool where A: Fn(F, F, usize) -> F {
    next.len() == x.len() && forall|j: int|
        0 <= j < x.len() ==> call_ensures(advance, (x[j], pred[j], step), #[trigger] next[j])
}

/// Outcome of a run of `steps` steps: its samples, and the values after its
/// first and its last step.
pub open spec fn host_trace_outcome<F, N, V, X, S, A>(
    sigma_min: F,
    noise: Seq<F>,
    rescales: bool,
    guidance: N,
    velocity: V,
    mix: X,
    rescale: S,
    advance: A,
    steps: usize,
    trace: HostSampleTrace<F>,
) -> bool where
    N: Fn(usize) -> GuidanceState,
    V: Fn(&Vec<F>, usize, bool) -> Vec<F>,
    X: Fn(F, F) -> F,
    S: Fn(F, &Vec<F>, &Vec<F>, &Vec<F>, usize) -> Vec<F>,
    A: Fn(F, F, usize) -> F,
 {
    &&& exists|states: Seq<Vec<F>>| #[trigger]
        host_path(
            sigma_min,
            noise,
            rescales,
            guidance,
            velocity,
            mix,
            rescale,
            advance,
            steps as int,
            states,
        ) && trace.samples@ == states[steps as int]@ && trace.step_0_x_t@ == (if steps > 0 {
            states[1]@
        } else {
            noise
        })
    &&& trace.step_last_x_t@ == trace.samples@
    &&& trace.samples@.len() == noise.len()
}

/// Outcome of a run of which only the samples are kept.
pub open spec fn host_sample_outcome<F, N, V, X, S, A>(
    sigma_min: F,
    noise: Seq<F>,
    rescales: bool,
    guidance: N,
    velocity: V,
    mix: X,
    rescale: S,
    advance: A,
    steps: usize,
    samples: Vec<F>,
) -> bool where
    N: Fn(usize) -> GuidanceState,
    V: Fn(&Vec<F>, usize, bool) -> Vec<F>,
    X: Fn(F, F) -> F,
    S: Fn(F, &Vec<F>, &Vec<F>, &Vec<F>, usize) -> Vec<F>,
    A: Fn(F, F, usize) -> F,
 {
    exists|trace: HostSampleTrace<F>| #[trigger]
        host_trace_outcome(
            sigma_min,
            noise,
            rescales,
            guidance,
            velocity,
            mix,
            rescale,
            advance,
            steps,
            trace,
        ) && samples == trace.samples
}

/// What is handed in gives one result for one input, vectors taken by what
/// they hold.
pub open spec fn all_pure<F, N, V, X, S, A>(
    guidance: N,
    velocity: V,
    mix: X,
    rescale: S,
    advance: A,
) -> bool where
    N: Fn(usize) -> GuidanceState,
    V: Fn(&Vec<F>, usize, bool) -> Vec<F>,
    X: Fn(F, F) -> F,
    S: Fn(F, &Vec<F>, &Vec<F>, &Vec<F>, usize) -> Vec<F>,
    A: Fn(F, F, usize) -> F,
 {
    &&& forall|i: usize, a: GuidanceState, b: GuidanceState| #[trigger]
        call_ensures(guidance, (i,), a) && #[trigger] call_ensures(guidance, (i,), b) ==> a == b
    &&& forall|x: &Vec<F>, y: &Vec<F>, i: usize, p: bool, v: Vec<F>, w: Vec<F>| #[trigger]
        call_ensures(velocity, (x, i, p), v) && #[trigger] call_ensures(velocity, (y, i, p), w)
            && x@ == y@ ==> v@ == w@
    &&& forall|a: F, b: F, c: F, d: F| #[trigger]
        call_ensures(mix, (a, b), c) && #[trigger] call_ensures(mix, (a, b), d) ==> c == d
    &&& forall|
        s: F,
        x: &Vec<F>,
        y: &Vec<F>,
        p: &Vec<F>,
        q: &Vec<F>,
        m: &Vec<F>,
        n: &Vec<F>,
        i: usize,
        v: Vec<F>,
        w: Vec<F>,
    | #[trigger]
        call_ensures(rescale, (s, x, p, m, i), v) && #[trigger] call_ensures(
            rescale,
            (s, y, q, n, i),
            w,
        ) && x@ == y@ && p@ == q@ && m@ == n@ ==> v@ == w@
    &&& forall|a: F, b: F, i: usize, c: F, d: F| #[trigger]
        call_ensures(advance, (a, b, i), c) && #[trigger] call_ensures(advance, (a, b, i), d) ==> c
            == d
}

proof fn lemma_zipped_pure<F, G>(a: Seq<F>, b: Seq<F>, f: G, c: Seq<F>, d: Seq<F>) where
    G: Fn(F, F) -> F,

    requires
        zipped(a, b, f, c),
        zipped(a, b, f, d),
        forall|x: F, y: F, u: F, v: F| #[trigger]
            call_ensures(f, (x, y), u) && #[trigger] call_ensures(f, (x, y), v) ==> u == v,
    ensures
        c == d,
{
    assert forall|i: int| 0 <= i < c.len() implies c[i] == d[i] by {
        assert(call_ensures(f, (a[i], b[i]), c[i]));
        assert(call_ensures(f, (a[i], b[i]), d[i]));
    }
    assert(c =~= d);
}

proof fn lemma_guided_pure<F, N, V, X, S, A>(
    state: GuidanceState,
    sigma_min: F,
    x: Vec<F>,
    y: Vec<F>,
    step: usize,
    rescales: bool,
    guidance: N,
    velocity: V,
    mix: X,
    rescale: S,
    advance: A,
    v: Vec<F>,
    w: Vec<F>,
) where
    N: Fn(usize) -> GuidanceState,
    V: Fn(&Vec<F>, usize, bool) -> Vec<F>,
    X: Fn(F, F) -> F,
    S: Fn(F, &Vec<F>, &Vec<F>, &Vec<F>, usize) -> Vec<F>,
    A: Fn(F, F, usize) -> F,

    requires
        all_pure(guidance, velocity, mix, rescale, advance),
        x@ == y@,
        host_guided(state, sigma_min, x, step, rescales, velocity, mix, rescale, v),
        host_guided(state, sigma_min, y, step, rescales, velocity, mix, rescale, w),
    ensures
        v@ == w@,
{
    if guidance_choice_of(state) == GuidanceChoice::Both {
        let (pos, neg, mixed) = choose|pos: Vec<F>, neg: Vec<F>, mixed: Vec<F>|
            call_ensures(velocity, (&x, step, true), pos) && call_ensures(
                velocity,
                (&x, step, false),
                neg,
            ) && #[trigger] mixed_and_rescaled(
                sigma_min,
                x,
                step,
                rescales,
                mix,
                rescale,
                pos,
                neg,
                mixed,
                v,
            );
        let (pos2, neg2, mixed2) = choose|pos: Vec<F>, neg: Vec<F>, mixed: Vec<F>|
            call_ensures(velocity, (&y, step, true), pos) && call_ensures(
                velocity,
                (&y, step, false),
                neg,
            ) && #[trigger] mixed_and_rescaled(
                sigma_min,
                y,
                step,
                rescales,
                mix,
                rescale,
                pos,
                neg,
                mixed,
                w,
            );
        assert(pos@ == pos2@ && neg@ == neg2@);
        lemma_zipped_pure(pos@, neg@, mix, mixed@, mixed2@);
    }
}

proof fn lemma_paths_agree<F, N, V, X, S, A>(
    sigma_min: F,
    noise: Seq<F>,
    rescales: bool,
    guidance: N,
    velocity: V,
    mix: X,
    rescale: S,
    advance: A,
    n: int,
    a: Seq<Vec<F>>,
    b: Seq<Vec<F>>,
    k: int,
) where
    N: Fn(usize) -> GuidanceState,
    V: Fn(&Vec<F>, usize, bool) -> Vec<F>,
    X: Fn(F, F) -> F,
    S: Fn(F, &Vec<F>, &Vec<F>, &Vec<F>, usize) -> Vec<F>,
    A: Fn(F, F, usize) -> F,

    requires
        all_pure(guidance, velocity, mix, rescale, advance),
        host_path(
            sigma_min,
            noise,
            rescales,
            guidance,
            velocity,
            mix,
            rescale,
            advance,
            n,
            a,
        ),
        host_path(
            sigma_min,
            noise,
            rescales,
            guidance,
            velocity,
            mix,
            rescale,
            advance,
            n,
            b,
        ),
        0 <= k <= n,
    ensures
        a[k]@ == b[k]@,
    decreases k,
{
    if k > 0 {
        let i = k - 1;
        lemma_paths_agree(
            sigma_min,
            noise,
            rescales,
            guidance,
            velocity,
            mix,
            rescale,
            advance,
            n,
            a,
            b,
            i,
        );
        let (s1, v1) = choose|state: GuidanceState, pred: Vec<F>|
            call_ensures(guidance, (i as usize,), state) && #[trigger] host_guided(
                state,
                sigma_min,
                a[i],
                i as usize,
                rescales,
                velocity,
                mix,
                rescale,
                pred,
            ) && advanced_by(advance, i as usize, a[i]@, pred@, a[i + 1]@);
        let (s2, v2) = choose|state: GuidanceState, pred: Vec<F>|
            call_ensures(guidance, (i as usize,), state) && #[trigger] host_guided(
                state,
                sigma_min,
                b[i],
                i as usize,
                rescales,
                velocity,
                mix,
                rescale,
                pred,
            ) && advanced_by(advance, i as usize, b[i]@, pred@, b[i + 1]@);
        assert(s1 == s2);
        lemma_guided_pure(
            s1,
            sigma_min,
            a[i],
            b[i],
            i as usize,
            rescales,
            guidance,
            velocity,
            mix,
            rescale,
            advance,
            v1,
            v2,
        );
        assert forall|j: int| 0 <= j < a[k]@.len() implies a[k]@[j] == b[k]@[j] by {
            assert(call_ensures(advance, (a[i]@[j], v1@[j], i as usize), a[k]@[j]));
            assert(call_ensures(advance, (b[i]@[j], v2@[j], i as usize), b[k]@[j]));
        }
        assert(a[k]@ =~= b[k]@);
    }
}

/// Two runs from the same noise with the same pure functions give the same
/// samples, so sampling alone gives the samples of a trace. The last snapshot
/// of a trace is its samples; after one step the first one is too, and without
/// steps all of them are the noise.
pub proof fn samples_are_those_of_a_trace<F, N, V, X, S, A>(
    sigma_min: F,
    noise: Seq<F>,
    rescales: bool,
    guidance: N,
    velocity: V,
    mix: X,
    rescale: S,
    advance: A,
    steps: usize,
    trace: HostSampleTrace<F>,
    samples: Vec<F>,
) where
    N: Fn(usize) -> GuidanceState,
    V: Fn(&Vec<F>, usize, bool) -> Vec<F>,
    X: Fn(F, F) -> F,
    S: Fn(F, &Vec<F>, &Vec<F>, &Vec<F>, usize) -> Vec<F>,
    A: Fn(F, F, usize) -> F,

    requires
        all_pure(guidance, velocity, mix, rescale, advance),
        host_trace_outcome(
            sigma_min,
            noise,
            rescales,
            guidance,
            velocity,
            mix,
            rescale,
            advance,
            steps,
            trace,
        ),
        host_sample_outcome(
            sigma_min,
            noise,
            rescales,
            guidance,
            velocity,
            mix,
            rescale,
            advance,
            steps,
            samples,
        ),
    ensures
        samples@ == trace.samples@,
        trace.samples@.len() == noise.len(),
        trace.step_last_x_t@ == trace.samples@,
        steps == 1 ==> trace.step_0_x_t@ == trace.samples@,
        steps == 0 ==> trace.samples@ == noise && trace.step_0_x_t@ == noise,
{
    let a = choose|states: Seq<Vec<F>>| #[trigger]
        host_path(
            sigma_min,
            noise,
            rescales,
            guidance,
            velocity,
            mix,
            rescale,
            advance,
            steps as int,
            states,
        ) && trace.samples@ == states[steps as int]@ && trace.step_0_x_t@ == (if steps > 0 {
            states[1]@
        } else {
            noise
        });
    let sampled = choose|other: HostSampleTrace<F>| #[trigger]
        host_trace_outcome(
            sigma_min,
            noise,
            rescales,
            guidance,
            velocity,
            mix,
            rescale,
            advance,
            steps,
            other,
        ) && samples == other.samples;
    let b = choose|states: Seq<Vec<F>>| #[trigger]
        host_path(
            sigma_min,
            noise,
            rescales,
            guidance,
            velocity,
            mix,
            rescale,
            advance,
            steps as int,
            states,
        ) && sampled.samples@ == states[steps as int]@ && sampled.step_0_x_t@ == (if steps > 0 {
            states[1]@
        } else {
            noise
        });
    lemma_paths_agree(
        sigma_min,
        noise,
        rescales,
        guidance,
        velocity,
        mix,
        rescale,
        advance,
        steps as int,
        a,
        b,
        steps as int,
    );
}

fn advance_all<F: Copy, A: Fn(F, F, usize) -> F>(
    advance: &A,
    step: usize,
    x: &Vec<F>,
    pred: &Vec<F>,
) -> (r: Vec<F>)
    requires
        x@.len() <= pred@.len(),
        forall|a: F, b: F| call_requires(*advance, (a, b, step)),
    ensures
        advanced_by(*advance, step, x@, pred@, r@),
{
    let mut out: Vec<F> = Vec::new();
    let mut j: usize = 0;
    while j < x.len()
        invariant
            j <= x.len(),
            x@.len() <= pred@.len(),
            out@.len() == j,
            forall|a: F, b: F| call_requires(*advance, (a, b, step)),
            forall|k: int|
                0 <= k < j ==> call_ensures(*advance, (x@[k], pred@[k], step), #[trigger] out@[k]),
        decreases x.len() - j,
    {
        out.push(advance(x[j], pred[j], step));
        j = j + 1;
    }
    out
}

impl<F: Copy> FlowEulerGuidanceIntervalSampler<F> {
    /// The smallest noise level.
    pub closed spec fn sigma(self) -> F {
        self.sigma_min
    }

    /// A sampler with the given smallest noise level.
    pub fn new(sigma_min: F) -> (r: Self)
        ensures
            r.sigma() == sigma_min,
    {
        FlowEulerGuidanceIntervalSampler { sigma_min }
    }

    /// The smallest noise level.
    pub fn sigma_min(&self) -> (r: F)
        ensures
            r == self.sigma(),
    {
        self.sigma_min
    }

    /// A sampler with the settings of a pipeline: at least one step, a time
    /// scale of at least `epsilon`, a guidance rescale of at least `zero`.
    pub fn from_params<M: Fn(F, F) -> F>(
        sigma_min: F,
        params: &TrellisSamplerParams<F>,
        epsilon: F,
        zero: F,
        max: M,
    ) -> (r: (Self, FlowEulerSampleConfig<F>))
        requires
            forall|a: F, b: F| call_requires(max, (a, b)),
        ensures
            r.0.sigma() == sigma_min,
            r.1.steps == imax(params.steps as int, 1),
            call_ensures(max, (params.rescale_t, epsilon), r.1.rescale_t),
            r.1.guidance_strength == params.guidance_strength,
            call_ensures(max, (params.guidance_rescale, zero), r.1.guidance_rescale),
            r.1.guidance_interval == params.guidance_interval,
    {
        let config: FlowEulerSampleConfig<F> = FlowEulerSampleConfig {
            steps: effective_steps(params.steps),
            rescale_t: max(params.rescale_t, epsilon),
            guidance_strength: params.guidance_strength,
            guidance_rescale: max(params.guidance_rescale, zero),
            guidance_interval: params.guidance_interval,
        };
        (Self::new(sigma_min), config)
    }

    /// The guided velocity at `x` in step `step`.
    ///
    /// `velocity` predicts a branch, the positive one where it is asked by
    /// `true`; `mix` weighs a positive value against a negative one; `rescale`
    /// draws the mixed velocity to the spread of the positive one.
    pub fn predict_with_cfg<V, X, S>(
        &self,
        x: &Vec<F>,
        step: usize,
        state: GuidanceState,
        rescales: bool,
        velocity: &V,
        mix: &X,
        rescale: &S,
    ) -> (r: Vec<F>) where
        V: Fn(&Vec<F>, usize, bool) -> Vec<F>,
        X: Fn(F, F) -> F,
        S: Fn(F, &Vec<F>, &Vec<F>, &Vec<F>, usize) -> Vec<F>,

        requires
            guided_callable(state, x, step, rescales, *velocity, *mix, *rescale),
            covers_state(*velocity),
            rescale_covers_state(*rescale),
        ensures
            host_guided(
                state,
                self.sigma(),
                *x,
                step,
                rescales,
                *velocity,
                *mix,
                *rescale,
                r,
            ),
            x@.len() <= r@.len(),
    {
        match guidance_choice(state) {
            GuidanceChoice::Positive => velocity(x, step, true),
            GuidanceChoice::Negative => velocity(x, step, false),
            GuidanceChoice::Both => {
                let pos: Vec<F> = velocity(x, step, true);
                let neg: Vec<F> = velocity(x, step, false);
                let mixed: Vec<F> = zip_with(&pos, &neg, mix);
                let ghost mixed_ghost = mixed;
                let r: Vec<F> = if rescales {
                    rescale(self.sigma_min, x, &pos, &mixed, step)
                } else {
                    mixed
                };
                assert(mixed_and_rescaled(
                    self.sigma(),
                    *x,
                    step,
                    rescales,
                    *mix,
                    *rescale,
                    pos,
                    neg,
                    mixed_ghost,
                    r,
                ));
                r
            },
        }
    }

    /// Samples from `noise` in `steps` steps, with the values after the first
    /// and the last of them; without steps all three are the noise.
    ///
    /// `guidance` says how a step is guided, `advance` moves one value along
    /// its velocity.
    pub fn sample_with_trace<N, V, X, S, A>(
        &self,
        noise: &Vec<F>,
        steps: usize,
        rescales: bool,
        guidance: N,
        velocity: V,
        mix: X,
        rescale: S,
        advance: A,
    ) -> (r: HostSampleTrace<F>) where
        N: Fn(usize) -> GuidanceState,
        V: Fn(&Vec<F>, usize, bool) -> Vec<F>,
        X: Fn(F, F) -> F,
        S: Fn(F, &Vec<F>, &Vec<F>, &Vec<F>, usize) -> Vec<F>,
        A: Fn(F, F, usize) -> F,

        requires
            forall|i: usize| i < steps ==> call_requires(guidance, (i,)),
            forall|i: usize, state: GuidanceState, x: &Vec<F>|
                i < steps && call_ensures(guidance, (i,), state) ==> #[trigger] guided_callable(
                    state,
                    x,
                    i,
                    rescales,
                    velocity,
                    mix,
                    rescale,
                ),
            forall|a: F, b: F, i: usize| i < steps ==> call_requires(advance, (a, b, i)),
            covers_state(velocity),
            rescale_covers_state(rescale),
        ensures
            host_trace_outcome(
                self.sigma(),
                noise@,
                rescales,
                guidance,
                velocity,
                mix,
                rescale,
                advance,
                steps,
                r,
            ),
    {
        let mut x: Vec<F> = copied(noise);
        let mut step_0: Vec<F> = copied(noise);
        let ghost mut states: Seq<Vec<F>> = seq![x];
        let mut i: usize = 0;
        while i < steps
            invariant
                i <= steps,
                forall|i: usize| i < steps ==> call_requires(guidance, (i,)),
                forall|i: usize, state: GuidanceState, x: &Vec<F>|
                    i < steps && call_ensures(guidance, (i,), state) ==> #[trigger] guided_callable(
                        state,
                        x,
                        i,
                        rescales,
                        velocity,
                        mix,
                        rescale,
                    ),
                forall|a: F, b: F, i: usize| i < steps ==> call_requires(advance, (a, b, i)),
                covers_state(velocity),
                rescale_covers_state(rescale),
                host_path(
                    self.sigma(),
                    noise@,
                    rescales,
                    guidance,
                    velocity,
                    mix,
                    rescale,
                    advance,
                    i as int,
                    states,
                ),
                states[i as int] == x,
                x@.len() == noise@.len(),
                step_0@ == (if i > 0 {
                    states[1]@
                } else {
                    noise@
                }),
            decreases steps - i,
        {
            let state: GuidanceState = guidance(i);
            assert(guided_callable(state, &x, i, rescales, velocity, mix, rescale));
            let pred: Vec<F> = self.predict_with_cfg(
                &x,
                i,
                state,
                rescales,
                &velocity,
                &mix,
                &rescale,
            );
            let next: Vec<F> = advance_all(&advance, i, &x, &pred);
            proof {
                let before = states;
                states = states.push(next);
                assert((i as int) as usize == i);
                assert(host_guided(
                    state,
                    self.sigma(),
                    x,
                    i,
                    rescales,
                    velocity,
                    mix,
                    rescale,
                    pred,
                ));
                assert(host_step(
                    self.sigma(),
                    rescales,
                    guidance,
                    velocity,
                    mix,
                    rescale,
                    advance,
                    i as int,
                    x,
                    next,
                ));
                assert forall|j: int| 0 <= j < i + 1 implies host_step(
                    self.sigma(),
                    rescales,
                    guidance,
                    velocity,
                    mix,
                    rescale,
                    advance,
                    j,
                    #[trigger] states[j],
                    states[j + 1],
                ) by {
                    if j < i {
                        assert(states[j] == before[j] && states[j + 1] == before[j + 1]);
                    }
                }
            }
            if i == 0 {
                step_0 = copied(&next);
            }
            x = next;
            i = i + 1;
        }
        let last: Vec<F> = copied(&x);
        HostSampleTrace { samples: x, step_0_x_t: step_0, step_last_x_t: last }
    }

    /// Samples from `noise` in `steps` steps.
    pub fn sample<N, V, X, S, A>(
        &self,
        noise: &Vec<F>,
        steps: usize,
        rescales: bool,
        guidance: N,
        velocity: V,
        mix: X,
        rescale: S,
        advance: A,
    ) -> (r: Vec<F>) where
        N: Fn(usize) -> GuidanceState,
        V: Fn(&Vec<F>, usize, bool) -> Vec<F>,
        X: Fn(F, F) -> F,
        S: Fn(F, &Vec<F>, &Vec<F>, &Vec<F>, usize) -> Vec<F>,
        A: Fn(F, F, usize) -> F,

        requires
            forall|i: usize| i < steps ==> call_requires(guidance, (i,)),
            forall|i: usize, state: GuidanceState, x: &Vec<F>|
                i < steps && call_ensures(guidance, (i,), state) ==> #[trigger] guided_callable(
                    state,
                    x,
                    i,
                    rescales,
                    velocity,
                    mix,
                    rescale,
                ),
            forall|a: F, b: F, i: usize| i < steps ==> call_requires(advance, (a, b, i)),
            covers_state(velocity),
            rescale_covers_state(rescale),
        ensures
            host_sample_outcome(
                self.sigma(),
                noise@,
                rescales,
                guidance,
                velocity,
                mix,
                rescale,
                advance,
                steps,
                r,
            ),
    {
        let trace: HostSampleTrace<F> = self.sample_with_trace(
            noise,
            steps,
            rescales,
            guidance,
            velocity,
            mix,
            rescale,
            advance,
        );
        trace.samples
    }
}

} // verus!
