//! The transformer: what the operations of a block work on, the walk through
//! the blocks, and keys and values that were projected before.
//!
//! Activations are of a type `T`, blocks of a type `L`, projected keys and
//! values of a type `K`; the operations of a block come as functions.
use crate::flow_config::SparseStructureFlowConfig;
use crate::flow_model::{
    block_steps, block_steps_of, caching_leaves_the_route, is_model_plan, BlockStep, ForwardShape,
    InputChunk, ModelPlan,
};
use crate::policy::{FloatDType, FlowBackend, FlowEnv};
use core::ops::Range;
use vstd::prelude::*;

verus! {

// ---------------------------------------------------------------------------
// Blocks
// ---------------------------------------------------------------------------

/// What the operations of a block give, in order.
pub ghost struct BlockValues<T> {
    /// The normalized and modulated stream.
    pub modulated: T,
    /// It, after self-attention.
    pub attended: T,
    /// The stream with the gated output of self-attention.
    pub first: T,
    /// It, normalized.
    pub normed: T,
    /// The stream with the output of cross-attention.
    pub second: T,
    /// It, normalized and modulated.
    pub modulated_mlp: T,
    /// It, after the MLP.
    pub fed: T,
}

/// `out` is cross-attention to keys and values: those given, or else those
/// that the block projects.
pub open spec fn crossed<L, T, K, P, C>(
    layer: L,
    kv: Option<&K>,
    x: T,
    h: T,
    project: P,
    cross_attention: C,
    out: T,
) -> bool where
    P: Fn(&L) -> K,
    C: Fn(&L, T, T, &K) -> T,
 {
    match kv {
        Some(k) => call_ensures(cross_attention, (&layer, x, h, k), out),
        None => exists|k: K| #[trigger]
            call_ensures(project, (&layer,), k) && call_ensures(
                cross_attention,
                (&layer, x, h, &k),
                out,
            ),
    }
}

/// `values` and `out` are what the operations of a block make of `x`.
pub open spec fn is_block_run<L, T, K, R, S, G, P, C, M>(
    layer: L,
    kv: Option<&K>,
    x: T,
    norm: R,
    self_attention: S,
    gate: G,
    project: P,
    cross_attention: C,
    mlp: M,
    values: BlockValues<T>,
    out: T,
) -> bool where
    R: Fn(&L, BlockStep, &T) -> T,
    S: Fn(&L, BlockStep, T) -> T,
    G: Fn(&L, BlockStep, T, T) -> T,
    P: Fn(&L) -> K,
    C: Fn(&L, T, T, &K) -> T,
    M: Fn(&L, BlockStep, T) -> T,
 {
    let steps = block_steps_of(kv is Some);
    &&& call_ensures(norm, (&layer, steps[0], &x), values.modulated)
    &&& call_ensures(self_attention, (&layer, steps[1], values.modulated), values.attended)
    &&& call_ensures(gate, (&layer, steps[2], x, values.attended), values.first)
    &&& call_ensures(norm, (&layer, steps[3], &values.first), values.normed)
    &&& crossed(
        layer,
        kv,
        values.first,
        values.normed,
        project,
        cross_attention,
        values.second,
    )
    &&& call_ensures(norm, (&layer, steps[5], &values.second), values.modulated_mlp)
    &&& call_ensures(mlp, (&layer, steps[6], values.modulated_mlp), values.fed)
    &&& call_ensures(gate, (&layer, steps[7], values.second, values.fed), out)
}

/// `out` is what a block makes of `x`.
pub open spec fn block_outcome<L, T, K, R, S, G, P, C, M>(
    layer: L,
    kv: Option<&K>,
    x: T,
    norm: R,
    self_attention: S,
    gate: G,
    project: P,
    cross_attention: C,
    mlp: M,
    out: T,
) -> bool where
    R: Fn(&L, BlockStep, &T) -> T,
    S: Fn(&L, BlockStep, T) -> T,
    G: Fn(&L, BlockStep, T, T) -> T,
    P: Fn(&L) -> K,
    C: Fn(&L, T, T, &K) -> T,
    M: Fn(&L, BlockStep, T) -> T,
 {
    exists|values: BlockValues<T>| #[trigger]
        is_block_run(
            layer,
            kv,
            x,
            norm,
            self_attention,
            gate,
            project,
            cross_attention,
            mlp,
            values,
            out,
        )
}

/// Takes activations through a block.
///
/// `norm` normalizes the stream, `gate` adds a gated branch to it, and
/// `cross_attention` what a branch reads off keys and values. `project` gives
/// those where none were projected before.
pub fn block_forward<L, T, K, R, S, G, P, C, M>(
    layer: &L,
    kv: Option<&K>,
    x: T,
    norm: &R,
    self_attention: &S,
    gate: &G,
    project: &P,
    cross_attention: &C,
    mlp: &M,
) -> (r: T) where
    R: Fn(&L, BlockStep, &T) -> T,
    S: Fn(&L, BlockStep, T) -> T,
    G: Fn(&L, BlockStep, T, T) -> T,
    P: Fn(&L) -> K,
    C: Fn(&L, T, T, &K) -> T,
    M: Fn(&L, BlockStep, T) -> T,

    requires
        forall|l: &L, s: BlockStep, x: &T| call_requires(*norm, (l, s, x)),
        forall|l: &L, s: BlockStep, h: T| call_requires(*self_attention, (l, s, h)),
        forall|l: &L, s: BlockStep, x: T, h: T| call_requires(*gate, (l, s, x, h)),
        forall|l: &L, x: T, h: T, k: &K| call_requires(*cross_attention, (l, x, h, k)),
        forall|l: &L, s: BlockStep, h: T| call_requires(*mlp, (l, s, h)),
        kv is None ==> call_requires(*project, (layer,)),
    ensures
        block_outcome(
            *layer,
            kv,
            x,
            *norm,
            *self_attention,
            *gate,
            *project,
            *cross_attention,
            *mlp,
            r,
        ),
{
    let steps: Vec<BlockStep> = block_steps(kv.is_some());
    let modulated: T = norm(layer, steps[0], &x);
    let ghost v0 = modulated;
    let ghost x0 = x;
    assert(call_ensures(*norm, (layer, steps@[0], &x0), v0));
    let attended: T = self_attention(layer, steps[1], modulated);
    let ghost v1 = attended;
    let first: T = gate(layer, steps[2], x, attended);
    let ghost v2 = first;
    let normed: T = norm(layer, steps[3], &first);
    let ghost v3 = normed;
    assert(call_ensures(*norm, (layer, steps@[3], &v2), v3));
    let second: T = match kv {
        Some(k) => cross_attention(layer, first, normed, k),
        None => {
            let k: K = project(layer);
            assert(call_ensures(*project, (layer,), k));
            cross_attention(layer, first, normed, &k)
        },
    };
    let ghost v4 = second;
    assert(crossed(*layer, kv, v2, v3, *project, *cross_attention, v4));
    let modulated_mlp: T = norm(layer, steps[5], &second);
    let ghost v5 = modulated_mlp;
    assert(call_ensures(*norm, (layer, steps@[5], &v4), v5));
    let fed: T = mlp(layer, steps[6], modulated_mlp);
    let ghost v6 = fed;
    let out: T = gate(layer, steps[7], second, fed);
    let ghost values = BlockValues {
        modulated: v0,
        attended: v1,
        first: v2,
        normed: v3,
        second: v4,
        modulated_mlp: v5,
        fed: v6,
    };
    assert(is_block_run(
        *layer,
        kv,
        x0,
        *norm,
        *self_attention,
        *gate,
        *project,
        *cross_attention,
        *mlp,
        values,
        out,
    ));
    out
}

// ---------------------------------------------------------------------------
// The walk through the blocks
// ---------------------------------------------------------------------------

/// Keys and values that were projected for block `i`, where there are any.
pub open spec fn cache_entry<'a, K>(cache: Option<&'a Vec<K>>, i: int) -> Option<&'a K> {
    match cache {
        Some(entries) => Some(&entries@[i]),
        None => None,
    }
}

/// `states` leads through the first blocks: each makes the next state of the
/// one before it, with the cache entry of its own number.
pub open spec fn blocks_path<L, T, K, R, S, G, P, C, M>(
    layers: Seq<L>,
    cache: Option<&Vec<K>>,
    x: T,
    norm: R,
    self_attention: S,
    gate: G,
    project: P,
    cross_attention: C,
    mlp: M,
    states: Seq<T>,
) -> bool where
    R: Fn(&L, BlockStep, &T) -> T,
    S: Fn(&L, BlockStep, T) -> T,
    G: Fn(&L, BlockStep, T, T) -> T,
    P: Fn(&L) -> K,
    C: Fn(&L, T, T, &K) -> T,
    M: Fn(&L, BlockStep, T) -> T,
 {
    &&& 1 <= states.len() <= layers.len() + 1
    &&& states[0] == x
    &&& forall|i: int, j: int|
        0 <= i && j == i + 1 && j < states.len() ==> block_outcome(
            layers[i],
            cache_entry(cache, i),
            #[trigger] states[i],
            norm,
            self_attention,
            gate,
            project,
            cross_attention,
            mlp,
            #[trigger] states[j],
        )
}

/// `out` is where the blocks lead.
pub open spec fn blocks_outcome<L, T, K, R, S, G, P, C, M>(
    layers: Seq<L>,
    cache: Option<&Vec<K>>,
    x: T,
    norm: R,
    self_attention: S,
    gate: G,
    project: P,
    cross_attention: C,
    mlp: M,
    out: T,
) -> bool where
    R: Fn(&L, BlockStep, &T) -> T,
    S: Fn(&L, BlockStep, T) -> T,
    G: Fn(&L, BlockStep, T, T) -> T,
    P: Fn(&L) -> K,
    C: Fn(&L, T, T, &K) -> T,
    M: Fn(&L, BlockStep, T) -> T,
 {
    exists|states: Seq<T>| #[trigger]
        blocks_path(
            layers,
            cache,
            x,
            norm,
            self_attention,
            gate,
            project,
            cross_attention,
            mlp,
            states,
        ) && states.len() == layers.len() + 1 && states.last() == out
}

/// Takes activations through all blocks, in order; block `i` reads cache entry
/// `i` where there is a cache.
pub fn forward_blocks<L, T, K, R, S, G, P, C, M>(
    layers: &Vec<L>,
    cache: Option<&Vec<K>>,
    x: T,
    norm: &R,
    self_attention: &S,
    gate: &G,
    project: &P,
    cross_attention: &C,
    mlp: &M,
) -> (r: T) where
    R: Fn(&L, BlockStep, &T) -> T,
    S: Fn(&L, BlockStep, T) -> T,
    G: Fn(&L, BlockStep, T, T) -> T,
    P: Fn(&L) -> K,
    C: Fn(&L, T, T, &K) -> T,
    M: Fn(&L, BlockStep, T) -> T,

    requires
        cache matches Some(entries) ==> entries@.len() == layers@.len(),
        forall|l: &L, s: BlockStep, x: &T| call_requires(*norm, (l, s, x)),
        forall|l: &L, s: BlockStep, h: T| call_requires(*self_attention, (l, s, h)),
        forall|l: &L, s: BlockStep, x: T, h: T| call_requires(*gate, (l, s, x, h)),
        forall|l: &L, x: T, h: T, k: &K| call_requires(*cross_attention, (l, x, h, k)),
        forall|l: &L, s: BlockStep, h: T| call_requires(*mlp, (l, s, h)),
        cache is None ==> forall|l: &L| call_requires(*project, (l,)),
    ensures
        blocks_outcome(
            layers@,
            cache,
            x,
            *norm,
            *self_attention,
            *gate,
            *project,
            *cross_attention,
            *mlp,
            r,
        ),
{
    let ghost first = x;
    let mut state: T = x;
    let ghost mut states: Seq<T> = seq![state];
    let mut i: usize = 0;
    while i < layers.len()
        invariant
            i <= layers.len(),
            cache matches Some(entries) ==> entries@.len() == layers@.len(),
            forall|l: &L, s: BlockStep, x: &T| call_requires(*norm, (l, s, x)),
            forall|l: &L, s: BlockStep, h: T| call_requires(*self_attention, (l, s, h)),
            forall|l: &L, s: BlockStep, x: T, h: T| call_requires(*gate, (l, s, x, h)),
            forall|l: &L, x: T, h: T, k: &K| call_requires(*cross_attention, (l, x, h, k)),
            forall|l: &L, s: BlockStep, h: T| call_requires(*mlp, (l, s, h)),
            cache is None ==> forall|l: &L| call_requires(*project, (l,)),
            blocks_path(
                layers@,
                cache,
                first,
                *norm,
                *self_attention,
                *gate,
                *project,
                *cross_attention,
                *mlp,
                states,
            ),
            states.len() == i + 1,
            states.last() == state,
        decreases layers.len() - i,
    {
        let ghost before = states;
        let kv: Option<&K> = match cache {
            Some(entries) => Some(&entries[i]),
            None => None,
        };
        assert(kv == cache_entry(cache, i as int));
        state = block_forward(
            &layers[i],
            kv,
            state,
            norm,
            self_attention,
            gate,
            project,
            cross_attention,
            mlp,
        );
        proof {
            states = states.push(state);
            assert forall|a: int, b: int|
                0 <= a && b == a + 1 && b < states.len() implies block_outcome(
                layers@[a],
                cache_entry(cache, a),
                #[trigger] states[a],
                *norm,
                *self_attention,
                *gate,
                *project,
                *cross_attention,
                *mlp,
                #[trigger] states[b],
            ) by {
                assert(states[a] == before[a]);
                if b < before.len() {
                    assert(states[b] == before[b]);
                } else {
                    assert(before.last() == before[a]);
                }
            }
        }
        i = i + 1;
    }
    assert(blocks_path(
        layers@,
        cache,
        first,
        *norm,
        *self_attention,
        *gate,
        *project,
        *cross_attention,
        *mlp,
        states,
    ));
    state
}

/// `out` is what a model makes of an input: projected in, taken through the
/// blocks, projected out.
pub open spec fn model_outcome<L, T, K, Z, I, R, S, G, P, C, M, O>(
    plan: ModelPlan,
    layers: Seq<L>,
    cache: Option<&Vec<K>>,
    input: I,
    norm: R,
    self_attention: S,
    gate: G,
    project: P,
    cross_attention: C,
    mlp: M,
    output: O,
    out: Z,
) -> bool where
    I: Fn(&Vec<InputChunk>, Option<FloatDType>) -> T,
    R: Fn(&L, BlockStep, &T) -> T,
    S: Fn(&L, BlockStep, T) -> T,
    G: Fn(&L, BlockStep, T, T) -> T,
    P: Fn(&L) -> K,
    C: Fn(&L, T, T, &K) -> T,
    M: Fn(&L, BlockStep, T) -> T,
    O: Fn(T, &Vec<Range<usize>>) -> Z,
 {
    exists|entered: T, left: T| #[trigger]
        blocks_outcome(
            layers,
            cache,
            entered,
            norm,
            self_attention,
            gate,
            project,
            cross_attention,
            mlp,
            left,
        ) && call_ensures(input, (&plan.input, plan.torso_dtype), entered) && call_ensures(
            output,
            (left, &plan.output),
            out,
        )
}

/// Carries out a planned call of a model: `input` projects the tokens in by
/// chunks and into the format of the blocks, `output` projects them out.
pub fn forward_model<L, T, K, Z, I, R, S, G, P, C, M, O>(
    plan: &ModelPlan,
    layers: &Vec<L>,
    cache: Option<&Vec<K>>,
    input: &I,
    norm: &R,
    self_attention: &S,
    gate: &G,
    project: &P,
    cross_attention: &C,
    mlp: &M,
    output: &O,
) -> (r: Z) where
    I: Fn(&Vec<InputChunk>, Option<FloatDType>) -> T,
    R: Fn(&L, BlockStep, &T) -> T,
    S: Fn(&L, BlockStep, T) -> T,
    G: Fn(&L, BlockStep, T, T) -> T,
    P: Fn(&L) -> K,
    C: Fn(&L, T, T, &K) -> T,
    M: Fn(&L, BlockStep, T) -> T,
    O: Fn(T, &Vec<Range<usize>>) -> Z,

    requires
        plan.blocks == layers@.len(),
        plan.cached == cache is Some,
        cache matches Some(entries) ==> entries@.len() == layers@.len(),
        call_requires(*input, (&plan.input, plan.torso_dtype)),
        forall|l: &L, s: BlockStep, x: &T| call_requires(*norm, (l, s, x)),
        forall|l: &L, s: BlockStep, h: T| call_requires(*self_attention, (l, s, h)),
        forall|l: &L, s: BlockStep, x: T, h: T| call_requires(*gate, (l, s, x, h)),
        forall|l: &L, x: T, h: T, k: &K| call_requires(*cross_attention, (l, x, h, k)),
        forall|l: &L, s: BlockStep, h: T| call_requires(*mlp, (l, s, h)),
        cache is None ==> forall|l: &L| call_requires(*project, (l,)),
        forall|x: T| call_requires(*output, (x, &plan.output)),
    ensures
        model_outcome(
            *plan,
            layers@,
            cache,
            *input,
            *norm,
            *self_attention,
            *gate,
            *project,
            *cross_attention,
            *mlp,
            *output,
            r,
        ),
{
    let entered: T = input(&plan.input, plan.torso_dtype);
    let ghost entered_ghost = entered;
    assert(call_ensures(*input, (&plan.input, plan.torso_dtype), entered_ghost));
    let left: T = forward_blocks(
        layers,
        cache,
        entered,
        norm,
        self_attention,
        gate,
        project,
        cross_attention,
        mlp,
    );
    assert(blocks_outcome(
        layers@,
        cache,
        entered_ghost,
        *norm,
        *self_attention,
        *gate,
        *project,
        *cross_attention,
        *mlp,
        left,
    ));
    output(left, &plan.output)
}

// ---------------------------------------------------------------------------
// Cached projections
// ---------------------------------------------------------------------------

/// The cache holds what the blocks project.
pub open spec fn is_projected<L, K, P>(
    layers: Seq<L>,
    project: P,
    cache: Seq<K>,
) -> bool where P: Fn(&L) -> K {
    cache.len() == layers.len() && forall|i: int|
        0 <= i < layers.len() ==> call_ensures(project, (&layers[i],), #[trigger] cache[i])
}

/// Projects the keys and values of all blocks.
pub fn project_cross_attention_cache<L, K, P>(layers: &Vec<L>, project: &P) -> (r: Vec<K>) where
    P: Fn(&L) -> K,

    requires
        forall|l: &L| call_requires(*project, (l,)),
    ensures
        is_projected(layers@, *project, r@),
{
    let mut cache: Vec<K> = Vec::new();
    let mut i: usize = 0;
    while i < layers.len()
        invariant
            i <= layers.len(),
            cache@.len() == i,
            forall|l: &L| call_requires(*project, (l,)),
            forall|j: int|
                0 <= j < i ==> call_ensures(*project, (&layers@[j],), #[trigger] cache@[j]),
        decreases layers.len() - i,
    {
        cache.push(project(&layers[i]));
        i = i + 1;
    }
    cache
}

/// A pass through the blocks with the keys and values that the blocks project
/// is a pass without a cache.
pub proof fn cached_pass_is_an_uncached_pass<L, T, K, R, S, G, P, C, M>(
    layers: Seq<L>,
    cache: &Vec<K>,
    x: T,
    norm: R,
    self_attention: S,
    gate: G,
    project: P,
    cross_attention: C,
    mlp: M,
    out: T,
) where
    R: Fn(&L, BlockStep, &T) -> T,
    S: Fn(&L, BlockStep, T) -> T,
    G: Fn(&L, BlockStep, T, T) -> T,
    P: Fn(&L) -> K,
    C: Fn(&L, T, T, &K) -> T,
    M: Fn(&L, BlockStep, T) -> T,

    requires
        is_projected(layers, project, cache@),
        blocks_outcome(
            layers,
            Some(cache),
            x,
            norm,
            self_attention,
            gate,
            project,
            cross_attention,
            mlp,
            out,
        ),
    ensures
        blocks_outcome(
            layers,
            None,
            x,
            norm,
            self_attention,
            gate,
            project,
            cross_attention,
            mlp,
            out,
        ),
{
    let states = choose|states: Seq<T>| #[trigger]
        blocks_path(
            layers,
            Some(cache),
            x,
            norm,
            self_attention,
            gate,
            project,
            cross_attention,
            mlp,
            states,
        ) && states.len() == layers.len() + 1 && states.last() == out;
    assert forall|i: int, j: int| 0 <= i && j == i + 1 && j < states.len() implies block_outcome(
        layers[i],
        cache_entry(None::<&Vec<K>>, i),
        #[trigger] states[i],
        norm,
        self_attention,
        gate,
        project,
        cross_attention,
        mlp,
        #[trigger] states[j],
    ) by {
        let kv = cache_entry(Some(cache), i);
        assert(block_outcome(
            layers[i],
            kv,
            states[i],
            norm,
            self_attention,
            gate,
            project,
            cross_attention,
            mlp,
            states[j],
        ));
        let values = choose|values: BlockValues<T>| #[trigger]
            is_block_run(
                layers[i],
                kv,
                states[i],
                norm,
                self_attention,
                gate,
                project,
                cross_attention,
                mlp,
                values,
                states[j],
            );
        let with = block_steps_of(true);
        let without = block_steps_of(false);
        assert(with[0] == without[0] && with[1] == without[1] && with[2] == without[2] && with[3]
            == without[3] && with[5] == without[5] && with[6] == without[6] && with[7]
            == without[7]);
        assert(call_ensures(project, (&layers[i],), cache@[i]));
        assert(crossed(
            layers[i],
            None::<&K>,
            values.first,
            values.normed,
            project,
            cross_attention,
            values.second,
        ));
        assert(is_block_run(
            layers[i],
            None::<&K>,
            states[i],
            norm,
            self_attention,
            gate,
            project,
            cross_attention,
            mlp,
            values,
            states[j],
        ));
    }
    assert(blocks_path(
        layers,
        None::<&Vec<K>>,
        x,
        norm,
        self_attention,
        gate,
        project,
        cross_attention,
        mlp,
        states,
    ));
}

/// What is handed in gives one result for one input.
pub open spec fn operations_are_pure<L, T, K, R, S, G, P, C, M>(
    norm: R,
    self_attention: S,
    gate: G,
    project: P,
    cross_attention: C,
    mlp: M,
) -> bool where
    R: Fn(&L, BlockStep, &T) -> T,
    S: Fn(&L, BlockStep, T) -> T,
    G: Fn(&L, BlockStep, T, T) -> T,
    P: Fn(&L) -> K,
    C: Fn(&L, T, T, &K) -> T,
    M: Fn(&L, BlockStep, T) -> T,
 {
    &&& forall|l: &L, s: BlockStep, x: &T, a: T, b: T| #[trigger]
        call_ensures(norm, (l, s, x), a) && #[trigger] call_ensures(norm, (l, s, x), b) ==> a == b
    &&& forall|l: &L, s: BlockStep, h: T, a: T, b: T| #[trigger]
        call_ensures(self_attention, (l, s, h), a) && #[trigger] call_ensures(
            self_attention,
            (l, s, h),
            b,
        ) ==> a == b
    &&& forall|l: &L, s: BlockStep, x: T, h: T, a: T, b: T| #[trigger]
        call_ensures(gate, (l, s, x, h), a) && #[trigger] call_ensures(gate, (l, s, x, h), b) ==> a
            == b
    &&& forall|l: &L, a: K, b: K| #[trigger]
        call_ensures(project, (l,), a) && #[trigger] call_ensures(project, (l,), b) ==> a == b
    &&& forall|l: &L, x: T, h: T, k: &K, a: T, b: T| #[trigger]
        call_ensures(cross_attention, (l, x, h, k), a) && #[trigger] call_ensures(
            cross_attention,
            (l, x, h, k),
            b,
        ) ==> a == b
    &&& forall|l: &L, s: BlockStep, h: T, a: T, b: T| #[trigger]
        call_ensures(mlp, (l, s, h), a) && #[trigger] call_ensures(mlp, (l, s, h), b) ==> a == b
}

proof fn lemma_block_pure<L, T, K, R, S, G, P, C, M>(
    layer: L,
    kv: Option<&K>,
    x: T,
    norm: R,
    self_attention: S,
    gate: G,
    project: P,
    cross_attention: C,
    mlp: M,
    a: T,
    b: T,
) where
    R: Fn(&L, BlockStep, &T) -> T,
    S: Fn(&L, BlockStep, T) -> T,
    G: Fn(&L, BlockStep, T, T) -> T,
    P: Fn(&L) -> K,
    C: Fn(&L, T, T, &K) -> T,
    M: Fn(&L, BlockStep, T) -> T,

    requires
        operations_are_pure(
            norm,
            self_attention,
            gate,
            project,
            cross_attention,
            mlp,
        ),
        block_outcome(
            layer,
            kv,
            x,
            norm,
            self_attention,
            gate,
            project,
            cross_attention,
            mlp,
            a,
        ),
        block_outcome(
            layer,
            kv,
            x,
            norm,
            self_attention,
            gate,
            project,
            cross_attention,
            mlp,
            b,
        ),
    ensures
        a == b,
{
    let v = choose|values: BlockValues<T>| #[trigger]
        is_block_run(
            layer,
            kv,
            x,
            norm,
            self_attention,
            gate,
            project,
            cross_attention,
            mlp,
            values,
            a,
        );
    let w = choose|values: BlockValues<T>| #[trigger]
        is_block_run(
            layer,
            kv,
            x,
            norm,
            self_attention,
            gate,
            project,
            cross_attention,
            mlp,
            values,
            b,
        );
    assert(v.modulated == w.modulated);
    assert(v.attended == w.attended);
    assert(v.first == w.first);
    assert(v.normed == w.normed);
    assert(v.second == w.second);
    assert(v.modulated_mlp == w.modulated_mlp);
    assert(v.fed == w.fed);
}

proof fn lemma_paths_pure<L, T, K, R, S, G, P, C, M>(
    layers: Seq<L>,
    cache: Option<&Vec<K>>,
    x: T,
    norm: R,
    self_attention: S,
    gate: G,
    project: P,
    cross_attention: C,
    mlp: M,
    a: Seq<T>,
    b: Seq<T>,
    n: int,
) where
    R: Fn(&L, BlockStep, &T) -> T,
    S: Fn(&L, BlockStep, T) -> T,
    G: Fn(&L, BlockStep, T, T) -> T,
    P: Fn(&L) -> K,
    C: Fn(&L, T, T, &K) -> T,
    M: Fn(&L, BlockStep, T) -> T,

    requires
        operations_are_pure(
            norm,
            self_attention,
            gate,
            project,
            cross_attention,
            mlp,
        ),
        blocks_path(
            layers,
            cache,
            x,
            norm,
            self_attention,
            gate,
            project,
            cross_attention,
            mlp,
            a,
        ),
        blocks_path(
            layers,
            cache,
            x,
            norm,
            self_attention,
            gate,
            project,
            cross_attention,
            mlp,
            b,
        ),
        0 <= n < a.len(),
        a.len() == b.len(),
    ensures
        a[n] == b[n],
    decreases n,
{
    if n > 0 {
        lemma_paths_pure(
            layers,
            cache,
            x,
            norm,
            self_attention,
            gate,
            project,
            cross_attention,
            mlp,
            a,
            b,
            n - 1,
        );
        let i = n - 1;
        assert(a[i] == b[i]);
        lemma_block_pure(
            layers[i],
            cache_entry(cache, i),
            a[i],
            norm,
            self_attention,
            gate,
            project,
            cross_attention,
            mlp,
            a[n],
            b[n],
        );
    }
}

proof fn lemma_cached_blocks<L, T, K, R, S, G, P, C, M>(
    layers: Seq<L>,
    cache: &Vec<K>,
    x: T,
    norm: R,
    self_attention: S,
    gate: G,
    project: P,
    cross_attention: C,
    mlp: M,
    cached: T,
    uncached: T,
) where
    R: Fn(&L, BlockStep, &T) -> T,
    S: Fn(&L, BlockStep, T) -> T,
    G: Fn(&L, BlockStep, T, T) -> T,
    P: Fn(&L) -> K,
    C: Fn(&L, T, T, &K) -> T,
    M: Fn(&L, BlockStep, T) -> T,

    requires
        operations_are_pure(
            norm,
            self_attention,
            gate,
            project,
            cross_attention,
            mlp,
        ),
        is_projected(layers, project, cache@),
        blocks_outcome(
            layers,
            Some(cache),
            x,
            norm,
            self_attention,
            gate,
            project,
            cross_attention,
            mlp,
            cached,
        ),
        blocks_outcome(
            layers,
            None,
            x,
            norm,
            self_attention,
            gate,
            project,
            cross_attention,
            mlp,
            uncached,
        ),
    ensures
        cached == uncached,
{
    cached_pass_is_an_uncached_pass(
        layers,
        cache,
        x,
        norm,
        self_attention,
        gate,
        project,
        cross_attention,
        mlp,
        cached,
    );
    let a = choose|states: Seq<T>| #[trigger]
        blocks_path(
            layers,
            None::<&Vec<K>>,
            x,
            norm,
            self_attention,
            gate,
            project,
            cross_attention,
            mlp,
            states,
        ) && states.len() == layers.len() + 1 && states.last() == cached;
    let b = choose|states: Seq<T>| #[trigger]
        blocks_path(
            layers,
            None::<&Vec<K>>,
            x,
            norm,
            self_attention,
            gate,
            project,
            cross_attention,
            mlp,
            states,
        ) && states.len() == layers.len() + 1 && states.last() == uncached;
    lemma_paths_pure(
        layers,
        None::<&Vec<K>>,
        x,
        norm,
        self_attention,
        gate,
        project,
        cross_attention,
        mlp,
        a,
        b,
        layers.len() as int,
    );
}

/// Projections into and out of a model give one result for one input.
pub open spec fn projections_are_pure<T, Z, I, O>(input: I, output: O) -> bool where
    I: Fn(&Vec<InputChunk>, Option<FloatDType>) -> T,
    O: Fn(T, &Vec<Range<usize>>) -> Z,
 {
    &&& forall|c: &Vec<InputChunk>, d: &Vec<InputChunk>, f: Option<FloatDType>, a: T, b: T|
        #[trigger]
        call_ensures(input, (c, f), a) && #[trigger] call_ensures(input, (d, f), b) && c@ == d@
            ==> a == b
    &&& forall|x: T, c: &Vec<Range<usize>>, d: &Vec<Range<usize>>, a: Z, b: Z| #[trigger]
        call_ensures(output, (x, c), a) && #[trigger] call_ensures(output, (x, d), b) && c@ == d@
            ==> a == b
}

/// A call of a model with the keys and values that its blocks project gives
/// what a call without a cache gives.
pub proof fn cached_forward_equals_uncached_forward<L, T, K, Z, I, R, S, G, P, C, M, O>(
    plan: ModelPlan,
    cached_plan: ModelPlan,
    layers: Seq<L>,
    cache: &Vec<K>,
    input: I,
    norm: R,
    self_attention: S,
    gate: G,
    project: P,
    cross_attention: C,
    mlp: M,
    output: O,
    cached: Z,
    uncached: Z,
) where
    I: Fn(&Vec<InputChunk>, Option<FloatDType>) -> T,
    R: Fn(&L, BlockStep, &T) -> T,
    S: Fn(&L, BlockStep, T) -> T,
    G: Fn(&L, BlockStep, T, T) -> T,
    P: Fn(&L) -> K,
    C: Fn(&L, T, T, &K) -> T,
    M: Fn(&L, BlockStep, T) -> T,
    O: Fn(T, &Vec<Range<usize>>) -> Z,

    requires
        cached_plan.input@ == plan.input@,
        cached_plan.torso_dtype == plan.torso_dtype,
        cached_plan.output@ == plan.output@,
        projections_are_pure(input, output),
        operations_are_pure(
            norm,
            self_attention,
            gate,
            project,
            cross_attention,
            mlp,
        ),
        is_projected(layers, project, cache@),
        model_outcome(
            cached_plan,
            layers,
            Some(cache),
            input,
            norm,
            self_attention,
            gate,
            project,
            cross_attention,
            mlp,
            output,
            cached,
        ),
        model_outcome(
            plan,
            layers,
            None::<&Vec<K>>,
            input,
            norm,
            self_attention,
            gate,
            project,
            cross_attention,
            mlp,
            output,
            uncached,
        ),
    ensures
        cached == uncached,
{
    let (x, y) = choose|entered: T, left: T| #[trigger]
        blocks_outcome(
            layers,
            Some(cache),
            entered,
            norm,
            self_attention,
            gate,
            project,
            cross_attention,
            mlp,
            left,
        ) && call_ensures(input, (&cached_plan.input, cached_plan.torso_dtype), entered)
            && call_ensures(output, (left, &cached_plan.output), cached);
    let (u, v) = choose|entered: T, left: T| #[trigger]
        blocks_outcome(
            layers,
            None::<&Vec<K>>,
            entered,
            norm,
            self_attention,
            gate,
            project,
            cross_attention,
            mlp,
            left,
        ) && call_ensures(input, (&plan.input, plan.torso_dtype), entered) && call_ensures(
            output,
            (left, &plan.output),
            uncached,
        );
    assert(x == u);
    lemma_cached_blocks(
        layers,
        cache,
        x,
        norm,
        self_attention,
        gate,
        project,
        cross_attention,
        mlp,
        y,
        v,
    );
}

/// A planned call of a model with the keys and values that its blocks project
/// gives what the call gives that is planned for the same tokens without a
/// cache.
pub proof fn cached_call_equals_uncached_call<F, L, T, K, Z, I, R, S, G, P, C, M, O>(
    env: FlowEnv,
    backend: FlowBackend,
    config: SparseStructureFlowConfig<F>,
    shape: ForwardShape,
    plan: ModelPlan,
    cached_plan: ModelPlan,
    layers: Seq<L>,
    cache: &Vec<K>,
    input: I,
    norm: R,
    self_attention: S,
    gate: G,
    project: P,
    cross_attention: C,
    mlp: M,
    output: O,
    cached: Z,
    uncached: Z,
) where
    I: Fn(&Vec<InputChunk>, Option<FloatDType>) -> T,
    R: Fn(&L, BlockStep, &T) -> T,
    S: Fn(&L, BlockStep, T) -> T,
    G: Fn(&L, BlockStep, T, T) -> T,
    P: Fn(&L) -> K,
    C: Fn(&L, T, T, &K) -> T,
    M: Fn(&L, BlockStep, T) -> T,
    O: Fn(T, &Vec<Range<usize>>) -> Z,

    requires
        is_model_plan(
            env,
            backend,
            config,
            layers.len() as int,
            (ForwardShape { cached_blocks: None, ..shape }),
            plan,
        ),
        is_model_plan(
            env,
            backend,
            config,
            layers.len() as int,
            (ForwardShape { cached_blocks: Some(cache.len()), ..shape }),
            cached_plan,
        ),
        projections_are_pure(input, output),
        operations_are_pure(
            norm,
            self_attention,
            gate,
            project,
            cross_attention,
            mlp,
        ),
        is_projected(layers, project, cache@),
        model_outcome(
            cached_plan,
            layers,
            Some(cache),
            input,
            norm,
            self_attention,
            gate,
            project,
            cross_attention,
            mlp,
            output,
            cached,
        ),
        model_outcome(
            plan,
            layers,
            None::<&Vec<K>>,
            input,
            norm,
            self_attention,
            gate,
            project,
            cross_attention,
            mlp,
            output,
            uncached,
        ),
    ensures
        cached == uncached,
{
    caching_leaves_the_route(
        env,
        backend,
        config,
        layers.len() as int,
        (ForwardShape { cached_blocks: None, ..shape }),
        (ForwardShape { cached_blocks: Some(cache.len()), ..shape }),
        plan,
        cached_plan,
    );
    cached_forward_equals_uncached_forward(
        plan,
        cached_plan,
        layers,
        cache,
        input,
        norm,
        self_attention,
        gate,
        project,
        cross_attention,
        mlp,
        output,
        cached,
        uncached,
    );
}

} // verus!
