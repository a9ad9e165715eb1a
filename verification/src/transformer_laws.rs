//! What blocks and models make of activations, stated of their inputs and
//! results.
use crate::flow_model::{block_steps_of, BlockStep, InputChunk, ModelPlan, ModulationPart};
use crate::policy::FloatDType;
use crate::transformer::{
    block_outcome, blocks_outcome, blocks_path, cache_entry, is_block_run, model_outcome,
    BlockValues,
};
use core::ops::Range;
use vstd::prelude::*;

verus! {

/// A modulation signal holds six parts, one after the other: shift, scale and
/// gate of self-attention, then shift, scale and gate of the MLP.
pub proof fn modulation_parts_stand_in_order(channels: int, i: int)
    requires
        0 <= i < channels,
    ensures
        ModulationPart::ShiftMsa.holds(channels, i),
        ModulationPart::ScaleMsa.holds(channels, channels + i),
        ModulationPart::GateMsa.holds(channels, 2 * channels + i),
        ModulationPart::ShiftMlp.holds(channels, 3 * channels + i),
        ModulationPart::ScaleMlp.holds(channels, 4 * channels + i),
        ModulationPart::GateMlp.holds(channels, 5 * channels + i),
        ModulationPart::ShiftMsa.position() == 0,
        ModulationPart::ScaleMsa.position() == 1,
        ModulationPart::GateMsa.position() == 2,
        ModulationPart::ShiftMlp.position() == 3,
        ModulationPart::ScaleMlp.position() == 4,
        ModulationPart::GateMlp.position() == 5,
{
    assert((4 + 1) * channels == 5 * channels);
    assert((5 + 1) * channels == 6 * channels);
}

/// Self-attention stands between a norm that is shifted and scaled by the first
/// two parts of the modulation signal and a gate by the third; the MLP stands
/// between a norm by the fourth and fifth part and a gate by the sixth. Cross-
/// attention stands between them, behind a norm without modulation.
pub proof fn block_operations_read_their_own_parts(cached: bool, i: int)
    requires
        0 <= i < block_steps_of(cached).len(),
    ensures
        ({
            let steps = block_steps_of(cached);
            &&& steps.len() == 8
            &&& steps[i] is SelfAttention ==> {
                &&& 0 < i < 7
                &&& steps[i - 1] matches BlockStep::NormModulated { scale, shift }
                &&& shift.position() == 0
                &&& scale.position() == 1
            }
            &&& steps[i] is SelfAttention ==> {
                &&& steps[i + 1] matches BlockStep::GateResidual { gate }
                &&& gate.position() == 2
            }
            &&& steps[i] is Mlp ==> {
                &&& 0 < i < 7
                &&& steps[i - 1] matches BlockStep::NormModulated { scale, shift }
                &&& shift.position() == 3
                &&& scale.position() == 4
            }
            &&& steps[i] is Mlp ==> {
                &&& steps[i + 1] matches BlockStep::GateResidual { gate }
                &&& gate.position() == 5
            }
            &&& steps[i] matches BlockStep::CrossAttention { cached: with } ==> with == cached && i
                > 0 && steps[i - 1] is NormAffine
            &&& steps[1] is SelfAttention
            &&& steps[4] is CrossAttention
            &&& steps[6] is Mlp
        }),
{
}

/// A block is three residual branches, one after the other: self-attention of
/// the stream, modulated and gated by the first three parts of the signal;
/// cross-attention of the normalized stream; the MLP of the stream, modulated
/// and gated by the last three parts. Each branch reads the stream that the
/// branch before it left.
pub proof fn block_adds_three_branches<L, T, K, R, S, G, P, C, M>(
    layer: L,
    kv: Option<&K>,
    x: T,
    norm: R,
    self_attention: S,
    gate: G,
    project: P,
    cross_attention: C,
    mlp: M,
    out: T,
    modulated: spec_fn(L, T, int, int) -> T,
    normed: spec_fn(L, T) -> T,
    attended: spec_fn(L, T) -> T,
    gated: spec_fn(L, T, T, int) -> T,
    projected: spec_fn(L) -> K,
    crossed: spec_fn(L, T, T, K) -> T,
    fed: spec_fn(L, T) -> T,
) where
    R: Fn(&L, BlockStep, &T) -> T,
    S: Fn(&L, BlockStep, T) -> T,
    G: Fn(&L, BlockStep, T, T) -> T,
    P: Fn(&L) -> K,
    C: Fn(&L, T, T, &K) -> T,
    M: Fn(&L, BlockStep, T) -> T,

    requires
        block_outcome(
            layer,
            kv,
            x,
            norm,
            self_attention,
            gate,
            project,
            cross_attention,
            mlp,
            out,
        ),
        forall|l: &L, scale: ModulationPart, shift: ModulationPart, x: &T, h: T| #[trigger]
            call_ensures(norm, (l, BlockStep::NormModulated { scale, shift }, x), h) ==> h
                == modulated(*l, *x, scale.position(), shift.position()),
        forall|l: &L, x: &T, h: T| #[trigger]
            call_ensures(norm, (l, BlockStep::NormAffine, x), h) ==> h == normed(*l, *x),
        forall|l: &L, s: BlockStep, h: T, y: T| #[trigger]
            call_ensures(self_attention, (l, s, h), y) ==> y == attended(*l, h),
        forall|l: &L, part: ModulationPart, x: T, h: T, y: T| #[trigger]
            call_ensures(gate, (l, BlockStep::GateResidual { gate: part }, x, h), y) ==> y == gated(
                *l,
                x,
                h,
                part.position(),
            ),
        forall|l: &L, k: K| #[trigger] call_ensures(project, (l,), k) ==> k == projected(*l),
        forall|l: &L, x: T, h: T, k: &K, y: T| #[trigger]
            call_ensures(cross_attention, (l, x, h, k), y) ==> y == crossed(*l, x, h, *k),
        forall|l: &L, s: BlockStep, h: T, y: T| #[trigger]
            call_ensures(mlp, (l, s, h), y) ==> y == fed(*l, h),
    ensures
        ({
            let keys = match kv {
                Some(k) => *k,
                None => projected(layer),
            };
            let first = gated(layer, x, attended(layer, modulated(layer, x, 1, 0)), 2);
            let second = crossed(layer, first, normed(layer, first), keys);
            out == gated(layer, second, fed(layer, modulated(layer, second, 4, 3)), 5)
        }),
{
    let v = choose|values: BlockValues<T>| #[trigger]
        is_block_run(
            layer,
            kv,
            x,
            norm,
            self_attention,
            gate,
            project,
            cross_attention,
            mlp,
            values,
            out,
        );
    let s = block_steps_of(kv is Some);
    assert(s[0] == BlockStep::NormModulated {
        scale: ModulationPart::ScaleMsa,
        shift: ModulationPart::ShiftMsa,
    });
    assert(s[3] == BlockStep::NormAffine);
    assert(s[5] == BlockStep::NormModulated {
        scale: ModulationPart::ScaleMlp,
        shift: ModulationPart::ShiftMlp,
    });
    assert(v.modulated == modulated(layer, x, 1, 0));
    assert(v.first == gated(layer, x, v.attended, 2));
    assert(v.normed == normed(layer, v.first));
    assert(v.modulated_mlp == modulated(layer, v.second, 4, 3));
}

/// Blocks are taken one after the other, each with its own keys and values:
/// whatever block `i` carries from stage `i` to stage `i + 1` is carried through
/// all of them.
pub proof fn blocks_are_taken_in_turn<L, T, K, R, S, G, P, C, M>(
    layers: Seq<L>,
    cache: Option<&Vec<K>>,
    x: T,
    norm: R,
    self_attention: S,
    gate: G,
    project: P,
    cross_attention: C,
    mlp: M,
    out: T,
    stage: spec_fn(int, T) -> bool,
) where
    R: Fn(&L, BlockStep, &T) -> T,
    S: Fn(&L, BlockStep, T) -> T,
    G: Fn(&L, BlockStep, T, T) -> T,
    P: Fn(&L) -> K,
    C: Fn(&L, T, T, &K) -> T,
    M: Fn(&L, BlockStep, T) -> T,

    requires
        blocks_outcome(
            layers,
            cache,
            x,
            norm,
            self_attention,
            gate,
            project,
            cross_attention,
            mlp,
            out,
        ),
        stage(0, x),
        cache is None ==> forall|i: int, y: T, z: T|
            0 <= i < layers.len() && #[trigger] stage(i, y) && #[trigger] block_outcome(
                layers[i],
                None::<&K>,
                y,
                norm,
                self_attention,
                gate,
                project,
                cross_attention,
                mlp,
                z,
            ) ==> stage(i + 1, z),
        cache matches Some(entries) ==> forall|i: int, y: T, z: T|
            0 <= i < layers.len() && #[trigger] stage(i, y) && #[trigger] block_outcome(
                layers[i],
                Some(&entries@[i]),
                y,
                norm,
                self_attention,
                gate,
                project,
                cross_attention,
                mlp,
                z,
            ) ==> stage(i + 1, z),
    ensures
        stage(layers.len() as int, out),
{
    let states = choose|states: Seq<T>| #[trigger]
        blocks_path(
            layers,
            cache,
            x,
            norm,
            self_attention,
            gate,
            project,
            cross_attention,
            mlp,
            states,
        ) && states.len() == layers.len() + 1 && states.last() == out;
    lemma_block_stages(
        layers,
        cache,
        x,
        norm,
        self_attention,
        gate,
        project,
        cross_attention,
        mlp,
        states,
        stage,
        layers.len() as int,
    );
}

proof fn lemma_block_stages<L, T, K, R, S, G, P, C, M>(
    layers: Seq<L>,
    cache: Option<&Vec<K>>,
    x: T,
    norm: R,
    self_attention: S,
    gate: G,
    project: P,
    cross_attention: C,
    mlp: M,
    states: Seq<T>,
    stage: spec_fn(int, T) -> bool,
    k: int,
) where
    R: Fn(&L, BlockStep, &T) -> T,
    S: Fn(&L, BlockStep, T) -> T,
    G: Fn(&L, BlockStep, T, T) -> T,
    P: Fn(&L) -> K,
    C: Fn(&L, T, T, &K) -> T,
    M: Fn(&L, BlockStep, T) -> T,

    requires
        blocks_path(
            layers,
            cache,
            x,
            norm,
            self_attention,
            gate,
            project,
            cross_attention,
            mlp,
            states,
        ),
        states.len() == layers.len() + 1,
        0 <= k <= layers.len(),
        stage(0, x),
        cache is None ==> forall|i: int, y: T, z: T|
            0 <= i < layers.len() && #[trigger] stage(i, y) && #[trigger] block_outcome(
                layers[i],
                None::<&K>,
                y,
                norm,
                self_attention,
                gate,
                project,
                cross_attention,
                mlp,
                z,
            ) ==> stage(i + 1, z),
        cache matches Some(entries) ==> forall|i: int, y: T, z: T|
            0 <= i < layers.len() && #[trigger] stage(i, y) && #[trigger] block_outcome(
                layers[i],
                Some(&entries@[i]),
                y,
                norm,
                self_attention,
                gate,
                project,
                cross_attention,
                mlp,
                z,
            ) ==> stage(i + 1, z),
    ensures
        stage(k, states[k]),
    decreases k,
{
    if k > 0 {
        lemma_block_stages(
            layers,
            cache,
            x,
            norm,
            self_attention,
            gate,
            project,
            cross_attention,
            mlp,
            states,
            stage,
            k - 1,
        );
        assert(block_outcome(
            layers[k - 1],
            cache_entry(cache, k - 1),
            states[k - 1],
            norm,
            self_attention,
            gate,
            project,
            cross_attention,
            mlp,
            states[k],
        ));
    }
}

/// A model projects its input in, takes it through all blocks, and projects the
/// outcome out.
pub proof fn model_goes_in_through_and_out<L, T, K, Z, I, R, S, G, P, C, M, O>(
    plan: ModelPlan,
    layers: Seq<L>,
    cache: Option<&Vec<K>>,
    input: I,
    norm: R,
    self_attention: S,
    gate: G,
    project: P,
    cross_attention: C,
    mlp: M,
    output: O,
    out: Z,
    entered: spec_fn(T) -> bool,
    left: spec_fn(T) -> bool,
    finished: spec_fn(Z) -> bool,
) where
    I: Fn(&Vec<InputChunk>, Option<FloatDType>) -> T,
    R: Fn(&L, BlockStep, &T) -> T,
    S: Fn(&L, BlockStep, T) -> T,
    G: Fn(&L, BlockStep, T, T) -> T,
    P: Fn(&L) -> K,
    C: Fn(&L, T, T, &K) -> T,
    M: Fn(&L, BlockStep, T) -> T,
    O: Fn(T, &Vec<Range<usize>>) -> Z,

    requires
        model_outcome(
            plan,
            layers,
            cache,
            input,
            norm,
            self_attention,
            gate,
            project,
            cross_attention,
            mlp,
            output,
            out,
        ),
        forall|x: T| #[trigger]
            call_ensures(input, (&plan.input, plan.torso_dtype), x) ==> entered(x),
        forall|x: T, y: T|
            entered(x) && #[trigger] blocks_outcome(
                layers,
                cache,
                x,
                norm,
                self_attention,
                gate,
                project,
                cross_attention,
                mlp,
                y,
            ) ==> left(y),
        forall|y: T, z: Z|
            left(y) && #[trigger] call_ensures(output, (y, &plan.output), z) ==> finished(z),
    ensures
        finished(out),
{
}

} // verus!
