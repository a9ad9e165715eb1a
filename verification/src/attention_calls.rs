//! Self-attention and cross-attention as they are planned: what every operation
//! reads.
//!
//! Projections are of a type `J`, queries of a type `Q`, keys with their values
//! of a type `K`, attended rows of a type `A` and output rows of a type `O`. An
//! operation is handed its step, which says what tokens it is for.
use crate::chunks::chunk_ranges;
use crate::cross_attention::{CrossAttentionPlan, CrossAttentionStep};
use crate::self_attention::{
    AttentionKernel, SelfAttentionPath, SelfAttentionPlan, SelfAttentionStep,
};
use core::ops::Range;
use vstd::prelude::*;

verus! {

// ---------------------------------------------------------------------------
// Self-attention: keys
// ---------------------------------------------------------------------------

/// The projection of a range.
pub open spec fn project_step(r: Range<usize>) -> SelfAttentionStep {
    SelfAttentionStep::ProjectQkv { start: r.start, end: r.end }
}

/// Keys, and queries where they are kept, out of the projection of a range.
pub open spec fn keys_step(r: Range<usize>, keep_queries: bool) -> SelfAttentionStep {
    SelfAttentionStep::NormRopeKeys { start: r.start, end: r.end, keep_queries }
}

/// Queries out of the projection of a range.
pub open spec fn queries_step(r: Range<usize>) -> SelfAttentionStep {
    SelfAttentionStep::NormRopeQueries { start: r.start, end: r.end }
}

/// Attention from a range of queries.
pub open spec fn attend_step(r: Range<usize>, kernel: AttentionKernel) -> SelfAttentionStep {
    SelfAttentionStep::Attend { start: r.start, end: r.end, kernel }
}

/// The output projection of a range.
pub open spec fn out_step(r: Range<usize>) -> SelfAttentionStep {
    SelfAttentionStep::ProjectOut { start: r.start, end: r.end }
}

/// `keys` are those of the ranges, each out of its own projection; where
/// queries are kept, `kept` are theirs.
pub open spec fn keys_projected<J, Q, K, P, U, B>(
    ranges: Seq<Range<usize>>,
    keep_queries: bool,
    project: P,
    queries: U,
    keys: B,
    projections: Seq<J>,
    projected: Seq<K>,
    kept: Seq<Q>,
) -> bool where
    P: Fn(SelfAttentionStep) -> J,
    U: Fn(SelfAttentionStep, &J) -> Q,
    B: Fn(SelfAttentionStep, &J) -> K,
 {
    &&& projections.len() == ranges.len()
    &&& projected.len() == ranges.len()
    &&& kept.len() == (if keep_queries {
        ranges.len()
    } else {
        0
    })
    &&& forall|i: int|
        0 <= i < ranges.len() ==> call_ensures(
            project,
            (project_step(ranges[i]),),
            #[trigger] projections[i],
        )
    &&& forall|i: int|
        0 <= i < ranges.len() ==> call_ensures(
            keys,
            (keys_step(ranges[i], keep_queries), &projections[i]),
            #[trigger] projected[i],
        )
    &&& keep_queries ==> forall|i: int|
        0 <= i < ranges.len() ==> call_ensures(
            queries,
            (keys_step(ranges[i], keep_queries), &projections[i]),
            #[trigger] kept[i],
        )
}

fn project_keys<J, Q, K, P, U, B>(
    ranges: &Vec<Range<usize>>,
    keep_queries: bool,
    project: &P,
    queries: &U,
    keys: &B,
) -> (r: (Vec<K>, Vec<Q>)) where
    P: Fn(SelfAttentionStep) -> J,
    U: Fn(SelfAttentionStep, &J) -> Q,
    B: Fn(SelfAttentionStep, &J) -> K,

    requires
        forall|s: SelfAttentionStep| call_requires(*project, (s,)),
        forall|s: SelfAttentionStep, j: &J| call_requires(*queries, (s, j)),
        forall|s: SelfAttentionStep, j: &J| call_requires(*keys, (s, j)),
    ensures
        exists|projections: Seq<J>| #[trigger]
            keys_projected(
                ranges@,
                keep_queries,
                *project,
                *queries,
                *keys,
                projections,
                r.0@,
                r.1@,
            ),
{
    let mut projected: Vec<K> = Vec::new();
    let mut kept: Vec<Q> = Vec::new();
    let ghost mut projections: Seq<J> = Seq::empty();
    let mut i: usize = 0;
    while i < ranges.len()
        invariant
            i <= ranges.len(),
            forall|s: SelfAttentionStep| call_requires(*project, (s,)),
            forall|s: SelfAttentionStep, j: &J| call_requires(*queries, (s, j)),
            forall|s: SelfAttentionStep, j: &J| call_requires(*keys, (s, j)),
            keys_projected(
                ranges@.take(i as int),
                keep_queries,
                *project,
                *queries,
                *keys,
                projections,
                projected@,
                kept@,
            ),
        decreases ranges.len() - i,
    {
        let start: usize = ranges[i].start;
        let end: usize = ranges[i].end;
        let ghost before = (projections, projected@, kept@);
        let j: J = project(SelfAttentionStep::ProjectQkv { start, end });
        let step: SelfAttentionStep = SelfAttentionStep::NormRopeKeys { start, end, keep_queries };
        if keep_queries {
            kept.push(queries(step, &j));
        }
        projected.push(keys(step, &j));
        proof {
            projections = projections.push(j);
            let more = ranges@.take(i as int + 1);
            assert(more =~= ranges@.take(i as int).push(ranges@[i as int]));
            assert forall|a: int| 0 <= a < more.len() implies call_ensures(
                *project,
                (project_step(more[a]),),
                #[trigger] projections[a],
            ) by {
                if a < i {
                    assert(projections[a] == before.0[a]);
                }
            }
            assert forall|a: int| 0 <= a < more.len() implies call_ensures(
                *keys,
                (keys_step(more[a], keep_queries), &projections[a]),
                #[trigger] projected@[a],
            ) by {
                if a < i {
                    assert(projected@[a] == before.1[a]);
                    assert(projections[a] == before.0[a]);
                }
            }
            if keep_queries {
                assert forall|a: int| 0 <= a < more.len() implies call_ensures(
                    *queries,
                    (keys_step(more[a], keep_queries), &projections[a]),
                    #[trigger] kept@[a],
                ) by {
                    if a < i {
                        assert(kept@[a] == before.2[a]);
                        assert(projections[a] == before.0[a]);
                    }
                }
            }
        }
        i = i + 1;
    }
    assert(ranges@.take(i as int) =~= ranges@);
    let done: (Vec<K>, Vec<Q>) = (projected, kept);
    assert(keys_projected(
        ranges@,
        keep_queries,
        *project,
        *queries,
        *keys,
        projections,
        done.0@,
        done.1@,
    ));
    done
}

// ---------------------------------------------------------------------------
// Self-attention: queries
// ---------------------------------------------------------------------------

/// `asked` are queries of the ranges, each out of a projection of its own.
pub open spec fn queries_projected<J, Q, P, U>(
    ranges: Seq<Range<usize>>,
    project: P,
    queries: U,
    projections: Seq<J>,
    asked: Seq<Q>,
) -> bool where P: Fn(SelfAttentionStep) -> J, U: Fn(SelfAttentionStep, &J) -> Q {
    &&& projections.len() == ranges.len()
    &&& asked.len() == ranges.len()
    &&& forall|i: int|
        0 <= i < ranges.len() ==> call_ensures(
            project,
            (project_step(ranges[i]),),
            #[trigger] projections[i],
        )
    &&& forall|i: int|
        0 <= i < ranges.len() ==> call_ensures(
            queries,
            (queries_step(ranges[i]), &projections[i]),
            #[trigger] asked[i],
        )
}

/// `outputs` are those of the ranges: each of its queries attends to all keys,
/// and the attended rows are projected out.
pub open spec fn queries_attended<Q, K, A, O, T, Y>(
    ranges: Seq<Range<usize>>,
    kernel: AttentionKernel,
    asked: Seq<Q>,
    keys: Vec<K>,
    attend: T,
    project_out: Y,
    attended: Seq<A>,
    outputs: Seq<O>,
) -> bool where
    T: Fn(SelfAttentionStep, &Q, &Vec<K>) -> A,
    Y: Fn(SelfAttentionStep, A) -> O,
 {
    &&& asked.len() == ranges.len()
    &&& attended.len() == ranges.len()
    &&& outputs.len() == ranges.len()
    &&& forall|i: int|
        0 <= i < ranges.len() ==> call_ensures(
            attend,
            (attend_step(ranges[i], kernel), &asked[i], &keys),
            #[trigger] attended[i],
        )
    &&& forall|i: int|
        0 <= i < ranges.len() ==> call_ensures(
            project_out,
            (out_step(ranges[i]), attended[i]),
            #[trigger] outputs[i],
        )
}

fn attend_kept<Q, K, A, O, T, Y>(
    ranges: &Vec<Range<usize>>,
    kernel: AttentionKernel,
    asked: &Vec<Q>,
    keys: &Vec<K>,
    attend: &T,
    project_out: &Y,
) -> (r: Vec<O>) where
    T: Fn(SelfAttentionStep, &Q, &Vec<K>) -> A,
    Y: Fn(SelfAttentionStep, A) -> O,

    requires
        asked@.len() == ranges@.len(),
        forall|s: SelfAttentionStep, q: &Q, k: &Vec<K>| call_requires(*attend, (s, q, k)),
        forall|s: SelfAttentionStep, a: A| call_requires(*project_out, (s, a)),
    ensures
        exists|attended: Seq<A>| #[trigger]
            queries_attended(
                ranges@,
                kernel,
                asked@,
                *keys,
                *attend,
                *project_out,
                attended,
                r@,
            ),
{
    let mut outputs: Vec<O> = Vec::new();
    let ghost mut attended: Seq<A> = Seq::empty();
    let mut i: usize = 0;
    while i < ranges.len()
        invariant
            i <= ranges.len(),
            asked@.len() == ranges@.len(),
            forall|s: SelfAttentionStep, q: &Q, k: &Vec<K>| call_requires(*attend, (s, q, k)),
            forall|s: SelfAttentionStep, a: A| call_requires(*project_out, (s, a)),
            queries_attended(
                ranges@.take(i as int),
                kernel,
                asked@.take(i as int),
                *keys,
                *attend,
                *project_out,
                attended,
                outputs@,
            ),
        decreases ranges.len() - i,
    {
        let start: usize = ranges[i].start;
        let end: usize = ranges[i].end;
        let ghost before = (attended, outputs@);
        let rows: A = attend(
            SelfAttentionStep::Attend { start, end, kernel },
            &asked[i],
            keys,
        );
        let ghost rows_ghost = rows;
        outputs.push(project_out(SelfAttentionStep::ProjectOut { start, end }, rows));
        proof {
            attended = attended.push(rows_ghost);
            assert(attended.drop_last() =~= before.0);
            assert(outputs@.drop_last() =~= before.1);
            lemma_attended_push(
                ranges@,
                kernel,
                asked@,
                *keys,
                *attend,
                *project_out,
                before.0,
                before.1,
                attended,
                outputs@,
                i as int,
            );
        }
        i = i + 1;
    }
    assert(ranges@.take(i as int) =~= ranges@);
    assert(asked@.take(i as int) =~= asked@);
    outputs
}

proof fn lemma_attended_push<Q, K, A, O, T, Y>(
    ranges: Seq<Range<usize>>,
    kernel: AttentionKernel,
    asked: Seq<Q>,
    keys: Vec<K>,
    attend: T,
    project_out: Y,
    attended: Seq<A>,
    outputs: Seq<O>,
    attended_more: Seq<A>,
    outputs_more: Seq<O>,
    i: int,
) where T: Fn(SelfAttentionStep, &Q, &Vec<K>) -> A, Y: Fn(SelfAttentionStep, A) -> O
    requires
        0 <= i < ranges.len(),
        i < asked.len(),
        queries_attended(
            ranges.take(i),
            kernel,
            asked.take(i),
            keys,
            attend,
            project_out,
            attended,
            outputs,
        ),
        attended_more.len() == i + 1,
        outputs_more.len() == i + 1,
        attended_more.drop_last() == attended,
        outputs_more.drop_last() == outputs,
        call_ensures(
            attend,
            (attend_step(ranges[i], kernel), &asked[i], &keys),
            attended_more[i],
        ),
        call_ensures(project_out, (out_step(ranges[i]), attended_more[i]), outputs_more[i]),
    ensures
        queries_attended(
            ranges.take(i + 1),
            kernel,
            asked.take(i + 1),
            keys,
            attend,
            project_out,
            attended_more,
            outputs_more,
        ),
{
    let more = ranges.take(i + 1);
    assert forall|a: int| 0 <= a < more.len() implies call_ensures(
        attend,
        (attend_step(more[a], kernel), &asked.take(i + 1)[a], &keys),
        #[trigger] attended_more[a],
    ) by {
        if a < i {
            assert(attended_more[a] == attended_more.drop_last()[a]);
            assert(asked.take(i)[a] == asked[a] && ranges.take(i)[a] == ranges[a]);
        }
    }
    assert forall|a: int| 0 <= a < more.len() implies call_ensures(
        project_out,
        (out_step(more[a]), attended_more[a]),
        #[trigger] outputs_more[a],
    ) by {
        if a < i {
            assert(outputs_more[a] == outputs_more.drop_last()[a]);
            assert(attended_more[a] == attended_more.drop_last()[a]);
            assert(ranges.take(i)[a] == ranges[a]);
        }
    }
}

fn attend_fresh<J, Q, K, A, O, P, U, T, Y>(
    ranges: &Vec<Range<usize>>,
    kernel: AttentionKernel,
    keys: &Vec<K>,
    project: &P,
    queries: &U,
    attend: &T,
    project_out: &Y,
) -> (r: Vec<O>) where
    P: Fn(SelfAttentionStep) -> J,
    U: Fn(SelfAttentionStep, &J) -> Q,
    T: Fn(SelfAttentionStep, &Q, &Vec<K>) -> A,
    Y: Fn(SelfAttentionStep, A) -> O,

    requires
        forall|s: SelfAttentionStep| call_requires(*project, (s,)),
        forall|s: SelfAttentionStep, j: &J| call_requires(*queries, (s, j)),
        forall|s: SelfAttentionStep, q: &Q, k: &Vec<K>| call_requires(*attend, (s, q, k)),
        forall|s: SelfAttentionStep, a: A| call_requires(*project_out, (s, a)),
    ensures
        exists|projections: Seq<J>, asked: Seq<Q>, attended: Seq<A>| #[trigger]
            queries_projected(ranges@, *project, *queries, projections, asked)
                && #[trigger] queries_attended(
                ranges@,
                kernel,
                asked,
                *keys,
                *attend,
                *project_out,
                attended,
                r@,
            ),
{
    let mut outputs: Vec<O> = Vec::new();
    let ghost mut projections: Seq<J> = Seq::empty();
    let ghost mut asked: Seq<Q> = Seq::empty();
    let ghost mut attended: Seq<A> = Seq::empty();
    let mut i: usize = 0;
    while i < ranges.len()
        invariant
            i <= ranges.len(),
            forall|s: SelfAttentionStep| call_requires(*project, (s,)),
            forall|s: SelfAttentionStep, j: &J| call_requires(*queries, (s, j)),
            forall|s: SelfAttentionStep, q: &Q, k: &Vec<K>| call_requires(*attend, (s, q, k)),
            forall|s: SelfAttentionStep, a: A| call_requires(*project_out, (s, a)),
            queries_projected(
                ranges@.take(i as int),
                *project,
                *queries,
                projections,
                asked,
            ),
            queries_attended(
                ranges@.take(i as int),
                kernel,
                asked,
                *keys,
                *attend,
                *project_out,
                attended,
                outputs@,
            ),
        decreases ranges.len() - i,
    {
        let start: usize = ranges[i].start;
        let end: usize = ranges[i].end;
        let ghost before = (projections, asked, attended, outputs@);
        let j: J = project(SelfAttentionStep::ProjectQkv { start, end });
        let q: Q = queries(SelfAttentionStep::NormRopeQueries { start, end }, &j);
        let rows: A = attend(SelfAttentionStep::Attend { start, end, kernel }, &q, keys);
        let ghost rows_ghost = rows;
        outputs.push(project_out(SelfAttentionStep::ProjectOut { start, end }, rows));
        proof {
            projections = projections.push(j);
            asked = asked.push(q);
            attended = attended.push(rows_ghost);
            let more = ranges@.take(i as int + 1);
            assert forall|a: int| 0 <= a < more.len() implies call_ensures(
                *project,
                (project_step(more[a]),),
                #[trigger] projections[a],
            ) by {
                if a < i {
                    assert(projections[a] == before.0[a]);
                    assert(ranges@.take(i as int)[a] == more[a]);
                }
            }
            assert forall|a: int| 0 <= a < more.len() implies call_ensures(
                *queries,
                (queries_step(more[a]), &projections[a]),
                #[trigger] asked[a],
            ) by {
                if a < i {
                    assert(projections[a] == before.0[a] && asked[a] == before.1[a]);
                    assert(ranges@.take(i as int)[a] == more[a]);
                }
            }
            assert(asked.take(i as int) =~= before.1);
            assert(asked.take(i as int + 1) =~= asked);
            assert(attended.drop_last() =~= before.2);
            assert(outputs@.drop_last() =~= before.3);
            lemma_attended_push(
                ranges@,
                kernel,
                asked,
                *keys,
                *attend,
                *project_out,
                before.2,
                before.3,
                attended,
                outputs@,
                i as int,
            );
        }
        i = i + 1;
    }
    assert(ranges@.take(i as int) =~= ranges@);
    outputs
}

// ---------------------------------------------------------------------------
// Self-attention: the call
// ---------------------------------------------------------------------------

/// All tokens of a plan.
pub open spec fn all_tokens(plan: SelfAttentionPlan) -> Range<usize> {
    Range { start: 0, end: plan.tokens }
}

/// `keys` are the joined key chunks where the module kernel attends, and the
/// chunks themselves where they are streamed.
pub open spec fn keys_arranged<K, V>(
    plan: SelfAttentionPlan,
    projected: Seq<K>,
    join_keys: V,
    keys: Seq<K>,
) -> bool where V: Fn(SelfAttentionStep, Vec<K>) -> K {
    if plan.path == SelfAttentionPath::ChunkedModule {
        exists|list: Vec<K>, joined: K| #[trigger]
            call_ensures(
                join_keys,
                (SelfAttentionStep::JoinKeys { chunks: projected.len() as usize }, list),
                joined,
            ) && list@ == projected && keys == seq![joined]
    } else {
        keys == projected
    }
}

/// The kernel of a chunked call.
pub open spec fn chunked_kernel(plan: SelfAttentionPlan) -> AttentionKernel {
    if plan.path == SelfAttentionPath::ChunkedModule {
        AttentionKernel::Module
    } else {
        AttentionKernel::StreamedKeys
    }
}

/// The outputs of a chunked call: from the queries that were kept with the
/// keys, or from queries of their own.
pub open spec fn chunked_outputs<J, Q, K, A, O, P, U, B, V, T, Y>(
    plan: SelfAttentionPlan,
    project: P,
    queries: U,
    keys: B,
    join_keys: V,
    attend: T,
    project_out: Y,
    outputs: Seq<O>,
) -> bool where
    P: Fn(SelfAttentionStep) -> J,
    U: Fn(SelfAttentionStep, &J) -> Q,
    B: Fn(SelfAttentionStep, &J) -> K,
    V: Fn(SelfAttentionStep, Vec<K>) -> K,
    T: Fn(SelfAttentionStep, &Q, &Vec<K>) -> A,
    Y: Fn(SelfAttentionStep, A) -> O,
 {
    exists|projections: Seq<J>, projected: Seq<K>, kept: Seq<Q>, arranged: Vec<K>| #[trigger]
        keys_projected(
            plan.key_ranges(),
            plan.reuse_qkv,
            project,
            queries,
            keys,
            projections,
            projected,
            kept,
        ) && #[trigger] keys_arranged(plan, projected, join_keys, arranged@) && (
        if plan.reuse_qkv {
            exists|attended: Seq<A>| #[trigger]
                queries_attended(
                    plan.query_ranges(),
                    chunked_kernel(plan),
                    kept,
                    arranged,
                    attend,
                    project_out,
                    attended,
                    outputs,
                )
        } else {
            exists|fresh: Seq<J>, asked: Seq<Q>, attended: Seq<A>| #[trigger]
                queries_projected(plan.query_ranges(), project, queries, fresh, asked)
                    && #[trigger] queries_attended(
                    plan.query_ranges(),
                    chunked_kernel(plan),
                    asked,
                    arranged,
                    attend,
                    project_out,
                    attended,
                    outputs,
                )
        })
}

/// `rows` attend from the ranges of one set of queries to one set of keys.
pub open spec fn ranges_attended<Q, K, A, T>(
    ranges: Seq<Range<usize>>,
    q: Q,
    keys: Vec<K>,
    attend: T,
    rows: Seq<A>,
) -> bool where T: Fn(SelfAttentionStep, &Q, &Vec<K>) -> A {
    rows.len() == ranges.len() && forall|i: int|
        0 <= i < ranges.len() ==> call_ensures(
            attend,
            (attend_step(ranges[i], AttentionKernel::Module), &q, &keys),
            #[trigger] rows[i],
        )
}

/// The attended rows of a call with one projection: at once, or by ranges of
/// the laid out queries.
pub open spec fn whole_rows<Q, K, A, W, T, N>(
    plan: SelfAttentionPlan,
    q: Q,
    k: K,
    lay_out: W,
    attend: T,
    join_rows: N,
    rows: A,
) -> bool where
    W: Fn(SelfAttentionStep, Q, K) -> (Q, K),
    T: Fn(SelfAttentionStep, &Q, &Vec<K>) -> A,
    N: Fn(SelfAttentionStep, Vec<A>) -> A,
 {
    if plan.path == SelfAttentionPath::Whole {
        exists|keys: Vec<K>| #[trigger]
            call_ensures(
                attend,
                (attend_step(all_tokens(plan), AttentionKernel::Dispatch), &q, &keys),
                rows,
            ) && keys@ == seq![k]
    } else {
        exists|laid: (Q, K), keys: Vec<K>, parts: Vec<A>| #[trigger]
            call_ensures(lay_out, (SelfAttentionStep::LayoutProjection, q, k), laid)
                && keys@ == seq![laid.1] && #[trigger] ranges_attended(
                plan.query_ranges(),
                laid.0,
                keys,
                attend,
                parts@,
            ) && call_ensures(
                join_rows,
                (SelfAttentionStep::JoinOutput { chunks: parts@.len() as usize }, parts),
                rows,
            )
    }
}

/// `out` is self-attention as it is planned.
pub open spec fn self_attention_outcome<J, Q, K, A, O, P, U, B, W, V, T, N, Y, Z>(
    plan: SelfAttentionPlan,
    project: P,
    queries: U,
    keys: B,
    lay_out: W,
    join_keys: V,
    attend: T,
    join_rows: N,
    project_out: Y,
    join_outputs: Z,
    out: O,
) -> bool where
    P: Fn(SelfAttentionStep) -> J,
    U: Fn(SelfAttentionStep, &J) -> Q,
    B: Fn(SelfAttentionStep, &J) -> K,
    W: Fn(SelfAttentionStep, Q, K) -> (Q, K),
    V: Fn(SelfAttentionStep, Vec<K>) -> K,
    T: Fn(SelfAttentionStep, &Q, &Vec<K>) -> A,
    N: Fn(SelfAttentionStep, Vec<A>) -> A,
    Y: Fn(SelfAttentionStep, A) -> O,
    Z: Fn(SelfAttentionStep, Vec<O>) -> O,
 {
    let whole = all_tokens(plan);
    if plan.path == SelfAttentionPath::Whole || plan.path == SelfAttentionPath::FullProjection {
        exists|j: J, q: Q, k: K, rows: A|
            call_ensures(project, (project_step(whole),), j) && #[trigger] call_ensures(
                queries,
                (keys_step(whole, true), &j),
                q,
            ) && #[trigger] call_ensures(keys, (keys_step(whole, true), &j), k)
                && #[trigger] whole_rows(plan, q, k, lay_out, attend, join_rows, rows)
                && call_ensures(project_out, (out_step(whole), rows), out)
    } else {
        exists|outputs: Vec<O>| #[trigger]
            call_ensures(
                join_outputs,
                (SelfAttentionStep::JoinOutput { chunks: outputs@.len() as usize }, outputs),
                out,
            ) && chunked_outputs(
                plan,
                project,
                queries,
                keys,
                join_keys,
                attend,
                project_out,
                outputs@,
            )
    }
}

fn attend_ranges<Q, K, A, T>(
    ranges: &Vec<Range<usize>>,
    q: &Q,
    keys: &Vec<K>,
    attend: &T,
) -> (r: Vec<A>) where T: Fn(SelfAttentionStep, &Q, &Vec<K>) -> A
    requires
        forall|s: SelfAttentionStep, q: &Q, k: &Vec<K>| call_requires(*attend, (s, q, k)),
    ensures
        ranges_attended(ranges@, *q, *keys, *attend, r@),
{
    let mut parts: Vec<A> = Vec::new();
    let mut i: usize = 0;
    while i < ranges.len()
        invariant
            i <= ranges.len(),
            parts@.len() == i,
            forall|s: SelfAttentionStep, q: &Q, k: &Vec<K>| call_requires(*attend, (s, q, k)),
            forall|a: int|
                0 <= a < i ==> call_ensures(
                    *attend,
                    (attend_step(ranges@[a], AttentionKernel::Module), q, keys),
                    #[trigger] parts@[a],
                ),
        decreases ranges.len() - i,
    {
        let start: usize = ranges[i].start;
        let end: usize = ranges[i].end;
        parts.push(
            attend(
                SelfAttentionStep::Attend { start, end, kernel: AttentionKernel::Module },
                q,
                keys,
            ),
        );
        i = i + 1;
    }
    parts
}

/// Carries out a planned self-attention call.
///
/// `project` projects tokens, `keys` and `queries` take theirs out of a
/// projection, `lay_out` lays a whole projection out for the module kernel,
/// `attend` attends, and `project_out` projects attended rows out. Chunks are
/// joined by `join_keys`, `join_rows` and `join_outputs`.
pub fn self_attention_forward<J, Q, K, A, O, P, U, B, W, V, T, N, Y, Z>(
    plan: &SelfAttentionPlan,
    project: &P,
    queries: &U,
    keys: &B,
    lay_out: &W,
    join_keys: &V,
    attend: &T,
    join_rows: &N,
    project_out: &Y,
    join_outputs: &Z,
) -> (r: O) where
    P: Fn(SelfAttentionStep) -> J,
    U: Fn(SelfAttentionStep, &J) -> Q,
    B: Fn(SelfAttentionStep, &J) -> K,
    W: Fn(SelfAttentionStep, Q, K) -> (Q, K),
    V: Fn(SelfAttentionStep, Vec<K>) -> K,
    T: Fn(SelfAttentionStep, &Q, &Vec<K>) -> A,
    N: Fn(SelfAttentionStep, Vec<A>) -> A,
    Y: Fn(SelfAttentionStep, A) -> O,
    Z: Fn(SelfAttentionStep, Vec<O>) -> O,

    requires
        plan.wf(),
        forall|s: SelfAttentionStep| call_requires(*project, (s,)),
        forall|s: SelfAttentionStep, j: &J| call_requires(*queries, (s, j)),
        forall|s: SelfAttentionStep, j: &J| call_requires(*keys, (s, j)),
        forall|s: SelfAttentionStep, q: Q, k: K| call_requires(*lay_out, (s, q, k)),
        forall|s: SelfAttentionStep, k: Vec<K>| call_requires(*join_keys, (s, k)),
        forall|s: SelfAttentionStep, q: &Q, k: &Vec<K>| call_requires(*attend, (s, q, k)),
        forall|s: SelfAttentionStep, a: Vec<A>| call_requires(*join_rows, (s, a)),
        forall|s: SelfAttentionStep, a: A| call_requires(*project_out, (s, a)),
        forall|s: SelfAttentionStep, o: Vec<O>| call_requires(*join_outputs, (s, o)),
    ensures
        self_attention_outcome(
            *plan,
            *project,
            *queries,
            *keys,
            *lay_out,
            *join_keys,
            *attend,
            *join_rows,
            *project_out,
            *join_outputs,
            r,
        ),
{
    let tokens: usize = plan.tokens;
    let one_projection: bool = plan.path == SelfAttentionPath::Whole || plan.path
        == SelfAttentionPath::FullProjection;
    if one_projection {
        let ghost whole = all_tokens(*plan);
        let j: J = project(SelfAttentionStep::ProjectQkv { start: 0, end: tokens });
        let step: SelfAttentionStep = SelfAttentionStep::NormRopeKeys {
            start: 0,
            end: tokens,
            keep_queries: true,
        };
        let q: Q = queries(step, &j);
        let k: K = keys(step, &j);
        let ghost q_ghost = q;
        let ghost k_ghost = k;
        assert(call_ensures(*project, (project_step(whole),), j));
        assert(call_ensures(*queries, (keys_step(whole, true), &j), q_ghost));
        assert(call_ensures(*keys, (keys_step(whole, true), &j), k_ghost));
        let mut list: Vec<K> = Vec::new();
        let rows: A = if plan.path == SelfAttentionPath::Whole {
            list.push(k);
            assert(list@ =~= seq![k_ghost]);
            let attended: A = attend(
                SelfAttentionStep::Attend {
                    start: 0,
                    end: tokens,
                    kernel: AttentionKernel::Dispatch,
                },
                &q,
                &list,
            );
            assert(call_ensures(
                *attend,
                (attend_step(whole, AttentionKernel::Dispatch), &q_ghost, &list),
                attended,
            ));
            attended
        } else {
            let (laid_q, laid_k): (Q, K) = lay_out(SelfAttentionStep::LayoutProjection, q, k);
            let ghost laid = (laid_q, laid_k);
            assert(call_ensures(
                *lay_out,
                (SelfAttentionStep::LayoutProjection, q_ghost, k_ghost),
                laid,
            ));
            list.push(laid_k);
            assert(list@ =~= seq![laid.1]);
            let ranges: Vec<Range<usize>> = chunk_ranges(tokens, plan.query_chunk);
            let parts: Vec<A> = attend_ranges(&ranges, &laid_q, &list, attend);
            assert(ranges_attended(plan.query_ranges(), laid.0, list, *attend, parts@));
            let chunks: usize = parts.len();
            join_rows(SelfAttentionStep::JoinOutput { chunks }, parts)
        };
        let ghost rows_ghost = rows;
        assert(whole_rows(*plan, q_ghost, k_ghost, *lay_out, *attend, *join_rows, rows_ghost));
        return project_out(SelfAttentionStep::ProjectOut { start: 0, end: tokens }, rows);
    }
    assert(plan.path == SelfAttentionPath::ChunkedModule || plan.path
        == SelfAttentionPath::ChunkedStream);
    let key_ranges: Vec<Range<usize>> = chunk_ranges(tokens, plan.kv_chunk);
    let (projected, kept): (Vec<K>, Vec<Q>) = project_keys(
        &key_ranges,
        plan.reuse_qkv,
        project,
        queries,
        keys,
    );
    let ghost projected_ghost = projected@;
    let ghost projections = choose|projections: Seq<J>| #[trigger]
        keys_projected(
            key_ranges@,
            plan.reuse_qkv,
            *project,
            *queries,
            *keys,
            projections,
            projected_ghost,
            kept@,
        );
    let module: bool = plan.path == SelfAttentionPath::ChunkedModule;
    let arranged: Vec<K> = if module {
        let ghost list = projected;
        let joined: K = join_keys(
            SelfAttentionStep::JoinKeys { chunks: projected.len() },
            projected,
        );
        let ghost joined_ghost = joined;
        assert(call_ensures(
            *join_keys,
            (SelfAttentionStep::JoinKeys { chunks: projected_ghost.len() as usize }, list),
            joined_ghost,
        ));
        let mut one: Vec<K> = Vec::new();
        one.push(joined);
        assert(one@ =~= seq![joined_ghost]);
        one
    } else {
        projected
    };
    assert(keys_arranged(*plan, projected_ghost, *join_keys, arranged@));
    let kernel: AttentionKernel = if module {
        AttentionKernel::Module
    } else {
        AttentionKernel::StreamedKeys
    };
    assert(kernel == chunked_kernel(*plan));
    assert(keys_projected(
        plan.key_ranges(),
        plan.reuse_qkv,
        *project,
        *queries,
        *keys,
        projections,
        projected_ghost,
        kept@,
    ));
    let outputs: Vec<O> = if plan.reuse_qkv {
        let outputs: Vec<O> = attend_kept(
            &key_ranges,
            kernel,
            &kept,
            &arranged,
            attend,
            project_out,
        );
        assert(plan.query_ranges() == key_ranges@);
        assert(exists|attended: Seq<A>| #[trigger]
            queries_attended(
                plan.query_ranges(),
                chunked_kernel(*plan),
                kept@,
                arranged,
                *attend,
                *project_out,
                attended,
                outputs@,
            ));
        outputs
    } else {
        let ranges: Vec<Range<usize>> = chunk_ranges(tokens, plan.query_chunk);
        let outputs: Vec<O> = attend_fresh(
            &ranges,
            kernel,
            &arranged,
            project,
            queries,
            attend,
            project_out,
        );
        assert(plan.query_ranges() == ranges@);
        assert(exists|fresh: Seq<J>, asked: Seq<Q>, attended: Seq<A>| #[trigger]
            queries_projected(plan.query_ranges(), *project, *queries, fresh, asked)
                && #[trigger] queries_attended(
                plan.query_ranges(),
                chunked_kernel(*plan),
                asked,
                arranged,
                *attend,
                *project_out,
                attended,
                outputs@,
            ));
        outputs
    };
    assert(chunked_outputs(
        *plan,
        *project,
        *queries,
        *keys,
        *join_keys,
        *attend,
        *project_out,
        outputs@,
    ));
    let chunks: usize = outputs.len();
    let ghost list = outputs;
    let out: O = join_outputs(SelfAttentionStep::JoinOutput { chunks }, outputs);
    assert(call_ensures(
        *join_outputs,
        (SelfAttentionStep::JoinOutput { chunks: list@.len() as usize }, list),
        out,
    ));
    out
}

// ---------------------------------------------------------------------------
// Cross-attention
// ---------------------------------------------------------------------------

/// Whether a plan attends by the module kernel.
pub open spec fn cross_module(plan: CrossAttentionPlan) -> bool {
    plan.chunked && plan.use_module
}

/// `output` is what the queries of a range read off the condition: projected,
/// normalized, attended and projected out.
pub open spec fn cross_range<Q, K, A, O, P, N, T, Y>(
    range: Range<usize>,
    module: bool,
    keys: Option<&K>,
    project: P,
    norm: N,
    attend: T,
    project_out: Y,
    output: O,
) -> bool where
    P: Fn(CrossAttentionStep) -> Q,
    N: Fn(CrossAttentionStep, Q) -> Q,
    T: Fn(CrossAttentionStep, Q, Option<&K>) -> A,
    Y: Fn(CrossAttentionStep, A) -> O,
 {
    let (start, end) = (range.start, range.end);
    exists|projected: Q, normed: Q, attended: A|
        call_ensures(project, (CrossAttentionStep::ProjectQueries { start, end },), projected)
            && #[trigger] call_ensures(
            norm,
            (CrossAttentionStep::NormQueries { start, end }, projected),
            normed,
        ) && call_ensures(
            attend,
            (CrossAttentionStep::Attend { start, end, module }, normed, keys),
            attended,
        ) && #[trigger] call_ensures(
            project_out,
            (CrossAttentionStep::ProjectOut { start, end }, attended),
            output,
        )
}

fn cross_one<Q, K, A, O, P, N, T, Y>(
    start: usize,
    end: usize,
    module: bool,
    keys: Option<&K>,
    project: &P,
    norm: &N,
    attend: &T,
    project_out: &Y,
) -> (r: O) where
    P: Fn(CrossAttentionStep) -> Q,
    N: Fn(CrossAttentionStep, Q) -> Q,
    T: Fn(CrossAttentionStep, Q, Option<&K>) -> A,
    Y: Fn(CrossAttentionStep, A) -> O,

    requires
        forall|s: CrossAttentionStep| call_requires(*project, (s,)),
        forall|s: CrossAttentionStep, q: Q| call_requires(*norm, (s, q)),
        forall|s: CrossAttentionStep, q: Q, k: Option<&K>| call_requires(*attend, (s, q, k)),
        forall|s: CrossAttentionStep, a: A| call_requires(*project_out, (s, a)),
    ensures
        cross_range(
            (Range { start, end }),
            module,
            keys,
            *project,
            *norm,
            *attend,
            *project_out,
            r,
        ),
{
    let projected: Q = project(CrossAttentionStep::ProjectQueries { start, end });
    let ghost projected_ghost = projected;
    let normed: Q = norm(CrossAttentionStep::NormQueries { start, end }, projected);
    let ghost normed_ghost = normed;
    assert(call_ensures(
        *norm,
        (CrossAttentionStep::NormQueries { start, end }, projected_ghost),
        normed_ghost,
    ));
    let attended: A = attend(CrossAttentionStep::Attend { start, end, module }, normed, keys);
    let ghost attended_ghost = attended;
    let output: O = project_out(CrossAttentionStep::ProjectOut { start, end }, attended);
    assert(call_ensures(
        *project_out,
        (CrossAttentionStep::ProjectOut { start, end }, attended_ghost),
        output,
    ));
    output
}

/// `outputs` are what the queries of the ranges read off the condition.
pub open spec fn cross_ranges<Q, K, A, O, P, N, T, Y>(
    ranges: Seq<Range<usize>>,
    module: bool,
    keys: Option<&K>,
    project: P,
    norm: N,
    attend: T,
    project_out: Y,
    outputs: Seq<O>,
) -> bool where
    P: Fn(CrossAttentionStep) -> Q,
    N: Fn(CrossAttentionStep, Q) -> Q,
    T: Fn(CrossAttentionStep, Q, Option<&K>) -> A,
    Y: Fn(CrossAttentionStep, A) -> O,
 {
    outputs.len() == ranges.len() && forall|i: int|
        0 <= i < ranges.len() ==> cross_range(
            ranges[i],
            module,
            keys,
            project,
            norm,
            attend,
            project_out,
            #[trigger] outputs[i],
        )
}

/// `keys` are the keys laid out for the module kernel, where it attends.
pub open spec fn cross_keys<K, W>(plan: CrossAttentionPlan, lay_out: W, keys: Option<&K>) -> bool where
    W: Fn(CrossAttentionStep) -> K,
 {
    match keys {
        Some(k) => cross_module(plan) && call_ensures(
            lay_out,
            (CrossAttentionStep::LayoutKeys,),
            *k,
        ),
        None => !cross_module(plan),
    }
}

/// `out` is cross-attention as it is planned.
pub open spec fn cross_attention_outcome<Q, K, A, O, W, P, N, T, Y, Z>(
    plan: CrossAttentionPlan,
    lay_out: W,
    project: P,
    norm: N,
    attend: T,
    project_out: Y,
    join_outputs: Z,
    out: O,
) -> bool where
    W: Fn(CrossAttentionStep) -> K,
    P: Fn(CrossAttentionStep) -> Q,
    N: Fn(CrossAttentionStep, Q) -> Q,
    T: Fn(CrossAttentionStep, Q, Option<&K>) -> A,
    Y: Fn(CrossAttentionStep, A) -> O,
    Z: Fn(CrossAttentionStep, Vec<O>) -> O,
 {
    if plan.chunked {
        exists|keys: Option<&K>, outputs: Vec<O>| #[trigger]
            cross_keys(plan, lay_out, keys) && #[trigger] call_ensures(
                join_outputs,
                (CrossAttentionStep::JoinOutput { chunks: outputs@.len() as usize }, outputs),
                out,
            ) && cross_ranges(
                plan.query_ranges(),
                plan.use_module,
                keys,
                project,
                norm,
                attend,
                project_out,
                outputs@,
            )
    } else {
        cross_range(
            (Range { start: 0, end: plan.tokens }),
            false,
            None,
            project,
            norm,
            attend,
            project_out,
            out,
        )
    }
}

/// Carries out a planned cross-attention call.
///
/// `lay_out` lays the keys out for the module kernel, `project` and `norm` make
/// queries, `attend` attends from them and `project_out` projects attended rows
/// out. Chunks are joined by `join_outputs`.
pub fn cross_attention_forward<Q, K, A, O, W, P, N, T, Y, Z>(
    plan: &CrossAttentionPlan,
    lay_out: &W,
    project: &P,
    norm: &N,
    attend: &T,
    project_out: &Y,
    join_outputs: &Z,
) -> (r: O) where
    W: Fn(CrossAttentionStep) -> K,
    P: Fn(CrossAttentionStep) -> Q,
    N: Fn(CrossAttentionStep, Q) -> Q,
    T: Fn(CrossAttentionStep, Q, Option<&K>) -> A,
    Y: Fn(CrossAttentionStep, A) -> O,
    Z: Fn(CrossAttentionStep, Vec<O>) -> O,

    requires
        plan.query_chunk > 0,
        cross_module(*plan) ==> call_requires(*lay_out, (CrossAttentionStep::LayoutKeys,)),
        forall|s: CrossAttentionStep| call_requires(*project, (s,)),
        forall|s: CrossAttentionStep, q: Q| call_requires(*norm, (s, q)),
        forall|s: CrossAttentionStep, q: Q, k: Option<&K>| call_requires(*attend, (s, q, k)),
        forall|s: CrossAttentionStep, a: A| call_requires(*project_out, (s, a)),
        plan.chunked ==> forall|s: CrossAttentionStep, o: Vec<O>|
            call_requires(*join_outputs, (s, o)),
    ensures
        cross_attention_outcome(
            *plan,
            *lay_out,
            *project,
            *norm,
            *attend,
            *project_out,
            *join_outputs,
            r,
        ),
{
    if !plan.chunked {
        return cross_one(0, plan.tokens, false, None, project, norm, attend, project_out);
    }
    let laid: Option<K> = if plan.use_module {
        Some(lay_out(CrossAttentionStep::LayoutKeys))
    } else {
        None
    };
    let keys: Option<&K> = laid.as_ref();
    assert(cross_keys(*plan, *lay_out, keys));
    let ranges: Vec<Range<usize>> = chunk_ranges(plan.tokens, plan.query_chunk);
    let mut outputs: Vec<O> = Vec::new();
    let mut i: usize = 0;
    while i < ranges.len()
        invariant
            i <= ranges.len(),
            outputs@.len() == i,
            forall|s: CrossAttentionStep| call_requires(*project, (s,)),
            forall|s: CrossAttentionStep, q: Q| call_requires(*norm, (s, q)),
            forall|s: CrossAttentionStep, q: Q, k: Option<&K>| call_requires(*attend, (s, q, k)),
            forall|s: CrossAttentionStep, a: A| call_requires(*project_out, (s, a)),
            forall|a: int|
                0 <= a < i ==> cross_range(
                    ranges@[a],
                    plan.use_module,
                    keys,
                    *project,
                    *norm,
                    *attend,
                    *project_out,
                    #[trigger] outputs@[a],
                ),
        decreases ranges.len() - i,
    {
        let start: usize = ranges[i].start;
        let end: usize = ranges[i].end;
        assert(ranges@[i as int] == (Range { start, end }));
        let output: O = cross_one(
            start,
            end,
            plan.use_module,
            keys,
            project,
            norm,
            attend,
            project_out,
        );
        outputs.push(output);
        i = i + 1;
    }
    assert(cross_ranges(
        plan.query_ranges(),
        plan.use_module,
        keys,
        *project,
        *norm,
        *attend,
        *project_out,
        outputs@,
    ));
    let chunks: usize = outputs.len();
    let ghost list = outputs;
    let out: O = join_outputs(CrossAttentionStep::JoinOutput { chunks }, outputs);
    assert(call_ensures(
        *join_outputs,
        (CrossAttentionStep::JoinOutput { chunks: list@.len() as usize }, list),
        out,
    ));
    out
}

} // verus!
