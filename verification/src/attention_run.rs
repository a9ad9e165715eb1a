//! Attention as it is planned, with the arithmetic handed in.
//!
//! Outputs are of a type `O`, running softmaxes of a type `A`.
use crate::attention::{
    AttentionDispatch, ModuleAttentionCall, ModuleAttentionPlan, PlainAttentionPlan,
};
use core::ops::Range;
use vstd::prelude::*;

verus! {

/// `accs` are the running softmaxes of a query over key chunks: the first
/// chunk starts it, every other one is merged into it.
pub open spec fn running<Q, K, A, I, N>(
    query: Q,
    keys: Seq<K>,
    first: I,
    next: N,
    accs: Seq<A>,
) -> bool where I: Fn(&Q, &K) -> A, N: Fn(A, &Q, &K) -> A {
    &&& 0 < accs.len() <= keys.len()
    &&& call_ensures(first, (&query, &keys[0]), accs[0])
    &&& forall|i: int, j: int|
        0 <= i && j == i + 1 && j < accs.len() ==> call_ensures(
            next,
            (#[trigger] accs[i], &query, &keys[j]),
            #[trigger] accs[j],
        )
}

/// `out` is streamed attention of a query over key chunks.
pub open spec fn streamed<Q, K, A, O, E, I, N, L>(
    query: Q,
    keys: Seq<K>,
    empty: E,
    first: I,
    next: N,
    finish: L,
    out: O,
) -> bool where
    E: Fn(&Q) -> O,
    I: Fn(&Q, &K) -> A,
    N: Fn(A, &Q, &K) -> A,
    L: Fn(A) -> O,
 {
    if keys.len() == 0 {
        call_ensures(empty, (&query,), out)
    } else {
        exists|accs: Seq<A>| #[trigger]
            running(query, keys, first, next, accs) && accs.len() == keys.len() && call_ensures(
                finish,
                (accs.last(),),
                out,
            )
    }
}

/// Attention of a query over key chunks, by a running softmax.
///
/// `first` starts the softmax with a chunk, `next` merges one into it,
/// `finish` divides it out; without keys the output is that of `empty`.
pub fn scaled_dot_product_attention_stream_chunked_keys<Q, K, A, O, E, I, N, L>(
    query: &Q,
    keys: &Vec<K>,
    empty: &E,
    first: &I,
    next: &N,
    finish: &L,
) -> (r: O) where
    E: Fn(&Q) -> O,
    I: Fn(&Q, &K) -> A,
    N: Fn(A, &Q, &K) -> A,
    L: Fn(A) -> O,

    requires
        keys@.len() == 0 ==> call_requires(*empty, (query,)),
        keys@.len() > 0 ==> forall|q: &Q, k: &K| call_requires(*first, (q, k)),
        keys@.len() > 0 ==> forall|a: A, q: &Q, k: &K| call_requires(*next, (a, q, k)),
        keys@.len() > 0 ==> forall|a: A| call_requires(*finish, (a,)),
    ensures
        streamed(*query, keys@, *empty, *first, *next, *finish, r),
{
    if keys.len() == 0 {
        return empty(query);
    }
    let mut acc: A = first(query, &keys[0]);
    let ghost mut accs: Seq<A> = seq![acc];
    let mut i: usize = 1;
    while i < keys.len()
        invariant
            1 <= i <= keys.len(),
            forall|a: A, q: &Q, k: &K| call_requires(*next, (a, q, k)),
            running(*query, keys@, *first, *next, accs),
            accs.len() == i,
            accs.last() == acc,
        decreases keys.len() - i,
    {
        let ghost before = accs;
        acc = next(acc, query, &keys[i]);
        proof {
            accs = accs.push(acc);
            assert forall|a: int, b: int| 0 <= a && b == a + 1 && b < accs.len() implies call_ensures(
                *next,
                (#[trigger] accs[a], query, &keys@[b]),
                #[trigger] accs[b],
            ) by {
                assert(accs[a] == before[a]);
                if b < i {
                    assert(accs[b] == before[b]);
                }
            }
        }
        i = i + 1;
    }
    assert(running(*query, keys@, *first, *next, accs));
    finish(acc)
}

/// `parts` are what `one` makes of the ranges, in order.
pub open spec fn range_parts<O, D>(ranges: Seq<Range<usize>>, one: D, parts: Seq<O>) -> bool where
    D: Fn(&Range<usize>) -> O,
 {
    parts.len() == ranges.len() && forall|i: int|
        0 <= i < ranges.len() ==> call_ensures(one, (&ranges[i],), #[trigger] parts[i])
}

/// `parts` are streamed attention of the query ranges, in order.
pub open spec fn streamed_parts<A, O, E, I, N, L>(
    queries: Seq<Range<usize>>,
    keys: Seq<Range<usize>>,
    empty: E,
    first: I,
    next: N,
    finish: L,
    parts: Seq<O>,
) -> bool where
    E: Fn(&Range<usize>) -> O,
    I: Fn(&Range<usize>, &Range<usize>) -> A,
    N: Fn(A, &Range<usize>, &Range<usize>) -> A,
    L: Fn(A) -> O,
 {
    parts.len() == queries.len() && forall|i: int|
        0 <= i < queries.len() ==> streamed(
            queries[i],
            keys,
            empty,
            first,
            next,
            finish,
            #[trigger] parts[i],
        )
}

/// `out` is plain attention as it is planned.
pub open spec fn plain_outcome<A, O, S, D, E, I, N, L, J>(
    plan: PlainAttentionPlan,
    single: S,
    dense: D,
    empty: E,
    first: I,
    next: N,
    finish: L,
    join: J,
    out: O,
) -> bool where
    S: Fn() -> O,
    D: Fn(&Range<usize>) -> O,
    E: Fn(&Range<usize>) -> O,
    I: Fn(&Range<usize>, &Range<usize>) -> A,
    N: Fn(A, &Range<usize>, &Range<usize>) -> A,
    L: Fn(A) -> O,
    J: Fn(Vec<O>) -> O,
 {
    match plan {
        PlainAttentionPlan::Single => call_ensures(single, (), out),
        PlainAttentionPlan::QueryChunks(ranges) => exists|parts: Vec<O>| #[trigger]
            call_ensures(join, (parts,), out) && range_parts(ranges@, dense, parts@),
        PlainAttentionPlan::Streamed { queries, keys } => exists|parts: Vec<O>| #[trigger]
            call_ensures(join, (parts,), out) && streamed_parts(
                queries@,
                keys@,
                empty,
                first,
                next,
                finish,
                parts@,
            ),
    }
}

/// Computes what `one` makes of the ranges, in order.
fn parts_of_ranges<O, D>(ranges: &Vec<Range<usize>>, one: &D) -> (r: Vec<O>) where
    D: Fn(&Range<usize>) -> O,

    requires
        forall|range: &Range<usize>| call_requires(*one, (range,)),
    ensures
        range_parts(ranges@, *one, r@),
{
    let mut parts: Vec<O> = Vec::new();
    let mut i: usize = 0;
    while i < ranges.len()
        invariant
            i <= ranges.len(),
            parts@.len() == i,
            forall|range: &Range<usize>| call_requires(*one, (range,)),
            forall|j: int|
                0 <= j < i ==> call_ensures(*one, (&ranges@[j],), #[trigger] parts@[j]),
        decreases ranges.len() - i,
    {
        parts.push(one(&ranges[i]));
        i = i + 1;
    }
    parts
}

/// Carries out plain attention as it is planned.
///
/// `single` attends at once, `dense` from a range of queries to all keys, and
/// `first`, `next` and `finish` from a range of queries over ranges of keys;
/// `join` joins outputs in order.
pub fn run_plain_attention<A, O, S, D, E, I, N, L, J>(
    plan: &PlainAttentionPlan,
    single: &S,
    dense: &D,
    empty: &E,
    first: &I,
    next: &N,
    finish: &L,
    join: &J,
) -> (r: O) where
    S: Fn() -> O,
    D: Fn(&Range<usize>) -> O,
    E: Fn(&Range<usize>) -> O,
    I: Fn(&Range<usize>, &Range<usize>) -> A,
    N: Fn(A, &Range<usize>, &Range<usize>) -> A,
    L: Fn(A) -> O,
    J: Fn(Vec<O>) -> O,

    requires
        *plan is Single ==> call_requires(*single, ()),
        *plan is QueryChunks ==> forall|q: &Range<usize>| call_requires(*dense, (q,)),
        *plan is Streamed ==> forall|q: &Range<usize>| call_requires(*empty, (q,)),
        *plan is Streamed ==> forall|q: &Range<usize>, k: &Range<usize>|
            call_requires(*first, (q, k)),
        *plan is Streamed ==> forall|a: A, q: &Range<usize>, k: &Range<usize>|
            call_requires(*next, (a, q, k)),
        *plan is Streamed ==> forall|a: A| call_requires(*finish, (a,)),
        !(*plan is Single) ==> forall|parts: Vec<O>| call_requires(*join, (parts,)),
    ensures
        plain_outcome(*plan, *single, *dense, *empty, *first, *next, *finish, *join, r),
{
    match plan {
        PlainAttentionPlan::Single => single(),
        PlainAttentionPlan::QueryChunks(ranges) => {
            let parts: Vec<O> = parts_of_ranges(ranges, dense);
            join(parts)
        },
        PlainAttentionPlan::Streamed { queries, keys } => {
            let mut parts: Vec<O> = Vec::new();
            let mut i: usize = 0;
            while i < queries.len()
                invariant
                    i <= queries.len(),
                    parts@.len() == i,
                    forall|q: &Range<usize>| call_requires(*empty, (q,)),
                    forall|q: &Range<usize>, k: &Range<usize>| call_requires(*first, (q, k)),
                    forall|a: A, q: &Range<usize>, k: &Range<usize>|
                        call_requires(*next, (a, q, k)),
                    forall|a: A| call_requires(*finish, (a,)),
                    forall|j: int|
                        0 <= j < i ==> streamed(
                            queries@[j],
                            keys@,
                            *empty,
                            *first,
                            *next,
                            *finish,
                            #[trigger] parts@[j],
                        ),
                decreases queries.len() - i,
            {
                let part: O = scaled_dot_product_attention_stream_chunked_keys(
                    &queries[i],
                    keys,
                    empty,
                    first,
                    next,
                    finish,
                );
                parts.push(part);
                i = i + 1;
            }
            join(parts)
        },
    }
}

/// `out` is `parts` joined; a single part is not joined.
pub open spec fn joined_or_single<O, J>(parts: Seq<O>, join: J, out: O) -> bool where
    J: Fn(Vec<O>) -> O,
 {
    if parts.len() == 1 {
        out == parts[0]
    } else {
        exists|list: Vec<O>| #[trigger] call_ensures(join, (list,), out) && list@ == parts
    }
}

fn join_or_single<O, J>(parts: Vec<O>, join: &J) -> (r: O) where J: Fn(Vec<O>) -> O
    requires
        forall|parts: Vec<O>| call_requires(*join, (parts,)),
    ensures
        joined_or_single(parts@, *join, r),
{
    if parts.len() == 1 {
        let mut parts: Vec<O> = parts;
        return parts.remove(0);
    }
    join(parts)
}

/// `out` is module attention as it is planned.
pub open spec fn module_outcome<O, S, C, J>(
    plan: ModuleAttentionPlan,
    stream: S,
    launch: C,
    join: J,
    out: O,
) -> bool where S: Fn() -> O, C: Fn(ModuleAttentionCall) -> O, J: Fn(Vec<O>) -> O {
    match plan {
        ModuleAttentionPlan::Stream => call_ensures(stream, (), out),
        ModuleAttentionPlan::Launch(calls) => exists|parts: Seq<O>| #[trigger]
            joined_or_single(parts, join, out) && parts.len() == calls@.len() && forall|i: int|
                0 <= i < parts.len() ==> call_ensures(launch, (calls@[i],), #[trigger] parts[i]),
    }
}

/// Carries out module attention as it is planned: streamed, or by the launches
/// of the plan.
pub fn sparse_flow_module_attention<O, S, C, J>(
    plan: &ModuleAttentionPlan,
    stream: &S,
    launch: &C,
    join: &J,
) -> (r: O) where S: Fn() -> O, C: Fn(ModuleAttentionCall) -> O, J: Fn(Vec<O>) -> O
    requires
        *plan is Stream ==> call_requires(*stream, ()),
        *plan is Launch ==> forall|call: ModuleAttentionCall| call_requires(*launch, (call,)),
        *plan is Launch ==> forall|parts: Vec<O>| call_requires(*join, (parts,)),
    ensures
        module_outcome(*plan, *stream, *launch, *join, r),
{
    match plan {
        ModuleAttentionPlan::Stream => stream(),
        ModuleAttentionPlan::Launch(calls) => {
            let mut parts: Vec<O> = Vec::new();
            let mut i: usize = 0;
            while i < calls.len()
                invariant
                    i <= calls.len(),
                    parts@.len() == i,
                    forall|call: ModuleAttentionCall| call_requires(*launch, (call,)),
                    forall|j: int|
                        0 <= j < i ==> call_ensures(*launch, (calls@[j],), #[trigger] parts@[j]),
                decreases calls.len() - i,
            {
                parts.push(launch(calls[i]));
                i = i + 1;
            }
            let ghost all = parts@;
            let out: O = join_or_single(parts, join);
            assert(joined_or_single(all, *join, out));
            out
        },
    }
}

/// `out` is attention as it is dispatched.
pub open spec fn dispatch_outcome<O, M, P, J>(
    dispatch: AttentionDispatch,
    module: M,
    plain: P,
    join: J,
    out: O,
) -> bool where
    M: Fn(&Range<usize>) -> O,
    P: Fn(&PlainAttentionPlan) -> O,
    J: Fn(Vec<O>) -> O,
 {
    match dispatch {
        AttentionDispatch::Module(ranges) => exists|parts: Seq<O>| #[trigger]
            joined_or_single(parts, join, out) && range_parts(ranges@, module, parts),
        AttentionDispatch::Dense(plan) => call_ensures(plain, (&plan,), out),
        AttentionDispatch::Stream(plan) => call_ensures(plain, (&plan,), out),
    }
}

/// Carries out attention as it is dispatched: by module attention from ranges
/// of queries, or plainly.
pub fn scaled_dot_product_attention<O, M, P, J>(
    dispatch: &AttentionDispatch,
    module: &M,
    plain: &P,
    join: &J,
) -> (r: O) where
    M: Fn(&Range<usize>) -> O,
    P: Fn(&PlainAttentionPlan) -> O,
    J: Fn(Vec<O>) -> O,

    requires
        *dispatch is Module ==> forall|q: &Range<usize>| call_requires(*module, (q,)),
        !(*dispatch is Module) ==> forall|plan: &PlainAttentionPlan|
            call_requires(*plain, (plan,)),
        *dispatch is Module ==> forall|parts: Vec<O>| call_requires(*join, (parts,)),
    ensures
        dispatch_outcome(*dispatch, *module, *plain, *join, r),
{
    match dispatch {
        AttentionDispatch::Module(ranges) => {
            let parts: Vec<O> = parts_of_ranges(ranges, module);
            let ghost all = parts@;
            let out: O = join_or_single(parts, join);
            assert(joined_or_single(all, *join, out));
            out
        },
        AttentionDispatch::Dense(plan) => plain(plan),
        AttentionDispatch::Stream(plan) => plain(plan),
    }
}

} // verus!
