use burn_core::tensor::activation::softmax;
use burn_core::tensor::Tensor;
use burn_ndarray::NdArray;
use burn_trellis::attention::{
    plan_dense_attention, plan_module_attention, plan_stream_attention, AttentionDispatch,
    ModuleAttentionCall, ModuleAttentionPlan, PlainAttentionPlan,
};
use burn_trellis::attention_calls::{cross_attention_forward, self_attention_forward};
use burn_trellis::attention_run::{
    run_plain_attention, scaled_dot_product_attention,
    scaled_dot_product_attention_stream_chunked_keys, sparse_flow_module_attention,
};
use burn_trellis::cross_attention::{
    prepare_cross_attention_caches, CrossAttentionPlan, CrossAttentionStep,
};
use burn_trellis::feed_forward::{feed_forward, FeedForwardPlan, MlpChunk, MlpRows};
use burn_trellis::policy::{FloatDType, FlowBackend, FlowEnv, RuntimeModelDebugConfig};
use burn_trellis::sampling::GuidanceBranch;
use burn_trellis::self_attention::{
    plan_self_attention, self_attention_steps, SelfAttentionPath, SelfAttentionPlan,
    SelfAttentionStep,
};
use std::ops::Range;

type Host = NdArray<f32>;
type Heads = Tensor<Host, 4>;

fn env(wgpu: bool) -> FlowEnv {
    FlowEnv {
        wgpu,
        wasm32: false,
        debug: RuntimeModelDebugConfig {
            stage_debug: false,
            attention_debug: false,
            sparse_flow_module_attention: true,
            sparse_flow_module_attention_f16: false,
            sparse_flow_linear_f16: false,
            sparse_flow_torso_f16: false,
            sparse_flow_stock_bf16_emulation: false,
            sparse_flow_coord_rope_kernel: true,
            sparse_decoder_conv_f16: false,
        },
        self_attention_f16: false,
        cross_attention_f16: false,
        batched_cfg: false,
    }
}

fn make_attention_tensor(tokens: usize, heads: usize, channels: usize, seed: f32) -> Heads {
    let values: Vec<f32> = (0..tokens * heads * channels)
        .map(|idx| {
            let x = idx as f32 * 0.013 + seed;
            x.sin() * 0.7 + x.cos() * 0.3
        })
        .collect();
    Tensor::<Host, 1>::from_floats(values.as_slice(), &Default::default())
        .reshape([1, tokens, heads, channels])
}

fn tensor_to_vec4(tensor: Heads) -> Vec<f32> {
    tensor.into_data().convert::<f32>().to_vec::<f32>().expect("tensor should be readable")
}

fn slice(x: &Heads, range: &Range<usize>) -> Heads {
    let [batch, heads, _, dim] = x.dims();
    x.clone().slice([0..batch, 0..heads, range.clone(), 0..dim])
}

fn attend(q: &Heads, k: &Heads, v: &Heads, head_dim: usize, plan: &PlainAttentionPlan) -> Heads {
    let scale = 1.0 / (head_dim as f32).sqrt();
    let dense = |q: Heads| {
        softmax(q.matmul(k.clone().swap_dims(2, 3)).mul_scalar(scale), 3).matmul(v.clone())
    };
    let weigh = |queries: &Range<usize>, keys: &Range<usize>| {
        let logits = slice(q, queries).matmul(slice(k, keys).swap_dims(2, 3)).mul_scalar(scale);
        let max = logits.clone().max_dim(3);
        let probs = logits.sub(max.clone()).exp();
        (max, probs.clone().sum_dim(3), probs.matmul(slice(v, keys)))
    };
    run_plain_attention(
        plan,
        &|| dense(q.clone()),
        &|queries: &Range<usize>| dense(slice(q, queries)),
        &|queries: &Range<usize>| slice(q, queries).zeros_like(),
        &weigh,
        &|acc: (Heads, Heads, Heads), queries: &Range<usize>, keys: &Range<usize>| {
            let (chunk_max, chunk_denom, chunk_acc) = weigh(queries, keys);
            let max = acc.0.clone().max_pair(chunk_max.clone());
            let alpha = acc.0.sub(max.clone()).exp();
            let beta = chunk_max.sub(max.clone()).exp();
            (
                max,
                alpha.clone().mul(acc.1).add(beta.clone().mul(chunk_denom)).add_scalar(1.0e-12),
                acc.2.mul(alpha).add(chunk_acc.mul(beta)),
            )
        },
        &|(_, denom, acc): (Heads, Heads, Heads)| acc.div(denom.add_scalar(1.0e-12)),
        &|parts: Vec<Heads>| Tensor::cat(parts, 2),
    )
}

#[test]
fn attention_stream_matches_dense_reference() {
    let heads = 4usize;
    let head_dim = 8usize;
    let query_tokens = 32usize;
    let key_tokens = 24usize;

    let q = make_attention_tensor(query_tokens, heads, head_dim, 0.2).permute([0, 2, 1, 3]);
    let k = make_attention_tensor(key_tokens, heads, head_dim, 0.7).permute([0, 2, 1, 3]);
    let v = make_attention_tensor(key_tokens, heads, head_dim, 1.3).permute([0, 2, 1, 3]);

    let dense_plan = plan_dense_attention(&env(false), 1, heads, query_tokens, key_tokens);
    let stream_plan = plan_stream_attention(&env(false), 1, heads, query_tokens, key_tokens);
    let chunked_plan = PlainAttentionPlan::Streamed {
        queries: vec![0..8, 8..16, 16..24, 24..32],
        keys: vec![0..7, 7..14, 14..21, 21..24],
    };
    let dense = tensor_to_vec4(attend(&q, &k, &v, head_dim, &dense_plan));
    for plan in [stream_plan, chunked_plan] {
        let stream = tensor_to_vec4(attend(&q, &k, &v, head_dim, &plan));
        assert_eq!(dense.len(), stream.len());

        let max_abs = dense
            .iter()
            .zip(stream.iter())
            .map(|(a, b)| (a - b).abs())
            .fold(0.0f32, f32::max);
        assert!(
            max_abs <= 1.0e-3,
            "stream attention drift too high: max_abs={max_abs:.6e}"
        );
    }
}

#[test]
fn running_softmaxes_merge_every_key_chunk_in_order() {
    let run = |keys: Vec<u32>| {
        scaled_dot_product_attention_stream_chunked_keys(
            &'q',
            &keys,
            &|q: &char| format!("{q} alone"),
            &|q: &char, k: &u32| format!("{q}{k}"),
            &|acc: String, q: &char, k: &u32| format!("{acc}+{q}{k}"),
            &|acc: String| format!("[{acc}]"),
        )
    };
    assert_eq!(run(vec![]), "q alone");
    assert_eq!(run(vec![4]), "[q4]");
    assert_eq!(run(vec![4, 5, 6]), "[q4+q5+q6]");
}

#[test]
fn module_attention_joins_its_launches() {
    let run = |plan: &ModuleAttentionPlan| {
        sparse_flow_module_attention(
            plan,
            &|| "stream".to_string(),
            &|call: ModuleAttentionCall| {
                format!("{}..{}:{}", call.start, call.end, call.padded_queries)
            },
            &|parts: Vec<String>| parts.join("|"),
        )
    };
    let plan = |batch, queries, keys, head_dim| {
        plan_module_attention(&env(true), batch, 1, queries, keys, head_dim)
    };
    assert_eq!(run(&plan(2, 10, 10, 128)), "stream");
    assert_eq!(run(&plan(1, 10, 10, 64)), "0..10:128");
    assert_eq!(run(&plan(1, 20_000, 30_000, 64)), "0..12288:12288|12288..20000:7808");
}

#[test]
fn dispatched_attention_follows_its_plan() {
    let run = |dispatch: AttentionDispatch| {
        scaled_dot_product_attention(
            &dispatch,
            &|queries: &Range<usize>| format!("module {queries:?}"),
            &|plan: &PlainAttentionPlan| format!("plain {plan:?}"),
            &|parts: Vec<String>| parts.join("|"),
        )
    };
    assert_eq!(run(AttentionDispatch::Module(vec![0..4])), "module 0..4");
    assert_eq!(run(AttentionDispatch::Module(vec![0..3, 3..4])), "module 0..3|module 3..4");
    assert_eq!(run(AttentionDispatch::Dense(PlainAttentionPlan::Single)), "plain Single");
    assert_eq!(run(AttentionDispatch::Stream(PlainAttentionPlan::Single)), "plain Single");
}

fn self_attention(plan: &SelfAttentionPlan) -> String {
    self_attention_forward(
        plan,
        &|step: SelfAttentionStep| match step {
            SelfAttentionStep::ProjectQkv { start, end } => format!("{start}-{end}"),
            _ => String::new(),
        },
        &|_step: SelfAttentionStep, j: &String| format!("q{j}"),
        &|_step: SelfAttentionStep, j: &String| format!("k{j}"),
        &|_step: SelfAttentionStep, q: String, k: String| (format!("laid {q}"), format!("laid {k}")),
        &|_step: SelfAttentionStep, keys: Vec<String>| keys.join("&"),
        &|step: SelfAttentionStep, q: &String, keys: &Vec<String>| match step {
            SelfAttentionStep::Attend { start, end, kernel } => {
                format!("{kernel:?} {start}-{end} {q} {keys:?}")
            }
            _ => String::new(),
        },
        &|_step: SelfAttentionStep, rows: Vec<String>| rows.join("+"),
        &|_step: SelfAttentionStep, rows: String| format!("<{rows}>"),
        &|_step: SelfAttentionStep, outputs: Vec<String>| outputs.join("|"),
    )
}

#[test]
fn self_attention_reads_its_own_projections() {
    let plan = |path: SelfAttentionPath, reuse_qkv: bool| SelfAttentionPlan {
        path,
        tokens: 3,
        query_chunk: 2,
        kv_chunk: 2,
        reuse_qkv,
        module_dtype: None,
    };
    assert_eq!(
        self_attention(&plan(SelfAttentionPath::Whole, true)),
        "<Dispatch 0-3 q0-3 [\"k0-3\"]>"
    );
    assert_eq!(
        self_attention(&plan(SelfAttentionPath::FullProjection, true)),
        "<Module 0-2 laid q0-3 [\"laid k0-3\"]+Module 2-3 laid q0-3 [\"laid k0-3\"]>"
    );
    for reuse in [true, false] {
        assert_eq!(
            self_attention(&plan(SelfAttentionPath::ChunkedModule, reuse)),
            "<Module 0-2 q0-2 [\"k0-2&k2-3\"]>|<Module 2-3 q2-3 [\"k0-2&k2-3\"]>"
        );
        assert_eq!(
            self_attention(&plan(SelfAttentionPath::ChunkedStream, reuse)),
            "<StreamedKeys 0-2 q0-2 [\"k0-2\", \"k2-3\"]>|<StreamedKeys 2-3 q2-3 [\"k0-2\", \"k2-3\"]>"
        );
    }
    let planned = plan_self_attention(&env(true), FlowBackend::Wgpu, 1, 4, 4_096, 64, 16);
    assert!(!self_attention_steps(&planned).is_empty());
}

#[test]
fn cross_attention_reads_the_condition() {
    let run = |chunked: bool, use_module: bool| {
        let plan = CrossAttentionPlan {
            chunked,
            tokens: 3,
            query_chunk: 2,
            use_module,
            attention_dtype: FloatDType::F32,
        };
        cross_attention_forward(
            &plan,
            &|_step: CrossAttentionStep| "laid".to_string(),
            &|step: CrossAttentionStep| match step {
                CrossAttentionStep::ProjectQueries { start, end } => format!("{start}-{end}"),
                _ => String::new(),
            },
            &|_step: CrossAttentionStep, q: String| format!("n{q}"),
            &|_step: CrossAttentionStep, q: String, keys: Option<&String>| format!("{q} {keys:?}"),
            &|_step: CrossAttentionStep, rows: String| format!("<{rows}>"),
            &|_step: CrossAttentionStep, outputs: Vec<String>| outputs.join("|"),
        )
    };
    assert_eq!(run(false, true), "<n0-3 None>");
    assert_eq!(run(true, false), "<n0-2 None>|<n2-3 None>");
    assert_eq!(run(true, true), "<n0-2 Some(\"laid\")>|<n2-3 Some(\"laid\")>");
}

#[test]
fn mlp_chunks_are_joined_in_order() {
    let run = |plan: FeedForwardPlan| {
        feed_forward(
            &plan,
            &|half: bool| format!("whole {half}"),
            &|chunk: MlpChunk, half: bool| {
                format!("{}..{} {half} {}", chunk.rows.start, chunk.rows.end, chunk.sync_after)
            },
            &|parts: Vec<String>| parts.join("|"),
        )
    };
    let chunk = |start: usize, end: usize, sync_after: bool| MlpChunk {
        rows: MlpRows { window_start: 0, window_end: 5, start, end },
        sync_after,
    };
    assert_eq!(run(FeedForwardPlan::Whole { f16_chain: true }), "whole true");
    assert_eq!(
        run(FeedForwardPlan::Chunked {
            f16_chain: false,
            chunks: vec![chunk(0, 3, false), chunk(3, 5, true)],
        }),
        "0..3 false false|3..5 false true"
    );
}

#[test]
fn conditions_are_projected_within_the_budget() {
    let prepare = |tokens: usize, neg_needed: bool| {
        prepare_cross_attention_caches(
            &env(true),
            FlowBackend::Wgpu,
            1,
            tokens,
            1_536,
            30,
            neg_needed,
            |branch: GuidanceBranch| branch,
        )
    };
    let (pos, neg) = prepare(16, true);
    assert_eq!(pos, Some(GuidanceBranch::Positive));
    assert_eq!(neg, Some(GuidanceBranch::Negative));
    assert_eq!(prepare(16, false), (Some(GuidanceBranch::Positive), None));
    assert_eq!(prepare(usize::MAX, true), (None, None));
}
