//! What tensors, shapes and counters are, stated of their fields.
use crate::layout::{contiguous, first_fault, layout_is_sound_iff_contiguous, layout_rows};
use crate::policy::{bytes_per_logit, logits_bytes, query_chunk_cap};
use crate::runtime_access::{
    assembled_sparse, assembled_varlen, coord_at, device_sample_outcome, uploaded_sparse,
    uploaded_varlen, RuntimeBackend,
};
use crate::sampling_checks::{
    dense_request_fault, dense_sample_fault, row_sampling_fault, ConditionDims,
};
use crate::telemetry::{
    FlowCounter, FusedNormRope, SparseFlowOpDetailKind, SparseFlowOpKind, SparseFlowOpTelemetry,
    SparseFlowOpTimingSummary,
};
use crate::tensors::{
    device_layout_of, sparse_device_fault, sparse_fault, varlen_device_fault, varlen_fault,
    DeviceTensor, SparseBatchLayoutDevice, SparseTensorOwned, TensorFault, VarLenTensorOwned,
};
use crate::velocity::joined_forward;
use core::ops::Range;
use vstd::prelude::*;

verus! {

// ---------------------------------------------------------------------------
// Layouts and tensors
// ---------------------------------------------------------------------------

/// The batch items of a sound layout stand one behind the other from row 0 on,
/// and the last one ends at the last row.
pub proof fn layouts_stand_in_a_row(layout: Seq<Range<usize>>, i: int)
    requires
        0 <= i < layout.len(),
    ensures
        first_fault(layout) is None ==> layout[i].start <= layout[i].end,
        first_fault(layout) is None ==> layout[i].start == (if i == 0 {
            0
        } else {
            layout[i - 1].end
        }),
        layout_rows(layout) == layout.last().end,
        layout_rows(Seq::<Range<usize>>::empty()) == 0,
{
    layout_is_sound_iff_contiguous(layout);
}

/// Rows with a layout are accepted exactly where they have channels, the layout
/// is sound, and there are as many values as rows times channels, which fit.
pub proof fn rows_are_accepted_where_their_number_fits(
    feats_len: int,
    layout: Seq<Range<usize>>,
    channels: int,
)
    requires
        layout.len() > 0,
        0 <= channels,
        0 <= feats_len <= usize::MAX,
    ensures
        varlen_fault(feats_len, layout, channels) is None <==> channels > 0 && contiguous(layout)
            && feats_len == layout.last().end * channels,
        forall|rows: int|
            (#[trigger] varlen_device_fault(rows, layout)) is None <==> contiguous(layout) && rows
                == layout.last().end,
{
    layout_is_sound_iff_contiguous(layout);
}

/// Positions are accepted exactly where there is a resolution, the rows are
/// accepted, there is a position for every row, and every position names the
/// batch item whose rows it stands among.
pub proof fn positions_name_their_own_batch_item(
    coords: Seq<[u32; 4]>,
    feats_len: int,
    layout: Seq<Range<usize>>,
    channels: int,
    resolution: int,
    i: int,
    row: int,
)
    requires
        sparse_fault(coords, feats_len, layout, channels, resolution, None),
        0 <= i < layout.len(),
        layout[i].start <= row < layout[i].end,
    ensures
        resolution != 0,
        varlen_fault(feats_len, layout, channels) is None,
        coords.len() == layout.last().end,
        coords[row][0] == i as u32,
{
    assert(!crate::tensors::batch_mismatch(coords, layout, i, row));
}

/// On the device a layout is the first row and the number of rows of each batch
/// item; each begins where the one before it ends.
pub proof fn device_layouts_hold_starts_and_lengths(
    layout: Seq<Range<usize>>,
    device: SparseBatchLayoutDevice,
    i: int,
)
    requires
        contiguous(layout),
        device_layout_of(layout, device),
        0 <= i < layout.len(),
    ensures
        device.offsets@.len() == layout.len(),
        device.lengths@.len() == layout.len(),
        device.offsets@[i] == layout[i].start,
        device.offsets@[i] + device.lengths@[i] == layout[i].end,
        i + 1 < layout.len() ==> device.offsets@[i + 1] == device.offsets@[i] + device.lengths@[i],
        device.offsets@[0] == 0,
        device.rows == layout.last().end,
{
    if i + 1 < layout.len() {
        assert(layout[i + 1].start == layout[i].end);
        assert(device.offsets@[i + 1] == layout[i + 1].start);
    }
    assert(device.offsets@[0] == layout[0].start);
}

/// Positions are laid flat row by row, four numbers each.
pub proof fn positions_are_laid_flat_row_by_row(coords: Seq<[u32; 4]>, row: int, col: int)
    requires
        0 <= row < coords.len(),
        0 <= col < 4,
    ensures
        coord_at(coords, 4 * row + col) == coords[row][col],
{
    assert((4 * row + col) / 4 == row && (4 * row + col) % 4 == col);
}

// ---------------------------------------------------------------------------
// Shapes of samples
// ---------------------------------------------------------------------------

/// A dense sample is accepted exactly where it holds the output channels of
/// every voxel, and its concatenated condition the input channels that are left.
pub proof fn dense_samples_hold_all_channels_of_every_voxel(
    resolution: int,
    noise_len: int,
    concat_len: Option<usize>,
    in_channels: int,
    out_channels: int,
)
    requires
        resolution > 0,
        noise_len >= 0,
        in_channels >= 0,
        out_channels >= 0,
    ensures
        ({
            let voxels = resolution * resolution * resolution;
            let fits = noise_len == out_channels * voxels && match concat_len {
                Some(len) => len == (in_channels - out_channels) * voxels,
                None => in_channels == out_channels,
            };
            &&& dense_sample_fault(
                resolution,
                noise_len,
                concat_len,
                in_channels,
                out_channels,
            ) is None <==> fits
            &&& dense_request_fault(
                resolution,
                noise_len,
                concat_len,
                in_channels,
                out_channels,
            ) is None <==> fits
        }),
{
    let v = resolution * resolution * resolution;
    assert(v > 0) by (nonlinear_arith)
        requires
            resolution > 0,
            v == resolution * resolution * resolution,
    ;
    lemma_whole_multiple(noise_len, v, out_channels);
    if concat_len is Some {
        lemma_whole_multiple(concat_len->Some_0 as int, v, in_channels - out_channels);
    }
}

proof fn lemma_whole_multiple(n: int, unit: int, times: int)
    requires
        n >= 0,
        unit > 0,
    ensures
        n % unit == 0 && n / unit == times <==> n == times * unit,
{
    vstd::arithmetic::div_mod::lemma_fundamental_div_mod(n, unit);
    if n == times * unit {
        vstd::arithmetic::div_mod::lemma_fundamental_div_mod_converse(n, unit, times, 0);
    }
    assert(unit * (n / unit) == (n / unit) * unit) by (nonlinear_arith);
}

/// Sparse rows are sampled exactly where their channels are those that come out
/// and, with the concatenated ones, those that go in; where concatenated rows
/// have the same layout; and where both conditions have the same shape, with one
/// batch item for all or one for each.
pub proof fn rows_are_sampled_where_shapes_fit<F, D, C>(
    sparse: SparseTensorOwned<F, D, C>,
    concat: Option<&VarLenTensorOwned<F, D>>,
    cond: ConditionDims,
    neg: ConditionDims,
    in_channels: int,
    out_channels: int,
)
    ensures
        ({
            let layout = sparse.rows_tensor().ranges();
            let state = sparse.rows_tensor().width() as int;
            row_sampling_fault(sparse, concat, cond, neg, in_channels, out_channels) is None <==> {
                &&& state == out_channels
                &&& layout.len() > 0
                &&& match concat {
                    Some(values) => values.ranges() == layout && state + values.width()
                        == in_channels,
                    None => state == in_channels,
                }
                &&& neg.tokens == cond.tokens
                &&& neg.channels == cond.channels
                &&& cond.batches == 1 || cond.batches == layout.len()
                &&& neg.batches == 1 || neg.batches == layout.len()
            }
        }),
{
}

/// A model is run on the state with its concatenated condition behind it, and
/// with one timestep for each batch item, at least one.
pub proof fn models_run_on_state_and_condition<T, J, G>(
    x_t: T,
    concat: Option<T>,
    batches: int,
    join: J,
    forward: G,
    out: T,
    behind: spec_fn(T, T) -> T,
    run: spec_fn(T, usize) -> T,
) where J: Fn(T, T) -> T, G: Fn(T, usize) -> T
    requires
        0 <= batches <= usize::MAX,
        joined_forward(x_t, concat, batches, join, forward, out),
        forall|a: T, b: T, c: T| #[trigger] call_ensures(join, (a, b), c) ==> c == behind(a, b),
        forall|x: T, n: usize, y: T| #[trigger]
            call_ensures(forward, (x, n), y) ==> y == run(x, n),
    ensures
        ({
            let timesteps = (if batches == 0 {
                1
            } else {
                batches
            }) as usize;
            match concat {
                Some(values) => out == run(behind(x_t, values), timesteps),
                None => out == run(x_t, timesteps),
            }
        }),
{
}

// ---------------------------------------------------------------------------
// Budgets
// ---------------------------------------------------------------------------

/// The queries of one attention call are as many as the budget pays for, and at
/// least one: one more would go over the budget.
pub proof fn query_chunks_use_up_their_budget(
    batch: usize,
    heads: usize,
    key_tokens: usize,
    budget: usize,
)
    requires
        batch > 0,
        heads > 0,
        key_tokens > 0,
        batch * heads * 4 <= usize::MAX,
    ensures
        ({
            let cost = batch * heads * 4 * key_tokens;
            let cap = query_chunk_cap(
                batch as int,
                heads as int,
                key_tokens as int,
                budget as int,
            );
            &&& cap >= 1
            &&& cost <= budget ==> cap * cost <= budget
            &&& budget < (cap + 1) * cost
        }),
{
    let raw = batch * heads * 4;
    assert(raw >= 4) by (nonlinear_arith)
        requires
            raw == batch * heads * 4,
            batch >= 1,
            heads >= 1,
    ;
    let cost = raw * key_tokens;
    let pairs = budget as int / raw;
    let per = pairs / (key_tokens as int);
    vstd::arithmetic::div_mod::lemma_fundamental_div_mod(budget as int, raw);
    vstd::arithmetic::div_mod::lemma_fundamental_div_mod(pairs, key_tokens as int);
    let r1 = budget as int % raw;
    let r2 = pairs % (key_tokens as int);
    assert(budget < (per + 1) * cost && per * cost <= budget && per >= 0) by (nonlinear_arith)
        requires
            budget == raw * pairs + r1,
            0 <= r1 < raw,
            pairs == key_tokens * per + r2,
            0 <= r2 < key_tokens,
            cost == raw * key_tokens,
            raw >= 4,
            key_tokens >= 1,
            budget >= 0,
            pairs >= 0,
    ;
    let cap = query_chunk_cap(batch as int, heads as int, key_tokens as int, budget as int);
    if cost <= budget {
        assert(per >= 1) by (nonlinear_arith)
            requires
                budget < (per + 1) * cost,
                cost <= budget,
                cost >= 0,
        ;
        assert(cap == per);
    } else {
        assert(per == 0 || per >= 1);
        assert(1 * cost == cost);
        assert(2 * cost > budget);
        if per >= 1 {
            assert(per * cost >= cost) by (nonlinear_arith)
                requires
                    per >= 1,
                    cost >= 0,
            ;
        }
        assert(cap == 1);
    }
}

/// Logits take four bytes for each query and key of each head and batch item,
/// up to the largest number there is.
pub proof fn logits_take_four_bytes(batch: int, heads: int, queries: int, keys: int)
    requires
        batch >= 0,
        heads >= 0,
        queries >= 0,
        keys >= 0,
    ensures
        4 * (batch * heads * queries * keys) <= usize::MAX ==> logits_bytes(
            batch,
            heads,
            queries,
            keys,
        ) == 4 * (batch * heads * queries * keys),
        4 * (batch * heads * queries * keys) > usize::MAX ==> logits_bytes(
            batch,
            heads,
            queries,
            keys,
        ) == usize::MAX,
        batch * heads > 0 && 4 * (batch * heads) <= usize::MAX ==> bytes_per_logit(batch, heads)
            == 4 * (batch * heads),
{
}

// ---------------------------------------------------------------------------
// Counters
// ---------------------------------------------------------------------------

/// Every counter counts the calls and the time of the operation it is named
/// after.
pub proof fn counters_count_their_own_operations(t: SparseFlowOpTelemetry)
    ensures
        t.entry(FlowCounter::Op(SparseFlowOpKind::SelfAttn)) == (t.self_attn_calls, t.self_attn_ns),
        t.entry(FlowCounter::Op(SparseFlowOpKind::CrossAttn)) == (t.cross_attn_calls, t.cross_attn_ns),
        t.entry(FlowCounter::Op(SparseFlowOpKind::Mlp)) == (t.mlp_calls, t.mlp_ns),
        t.entry(FlowCounter::Detail(SparseFlowOpDetailKind::SelfQkv)) == (t.self_qkv_calls, t.self_qkv_ns),
        t.entry(FlowCounter::Detail(SparseFlowOpDetailKind::SelfNormRope)) == (t.self_norm_rope_calls, t.self_norm_rope_ns),
        t.entry(FlowCounter::Detail(SparseFlowOpDetailKind::SelfKernel)) == (t.self_kernel_calls, t.self_kernel_ns),
        t.entry(FlowCounter::Detail(SparseFlowOpDetailKind::SelfOut)) == (t.self_out_calls, t.self_out_ns),
        t.entry(FlowCounter::Detail(SparseFlowOpDetailKind::SelfCat)) == (t.self_cat_calls, t.self_cat_ns),
        t.entry(FlowCounter::Detail(SparseFlowOpDetailKind::CrossQ)) == (t.cross_q_calls, t.cross_q_ns),
        t.entry(FlowCounter::Detail(SparseFlowOpDetailKind::CrossKv)) == (t.cross_kv_calls, t.cross_kv_ns),
        t.entry(FlowCounter::Detail(SparseFlowOpDetailKind::CrossNorm)) == (t.cross_norm_calls, t.cross_norm_ns),
        t.entry(FlowCounter::Detail(SparseFlowOpDetailKind::CrossKernel)) == (t.cross_kernel_calls, t.cross_kernel_ns),
        t.entry(FlowCounter::Detail(SparseFlowOpDetailKind::CrossOut)) == (t.cross_out_calls, t.cross_out_ns),
        t.entry(FlowCounter::Detail(SparseFlowOpDetailKind::CrossCat)) == (t.cross_cat_calls, t.cross_cat_ns),
        t.entry(FlowCounter::Detail(SparseFlowOpDetailKind::ModuleCastPad)) == (t.module_cast_pad_calls, t.module_cast_pad_ns),
        t.entry(FlowCounter::Detail(SparseFlowOpDetailKind::ModuleAttention)) == (t.module_attention_calls, t.module_attention_ns),
        t.entry(FlowCounter::Detail(SparseFlowOpDetailKind::ModuleOutput)) == (t.module_output_calls, t.module_output_ns),
        t.entry(FlowCounter::Detail(SparseFlowOpDetailKind::BlockNormMod)) == (t.block_norm_mod_calls, t.block_norm_mod_ns),
        t.entry(FlowCounter::Detail(SparseFlowOpDetailKind::BlockNormAffine)) == (t.block_norm_affine_calls, t.block_norm_affine_ns),
        t.entry(FlowCounter::Detail(SparseFlowOpDetailKind::BlockGateResidual)) == (t.block_gate_residual_calls, t.block_gate_residual_ns),
        t.entry(FlowCounter::Detail(SparseFlowOpDetailKind::ModelIo)) == (t.model_io_calls, t.model_io_ns),
        t.entry(FlowCounter::Detail(SparseFlowOpDetailKind::ModelInput)) == (t.model_input_calls, t.model_input_ns),
        t.entry(FlowCounter::Detail(SparseFlowOpDetailKind::ModelOutput)) == (t.model_output_calls, t.model_output_ns),
        t.entry(FlowCounter::Fused(FusedNormRope::Qk)).0 == t.self_norm_rope_fused_qk_calls,
        t.entry(FlowCounter::Fused(FusedNormRope::QkvModule)).0
            == t.self_norm_rope_fused_qkv_module_calls,
{
}

/// A summary shows every counter under its own name.
pub proof fn summaries_show_every_counter(t: SparseFlowOpTelemetry)
    ensures
        ({
            let s = SparseFlowOpTimingSummary::of(t);
            &&& s.self_attn_calls == t.self_attn_calls
            &&& s.self_attn_ns == t.self_attn_ns
            &&& s.cross_attn_calls == t.cross_attn_calls
            &&& s.cross_attn_ns == t.cross_attn_ns
            &&& s.mlp_calls == t.mlp_calls
            &&& s.mlp_ns == t.mlp_ns
            &&& s.self_qkv_calls == t.self_qkv_calls
            &&& s.self_qkv_ns == t.self_qkv_ns
            &&& s.self_norm_rope_calls == t.self_norm_rope_calls
            &&& s.self_norm_rope_ns == t.self_norm_rope_ns
            &&& s.self_norm_rope_fused_qk_calls == t.self_norm_rope_fused_qk_calls
            &&& s.self_norm_rope_fused_qkv_module_calls == t.self_norm_rope_fused_qkv_module_calls
            &&& s.self_kernel_calls == t.self_kernel_calls
            &&& s.self_kernel_ns == t.self_kernel_ns
            &&& s.self_out_calls == t.self_out_calls
            &&& s.self_out_ns == t.self_out_ns
            &&& s.self_cat_calls == t.self_cat_calls
            &&& s.self_cat_ns == t.self_cat_ns
            &&& s.cross_q_calls == t.cross_q_calls
            &&& s.cross_q_ns == t.cross_q_ns
            &&& s.cross_kv_calls == t.cross_kv_calls
            &&& s.cross_kv_ns == t.cross_kv_ns
            &&& s.cross_norm_calls == t.cross_norm_calls
            &&& s.cross_norm_ns == t.cross_norm_ns
            &&& s.cross_kernel_calls == t.cross_kernel_calls
            &&& s.cross_kernel_ns == t.cross_kernel_ns
            &&& s.cross_out_calls == t.cross_out_calls
            &&& s.cross_out_ns == t.cross_out_ns
            &&& s.cross_cat_calls == t.cross_cat_calls
            &&& s.cross_cat_ns == t.cross_cat_ns
            &&& s.module_cast_pad_calls == t.module_cast_pad_calls
            &&& s.module_cast_pad_ns == t.module_cast_pad_ns
            &&& s.module_attention_calls == t.module_attention_calls
            &&& s.module_attention_ns == t.module_attention_ns
            &&& s.module_output_calls == t.module_output_calls
            &&& s.module_output_ns == t.module_output_ns
            &&& s.block_norm_mod_calls == t.block_norm_mod_calls
            &&& s.block_norm_mod_ns == t.block_norm_mod_ns
            &&& s.block_norm_affine_calls == t.block_norm_affine_calls
            &&& s.block_norm_affine_ns == t.block_norm_affine_ns
            &&& s.block_gate_residual_calls == t.block_gate_residual_calls
            &&& s.block_gate_residual_ns == t.block_gate_residual_ns
            &&& s.model_io_calls == t.model_io_calls
            &&& s.model_io_ns == t.model_io_ns
            &&& s.model_input_calls == t.model_input_calls
            &&& s.model_input_ns == t.model_input_ns
            &&& s.model_output_calls == t.model_output_calls
            &&& s.model_output_ns == t.model_output_ns
        }),
{
}

/// A recorded operation counts one call and its time under its own counter, and
/// nothing under any other.
pub proof fn records_count_one_operation(
    before: SparseFlowOpTelemetry,
    after: SparseFlowOpTelemetry,
    counter: FlowCounter,
    elapsed_ns: u64,
    other: FlowCounter,
)
    requires
        before.advanced(after, counter, elapsed_ns),
    ensures
        before.entry(counter).0 < u64::MAX ==> after.entry(counter).0 == before.entry(counter).0
            + 1,
        before.entry(counter).1 + elapsed_ns <= u64::MAX ==> after.entry(counter).1
            == before.entry(counter).1 + elapsed_ns,
        other != counter ==> after.entry(other) == before.entry(other),
{
}

// ---------------------------------------------------------------------------
// Tensors on the device
// ---------------------------------------------------------------------------

/// Coordinates on the device are accepted exactly where they have four columns
/// and a row for every row of features, on a grid that is not empty.
pub proof fn device_coordinates_fit_their_rows(rows: int, cols: int, values: int, resolution: int)
    ensures
        sparse_device_fault(rows, cols, values, resolution) is None <==> cols == 4 && rows == values
            && resolution != 0,
        resolution == 0 ==> sparse_device_fault(rows, cols, values, resolution) == Some(
            TensorFault::ResolutionZero,
        ),
        resolution != 0 && cols == 4 && 0 <= rows <= usize::MAX && 0 <= values <= usize::MAX && rows
            != values ==> (sparse_device_fault(rows, cols, values, resolution) matches Some(
            TensorFault::DeviceCoordRows { coords_rows, feats_rows },
        ) && coords_rows == rows && feats_rows == values),
{
}

/// A tensor that is put together on the device holds the coordinates, features,
/// layout and resolution that were given, and nothing on the host.
pub proof fn assembled_tensors_hold_what_was_given<F, D, C>(
    backend: RuntimeBackend,
    coords: DeviceTensor<C>,
    feats: DeviceTensor<D>,
    layout: Seq<Range<usize>>,
    resolution: usize,
    t: SparseTensorOwned<F, D, C>,
    v: VarLenTensorOwned<F, D>,
)
    ensures
        assembled_sparse(backend, coords, feats, layout, resolution, Ok(t)) ==> {
            &&& backend == RuntimeBackend::Wgpu
            &&& coords.cols == 4
            &&& coords.rows == feats.rows
            &&& feats.cols > 0
            &&& resolution > 0
            &&& t.resolution() == resolution
            &&& t.device_coords() == Some(coords)
            &&& t.host_coords() is None
            &&& t.rows_tensor().device() == Some(feats)
            &&& t.rows_tensor().host() is None
            &&& t.rows_tensor().ranges() == layout
            &&& t.rows_tensor().width() == feats.cols
        },
        assembled_varlen(backend, feats, layout, Ok(v)) ==> {
            &&& backend == RuntimeBackend::Wgpu
            &&& v.device() == Some(feats)
            &&& v.host() is None
            &&& v.ranges() == layout
            &&& v.width() == feats.cols
        },
        backend != RuntimeBackend::Wgpu ==> !assembled_sparse(
            backend,
            coords,
            feats,
            layout,
            resolution,
            Ok(t),
        ),
{
}

/// A sample on the device is drawn from the tensor of the given coordinates and
/// features, together with that of the given concatenated features where there
/// are any, and without one where there are none.
pub proof fn device_samples_use_all_their_inputs<F, D, C, R, S>(
    backend: RuntimeBackend,
    coords: DeviceTensor<C>,
    feats: DeviceTensor<D>,
    concat: Option<DeviceTensor<D>>,
    layout: Seq<Range<usize>>,
    resolution: usize,
    sample: S,
    out: R,
) where S: Fn(&SparseTensorOwned<F, D, C>, Option<&VarLenTensorOwned<F, D>>) -> Result<R, String>
    requires
        device_sample_outcome(
            backend,
            coords,
            feats,
            concat,
            layout,
            resolution,
            sample,
            Ok(out),
        ),
    ensures
        backend == RuntimeBackend::Wgpu,
        concat is None ==> exists|t: SparseTensorOwned<F, D, C>| #[trigger]
            call_ensures(sample, (&t, None), Ok(out)) && t.device_coords() == Some(coords)
                && t.rows_tensor().device() == Some(feats) && t.rows_tensor().ranges() == layout
                && t.resolution() == resolution,
        concat matches Some(given) ==> exists|
            t: SparseTensorOwned<F, D, C>,
            v: VarLenTensorOwned<F, D>,
        | #[trigger]
            call_ensures(sample, (&t, Some(&v)), Ok(out)) && t.device_coords() == Some(coords)
                && t.rows_tensor().device() == Some(feats) && t.rows_tensor().ranges() == layout
                && t.resolution() == resolution && v.device() == Some(given) && v.ranges()
                == layout,
{
}

/// An uploaded tensor has the rows of the features as they were given, and the
/// coordinates laid out flat, four to a row.
pub proof fn uploaded_tensors_hold_what_was_given<F, D, C, U, W>(
    coords: Seq<[u32; 4]>,
    feats: Vec<F>,
    layout: Seq<Range<usize>>,
    channels: usize,
    resolution: usize,
    upload_rows: U,
    upload_coords: W,
    t: SparseTensorOwned<F, D, C>,
    v: VarLenTensorOwned<F, D>,
) where U: Fn(&Vec<F>, usize, usize) -> D, W: Fn(&Vec<i32>, usize) -> C
    ensures
        uploaded_sparse(
            coords,
            feats,
            layout,
            channels,
            resolution,
            upload_rows,
            upload_coords,
            Ok(t),
        ) ==> {
            &&& t.resolution() == resolution
            &&& t.rows_tensor().ranges() == layout
            &&& t.rows_tensor().width() == channels
            &&& t.rows_tensor().device() matches Some(device) && device.rows == coords.len()
                && device.cols == channels && call_ensures(
                upload_rows,
                (&feats, coords.len() as usize, channels),
                device.handle,
            )
            &&& t.device_coords() matches Some(device) && device.rows == coords.len() && device.cols
                == 4 && exists|flat: Vec<i32>| #[trigger]
                call_ensures(upload_coords, (&flat, coords.len() as usize), device.handle)
                    && flat@.len() == 4 * coords.len() && forall|row: int, column: int|
                    0 <= row < coords.len() && 0 <= column < 4 ==> flat@[4 * row + column]
                        == #[trigger] coords[row]@[column]
        },
        uploaded_varlen(feats, layout, channels, upload_rows, Ok(v)) ==> {
            &&& v.ranges() == layout
            &&& v.width() == channels
            &&& v.device() matches Some(device) && device.cols == channels && call_ensures(
                upload_rows,
                (&feats, device.rows, channels),
                device.handle,
            )
        },
{
    if uploaded_sparse(
        coords,
        feats,
        layout,
        channels,
        resolution,
        upload_rows,
        upload_coords,
        Ok(t),
    ) {
        let device = t.device_coords()->Some_0;
        let rows = coords.len() as int;
        let flat = choose|flat: Vec<i32>|
            #![trigger flat@]
            flat@.len() == 4 * rows && (forall|k: int|
                0 <= k < flat@.len() ==> #[trigger] flat@[k] == coord_at(coords, k))
                && call_ensures(upload_coords, (&flat, rows as usize), device.handle);
        assert forall|row: int, column: int|
            0 <= row < coords.len() && 0 <= column < 4 implies flat@[4 * row + column]
            == #[trigger] coords[row]@[column] by {
            assert(flat@[4 * row + column] == coord_at(coords, 4 * row + column));
        }
    }
}

} // verus!
