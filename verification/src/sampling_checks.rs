//! Shapes that a sampler call accepts, and what it answers to the others.
use crate::arith::{imin, max_usize, min_usize, sat, saturating_mul};
use crate::layout::{layout_rows, same_ranges};
use crate::tensors::{SparseTensorOwned, VarLenTensorOwned};
use crate::text::{
    decimal, message1, message2, message3, message4, push_usize, text1, text2, text3, text4,
};
use core::ops::Range;
use vstd::prelude::*;
use vstd::string::*;

verus! {

/// The state does not have the model's output channels.
pub open spec fn state_text(state: int, expected_out: int) -> Seq<char> {
    text2("sparse flow state/output mismatch: state="@, state, " expected_out="@, expected_out)
}

/// State and concatenated channels do not add up to the model's input channels.
pub open spec fn channels_text(state: int, concat: int, expected_in: int) -> Seq<char> {
    text3(
        "sparse flow channel mismatch: state="@,
        state,
        " concat="@,
        concat,
        " expected_in="@,
        expected_in,
    )
}

/// The sample does not fill whole channels of the grid.
pub open spec fn sample_length_text(len: int, voxel: int) -> Seq<char> {
    text2(
        "sparse flow sample length mismatch: sample len "@,
        len,
        " is not divisible by voxel count "@,
        voxel,
    )
}

/// The concatenated condition does not fill whole channels of the grid.
pub open spec fn concat_length_text(len: int, voxel: int) -> Seq<char> {
    text2(
        "sparse flow concat cond length mismatch: len "@,
        len,
        " is not divisible by voxel count "@,
        voxel,
    )
}

fn state_message(state: usize, expected_out: usize) -> (r: String)
    ensures
        r@ == state_text(state as int, expected_out as int),
{
    message2("sparse flow state/output mismatch: state=", state, " expected_out=", expected_out)
}

fn channels_message(state: usize, concat: usize, expected_in: usize) -> (r: String)
    ensures
        r@ == channels_text(state as int, concat as int, expected_in as int),
{
    message3(
        "sparse flow channel mismatch: state=",
        state,
        " concat=",
        concat,
        " expected_in=",
        expected_in,
    )
}

fn sample_length_message(len: usize, voxel: usize) -> (r: String)
    ensures
        r@ == sample_length_text(len as int, voxel as int),
{
    message2(
        "sparse flow sample length mismatch: sample len ",
        len,
        " is not divisible by voxel count ",
        voxel,
    )
}

fn concat_length_message(len: usize, voxel: usize) -> (r: String)
    ensures
        r@ == concat_length_text(len as int, voxel as int),
{
    message2(
        "sparse flow concat cond length mismatch: len ",
        len,
        " is not divisible by voxel count ",
        voxel,
    )
}

/// Whether two channel counts add up to a third.
fn adds_up(state: usize, concat: usize, total: usize) -> (r: bool)
    ensures
        r == (state + concat == total),
{
    total >= state && total - state == concat
}

/// Whether `len` is a multiple of `unit`; only zero is a multiple of zero.
pub open spec fn multiple_of(len: int, unit: int) -> bool {
    if unit == 0 {
        len == 0
    } else {
        len % unit == 0
    }
}

fn is_multiple(len: usize, unit: usize) -> (r: bool)
    ensures
        r == multiple_of(len as int, unit as int),
{
    if unit == 0 {
        len == 0
    } else {
        len % unit == 0
    }
}

// ---------------------------------------------------------------------------
// Dense grids
// ---------------------------------------------------------------------------

/// Channels of a dense sample.
#[derive(Clone, Copy, Debug, PartialEq, Eq, Structural)]
pub struct DenseSample {
    /// Cells of the grid.
    pub voxel: usize,
    pub state_channels: usize,
    pub concat_channels: usize,
}

/// Concatenated channels of a condition of given length.
pub open spec fn concat_channels_of(concat_len: Option<usize>, voxel: int) -> int {
    match concat_len {
        Some(len) => len as int / voxel,
        None => 0,
    }
}

/// Why a dense sample is refused.
pub open spec fn dense_sample_fault(
    resolution: int,
    noise_len: int,
    concat_len: Option<usize>,
    in_channels: int,
    out_channels: int,
) -> Option<Seq<char>> {
    let voxel = resolution * resolution * resolution;
    let state = noise_len / voxel;
    let concat = concat_channels_of(concat_len, voxel);
    if voxel == 0 {
        Some("sparse flow resolution produced zero voxels"@)
    } else if noise_len % voxel != 0 {
        Some(sample_length_text(noise_len, voxel))
    } else if state != out_channels {
        Some(state_text(state, out_channels))
    } else if state + concat != in_channels {
        Some(channels_text(state, concat, in_channels))
    } else {
        match concat_len {
            Some(len) => if len as int % voxel != 0 {
                Some(concat_length_text(len as int, voxel))
            } else {
                None
            },
            None => None,
        }
    }
}

/// Checks the shape of a dense sample.
pub fn check_dense_sample(
    resolution: usize,
    noise_len: usize,
    concat_len: Option<usize>,
    in_channels: usize,
    out_channels: usize,
) -> (r: Result<DenseSample, String>)
    requires
        resolution * resolution * resolution <= usize::MAX,
    ensures
        match dense_sample_fault(
            resolution as int,
            noise_len as int,
            concat_len,
            in_channels as int,
            out_channels as int,
        ) {
            Some(text) => r matches Err(msg) && msg@ == text,
            None => r matches Ok(plan) && plan.voxel == resolution * resolution * resolution
                && plan.state_channels == out_channels && plan.state_channels * plan.voxel
                == noise_len && plan.concat_channels == concat_channels_of(
                concat_len,
                plan.voxel as int,
            ) && plan.state_channels + plan.concat_channels == in_channels,
        },
{
    let voxel: usize = cube(resolution);
    if voxel == 0 {
        return Err("sparse flow resolution produced zero voxels".to_owned());
    }
    if !is_multiple(noise_len, voxel) {
        return Err(sample_length_message(noise_len, voxel));
    }
    let state_channels: usize = noise_len / voxel;
    if state_channels != out_channels {
        return Err(state_message(state_channels, out_channels));
    }
    let concat_channels: usize = match concat_len {
        Some(len) => len / voxel,
        None => 0,
    };
    if !adds_up(state_channels, concat_channels, in_channels) {
        return Err(channels_message(state_channels, concat_channels, in_channels));
    }
    if let Some(len) = concat_len {
        if !is_multiple(len, voxel) {
            return Err(concat_length_message(len, voxel));
        }
    }
    proof {
        vstd::arithmetic::div_mod::lemma_fundamental_div_mod(noise_len as int, voxel as int);
        assert(state_channels * voxel == voxel * state_channels) by (nonlinear_arith);
    }
    Ok(DenseSample { voxel, state_channels, concat_channels })
}

/// Cells of a grid.
fn cube(resolution: usize) -> (r: usize)
    requires
        resolution * resolution * resolution <= usize::MAX,
    ensures
        r == resolution * resolution * resolution,
{
    proof {
        let n = resolution as int;
        assert(n * n <= n * n * n || n == 0) by (nonlinear_arith)
            requires
                n >= 0,
        ;
        assert(n == 0 ==> n * n == 0) by (nonlinear_arith);
        assert(n * n >= 0) by (nonlinear_arith);
    }
    resolution * resolution * resolution
}

/// Why a single dense velocity request is refused.
pub open spec fn dense_request_fault(
    resolution: int,
    sample_len: int,
    concat_len: Option<usize>,
    in_channels: int,
    out_channels: int,
) -> Option<Seq<char>> {
    let voxel = resolution * resolution * resolution;
    let state = sample_len / voxel;
    let concat = concat_channels_of(concat_len, voxel);
    if !multiple_of(sample_len, voxel) {
        Some(sample_length_text(sample_len, voxel))
    } else if concat_len matches Some(len) && len as int % voxel != 0 {
        Some(concat_length_text(concat_len->Some_0 as int, voxel))
    } else if state + concat != in_channels {
        Some(channels_text(state, concat, in_channels))
    } else if state != out_channels {
        Some(state_text(state, out_channels))
    } else {
        None
    }
}

/// Checks the shape of a single dense velocity request.
pub fn check_dense_request(
    resolution: usize,
    sample_len: usize,
    concat_len: Option<usize>,
    in_channels: usize,
    out_channels: usize,
) -> (r: Result<DenseSample, String>)
    requires
        resolution * resolution * resolution <= usize::MAX,
        resolution > 0 || sample_len > 0,
    ensures
        match dense_request_fault(
            resolution as int,
            sample_len as int,
            concat_len,
            in_channels as int,
            out_channels as int,
        ) {
            Some(text) => r matches Err(msg) && msg@ == text,
            None => r matches Ok(plan) && plan.voxel == resolution * resolution * resolution
                && plan.state_channels == out_channels && plan.concat_channels
                == concat_channels_of(concat_len, plan.voxel as int) && plan.state_channels
                + plan.concat_channels == in_channels,
        },
{
    let voxel: usize = cube(resolution);
    if !is_multiple(sample_len, voxel) {
        return Err(sample_length_message(sample_len, voxel));
    }
    proof {
        let n = resolution as int;
        assert(n > 0 ==> n * n * n > 0) by (nonlinear_arith);
        assert(n == 0 ==> n * n * n == 0) by (nonlinear_arith);
    }
    let state_channels: usize = sample_len / voxel;
    let concat_channels: usize = match concat_len {
        Some(len) => {
            if len % voxel != 0 {
                return Err(concat_length_message(len, voxel));
            }
            len / voxel
        },
        None => 0,
    };
    if !adds_up(state_channels, concat_channels, in_channels) {
        return Err(channels_message(state_channels, concat_channels, in_channels));
    }
    if state_channels != out_channels {
        return Err(state_message(state_channels, out_channels));
    }
    Ok(DenseSample { voxel, state_channels, concat_channels })
}

/// The model input of a dense request: the state followed by the condition.
pub fn merge_dense_input<F: Copy>(sample: &[F], concat: Option<&[F]>) -> (r: Vec<F>)
    ensures
        r@ == (match concat {
            Some(values) => sample@ + values@,
            None => sample@,
        }),
{
    let mut out: Vec<F> = Vec::new();
    push_slice(&mut out, sample);
    assert(out@ =~= sample@);
    if let Some(values) = concat {
        push_slice(&mut out, values);
    }
    out
}

/// Appends the elements of a slice.
pub fn push_slice<F: Copy>(out: &mut Vec<F>, values: &[F])
    ensures
        final(out)@ == old(out)@ + values@,
{
    let ghost before = out@;
    let mut i: usize = 0;
    assert(before + values@.take(0) =~= before);
    while i < values.len()
        invariant
            i <= values.len(),
            out@ == before + values@.take(i as int),
        decreases values.len() - i,
    {
        out.push(values[i]);
        assert(out@ =~= before + values@.take(i as int + 1));
        i = i + 1;
    }
    assert(values@.take(values@.len() as int) =~= values@);
}

/// Why a dense tensor is refused by the model.
pub open spec fn dense_tensor_fault(
    dims: (int, int, int, int),
    concat: Option<(usize, usize, usize, usize)>,
    resolution: int,
    in_channels: int,
    out_channels: int,
) -> Option<Seq<char>> {
    let (state, rx, ry, rz) = dims;
    let concat_channels = match concat {
        Some(c) => c.0 as int,
        None => 0,
    };
    if rx != resolution || ry != resolution || rz != resolution {
        Some(
            text4(
                "sparse flow tensor resolution mismatch: got=("@,
                rx,
                ","@,
                ry,
                ","@,
                rz,
                ") expected="@,
                resolution,
            ),
        )
    } else if concat matches Some(c) && c.0 == 0 {
        Some("concat cond tensor has zero channels"@)
    } else if concat matches Some(c) && (c.1 != rx || c.2 != ry || c.3 != rz) {
        let c = concat->Some_0;
        Some(
            text3(
                "concat cond tensor resolution mismatch: got=("@,
                c.1 as int,
                ","@,
                c.2 as int,
                ","@,
                c.3 as int,
            ) + ") expected=("@ + decimal(rx as nat) + ","@ + decimal(ry as nat) + ","@ + decimal(
                rz as nat,
            ) + ")"@,
        )
    } else if state + concat_channels != in_channels {
        Some(channels_text(state, concat_channels, in_channels))
    } else if state != out_channels {
        Some(state_text(state, out_channels))
    } else if rx * ry * rz == 0 {
        Some("sparse flow tensor voxel count is zero"@)
    } else {
        None
    }
}

/// Checks the dimensions of a dense tensor: `(channels, x, y, z)` of the state
/// and of the concatenated condition.
pub fn check_dense_tensor(
    dims: (usize, usize, usize, usize),
    concat: Option<(usize, usize, usize, usize)>,
    resolution: usize,
    in_channels: usize,
    out_channels: usize,
) -> (r: Result<(), String>)
    ensures
        match dense_tensor_fault(
            (dims.0 as int, dims.1 as int, dims.2 as int, dims.3 as int),
            concat,
            resolution as int,
            in_channels as int,
            out_channels as int,
        ) {
            Some(text) => r matches Err(msg) && msg@ == text,
            None => r is Ok,
        },
{
    let (state, rx, ry, rz) = dims;
    if rx != resolution || ry != resolution || rz != resolution {
        return Err(
            message4(
                "sparse flow tensor resolution mismatch: got=(",
                rx,
                ",",
                ry,
                ",",
                rz,
                ") expected=",
                resolution,
            ),
        );
    }
    let concat_channels: usize = match concat {
        Some(c) => {
            if c.0 == 0 {
                return Err("concat cond tensor has zero channels".to_owned());
            }
            if c.1 != rx || c.2 != ry || c.3 != rz {
                let mut out: String = message3(
                    "concat cond tensor resolution mismatch: got=(",
                    c.1,
                    ",",
                    c.2,
                    ",",
                    c.3,
                );
                out.append(") expected=(");
                push_usize(&mut out, rx);
                out.append(",");
                push_usize(&mut out, ry);
                out.append(",");
                push_usize(&mut out, rz);
                out.append(")");
                return Err(out);
            }
            c.0
        },
        None => 0,
    };
    if !adds_up(state, concat_channels, in_channels) {
        return Err(channels_message(state, concat_channels, in_channels));
    }
    if state != out_channels {
        return Err(state_message(state, out_channels));
    }
    proof {
        let n = resolution as int;
        assert(n > 0 ==> n * n * n > 0) by (nonlinear_arith);
        assert(n == 0 ==> n * n * n == 0) by (nonlinear_arith);
    }
    if resolution == 0 {
        return Err("sparse flow tensor voxel count is zero".to_owned());
    }
    Ok(())
}

// ---------------------------------------------------------------------------
// Conditions
// ---------------------------------------------------------------------------

/// Checks the length of a condition of `cond_tokens` tokens.
pub fn check_condition(cond_len: usize, cond_tokens: usize, cond_channels: usize) -> (r: Result<
    (),
    String,
>)
    requires
        cond_tokens * cond_channels <= usize::MAX,
    ensures
        r is Ok <==> cond_len == cond_tokens * cond_channels,
        r matches Err(msg) ==> msg@ == text2(
            "sparse flow cond length mismatch: expected "@,
            cond_tokens * cond_channels,
            ", got "@,
            cond_len as int,
        ),
{
    let expected: usize = cond_tokens * cond_channels;
    if cond_len != expected {
        return Err(
            message2("sparse flow cond length mismatch: expected ", expected, ", got ", cond_len),
        );
    }
    Ok(())
}

/// A condition has no row for a batch item.
pub open spec fn selection_text(label: Seq<char>, batch_idx: int, cond_batches: int) -> Seq<char> {
    "sparse flow "@ + label + text2(
        " batch selection out of range: idx="@,
        batch_idx,
        " batches="@,
        cond_batches,
    )
}

/// Batch rows of a condition that belong to one batch item: all items share a
/// condition of one row.
pub fn condition_batch_range(cond_batches: usize, batch_idx: usize, label: &str) -> (r: Result<
    Range<usize>,
    String,
>)
    ensures
        match r {
            Ok(rows) => (cond_batches == 1 || batch_idx < cond_batches) && rows.start == (
            if cond_batches == 1 {
                0
            } else {
                batch_idx
            }) && rows.end == rows.start + 1,
            Err(msg) => cond_batches != 1 && batch_idx >= cond_batches && msg@ == selection_text(
                label@,
                batch_idx as int,
                cond_batches as int,
            ),
        },
{
    if cond_batches == 1 {
        return Ok(0..1);
    }
    if batch_idx >= cond_batches {
        let mut out: String = "sparse flow ".to_owned();
        out.append(label);
        out.append(
            message2(
                " batch selection out of range: idx=",
                batch_idx,
                " batches=",
                cond_batches,
            ).as_str(),
        );
        return Err(out);
    }
    Ok(batch_idx..batch_idx + 1)
}

// ---------------------------------------------------------------------------
// Sparse rows
// ---------------------------------------------------------------------------

/// Why a sparse velocity request is refused: `(tokens, channels)` of the
/// state, `(rows, columns)` of the coordinates, `(tokens, channels)` of the
/// concatenated condition.
pub open spec fn sparse_tensor_fault(
    state: (int, int),
    coords: (int, int),
    concat: Option<(usize, usize)>,
    in_channels: int,
    out_channels: int,
) -> Option<Seq<char>> {
    let concat_channels = match concat {
        Some(c) => c.1 as int,
        None => 0,
    };
    if coords.1 != 3 {
        Some(
            text1("sparse flow token coord shape mismatch: expected 3 columns, got "@, coords.1),
        )
    } else if state.0 != coords.0 {
        Some(text2("sparse flow token coord mismatch: tokens="@, state.0, " coords="@, coords.0))
    } else if concat matches Some(c) && c.0 != state.0 {
        Some(
            text2(
                "concat cond token mismatch: got="@,
                concat->Some_0.0 as int,
                " expected="@,
                state.0,
            ),
        )
    } else if state.1 + concat_channels != in_channels {
        Some(channels_text(state.1, concat_channels, in_channels))
    } else if state.1 != out_channels {
        Some(state_text(state.1, out_channels))
    } else {
        None
    }
}

/// Checks the dimensions of a sparse velocity request.
pub fn check_sparse_tensor(
    state: (usize, usize),
    coords: (usize, usize),
    concat: Option<(usize, usize)>,
    in_channels: usize,
    out_channels: usize,
) -> (r: Result<(), String>)
    ensures
        match sparse_tensor_fault(
            (state.0 as int, state.1 as int),
            (coords.0 as int, coords.1 as int),
            concat,
            in_channels as int,
            out_channels as int,
        ) {
            Some(text) => r matches Err(msg) && msg@ == text,
            None => r is Ok,
        },
{
    if coords.1 != 3 {
        return Err(
            message1("sparse flow token coord shape mismatch: expected 3 columns, got ", coords.1),
        );
    }
    if state.0 != coords.0 {
        return Err(
            message2("sparse flow token coord mismatch: tokens=", state.0, " coords=", coords.0),
        );
    }
    let concat_channels: usize = match concat {
        Some(c) => {
            if c.0 != state.0 {
                return Err(
                    message2("concat cond token mismatch: got=", c.0, " expected=", state.0),
                );
            }
            c.1
        },
        None => 0,
    };
    if !adds_up(state.1, concat_channels, in_channels) {
        return Err(channels_message(state.1, concat_channels, in_channels));
    }
    if state.1 != out_channels {
        return Err(state_message(state.1, out_channels));
    }
    Ok(())
}

/// Number of times that a timestep is repeated for a batched call.
pub fn timestep_count(sample_batches: usize) -> (r: usize)
    ensures
        r == (if sample_batches == 0 {
            1
        } else {
            sample_batches
        }),
{
    max_usize(sample_batches, 1)
}

/// Dimensions of a condition tensor.
#[derive(Clone, Copy, Debug, PartialEq, Eq, Structural)]
pub struct ConditionDims {
    pub batches: usize,
    pub tokens: usize,
    pub channels: usize,
}

/// How sparse rows are sampled.
#[derive(Clone, Copy, Debug, PartialEq, Eq, Structural)]
pub enum RowSampling {
    /// There is nothing to sample.
    Nothing,
    /// Rows are sampled batch item by batch item.
    Rows {
        rows: usize,
        batches: usize,
        state_channels: usize,
        concat_channels: usize,
        /// Leading channels that are returned.
        used_channels: usize,
        /// Rows times returned channels, saturating.
        total_elements: usize,
    },
}

/// Why sparse rows are not sampled.
pub open spec fn row_sampling_fault<F, D, C>(
    sparse: SparseTensorOwned<F, D, C>,
    concat: Option<&VarLenTensorOwned<F, D>>,
    cond: ConditionDims,
    neg: ConditionDims,
    in_channels: int,
    out_channels: int,
) -> Option<Seq<char>> {
    let layout = sparse.rows_tensor().ranges();
    let rows = layout_rows(layout);
    let state = sparse.rows_tensor().width();
    let concat_channels = match concat {
        Some(values) => values.width() as int,
        None => 0,
    };
    if state != out_channels {
        Some(state_text(state as int, out_channels))
    } else if layout.len() == 0 {
        Some("sparse flow sparse tensor layout has zero batches"@)
    } else if concat matches Some(values) && layout_rows(values.ranges()) != rows {
        Some(
            text2(
                "sparse flow row concat cond row mismatch: rows="@,
                layout_rows(concat->Some_0.ranges()) as int,
                " sparse_rows="@,
                rows as int,
            ),
        )
    } else if concat matches Some(values) && values.ranges() != layout {
        Some("sparse flow concat tensor layout does not match sparse tensor layout"@)
    } else if state + concat_channels != in_channels {
        Some(channels_text(state as int, concat_channels, in_channels))
    } else if neg.tokens != cond.tokens || neg.channels != cond.channels {
        Some(condition_shapes_text(cond, neg))
    } else if cond.batches != 1 && cond.batches != layout.len() {
        Some(
            text2(
                "sparse flow condition batch mismatch: cond_batches="@,
                cond.batches as int,
                " sparse_batches="@,
                layout.len() as int,
            ),
        )
    } else if neg.batches != 1 && neg.batches != layout.len() {
        Some(
            text2(
                "sparse flow negative condition batch mismatch: neg_batches="@,
                neg.batches as int,
                " sparse_batches="@,
                layout.len() as int,
            ),
        )
    } else {
        None
    }
}

/// The two conditions differ in their shape.
pub open spec fn condition_shapes_text(cond: ConditionDims, neg: ConditionDims) -> Seq<char> {
    text3(
        "sparse flow negative condition shape mismatch: cond=["@,
        cond.batches as int,
        ","@,
        cond.tokens as int,
        ","@,
        cond.channels as int,
    ) + "] neg=["@ + decimal(neg.batches as nat) + ","@ + decimal(neg.tokens as nat) + ","@
        + decimal(neg.channels as nat) + "]"@
}

fn condition_shapes_message(cond: ConditionDims, neg: ConditionDims) -> (r: String)
    ensures
        r@ == condition_shapes_text(cond, neg),
{
    let mut out: String = message3(
        "sparse flow negative condition shape mismatch: cond=[",
        cond.batches,
        ",",
        cond.tokens,
        ",",
        cond.channels,
    );
    out.append("] neg=[");
    push_usize(&mut out, neg.batches);
    out.append(",");
    push_usize(&mut out, neg.tokens);
    out.append(",");
    push_usize(&mut out, neg.channels);
    out.append("]");
    out
}

/// Checks the inputs of sparse row sampling.
///
/// Without rows nothing else is looked at; with sound inputs but no channel to
/// return there is nothing to sample either.
pub fn check_row_sampling<F, D, C>(
    sparse: &SparseTensorOwned<F, D, C>,
    concat: Option<&VarLenTensorOwned<F, D>>,
    cond: ConditionDims,
    neg: ConditionDims,
    in_channels: usize,
    out_channels: usize,
    row_channels: usize,
) -> (r: Result<RowSampling, String>)
    ensures
        ({
            let layout = sparse.rows_tensor().ranges();
            let rows = layout_rows(layout);
            let state = sparse.rows_tensor().width();
            let used = imin(row_channels as int, state as int);
            if rows == 0 {
                r == Ok::<RowSampling, String>(RowSampling::Nothing)
            } else {
                match row_sampling_fault(
                    *sparse,
                    concat,
                    cond,
                    neg,
                    in_channels as int,
                    out_channels as int,
                ) {
                    Some(text) => r matches Err(msg) && msg@ == text,
                    None => if used == 0 {
                        r == Ok::<RowSampling, String>(RowSampling::Nothing)
                    } else {
                        r == Ok::<RowSampling, String>(
                            RowSampling::Rows {
                                rows,
                                batches: layout.len() as usize,
                                state_channels: state,
                                concat_channels: (in_channels - state) as usize,
                                used_channels: used as usize,
                                total_elements: sat(rows * used) as usize,
                            },
                        )
                    },
                }
            }
        }),
{
    let rows: usize = sparse.rows();
    if rows == 0 {
        return Ok(RowSampling::Nothing);
    }
    let state_channels: usize = sparse.channels();
    if state_channels != out_channels {
        return Err(state_message(state_channels, out_channels));
    }
    let batches: usize = sparse.batch_size();
    if batches == 0 {
        return Err("sparse flow sparse tensor layout has zero batches".to_owned());
    }
    let concat_channels: usize = match concat {
        Some(values) => {
            let concat_rows: usize = values.rows();
            if concat_rows != rows {
                return Err(
                    message2(
                        "sparse flow row concat cond row mismatch: rows=",
                        concat_rows,
                        " sparse_rows=",
                        rows,
                    ),
                );
            }
            if !same_ranges(values.layout(), sparse.layout()) {
                return Err(
                    "sparse flow concat tensor layout does not match sparse tensor layout".to_owned(),
                );
            }
            values.channels()
        },
        None => 0,
    };
    if !adds_up(state_channels, concat_channels, in_channels) {
        return Err(channels_message(state_channels, concat_channels, in_channels));
    }
    if neg.tokens != cond.tokens || neg.channels != cond.channels {
        return Err(condition_shapes_message(cond, neg));
    }
    if cond.batches != 1 && cond.batches != batches {
        return Err(
            message2(
                "sparse flow condition batch mismatch: cond_batches=",
                cond.batches,
                " sparse_batches=",
                batches,
            ),
        );
    }
    if neg.batches != 1 && neg.batches != batches {
        return Err(
            message2(
                "sparse flow negative condition batch mismatch: neg_batches=",
                neg.batches,
                " sparse_batches=",
                batches,
            ),
        );
    }
    let used_channels: usize = min_usize(row_channels, state_channels);
    if used_channels == 0 {
        return Ok(RowSampling::Nothing);
    }
    let total_elements: usize = saturating_mul(rows, used_channels);
    Ok(
        RowSampling::Rows {
            rows,
            batches,
            state_channels,
            concat_channels,
            used_channels,
            total_elements,
        },
    )
}

/// Why joined parts of batch items are refused.
pub open spec fn aggregation_text(
    label: Seq<char>,
    parts: int,
    elements: int,
    total_elements: int,
) -> Seq<char> {
    if parts == 0 {
        "sparse flow "@ + label + " aggregation produced no batch tensors"@
    } else {
        "sparse flow "@ + label + " aggregation element mismatch: got="@ + decimal(elements as nat)
            + " expected="@ + decimal(total_elements as nat)
    }
}

/// Checks that the joined parts of all batch items have the expected size.
pub fn check_aggregation(
    label: &str,
    parts: usize,
    elements: usize,
    total_elements: usize,
) -> (r: Result<(), String>)
    ensures
        r is Ok <==> parts > 0 && elements == total_elements,
        r matches Err(msg) ==> msg@ == aggregation_text(
            label@,
            parts as int,
            elements as int,
            total_elements as int,
        ),
{
    if parts == 0 {
        let mut out: String = "sparse flow ".to_owned();
        out.append(label);
        out.append(" aggregation produced no batch tensors");
        return Err(out);
    }
    if elements != total_elements {
        let mut out: String = "sparse flow ".to_owned();
        out.append(label);
        out.append(" aggregation element mismatch: got=");
        push_usize(&mut out, elements);
        out.append(" expected=");
        push_usize(&mut out, total_elements);
        return Err(out);
    }
    Ok(())
}

} // verus!
