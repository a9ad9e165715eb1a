//! What a flow runtime reads of owned tensors, by the backend it runs on.
use crate::arith::{sat, saturating_mul};
use crate::layout::{copy_ranges, rows_total, sum_lengths};
use crate::tensors::{
    sparse_fault, varlen_device_fault, varlen_fault, DeviceTensor, SparseTensorDevice,
    SparseTensorOwned, TensorFault, VarLenTensorDevice, VarLenTensorOwned,
};
use crate::text::{
    in_context, message1, message2, message4, push_u64, text1, text2, text4, with_context,
};
use core::ops::Range;
use vstd::prelude::*;
use vstd::string::*;

verus! {

/// Backend that a flow runtime runs on.
#[derive(Clone, Copy, Debug, PartialEq, Eq, Structural)]
pub enum RuntimeBackend {
    Cpu,
    Wgpu,
}

impl RuntimeBackend {
    /// Name of the backend.
    pub fn backend_name(self) -> (r: &'static str)
        ensures
            r@ == (match self {
                RuntimeBackend::Cpu => "cpu"@,
                RuntimeBackend::Wgpu => "wgpu"@,
            }),
    {
        match self {
            RuntimeBackend::Cpu => "cpu",
            RuntimeBackend::Wgpu => "wgpu",
        }
    }
}

/// Checks that both conditions live on the runtime's backend.
pub fn check_condition_backends(
    runtime: RuntimeBackend,
    condition: RuntimeBackend,
    negative: RuntimeBackend,
) -> (r: Result<(), String>)
    ensures
        r is Ok <==> condition == runtime && negative == runtime,
        r matches Err(msg) ==> msg@
            == "sparse flow condition backend does not match runtime backend"@,
{
    if condition == runtime && negative == runtime {
        Ok(())
    } else {
        Err("sparse flow condition backend does not match runtime backend".to_owned())
    }
}

/// Checks that a run can leave its sample on the device.
pub fn check_device_sample_backends(
    runtime: RuntimeBackend,
    condition: RuntimeBackend,
    negative: RuntimeBackend,
) -> (r: Result<(), String>)
    ensures
        r is Ok <==> runtime == RuntimeBackend::Wgpu && condition == runtime && negative
            == runtime,
        r matches Err(msg) ==> msg@ == (if condition == runtime && negative == runtime {
            "sparse flow tensor-native latent path requires wgpu runtime backend"@
        } else {
            "sparse flow condition backend does not match runtime backend"@
        }),
{
    match check_condition_backends(runtime, condition, negative) {
        Ok(_) => if runtime == RuntimeBackend::Wgpu {
            Ok(())
        } else {
            Err("sparse flow tensor-native latent path requires wgpu runtime backend".to_owned())
        },
        Err(msg) => Err(msg),
    }
}

// ---------------------------------------------------------------------------
// Coordinates
// ---------------------------------------------------------------------------

/// The number at position `k` of the rows written one after the other.
pub open spec fn coord_at(coords: Seq<[u32; 4]>, k: int) -> u32 {
    coords[k / 4][k % 4]
}

/// Position of the first number that a device integer cannot hold.
pub open spec fn is_first_wide_coord(coords: Seq<[u32; 4]>, k: int) -> bool {
    &&& 0 <= k < 4 * coords.len()
    &&& coord_at(coords, k) > i32::MAX
    &&& forall|j: int| 0 <= j < k ==> #[trigger] coord_at(coords, j) <= i32::MAX
}

/// A coordinate is too large for a device integer.
pub open spec fn coord_overflow_text(row: int, value: int) -> Seq<char> {
    text2("sparse flow coord conversion overflow at row "@, row, " value "@, value)
}

/// Coordinates as device integers, row by row.
pub fn flatten_coords(coords: &Vec<[u32; 4]>) -> (r: Result<Vec<i32>, String>)
    ensures
        match r {
            Ok(flat) => flat@.len() == 4 * coords@.len() && forall|k: int|
                0 <= k < flat@.len() ==> #[trigger] flat@[k] == coord_at(coords@, k),
            Err(msg) => exists|k: int| #[trigger]
                is_first_wide_coord(coords@, k) && msg@ == coord_overflow_text(
                    k / 4,
                    coord_at(coords@, k) as int,
                ),
        },
        r is Ok <==> forall|k: int|
            0 <= k < 4 * coords@.len() ==> #[trigger] coord_at(coords@, k) <= i32::MAX,
{
    let mut flat: Vec<i32> = Vec::new();
    let mut row: usize = 0;
    while row < coords.len()
        invariant
            row <= coords.len(),
            flat@.len() == 4 * row,
            forall|k: int| 0 <= k < 4 * row ==> #[trigger] coord_at(coords@, k) <= i32::MAX,
            forall|k: int| 0 <= k < flat@.len() ==> #[trigger] flat@[k] == coord_at(coords@, k),
        decreases coords.len() - row,
    {
        let mut col: usize = 0;
        while col < 4
            invariant
                row < coords.len(),
                col <= 4,
                flat@.len() == 4 * row + col,
                forall|k: int|
                    0 <= k < 4 * row + col ==> #[trigger] coord_at(coords@, k) <= i32::MAX,
                forall|k: int|
                    0 <= k < flat@.len() ==> #[trigger] flat@[k] == coord_at(coords@, k),
            decreases 4 - col,
        {
            let value: u32 = coords[row][col];
            assert(coord_at(coords@, 4 * row + col) == value);
            if value > 2_147_483_647 {
                let mut out: String = message1(
                    "sparse flow coord conversion overflow at row ",
                    row,
                );
                out.append(" value ");
                push_u64(&mut out, value as u64);
                assert(is_first_wide_coord(coords@, 4 * row + col));
                return Err(out);
            }
            flat.push(value as i32);
            col = col + 1;
        }
        row = row + 1;
    }
    Ok(flat)
}

// ---------------------------------------------------------------------------
// Reading rows
// ---------------------------------------------------------------------------

/// Host rows have another number of elements than expected.
pub open spec fn host_rows_text(
    prefix: Seq<char>,
    infix: Seq<char>,
    expected: int,
    rows: int,
    channels: int,
    got: int,
) -> Seq<char> {
    text4(prefix, expected, infix, rows, " channels="@, channels, "), got "@, got)
}

/// The host rows of a tensor, checked against a shape.
///
/// `missing` is answered where the rows are not on the host, `mismatch` begins
/// the answer where their number of elements is wrong.
pub fn host_rows<'a, F, D>(
    values: &'a VarLenTensorOwned<F, D>,
    row_count: usize,
    channels: usize,
    missing: &str,
    mismatch: &str,
) -> (r: Result<&'a Vec<F>, String>)
    ensures
        match values.host() {
            None => r matches Err(msg) && msg@ == missing@,
            Some(feats) => if feats.len() == sat(row_count * channels) {
                r matches Ok(v) && v@ == feats
            } else {
                r matches Err(msg) && msg@ == host_rows_text(
                    mismatch@,
                    " values (rows="@,
                    sat(row_count * channels),
                    row_count as int,
                    channels as int,
                    feats.len() as int,
                )
            },
        },
{
    if values.feats_wgpu().is_some() {
        proof {
            use_type_invariant(values);
        }
        return Err(missing.to_owned());
    }
    proof {
        use_type_invariant(values);
    }
    let feats: &Vec<F> = values.feats();
    let expected: usize = saturating_mul(row_count, channels);
    if feats.len() != expected {
        return Err(
            message4(
                mismatch,
                expected,
                " values (rows=",
                row_count,
                " channels=",
                channels,
                "), got ",
                feats.len(),
            ),
        );
    }
    Ok(feats)
}

/// The device rows of a tensor, checked against a shape.
pub fn device_rows<'a, F, D>(
    values: &'a VarLenTensorOwned<F, D>,
    row_count: usize,
    channels: usize,
    missing: &str,
    mismatch: &str,
) -> (r: Result<&'a DeviceTensor<D>, String>)
    ensures
        match values.device() {
            None => r matches Err(msg) && msg@ == missing@,
            Some(t) => if t.rows == row_count && t.cols == channels {
                r matches Ok(d) && *d == t
            } else {
                r matches Err(msg) && msg@ == text4(
                    mismatch@,
                    t.rows as int,
                    ","@,
                    t.cols as int,
                    "] expected=["@,
                    row_count as int,
                    ","@,
                    channels as int,
                ) + "]"@
            },
        },
{
    match values.feats_wgpu() {
        Some(t) => {
            if t.rows != row_count || t.cols != channels {
                let mut out: String = message4(
                    mismatch,
                    t.rows,
                    ",",
                    t.cols,
                    "] expected=[",
                    row_count,
                    ",",
                    channels,
                );
                out.append("]");
                return Err(out);
            }
            Ok(t)
        },
        None => Err(missing.to_owned()),
    }
}

/// Rows of the state on the host.
pub fn state_host_rows<'a, F, D, C>(
    sparse: &'a SparseTensorOwned<F, D, C>,
    row_count: usize,
    state_channels: usize,
) -> (r: Result<&'a Vec<F>, String>)
    ensures
        match sparse.rows_tensor().host() {
            None => r matches Err(msg) && msg@
                == "sparse flow cpu path requires host-backed state features"@,
            Some(feats) => if feats.len() == sat(row_count * state_channels) {
                r matches Ok(v) && v@ == feats
            } else {
                r matches Err(msg) && msg@ == host_rows_text(
                    "sparse flow state host features mismatch: expected "@,
                    " values (rows="@,
                    sat(row_count * state_channels),
                    row_count as int,
                    state_channels as int,
                    feats.len() as int,
                )
            },
        },
{
    host_rows(
        sparse.values(),
        row_count,
        state_channels,
        "sparse flow cpu path requires host-backed state features",
        "sparse flow state host features mismatch: expected ",
    )
}

/// Rows of the concatenated condition on the host.
pub fn concat_host_rows<'a, F, D>(
    values: &'a VarLenTensorOwned<F, D>,
    row_count: usize,
    concat_channels: usize,
) -> (r: Result<&'a Vec<F>, String>)
    ensures
        match values.host() {
            None => r matches Err(msg) && msg@
                == "sparse flow cpu path requires host-backed concat features"@,
            Some(feats) => if feats.len() == sat(row_count * concat_channels) {
                r matches Ok(v) && v@ == feats
            } else {
                r matches Err(msg) && msg@ == host_rows_text(
                    "sparse flow concat host features mismatch: expected "@,
                    " values (rows="@,
                    sat(row_count * concat_channels),
                    row_count as int,
                    concat_channels as int,
                    feats.len() as int,
                )
            },
        },
{
    host_rows(
        values,
        row_count,
        concat_channels,
        "sparse flow cpu path requires host-backed concat features",
        "sparse flow concat host features mismatch: expected ",
    )
}

/// Coordinates on the host, as device integers.
pub fn host_coord_rows<F, D, C>(sparse: &SparseTensorOwned<F, D, C>, context: &str) -> (r: Result<
    Vec<i32>,
    String,
>)
    ensures
        match sparse.host_coords() {
            None => r matches Err(msg) && msg@ == in_context(
                context@,
                "sparse flow cpu path requires host-backed coordinate rows"@,
            ),
            Some(coords) => match r {
                Ok(flat) => flat@.len() == 4 * coords.len() && forall|k: int|
                    0 <= k < flat@.len() ==> #[trigger] flat@[k] == coord_at(coords, k),
                Err(msg) => exists|k: int| #[trigger]
                    is_first_wide_coord(coords, k) && msg@ == in_context(
                        context@,
                        coord_overflow_text(k / 4, coord_at(coords, k) as int),
                    ),
            },
        },
{
    if sparse.coords_wgpu().is_some() {
        proof {
            use_type_invariant(sparse);
        }
        return Err(
            with_context(context, "sparse flow cpu path requires host-backed coordinate rows"),
        );
    }
    proof {
        use_type_invariant(sparse);
    }
    match flatten_coords(sparse.coords()) {
        Ok(flat) => Ok(flat),
        Err(msg) => Err(with_context(context, msg.as_str())),
    }
}

/// Rows of the state on the device.
pub fn state_device_rows<'a, F, D, C>(
    sparse: &'a SparseTensorOwned<F, D, C>,
    row_count: usize,
    state_channels: usize,
) -> (r: Result<&'a DeviceTensor<D>, String>)
    ensures
        match sparse.rows_tensor().device() {
            None => r matches Err(msg) && msg@
                == "sparse flow wgpu state tensor missing device-backed features; host completion is disabled on canonical path"@,
            Some(t) => if t.rows == row_count && t.cols == state_channels {
                r matches Ok(d) && *d == t
            } else {
                r matches Err(msg) && msg@ == text4(
                    "sparse flow state device tensor mismatch: got=["@,
                    t.rows as int,
                    ","@,
                    t.cols as int,
                    "] expected=["@,
                    row_count as int,
                    ","@,
                    state_channels as int,
                ) + "]"@
            },
        },
{
    device_rows(
        sparse.values(),
        row_count,
        state_channels,
        "sparse flow wgpu state tensor missing device-backed features; host completion is disabled on canonical path",
        "sparse flow state device tensor mismatch: got=[",
    )
}

/// Rows of the concatenated condition on the device.
pub fn concat_device_rows<'a, F, D>(
    values: &'a VarLenTensorOwned<F, D>,
    row_count: usize,
    concat_channels: usize,
) -> (r: Result<&'a DeviceTensor<D>, String>)
    ensures
        match values.device() {
            None => r matches Err(msg) && msg@
                == "sparse flow wgpu concat tensor missing device-backed features; host completion is disabled on canonical path"@,
            Some(t) => if t.rows == row_count && t.cols == concat_channels {
                r matches Ok(d) && *d == t
            } else {
                r matches Err(msg) && msg@ == text4(
                    "sparse flow concat device tensor mismatch: got=["@,
                    t.rows as int,
                    ","@,
                    t.cols as int,
                    "] expected=["@,
                    row_count as int,
                    ","@,
                    concat_channels as int,
                ) + "]"@
            },
        },
{
    device_rows(
        values,
        row_count,
        concat_channels,
        "sparse flow wgpu concat tensor missing device-backed features; host completion is disabled on canonical path",
        "sparse flow concat device tensor mismatch: got=[",
    )
}

/// Coordinates on the device.
pub fn device_coord_rows<'a, F, D, C>(
    sparse: &'a SparseTensorOwned<F, D, C>,
    context: &str,
) -> (r: Result<&'a DeviceTensor<C>, String>)
    ensures
        match sparse.device_coords() {
            None => r matches Err(msg) && msg@ == in_context(
                context@,
                "sparse flow wgpu coord tensor missing device-backed coords; host completion is disabled on canonical path"@,
            ),
            Some(t) => r matches Ok(d) && *d == t,
        },
{
    match sparse.coords_wgpu() {
        Some(t) => Ok(t),
        None => Err(
            with_context(
                context,
                "sparse flow wgpu coord tensor missing device-backed coords; host completion is disabled on canonical path",
            ),
        ),
    }
}

// ---------------------------------------------------------------------------
// Assembling tensors for a backend
// ---------------------------------------------------------------------------

/// Device coordinates and features that cannot be joined.
pub open spec fn device_assembly_fault(
    backend: RuntimeBackend,
    coords: (int, int),
    feats: (int, int),
) -> Option<Seq<char>> {
    if backend != RuntimeBackend::Wgpu {
        Some("sparse flow wgpu tensor assembly requires wgpu runtime backend"@)
    } else if coords.1 != 4 {
        Some(text1("sparse flow coord tensor must have 4 columns, got "@, coords.1))
    } else if feats.1 == 0 {
        Some("sparse flow feature tensor channels must be > 0"@)
    } else if feats.0 != coords.0 {
        Some(
            text2(
                "sparse flow tensor row mismatch: coords_rows="@,
                coords.0,
                " feat_rows="@,
                feats.0,
            ),
        )
    } else {
        None
    }
}

/// `r` are voxel rows of the given device tensors, or the first fault.
pub open spec fn assembled_sparse<F, D, C>(
    backend: RuntimeBackend,
    coords_wgpu: DeviceTensor<C>,
    feats_wgpu: DeviceTensor<D>,
    layout: Seq<Range<usize>>,
    sparse_resolution: usize,
    r: Result<SparseTensorOwned<F, D, C>, String>,
) -> bool {
    match device_assembly_fault(
        backend,
        (coords_wgpu.rows as int, coords_wgpu.cols as int),
        (feats_wgpu.rows as int, feats_wgpu.cols as int),
    ) {
        Some(text) => r matches Err(msg) && msg@ == text,
        None => match varlen_device_fault(feats_wgpu.rows as int, layout) {
            Some(fault) => r matches Err(msg) && msg@ == fault.text(),
            None => if sparse_resolution == 0 {
                r matches Err(msg) && msg@ == TensorFault::ResolutionZero.text()
            } else {
                r matches Ok(t) && t.host_coords() is None && t.device_coords() == Some(
                    coords_wgpu,
                ) && t.rows_tensor().host() is None && t.rows_tensor().device() == Some(feats_wgpu)
                    && t.rows_tensor().ranges() == layout && t.rows_tensor().width()
                    == feats_wgpu.cols && t.resolution() == sparse_resolution
            },
        },
    }
}

/// Voxel rows from device tensors.
pub fn sparse_tensor_from_wgpu_tensors_layout<F, D, C>(
    backend: RuntimeBackend,
    coords_wgpu: DeviceTensor<C>,
    feats_wgpu: DeviceTensor<D>,
    layout: Vec<Range<usize>>,
    sparse_resolution: usize,
) -> (r: Result<SparseTensorOwned<F, D, C>, String>)
    ensures
        assembled_sparse(backend, coords_wgpu, feats_wgpu, layout@, sparse_resolution, r),
{
    if backend != RuntimeBackend::Wgpu {
        return Err("sparse flow wgpu tensor assembly requires wgpu runtime backend".to_owned());
    }
    if coords_wgpu.cols != 4 {
        return Err(
            message1("sparse flow coord tensor must have 4 columns, got ", coords_wgpu.cols),
        );
    }
    if feats_wgpu.cols == 0 {
        return Err("sparse flow feature tensor channels must be > 0".to_owned());
    }
    if feats_wgpu.rows != coords_wgpu.rows {
        return Err(
            message2(
                "sparse flow tensor row mismatch: coords_rows=",
                coords_wgpu.rows,
                " feat_rows=",
                feats_wgpu.rows,
            ),
        );
    }
    let values: VarLenTensorOwned<F, D> = match VarLenTensorOwned::from_wgpu_tensor(
        feats_wgpu,
        layout,
    ) {
        Ok(values) => values,
        Err(msg) => return Err(msg),
    };
    SparseTensorOwned::from_wgpu_tensors(coords_wgpu, values, sparse_resolution)
}

/// `r` are rows of the given device tensor, or the first fault.
pub open spec fn assembled_varlen<F, D>(
    backend: RuntimeBackend,
    feats_wgpu: DeviceTensor<D>,
    layout: Seq<Range<usize>>,
    r: Result<VarLenTensorOwned<F, D>, String>,
) -> bool {
    if backend != RuntimeBackend::Wgpu {
        r matches Err(msg) && msg@
            == "sparse flow wgpu varlen tensor assembly requires wgpu runtime backend"@
    } else {
        match varlen_device_fault(feats_wgpu.rows as int, layout) {
            Some(fault) => r matches Err(msg) && msg@ == fault.text(),
            None => r matches Ok(t) && t.host() is None && t.device() == Some(feats_wgpu)
                && t.ranges() == layout && t.width() == feats_wgpu.cols,
        }
    }
}

/// Rows from a device tensor.
pub fn varlen_tensor_from_wgpu_tensor_layout<F, D>(
    backend: RuntimeBackend,
    feats_wgpu: DeviceTensor<D>,
    layout: Vec<Range<usize>>,
) -> (r: Result<VarLenTensorOwned<F, D>, String>)
    ensures
        assembled_varlen(backend, feats_wgpu, layout@, r),
{
    if backend != RuntimeBackend::Wgpu {
        return Err(
            "sparse flow wgpu varlen tensor assembly requires wgpu runtime backend".to_owned(),
        );
    }
    VarLenTensorOwned::from_wgpu_tensor(feats_wgpu, layout)
}

/// An assembly failed with an error.
pub open spec fn assembly_text(what: Seq<char>, error: Seq<char>) -> Seq<char> {
    what + " tensor assembly failed ("@ + error + ")"@
}

fn assembly_failure(what: &str, error: &str) -> (r: String)
    ensures
        r@ == assembly_text(what@, error@),
{
    let mut out: String = what.to_owned();
    out.append(" tensor assembly failed (");
    out.append(error);
    out.append(")");
    out
}

/// Outcome of sampling rows that are given as device tensors.
pub open spec fn device_sample_outcome<F, D, C, R, S>(
    backend: RuntimeBackend,
    coords_wgpu: DeviceTensor<C>,
    feats_wgpu: DeviceTensor<D>,
    concat_wgpu: Option<DeviceTensor<D>>,
    layout: Seq<Range<usize>>,
    sparse_resolution: usize,
    sample: S,
    out: Result<R, String>,
) -> bool where
    S: Fn(&SparseTensorOwned<F, D, C>, Option<&VarLenTensorOwned<F, D>>) -> Result<R, String>,
 {
    exists|sparse: Result<SparseTensorOwned<F, D, C>, String>| #[trigger]
        assembled_sparse(backend, coords_wgpu, feats_wgpu, layout, sparse_resolution, sparse)
            && match sparse {
            Err(e) => out matches Err(msg) && msg@ == assembly_text(
                "sparse flow wgpu sparse input"@,
                e@,
            ),
            Ok(sparse) => match concat_wgpu {
                None => call_ensures(sample, (&sparse, None), out),
                Some(concat_wgpu) => exists|concat: Result<VarLenTensorOwned<F, D>, String>|
                     #[trigger]
                    assembled_varlen(backend, concat_wgpu, layout, concat) && match concat {
                        Err(e) => out matches Err(msg) && msg@ == assembly_text(
                            "sparse flow wgpu concat input"@,
                            e@,
                        ),
                        Ok(concat) => call_ensures(sample, (&sparse, Some(&concat)), out),
                    },
            },
        }
}

/// Samples rows that are given as device tensors; `sample` takes the rows and
/// the concatenated condition.
pub fn sample_sparse_rows_with_trace_wgpu_inputs<F, D, C, R, S>(
    backend: RuntimeBackend,
    coords_wgpu: DeviceTensor<C>,
    feats_wgpu: DeviceTensor<D>,
    concat_wgpu: Option<DeviceTensor<D>>,
    layout: Vec<Range<usize>>,
    sparse_resolution: usize,
    sample: S,
) -> (r: Result<R, String>) where
    S: Fn(&SparseTensorOwned<F, D, C>, Option<&VarLenTensorOwned<F, D>>) -> Result<R, String>,

    requires
        forall|s: &SparseTensorOwned<F, D, C>, c: Option<&VarLenTensorOwned<F, D>>|
            call_requires(sample, (s, c)),
    ensures
        device_sample_outcome(
            backend,
            coords_wgpu,
            feats_wgpu,
            concat_wgpu,
            layout@,
            sparse_resolution,
            sample,
            r,
        ),
{
    let concat_layout: Vec<Range<usize>> = copy_ranges(&layout);
    let assembled: Result<SparseTensorOwned<F, D, C>, String> =
        sparse_tensor_from_wgpu_tensors_layout(
        backend,
        coords_wgpu,
        feats_wgpu,
        layout,
        sparse_resolution,
    );
    let ghost assembled_ghost = assembled;
    assert(assembled_sparse(
        backend,
        coords_wgpu,
        feats_wgpu,
        layout@,
        sparse_resolution,
        assembled_ghost,
    ));
    let sparse: SparseTensorOwned<F, D, C> = match assembled {
        Ok(sparse) => sparse,
        Err(e) => return Err(assembly_failure("sparse flow wgpu sparse input", e.as_str())),
    };
    match concat_wgpu {
        None => sample(&sparse, None),
        Some(concat_wgpu) => {
            let assembled: Result<VarLenTensorOwned<F, D>, String> =
                varlen_tensor_from_wgpu_tensor_layout(backend, concat_wgpu, concat_layout);
            let ghost concat_ghost = assembled;
            assert(assembled_varlen(backend, concat_wgpu, layout@, concat_ghost));
            match assembled {
                Ok(concat) => sample(&sparse, Some(&concat)),
                Err(e) => Err(assembly_failure("sparse flow wgpu concat input", e.as_str())),
            }
        },
    }
}

/// Device voxel rows from device tensors.
pub fn sparse_tensor_device_from_wgpu_tensors_layout<F, D: Clone, C: Clone>(
    backend: RuntimeBackend,
    coords_wgpu: DeviceTensor<C>,
    feats_wgpu: DeviceTensor<D>,
    layout: Vec<Range<usize>>,
    sparse_resolution: usize,
) -> (r: Result<SparseTensorDevice<D, C>, String>)
    ensures
        exists|sparse: Result<SparseTensorOwned<F, D, C>, String>| #[trigger]
            assembled_sparse(
                backend,
                coords_wgpu,
                feats_wgpu,
                layout@,
                sparse_resolution,
                sparse,
            ) && match sparse {
                Ok(t) => t.device_outcome("sparse flow device sparse tensor assembly"@, r),
                Err(msg) => r == Err::<SparseTensorDevice<D, C>, String>(msg),
            },
{
    let ghost ranges = layout@;
    let sparse: Result<SparseTensorOwned<F, D, C>, String> =
        sparse_tensor_from_wgpu_tensors_layout(
        backend,
        coords_wgpu,
        feats_wgpu,
        layout,
        sparse_resolution,
    );
    assert(assembled_sparse(
        backend,
        coords_wgpu,
        feats_wgpu,
        ranges,
        sparse_resolution,
        sparse,
    ));
    match sparse {
        Ok(t) => t.as_device_owned("sparse flow device sparse tensor assembly"),
        Err(msg) => Err(msg),
    }
}

/// Device rows from a device tensor.
pub fn varlen_tensor_device_from_wgpu_tensor_layout<F, D: Clone>(
    backend: RuntimeBackend,
    feats_wgpu: DeviceTensor<D>,
    layout: Vec<Range<usize>>,
) -> (r: Result<VarLenTensorDevice<D>, String>)
    ensures
        exists|values: Result<VarLenTensorOwned<F, D>, String>| #[trigger]
            assembled_varlen(backend, feats_wgpu, layout@, values) && match values {
                Ok(t) => t.device_outcome("sparse flow device varlen tensor assembly"@, r),
                Err(msg) => r == Err::<VarLenTensorDevice<D>, String>(msg),
            },
{
    let ghost ranges = layout@;
    let values: Result<VarLenTensorOwned<F, D>, String> = varlen_tensor_from_wgpu_tensor_layout(
        backend,
        feats_wgpu,
        layout,
    );
    assert(assembled_varlen(backend, feats_wgpu, ranges, values));
    match values {
        Ok(t) => t.as_device_owned("sparse flow device varlen tensor assembly"),
        Err(msg) => Err(msg),
    }
}

/// Host features of another number of elements than coordinates ask for.
pub open spec fn host_features_text(
    prefix: Seq<char>,
    rows: int,
    channels: int,
    got: int,
) -> Seq<char> {
    host_rows_text(prefix, " (rows="@, sat(rows * channels), rows, channels, got)
}

fn host_features_message(prefix: &str, rows: usize, channels: usize, got: usize) -> (r: String)
    ensures
        r@ == host_features_text(prefix@, rows as int, channels as int, got as int),
{
    message4(
        prefix,
        saturating_mul(rows, channels),
        " (rows=",
        rows,
        " channels=",
        channels,
        "), got ",
        got,
    )
}

/// `r` is what the device makes of host rows: the first fault, or the uploaded tensors.
pub open spec fn uploaded_sparse<F, D, C, U, W>(
    coords: Seq<[u32; 4]>,
    feats: Vec<F>,
    layout: Seq<Range<usize>>,
    channels: usize,
    sparse_resolution: usize,
    upload_rows: U,
    upload_coords: W,
    r: Result<SparseTensorOwned<F, D, C>, String>,
) -> bool where U: Fn(&Vec<F>, usize, usize) -> D, W: Fn(&Vec<i32>, usize) -> C {
    let rows = coords.len() as int;
    if feats@.len() != sat(rows * channels) {
        r matches Err(msg) && msg@ == host_features_text(
            "sparse flow host feature length mismatch: expected "@,
            rows,
            channels as int,
            feats@.len() as int,
        )
    } else if let Some(fault) = varlen_device_fault(rows, layout) {
        r matches Err(msg) && msg@ == fault.text()
    } else if exists|k: int| is_first_wide_coord(coords, k) {
        r matches Err(msg) && exists|k: int| #[trigger]
            is_first_wide_coord(coords, k) && msg@ == coord_overflow_text(
                k / 4,
                coord_at(coords, k) as int,
            )
    } else if sparse_resolution == 0 {
        r matches Err(msg) && msg@ == TensorFault::ResolutionZero.text()
    } else {
        r matches Ok(t) && {
            let device = t.rows_tensor().device();
            let positions = t.device_coords();
            &&& t.rows_tensor().ranges() == layout
            &&& t.rows_tensor().width() == channels
            &&& t.resolution() == sparse_resolution
            &&& device is Some && device->Some_0.rows == rows && device->Some_0.cols == channels
                && call_ensures(
                upload_rows,
                (&feats, rows as usize, channels),
                device->Some_0.handle,
            )
            &&& positions is Some && positions->Some_0.rows == rows && positions->Some_0.cols == 4
                && exists|flat: Vec<i32>|
                #![trigger flat@]
                flat@.len() == 4 * rows && (forall|k: int|
                    0 <= k < flat@.len() ==> #[trigger] flat@[k] == coord_at(coords, k))
                    && call_ensures(upload_coords, (&flat, rows as usize), positions->Some_0.handle)
        }
    }
}

/// Voxel rows from host data: kept on the host, or uploaded to the device.
///
/// `upload_rows` and `upload_coords` move rows and coordinates to the device.
pub fn sparse_tensor_from_host_layout<F, D, C, U, W>(
    backend: RuntimeBackend,
    coords: Vec<[u32; 4]>,
    feats: Vec<F>,
    layout: Vec<Range<usize>>,
    channels: usize,
    sparse_resolution: usize,
    upload_rows: U,
    upload_coords: W,
) -> (r: Result<SparseTensorOwned<F, D, C>, String>) where
    U: Fn(&Vec<F>, usize, usize) -> D,
    W: Fn(&Vec<i32>, usize) -> C,

    requires
        forall|v: &Vec<F>, rows: usize, cols: usize| call_requires(upload_rows, (v, rows, cols)),
        forall|v: &Vec<i32>, rows: usize| call_requires(upload_coords, (v, rows)),
    ensures
        match backend {
            RuntimeBackend::Cpu => exists|fault: Option<TensorFault>| #[trigger]
                sparse_fault(
                    coords@,
                    feats@.len() as int,
                    layout@,
                    channels as int,
                    sparse_resolution as int,
                    fault,
                ) && match fault {
                    None => r matches Ok(t) && t.host_coords() == Some(coords@)
                        && t.resolution() == sparse_resolution && t.rows_tensor().host() == Some(
                        feats@,
                    ) && t.rows_tensor().ranges() == layout@ && t.rows_tensor().width() == channels,
                    Some(f) => r matches Err(msg) && msg@ == f.text(),
                },
            RuntimeBackend::Wgpu => uploaded_sparse(
                coords@,
                feats,
                layout@,
                channels,
                sparse_resolution,
                upload_rows,
                upload_coords,
                r,
            ),
        },
{
    if backend == RuntimeBackend::Cpu {
        return SparseTensorOwned::from_layout(coords, feats, layout, channels, sparse_resolution);
    }
    let rows: usize = coords.len();
    if feats.len() != saturating_mul(rows, channels) {
        return Err(
            host_features_message(
                "sparse flow host feature length mismatch: expected ",
                rows,
                channels,
                feats.len(),
            ),
        );
    }
    let handle: D = upload_rows(&feats, rows, channels);
    let values: VarLenTensorOwned<F, D> = match VarLenTensorOwned::from_wgpu_tensor(
        DeviceTensor { handle, rows, cols: channels },
        layout,
    ) {
        Ok(values) => values,
        Err(msg) => return Err(msg),
    };
    let flat: Vec<i32> = match flatten_coords(&coords) {
        Ok(flat) => flat,
        Err(msg) => return Err(msg),
    };
    proof {
        assert forall|k: int| !is_first_wide_coord(coords@, k) by {
            if is_first_wide_coord(coords@, k) {
                assert(coord_at(coords@, k) <= i32::MAX);
            }
        }
        assert(flat@.len() == 4 * rows);
    }
    let positions: C = upload_coords(&flat, rows);
    SparseTensorOwned::from_wgpu_tensors(
        DeviceTensor { handle: positions, rows, cols: 4 },
        values,
        sparse_resolution,
    )
}

/// `r` is what the device makes of host rows: the first fault, or the uploaded rows.
pub open spec fn uploaded_varlen<F, D, U>(
    feats: Vec<F>,
    layout: Seq<Range<usize>>,
    channels: usize,
    upload_rows: U,
    r: Result<VarLenTensorOwned<F, D>, String>,
) -> bool where U: Fn(&Vec<F>, usize, usize) -> D {
    let rows = rows_total(layout, layout.len() as int);
    if feats@.len() != sat(rows * channels) {
        r matches Err(msg) && msg@ == host_features_text(
            "sparse flow concat host feature length mismatch: expected "@,
            rows,
            channels as int,
            feats@.len() as int,
        )
    } else if let Some(fault) = varlen_device_fault(rows, layout) {
        r matches Err(msg) && msg@ == fault.text()
    } else {
        r matches Ok(t) && t.ranges() == layout && t.width() == channels && t.device() is Some
            && t.device()->Some_0.rows == rows && t.device()->Some_0.cols == channels
            && call_ensures(
            upload_rows,
            (&feats, rows as usize, channels),
            t.device()->Some_0.handle,
        )
    }
}

/// Rows from host data: kept on the host, or uploaded to the device.
pub fn varlen_tensor_from_host_layout<F, D, U>(
    backend: RuntimeBackend,
    feats: Vec<F>,
    layout: Vec<Range<usize>>,
    channels: usize,
    upload_rows: U,
) -> (r: Result<VarLenTensorOwned<F, D>, String>) where U: Fn(&Vec<F>, usize, usize) -> D
    requires
        forall|v: &Vec<F>, rows: usize, cols: usize| call_requires(upload_rows, (v, rows, cols)),
        backend == RuntimeBackend::Wgpu ==> rows_total(layout@, layout@.len() as int) <= usize::MAX,
    ensures
        match backend {
            RuntimeBackend::Cpu => match varlen_fault(
                feats@.len() as int,
                layout@,
                channels as int,
            ) {
                None => r matches Ok(t) && t.host() == Some(feats@) && t.device() is None
                    && t.ranges() == layout@ && t.width() == channels,
                Some(fault) => r matches Err(msg) && msg@ == fault.text(),
            },
            RuntimeBackend::Wgpu => uploaded_varlen(feats, layout@, channels, upload_rows, r),
        },
{
    if backend == RuntimeBackend::Cpu {
        return VarLenTensorOwned::from_layout(feats, layout, channels);
    }
    let rows: usize = sum_lengths(&layout);
    if feats.len() != saturating_mul(rows, channels) {
        return Err(
            host_features_message(
                "sparse flow concat host feature length mismatch: expected ",
                rows,
                channels,
                feats.len(),
            ),
        );
    }
    let handle: D = upload_rows(&feats, rows, channels);
    VarLenTensorOwned::from_wgpu_tensor(DeviceTensor { handle, rows, cols: channels }, layout)
}

} // verus!
