//! Batched row tensors of sparse-flow stages, held on the host or on a device.
//!
//! Host elements have any copyable type `F`; a device tensor is a handle of
//! type `D` together with its dimensions.
use crate::layout::{
    check_layout, contiguous, copy_ranges, first_fault, layout_is_sound_iff_contiguous, layout_rows,
    lemma_contiguous_order, sum_rows, LayoutFault,
};
use crate::text::{decimal, in_context, push_u64, push_usize, with_context};
use core::ops::Range;
use vstd::prelude::*;
use vstd::string::*;

verus! {

/// A two-dimensional tensor on a device.
#[derive(Clone, Copy, Debug)]
pub struct DeviceTensor<D> {
    pub handle: D,
    pub rows: usize,
    pub cols: usize,
}

/// Two values for the same device tensor.
pub open spec fn same_device_tensor<D: Clone>(a: DeviceTensor<D>, b: DeviceTensor<D>) -> bool {
    cloned(a.handle, b.handle) && a.rows == b.rows && a.cols == b.cols
}

/// Why a tensor is refused.
#[derive(Clone, Copy, Debug, PartialEq, Eq, Structural)]
pub enum TensorFault {
    /// Rows have no channel.
    ChannelsZero,
    /// The row layout is faulty.
    Layout(LayoutFault),
    /// Rows times channels exceeds the machine's range.
    ElementOverflow,
    /// The number of elements is not rows times channels.
    FeatureLength { expected: usize, rows: usize, channels: usize, got: usize },
    /// The device tensor has another number of rows than the layout.
    DeviceRows { layout_rows: usize, tensor_rows: usize },
    /// The sparse grid has no extent.
    ResolutionZero,
    /// Coordinates and features differ in their number of rows.
    CoordRows { coords: usize, feats_rows: usize },
    /// A coordinate names another batch item than the layout.
    CoordBatch { row: usize, coord_batch: u32, expected_batch: u32 },
    /// A device coordinate tensor without four columns.
    CoordColumns { cols: usize },
    /// Device coordinates and features differ in their number of rows.
    DeviceCoordRows { coords_rows: usize, feats_rows: usize },
}

impl TensorFault {
    /// Description of the fault.
    pub open spec fn text(self) -> Seq<char> {
        match self {
            TensorFault::ChannelsZero => "varlen tensor channels must be > 0"@,
            TensorFault::Layout(fault) => fault.text(),
            TensorFault::ElementOverflow => "varlen tensor element count overflow"@,
            TensorFault::FeatureLength {
                expected,
                rows,
                channels,
                got,
            } => "varlen tensor feature length mismatch: expected "@ + decimal(expected as nat)
                + " (rows="@ + decimal(rows as nat) + " channels="@ + decimal(channels as nat)
                + "), got "@ + decimal(got as nat),
            TensorFault::DeviceRows {
                layout_rows,
                tensor_rows,
            } => "varlen tensor layout rows mismatch: layout_rows="@ + decimal(layout_rows as nat)
                + " tensor_rows="@ + decimal(tensor_rows as nat),
            TensorFault::ResolutionZero => "sparse tensor resolution must be > 0"@,
            TensorFault::CoordRows {
                coords,
                feats_rows,
            } => "sparse tensor row mismatch: coords="@ + decimal(coords as nat) + " feats_rows="@
                + decimal(feats_rows as nat),
            TensorFault::CoordBatch {
                row,
                coord_batch,
                expected_batch,
            } => "sparse tensor layout/coord batch mismatch at row "@ + decimal(row as nat)
                + ": coord_batch="@ + decimal(coord_batch as nat) + " expected="@ + decimal(
                expected_batch as nat,
            ),
            TensorFault::CoordColumns { cols } =>
            "sparse tensor coord tensor must have 4 columns, got "@ + decimal(cols as nat),
            TensorFault::DeviceCoordRows {
                coords_rows,
                feats_rows,
            } => "sparse tensor row mismatch: coords_rows="@ + decimal(coords_rows as nat)
                + " feats_rows="@ + decimal(feats_rows as nat),
        }
    }

    /// Description of the fault.
    pub fn message(&self) -> (r: String)
        ensures
            r@ == self.text(),
    {
        match *self {
            TensorFault::ChannelsZero => "varlen tensor channels must be > 0".to_owned(),
            TensorFault::Layout(fault) => fault.message(),
            TensorFault::ElementOverflow => "varlen tensor element count overflow".to_owned(),
            TensorFault::FeatureLength { expected, rows, channels, got } => {
                let mut out: String = "varlen tensor feature length mismatch: expected ".to_owned();
                push_usize(&mut out, expected);
                out.append(" (rows=");
                push_usize(&mut out, rows);
                out.append(" channels=");
                push_usize(&mut out, channels);
                out.append("), got ");
                push_usize(&mut out, got);
                out
            },
            TensorFault::DeviceRows { layout_rows, tensor_rows } => {
                let mut out: String =
                    "varlen tensor layout rows mismatch: layout_rows=".to_owned();
                push_usize(&mut out, layout_rows);
                out.append(" tensor_rows=");
                push_usize(&mut out, tensor_rows);
                out
            },
            TensorFault::ResolutionZero => "sparse tensor resolution must be > 0".to_owned(),
            TensorFault::CoordRows { coords, feats_rows } => {
                let mut out: String = "sparse tensor row mismatch: coords=".to_owned();
                push_usize(&mut out, coords);
                out.append(" feats_rows=");
                push_usize(&mut out, feats_rows);
                out
            },
            TensorFault::CoordBatch { row, coord_batch, expected_batch } => {
                let mut out: String =
                    "sparse tensor layout/coord batch mismatch at row ".to_owned();
                push_usize(&mut out, row);
                out.append(": coord_batch=");
                push_u64(&mut out, coord_batch as u64);
                out.append(" expected=");
                push_u64(&mut out, expected_batch as u64);
                out
            },
            TensorFault::CoordColumns { cols } => {
                let mut out: String =
                    "sparse tensor coord tensor must have 4 columns, got ".to_owned();
                push_usize(&mut out, cols);
                out
            },
            TensorFault::DeviceCoordRows { coords_rows, feats_rows } => {
                let mut out: String = "sparse tensor row mismatch: coords_rows=".to_owned();
                push_usize(&mut out, coords_rows);
                out.append(" feats_rows=");
                push_usize(&mut out, feats_rows);
                out
            },
        }
    }
}

/// A copy of a list of copyable elements.
pub fn copy_elements<F: Copy>(v: &Vec<F>) -> (r: Vec<F>)
    ensures
        r@ == v@,
{
    let mut out: Vec<F> = Vec::new();
    let mut i: usize = 0;
    while i < v.len()
        invariant
            i <= v.len(),
            out@ == v@.take(i as int),
        decreases v.len() - i,
    {
        out.push(v[i]);
        proof {
            assert(out@ =~= v@.take(i as int + 1));
        }
        i = i + 1;
    }
    assert(v@.take(v@.len() as int) =~= v@);
    out
}

// ---------------------------------------------------------------------------
// Device views
// ---------------------------------------------------------------------------

/// Row layout as offsets and lengths, in the integers that a device holds.
#[derive(Clone, Debug)]
pub struct SparseBatchLayoutDevice {
    pub offsets: Vec<i32>,
    pub lengths: Vec<i32>,
    pub rows: usize,
}

impl SparseBatchLayoutDevice {
    pub fn new(offsets: Vec<i32>, lengths: Vec<i32>, rows: usize) -> (r: Self)
        ensures
            r.offsets == offsets,
            r.lengths == lengths,
            r.rows == rows,
    {
        SparseBatchLayoutDevice { offsets, lengths, rows }
    }

    /// Number of batch items.
    pub fn batch_size(&self) -> (r: usize)
        ensures
            r == self.offsets@.len(),
    {
        self.offsets.len()
    }
}

/// Device-backed rows with their layout.
#[derive(Clone, Debug)]
pub struct VarLenTensorDevice<D> {
    pub values: DeviceTensor<D>,
    pub layout: SparseBatchLayoutDevice,
    pub channels: usize,
}

impl<D> VarLenTensorDevice<D> {
    pub fn new(
        values: DeviceTensor<D>,
        layout: SparseBatchLayoutDevice,
        channels: usize,
    ) -> (r: Self)
        ensures
            r.values == values,
            r.layout == layout,
            r.channels == channels,
    {
        VarLenTensorDevice { values, layout, channels }
    }

    /// Number of rows.
    pub fn rows(&self) -> (r: usize)
        ensures
            r == self.values.rows,
    {
        self.values.rows
    }
}

/// Device-backed coordinates and rows.
#[derive(Clone, Debug)]
pub struct SparseTensorDevice<D, C> {
    pub coords: DeviceTensor<C>,
    pub values: VarLenTensorDevice<D>,
    pub sparse_resolution: usize,
}

impl<D, C> SparseTensorDevice<D, C> {
    pub fn new(
        coords: DeviceTensor<C>,
        values: VarLenTensorDevice<D>,
        sparse_resolution: usize,
    ) -> (r: Self)
        ensures
            r.coords == coords,
            r.values == values,
            r.sparse_resolution == sparse_resolution,
    {
        SparseTensorDevice { coords, values, sparse_resolution }
    }

    /// Number of rows.
    pub fn rows(&self) -> (r: usize)
        ensures
            r == self.coords.rows,
    {
        self.coords.rows
    }
}

/// A layout offset or length too large for a device integer.
#[derive(Clone, Copy, Debug, PartialEq, Eq, Structural)]
pub enum DeviceLayoutFault {
    Offset { batch: usize, value: usize },
    Length { batch: usize, value: usize },
}

impl DeviceLayoutFault {
    /// Description of the fault, without its context.
    pub open spec fn text(self) -> Seq<char> {
        match self {
            DeviceLayoutFault::Offset { batch, value } => "layout offset overflow at batch "@
                + decimal(batch as nat) + ": "@ + decimal(value as nat),
            DeviceLayoutFault::Length { batch, value } => "layout length overflow at batch "@
                + decimal(batch as nat) + ": "@ + decimal(value as nat),
        }
    }

    /// Description of the fault, without its context.
    pub fn message(&self) -> (r: String)
        ensures
            r@ == self.text(),
    {
        match *self {
            DeviceLayoutFault::Offset { batch, value } => {
                let mut out: String = "layout offset overflow at batch ".to_owned();
                push_usize(&mut out, batch);
                out.append(": ");
                push_usize(&mut out, value);
                out
            },
            DeviceLayoutFault::Length { batch, value } => {
                let mut out: String = "layout length overflow at batch ".to_owned();
                push_usize(&mut out, batch);
                out.append(": ");
                push_usize(&mut out, value);
                out
            },
        }
    }
}

/// First range from batch item `i` on that a device integer cannot hold.
pub open spec fn device_fault_from(layout: Seq<Range<usize>>, i: int) -> Option<DeviceLayoutFault>
    decreases layout.len() - i,
{
    if i < 0 || i >= layout.len() {
        None
    } else {
        let r = layout[i];
        if r.start > i32::MAX {
            Some(DeviceLayoutFault::Offset { batch: i as usize, value: r.start })
        } else if r.end - r.start > i32::MAX {
            Some(DeviceLayoutFault::Length { batch: i as usize, value: (r.end - r.start) as usize })
        } else {
            device_fault_from(layout, i + 1)
        }
    }
}

/// `device` lists where the ranges start and how long they are.
pub open spec fn device_layout_of(
    layout: Seq<Range<usize>>,
    device: SparseBatchLayoutDevice,
) -> bool {
    &&& device.offsets@.len() == layout.len()
    &&& device.lengths@.len() == layout.len()
    &&& device.rows == layout_rows(layout)
    &&& forall|i: int|
        0 <= i < layout.len() ==> device.offsets@[i] == (#[trigger] layout[i]).start
            && device.lengths@[i] == layout[i].end - layout[i].start
}

/// Offsets and lengths of a contiguous layout in device integers.
fn device_layout(layout: &Vec<Range<usize>>) -> (r: Result<
    SparseBatchLayoutDevice,
    DeviceLayoutFault,
>)
    requires
        contiguous(layout@),
    ensures
        match (r, device_fault_from(layout@, 0)) {
            (Ok(device), None) => device_layout_of(layout@, device),
            (Err(fault), Some(f)) => fault == f,
            _ => false,
        },
{
    let mut offsets: Vec<i32> = Vec::new();
    let mut lengths: Vec<i32> = Vec::new();
    let mut i: usize = 0;
    while i < layout.len()
        invariant
            i <= layout.len(),
            contiguous(layout@),
            offsets.len() == i,
            lengths.len() == i,
            device_fault_from(layout@, 0) == device_fault_from(layout@, i as int),
            forall|j: int|
                0 <= j < i ==> offsets@[j] == (#[trigger] layout@[j]).start && lengths@[j]
                    == layout@[j].end - layout@[j].start,
        decreases layout.len() - i,
    {
        let start: usize = layout[i].start;
        assert(layout@[i as int].start <= layout@[i as int].end);
        let len: usize = layout[i].end.saturating_sub(start);
        if start > 2_147_483_647 {
            return Err(DeviceLayoutFault::Offset { batch: i, value: start });
        }
        if len > 2_147_483_647 {
            return Err(DeviceLayoutFault::Length { batch: i, value: len });
        }
        offsets.push(start as i32);
        lengths.push(len as i32);
        i = i + 1;
    }
    let rows: usize = sum_rows(layout);
    Ok(SparseBatchLayoutDevice::new(offsets, lengths, rows))
}

// ---------------------------------------------------------------------------
// Rows of variable batch lengths
// ---------------------------------------------------------------------------

/// Rows of `channels` elements, grouped into batch items of variable length.
#[derive(Debug)]
pub struct VarLenTensorOwned<F, D> {
    feats_host: Option<Vec<F>>,
    layout: Vec<Range<usize>>,
    channels: usize,
    feats_wgpu: Option<DeviceTensor<D>>,
}

/// Why a host tensor cannot be built.
pub open spec fn varlen_fault(
    feats_len: int,
    layout: Seq<Range<usize>>,
    channels: int,
) -> Option<TensorFault> {
    let rows = layout_rows(layout);
    if channels == 0 {
        Some(TensorFault::ChannelsZero)
    } else if let Some(fault) = first_fault(layout) {
        Some(TensorFault::Layout(fault))
    } else if rows * channels > usize::MAX {
        Some(TensorFault::ElementOverflow)
    } else if feats_len != rows * channels {
        Some(
            TensorFault::FeatureLength {
                expected: (rows * channels) as usize,
                rows,
                channels: channels as usize,
                got: feats_len as usize,
            },
        )
    } else {
        None
    }
}

/// Why a device tensor of `rows` rows cannot be given a layout.
pub open spec fn varlen_device_fault(rows: int, layout: Seq<Range<usize>>) -> Option<TensorFault> {
    if let Some(fault) = first_fault(layout) {
        Some(TensorFault::Layout(fault))
    } else if layout_rows(layout) != rows {
        Some(
            TensorFault::DeviceRows {
                layout_rows: layout_rows(layout),
                tensor_rows: rows as usize,
            },
        )
    } else {
        None
    }
}

impl<F, D> VarLenTensorOwned<F, D> {
    /// Elements on the host, row by row.
    pub closed spec fn host(self) -> Option<Seq<F>> {
        match self.feats_host {
            Some(v) => Some(v@),
            None => None,
        }
    }

    /// Elements on the device.
    pub closed spec fn device(self) -> Option<DeviceTensor<D>> {
        self.feats_wgpu
    }

    /// Row range of each batch item.
    pub closed spec fn ranges(self) -> Seq<Range<usize>> {
        self.layout@
    }

    /// Elements per row.
    pub closed spec fn width(self) -> usize {
        self.channels
    }

    /// The ranges are contiguous and the elements fill the rows exactly.
    #[verifier::type_invariant]
    pub open spec fn wf(self) -> bool {
        &&& contiguous(self.ranges())
        &&& self.host() matches Some(feats) ==> self.width() > 0 && feats.len() == layout_rows(
            self.ranges(),
        ) * self.width()
        &&& self.device() matches Some(t) ==> t.rows == layout_rows(self.ranges()) && t.cols
            == self.width()
        &&& self.host() is Some != self.device() is Some
    }

    /// A host tensor over a contiguous layout.
    pub fn from_layout(feats: Vec<F>, layout: Vec<Range<usize>>, channels: usize) -> (r: Result<
        Self,
        String,
    >)
        ensures
            match varlen_fault(feats@.len() as int, layout@, channels as int) {
                None => r matches Ok(t) && t.host() == Some(feats@) && t.device() is None
                    && t.ranges() == layout@ && t.width() == channels,
                Some(fault) => r matches Err(msg) && msg@ == fault.text(),
            },
    {
        if channels == 0 {
            return Err(TensorFault::ChannelsZero.message());
        }
        let rows: usize = match check_layout(&layout) {
            Ok(rows) => rows,
            Err(fault) => return Err(TensorFault::Layout(fault).message()),
        };
        let expected: usize = match rows.checked_mul(channels) {
            Some(v) => v,
            None => return Err(TensorFault::ElementOverflow.message()),
        };
        if feats.len() != expected {
            return Err(
                TensorFault::FeatureLength {
                    expected,
                    rows,
                    channels,
                    got: feats.len(),
                }.message(),
            );
        }
        proof {
            layout_is_sound_iff_contiguous(layout@);
        }
        Ok(VarLenTensorOwned { feats_host: Some(feats), layout, channels, feats_wgpu: None })
    }

    /// A device tensor over a contiguous layout of all its rows.
    pub fn from_wgpu_tensor(feats_wgpu: DeviceTensor<D>, layout: Vec<Range<usize>>) -> (r: Result<
        Self,
        String,
    >)
        ensures
            match varlen_device_fault(feats_wgpu.rows as int, layout@) {
                None => r matches Ok(t) && t.host() is None && t.device() == Some(feats_wgpu)
                    && t.ranges() == layout@ && t.width() == feats_wgpu.cols,
                Some(fault) => r matches Err(msg) && msg@ == fault.text(),
            },
    {
        let rows: usize = match check_layout(&layout) {
            Ok(rows) => rows,
            Err(fault) => return Err(TensorFault::Layout(fault).message()),
        };
        if rows != feats_wgpu.rows {
            return Err(
                TensorFault::DeviceRows {
                    layout_rows: rows,
                    tensor_rows: feats_wgpu.rows,
                }.message(),
            );
        }
        proof {
            layout_is_sound_iff_contiguous(layout@);
        }
        let channels: usize = feats_wgpu.cols;
        Ok(VarLenTensorOwned { feats_host: None, layout, channels, feats_wgpu: Some(feats_wgpu) })
    }

    /// Number of rows.
    pub fn rows(&self) -> (r: usize)
        ensures
            r == layout_rows(self.ranges()),
    {
        proof {
            use_type_invariant(self);
        }
        sum_rows(&self.layout)
    }

    /// Elements per row.
    pub fn channels(&self) -> (r: usize)
        ensures
            r == self.width(),
    {
        self.channels
    }

    /// Number of batch items.
    pub fn batch_size(&self) -> (r: usize)
        ensures
            r == self.ranges().len(),
    {
        self.layout.len()
    }

    /// Elements on the host.
    pub fn feats(&self) -> (r: &Vec<F>)
        requires
            self.host() is Some,
        ensures
            self.host() == Some(r@),
    {
        self.feats_host.as_ref().unwrap()
    }

    /// A copy of the elements, where they are on the host.
    pub fn feats_host(&self, context: &str) -> (r: Result<Vec<F>, String>) where F: Copy
        ensures
            match self.host() {
                Some(feats) => r matches Ok(v) && v@ == feats,
                None => r matches Err(msg) && msg@ == in_context(
                    context@,
                    "varlen tensor host readback from device tensor is disabled on canonical sparse path"@,
                ),
            },
    {
        match &self.feats_host {
            Some(v) => Ok(copy_elements(v)),
            None => Err(
                with_context(
                    context,
                    "varlen tensor host readback from device tensor is disabled on canonical sparse path",
                ),
            ),
        }
    }

    /// The device tensor, where there is one.
    pub fn feats_wgpu(&self) -> (r: Option<&DeviceTensor<D>>)
        ensures
            match (r, self.device()) {
                (Some(t), Some(d)) => *t == d,
                (None, None) => true,
                _ => false,
            },
    {
        match &self.feats_wgpu {
            Some(t) => Some(t),
            None => None,
        }
    }

    /// Row range of each batch item.
    pub fn layout(&self) -> (r: &Vec<Range<usize>>)
        ensures
            r@ == self.ranges(),
    {
        &self.layout
    }

    /// A host tensor with the same layout and other elements.
    pub fn replace_feats(&self, feats: Vec<F>, channels: usize) -> (r: Result<Self, String>)
        ensures
            match varlen_fault(feats@.len() as int, self.ranges(), channels as int) {
                None => r matches Ok(t) && t.host() == Some(feats@) && t.device() is None
                    && t.ranges() == self.ranges() && t.width() == channels,
                Some(fault) => r matches Err(msg) && msg@ == fault.text(),
            },
    {
        let layout: Vec<Range<usize>> = copy_ranges(&self.layout);
        Self::from_layout(feats, layout, channels)
    }

    /// Outcome of taking the device tensor with its layout in device integers.
    pub open spec fn device_outcome(
        self,
        context: Seq<char>,
        out: Result<VarLenTensorDevice<D>, String>,
    ) -> bool where D: Clone {
        match (self.device(), device_fault_from(self.ranges(), 0)) {
            (None, _) => out matches Err(msg) && msg@ == in_context(
                context,
                "varlen tensor is host-only; canonical device ownership conversion requires device tensor"@,
            ),
            (Some(_), Some(fault)) => out matches Err(msg) && msg@ == in_context(
                context,
                fault.text(),
            ),
            (Some(t), None) => out matches Ok(device) && same_device_tensor(t, device.values)
                && device_layout_of(self.ranges(), device.layout) && device.channels
                == self.width(),
        }
    }

    /// The device tensor with its layout in device integers.
    pub fn as_device_owned(&self, context: &str) -> (r: Result<VarLenTensorDevice<D>, String>)
        where D: Clone
        ensures
            self.device_outcome(context@, r),
    {
        proof {
            use_type_invariant(self);
        }
        let values: DeviceTensor<D> = match &self.feats_wgpu {
            Some(t) => DeviceTensor { handle: t.handle.clone(), rows: t.rows, cols: t.cols },
            None => return Err(
                with_context(
                    context,
                    "varlen tensor is host-only; canonical device ownership conversion requires device tensor",
                ),
            ),
        };
        match device_layout(&self.layout) {
            Ok(layout) => Ok(VarLenTensorDevice::new(values, layout, self.channels)),
            Err(fault) => Err(with_context(context, fault.message().as_str())),
        }
    }
}

// ---------------------------------------------------------------------------
// Sparse voxels
// ---------------------------------------------------------------------------

/// Voxel rows: a batch item and a grid position each, with features.
#[derive(Debug)]
pub struct SparseTensorOwned<F, D, C> {
    values: VarLenTensorOwned<F, D>,
    coords_host: Option<Vec<[u32; 4]>>,
    sparse_resolution: usize,
    coords_wgpu: Option<DeviceTensor<C>>,
}

/// Row `row` of batch item `i` names another batch item.
pub open spec fn batch_mismatch(
    coords: Seq<[u32; 4]>,
    layout: Seq<Range<usize>>,
    i: int,
    row: int,
) -> bool {
    layout[i].start <= row < layout[i].end && coords[row][0] != i as u32
}

/// First row, in the order of the layout, whose coordinate names another batch item.
pub open spec fn is_first_batch_mismatch(
    coords: Seq<[u32; 4]>,
    layout: Seq<Range<usize>>,
    i: int,
    row: int,
) -> bool {
    &&& 0 <= i < layout.len()
    &&& batch_mismatch(coords, layout, i, row)
    &&& forall|j: int, s: int|
        0 <= j < layout.len() && (j < i || (j == i && s < row)) ==> !(#[trigger] batch_mismatch(
            coords,
            layout,
            j,
            s,
        ))
}

/// Every row's coordinate names the batch item that the layout puts it in.
pub open spec fn batches_agree(coords: Seq<[u32; 4]>, layout: Seq<Range<usize>>) -> bool {
    forall|i: int, row: int|
        0 <= i < layout.len() ==> !(#[trigger] batch_mismatch(coords, layout, i, row))
}

/// First row whose coordinate names another batch item, with the item it lies in.
fn first_batch_mismatch(coords: &Vec<[u32; 4]>, layout: &Vec<Range<usize>>) -> (r: Option<
    (usize, usize),
>)
    requires
        contiguous(layout@),
        coords@.len() == layout_rows(layout@),
    ensures
        match r {
            Some((batch, row)) => row < coords@.len() && is_first_batch_mismatch(
                coords@,
                layout@,
                batch as int,
                row as int,
            ),
            None => batches_agree(coords@, layout@),
        },
{
    let mut batch: usize = 0;
    while batch < layout.len()
        invariant
            batch <= layout.len(),
            contiguous(layout@),
            coords.len() == layout_rows(layout@),
            forall|j: int, s: int|
                0 <= j < batch ==> !(#[trigger] batch_mismatch(coords@, layout@, j, s)),
        decreases layout.len() - batch,
    {
        let expected: u32 = #[verifier::truncate]
        (batch as u32);
        let start: usize = layout[batch].start;
        let end: usize = layout[batch].end;
        proof {
            assert(layout@[batch as int].start <= layout@[batch as int].end);
            lemma_contiguous_order(layout@, batch as int + 1, layout@.len() as int);
        }
        let mut row: usize = start;
        while row < end
            invariant
                batch < layout.len(),
                start <= row <= end <= coords.len(),
                start == layout@[batch as int].start,
                end == layout@[batch as int].end,
                expected == batch as u32,
                forall|j: int, s: int|
                    0 <= j < batch ==> !(#[trigger] batch_mismatch(coords@, layout@, j, s)),
                forall|s: int|
                    s < row ==> !(#[trigger] batch_mismatch(coords@, layout@, batch as int, s)),
            decreases end - row,
        {
            if coords[row][0] != expected {
                assert(batch_mismatch(coords@, layout@, batch as int, row as int));
                return Some((batch, row));
            }
            row = row + 1;
        }
        batch = batch + 1;
    }
    None
}

/// `fault` is why a host sparse tensor cannot be built; `None` where it can.
pub open spec fn sparse_fault(
    coords: Seq<[u32; 4]>,
    feats_len: int,
    layout: Seq<Range<usize>>,
    channels: int,
    resolution: int,
    fault: Option<TensorFault>,
) -> bool {
    if resolution == 0 {
        fault == Some(TensorFault::ResolutionZero)
    } else if varlen_fault(feats_len, layout, channels) is Some {
        fault == varlen_fault(feats_len, layout, channels)
    } else if layout_rows(layout) != coords.len() {
        fault == Some(
            TensorFault::CoordRows {
                coords: coords.len() as usize,
                feats_rows: layout_rows(layout),
            },
        )
    } else if batches_agree(coords, layout) {
        fault is None
    } else {
        exists|i: int, row: int|
            #[trigger] is_first_batch_mismatch(coords, layout, i, row) && fault == Some(
                TensorFault::CoordBatch {
                    row: row as usize,
                    coord_batch: coords[row][0],
                    expected_batch: i as u32,
                },
            )
    }
}

/// Why device coordinates cannot be joined to given rows.
pub open spec fn sparse_device_fault(
    rows: int,
    cols: int,
    values_rows: int,
    resolution: int,
) -> Option<TensorFault> {
    if resolution == 0 {
        Some(TensorFault::ResolutionZero)
    } else if cols != 4 {
        Some(TensorFault::CoordColumns { cols: cols as usize })
    } else if values_rows != rows {
        Some(
            TensorFault::DeviceCoordRows {
                coords_rows: rows as usize,
                feats_rows: values_rows as usize,
            },
        )
    } else {
        None
    }
}

impl<F, D, C> SparseTensorOwned<F, D, C> {
    /// The rows' features.
    pub closed spec fn rows_tensor(self) -> VarLenTensorOwned<F, D> {
        self.values
    }

    /// Coordinates on the host: batch item, then grid position.
    pub closed spec fn host_coords(self) -> Option<Seq<[u32; 4]>> {
        match self.coords_host {
            Some(v) => Some(v@),
            None => None,
        }
    }

    /// Coordinates on the device.
    pub closed spec fn device_coords(self) -> Option<DeviceTensor<C>> {
        self.coords_wgpu
    }

    /// Extent of the grid.
    pub closed spec fn resolution(self) -> usize {
        self.sparse_resolution
    }

    /// One coordinate per row, each naming the batch item of its row.
    #[verifier::type_invariant]
    pub open spec fn wf(self) -> bool {
        let layout = self.rows_tensor().ranges();
        &&& self.rows_tensor().wf()
        &&& self.resolution() > 0
        &&& self.host_coords() matches Some(coords) ==> coords.len() == layout_rows(layout)
            && batches_agree(coords, layout)
        &&& self.device_coords() matches Some(t) ==> t.rows == layout_rows(layout) && t.cols == 4
        &&& self.host_coords() is Some != self.device_coords() is Some
    }

    /// A host tensor of voxel rows.
    pub fn from_layout(
        coords: Vec<[u32; 4]>,
        feats: Vec<F>,
        layout: Vec<Range<usize>>,
        channels: usize,
        sparse_resolution: usize,
    ) -> (r: Result<Self, String>)
        ensures
            exists|fault: Option<TensorFault>| #[trigger]
                sparse_fault(
                    coords@,
                    feats@.len() as int,
                    layout@,
                    channels as int,
                    sparse_resolution as int,
                    fault,
                ) && match fault {
                    None => r matches Ok(t) && t.host_coords() == Some(coords@)
                        && t.device_coords() is None && t.resolution() == sparse_resolution
                        && t.rows_tensor().host() == Some(feats@) && t.rows_tensor().ranges()
                        == layout@ && t.rows_tensor().width() == channels,
                    Some(f) => r matches Err(msg) && msg@ == f.text(),
                },
    {
        let ghost feats_len = feats@.len() as int;
        let ghost res = sparse_resolution as int;
        let ghost chans = channels as int;
        if sparse_resolution == 0 {
            let fault: TensorFault = TensorFault::ResolutionZero;
            assert(sparse_fault(coords@, feats_len, layout@, chans, res, Some(fault)));
            return Err(fault.message());
        }
        let values: VarLenTensorOwned<F, D> = match VarLenTensorOwned::from_layout(
            feats,
            copy_ranges(&layout),
            channels,
        ) {
            Ok(values) => values,
            Err(msg) => {
                proof {
                    let fault = varlen_fault(feats_len, layout@, chans);
                    assert(sparse_fault(coords@, feats_len, layout@, chans, res, fault));
                }
                return Err(msg);
            },
        };
        proof {
            use_type_invariant(&values);
        }
        let rows: usize = values.rows();
        if rows != coords.len() {
            let fault: TensorFault = TensorFault::CoordRows {
                coords: coords.len(),
                feats_rows: rows,
            };
            assert(sparse_fault(coords@, feats_len, layout@, chans, res, Some(fault)));
            return Err(fault.message());
        }
        match first_batch_mismatch(&coords, &layout) {
            Some((batch, row)) => {
                let expected_batch: u32 = #[verifier::truncate]
                (batch as u32);
                let fault: TensorFault = TensorFault::CoordBatch {
                    row,
                    coord_batch: coords[row][0],
                    expected_batch,
                };
                proof {
                    assert(batch_mismatch(coords@, layout@, batch as int, row as int));
                    assert(!batches_agree(coords@, layout@));
                    assert(is_first_batch_mismatch(coords@, layout@, batch as int, row as int));
                    assert(sparse_fault(coords@, feats_len, layout@, chans, res, Some(fault)));
                }
                return Err(fault.message());
            },
            None => {
                assert(sparse_fault(coords@, feats_len, layout@, chans, res, None));
            },
        }
        Ok(
            SparseTensorOwned {
                values,
                coords_host: Some(coords),
                sparse_resolution,
                coords_wgpu: None,
            },
        )
    }

    /// A tensor of voxel rows with device coordinates.
    pub fn from_wgpu_tensors(
        coords_wgpu: DeviceTensor<C>,
        values: VarLenTensorOwned<F, D>,
        sparse_resolution: usize,
    ) -> (r: Result<Self, String>)
        ensures
            match sparse_device_fault(
                coords_wgpu.rows as int,
                coords_wgpu.cols as int,
                layout_rows(values.ranges()) as int,
                sparse_resolution as int,
            ) {
                None => r matches Ok(t) && t.host_coords() is None && t.device_coords() == Some(
                    coords_wgpu,
                ) && t.rows_tensor() == values && t.resolution() == sparse_resolution,
                Some(fault) => r matches Err(msg) && msg@ == fault.text(),
            },
    {
        if sparse_resolution == 0 {
            return Err(TensorFault::ResolutionZero.message());
        }
        if coords_wgpu.cols != 4 {
            return Err(TensorFault::CoordColumns { cols: coords_wgpu.cols }.message());
        }
        let feats_rows: usize = values.rows();
        if feats_rows != coords_wgpu.rows {
            return Err(
                TensorFault::DeviceCoordRows {
                    coords_rows: coords_wgpu.rows,
                    feats_rows,
                }.message(),
            );
        }
        proof {
            use_type_invariant(&values);
        }
        Ok(
            SparseTensorOwned {
                values,
                coords_host: None,
                sparse_resolution,
                coords_wgpu: Some(coords_wgpu),
            },
        )
    }

    /// Number of rows.
    pub fn rows(&self) -> (r: usize)
        ensures
            r == layout_rows(self.rows_tensor().ranges()),
    {
        self.values.rows()
    }

    /// Elements per row.
    pub fn channels(&self) -> (r: usize)
        ensures
            r == self.rows_tensor().width(),
    {
        self.values.channels()
    }

    /// Number of batch items.
    pub fn batch_size(&self) -> (r: usize)
        ensures
            r == self.rows_tensor().ranges().len(),
    {
        self.values.batch_size()
    }

    /// Row range of each batch item.
    pub fn layout(&self) -> (r: &Vec<Range<usize>>)
        ensures
            r@ == self.rows_tensor().ranges(),
    {
        self.values.layout()
    }

    /// The rows' features.
    pub fn values(&self) -> (r: &VarLenTensorOwned<F, D>)
        ensures
            *r == self.rows_tensor(),
    {
        &self.values
    }

    /// Coordinates on the host.
    pub fn coords(&self) -> (r: &Vec<[u32; 4]>)
        requires
            self.host_coords() is Some,
        ensures
            self.host_coords() == Some(r@),
    {
        self.coords_host.as_ref().unwrap()
    }

    /// A copy of the coordinates, where they are on the host.
    pub fn coords_host(&self, context: &str) -> (r: Result<Vec<[u32; 4]>, String>)
        ensures
            match self.host_coords() {
                Some(coords) => r matches Ok(v) && v@ == coords,
                None => r matches Err(msg) && msg@ == in_context(
                    context@,
                    "sparse tensor host readback from device coords is disabled on canonical sparse path"@,
                ),
            },
    {
        match &self.coords_host {
            Some(v) => Ok(copy_elements(v)),
            None => Err(
                with_context(
                    context,
                    "sparse tensor host readback from device coords is disabled on canonical sparse path",
                ),
            ),
        }
    }

    /// The device coordinates, where there are any.
    pub fn coords_wgpu(&self) -> (r: Option<&DeviceTensor<C>>)
        ensures
            match (r, self.device_coords()) {
                (Some(t), Some(d)) => *t == d,
                (None, None) => true,
                _ => false,
            },
    {
        match &self.coords_wgpu {
            Some(t) => Some(t),
            None => None,
        }
    }

    /// Features on the host.
    pub fn feats(&self) -> (r: &Vec<F>)
        requires
            self.rows_tensor().host() is Some,
        ensures
            self.rows_tensor().host() == Some(r@),
    {
        self.values.feats()
    }

    /// A copy of the features, where they are on the host.
    pub fn feats_host(&self, context: &str) -> (r: Result<Vec<F>, String>) where F: Copy
        ensures
            match self.rows_tensor().host() {
                Some(feats) => r matches Ok(v) && v@ == feats,
                None => r matches Err(msg) && msg@ == in_context(
                    context@,
                    "varlen tensor host readback from device tensor is disabled on canonical sparse path"@,
                ),
            },
    {
        self.values.feats_host(context)
    }

    /// Extent of the grid.
    pub fn sparse_resolution(&self) -> (r: usize)
        ensures
            r == self.resolution(),
            r > 0,
    {
        proof {
            use_type_invariant(self);
        }
        self.sparse_resolution
    }

    /// Outcome of taking the device tensors with their layout in device integers.
    pub open spec fn device_outcome(
        self,
        context: Seq<char>,
        out: Result<SparseTensorDevice<D, C>, String>,
    ) -> bool where D: Clone, C: Clone {
        match (
            self.device_coords(),
            self.rows_tensor().device(),
            device_fault_from(self.rows_tensor().ranges(), 0),
        ) {
            (None, _, _) => out matches Err(msg) && msg@ == in_context(
                context,
                "sparse tensor is host-only; canonical device ownership conversion requires coord tensor"@,
            ),
            (Some(_), None, _) => out matches Err(msg) && msg@ == in_context(
                context,
                "varlen tensor is host-only; canonical device ownership conversion requires device tensor"@,
            ),
            (Some(_), Some(_), Some(fault)) => out matches Err(msg) && msg@ == in_context(
                context,
                fault.text(),
            ),
            (Some(c), Some(t), None) => out matches Ok(device) && same_device_tensor(
                c,
                device.coords,
            ) && same_device_tensor(t, device.values.values) && device_layout_of(
                self.rows_tensor().ranges(),
                device.values.layout,
            ) && device.values.channels == self.rows_tensor().width() && device.sparse_resolution
                == self.resolution(),
        }
    }

    /// The device tensors with their layout in device integers.
    pub fn as_device_owned(&self, context: &str) -> (r: Result<SparseTensorDevice<D, C>, String>)
        where D: Clone, C: Clone
        ensures
            self.device_outcome(context@, r),
    {
        let coords: DeviceTensor<C> = match &self.coords_wgpu {
            Some(t) => DeviceTensor { handle: t.handle.clone(), rows: t.rows, cols: t.cols },
            None => return Err(
                with_context(
                    context,
                    "sparse tensor is host-only; canonical device ownership conversion requires coord tensor",
                ),
            ),
        };
        match self.values.as_device_owned(context) {
            Ok(values) => Ok(SparseTensorDevice::new(coords, values, self.sparse_resolution)),
            Err(msg) => Err(msg),
        }
    }
}

} // verus!
