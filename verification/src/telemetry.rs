//! Counters of the sparse-flow runtime: host readbacks and timed operations.
//!
//! The counters of a process are one value of these types; whoever owns it
//! hands it to the functions that read, reset and advance it.
use vstd::prelude::*;
use vstd::std_specs::convert::FromSpecImpl;

verus! {

/// Readbacks of device tensors to host memory.
#[derive(Clone, Copy, Debug, PartialEq, Eq, Structural)]
pub struct HostTransferStats {
    pub readback_count: u64,
    pub readback_elements: u64,
}

/// Calls and nanoseconds of the timed sparse-flow operations.
#[derive(Clone, Copy, Debug, PartialEq, Eq, Structural)]
pub struct SparseFlowOpTelemetry {
    pub self_attn_calls: u64,
    pub self_attn_ns: u64,
    pub cross_attn_calls: u64,
    pub cross_attn_ns: u64,
    pub mlp_calls: u64,
    pub mlp_ns: u64,
    pub self_qkv_calls: u64,
    pub self_qkv_ns: u64,
    pub self_norm_rope_calls: u64,
    pub self_norm_rope_ns: u64,
    pub self_norm_rope_fused_qk_calls: u64,
    pub self_norm_rope_fused_qkv_module_calls: u64,
    pub self_kernel_calls: u64,
    pub self_kernel_ns: u64,
    pub self_out_calls: u64,
    pub self_out_ns: u64,
    pub self_cat_calls: u64,
    pub self_cat_ns: u64,
    pub cross_q_calls: u64,
    pub cross_q_ns: u64,
    pub cross_kv_calls: u64,
    pub cross_kv_ns: u64,
    pub cross_norm_calls: u64,
    pub cross_norm_ns: u64,
    pub cross_kernel_calls: u64,
    pub cross_kernel_ns: u64,
    pub cross_out_calls: u64,
    pub cross_out_ns: u64,
    pub cross_cat_calls: u64,
    pub cross_cat_ns: u64,
    pub module_cast_pad_calls: u64,
    pub module_cast_pad_ns: u64,
    pub module_attention_calls: u64,
    pub module_attention_ns: u64,
    pub module_output_calls: u64,
    pub module_output_ns: u64,
    pub block_norm_mod_calls: u64,
    pub block_norm_mod_ns: u64,
    pub block_norm_affine_calls: u64,
    pub block_norm_affine_ns: u64,
    pub block_gate_residual_calls: u64,
    pub block_gate_residual_ns: u64,
    pub model_io_calls: u64,
    pub model_io_ns: u64,
    pub model_input_calls: u64,
    pub model_input_ns: u64,
    pub model_output_calls: u64,
    pub model_output_ns: u64,
}

/// Calls and nanoseconds of the timed sparse-flow operations of one pipeline stage.
#[derive(Clone, Copy, Debug, PartialEq, Eq, Structural)]
pub struct SparseFlowOpTimingSummary {
    pub self_attn_calls: u64,
    pub self_attn_ns: u64,
    pub cross_attn_calls: u64,
    pub cross_attn_ns: u64,
    pub mlp_calls: u64,
    pub mlp_ns: u64,
    pub self_qkv_calls: u64,
    pub self_qkv_ns: u64,
    pub self_norm_rope_calls: u64,
    pub self_norm_rope_ns: u64,
    pub self_norm_rope_fused_qk_calls: u64,
    pub self_norm_rope_fused_qkv_module_calls: u64,
    pub self_kernel_calls: u64,
    pub self_kernel_ns: u64,
    pub self_out_calls: u64,
    pub self_out_ns: u64,
    pub self_cat_calls: u64,
    pub self_cat_ns: u64,
    pub cross_q_calls: u64,
    pub cross_q_ns: u64,
    pub cross_kv_calls: u64,
    pub cross_kv_ns: u64,
    pub cross_norm_calls: u64,
    pub cross_norm_ns: u64,
    pub cross_kernel_calls: u64,
    pub cross_kernel_ns: u64,
    pub cross_out_calls: u64,
    pub cross_out_ns: u64,
    pub cross_cat_calls: u64,
    pub cross_cat_ns: u64,
    pub module_cast_pad_calls: u64,
    pub module_cast_pad_ns: u64,
    pub module_attention_calls: u64,
    pub module_attention_ns: u64,
    pub module_output_calls: u64,
    pub module_output_ns: u64,
    pub block_norm_mod_calls: u64,
    pub block_norm_mod_ns: u64,
    pub block_norm_affine_calls: u64,
    pub block_norm_affine_ns: u64,
    pub block_gate_residual_calls: u64,
    pub block_gate_residual_ns: u64,
    pub model_io_calls: u64,
    pub model_io_ns: u64,
    pub model_input_calls: u64,
    pub model_input_ns: u64,
    pub model_output_calls: u64,
    pub model_output_ns: u64,
}

/// Whole operations that are timed.
#[derive(Clone, Copy, Debug, PartialEq, Eq, Structural)]
pub enum SparseFlowOpKind {
    SelfAttn,
    CrossAttn,
    Mlp,
}

/// Parts of operations that are timed.
#[derive(Clone, Copy, Debug, PartialEq, Eq, Structural)]
pub enum SparseFlowOpDetailKind {
    SelfQkv,
    SelfNormRope,
    SelfKernel,
    SelfOut,
    SelfCat,
    CrossQ,
    CrossKv,
    CrossNorm,
    CrossKernel,
    CrossOut,
    CrossCat,
    ModuleCastPad,
    ModuleAttention,
    ModuleOutput,
    BlockNormMod,
    BlockNormAffine,
    BlockGateResidual,
    ModelIo,
    ModelInput,
    ModelOutput,
}

/// Kernels that normalize and rotate queries and keys in one launch.
#[derive(Clone, Copy, Debug, PartialEq, Eq, Structural)]
pub enum FusedNormRope {
    /// Queries and keys.
    Qk,
    /// Queries, keys and values in module layout.
    QkvModule,
}

/// Everything that is counted: an operation, a part of one, or a fused launch.
pub enum FlowCounter {
    Op(SparseFlowOpKind),
    Detail(SparseFlowOpDetailKind),
    Fused(FusedNormRope),
}

/// Sum of two counters, wrapping at 64 bits.
pub open spec fn wrapping_sum(a: u64, b: u64) -> u64 {
    ((a + b) % 0x1_0000_0000_0000_0000) as u64
}

/// Sum of two counters, wrapping at 64 bits.
pub fn counter_add(a: u64, b: u64) -> (r: u64)
    ensures
        r == wrapping_sum(a, b),
        a + b <= u64::MAX ==> r == a + b,
{
    a.wrapping_add(b)
}

impl HostTransferStats {
    /// Stats of a process without readbacks.
    pub open spec fn zero() -> Self {
        HostTransferStats { readback_count: 0, readback_elements: 0 }
    }
}

impl Default for HostTransferStats {
    fn default() -> (r: Self)
        ensures
            r == HostTransferStats::zero(),
    {
        HostTransferStats { readback_count: 0, readback_elements: 0 }
    }
}

impl SparseFlowOpTelemetry {
    /// Calls and nanoseconds of one counter; fused launches are not timed.
    pub open spec fn entry(self, counter: FlowCounter) -> (u64, u64) {
        match counter {
            FlowCounter::Op(kind) => match kind {
                SparseFlowOpKind::SelfAttn => (self.self_attn_calls, self.self_attn_ns),
                SparseFlowOpKind::CrossAttn => (self.cross_attn_calls, self.cross_attn_ns),
                SparseFlowOpKind::Mlp => (self.mlp_calls, self.mlp_ns),
            },
            FlowCounter::Detail(kind) => match kind {
                SparseFlowOpDetailKind::SelfQkv => (self.self_qkv_calls, self.self_qkv_ns),
                SparseFlowOpDetailKind::SelfNormRope => (self.self_norm_rope_calls, self.self_norm_rope_ns),
                SparseFlowOpDetailKind::SelfKernel => (self.self_kernel_calls, self.self_kernel_ns),
                SparseFlowOpDetailKind::SelfOut => (self.self_out_calls, self.self_out_ns),
                SparseFlowOpDetailKind::SelfCat => (self.self_cat_calls, self.self_cat_ns),
                SparseFlowOpDetailKind::CrossQ => (self.cross_q_calls, self.cross_q_ns),
                SparseFlowOpDetailKind::CrossKv => (self.cross_kv_calls, self.cross_kv_ns),
                SparseFlowOpDetailKind::CrossNorm => (self.cross_norm_calls, self.cross_norm_ns),
                SparseFlowOpDetailKind::CrossKernel => (self.cross_kernel_calls, self.cross_kernel_ns),
                SparseFlowOpDetailKind::CrossOut => (self.cross_out_calls, self.cross_out_ns),
                SparseFlowOpDetailKind::CrossCat => (self.cross_cat_calls, self.cross_cat_ns),
                SparseFlowOpDetailKind::ModuleCastPad => (self.module_cast_pad_calls, self.module_cast_pad_ns),
                SparseFlowOpDetailKind::ModuleAttention => (self.module_attention_calls, self.module_attention_ns),
                SparseFlowOpDetailKind::ModuleOutput => (self.module_output_calls, self.module_output_ns),
                SparseFlowOpDetailKind::BlockNormMod => (self.block_norm_mod_calls, self.block_norm_mod_ns),
                SparseFlowOpDetailKind::BlockNormAffine => (self.block_norm_affine_calls, self.block_norm_affine_ns),
                SparseFlowOpDetailKind::BlockGateResidual => (self.block_gate_residual_calls, self.block_gate_residual_ns),
                SparseFlowOpDetailKind::ModelIo => (self.model_io_calls, self.model_io_ns),
                SparseFlowOpDetailKind::ModelInput => (self.model_input_calls, self.model_input_ns),
                SparseFlowOpDetailKind::ModelOutput => (self.model_output_calls, self.model_output_ns),
            },
            FlowCounter::Fused(kind) => match kind {
                FusedNormRope::Qk => (self.self_norm_rope_fused_qk_calls, 0),
                FusedNormRope::QkvModule => (self.self_norm_rope_fused_qkv_module_calls, 0),
            },
        }
    }

    /// `self` with one more call, of `elapsed_ns` nanoseconds, on one counter.
    pub open spec fn advanced(
        self,
        later: SparseFlowOpTelemetry,
        counter: FlowCounter,
        elapsed_ns: u64,
    ) -> bool {
        &&& later.entry(counter) == (
            wrapping_sum(self.entry(counter).0, 1),
            wrapping_sum(self.entry(counter).1, elapsed_ns),
        )
        &&& forall|other: FlowCounter|
            other != counter ==> #[trigger] later.entry(other) == self.entry(other)
    }

    /// Telemetry of a process that has run no operation.
    pub open spec fn zero() -> Self {
        SparseFlowOpTelemetry {
            self_attn_calls: 0,
            self_attn_ns: 0,
            cross_attn_calls: 0,
            cross_attn_ns: 0,
            mlp_calls: 0,
            mlp_ns: 0,
            self_qkv_calls: 0,
            self_qkv_ns: 0,
            self_norm_rope_calls: 0,
            self_norm_rope_ns: 0,
            self_norm_rope_fused_qk_calls: 0,
            self_norm_rope_fused_qkv_module_calls: 0,
            self_kernel_calls: 0,
            self_kernel_ns: 0,
            self_out_calls: 0,
            self_out_ns: 0,
            self_cat_calls: 0,
            self_cat_ns: 0,
            cross_q_calls: 0,
            cross_q_ns: 0,
            cross_kv_calls: 0,
            cross_kv_ns: 0,
            cross_norm_calls: 0,
            cross_norm_ns: 0,
            cross_kernel_calls: 0,
            cross_kernel_ns: 0,
            cross_out_calls: 0,
            cross_out_ns: 0,
            cross_cat_calls: 0,
            cross_cat_ns: 0,
            module_cast_pad_calls: 0,
            module_cast_pad_ns: 0,
            module_attention_calls: 0,
            module_attention_ns: 0,
            module_output_calls: 0,
            module_output_ns: 0,
            block_norm_mod_calls: 0,
            block_norm_mod_ns: 0,
            block_norm_affine_calls: 0,
            block_norm_affine_ns: 0,
            block_gate_residual_calls: 0,
            block_gate_residual_ns: 0,
            model_io_calls: 0,
            model_io_ns: 0,
            model_input_calls: 0,
            model_input_ns: 0,
            model_output_calls: 0,
            model_output_ns: 0,
        }
    }
}

impl Default for SparseFlowOpTelemetry {
    fn default() -> (r: Self)
        ensures
            r == SparseFlowOpTelemetry::zero(),
    {
        SparseFlowOpTelemetry {
            self_attn_calls: 0,
            self_attn_ns: 0,
            cross_attn_calls: 0,
            cross_attn_ns: 0,
            mlp_calls: 0,
            mlp_ns: 0,
            self_qkv_calls: 0,
            self_qkv_ns: 0,
            self_norm_rope_calls: 0,
            self_norm_rope_ns: 0,
            self_norm_rope_fused_qk_calls: 0,
            self_norm_rope_fused_qkv_module_calls: 0,
            self_kernel_calls: 0,
            self_kernel_ns: 0,
            self_out_calls: 0,
            self_out_ns: 0,
            self_cat_calls: 0,
            self_cat_ns: 0,
            cross_q_calls: 0,
            cross_q_ns: 0,
            cross_kv_calls: 0,
            cross_kv_ns: 0,
            cross_norm_calls: 0,
            cross_norm_ns: 0,
            cross_kernel_calls: 0,
            cross_kernel_ns: 0,
            cross_out_calls: 0,
            cross_out_ns: 0,
            cross_cat_calls: 0,
            cross_cat_ns: 0,
            module_cast_pad_calls: 0,
            module_cast_pad_ns: 0,
            module_attention_calls: 0,
            module_attention_ns: 0,
            module_output_calls: 0,
            module_output_ns: 0,
            block_norm_mod_calls: 0,
            block_norm_mod_ns: 0,
            block_norm_affine_calls: 0,
            block_norm_affine_ns: 0,
            block_gate_residual_calls: 0,
            block_gate_residual_ns: 0,
            model_io_calls: 0,
            model_io_ns: 0,
            model_input_calls: 0,
            model_input_ns: 0,
            model_output_calls: 0,
            model_output_ns: 0,
        }
    }
}

impl SparseFlowOpTimingSummary {
    /// The summary of given telemetry: the same counters.
    pub open spec fn of(value: SparseFlowOpTelemetry) -> Self {
        SparseFlowOpTimingSummary {
            self_attn_calls: value.self_attn_calls,
            self_attn_ns: value.self_attn_ns,
            cross_attn_calls: value.cross_attn_calls,
            cross_attn_ns: value.cross_attn_ns,
            mlp_calls: value.mlp_calls,
            mlp_ns: value.mlp_ns,
            self_qkv_calls: value.self_qkv_calls,
            self_qkv_ns: value.self_qkv_ns,
            self_norm_rope_calls: value.self_norm_rope_calls,
            self_norm_rope_ns: value.self_norm_rope_ns,
            self_norm_rope_fused_qk_calls: value.self_norm_rope_fused_qk_calls,
            self_norm_rope_fused_qkv_module_calls: value.self_norm_rope_fused_qkv_module_calls,
            self_kernel_calls: value.self_kernel_calls,
            self_kernel_ns: value.self_kernel_ns,
            self_out_calls: value.self_out_calls,
            self_out_ns: value.self_out_ns,
            self_cat_calls: value.self_cat_calls,
            self_cat_ns: value.self_cat_ns,
            cross_q_calls: value.cross_q_calls,
            cross_q_ns: value.cross_q_ns,
            cross_kv_calls: value.cross_kv_calls,
            cross_kv_ns: value.cross_kv_ns,
            cross_norm_calls: value.cross_norm_calls,
            cross_norm_ns: value.cross_norm_ns,
            cross_kernel_calls: value.cross_kernel_calls,
            cross_kernel_ns: value.cross_kernel_ns,
            cross_out_calls: value.cross_out_calls,
            cross_out_ns: value.cross_out_ns,
            cross_cat_calls: value.cross_cat_calls,
            cross_cat_ns: value.cross_cat_ns,
            module_cast_pad_calls: value.module_cast_pad_calls,
            module_cast_pad_ns: value.module_cast_pad_ns,
            module_attention_calls: value.module_attention_calls,
            module_attention_ns: value.module_attention_ns,
            module_output_calls: value.module_output_calls,
            module_output_ns: value.module_output_ns,
            block_norm_mod_calls: value.block_norm_mod_calls,
            block_norm_mod_ns: value.block_norm_mod_ns,
            block_norm_affine_calls: value.block_norm_affine_calls,
            block_norm_affine_ns: value.block_norm_affine_ns,
            block_gate_residual_calls: value.block_gate_residual_calls,
            block_gate_residual_ns: value.block_gate_residual_ns,
            model_io_calls: value.model_io_calls,
            model_io_ns: value.model_io_ns,
            model_input_calls: value.model_input_calls,
            model_input_ns: value.model_input_ns,
            model_output_calls: value.model_output_calls,
            model_output_ns: value.model_output_ns,
        }
    }
}

impl Default for SparseFlowOpTimingSummary {
    fn default() -> (r: Self)
        ensures
            r == SparseFlowOpTimingSummary::of(SparseFlowOpTelemetry::zero()),
    {
        SparseFlowOpTimingSummary {
            self_attn_calls: 0,
            self_attn_ns: 0,
            cross_attn_calls: 0,
            cross_attn_ns: 0,
            mlp_calls: 0,
            mlp_ns: 0,
            self_qkv_calls: 0,
            self_qkv_ns: 0,
            self_norm_rope_calls: 0,
            self_norm_rope_ns: 0,
            self_norm_rope_fused_qk_calls: 0,
            self_norm_rope_fused_qkv_module_calls: 0,
            self_kernel_calls: 0,
            self_kernel_ns: 0,
            self_out_calls: 0,
            self_out_ns: 0,
            self_cat_calls: 0,
            self_cat_ns: 0,
            cross_q_calls: 0,
            cross_q_ns: 0,
            cross_kv_calls: 0,
            cross_kv_ns: 0,
            cross_norm_calls: 0,
            cross_norm_ns: 0,
            cross_kernel_calls: 0,
            cross_kernel_ns: 0,
            cross_out_calls: 0,
            cross_out_ns: 0,
            cross_cat_calls: 0,
            cross_cat_ns: 0,
            module_cast_pad_calls: 0,
            module_cast_pad_ns: 0,
            module_attention_calls: 0,
            module_attention_ns: 0,
            module_output_calls: 0,
            module_output_ns: 0,
            block_norm_mod_calls: 0,
            block_norm_mod_ns: 0,
            block_norm_affine_calls: 0,
            block_norm_affine_ns: 0,
            block_gate_residual_calls: 0,
            block_gate_residual_ns: 0,
            model_io_calls: 0,
            model_io_ns: 0,
            model_input_calls: 0,
            model_input_ns: 0,
            model_output_calls: 0,
            model_output_ns: 0,
        }
    }
}

impl FromSpecImpl<SparseFlowOpTelemetry> for SparseFlowOpTimingSummary {
    open spec fn obeys_from_spec() -> bool {
        true
    }

    open spec fn from_spec(value: SparseFlowOpTelemetry) -> Self {
        SparseFlowOpTimingSummary::of(value)
    }
}

impl From<SparseFlowOpTelemetry> for SparseFlowOpTimingSummary {
    fn from(value: SparseFlowOpTelemetry) -> (r: Self) {
        SparseFlowOpTimingSummary {
            self_attn_calls: value.self_attn_calls,
            self_attn_ns: value.self_attn_ns,
            cross_attn_calls: value.cross_attn_calls,
            cross_attn_ns: value.cross_attn_ns,
            mlp_calls: value.mlp_calls,
            mlp_ns: value.mlp_ns,
            self_qkv_calls: value.self_qkv_calls,
            self_qkv_ns: value.self_qkv_ns,
            self_norm_rope_calls: value.self_norm_rope_calls,
            self_norm_rope_ns: value.self_norm_rope_ns,
            self_norm_rope_fused_qk_calls: value.self_norm_rope_fused_qk_calls,
            self_norm_rope_fused_qkv_module_calls: value.self_norm_rope_fused_qkv_module_calls,
            self_kernel_calls: value.self_kernel_calls,
            self_kernel_ns: value.self_kernel_ns,
            self_out_calls: value.self_out_calls,
            self_out_ns: value.self_out_ns,
            self_cat_calls: value.self_cat_calls,
            self_cat_ns: value.self_cat_ns,
            cross_q_calls: value.cross_q_calls,
            cross_q_ns: value.cross_q_ns,
            cross_kv_calls: value.cross_kv_calls,
            cross_kv_ns: value.cross_kv_ns,
            cross_norm_calls: value.cross_norm_calls,
            cross_norm_ns: value.cross_norm_ns,
            cross_kernel_calls: value.cross_kernel_calls,
            cross_kernel_ns: value.cross_kernel_ns,
            cross_out_calls: value.cross_out_calls,
            cross_out_ns: value.cross_out_ns,
            cross_cat_calls: value.cross_cat_calls,
            cross_cat_ns: value.cross_cat_ns,
            module_cast_pad_calls: value.module_cast_pad_calls,
            module_cast_pad_ns: value.module_cast_pad_ns,
            module_attention_calls: value.module_attention_calls,
            module_attention_ns: value.module_attention_ns,
            module_output_calls: value.module_output_calls,
            module_output_ns: value.module_output_ns,
            block_norm_mod_calls: value.block_norm_mod_calls,
            block_norm_mod_ns: value.block_norm_mod_ns,
            block_norm_affine_calls: value.block_norm_affine_calls,
            block_norm_affine_ns: value.block_norm_affine_ns,
            block_gate_residual_calls: value.block_gate_residual_calls,
            block_gate_residual_ns: value.block_gate_residual_ns,
            model_io_calls: value.model_io_calls,
            model_io_ns: value.model_io_ns,
            model_input_calls: value.model_input_calls,
            model_input_ns: value.model_input_ns,
            model_output_calls: value.model_output_calls,
            model_output_ns: value.model_output_ns,
        }
    }
}

/// Two records of telemetry agree once all their counters do.
pub proof fn telemetry_is_its_counters(a: SparseFlowOpTelemetry, b: SparseFlowOpTelemetry)
    ensures
        (forall|counter: FlowCounter| #[trigger] a.entry(counter) == b.entry(counter)) <==> a == b,
{
    if forall|counter: FlowCounter| #[trigger] a.entry(counter) == b.entry(counter) {
        assert(a.entry(FlowCounter::Op(SparseFlowOpKind::SelfAttn)) == b.entry(
            FlowCounter::Op(SparseFlowOpKind::SelfAttn),
        ));
        assert(a.entry(FlowCounter::Op(SparseFlowOpKind::CrossAttn)) == b.entry(
            FlowCounter::Op(SparseFlowOpKind::CrossAttn),
        ));
        assert(a.entry(FlowCounter::Op(SparseFlowOpKind::Mlp)) == b.entry(
            FlowCounter::Op(SparseFlowOpKind::Mlp),
        ));
        assert(a.entry(FlowCounter::Detail(SparseFlowOpDetailKind::SelfQkv)) == b.entry(
            FlowCounter::Detail(SparseFlowOpDetailKind::SelfQkv),
        ));
        assert(a.entry(FlowCounter::Detail(SparseFlowOpDetailKind::SelfNormRope)) == b.entry(
            FlowCounter::Detail(SparseFlowOpDetailKind::SelfNormRope),
        ));
        assert(a.entry(FlowCounter::Detail(SparseFlowOpDetailKind::SelfKernel)) == b.entry(
            FlowCounter::Detail(SparseFlowOpDetailKind::SelfKernel),
        ));
        assert(a.entry(FlowCounter::Detail(SparseFlowOpDetailKind::SelfOut)) == b.entry(
            FlowCounter::Detail(SparseFlowOpDetailKind::SelfOut),
        ));
        assert(a.entry(FlowCounter::Detail(SparseFlowOpDetailKind::SelfCat)) == b.entry(
            FlowCounter::Detail(SparseFlowOpDetailKind::SelfCat),
        ));
        assert(a.entry(FlowCounter::Detail(SparseFlowOpDetailKind::CrossQ)) == b.entry(
            FlowCounter::Detail(SparseFlowOpDetailKind::CrossQ),
        ));
        assert(a.entry(FlowCounter::Detail(SparseFlowOpDetailKind::CrossKv)) == b.entry(
            FlowCounter::Detail(SparseFlowOpDetailKind::CrossKv),
        ));
        assert(a.entry(FlowCounter::Detail(SparseFlowOpDetailKind::CrossNorm)) == b.entry(
            FlowCounter::Detail(SparseFlowOpDetailKind::CrossNorm),
        ));
        assert(a.entry(FlowCounter::Detail(SparseFlowOpDetailKind::CrossKernel)) == b.entry(
            FlowCounter::Detail(SparseFlowOpDetailKind::CrossKernel),
        ));
        assert(a.entry(FlowCounter::Detail(SparseFlowOpDetailKind::CrossOut)) == b.entry(
            FlowCounter::Detail(SparseFlowOpDetailKind::CrossOut),
        ));
        assert(a.entry(FlowCounter::Detail(SparseFlowOpDetailKind::CrossCat)) == b.entry(
            FlowCounter::Detail(SparseFlowOpDetailKind::CrossCat),
        ));
        assert(a.entry(FlowCounter::Detail(SparseFlowOpDetailKind::ModuleCastPad)) == b.entry(
            FlowCounter::Detail(SparseFlowOpDetailKind::ModuleCastPad),
        ));
        assert(a.entry(FlowCounter::Detail(SparseFlowOpDetailKind::ModuleAttention)) == b.entry(
            FlowCounter::Detail(SparseFlowOpDetailKind::ModuleAttention),
        ));
        assert(a.entry(FlowCounter::Detail(SparseFlowOpDetailKind::ModuleOutput)) == b.entry(
            FlowCounter::Detail(SparseFlowOpDetailKind::ModuleOutput),
        ));
        assert(a.entry(FlowCounter::Detail(SparseFlowOpDetailKind::BlockNormMod)) == b.entry(
            FlowCounter::Detail(SparseFlowOpDetailKind::BlockNormMod),
        ));
        assert(a.entry(FlowCounter::Detail(SparseFlowOpDetailKind::BlockNormAffine)) == b.entry(
            FlowCounter::Detail(SparseFlowOpDetailKind::BlockNormAffine),
        ));
        assert(a.entry(FlowCounter::Detail(SparseFlowOpDetailKind::BlockGateResidual)) == b.entry(
            FlowCounter::Detail(SparseFlowOpDetailKind::BlockGateResidual),
        ));
        assert(a.entry(FlowCounter::Detail(SparseFlowOpDetailKind::ModelIo)) == b.entry(
            FlowCounter::Detail(SparseFlowOpDetailKind::ModelIo),
        ));
        assert(a.entry(FlowCounter::Detail(SparseFlowOpDetailKind::ModelInput)) == b.entry(
            FlowCounter::Detail(SparseFlowOpDetailKind::ModelInput),
        ));
        assert(a.entry(FlowCounter::Detail(SparseFlowOpDetailKind::ModelOutput)) == b.entry(
            FlowCounter::Detail(SparseFlowOpDetailKind::ModelOutput),
        ));
        assert(a.entry(FlowCounter::Fused(FusedNormRope::Qk)) == b.entry(
            FlowCounter::Fused(FusedNormRope::Qk),
        ));
        assert(a.entry(FlowCounter::Fused(FusedNormRope::QkvModule)) == b.entry(
            FlowCounter::Fused(FusedNormRope::QkvModule),
        ));
    }
}

/// One counter after two calls that were recorded in either order.
proof fn lemma_counter_commutes(
    start: SparseFlowOpTelemetry,
    first: FlowCounter,
    first_ns: u64,
    second: FlowCounter,
    second_ns: u64,
    mid: SparseFlowOpTelemetry,
    end: SparseFlowOpTelemetry,
    counter: FlowCounter,
)
    requires
        start.advanced(mid, first, first_ns),
        mid.advanced(end, second, second_ns),
    ensures
        end.entry(counter) == twice_advanced(
            start.entry(counter),
            counter == first,
            first_ns,
            counter == second,
            second_ns,
        ),
{
    if counter != first {
        assert(mid.entry(counter) == start.entry(counter));
    }
    if counter != second {
        assert(end.entry(counter) == mid.entry(counter));
    }
}

/// Calls and nanoseconds after up to two more calls.
pub open spec fn twice_advanced(
    entry: (u64, u64),
    first: bool,
    first_ns: u64,
    second: bool,
    second_ns: u64,
) -> (u64, u64) {
    let once = if first {
        (wrapping_sum(entry.0, 1), wrapping_sum(entry.1, first_ns))
    } else {
        entry
    };
    if second {
        (wrapping_sum(once.0, 1), wrapping_sum(once.1, second_ns))
    } else {
        once
    }
}

/// Sums may be taken in either order.
proof fn lemma_sums_commute(a: u64, b: u64, c: u64)
    ensures
        wrapping_sum(wrapping_sum(a, b), c) == wrapping_sum(wrapping_sum(a, c), b),
{
}

/// Two calls may be recorded in either order.
pub proof fn records_commute(
    start: SparseFlowOpTelemetry,
    first: FlowCounter,
    first_ns: u64,
    second: FlowCounter,
    second_ns: u64,
    mid_a: SparseFlowOpTelemetry,
    end_a: SparseFlowOpTelemetry,
    mid_b: SparseFlowOpTelemetry,
    end_b: SparseFlowOpTelemetry,
)
    requires
        start.advanced(mid_a, first, first_ns),
        mid_a.advanced(end_a, second, second_ns),
        start.advanced(mid_b, second, second_ns),
        mid_b.advanced(end_b, first, first_ns),
    ensures
        end_a == end_b,
{
    assert forall|counter: FlowCounter| #[trigger]
        end_a.entry(counter) == end_b.entry(counter) by {
        lemma_counter_commutes(start, first, first_ns, second, second_ns, mid_a, end_a, counter);
        lemma_counter_commutes(start, second, second_ns, first, first_ns, mid_b, end_b, counter);
        lemma_sums_commute(start.entry(counter).1, first_ns, second_ns);
    }
    telemetry_is_its_counters(end_a, end_b);
}

/// Clears the readback counters.
pub fn reset_host_transfer_stats(stats: &mut HostTransferStats)
    ensures
        *final(stats) == HostTransferStats::zero(),
{
    stats.readback_count = 0;
    stats.readback_elements = 0;
}

/// Current readback counters.
pub fn host_transfer_stats(stats: &HostTransferStats) -> (r: HostTransferStats)
    ensures
        r == *stats,
{
    HostTransferStats {
        readback_count: stats.readback_count,
        readback_elements: stats.readback_elements,
    }
}

/// Counts one readback of `elements` numbers.
pub fn record_host_readback(stats: &mut HostTransferStats, elements: usize)
    ensures
        final(stats).readback_count == wrapping_sum(old(stats).readback_count, 1),
        final(stats).readback_elements == wrapping_sum(
            old(stats).readback_elements,
            elements as u64,
        ),
{
    stats.readback_count = counter_add(stats.readback_count, 1);
    stats.readback_elements = counter_add(stats.readback_elements, elements as u64);
}

/// Clears the operation telemetry.
pub fn reset_sparse_flow_op_telemetry(telemetry: &mut SparseFlowOpTelemetry)
    ensures
        *final(telemetry) == SparseFlowOpTelemetry::zero(),
{
    telemetry.self_attn_calls = 0;
    telemetry.self_attn_ns = 0;
    telemetry.cross_attn_calls = 0;
    telemetry.cross_attn_ns = 0;
    telemetry.mlp_calls = 0;
    telemetry.mlp_ns = 0;
    telemetry.self_qkv_calls = 0;
    telemetry.self_qkv_ns = 0;
    telemetry.self_norm_rope_calls = 0;
    telemetry.self_norm_rope_ns = 0;
    telemetry.self_norm_rope_fused_qk_calls = 0;
    telemetry.self_norm_rope_fused_qkv_module_calls = 0;
    telemetry.self_kernel_calls = 0;
    telemetry.self_kernel_ns = 0;
    telemetry.self_out_calls = 0;
    telemetry.self_out_ns = 0;
    telemetry.self_cat_calls = 0;
    telemetry.self_cat_ns = 0;
    telemetry.cross_q_calls = 0;
    telemetry.cross_q_ns = 0;
    telemetry.cross_kv_calls = 0;
    telemetry.cross_kv_ns = 0;
    telemetry.cross_norm_calls = 0;
    telemetry.cross_norm_ns = 0;
    telemetry.cross_kernel_calls = 0;
    telemetry.cross_kernel_ns = 0;
    telemetry.cross_out_calls = 0;
    telemetry.cross_out_ns = 0;
    telemetry.cross_cat_calls = 0;
    telemetry.cross_cat_ns = 0;
    telemetry.module_cast_pad_calls = 0;
    telemetry.module_cast_pad_ns = 0;
    telemetry.module_attention_calls = 0;
    telemetry.module_attention_ns = 0;
    telemetry.module_output_calls = 0;
    telemetry.module_output_ns = 0;
    telemetry.block_norm_mod_calls = 0;
    telemetry.block_norm_mod_ns = 0;
    telemetry.block_norm_affine_calls = 0;
    telemetry.block_norm_affine_ns = 0;
    telemetry.block_gate_residual_calls = 0;
    telemetry.block_gate_residual_ns = 0;
    telemetry.model_io_calls = 0;
    telemetry.model_io_ns = 0;
    telemetry.model_input_calls = 0;
    telemetry.model_input_ns = 0;
    telemetry.model_output_calls = 0;
    telemetry.model_output_ns = 0;
}

/// Current operation telemetry.
pub fn sparse_flow_op_telemetry(telemetry: &SparseFlowOpTelemetry) -> (r: SparseFlowOpTelemetry)
    ensures
        r == *telemetry,
{
    SparseFlowOpTelemetry {
        self_attn_calls: telemetry.self_attn_calls,
        self_attn_ns: telemetry.self_attn_ns,
        cross_attn_calls: telemetry.cross_attn_calls,
        cross_attn_ns: telemetry.cross_attn_ns,
        mlp_calls: telemetry.mlp_calls,
        mlp_ns: telemetry.mlp_ns,
        self_qkv_calls: telemetry.self_qkv_calls,
        self_qkv_ns: telemetry.self_qkv_ns,
        self_norm_rope_calls: telemetry.self_norm_rope_calls,
        self_norm_rope_ns: telemetry.self_norm_rope_ns,
        self_norm_rope_fused_qk_calls: telemetry.self_norm_rope_fused_qk_calls,
        self_norm_rope_fused_qkv_module_calls: telemetry.self_norm_rope_fused_qkv_module_calls,
        self_kernel_calls: telemetry.self_kernel_calls,
        self_kernel_ns: telemetry.self_kernel_ns,
        self_out_calls: telemetry.self_out_calls,
        self_out_ns: telemetry.self_out_ns,
        self_cat_calls: telemetry.self_cat_calls,
        self_cat_ns: telemetry.self_cat_ns,
        cross_q_calls: telemetry.cross_q_calls,
        cross_q_ns: telemetry.cross_q_ns,
        cross_kv_calls: telemetry.cross_kv_calls,
        cross_kv_ns: telemetry.cross_kv_ns,
        cross_norm_calls: telemetry.cross_norm_calls,
        cross_norm_ns: telemetry.cross_norm_ns,
        cross_kernel_calls: telemetry.cross_kernel_calls,
        cross_kernel_ns: telemetry.cross_kernel_ns,
        cross_out_calls: telemetry.cross_out_calls,
        cross_out_ns: telemetry.cross_out_ns,
        cross_cat_calls: telemetry.cross_cat_calls,
        cross_cat_ns: telemetry.cross_cat_ns,
        module_cast_pad_calls: telemetry.module_cast_pad_calls,
        module_cast_pad_ns: telemetry.module_cast_pad_ns,
        module_attention_calls: telemetry.module_attention_calls,
        module_attention_ns: telemetry.module_attention_ns,
        module_output_calls: telemetry.module_output_calls,
        module_output_ns: telemetry.module_output_ns,
        block_norm_mod_calls: telemetry.block_norm_mod_calls,
        block_norm_mod_ns: telemetry.block_norm_mod_ns,
        block_norm_affine_calls: telemetry.block_norm_affine_calls,
        block_norm_affine_ns: telemetry.block_norm_affine_ns,
        block_gate_residual_calls: telemetry.block_gate_residual_calls,
        block_gate_residual_ns: telemetry.block_gate_residual_ns,
        model_io_calls: telemetry.model_io_calls,
        model_io_ns: telemetry.model_io_ns,
        model_input_calls: telemetry.model_input_calls,
        model_input_ns: telemetry.model_input_ns,
        model_output_calls: telemetry.model_output_calls,
        model_output_ns: telemetry.model_output_ns,
    }
}

/// Current operation telemetry as a stage summary.
pub fn current_sparse_flow_op_timing_summary(
    telemetry: &SparseFlowOpTelemetry,
) -> (r: SparseFlowOpTimingSummary)
    ensures
        r == SparseFlowOpTimingSummary::of(*telemetry),
{
    SparseFlowOpTimingSummary::from(sparse_flow_op_telemetry(telemetry))
}

/// Counts one call of a whole operation.
pub fn record_sparse_flow_op(
    telemetry: &mut SparseFlowOpTelemetry,
    kind: SparseFlowOpKind,
    elapsed_ns: u64,
)
    ensures
        old(telemetry).advanced(*final(telemetry), FlowCounter::Op(kind), elapsed_ns),
{
    match kind {
        SparseFlowOpKind::SelfAttn => {
            telemetry.self_attn_calls = counter_add(telemetry.self_attn_calls, 1);
            telemetry.self_attn_ns = counter_add(telemetry.self_attn_ns, elapsed_ns);
        },
        SparseFlowOpKind::CrossAttn => {
            telemetry.cross_attn_calls = counter_add(telemetry.cross_attn_calls, 1);
            telemetry.cross_attn_ns = counter_add(telemetry.cross_attn_ns, elapsed_ns);
        },
        SparseFlowOpKind::Mlp => {
            telemetry.mlp_calls = counter_add(telemetry.mlp_calls, 1);
            telemetry.mlp_ns = counter_add(telemetry.mlp_ns, elapsed_ns);
        },
    }
}

/// Counts one call of a part of an operation.
pub fn record_sparse_flow_detail(
    telemetry: &mut SparseFlowOpTelemetry,
    kind: SparseFlowOpDetailKind,
    elapsed_ns: u64,
)
    ensures
        old(telemetry).advanced(*final(telemetry), FlowCounter::Detail(kind), elapsed_ns),
{
    match kind {
        SparseFlowOpDetailKind::SelfQkv => {
            telemetry.self_qkv_calls = counter_add(telemetry.self_qkv_calls, 1);
            telemetry.self_qkv_ns = counter_add(telemetry.self_qkv_ns, elapsed_ns);
        },
        SparseFlowOpDetailKind::SelfNormRope => {
            telemetry.self_norm_rope_calls = counter_add(telemetry.self_norm_rope_calls, 1);
            telemetry.self_norm_rope_ns = counter_add(telemetry.self_norm_rope_ns, elapsed_ns);
        },
        SparseFlowOpDetailKind::SelfKernel => {
            telemetry.self_kernel_calls = counter_add(telemetry.self_kernel_calls, 1);
            telemetry.self_kernel_ns = counter_add(telemetry.self_kernel_ns, elapsed_ns);
        },
        SparseFlowOpDetailKind::SelfOut => {
            telemetry.self_out_calls = counter_add(telemetry.self_out_calls, 1);
            telemetry.self_out_ns = counter_add(telemetry.self_out_ns, elapsed_ns);
        },
        SparseFlowOpDetailKind::SelfCat => {
            telemetry.self_cat_calls = counter_add(telemetry.self_cat_calls, 1);
            telemetry.self_cat_ns = counter_add(telemetry.self_cat_ns, elapsed_ns);
        },
        SparseFlowOpDetailKind::CrossQ => {
            telemetry.cross_q_calls = counter_add(telemetry.cross_q_calls, 1);
            telemetry.cross_q_ns = counter_add(telemetry.cross_q_ns, elapsed_ns);
        },
        SparseFlowOpDetailKind::CrossKv => {
            telemetry.cross_kv_calls = counter_add(telemetry.cross_kv_calls, 1);
            telemetry.cross_kv_ns = counter_add(telemetry.cross_kv_ns, elapsed_ns);
        },
        SparseFlowOpDetailKind::CrossNorm => {
            telemetry.cross_norm_calls = counter_add(telemetry.cross_norm_calls, 1);
            telemetry.cross_norm_ns = counter_add(telemetry.cross_norm_ns, elapsed_ns);
        },
        SparseFlowOpDetailKind::CrossKernel => {
            telemetry.cross_kernel_calls = counter_add(telemetry.cross_kernel_calls, 1);
            telemetry.cross_kernel_ns = counter_add(telemetry.cross_kernel_ns, elapsed_ns);
        },
        SparseFlowOpDetailKind::CrossOut => {
            telemetry.cross_out_calls = counter_add(telemetry.cross_out_calls, 1);
            telemetry.cross_out_ns = counter_add(telemetry.cross_out_ns, elapsed_ns);
        },
        SparseFlowOpDetailKind::CrossCat => {
            telemetry.cross_cat_calls = counter_add(telemetry.cross_cat_calls, 1);
            telemetry.cross_cat_ns = counter_add(telemetry.cross_cat_ns, elapsed_ns);
        },
        SparseFlowOpDetailKind::ModuleCastPad => {
            telemetry.module_cast_pad_calls = counter_add(telemetry.module_cast_pad_calls, 1);
            telemetry.module_cast_pad_ns = counter_add(telemetry.module_cast_pad_ns, elapsed_ns);
        },
        SparseFlowOpDetailKind::ModuleAttention => {
            telemetry.module_attention_calls = counter_add(telemetry.module_attention_calls, 1);
            telemetry.module_attention_ns = counter_add(telemetry.module_attention_ns, elapsed_ns);
        },
        SparseFlowOpDetailKind::ModuleOutput => {
            telemetry.module_output_calls = counter_add(telemetry.module_output_calls, 1);
            telemetry.module_output_ns = counter_add(telemetry.module_output_ns, elapsed_ns);
        },
        SparseFlowOpDetailKind::BlockNormMod => {
            telemetry.block_norm_mod_calls = counter_add(telemetry.block_norm_mod_calls, 1);
            telemetry.block_norm_mod_ns = counter_add(telemetry.block_norm_mod_ns, elapsed_ns);
        },
        SparseFlowOpDetailKind::BlockNormAffine => {
            telemetry.block_norm_affine_calls = counter_add(telemetry.block_norm_affine_calls, 1);
            telemetry.block_norm_affine_ns = counter_add(telemetry.block_norm_affine_ns, elapsed_ns);
        },
        SparseFlowOpDetailKind::BlockGateResidual => {
            telemetry.block_gate_residual_calls = counter_add(telemetry.block_gate_residual_calls, 1);
            telemetry.block_gate_residual_ns = counter_add(telemetry.block_gate_residual_ns, elapsed_ns);
        },
        SparseFlowOpDetailKind::ModelIo => {
            telemetry.model_io_calls = counter_add(telemetry.model_io_calls, 1);
            telemetry.model_io_ns = counter_add(telemetry.model_io_ns, elapsed_ns);
        },
        SparseFlowOpDetailKind::ModelInput => {
            telemetry.model_input_calls = counter_add(telemetry.model_input_calls, 1);
            telemetry.model_input_ns = counter_add(telemetry.model_input_ns, elapsed_ns);
        },
        SparseFlowOpDetailKind::ModelOutput => {
            telemetry.model_output_calls = counter_add(telemetry.model_output_calls, 1);
            telemetry.model_output_ns = counter_add(telemetry.model_output_ns, elapsed_ns);
        },
    }
}

/// Counts a fused launch that produced its output.
pub fn record_fused_norm_rope(
    telemetry: &mut SparseFlowOpTelemetry,
    kind: FusedNormRope,
    launched: bool,
)
    ensures
        launched ==> old(telemetry).advanced(*final(telemetry), FlowCounter::Fused(kind), 0),
        !launched ==> *final(telemetry) == *old(telemetry),
{
    if launched {
        match kind {
            FusedNormRope::Qk => {
                telemetry.self_norm_rope_fused_qk_calls =
                counter_add(telemetry.self_norm_rope_fused_qk_calls, 1);
            },
            FusedNormRope::QkvModule => {
                telemetry.self_norm_rope_fused_qkv_module_calls =
                counter_add(telemetry.self_norm_rope_fused_qkv_module_calls, 1);
            },
        }
    }
}

/// Nanoseconds of a span, limited to 64 bits.
pub fn elapsed_ns(nanos: u128) -> (r: u64)
    ensures
        r == (if nanos <= u64::MAX {
            nanos
        } else {
            u64::MAX as u128
        }),
{
    if nanos <= 0xffff_ffff_ffff_ffff {
        nanos as u64
    } else {
        u64::MAX
    }
}

} // verus!
