//! The gated delta-rule layers: convolution, gates, head expansion, the state
//! recurrence in its several forms, and the backward pass.

pub mod dispatch;
pub mod laws;

use vstd::prelude::*;
use crate::error::CudarcKernelError;
use crate::geometry::{
    flat, flat_config, int_arg, linear, linear_config, low_u32, multiple, size_arg, to_u32,
};
use crate::launch::{planned, Arg, Buffer, LaunchConfig, LaunchPlan, LaunchView};
use crate::module::{build_start, loads, BuildStepView, KernelBuild, KernelId};
use crate::sources::deltanet::{deltanet_cuda_src, deltanet_source};
use crate::text::{decimal, message1};

verus! {

/// How a recurrent state of 16-bit halves is read: as `f16`, with eleven bits of
/// mantissa, or as `bf16`, with the range of a 32-bit float.
#[derive(Clone, Copy, Debug, PartialEq, Eq)]
pub enum HalfStateFmt {
    F16,
    Bf16,
}

/// The kernels of the delta-rule module.
#[derive(Clone, Copy, Debug, PartialEq, Eq)]
pub enum DeltanetKernel {
    Conv1d,
    BetaDecay,
    ExpandL2,
    Recurrence,
    RecurrenceParallel,
    RecurrenceFusedHd64,
    RecurrenceFusedHd128,
    RecurrenceFusedHd256,
    RecurrenceHalfHd128F16,
    RecurrenceHalfHd128Bf16,
    ZGating,
    BpttRecompute,
    Conv1dRows,
    BetaDecayRows,
    ExpandL2Rows,
    ExpandL2RowsV2,
    RecurrenceFusedRowsHd128,
}

impl KernelId for DeltanetKernel {
    open spec fn entry_point(self) -> Seq<char> {
        match self {
            DeltanetKernel::Conv1d => "conv1d_f32"@,
            DeltanetKernel::BetaDecay => "beta_decay_f32"@,
            DeltanetKernel::ExpandL2 => "expand_and_l2_normalize_heads_f32"@,
            DeltanetKernel::Recurrence => "recurrence_f32"@,
            DeltanetKernel::RecurrenceParallel => "recurrence_f32_parallel"@,
            DeltanetKernel::RecurrenceFusedHd64 => "recurrence_f32_fused_hd64"@,
            DeltanetKernel::RecurrenceFusedHd128 => "recurrence_f32_fused_hd128"@,
            DeltanetKernel::RecurrenceFusedHd256 => "recurrence_f32_fused_hd256"@,
            DeltanetKernel::RecurrenceHalfHd128F16 => "recurrence_half_fused_hd128_f16"@,
            DeltanetKernel::RecurrenceHalfHd128Bf16 => "recurrence_half_fused_hd128_bf16"@,
            DeltanetKernel::ZGating => "z_gating_f32"@,
            DeltanetKernel::BpttRecompute => "deltanet_bptt_recompute_f32"@,
            DeltanetKernel::Conv1dRows => "conv1d_rows_f32"@,
            DeltanetKernel::BetaDecayRows => "beta_decay_rows_f32"@,
            DeltanetKernel::ExpandL2Rows => "expand_and_l2_normalize_heads_rows_f32"@,
            DeltanetKernel::ExpandL2RowsV2 => "expand_and_l2_normalize_heads_rows_v2_f32"@,
            DeltanetKernel::RecurrenceFusedRowsHd128 => "recurrence_f32_fused_rows_hd128"@,
        }
    }

    fn entry(self) -> (r: &'static str) {
        match self {
            DeltanetKernel::Conv1d => "conv1d_f32",
            DeltanetKernel::BetaDecay => "beta_decay_f32",
            DeltanetKernel::ExpandL2 => "expand_and_l2_normalize_heads_f32",
            DeltanetKernel::Recurrence => "recurrence_f32",
            DeltanetKernel::RecurrenceParallel => "recurrence_f32_parallel",
            DeltanetKernel::RecurrenceFusedHd64 => "recurrence_f32_fused_hd64",
            DeltanetKernel::RecurrenceFusedHd128 => "recurrence_f32_fused_hd128",
            DeltanetKernel::RecurrenceFusedHd256 => "recurrence_f32_fused_hd256",
            DeltanetKernel::RecurrenceHalfHd128F16 => "recurrence_half_fused_hd128_f16",
            DeltanetKernel::RecurrenceHalfHd128Bf16 => "recurrence_half_fused_hd128_bf16",
            DeltanetKernel::ZGating => "z_gating_f32",
            DeltanetKernel::BpttRecompute => "deltanet_bptt_recompute_f32",
            DeltanetKernel::Conv1dRows => "conv1d_rows_f32",
            DeltanetKernel::BetaDecayRows => "beta_decay_rows_f32",
            DeltanetKernel::ExpandL2Rows => "expand_and_l2_normalize_heads_rows_f32",
            DeltanetKernel::ExpandL2RowsV2 => "expand_and_l2_normalize_heads_rows_v2_f32",
            DeltanetKernel::RecurrenceFusedRowsHd128 => "recurrence_f32_fused_rows_hd128",
        }
    }
}

/// The kernels in the order in which they are looked up.
pub open spec fn deltanet_kernels() -> Seq<DeltanetKernel> {
    seq![
        DeltanetKernel::Conv1d, DeltanetKernel::BetaDecay, DeltanetKernel::ExpandL2,
        DeltanetKernel::Recurrence, DeltanetKernel::RecurrenceParallel,
        DeltanetKernel::RecurrenceFusedHd64, DeltanetKernel::RecurrenceFusedHd128,
        DeltanetKernel::RecurrenceFusedHd256, DeltanetKernel::RecurrenceHalfHd128F16,
        DeltanetKernel::RecurrenceHalfHd128Bf16, DeltanetKernel::ZGating,
        DeltanetKernel::BpttRecompute, DeltanetKernel::Conv1dRows, DeltanetKernel::BetaDecayRows,
        DeltanetKernel::ExpandL2Rows, DeltanetKernel::ExpandL2RowsV2,
        DeltanetKernel::RecurrenceFusedRowsHd128,
    ]
}

/// The build of the delta-rule module.
pub open spec fn deltanet_build() -> Seq<BuildStepView<DeltanetKernel>> {
    build_start(deltanet_cuda_src()) + loads(deltanet_kernels())
}

/// `n`, or one where `n` is zero.
pub open spec fn at_least_one(n: usize) -> int {
    if n == 0 {
        1
    } else {
        n as int
    }
}

/// One warp per head and state row.
pub open spec fn row_grid(n_head: usize, head_dim: usize) -> LaunchConfig {
    LaunchConfig {
        grid_dim: (low_u32(n_head as int), low_u32(head_dim as int), 1),
        block_dim: (32, 1, 1),
        shared_mem_bytes: 0,
    }
}

/// Depthwise convolution and SiLU in place: one thread per channel.
pub open spec fn conv1d_launch(conv_dim: usize, kernel_size: usize) -> LaunchView<DeltanetKernel> {
    LaunchView {
        kernel: DeltanetKernel::Conv1d,
        config: linear(conv_dim as int),
        args: seq![
            Arg::Buf(Buffer::Input),
            Arg::Buf(Buffer::Weight),
            Arg::Buf(Buffer::ConvState),
            int_arg(conv_dim as int),
            int_arg(kernel_size as int),
        ],
    }
}

/// The gates of every head: one block, one thread per head.
pub open spec fn beta_decay_launch(n_head: usize) -> LaunchView<DeltanetKernel> {
    LaunchView {
        kernel: DeltanetKernel::BetaDecay,
        config: flat(1, low_u32(at_least_one(n_head)), 0),
        args: seq![
            Arg::Buf(Buffer::ARaw),
            Arg::Buf(Buffer::BRaw),
            Arg::Buf(Buffer::ALog),
            Arg::Buf(Buffer::DtBias),
            Arg::Buf(Buffer::Beta),
            Arg::Buf(Buffer::Decay),
            int_arg(n_head as int),
        ],
    }
}

/// Expands the query and key heads to the value heads and normalises them: one
/// thread per expanded element.
pub open spec fn expand_and_l2_normalize_launch(
    n_k_heads: usize,
    n_v_heads: usize,
    head_dim: usize,
) -> LaunchView<DeltanetKernel> {
    LaunchView {
        kernel: DeltanetKernel::ExpandL2,
        config: linear(3 * n_v_heads * head_dim),
        args: seq![
            Arg::Buf(Buffer::Compact),
            Arg::Buf(Buffer::Expanded),
            int_arg(n_k_heads as int),
            int_arg(n_v_heads as int),
            int_arg(head_dim as int),
        ],
    }
}

/// One step of the recurrence: one block per head, one thread per lane.
pub open spec fn recurrence_launch(head_dim: usize, n_head: usize) -> LaunchView<DeltanetKernel> {
    LaunchView {
        kernel: DeltanetKernel::Recurrence,
        config: flat(low_u32(n_head as int), low_u32(head_dim as int), low_u32(head_dim * 4)),
        args: seq![
            Arg::Buf(Buffer::Qkv),
            Arg::Buf(Buffer::Beta),
            Arg::Buf(Buffer::Decay),
            Arg::Buf(Buffer::State),
            Arg::Buf(Buffer::Output),
            int_arg(head_dim as int),
            int_arg(n_head as int),
        ],
    }
}

/// One step of the recurrence with a warp per state row.
pub open spec fn recurrence_parallel_launch(
    head_dim: usize,
    n_head: usize,
) -> LaunchView<DeltanetKernel> {
    LaunchView {
        kernel: DeltanetKernel::RecurrenceParallel,
        config: row_grid(n_head, head_dim),
        args: seq![
            Arg::Buf(Buffer::Qkv),
            Arg::Buf(Buffer::Beta),
            Arg::Buf(Buffer::Decay),
            Arg::Buf(Buffer::State),
            Arg::Buf(Buffer::Output),
            int_arg(head_dim as int),
            int_arg(n_head as int),
        ],
    }
}

/// Gates the output in place: one thread per element.
pub open spec fn z_gating_launch(n: usize) -> LaunchView<DeltanetKernel> {
    LaunchView {
        kernel: DeltanetKernel::ZGating,
        config: linear(n as int),
        args: seq![Arg::Buf(Buffer::Output), Arg::Buf(Buffer::Z), int_arg(n as int)],
    }
}

/// The backward pass over `t_len` steps: one block per head, one thread per
/// lane, two floats of shared memory per thread.
pub open spec fn bptt_recompute_launch(
    t_len: usize,
    head_dim: usize,
    n_head: usize,
) -> LaunchView<DeltanetKernel> {
    LaunchView {
        kernel: DeltanetKernel::BpttRecompute,
        config: flat(low_u32(n_head as int), low_u32(head_dim as int), low_u32(2 * head_dim * 4)),
        args: seq![
            Arg::Buf(Buffer::QkvSeq),
            Arg::Buf(Buffer::BetaSeq),
            Arg::Buf(Buffer::DecaySeq),
            Arg::Buf(Buffer::GradOutSeq),
            Arg::Buf(Buffer::GradQkvSeq),
            Arg::Buf(Buffer::GradBetaSeq),
            Arg::Buf(Buffer::GradDecaySeq),
            Arg::Buf(Buffer::StateDecayedSeq),
            Arg::Buf(Buffer::StateSeq),
            Arg::Buf(Buffer::KvMemSeq),
            Arg::Buf(Buffer::DeltaSeq),
            Arg::Buf(Buffer::GradS),
            int_arg(t_len as int),
            int_arg(head_dim as int),
            int_arg(n_head as int),
        ],
    }
}

/// The gates of `p` rows: one block, one thread per head.
pub open spec fn beta_decay_rows_launch(n_head: usize, p: usize) -> LaunchView<DeltanetKernel> {
    LaunchView {
        kernel: DeltanetKernel::BetaDecayRows,
        config: flat(1, low_u32(at_least_one(n_head)), 0),
        args: seq![
            Arg::Buf(Buffer::ARaw),
            Arg::Buf(Buffer::BRaw),
            Arg::Buf(Buffer::ALog),
            Arg::Buf(Buffer::DtBias),
            Arg::Buf(Buffer::Beta),
            Arg::Buf(Buffer::Decay),
            int_arg(n_head as int),
            int_arg(p as int),
        ],
    }
}

/// `p` steps of the recurrence at head dimension 128, with the state rows held
/// in registers between them.
pub open spec fn recurrence_fused_rows_hd128_launch(
    n_head: usize,
    p: usize,
) -> LaunchView<DeltanetKernel> {
    LaunchView {
        kernel: DeltanetKernel::RecurrenceFusedRowsHd128,
        config: row_grid(n_head, 128),
        args: seq![
            Arg::Buf(Buffer::Qkv),
            Arg::Buf(Buffer::Beta),
            Arg::Buf(Buffer::Decay),
            Arg::Buf(Buffer::State),
            Arg::Buf(Buffer::Output),
            int_arg(n_head as int),
            int_arg(p as int),
        ],
    }
}

/// One step of the recurrence with a warp per state row, by a kernel that is
/// written for one head dimension.
pub open spec fn recurrence_fused_launch(
    kernel: DeltanetKernel,
    head_dim: usize,
    n_head: usize,
) -> LaunchView<DeltanetKernel> {
    LaunchView {
        kernel: kernel,
        config: row_grid(n_head, head_dim),
        args: seq![
            Arg::Buf(Buffer::Qkv),
            Arg::Buf(Buffer::Beta),
            Arg::Buf(Buffer::Decay),
            Arg::Buf(Buffer::State),
            Arg::Buf(Buffer::Output),
            int_arg(n_head as int),
        ],
    }
}

/// Convolution of `p` rows in turn: one thread per channel.
pub open spec fn conv1d_rows_launch(
    conv_dim: usize,
    kernel_size: usize,
    p: usize,
) -> LaunchView<DeltanetKernel> {
    LaunchView {
        kernel: DeltanetKernel::Conv1dRows,
        config: linear(conv_dim as int),
        args: seq![
            Arg::Buf(Buffer::Input),
            Arg::Buf(Buffer::Weight),
            Arg::Buf(Buffer::ConvState),
            int_arg(conv_dim as int),
            int_arg(kernel_size as int),
            int_arg(p as int),
        ],
    }
}

/// The fused kernel of a head dimension, where there is one.
pub open spec fn fused_kernel(head_dim: usize) -> Option<DeltanetKernel> {
    if head_dim == 64 {
        Some(DeltanetKernel::RecurrenceFusedHd64)
    } else if head_dim == 128 {
        Some(DeltanetKernel::RecurrenceFusedHd128)
    } else if head_dim == 256 {
        Some(DeltanetKernel::RecurrenceFusedHd256)
    } else {
        None
    }
}

/// Why a head dimension has no fused recurrence, if it has none.
pub open spec fn fused_refusal(head_dim: usize) -> Option<Seq<char>> {
    if fused_kernel(head_dim) is None {
        Some(
            "recurrence_f32_fused is specialized for head_dim {64,128,256}; got "@ + decimal(
                head_dim as nat,
            ) + " (use recurrence_parallel)"@,
        )
    } else {
        None
    }
}

/// The kernel for a half-precision state.
pub open spec fn half_kernel(fmt: HalfStateFmt) -> DeltanetKernel {
    match fmt {
        HalfStateFmt::F16 => DeltanetKernel::RecurrenceHalfHd128F16,
        HalfStateFmt::Bf16 => DeltanetKernel::RecurrenceHalfHd128Bf16,
    }
}

/// Why a window length is refused by the row-batched convolution, if it is.
pub open spec fn conv1d_rows_refusal(kernel_size: usize) -> Option<Seq<char>> {
    if kernel_size != 4 && kernel_size != 8 {
        Some("conv1d_rows: kernel_size "@ + decimal(kernel_size as nat) + " not in {4, 8}"@)
    } else {
        None
    }
}

/// [`row_grid`], computed.
fn row_config(n_head: usize, head_dim: usize) -> (r: LaunchConfig)
    ensures
        r == row_grid(n_head, head_dim),
{
    LaunchConfig {
        grid_dim: (to_u32(n_head), to_u32(head_dim), 1),
        block_dim: (32, 1, 1),
        shared_mem_bytes: 0,
    }
}

/// [`recurrence_fused_launch`], planned.
fn plan_fused(kernel: DeltanetKernel, head_dim: usize, n_head: usize) -> (r: LaunchPlan<DeltanetKernel>)
    ensures
        r@ == seq![recurrence_fused_launch(kernel, head_dim, n_head)],
{
    let r = LaunchPlan::one(
        kernel,
        row_config(n_head, head_dim),
        vec![
            Arg::Buf(Buffer::Qkv),
            Arg::Buf(Buffer::Beta),
            Arg::Buf(Buffer::Decay),
            Arg::Buf(Buffer::State),
            Arg::Buf(Buffer::Output),
            size_arg(n_head),
        ],
    );
    assert(r@ =~~= seq![recurrence_fused_launch(kernel, head_dim, n_head)]);
    r
}

/// The delta-rule kernels of a context: plans their build and their launches.
#[derive(Clone, Copy, Debug, PartialEq, Eq)]
pub struct DeltanetKernels {}

impl DeltanetKernels {
    /// The kernels and the build that loads them.
    pub fn new() -> (r: (Self, KernelBuild<DeltanetKernel>))
        ensures
            r.1@ == deltanet_build(),
    {
        let mut build: KernelBuild<DeltanetKernel> = KernelBuild::start(deltanet_source());
        build.load_all(
            vec![
                DeltanetKernel::Conv1d, DeltanetKernel::BetaDecay, DeltanetKernel::ExpandL2,
                DeltanetKernel::Recurrence, DeltanetKernel::RecurrenceParallel,
                DeltanetKernel::RecurrenceFusedHd64, DeltanetKernel::RecurrenceFusedHd128,
                DeltanetKernel::RecurrenceFusedHd256, DeltanetKernel::RecurrenceHalfHd128F16,
                DeltanetKernel::RecurrenceHalfHd128Bf16, DeltanetKernel::ZGating,
                DeltanetKernel::BpttRecompute, DeltanetKernel::Conv1dRows,
                DeltanetKernel::BetaDecayRows, DeltanetKernel::ExpandL2Rows,
                DeltanetKernel::ExpandL2RowsV2, DeltanetKernel::RecurrenceFusedRowsHd128,
            ],
        );
        assert(build@ =~= deltanet_build());
        (DeltanetKernels {  }, build)
    }

    /// Depthwise convolution of one row with its sliding window, then SiLU.
    ///
    /// `input` covers `conv_dim` elements, `weight` and `conv_state` `conv_dim
    /// * kernel_size` each.
    pub fn launch_conv1d(
        &self,
        conv_dim: usize,
        kernel_size: usize,
    ) -> (r: LaunchPlan<DeltanetKernel>)
        ensures
            r@ == seq![conv1d_launch(conv_dim, kernel_size)],
    {
        let r = LaunchPlan::one(
            DeltanetKernel::Conv1d,
            linear_config(conv_dim),
            vec![
                Arg::Buf(Buffer::Input),
                Arg::Buf(Buffer::Weight),
                Arg::Buf(Buffer::ConvState),
                size_arg(conv_dim),
                size_arg(kernel_size),
            ],
        );
        assert(r@ =~~= seq![conv1d_launch(conv_dim, kernel_size)]);
        r
    }

    /// The write gate and the decay of every head, from the raw projections.
    ///
    /// Every buffer covers `n_head` elements.
    pub fn launch_beta_decay(&self, n_head: usize) -> (r: LaunchPlan<DeltanetKernel>)
        ensures
            r@ == seq![beta_decay_launch(n_head)],
    {
        let r = LaunchPlan::one(
            DeltanetKernel::BetaDecay,
            flat_config(1, to_u32(if n_head == 0 { 1 } else { n_head }), 0),
            vec![
                Arg::Buf(Buffer::ARaw),
                Arg::Buf(Buffer::BRaw),
                Arg::Buf(Buffer::ALog),
                Arg::Buf(Buffer::DtBias),
                Arg::Buf(Buffer::Beta),
                Arg::Buf(Buffer::Decay),
                size_arg(n_head),
            ],
        );
        assert(r@ =~~= seq![beta_decay_launch(n_head)]);
        r
    }

    /// Expands the query and key heads to the value heads, normalises both, and
    /// copies the values.
    ///
    /// `compact` covers `(2 * n_k_heads + n_v_heads) * head_dim` elements and
    /// `expanded` `3 * n_v_heads * head_dim`.
    pub fn launch_expand_and_l2_normalize(
        &self,
        n_k_heads: usize,
        n_v_heads: usize,
        head_dim: usize,
    ) -> (r: LaunchPlan<DeltanetKernel>)
        requires
            multiple(n_v_heads, n_k_heads),
            3 * n_v_heads <= usize::MAX,
            3 * n_v_heads * head_dim <= usize::MAX,
        ensures
            r@ == seq![expand_and_l2_normalize_launch(n_k_heads, n_v_heads, head_dim)],
    {
        let r = LaunchPlan::one(
            DeltanetKernel::ExpandL2,
            linear_config(3 * n_v_heads * head_dim),
            vec![
                Arg::Buf(Buffer::Compact),
                Arg::Buf(Buffer::Expanded),
                size_arg(n_k_heads),
                size_arg(n_v_heads),
                size_arg(head_dim),
            ],
        );
        assert(r@ =~~= seq![expand_and_l2_normalize_launch(n_k_heads, n_v_heads, head_dim)]);
        r
    }

    /// One step of the delta-rule recurrence, state rows in turn.
    ///
    /// `qkv` covers `3 * n_head * head_dim` elements, `beta` and `decay`
    /// `n_head`, `state` `n_head * head_dim * head_dim` and `output` `n_head *
    /// head_dim`.
    pub fn launch_recurrence(
        &self,
        head_dim: usize,
        n_head: usize,
    ) -> (r: LaunchPlan<DeltanetKernel>)
        requires
            head_dim * 4 <= usize::MAX,
        ensures
            r@ == seq![recurrence_launch(head_dim, n_head)],
    {
        let r = LaunchPlan::one(
            DeltanetKernel::Recurrence,
            flat_config(to_u32(n_head), to_u32(head_dim), to_u32(head_dim * 4)),
            vec![
                Arg::Buf(Buffer::Qkv),
                Arg::Buf(Buffer::Beta),
                Arg::Buf(Buffer::Decay),
                Arg::Buf(Buffer::State),
                Arg::Buf(Buffer::Output),
                size_arg(head_dim),
                size_arg(n_head),
            ],
        );
        assert(r@ =~~= seq![recurrence_launch(head_dim, n_head)]);
        r
    }

    /// [`DeltanetKernels::launch_recurrence`] with a warp per state row.
    ///
    /// The buffers cover as many elements as there.
    pub fn launch_recurrence_parallel(
        &self,
        head_dim: usize,
        n_head: usize,
    ) -> (r: LaunchPlan<DeltanetKernel>)
        requires
            head_dim % 32 == 0,
        ensures
            r@ == seq![recurrence_parallel_launch(head_dim, n_head)],
    {
        let r = LaunchPlan::one(
            DeltanetKernel::RecurrenceParallel,
            row_config(n_head, head_dim),
            vec![
                Arg::Buf(Buffer::Qkv),
                Arg::Buf(Buffer::Beta),
                Arg::Buf(Buffer::Decay),
                Arg::Buf(Buffer::State),
                Arg::Buf(Buffer::Output),
                size_arg(head_dim),
                size_arg(n_head),
            ],
        );
        assert(r@ =~~= seq![recurrence_parallel_launch(head_dim, n_head)]);
        r
    }

    /// Multiplies the output by the SiLU of `z`, in place.
    ///
    /// `output` and `z` cover `n` elements.
    pub fn launch_z_gating(&self, n: usize) -> (r: LaunchPlan<DeltanetKernel>)
        ensures
            r@ == seq![z_gating_launch(n)],
    {
        let r = LaunchPlan::one(
            DeltanetKernel::ZGating,
            linear_config(n),
            vec![Arg::Buf(Buffer::Output), Arg::Buf(Buffer::Z), size_arg(n)],
        );
        assert(r@ =~~= seq![z_gating_launch(n)]);
        r
    }

    /// Backpropagation through `t_len` steps of the recurrence, from recomputed
    /// states.
    ///
    /// The sequences of queries, keys and values and of their gradients cover
    /// `t_len * n_head * 3 * head_dim` elements; those of the gates and of
    /// their gradients `t_len * n_head`; `grad_out_seq`, `kv_mem_seq` and
    /// `delta_seq` `t_len * n_head * head_dim`; `state_decayed_seq` and
    /// `state_seq` `t_len * n_head * head_dim * head_dim`; `grad_s` `n_head *
    /// head_dim * head_dim`. `grad_beta_seq` and `grad_s` have to be zero
    /// before the launch.
    pub fn launch_bptt_recompute(
        &self,
        t_len: usize,
        head_dim: usize,
        n_head: usize,
    ) -> (r: LaunchPlan<DeltanetKernel>)
        requires
            2 * head_dim * 4 <= usize::MAX,
        ensures
            r@ == seq![bptt_recompute_launch(t_len, head_dim, n_head)],
    {
        let r = LaunchPlan::one(
            DeltanetKernel::BpttRecompute,
            flat_config(to_u32(n_head), to_u32(head_dim), to_u32(2 * head_dim * 4)),
            vec![
                Arg::Buf(Buffer::QkvSeq),
                Arg::Buf(Buffer::BetaSeq),
                Arg::Buf(Buffer::DecaySeq),
                Arg::Buf(Buffer::GradOutSeq),
                Arg::Buf(Buffer::GradQkvSeq),
                Arg::Buf(Buffer::GradBetaSeq),
                Arg::Buf(Buffer::GradDecaySeq),
                Arg::Buf(Buffer::StateDecayedSeq),
                Arg::Buf(Buffer::StateSeq),
                Arg::Buf(Buffer::KvMemSeq),
                Arg::Buf(Buffer::DeltaSeq),
                Arg::Buf(Buffer::GradS),
                size_arg(t_len),
                size_arg(head_dim),
                size_arg(n_head),
            ],
        );
        assert(r@ =~~= seq![bptt_recompute_launch(t_len, head_dim, n_head)]);
        r
    }

    /// [`DeltanetKernels::launch_beta_decay`] for `p` rows.
    ///
    /// `a_log` and `dt_bias` cover `n_head` elements, the other buffers `p *
    /// n_head`.
    pub fn launch_beta_decay_rows(
        &self,
        n_head: usize,
        p: usize,
    ) -> (r: LaunchPlan<DeltanetKernel>)
        ensures
            r@ == seq![beta_decay_rows_launch(n_head, p)],
    {
        let r = LaunchPlan::one(
            DeltanetKernel::BetaDecayRows,
            flat_config(1, to_u32(if n_head == 0 { 1 } else { n_head }), 0),
            vec![
                Arg::Buf(Buffer::ARaw),
                Arg::Buf(Buffer::BRaw),
                Arg::Buf(Buffer::ALog),
                Arg::Buf(Buffer::DtBias),
                Arg::Buf(Buffer::Beta),
                Arg::Buf(Buffer::Decay),
                size_arg(n_head),
                size_arg(p),
            ],
        );
        assert(r@ =~~= seq![beta_decay_rows_launch(n_head, p)]);
        r
    }

    /// `p` steps of [`DeltanetKernels::launch_recurrence_fused`] at head dimension
    /// 128, in one launch.
    ///
    /// `qkv` covers `p * 3 * n_head * 128` elements, `beta` and `decay` `p *
    /// n_head`, `state` `n_head * 128 * 128` and `output` `p * n_head * 128`.
    pub fn launch_recurrence_fused_rows_hd128(
        &self,
        n_head: usize,
        p: usize,
    ) -> (r: LaunchPlan<DeltanetKernel>)
        ensures
            r@ == seq![recurrence_fused_rows_hd128_launch(n_head, p)],
    {
        let r = LaunchPlan::one(
            DeltanetKernel::RecurrenceFusedRowsHd128,
            row_config(n_head, 128),
            vec![
                Arg::Buf(Buffer::Qkv),
                Arg::Buf(Buffer::Beta),
                Arg::Buf(Buffer::Decay),
                Arg::Buf(Buffer::State),
                Arg::Buf(Buffer::Output),
                size_arg(n_head),
                size_arg(p),
            ],
        );
        assert(r@ =~~= seq![recurrence_fused_rows_hd128_launch(n_head, p)]);
        r
    }

    /// [`DeltanetKernels::launch_recurrence_parallel`] by the kernel of the head
    /// dimension, which keeps the state row in registers.
    ///
    /// The buffers cover as many elements as there.
    pub fn launch_recurrence_fused(&self, head_dim: usize, n_head: usize) -> (r: Result<
        LaunchPlan<DeltanetKernel>,
        CudarcKernelError,
    >)
        ensures
            planned(
                r,
                fused_refusal(head_dim),
                seq![recurrence_fused_launch(fused_kernel(head_dim)->0, head_dim, n_head)],
            ),
    {
        let kernel: DeltanetKernel = if head_dim == 64 {
            DeltanetKernel::RecurrenceFusedHd64
        } else if head_dim == 128 {
            DeltanetKernel::RecurrenceFusedHd128
        } else if head_dim == 256 {
            DeltanetKernel::RecurrenceFusedHd256
        } else {
            return Err(
                CudarcKernelError::InvalidArg(
                    message1(
                        "recurrence_f32_fused is specialized for head_dim {64,128,256}; got ",
                        head_dim,
                        " (use recurrence_parallel)",
                    ),
                ),
            );
        };
        Ok(plan_fused(kernel, head_dim, n_head))
    }

    /// [`DeltanetKernels::launch_recurrence_fused`] at head dimension 128 over a
    /// state of halves.
    ///
    /// The buffers cover as many elements as there; those of the state are
    /// halves.
    pub fn launch_recurrence_fused_half_hd128(&self, n_head: usize, fmt: HalfStateFmt) -> (r:
        LaunchPlan<DeltanetKernel>)
        ensures
            r@ == seq![recurrence_fused_launch(half_kernel(fmt), 128, n_head)],
    {
        let kernel: DeltanetKernel = match fmt {
            HalfStateFmt::F16 => DeltanetKernel::RecurrenceHalfHd128F16,
            HalfStateFmt::Bf16 => DeltanetKernel::RecurrenceHalfHd128Bf16,
        };
        plan_fused(kernel, 128, n_head)
    }

    /// [`DeltanetKernels::launch_conv1d`] for `p` rows, with the window held in
    /// registers between them: windows of four or eight rows only.
    ///
    /// `input` covers `p * conv_dim` elements, `weight` and `conv_state`
    /// `conv_dim * kernel_size` each.
    pub fn launch_conv1d_rows(&self, conv_dim: usize, kernel_size: usize, p: usize) -> (r: Result<
        LaunchPlan<DeltanetKernel>,
        CudarcKernelError,
    >)
        ensures
            planned(
                r,
                conv1d_rows_refusal(kernel_size),
                seq![conv1d_rows_launch(conv_dim, kernel_size, p)],
            ),
    {
        if kernel_size != 4 && kernel_size != 8 {
            return Err(
                CudarcKernelError::InvalidArg(
                    message1("conv1d_rows: kernel_size ", kernel_size, " not in {4, 8}"),
                ),
            );
        }
        let r = LaunchPlan::one(
            DeltanetKernel::Conv1dRows,
            linear_config(conv_dim),
            vec![
                Arg::Buf(Buffer::Input),
                Arg::Buf(Buffer::Weight),
                Arg::Buf(Buffer::ConvState),
                size_arg(conv_dim),
                size_arg(kernel_size),
                size_arg(p),
            ],
        );
        assert(r@ =~~= seq![conv1d_rows_launch(conv_dim, kernel_size, p)]);
        Ok(r)
    }
}

} // verus!
