//! What each delta-rule launch calls.

use vstd::prelude::*;
use crate::calls::names::lemma_fused_names;
use crate::calls::{a_thread_each, lemma_a_thread_each, shaped};
use crate::deltanet::dispatch::expand_rows_launches;
use crate::deltanet::{DeltanetKernel, DeltanetKernels, HalfStateFmt};
use crate::error::CudarcKernelError;
use crate::geometry::{int_arg, low_u32};
use crate::launch::{Arg, Buffer, LaunchPlan};
use crate::sources::calls;
use crate::text::decimal;

verus! {

/// The row is convolved with its window, a thread per channel.
pub proof fn law_launch_conv1d(
    k: &DeltanetKernels,
    conv_dim: usize,
    kernel_size: usize,
    r: LaunchPlan<DeltanetKernel>,
)
    requires
        call_ensures(DeltanetKernels::launch_conv1d, (k, conv_dim, kernel_size), r),
    ensures
        r@.len() == 1,
        calls(
                r@[0],
                "conv1d_f32"@,
                seq![
                    ("input"@, Arg::Buf(Buffer::Input)),
                    ("weight"@, Arg::Buf(Buffer::Weight)),
                    ("conv_state"@, Arg::Buf(Buffer::ConvState)),
                    ("conv_dim"@, int_arg(conv_dim as int)),
                    ("kernel_size"@, int_arg(kernel_size as int)),
                ],
            ),
        a_thread_each(r@[0].config, low_u32(conv_dim as int) as int),
{
    lemma_a_thread_each(conv_dim as int);
}

/// The write gates go to the write gates and the decays to the decays, a thread per
/// head.
pub proof fn law_launch_beta_decay(
    k: &DeltanetKernels,
    n_head: usize,
    r: LaunchPlan<DeltanetKernel>,
)
    requires
        call_ensures(DeltanetKernels::launch_beta_decay, (k, n_head), r),
    ensures
        r@.len() == 1,
        calls(
                r@[0],
                "beta_decay_f32"@,
                seq![
                    ("a_raw"@, Arg::Buf(Buffer::ARaw)),
                    ("b_raw"@, Arg::Buf(Buffer::BRaw)),
                    ("a_log"@, Arg::Buf(Buffer::ALog)),
                    ("dt_bias"@, Arg::Buf(Buffer::DtBias)),
                    ("beta_out"@, Arg::Buf(Buffer::Beta)),
                    ("decay_out"@, Arg::Buf(Buffer::Decay)),
                    ("n_head"@, int_arg(n_head as int)),
                ],
            ),
        shaped(r@[0].config, 1, 1, 1, if n_head == 0 { 1 } else { n_head as int }, 0),
{
}

/// The compact row is read and the expanded one written, a thread per expanded
/// element.
pub proof fn law_launch_expand_and_l2_normalize(
    k: &DeltanetKernels,
    n_k_heads: usize,
    n_v_heads: usize,
    head_dim: usize,
    r: LaunchPlan<DeltanetKernel>,
)
    requires
        call_ensures(
            DeltanetKernels::launch_expand_and_l2_normalize,
            (k, n_k_heads, n_v_heads, head_dim),
            r,
        ),
    ensures
        r@.len() == 1,
        calls(
                r@[0],
                "expand_and_l2_normalize_heads_f32"@,
                seq![
                    ("compact"@, Arg::Buf(Buffer::Compact)),
                    ("expanded"@, Arg::Buf(Buffer::Expanded)),
                    ("n_k_heads"@, int_arg(n_k_heads as int)),
                    ("n_v_heads"@, int_arg(n_v_heads as int)),
                    ("head_dim"@, int_arg(head_dim as int)),
                ],
            ),
        a_thread_each(r@[0].config, low_u32(3 * n_v_heads * head_dim as int) as int),
{
    lemma_a_thread_each(3 * n_v_heads * head_dim as int);
}

/// The state is advanced by queries, keys and values under the gates: a block per head,
/// a thread and a float of shared memory per lane.
pub proof fn law_launch_recurrence(
    k: &DeltanetKernels,
    head_dim: usize,
    n_head: usize,
    r: LaunchPlan<DeltanetKernel>,
)
    requires
        call_ensures(DeltanetKernels::launch_recurrence, (k, head_dim, n_head), r),
    ensures
        r@.len() == 1,
        calls(
                r@[0],
                "recurrence_f32"@,
                seq![
                    ("qkv"@, Arg::Buf(Buffer::Qkv)),
                    ("beta"@, Arg::Buf(Buffer::Beta)),
                    ("decay"@, Arg::Buf(Buffer::Decay)),
                    ("state"@, Arg::Buf(Buffer::State)),
                    ("output"@, Arg::Buf(Buffer::Output)),
                    ("head_dim"@, int_arg(head_dim as int)),
                    ("n_head"@, int_arg(n_head as int)),
                ],
            ),
        shaped(r@[0].config, n_head as int, 1, 1, head_dim as int, head_dim as int),
{
}

/// A warp per state row of every head.
pub proof fn law_launch_recurrence_parallel(
    k: &DeltanetKernels,
    head_dim: usize,
    n_head: usize,
    r: LaunchPlan<DeltanetKernel>,
)
    requires
        call_ensures(DeltanetKernels::launch_recurrence_parallel, (k, head_dim, n_head), r),
    ensures
        r@.len() == 1,
        calls(
                r@[0],
                "recurrence_f32_parallel"@,
                seq![
                    ("qkv"@, Arg::Buf(Buffer::Qkv)),
                    ("beta"@, Arg::Buf(Buffer::Beta)),
                    ("decay"@, Arg::Buf(Buffer::Decay)),
                    ("state"@, Arg::Buf(Buffer::State)),
                    ("output"@, Arg::Buf(Buffer::Output)),
                    ("head_dim"@, int_arg(head_dim as int)),
                    ("n_head"@, int_arg(n_head as int)),
                ],
            ),
        shaped(r@[0].config, n_head as int, head_dim as int, 1, 32, 0),
{
}

/// The fused recurrence of a head dimension is the kernel whose name ends in that head
/// dimension, with a warp for each of its state rows.
pub proof fn law_launch_recurrence_fused(
    k: &DeltanetKernels,
    head_dim: usize,
    n_head: usize,
    r: Result<LaunchPlan<DeltanetKernel>, CudarcKernelError>,
)
    requires
        call_ensures(DeltanetKernels::launch_recurrence_fused, (k, head_dim, n_head), r),
    ensures
        r is Ok <==> head_dim == 64 || head_dim == 128 || head_dim == 256,
        r matches Err(e) ==> e@ is InvalidArg,
        r is Ok ==> r->Ok_0@.len() == 1,
        r is Ok ==> calls(
                r->Ok_0@[0],
                "recurrence_f32_fused_hd"@ + decimal(head_dim as nat),
                seq![
                    ("qkv"@, Arg::Buf(Buffer::Qkv)),
                    ("beta"@, Arg::Buf(Buffer::Beta)),
                    ("decay"@, Arg::Buf(Buffer::Decay)),
                    ("state"@, Arg::Buf(Buffer::State)),
                    ("output"@, Arg::Buf(Buffer::Output)),
                    ("n_head"@, int_arg(n_head as int)),
                ],
            ),
        r is Ok ==> (shaped(r->Ok_0@[0].config, n_head as int, head_dim as int, 1, 32, 0)),
{
    lemma_fused_names();
}

/// The state of halves is advanced by the kernel of its format.
pub proof fn law_launch_recurrence_fused_half_hd128(
    k: &DeltanetKernels,
    n_head: usize,
    fmt: HalfStateFmt,
    r: LaunchPlan<DeltanetKernel>,
)
    requires
        call_ensures(DeltanetKernels::launch_recurrence_fused_half_hd128, (k, n_head, fmt), r),
    ensures
        r@.len() == 1,
        calls(
                r@[0],
                match fmt {
                    HalfStateFmt::F16 => "recurrence_half_fused_hd128_f16"@,
                    HalfStateFmt::Bf16 => "recurrence_half_fused_hd128_bf16"@,
                },
                seq![
                    ("qkv"@, Arg::Buf(Buffer::Qkv)),
                    ("beta"@, Arg::Buf(Buffer::Beta)),
                    ("decay"@, Arg::Buf(Buffer::Decay)),
                    ("state"@, Arg::Buf(Buffer::State)),
                    ("output"@, Arg::Buf(Buffer::Output)),
                    ("n_head"@, int_arg(n_head as int)),
                ],
            ),
        shaped(r@[0].config, n_head as int, 128 as int, 1, 32, 0),
{
}

/// The output is gated in place.
pub proof fn law_launch_z_gating(
    k: &DeltanetKernels,
    n: usize,
    r: LaunchPlan<DeltanetKernel>,
)
    requires
        call_ensures(DeltanetKernels::launch_z_gating, (k, n), r),
    ensures
        r@.len() == 1,
        calls(
                r@[0],
                "z_gating_f32"@,
                seq![
                    ("output"@, Arg::Buf(Buffer::Output)),
                    ("z"@, Arg::Buf(Buffer::Z)),
                    ("n"@, int_arg(n as int)),
                ],
            ),
        a_thread_each(r@[0].config, low_u32(n as int) as int),
{
    lemma_a_thread_each(n as int);
}

/// The backward pass reads the saved sequences and the gradient of the outputs, and
/// writes the gradients of the inputs: a block per head, a thread and two floats of
/// shared memory per lane.
pub proof fn law_launch_bptt_recompute(
    k: &DeltanetKernels,
    t_len: usize,
    head_dim: usize,
    n_head: usize,
    r: LaunchPlan<DeltanetKernel>,
)
    requires
        call_ensures(DeltanetKernels::launch_bptt_recompute, (k, t_len, head_dim, n_head), r),
    ensures
        r@.len() == 1,
        calls(
                r@[0],
                "deltanet_bptt_recompute_f32"@,
                seq![
                    ("qkv_seq"@, Arg::Buf(Buffer::QkvSeq)),
                    ("beta_seq"@, Arg::Buf(Buffer::BetaSeq)),
                    ("decay_seq"@, Arg::Buf(Buffer::DecaySeq)),
                    ("grad_out_seq"@, Arg::Buf(Buffer::GradOutSeq)),
                    ("grad_qkv_seq"@, Arg::Buf(Buffer::GradQkvSeq)),
                    ("grad_beta_seq"@, Arg::Buf(Buffer::GradBetaSeq)),
                    ("grad_decay_seq"@, Arg::Buf(Buffer::GradDecaySeq)),
                    ("state_decayed_seq"@, Arg::Buf(Buffer::StateDecayedSeq)),
                    ("state_seq"@, Arg::Buf(Buffer::StateSeq)),
                    ("kv_mem_seq"@, Arg::Buf(Buffer::KvMemSeq)),
                    ("delta_seq"@, Arg::Buf(Buffer::DeltaSeq)),
                    ("grad_s"@, Arg::Buf(Buffer::GradS)),
                    ("T"@, int_arg(t_len as int)),
                    ("head_dim"@, int_arg(head_dim as int)),
                    ("n_head"@, int_arg(n_head as int)),
                ],
            ),
        shaped(r@[0].config, n_head as int, 1, 1, head_dim as int, 2 * head_dim),
{
}

/// The rows are convolved one after another, a thread per channel, with windows of four
/// or eight.
pub proof fn law_launch_conv1d_rows(
    k: &DeltanetKernels,
    conv_dim: usize,
    kernel_size: usize,
    p: usize,
    r: Result<LaunchPlan<DeltanetKernel>, CudarcKernelError>,
)
    requires
        call_ensures(DeltanetKernels::launch_conv1d_rows, (k, conv_dim, kernel_size, p), r),
    ensures
        r is Ok <==> kernel_size == 4 || kernel_size == 8,
        r matches Err(e) ==> e@ is InvalidArg,
        r is Ok ==> r->Ok_0@.len() == 1,
        r is Ok ==> calls(
                r->Ok_0@[0],
                "conv1d_rows_f32"@,
                seq![
                    ("input"@, Arg::Buf(Buffer::Input)),
                    ("weight"@, Arg::Buf(Buffer::Weight)),
                    ("conv_state"@, Arg::Buf(Buffer::ConvState)),
                    ("conv_dim"@, int_arg(conv_dim as int)),
                    ("kernel_size"@, int_arg(kernel_size as int)),
                    ("p"@, int_arg(p as int)),
                ],
            ),
        r is Ok ==> (a_thread_each(r->Ok_0@[0].config, low_u32(conv_dim as int) as int)),
{
    lemma_a_thread_each(conv_dim as int);
}

/// The gates of every row: write gates to the write gates, decays to the decays.
pub proof fn law_launch_beta_decay_rows(
    k: &DeltanetKernels,
    n_head: usize,
    p: usize,
    r: LaunchPlan<DeltanetKernel>,
)
    requires
        call_ensures(DeltanetKernels::launch_beta_decay_rows, (k, n_head, p), r),
    ensures
        r@.len() == 1,
        calls(
                r@[0],
                "beta_decay_rows_f32"@,
                seq![
                    ("a_raw"@, Arg::Buf(Buffer::ARaw)),
                    ("b_raw"@, Arg::Buf(Buffer::BRaw)),
                    ("a_log"@, Arg::Buf(Buffer::ALog)),
                    ("dt_bias"@, Arg::Buf(Buffer::DtBias)),
                    ("beta_out"@, Arg::Buf(Buffer::Beta)),
                    ("decay_out"@, Arg::Buf(Buffer::Decay)),
                    ("n_head"@, int_arg(n_head as int)),
                    ("p"@, int_arg(p as int)),
                ],
            ),
        shaped(r@[0].config, 1, 1, 1, if n_head == 0 { 1 } else { n_head as int }, 0),
{
}

/// The rows advance the state one after another, with a warp for each of 128 state
/// rows.
pub proof fn law_launch_recurrence_fused_rows_hd128(
    k: &DeltanetKernels,
    n_head: usize,
    p: usize,
    r: LaunchPlan<DeltanetKernel>,
)
    requires
        call_ensures(DeltanetKernels::launch_recurrence_fused_rows_hd128, (k, n_head, p), r),
    ensures
        r@.len() == 1,
        calls(
                r@[0],
                "recurrence_f32_fused_rows_hd128"@,
                seq![
                    ("qkv"@, Arg::Buf(Buffer::Qkv)),
                    ("beta"@, Arg::Buf(Buffer::Beta)),
                    ("decay"@, Arg::Buf(Buffer::Decay)),
                    ("state"@, Arg::Buf(Buffer::State)),
                    ("output"@, Arg::Buf(Buffer::Output)),
                    ("n_head"@, int_arg(n_head as int)),
                    ("p"@, int_arg(p as int)),
                ],
            ),
        shaped(r@[0].config, n_head as int, 128 as int, 1, 32, 0),
{
}

/// What an expansion of rows launches: nothing where there is no element, else one
/// kernel, which reads the compact rows and writes the expanded ones. The staged
/// kernel has a block for each section of every row, the legacy one a thread for each
/// expanded element.
pub proof fn law_expand_rows(
    staged: bool,
    n_k_heads: usize,
    n_v_heads: usize,
    head_dim: usize,
    p: usize,
)
    ensures
        ({
            let plan = expand_rows_launches(staged, n_k_heads, n_v_heads, head_dim, p);
            let total = p * 3 * n_v_heads * head_dim;
            &&& plan.len() == 0 <==> p == 0 || n_v_heads == 0 || head_dim == 0
            &&& plan.len() <= 1
            &&& plan.len() == 1 && staged && n_k_heads <= 1024 ==> calls(
                plan[0],
                "expand_and_l2_normalize_heads_rows_v2_f32"@,
                seq![
                ("compact"@, Arg::Buf(Buffer::Compact)),
                ("expanded"@, Arg::Buf(Buffer::Expanded)),
                ("n_k_heads"@, int_arg(n_k_heads as int)),
                ("n_v_heads"@, int_arg(n_v_heads as int)),
                ("head_dim"@, int_arg(head_dim as int)),
                ("p"@, int_arg(p as int)),
            ],
            ) && shaped(plan[0].config, p as int, 3, 1, 1024, 0)
            &&& plan.len() == 1 && !(staged && n_k_heads <= 1024) ==> calls(
                plan[0],
                "expand_and_l2_normalize_heads_rows_f32"@,
                seq![
                ("compact"@, Arg::Buf(Buffer::Compact)),
                ("expanded"@, Arg::Buf(Buffer::Expanded)),
                ("n_k_heads"@, int_arg(n_k_heads as int)),
                ("n_v_heads"@, int_arg(n_v_heads as int)),
                ("head_dim"@, int_arg(head_dim as int)),
                ("p"@, int_arg(p as int)),
            ],
            ) && a_thread_each(plan[0].config, low_u32(total) as int)
        }),
{
    assert((p * 3 * n_v_heads * head_dim == 0) <==> (p == 0 || n_v_heads == 0 || head_dim == 0))
        by (nonlinear_arith)
        requires
            p >= 0,
            n_v_heads >= 0,
            head_dim >= 0,
    ;
    lemma_a_thread_each(p * 3 * n_v_heads * head_dim);
}

} // verus!
