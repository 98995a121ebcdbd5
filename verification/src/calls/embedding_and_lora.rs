//! What each launch of the embedding and low-rank kernels calls.

use vstd::prelude::*;
use crate::calls::{a_thread_each, lemma_a_thread_each, shaped};
use crate::embedding::{EmbeddingDequantKernels, EmbeddingKernel};
use crate::geometry::{int_arg, low_u32};
use crate::launch::{Arg, Buffer, LaunchPlan, Real};
use crate::lora::{LoraDecodeKernels, LoraKernel};
use crate::sources::calls;

verus! {

/// The row is read from both bit planes and the scales, a thread per column.
pub proof fn law_launch_dequant_row(
    k: &EmbeddingDequantKernels,
    row_idx: usize,
    blocks64: usize,
    groups_per_row: usize,
    n: usize,
    r: LaunchPlan<EmbeddingKernel>,
)
    requires
        call_ensures(
            EmbeddingDequantKernels::launch_dequant_row,
            (k, row_idx, blocks64, groups_per_row, n),
            r,
        ),
    ensures
        r@.len() == 1,
        calls(
                r@[0],
                "dequant_wte_row_f32"@,
                seq![
                    ("pos_bits_u32"@, Arg::Buf(Buffer::PosBits)),
                    ("neg_bits_u32"@, Arg::Buf(Buffer::NegBits)),
                    ("group_scale_f32"@, Arg::Buf(Buffer::GroupScale)),
                    ("out"@, Arg::Buf(Buffer::Output)),
                    ("row_idx"@, int_arg(row_idx as int)),
                    ("blocks64"@, int_arg(blocks64 as int)),
                    ("groups_per_row"@, int_arg(groups_per_row as int)),
                    ("n"@, int_arg(n as int)),
                    ("group_size"@, Arg::I32(128)),
                ],
            ),
        a_thread_each(r@[0].config, low_u32(n as int) as int),
{
    lemma_a_thread_each(n as int);
}

/// The row that the buffer holds.
pub proof fn law_launch_dequant_row_devpos(
    k: &EmbeddingDequantKernels,
    blocks64: usize,
    groups_per_row: usize,
    n: usize,
    r: LaunchPlan<EmbeddingKernel>,
)
    requires
        call_ensures(
            EmbeddingDequantKernels::launch_dequant_row_devpos,
            (k, blocks64, groups_per_row, n),
            r,
        ),
    ensures
        r@.len() == 1,
        calls(
                r@[0],
                "dequant_wte_row_f32_devpos"@,
                seq![
                    ("pos_bits_u32"@, Arg::Buf(Buffer::PosBits)),
                    ("neg_bits_u32"@, Arg::Buf(Buffer::NegBits)),
                    ("group_scale_f32"@, Arg::Buf(Buffer::GroupScale)),
                    ("out"@, Arg::Buf(Buffer::Output)),
                    ("row_idx_dev"@, Arg::Buf(Buffer::RowIdxDev)),
                    ("blocks64"@, int_arg(blocks64 as int)),
                    ("groups_per_row"@, int_arg(groups_per_row as int)),
                    ("n"@, int_arg(n as int)),
                    ("group_size"@, Arg::I32(128)),
                ],
            ),
        a_thread_each(r@[0].config, low_u32(n as int) as int),
{
    lemma_a_thread_each(n as int);
}

/// A correction goes down and up with the matrices of one projection: what the query's
/// down-projection writes the query's up-projection reads, and likewise for the value.
/// The query's is added from the start of the row, the value's behind the query and key
/// slices.
pub proof fn law_launch_qv_apply(
    k: &LoraDecodeKernels,
    n_embd: usize,
    q_dim: usize,
    k_dim: usize,
    v_dim: usize,
    rank: usize,
    r: LaunchPlan<LoraKernel>,
)
    requires
        call_ensures(LoraDecodeKernels::launch_qv_apply, (k, n_embd, q_dim, k_dim, v_dim, rank), r),
    ensures
        r@.len() == 4,
        calls(
                r@[0],
                "lora_down_project_f32"@,
                seq![
                    ("a_mat"@, Arg::Buf(Buffer::ALoraQ)),
                    ("norm_x"@, Arg::Buf(Buffer::NormX)),
                    ("ax_out"@, Arg::Buf(Buffer::AxQ)),
                    ("rank"@, int_arg(rank as int)),
                    ("n_embd"@, int_arg(n_embd as int)),
                ],
            ),
        shaped(r@[0].config, 1, 1, 1, if rank == 0 { 1 } else { rank as int }, 0),
        calls(
                r@[1],
                "lora_down_project_f32"@,
                seq![
                    ("a_mat"@, Arg::Buf(Buffer::ALoraV)),
                    ("norm_x"@, Arg::Buf(Buffer::NormX)),
                    ("ax_out"@, Arg::Buf(Buffer::AxV)),
                    ("rank"@, int_arg(rank as int)),
                    ("n_embd"@, int_arg(n_embd as int)),
                ],
            ),
        shaped(r@[1].config, 1, 1, 1, if rank == 0 { 1 } else { rank as int }, 0),
        calls(
                r@[2],
                "lora_up_project_add_f32"@,
                seq![
                    ("b_mat"@, Arg::Buf(Buffer::BLoraQ)),
                    ("ax"@, Arg::Buf(Buffer::AxQ)),
                    ("qkv"@, Arg::Buf(Buffer::Qkv)),
                    ("out_dim"@, int_arg(q_dim as int)),
                    ("rank"@, int_arg(rank as int)),
                    ("slice_off"@, Arg::I32(0)),
                    ("scale"@, Arg::Real(Real::Scale)),
                ],
            ),
        a_thread_each(r@[2].config, low_u32(q_dim as int) as int),
        calls(
                r@[3],
                "lora_up_project_add_f32"@,
                seq![
                    ("b_mat"@, Arg::Buf(Buffer::BLoraV)),
                    ("ax"@, Arg::Buf(Buffer::AxV)),
                    ("qkv"@, Arg::Buf(Buffer::Qkv)),
                    ("out_dim"@, int_arg(v_dim as int)),
                    ("rank"@, int_arg(rank as int)),
                    ("slice_off"@, int_arg(q_dim + k_dim)),
                    ("scale"@, Arg::Real(Real::Scale)),
                ],
            ),
        a_thread_each(r@[3].config, low_u32(v_dim as int) as int),
{
    lemma_a_thread_each(q_dim as int);
    lemma_a_thread_each(v_dim as int);
}

} // verus!
