//! What each elementwise launch calls.

use vstd::prelude::*;
use crate::calls::{a_thread_for_each, in_pieces, lemma_in_pieces, lemma_sums, shaped, sums};
use crate::elementwise::{ElementwiseKernel, ElementwiseKernels};
use crate::geometry::{int_arg, law_pieces_cover, low_u32};
use crate::launch::{Arg, Buffer, LaunchPlan, Real};
use crate::sources::calls;

verus! {

/// The mean is over the elements; one block of 256 threads, with a float of shared
/// memory each.
pub proof fn law_launch_rmsnorm(
    k: &ElementwiseKernels,
    dim: usize,
    r: LaunchPlan<ElementwiseKernel>,
)
    requires
        call_ensures(ElementwiseKernels::launch_rmsnorm, (k, dim), r),
    ensures
        r@.len() == 1,
        calls(
                r@[0],
                "rmsnorm_f32"@,
                seq![
                    ("input"@, Arg::Buf(Buffer::Input)),
                    ("gamma"@, Arg::Buf(Buffer::Gamma)),
                    ("output"@, Arg::Buf(Buffer::Output)),
                    ("inv_dim"@, Arg::Recip(dim)),
                    ("eps"@, Arg::Real(Real::Eps)),
                    ("dim"@, int_arg(dim as int)),
                ],
            ),
        shaped(r@[0].config, 1, 1, 1, 256, 256),
{
}

/// Sixteen activations share a scale, and a block has a thread for each of them.
pub proof fn law_launch_quantize(
    k: &ElementwiseKernels,
    n: usize,
    scales: int,
    r: LaunchPlan<ElementwiseKernel>,
)
    requires
        call_ensures(ElementwiseKernels::launch_quantize, (k, n), r),
        in_pieces(n as int, 16, scales),
    ensures
        r@.len() == 1,
        calls(
                r@[0],
                "quantize_f32_to_i8"@,
                seq![
                    ("x"@, Arg::Buf(Buffer::X)),
                    ("out"@, Arg::Buf(Buffer::OutI8)),
                    ("ascale"@, Arg::Buf(Buffer::Ascale)),
                    ("n"@, int_arg(n as int)),
                    ("ablock"@, Arg::I32(16)),
                    ("ablocks"@, int_arg(scales)),
                ],
            ),
        shaped(r@[0].config, scales, 1, 1, 16, 0),
{
    lemma_in_pieces(n as int, 16, scales);
}

/// The gated activations are quantised, sixteen to a scale.
pub proof fn law_launch_swiglu_quantize(
    k: &ElementwiseKernels,
    n: usize,
    scales: int,
    r: LaunchPlan<ElementwiseKernel>,
)
    requires
        call_ensures(ElementwiseKernels::launch_swiglu_quantize, (k, n), r),
        in_pieces(n as int, 16, scales),
    ensures
        r@.len() == 1,
        calls(
                r@[0],
                "swiglu_quantize_f32"@,
                seq![
                    ("gate"@, Arg::Buf(Buffer::Gate)),
                    ("up"@, Arg::Buf(Buffer::Up)),
                    ("out"@, Arg::Buf(Buffer::OutI8)),
                    ("ascale"@, Arg::Buf(Buffer::Ascale)),
                    ("n"@, int_arg(n as int)),
                    ("ablock"@, Arg::I32(16)),
                    ("ablocks"@, int_arg(scales)),
                ],
            ),
        shaped(r@[0].config, scales, 1, 1, 16, 0),
{
    lemma_in_pieces(n as int, 16, scales);
}

/// The gated activations are quantised, sixteen to a scale.
pub proof fn law_launch_gate_silu_quantize(
    k: &ElementwiseKernels,
    n: usize,
    scales: int,
    r: LaunchPlan<ElementwiseKernel>,
)
    requires
        call_ensures(ElementwiseKernels::launch_gate_silu_quantize, (k, n), r),
        in_pieces(n as int, 16, scales),
    ensures
        r@.len() == 1,
        calls(
                r@[0],
                "gate_silu_quantize_f32"@,
                seq![
                    ("x"@, Arg::Buf(Buffer::X)),
                    ("gate"@, Arg::Buf(Buffer::Gate)),
                    ("out"@, Arg::Buf(Buffer::OutI8)),
                    ("ascale"@, Arg::Buf(Buffer::Ascale)),
                    ("n"@, int_arg(n as int)),
                    ("ablock"@, Arg::I32(16)),
                    ("ablocks"@, int_arg(scales)),
                ],
            ),
        shaped(r@[0].config, scales, 1, 1, 16, 0),
{
    lemma_in_pieces(n as int, 16, scales);
}

/// The gated activations are quantised, sixteen to a scale.
pub proof fn law_launch_gate_sigmoid_quantize(
    k: &ElementwiseKernels,
    n: usize,
    scales: int,
    r: LaunchPlan<ElementwiseKernel>,
)
    requires
        call_ensures(ElementwiseKernels::launch_gate_sigmoid_quantize, (k, n), r),
        in_pieces(n as int, 16, scales),
    ensures
        r@.len() == 1,
        calls(
                r@[0],
                "gate_sigmoid_quantize_f32"@,
                seq![
                    ("x"@, Arg::Buf(Buffer::X)),
                    ("gate"@, Arg::Buf(Buffer::Gate)),
                    ("out"@, Arg::Buf(Buffer::OutI8)),
                    ("ascale"@, Arg::Buf(Buffer::Ascale)),
                    ("n"@, int_arg(n as int)),
                    ("ablock"@, Arg::I32(16)),
                    ("ablocks"@, int_arg(scales)),
                ],
            ),
        shaped(r@[0].config, scales, 1, 1, 16, 0),
{
    lemma_in_pieces(n as int, 16, scales);
}

/// The mean is over the lanes of a head; a block of 256 threads per head.
pub proof fn law_launch_rmsnorm_gate_silu_quantize(
    k: &ElementwiseKernels,
    n_v_heads: usize,
    head_dim: usize,
    r: LaunchPlan<ElementwiseKernel>,
)
    requires
        call_ensures(
            ElementwiseKernels::launch_rmsnorm_gate_silu_quantize,
            (k, n_v_heads, head_dim),
            r,
        ),
    ensures
        r@.len() == 1,
        calls(
                r@[0],
                "rmsnorm_gate_silu_quantize_f32"@,
                seq![
                    ("x"@, Arg::Buf(Buffer::X)),
                    ("gate"@, Arg::Buf(Buffer::Gate)),
                    ("gamma"@, Arg::Buf(Buffer::Gamma)),
                    ("out"@, Arg::Buf(Buffer::OutI8)),
                    ("ascale"@, Arg::Buf(Buffer::Ascale)),
                    ("inv_head_dim"@, Arg::Recip(head_dim)),
                    ("eps"@, Arg::Real(Real::Eps)),
                    ("head_dim"@, int_arg(head_dim as int)),
                    ("ablock"@, Arg::I32(16)),
                ],
            ),
        shaped(r@[0].config, n_v_heads as int, 1, 1, 256, 256),
{
}

/// The two rows are added.
pub proof fn law_launch_residual_add(
    k: &ElementwiseKernels,
    n: usize,
    r: LaunchPlan<ElementwiseKernel>,
)
    requires
        call_ensures(ElementwiseKernels::launch_residual_add, (k, n), r),
    ensures
        r@.len() == 1,
        calls(
                r@[0],
                "residual_add_f32"@,
                seq![
                    ("a"@, Arg::Buf(Buffer::A)),
                    ("b"@, Arg::Buf(Buffer::B)),
                    ("output"@, Arg::Buf(Buffer::Output)),
                    ("n"@, int_arg(n as int)),
                ],
            ),
        a_thread_for_each(r@[0].config, low_u32(n as int) as int),
{
    if low_u32(n as int) > 0 {
        law_pieces_cover(low_u32(n as int) as int, 256, 0);
    }
}

/// One row is gated by the other.
pub proof fn law_launch_swiglu(
    k: &ElementwiseKernels,
    n: usize,
    r: LaunchPlan<ElementwiseKernel>,
)
    requires
        call_ensures(ElementwiseKernels::launch_swiglu, (k, n), r),
    ensures
        r@.len() == 1,
        calls(
                r@[0],
                "swiglu_f32"@,
                seq![
                    ("gate"@, Arg::Buf(Buffer::Gate)),
                    ("up"@, Arg::Buf(Buffer::Up)),
                    ("output"@, Arg::Buf(Buffer::Output)),
                    ("n"@, int_arg(n as int)),
                ],
            ),
        a_thread_for_each(r@[0].config, low_u32(n as int) as int),
{
    if low_u32(n as int) > 0 {
        law_pieces_cover(low_u32(n as int) as int, 256, 0);
    }
}

/// One thread per value as far as 4096 blocks go; a value and an index of shared memory
/// per thread.
pub proof fn law_launch_argmax_first(
    k: &ElementwiseKernels,
    n: usize,
    r: LaunchPlan<ElementwiseKernel>,
)
    requires
        call_ensures(ElementwiseKernels::launch_argmax_first, (k, n), r),
    ensures
        r@.len() == 1,
        calls(
                r@[0],
                "argmax_first_f32"@,
                seq![
                    ("values"@, Arg::Buf(Buffer::Values)),
                    ("n"@, int_arg(n as int)),
                    ("result"@, Arg::Buf(Buffer::Result)),
                ],
            ),
        r@[0].config.block_dim == (256u32, 1u32, 1u32) && r@[0].config.grid_dim.1 == 1 && r@[0].config.grid_dim.2 == 1,
        r@[0].config.shared_mem_bytes == 256 * (4 + 4),
        r@[0].config.grid_dim.0 <= 4096 && 256 * (r@[0].config.grid_dim.0 - 1) < low_u32(n as int),
        r@[0].config.grid_dim.0 == 4096 || 256 * r@[0].config.grid_dim.0 >= low_u32(n as int),
{
    if low_u32(n as int) > 0 {
        law_pieces_cover(low_u32(n as int) as int, 256, 0);
    }
}

/// Norm, quantised norm and scales come from one block, whose threads sum pairwise.
pub proof fn law_launch_rmsnorm_quantize_with_norm_x(
    k: &ElementwiseKernels,
    dim: usize,
    scales: int,
    w: int,
    r: LaunchPlan<ElementwiseKernel>,
)
    requires
        call_ensures(ElementwiseKernels::launch_rmsnorm_quantize_with_norm_x, (k, dim), r),
        in_pieces(dim as int, 16, scales),
        sums(w, scales),
    ensures
        r@.len() == 1,
        calls(
                r@[0],
                "rmsnorm_quantize_with_norm_x_f32"@,
                seq![
                    ("input"@, Arg::Buf(Buffer::Input)),
                    ("gamma"@, Arg::Buf(Buffer::Gamma)),
                    ("out"@, Arg::Buf(Buffer::OutI8)),
                    ("ascale"@, Arg::Buf(Buffer::Ascale)),
                    ("norm_x_out"@, Arg::Buf(Buffer::NormX)),
                    ("inv_dim"@, Arg::Recip(dim)),
                    ("eps"@, Arg::Real(Real::Eps)),
                    ("dim"@, int_arg(dim as int)),
                    ("ablock"@, Arg::I32(16)),
                    ("ablocks"@, int_arg(scales)),
                    ("block_size"@, int_arg(w)),
                ],
            ),
        shaped(r@[0].config, 1, 1, 1, w, w),
{
    lemma_in_pieces(dim as int, 16, scales);
    lemma_sums(w, scales);
}

/// Without scratch, or above 8192 elements, the quantised norm comes from one block,
/// whose threads sum pairwise.
pub proof fn law_launch_rmsnorm_quantize_one_block(
    k: &ElementwiseKernels,
    dim: usize,
    scales: int,
    w: int,
    r: LaunchPlan<ElementwiseKernel>,
)
    requires
        call_ensures(ElementwiseKernels::launch_rmsnorm_quantize, (k, dim), r),
        in_pieces(dim as int, 16, scales),
        sums(w, scales),
        !k.mb_scratch || dim > 8192,
    ensures
        r@.len() == 1,
        calls(
                r@[0],
                "rmsnorm_quantize_f32"@,
                seq![
                    ("input"@, Arg::Buf(Buffer::Input)),
                    ("gamma"@, Arg::Buf(Buffer::Gamma)),
                    ("out"@, Arg::Buf(Buffer::OutI8)),
                    ("ascale"@, Arg::Buf(Buffer::Ascale)),
                    ("inv_dim"@, Arg::Recip(dim)),
                    ("eps"@, Arg::Real(Real::Eps)),
                    ("dim"@, int_arg(dim as int)),
                    ("ablock"@, Arg::I32(16)),
                    ("ablocks"@, int_arg(scales)),
                    ("block_size"@, int_arg(w)),
                ],
            ),
        shaped(r@[0].config, 1, 1, 1, w, w),
{
    lemma_in_pieces(dim as int, 16, scales);
    lemma_sums(w, scales);
}

/// With scratch and up to 8192 elements it comes from several blocks of one warp, which
/// share the partial sums and the arrival counters.
pub proof fn law_launch_rmsnorm_quantize_several_blocks(
    k: &ElementwiseKernels,
    dim: usize,
    scales: int,
    w: int,
    r: LaunchPlan<ElementwiseKernel>,
)
    requires
        call_ensures(ElementwiseKernels::launch_rmsnorm_quantize, (k, dim), r),
        in_pieces(dim as int, 16, scales),
        sums(w, scales),
        k.mb_scratch,
        dim <= 8192,
    ensures
        r@.len() == 1,
        calls(
                r@[0],
                "rmsnorm_quantize_multiblock_f32"@,
                seq![
                    ("input"@, Arg::Buf(Buffer::Input)),
                    ("gamma"@, Arg::Buf(Buffer::Gamma)),
                    ("out"@, Arg::Buf(Buffer::OutI8)),
                    ("ascale"@, Arg::Buf(Buffer::Ascale)),
                    ("partials"@, Arg::Buf(Buffer::Partials)),
                    ("arrived"@, Arg::Buf(Buffer::Arrived)),
                    ("inv_dim"@, Arg::Recip(dim)),
                    ("eps"@, Arg::Real(Real::Eps)),
                    ("dim"@, int_arg(dim as int)),
                    ("ablock"@, Arg::I32(16)),
                    ("ablocks"@, int_arg(scales)),
                    ("block_size"@, int_arg(w)),
                ],
            ),
        shaped(r@[0].config, if w < 32 { 1 } else { w / 32 }, 1, 1, 32, 0),
{
    lemma_in_pieces(dim as int, 16, scales);
    lemma_sums(w, scales);
}

} // verus!
