//! What holds of the elementwise launches, of the norm's scratch and of the
//! argmax result.

use vstd::prelude::*;
use vstd::arithmetic::div_mod::{lemma_fundamental_div_mod, lemma_fundamental_div_mod_converse};
use vstd::arithmetic::power2::{lemma2_to64, pow2};
use crate::elementwise::{
    ablocks, argmax_blocks, argmax_index, argmax_packed, elementwise_build, elementwise_kernels,
    gate_sigmoid_quantize_launch, gate_silu_quantize_launch, multiblock_grid, quantize_launch,
    rmsnorm_quantize_choice, rmsnorm_quantize_launch, rmsnorm_quantize_multiblock_launch,
    rmsnorm_quantize_with_norm_x_launch, scratch_allocs, swiglu_quantize_launch, tree_width,
    ElementwiseKernel, ScratchAlloc, MULTIBLOCK_MAX_LEAVES,
};
use crate::geometry::{law_pieces_cover, linear_blocks};
use crate::launch::{Arg, Buffer};
use crate::module::{BuildStepView, KernelId, DEFAULT_SHARED_MEMORY};

verus! {

/// The width of the summation tree is a power of two of at most 1024; it has a
/// thread for every leaf where 1024 are enough, and half of it would not do.
pub proof fn law_tree_width(leaves: int)
    ensures
        exists|k: nat| k <= 10 && tree_width(leaves) == #[trigger] pow2(k),
        1 <= tree_width(leaves) <= 1024,
        leaves <= 1024 ==> leaves <= tree_width(leaves),
        tree_width(leaves) > 1 ==> tree_width(leaves) / 2 < leaves,
{
    lemma2_to64();
    let k: nat = if leaves <= 1 {
        0
    } else if leaves <= 2 {
        1
    } else if leaves <= 4 {
        2
    } else if leaves <= 8 {
        3
    } else if leaves <= 16 {
        4
    } else if leaves <= 32 {
        5
    } else if leaves <= 64 {
        6
    } else if leaves <= 128 {
        7
    } else if leaves <= 256 {
        8
    } else if leaves <= 512 {
        9
    } else {
        10
    };
    assert(tree_width(leaves) == pow2(k));
}

/// With the scratch a norm runs over several blocks exactly where it has at most
/// 8192 elements; without it, never.
pub proof fn law_several_blocks_up_to_8192(scratch: bool, dim: usize)
    ensures
        tree_width(ablocks(dim)) <= MULTIBLOCK_MAX_LEAVES <==> dim <= 8192,
        rmsnorm_quantize_choice(scratch, dim) == if scratch && dim <= 8192 {
            rmsnorm_quantize_multiblock_launch(dim)
        } else {
            rmsnorm_quantize_launch(dim)
        },
{
}

/// The several-block norm has 1 to 16 blocks of one warp, together a thread for
/// every leaf and at least one warp, and a scratch of 512 partial sums holds all
/// leaves.
pub proof fn law_several_blocks_fit(dim: usize)
    requires
        dim <= 8192,
    ensures
        1 <= multiblock_grid(dim) <= 16,
        rmsnorm_quantize_multiblock_launch(dim).config.grid_dim.0 == multiblock_grid(dim),
        multiblock_grid(dim) * 32 >= tree_width(ablocks(dim)) >= ablocks(dim),
        tree_width(ablocks(dim)) >= 32 ==> multiblock_grid(dim) * 32 == tree_width(ablocks(dim)),
        tree_width(ablocks(dim)) <= MULTIBLOCK_MAX_LEAVES,
{
}

/// The one-block norm is launched the same way with and without the norm as a
/// second output, within a block's threads and shared memory.
pub proof fn law_one_block_norms_agree(dim: usize)
    ensures
        rmsnorm_quantize_with_norm_x_launch(dim).config == rmsnorm_quantize_launch(dim).config,
        rmsnorm_quantize_with_norm_x_launch(dim).args == rmsnorm_quantize_launch(dim).args.insert(
            4,
            Arg::Buf(Buffer::NormX),
        ),
        rmsnorm_quantize_launch(dim).config.block_dim.0 == tree_width(ablocks(dim)),
        rmsnorm_quantize_launch(dim).config.block_dim.0 <= 1024,
        rmsnorm_quantize_launch(dim).config.shared_mem_bytes
            == rmsnorm_quantize_launch(dim).config.block_dim.0 * 4,
        rmsnorm_quantize_launch(dim).config.shared_mem_bytes <= DEFAULT_SHARED_MEMORY,
{
    assert(rmsnorm_quantize_with_norm_x_launch(dim).args =~= rmsnorm_quantize_launch(
        dim,
    ).args.insert(4, Arg::Buf(Buffer::NormX)));
}

/// Every scale is one thread's, whatever the number of elements: thread `t` of a
/// one-block norm has the scales `t`, `t + w`, `t + 2 * w` and so on, for `w`
/// threads, so scale `s` is that of thread `s % w` and of no other. Up to 16384
/// elements no thread has more than one.
pub proof fn law_scales_have_threads(dim: usize, s: int)
    requires
        0 <= s < ablocks(dim),
    ensures
        ({
            let w = rmsnorm_quantize_launch(dim).config.block_dim.0 as int;
            &&& rmsnorm_quantize_with_norm_x_launch(dim).config.block_dim.0 == w
            &&& 0 <= s % w < w
            &&& 0 <= s / w
            &&& s == s % w + (s / w) * w
            &&& forall|t: int, k: int|
                0 <= t < w && s == #[trigger] (t + k * w) ==> t == s % w && k == s / w
            &&& dim <= 16384 ==> s / w == 0 && s % w == s
        }),
{
    let w = rmsnorm_quantize_launch(dim).config.block_dim.0 as int;
    assert(w == tree_width(ablocks(dim)) && 1 <= w);
    lemma_fundamental_div_mod(s, w);
    assert(w * (s / w) == (s / w) * w) by (nonlinear_arith);
    assert(0 <= s / w) by (nonlinear_arith)
        requires
            s == (s / w) * w + s % w,
            0 <= s % w < w,
            0 <= s,
    ;
    assert forall|t: int, k: int| 0 <= t < w && s == #[trigger] (t + k * w) implies t == s % w && k
        == s / w by {
        lemma_fundamental_div_mod_converse(s, w, k, t);
    }
    if dim <= 16384 {
        assert(s < w);
        lemma_fundamental_div_mod_converse(s, w, 0, s);
    }
}

/// The norm over several blocks has a thread for every scale.
pub proof fn law_several_blocks_have_threads(dim: usize, s: int)
    requires
        dim <= 8192,
        0 <= s < ablocks(dim),
    ensures
        ({
            let c = rmsnorm_quantize_choice(true, dim).config;
            &&& c.block_dim.0 == 32
            &&& 0 <= s / 32 < c.grid_dim.0
            &&& s == (s / 32) * 32 + s % 32
        }),
{
}

/// The two norms take the same arguments, but that the several-block one also
/// takes the scratch.
pub proof fn law_scratch_is_the_difference(dim: usize)
    ensures
        rmsnorm_quantize_multiblock_launch(dim).args == rmsnorm_quantize_launch(dim).args.insert(
            4,
            Arg::Buf(Buffer::Partials),
        ).insert(5, Arg::Buf(Buffer::Arrived)),
{
    assert(rmsnorm_quantize_multiblock_launch(dim).args =~= rmsnorm_quantize_launch(
        dim,
    ).args.insert(4, Arg::Buf(Buffer::Partials)).insert(5, Arg::Buf(Buffer::Arrived)));
}

/// The fused quantisations have the grid of the plain one.
pub proof fn law_quantize_grids_agree(n: usize)
    ensures
        swiglu_quantize_launch(n).config == quantize_launch(n).config,
        gate_silu_quantize_launch(n).config == quantize_launch(n).config,
        gate_sigmoid_quantize_launch(n).config == quantize_launch(n).config,
{
}

/// Activation `i` is quantised by exactly one thread of one block, the block of
/// its scale, and no block is without an activation.
pub proof fn law_quantize_covers(n: usize, i: int)
    requires
        0 <= i < n <= i32::MAX,
    ensures
        quantize_launch(n).config.grid_dim.0 == ablocks(n),
        quantize_launch(n).config.block_dim.0 == 16,
        0 <= i / 16 < quantize_launch(n).config.grid_dim.0,
        forall|b: int, t: int|
            0 <= t < 16 && #[trigger] (b * 16 + t) == i ==> b == i / 16 && t == i % 16,
        (quantize_launch(n).config.grid_dim.0 - 1) * 16 < n,
{
    law_pieces_cover(n as int, 16, i);
}

/// An argmax over any values has 1 to 4096 blocks, and up to 1048576 values one
/// thread for each.
pub proof fn law_argmax_blocks(n: usize)
    requires
        1 <= n <= i32::MAX,
    ensures
        1 <= argmax_blocks(n) <= 4096,
        n <= 1048576 ==> argmax_blocks(n) == linear_blocks(n as int) && argmax_blocks(n) * 256 >= n,
{
    law_pieces_cover(n as int, 256, 0);
}

/// Reading a folded candidate gives its index back.
pub proof fn law_argmax_index_of_packed(key: u32, index: u32)
    ensures
        argmax_index(argmax_packed(key, index)) == index,
{
    assert(!((((key as u64) << 32) | (!index as u64)) as u32) == index) by (bit_vector);
}

/// The larger of two folded candidates is the one with the larger key; of equal
/// keys, the one with the smaller index. So folding with the maximum keeps the
/// first index of the largest key, in whatever order the candidates come.
pub proof fn law_argmax_keeps_the_first(k1: u32, i1: u32, k2: u32, i2: u32)
    ensures
        argmax_packed(k1, i1) > argmax_packed(k2, i2) <==> k1 > k2 || (k1 == k2 && i1 < i2),
        argmax_packed(k1, i1) == argmax_packed(k2, i2) <==> k1 == k2 && i1 == i2,
{
    assert(((((k1 as u64) << 32) | (!i1 as u64)) > (((k2 as u64) << 32) | (!i2 as u64)))
        == (k1 > k2 || (k1 == k2 && i1 < i2))) by (bit_vector);
    assert(((((k1 as u64) << 32) | (!i1 as u64)) == (((k2 as u64) << 32) | (!i2 as u64))) == (k1
        == k2 && i1 == i2)) by (bit_vector);
}

/// Making the scratch a second time makes nothing.
pub proof fn law_scratch_is_made_once(max_leaves: usize, again: usize)
    ensures
        scratch_allocs(false, max_leaves) == seq![
            ScratchAlloc::Partials(max_leaves),
            ScratchAlloc::Arrived(2),
        ],
        scratch_allocs(true, again).len() == 0,
{
}

/// The build compiles, loads the module, and looks up every kernel, each once,
/// under its entry point.
pub proof fn law_build_loads_every_kernel(k: ElementwiseKernel)
    ensures
        elementwise_build().len() == 14,
        elementwise_kernels().contains(k),
        forall|i: int|
            2 <= i < 14 ==> #[trigger] elementwise_build()[i] == (BuildStepView::LoadFunction {
                kernel: elementwise_kernels()[i - 2],
                entry: elementwise_kernels()[i - 2].entry_point(),
            }),
        elementwise_kernels().no_duplicates(),
{
    let ks = elementwise_kernels();
    assert(ks[0] == ElementwiseKernel::Rmsnorm && ks[1] == ElementwiseKernel::ResidualAdd && ks[2]
        == ElementwiseKernel::Swiglu && ks[3] == ElementwiseKernel::Quantize && ks[4]
        == ElementwiseKernel::RmsnormQuantize && ks[5]
        == ElementwiseKernel::RmsnormQuantizeWithNormX && ks[6]
        == ElementwiseKernel::RmsnormQuantizeMultiblock && ks[7]
        == ElementwiseKernel::SwigluQuantize && ks[8] == ElementwiseKernel::GateSiluQuantize
        && ks[9] == ElementwiseKernel::GateSigmoidQuantize && ks[10]
        == ElementwiseKernel::RmsnormGateSiluQuantize && ks[11] == ElementwiseKernel::ArgmaxFirst);
}

} // verus!
