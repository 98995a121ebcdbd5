//! Elementwise kernels: RMS norm, residual add, SwiGLU, the quantisation of
//! activations to 8-bit integers with and without these, and argmax.

pub mod laws;

use vstd::prelude::*;
use crate::error::{CudarcKernelError, ErrorView};
use crate::geometry::{
    ceil_div, div_up, flat, flat_config, int_arg, linear_blocks, linear_grid, low_u32, size_arg,
    to_u32,
};
use crate::launch::{Arg, Buffer, LaunchPlan, LaunchView, Real};
use crate::module::{build_start, loads, BuildStepView, KernelBuild, KernelId};
use crate::sources::elementwise::{elementwise_cuda_src, elementwise_source};

verus! {

/// Activations that share one quantisation scale.
pub const ABLOCK: usize = 16;

/// Leaves of a norm that the several-block kernel has room for.
pub const MULTIBLOCK_MAX_LEAVES: usize = 512;

/// The kernels of the elementwise module.
#[derive(Clone, Copy, Debug, PartialEq, Eq)]
pub enum ElementwiseKernel {
    Rmsnorm,
    ResidualAdd,
    Swiglu,
    Quantize,
    RmsnormQuantize,
    RmsnormQuantizeWithNormX,
    RmsnormQuantizeMultiblock,
    SwigluQuantize,
    GateSiluQuantize,
    GateSigmoidQuantize,
    RmsnormGateSiluQuantize,
    ArgmaxFirst,
}

impl KernelId for ElementwiseKernel {
    open spec fn entry_point(self) -> Seq<char> {
        match self {
            ElementwiseKernel::Rmsnorm => "rmsnorm_f32"@,
            ElementwiseKernel::ResidualAdd => "residual_add_f32"@,
            ElementwiseKernel::Swiglu => "swiglu_f32"@,
            ElementwiseKernel::Quantize => "quantize_f32_to_i8"@,
            ElementwiseKernel::RmsnormQuantize => "rmsnorm_quantize_f32"@,
            ElementwiseKernel::RmsnormQuantizeWithNormX => "rmsnorm_quantize_with_norm_x_f32"@,
            ElementwiseKernel::RmsnormQuantizeMultiblock => "rmsnorm_quantize_multiblock_f32"@,
            ElementwiseKernel::SwigluQuantize => "swiglu_quantize_f32"@,
            ElementwiseKernel::GateSiluQuantize => "gate_silu_quantize_f32"@,
            ElementwiseKernel::GateSigmoidQuantize => "gate_sigmoid_quantize_f32"@,
            ElementwiseKernel::RmsnormGateSiluQuantize => "rmsnorm_gate_silu_quantize_f32"@,
            ElementwiseKernel::ArgmaxFirst => "argmax_first_f32"@,
        }
    }

    fn entry(self) -> (r: &'static str) {
        match self {
            ElementwiseKernel::Rmsnorm => "rmsnorm_f32",
            ElementwiseKernel::ResidualAdd => "residual_add_f32",
            ElementwiseKernel::Swiglu => "swiglu_f32",
            ElementwiseKernel::Quantize => "quantize_f32_to_i8",
            ElementwiseKernel::RmsnormQuantize => "rmsnorm_quantize_f32",
            ElementwiseKernel::RmsnormQuantizeWithNormX => "rmsnorm_quantize_with_norm_x_f32",
            ElementwiseKernel::RmsnormQuantizeMultiblock => "rmsnorm_quantize_multiblock_f32",
            ElementwiseKernel::SwigluQuantize => "swiglu_quantize_f32",
            ElementwiseKernel::GateSiluQuantize => "gate_silu_quantize_f32",
            ElementwiseKernel::GateSigmoidQuantize => "gate_sigmoid_quantize_f32",
            ElementwiseKernel::RmsnormGateSiluQuantize => "rmsnorm_gate_silu_quantize_f32",
            ElementwiseKernel::ArgmaxFirst => "argmax_first_f32",
        }
    }
}

/// The kernels in the order in which they are looked up.
pub open spec fn elementwise_kernels() -> Seq<ElementwiseKernel> {
    seq![
        ElementwiseKernel::Rmsnorm, ElementwiseKernel::ResidualAdd, ElementwiseKernel::Swiglu,
        ElementwiseKernel::Quantize, ElementwiseKernel::RmsnormQuantize,
        ElementwiseKernel::RmsnormQuantizeWithNormX, ElementwiseKernel::RmsnormQuantizeMultiblock,
        ElementwiseKernel::SwigluQuantize, ElementwiseKernel::GateSiluQuantize,
        ElementwiseKernel::GateSigmoidQuantize, ElementwiseKernel::RmsnormGateSiluQuantize,
        ElementwiseKernel::ArgmaxFirst,
    ]
}

/// The build of the elementwise module.
pub open spec fn elementwise_build() -> Seq<BuildStepView<ElementwiseKernel>> {
    build_start(elementwise_cuda_src()) + loads(elementwise_kernels())
}

/// Quantisation blocks of `n` activations.
pub open spec fn ablocks(n: usize) -> int {
    ceil_div(n as int, 16)
}

/// Threads that sum `leaves` leaves pairwise: the least power of two that is no
/// less, or 1024 where that is less.
pub open spec fn tree_width(leaves: int) -> int {
    if leaves <= 1 {
        1
    } else if leaves <= 2 {
        2
    } else if leaves <= 4 {
        4
    } else if leaves <= 8 {
        8
    } else if leaves <= 16 {
        16
    } else if leaves <= 32 {
        32
    } else if leaves <= 64 {
        64
    } else if leaves <= 128 {
        128
    } else if leaves <= 256 {
        256
    } else if leaves <= 512 {
        512
    } else {
        1024
    }
}

/// RMS norm of one row: one block of 256 threads.
pub open spec fn rmsnorm_launch(dim: usize) -> LaunchView<ElementwiseKernel> {
    LaunchView {
        kernel: ElementwiseKernel::Rmsnorm,
        config: flat(1, 256, 1024),
        args: seq![
            Arg::Buf(Buffer::Input),
            Arg::Buf(Buffer::Gamma),
            Arg::Buf(Buffer::Output),
            Arg::Recip(dim),
            Arg::Real(Real::Eps),
            int_arg(dim as int),
        ],
    }
}

/// SwiGLU and quantisation: one block of sixteen threads per scale.
pub open spec fn swiglu_quantize_launch(n: usize) -> LaunchView<ElementwiseKernel> {
    LaunchView {
        kernel: ElementwiseKernel::SwigluQuantize,
        config: flat(low_u32(ablocks(n)), 16, 0),
        args: seq![
            Arg::Buf(Buffer::Gate),
            Arg::Buf(Buffer::Up),
            Arg::Buf(Buffer::OutI8),
            Arg::Buf(Buffer::Ascale),
            int_arg(n as int),
            Arg::I32(16),
            int_arg(ablocks(n)),
        ],
    }
}

/// SiLU gate and quantisation: one block of sixteen threads per scale.
pub open spec fn gate_silu_quantize_launch(n: usize) -> LaunchView<ElementwiseKernel> {
    LaunchView {
        kernel: ElementwiseKernel::GateSiluQuantize,
        config: flat(low_u32(ablocks(n)), 16, 0),
        args: seq![
            Arg::Buf(Buffer::X),
            Arg::Buf(Buffer::Gate),
            Arg::Buf(Buffer::OutI8),
            Arg::Buf(Buffer::Ascale),
            int_arg(n as int),
            Arg::I32(16),
            int_arg(ablocks(n)),
        ],
    }
}

/// Sigmoid gate and quantisation: one block of sixteen threads per scale.
pub open spec fn gate_sigmoid_quantize_launch(n: usize) -> LaunchView<ElementwiseKernel> {
    LaunchView {
        kernel: ElementwiseKernel::GateSigmoidQuantize,
        config: flat(low_u32(ablocks(n)), 16, 0),
        args: seq![
            Arg::Buf(Buffer::X),
            Arg::Buf(Buffer::Gate),
            Arg::Buf(Buffer::OutI8),
            Arg::Buf(Buffer::Ascale),
            int_arg(n as int),
            Arg::I32(16),
            int_arg(ablocks(n)),
        ],
    }
}

/// Quantisation: one block of sixteen threads per scale.
pub open spec fn quantize_launch(n: usize) -> LaunchView<ElementwiseKernel> {
    LaunchView {
        kernel: ElementwiseKernel::Quantize,
        config: flat(low_u32(ablocks(n)), 16, 0),
        args: seq![
            Arg::Buf(Buffer::X),
            Arg::Buf(Buffer::OutI8),
            Arg::Buf(Buffer::Ascale),
            int_arg(n as int),
            Arg::I32(16),
            int_arg(ablocks(n)),
        ],
    }
}

/// Per-head norm, SiLU gate and quantisation: one block of 256 threads per head.
pub open spec fn rmsnorm_gate_silu_quantize_launch(
    n_v_heads: usize,
    head_dim: usize,
) -> LaunchView<ElementwiseKernel> {
    LaunchView {
        kernel: ElementwiseKernel::RmsnormGateSiluQuantize,
        config: flat(low_u32(n_v_heads as int), 256, 1024),
        args: seq![
            Arg::Buf(Buffer::X),
            Arg::Buf(Buffer::Gate),
            Arg::Buf(Buffer::Gamma),
            Arg::Buf(Buffer::OutI8),
            Arg::Buf(Buffer::Ascale),
            Arg::Recip(head_dim),
            Arg::Real(Real::Eps),
            int_arg(head_dim as int),
            Arg::I32(16),
        ],
    }
}

/// Elementwise sum: one thread per element.
pub open spec fn residual_add_launch(n: usize) -> LaunchView<ElementwiseKernel> {
    LaunchView {
        kernel: ElementwiseKernel::ResidualAdd,
        config: flat(linear_blocks(n as int), 256, 0),
        args: seq![
            Arg::Buf(Buffer::A),
            Arg::Buf(Buffer::B),
            Arg::Buf(Buffer::Output),
            int_arg(n as int),
        ],
    }
}

/// SwiGLU: one thread per element.
pub open spec fn swiglu_launch(n: usize) -> LaunchView<ElementwiseKernel> {
    LaunchView {
        kernel: ElementwiseKernel::Swiglu,
        config: flat(linear_blocks(n as int), 256, 0),
        args: seq![
            Arg::Buf(Buffer::Gate),
            Arg::Buf(Buffer::Up),
            Arg::Buf(Buffer::Output),
            int_arg(n as int),
        ],
    }
}

/// Norm and quantisation in one block.
pub open spec fn rmsnorm_quantize_launch(dim: usize) -> LaunchView<ElementwiseKernel> {
    LaunchView {
        kernel: ElementwiseKernel::RmsnormQuantize,
        config: flat(1, low_u32(tree_width(ablocks(dim))), low_u32(tree_width(ablocks(dim)) * 4)),
        args: seq![
            Arg::Buf(Buffer::Input),
            Arg::Buf(Buffer::Gamma),
            Arg::Buf(Buffer::OutI8),
            Arg::Buf(Buffer::Ascale),
            Arg::Recip(dim),
            Arg::Real(Real::Eps),
            int_arg(dim as int),
            Arg::I32(16),
            int_arg(ablocks(dim)),
            int_arg(tree_width(ablocks(dim))),
        ],
    }
}

/// Norm and quantisation in one block, which also writes the norm.
pub open spec fn rmsnorm_quantize_with_norm_x_launch(dim: usize) -> LaunchView<ElementwiseKernel> {
    LaunchView {
        kernel: ElementwiseKernel::RmsnormQuantizeWithNormX,
        config: flat(1, low_u32(tree_width(ablocks(dim))), low_u32(tree_width(ablocks(dim)) * 4)),
        args: seq![
            Arg::Buf(Buffer::Input),
            Arg::Buf(Buffer::Gamma),
            Arg::Buf(Buffer::OutI8),
            Arg::Buf(Buffer::Ascale),
            Arg::Buf(Buffer::NormX),
            Arg::Recip(dim),
            Arg::Real(Real::Eps),
            int_arg(dim as int),
            Arg::I32(16),
            int_arg(ablocks(dim)),
            int_arg(tree_width(ablocks(dim))),
        ],
    }
}

/// Blocks of one warp each for a norm over several blocks.
pub open spec fn multiblock_grid(dim: usize) -> int {
    if tree_width(ablocks(dim)) < 32 {
        1
    } else {
        tree_width(ablocks(dim)) / 32
    }
}

/// Norm and quantisation over several blocks of one warp, which meet at the
/// arrival counters.
pub open spec fn rmsnorm_quantize_multiblock_launch(dim: usize) -> LaunchView<ElementwiseKernel> {
    LaunchView {
        kernel: ElementwiseKernel::RmsnormQuantizeMultiblock,
        config: flat(low_u32(multiblock_grid(dim)), 32, 0),
        args: seq![
            Arg::Buf(Buffer::Input),
            Arg::Buf(Buffer::Gamma),
            Arg::Buf(Buffer::OutI8),
            Arg::Buf(Buffer::Ascale),
            Arg::Buf(Buffer::Partials),
            Arg::Buf(Buffer::Arrived),
            Arg::Recip(dim),
            Arg::Real(Real::Eps),
            int_arg(dim as int),
            Arg::I32(16),
            int_arg(ablocks(dim)),
            int_arg(tree_width(ablocks(dim))),
        ],
    }
}

/// Norm and quantisation: over several blocks where the scratch is there and
/// has room, else in one block.
pub open spec fn rmsnorm_quantize_choice(scratch: bool, dim: usize) -> LaunchView<ElementwiseKernel> {
    if scratch && tree_width(ablocks(dim)) <= MULTIBLOCK_MAX_LEAVES {
        rmsnorm_quantize_multiblock_launch(dim)
    } else {
        rmsnorm_quantize_launch(dim)
    }
}

/// Blocks of an argmax over `n` values: one per 256 values, at most 4096. The
/// kernel strides over the values that are left.
pub open spec fn argmax_blocks(n: usize) -> u32 {
    if linear_blocks(n as int) > 4096 {
        4096
    } else {
        linear_blocks(n as int)
    }
}

/// Argmax: 256 threads per block, with a value and an index of shared memory
/// each.
pub open spec fn argmax_first_launch(n: usize) -> LaunchView<ElementwiseKernel> {
    LaunchView {
        kernel: ElementwiseKernel::ArgmaxFirst,
        config: flat(argmax_blocks(n), 256, 2048),
        args: seq![Arg::Buf(Buffer::Values), int_arg(n as int), Arg::Buf(Buffer::Result)],
    }
}

/// What a candidate of an argmax is folded as: the ordered key of its value
/// above the complement of its index.
pub open spec fn argmax_packed(key: u32, index: u32) -> u64 {
    ((key as u64) << 32) | (!index as u64)
}

/// The index that a folded argmax holds.
pub open spec fn argmax_index(packed: u64) -> u32 {
    !(packed as u32)
}

/// [`argmax_index`], computed.
pub fn argmax_first_index(packed: u64) -> (r: u32)
    ensures
        r == argmax_index(packed),
{
    !(packed as u32)
}

/// [`tree_width`], computed.
fn tree_threads(leaves: usize) -> (r: usize)
    ensures
        r == tree_width(leaves as int),
        r <= 1024,
{
    let mut bs: usize = 1;
    while bs < leaves && bs < 1024
        invariant
            bs == 1 || bs == 2 || bs == 4 || bs == 8 || bs == 16 || bs == 32 || bs == 64 || bs
                == 128 || bs == 256 || bs == 512 || bs == 1024,
            bs == 1 || bs < 2 * leaves,
        decreases 1024 - bs,
    {
        bs = bs * 2;
    }
    bs
}

/// A buffer of zeros that the several-block norm works in.
#[derive(Clone, Copy, Debug, PartialEq, Eq)]
pub enum ScratchAlloc {
    /// Partial sums: this many 32-bit floats.
    Partials(usize),
    /// Arrival counters: this many 32-bit integers.
    Arrived(usize),
}

/// Scratch buffers that are still to be made, first one first.
#[derive(Debug, PartialEq, Eq)]
pub struct ScratchInit {
    pub allocs: Vec<ScratchAlloc>,
}

impl View for ScratchInit {
    type V = Seq<ScratchAlloc>;

    open spec fn view(&self) -> Seq<ScratchAlloc> {
        self.allocs@
    }
}

/// The scratch buffers that are to be made: none where they are there already.
pub open spec fn scratch_allocs(ready: bool, max_leaves: usize) -> Seq<ScratchAlloc> {
    if ready {
        seq![]
    } else {
        seq![ScratchAlloc::Partials(max_leaves), ScratchAlloc::Arrived(2)]
    }
}

impl ScratchInit {
    /// The buffer to make next, if one is left.
    pub fn next(&self) -> (r: Option<ScratchAlloc>)
        ensures
            match r {
                Some(a) => self@.len() > 0 && a == self@[0],
                None => self@.len() == 0,
            },
    {
        if self.allocs.len() == 0 {
            None
        } else {
            Some(self.allocs[0])
        }
    }
}

/// The elementwise kernels of a context: plans their build and their launches.
#[derive(Clone, Copy, Debug, PartialEq, Eq)]
pub struct ElementwiseKernels {
    /// Whether the scratch of the several-block norm has been made.
    pub mb_scratch: bool,
}

impl ElementwiseKernels {
    /// The kernels, without scratch, and the build that loads them.
    pub fn new() -> (r: (Self, KernelBuild<ElementwiseKernel>))
        ensures
            !r.0.mb_scratch,
            r.1@ == elementwise_build(),
    {
        let mut build: KernelBuild<ElementwiseKernel> = KernelBuild::start(elementwise_source());
        build.load_all(
            vec![
                ElementwiseKernel::Rmsnorm, ElementwiseKernel::ResidualAdd,
                ElementwiseKernel::Swiglu, ElementwiseKernel::Quantize,
                ElementwiseKernel::RmsnormQuantize, ElementwiseKernel::RmsnormQuantizeWithNormX,
                ElementwiseKernel::RmsnormQuantizeMultiblock, ElementwiseKernel::SwigluQuantize,
                ElementwiseKernel::GateSiluQuantize, ElementwiseKernel::GateSigmoidQuantize,
                ElementwiseKernel::RmsnormGateSiluQuantize, ElementwiseKernel::ArgmaxFirst,
            ],
        );
        assert(build@ =~= elementwise_build());
        (ElementwiseKernels { mb_scratch: false }, build)
    }

    /// The scratch of the several-block norm, with room for `max_leaves` partial
    /// sums. Nothing is left to make where it was made before.
    ///
    /// `max_leaves` has to cover the widest summation tree that will be
    /// launched over several blocks, and at least a warp: 512 is enough for
    /// every norm.
    pub fn init_rmsnorm_mb_scratch(&self, max_leaves: usize) -> (r: ScratchInit)
        ensures
            r@ == scratch_allocs(self.mb_scratch, max_leaves),
    {
        if self.mb_scratch {
            return ScratchInit { allocs: Vec::new() };
        }
        let r = ScratchInit {
            allocs: vec![ScratchAlloc::Partials(max_leaves), ScratchAlloc::Arrived(2)],
        };
        assert(r@ =~= scratch_allocs(false, max_leaves));
        r
    }

    /// Takes the outcome of making the buffer that [`ScratchInit::next`] gave.
    /// The scratch counts as made once its last buffer is. After a failure
    /// nothing is left to make, and the failure is reported with the driver's
    /// text.
    pub fn report_rmsnorm_mb_scratch(
        &mut self,
        init: &mut ScratchInit,
        outcome: Result<(), String>,
    ) -> (r: Result<(), CudarcKernelError>)
        requires
            old(init)@.len() > 0,
        ensures
            match outcome {
                Ok(()) => r is Ok && final(init)@ == old(init)@.drop_first(),
                Err(text) => r matches Err(e) && e@ == ErrorView::Launch(text@)
                    && final(init)@.len() == 0,
            },
            final(self).mb_scratch == (old(self).mb_scratch || (outcome is Ok && old(init)@.len()
                == 1)),
    {
        match outcome {
            Ok(()) => {
                let made = init.allocs.remove(0);
                assert(init@ =~= old(init)@.drop_first());
                if init.allocs.len() == 0 {
                    self.mb_scratch = true;
                }
                Ok(())
            },
            Err(text) => {
                init.allocs = Vec::new();
                Err(CudarcKernelError::Launch(text))
            },
        }
    }

    /// RMS norm of `dim` elements, scaled by `gamma`.
    ///
    /// `input`, `gamma` and `output` cover `dim` elements.
    pub fn launch_rmsnorm(&self, dim: usize) -> (r: LaunchPlan<ElementwiseKernel>)
        ensures
            r@ == seq![rmsnorm_launch(dim)],
    {
        let r = LaunchPlan::one(
            ElementwiseKernel::Rmsnorm,
            flat_config(1, 256, 1024),
            vec![
                Arg::Buf(Buffer::Input),
                Arg::Buf(Buffer::Gamma),
                Arg::Buf(Buffer::Output),
                Arg::Recip(dim),
                Arg::Real(Real::Eps),
                size_arg(dim),
            ],
        );
        assert(r@ =~~= seq![rmsnorm_launch(dim)]);
        r
    }

    /// SwiGLU of `gate` and `up`, quantised.
    ///
    /// `gate` and `up` cover `n` elements, `out_i8` covers `n` elements and
    /// `ascale` `ceil(n / 16)`.
    pub fn launch_swiglu_quantize(&self, n: usize) -> (r: LaunchPlan<ElementwiseKernel>)
        ensures
            r@ == seq![swiglu_quantize_launch(n)],
    {
        let r = LaunchPlan::one(
            ElementwiseKernel::SwigluQuantize,
            flat_config(to_u32(div_up(n, ABLOCK)), 16, 0),
            vec![
                Arg::Buf(Buffer::Gate),
                Arg::Buf(Buffer::Up),
                Arg::Buf(Buffer::OutI8),
                Arg::Buf(Buffer::Ascale),
                size_arg(n),
                Arg::I32(16),
                size_arg(div_up(n, ABLOCK)),
            ],
        );
        assert(r@ =~~= seq![swiglu_quantize_launch(n)]);
        r
    }

    /// `x` times the SiLU of `gate`, quantised.
    ///
    /// `x` and `gate` cover `n` elements, `out_i8` covers `n` elements and
    /// `ascale` `ceil(n / 16)`.
    pub fn launch_gate_silu_quantize(&self, n: usize) -> (r: LaunchPlan<ElementwiseKernel>)
        ensures
            r@ == seq![gate_silu_quantize_launch(n)],
    {
        let r = LaunchPlan::one(
            ElementwiseKernel::GateSiluQuantize,
            flat_config(to_u32(div_up(n, ABLOCK)), 16, 0),
            vec![
                Arg::Buf(Buffer::X),
                Arg::Buf(Buffer::Gate),
                Arg::Buf(Buffer::OutI8),
                Arg::Buf(Buffer::Ascale),
                size_arg(n),
                Arg::I32(16),
                size_arg(div_up(n, ABLOCK)),
            ],
        );
        assert(r@ =~~= seq![gate_silu_quantize_launch(n)]);
        r
    }

    /// `x` times the sigmoid of `gate`, quantised.
    ///
    /// `x` and `gate` cover `n` elements, `out_i8` covers `n` elements and
    /// `ascale` `ceil(n / 16)`.
    pub fn launch_gate_sigmoid_quantize(&self, n: usize) -> (r: LaunchPlan<ElementwiseKernel>)
        ensures
            r@ == seq![gate_sigmoid_quantize_launch(n)],
    {
        let r = LaunchPlan::one(
            ElementwiseKernel::GateSigmoidQuantize,
            flat_config(to_u32(div_up(n, ABLOCK)), 16, 0),
            vec![
                Arg::Buf(Buffer::X),
                Arg::Buf(Buffer::Gate),
                Arg::Buf(Buffer::OutI8),
                Arg::Buf(Buffer::Ascale),
                size_arg(n),
                Arg::I32(16),
                size_arg(div_up(n, ABLOCK)),
            ],
        );
        assert(r@ =~~= seq![gate_sigmoid_quantize_launch(n)]);
        r
    }

    /// Quantises `n` activations in blocks of sixteen.
    ///
    /// `x` covers `n` elements, `out_i8` covers `n` elements and `ascale`
    /// `ceil(n / 16)`.
    pub fn launch_quantize(&self, n: usize) -> (r: LaunchPlan<ElementwiseKernel>)
        ensures
            r@ == seq![quantize_launch(n)],
    {
        let r = LaunchPlan::one(
            ElementwiseKernel::Quantize,
            flat_config(to_u32(div_up(n, ABLOCK)), 16, 0),
            vec![
                Arg::Buf(Buffer::X),
                Arg::Buf(Buffer::OutI8),
                Arg::Buf(Buffer::Ascale),
                size_arg(n),
                Arg::I32(16),
                size_arg(div_up(n, ABLOCK)),
            ],
        );
        assert(r@ =~~= seq![quantize_launch(n)]);
        r
    }

    /// RMS norm of each head, times the SiLU of `gate`, quantised. A block has one
    /// thread per lane and whole scales: at most 256 lanes, a multiple of sixteen.
    ///
    /// `x`, `gate` and `out_i8` cover `n_v_heads * head_dim` elements, `gamma`
    /// `head_dim`, and `ascale` `n_v_heads * head_dim / 16`.
    pub fn launch_rmsnorm_gate_silu_quantize(
        &self,
        n_v_heads: usize,
        head_dim: usize,
    ) -> (r: LaunchPlan<ElementwiseKernel>)
        requires
            head_dim % 16 == 0,
            head_dim <= 256,
        ensures
            r@ == seq![rmsnorm_gate_silu_quantize_launch(n_v_heads, head_dim)],
    {
        let r = LaunchPlan::one(
            ElementwiseKernel::RmsnormGateSiluQuantize,
            flat_config(to_u32(n_v_heads), 256, 1024),
            vec![
                Arg::Buf(Buffer::X),
                Arg::Buf(Buffer::Gate),
                Arg::Buf(Buffer::Gamma),
                Arg::Buf(Buffer::OutI8),
                Arg::Buf(Buffer::Ascale),
                Arg::Recip(head_dim),
                Arg::Real(Real::Eps),
                size_arg(head_dim),
                Arg::I32(16),
            ],
        );
        assert(r@ =~~= seq![rmsnorm_gate_silu_quantize_launch(n_v_heads, head_dim)]);
        r
    }

    /// `output = a + b`, elementwise.
    ///
    /// Every buffer covers `n` elements.
    pub fn launch_residual_add(&self, n: usize) -> (r: LaunchPlan<ElementwiseKernel>)
        ensures
            r@ == seq![residual_add_launch(n)],
    {
        let r = LaunchPlan::one(
            ElementwiseKernel::ResidualAdd,
            flat_config(linear_grid(n), 256, 0),
            vec![Arg::Buf(Buffer::A), Arg::Buf(Buffer::B), Arg::Buf(Buffer::Output), size_arg(n)],
        );
        assert(r@ =~~= seq![residual_add_launch(n)]);
        r
    }

    /// `output = silu(gate) * up`, elementwise.
    ///
    /// Every buffer covers `n` elements.
    pub fn launch_swiglu(&self, n: usize) -> (r: LaunchPlan<ElementwiseKernel>)
        ensures
            r@ == seq![swiglu_launch(n)],
    {
        let r = LaunchPlan::one(
            ElementwiseKernel::Swiglu,
            flat_config(linear_grid(n), 256, 0),
            vec![
                Arg::Buf(Buffer::Gate),
                Arg::Buf(Buffer::Up),
                Arg::Buf(Buffer::Output),
                size_arg(n),
            ],
        );
        assert(r@ =~~= seq![swiglu_launch(n)]);
        r
    }

    /// [`ElementwiseKernels::launch_rmsnorm_quantize`] that also writes the norm,
    /// always in one block.
    ///
    /// The buffers cover as many elements as there, and the norm `dim`.
    pub fn launch_rmsnorm_quantize_with_norm_x(
        &self,
        dim: usize,
    ) -> (r: LaunchPlan<ElementwiseKernel>)
        ensures
            r@ == seq![rmsnorm_quantize_with_norm_x_launch(dim)],
    {
        let block_size: usize = tree_threads(div_up(dim, ABLOCK));
        let r = LaunchPlan::one(
            ElementwiseKernel::RmsnormQuantizeWithNormX,
            flat_config(1, to_u32(block_size), to_u32(block_size * 4)),
            vec![
                Arg::Buf(Buffer::Input),
                Arg::Buf(Buffer::Gamma),
                Arg::Buf(Buffer::OutI8),
                Arg::Buf(Buffer::Ascale),
                Arg::Buf(Buffer::NormX),
                Arg::Recip(dim),
                Arg::Real(Real::Eps),
                size_arg(dim),
                Arg::I32(16),
                size_arg(div_up(dim, ABLOCK)),
                size_arg(block_size),
            ],
        );
        assert(r@ =~~= seq![rmsnorm_quantize_with_norm_x_launch(dim)]);
        r
    }

    /// RMS norm of `dim` elements, quantised. Above 16384 elements there are more
    /// scales than a block has threads, and each thread strides over its scales.
    ///
    /// `input`, `gamma` and `out_i8` cover `dim` elements and `ascale`
    /// `ceil(dim / 16)`.
    pub fn launch_rmsnorm_quantize(&self, dim: usize) -> (r: LaunchPlan<ElementwiseKernel>)
        ensures
            r@ == seq![rmsnorm_quantize_choice(self.mb_scratch, dim)],
    {
        let block_size: usize = tree_threads(div_up(dim, ABLOCK));
        if block_size <= MULTIBLOCK_MAX_LEAVES && self.mb_scratch {
            let grid: usize = if block_size < 32 {
                1
            } else {
                block_size / 32
            };
            let r = LaunchPlan::one(
                ElementwiseKernel::RmsnormQuantizeMultiblock,
                flat_config(to_u32(grid), 32, 0),
                vec![
                    Arg::Buf(Buffer::Input),
                    Arg::Buf(Buffer::Gamma),
                    Arg::Buf(Buffer::OutI8),
                    Arg::Buf(Buffer::Ascale),
                    Arg::Buf(Buffer::Partials),
                    Arg::Buf(Buffer::Arrived),
                    Arg::Recip(dim),
                    Arg::Real(Real::Eps),
                    size_arg(dim),
                    Arg::I32(16),
                    size_arg(div_up(dim, ABLOCK)),
                    size_arg(block_size),
                ],
            );
            assert(r@ =~~= seq![rmsnorm_quantize_multiblock_launch(dim)]);
            return r;
        }
        let r = LaunchPlan::one(
            ElementwiseKernel::RmsnormQuantize,
            flat_config(1, to_u32(block_size), to_u32(block_size * 4)),
            vec![
                Arg::Buf(Buffer::Input),
                Arg::Buf(Buffer::Gamma),
                Arg::Buf(Buffer::OutI8),
                Arg::Buf(Buffer::Ascale),
                Arg::Recip(dim),
                Arg::Real(Real::Eps),
                size_arg(dim),
                Arg::I32(16),
                size_arg(div_up(dim, ABLOCK)),
                size_arg(block_size),
            ],
        );
        assert(r@ =~~= seq![rmsnorm_quantize_launch(dim)]);
        r
    }

    /// Argmax of `n` values; the first index wins a tie. The result has to be
    /// zero before the launch, and [`argmax_first_index`] reads it.
    ///
    /// `values` covers `n` elements and the result one word of 64 bits.
    pub fn launch_argmax_first(&self, n: usize) -> (r: LaunchPlan<ElementwiseKernel>)
        ensures
            r@ == seq![argmax_first_launch(n)],
    {
        let blocks: u32 = linear_grid(n);
        let r = LaunchPlan::one(
            ElementwiseKernel::ArgmaxFirst,
            flat_config(if blocks > 4096 { 4096 } else { blocks }, 256, 2048),
            vec![Arg::Buf(Buffer::Values), size_arg(n), Arg::Buf(Buffer::Result)],
        );
        assert(r@ =~~= seq![argmax_first_launch(n)]);
        r
    }
}

} // verus!
