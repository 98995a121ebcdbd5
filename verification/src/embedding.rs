//! Rows of the ternary embedding table, as 32-bit floats.
//!
//! The table holds a positive and a negative bit per weight, in words of 32 bits
//! in blocks of 64, and one scale per group of 128 weights.

use vstd::prelude::*;
use crate::geometry::{int_arg, linear, linear_config, size_arg};
use crate::launch::{Arg, Buffer, LaunchPlan, LaunchView};
use crate::module::{build_start, loads, BuildStepView, KernelBuild, KernelId};
use crate::sources::embedding::{embedding_cuda_src, embedding_source};

verus! {

/// Weights that share one scale.
pub const GROUP_SIZE: i32 = 128;

/// The kernels of the embedding module.
#[derive(Clone, Copy, Debug, PartialEq, Eq)]
pub enum EmbeddingKernel {
    Dequant,
    DequantDevpos,
}

impl KernelId for EmbeddingKernel {
    open spec fn entry_point(self) -> Seq<char> {
        match self {
            EmbeddingKernel::Dequant => "dequant_wte_row_f32"@,
            EmbeddingKernel::DequantDevpos => "dequant_wte_row_f32_devpos"@,
        }
    }

    fn entry(self) -> (r: &'static str) {
        match self {
            EmbeddingKernel::Dequant => "dequant_wte_row_f32",
            EmbeddingKernel::DequantDevpos => "dequant_wte_row_f32_devpos",
        }
    }
}

/// The build of the embedding module.
pub open spec fn embedding_build() -> Seq<BuildStepView<EmbeddingKernel>> {
    build_start(embedding_cuda_src()) + loads(
        seq![EmbeddingKernel::Dequant, EmbeddingKernel::DequantDevpos],
    )
}

/// One row of the table: one thread per column. `row` is the row, or where it is
/// read.
pub open spec fn dequant_row_launch(
    kernel: EmbeddingKernel,
    row: Arg,
    blocks64: usize,
    groups_per_row: usize,
    n: usize,
) -> LaunchView<EmbeddingKernel> {
    LaunchView {
        kernel: kernel,
        config: linear(n as int),
        args: seq![
            Arg::Buf(Buffer::PosBits),
            Arg::Buf(Buffer::NegBits),
            Arg::Buf(Buffer::GroupScale),
            Arg::Buf(Buffer::Output),
            row,
            int_arg(blocks64 as int),
            int_arg(groups_per_row as int),
            int_arg(n as int),
            Arg::I32(GROUP_SIZE),
        ],
    }
}

/// [`dequant_row_launch`], planned.
fn plan_dequant_row(
    kernel: EmbeddingKernel,
    row: Arg,
    blocks64: usize,
    groups_per_row: usize,
    n: usize,
) -> (r: LaunchPlan<EmbeddingKernel>)
    ensures
        r@ == seq![dequant_row_launch(kernel, row, blocks64, groups_per_row, n)],
{
    let r = LaunchPlan::one(
        kernel,
        linear_config(n),
        vec![
            Arg::Buf(Buffer::PosBits),
            Arg::Buf(Buffer::NegBits),
            Arg::Buf(Buffer::GroupScale),
            Arg::Buf(Buffer::Output),
            row,
            size_arg(blocks64),
            size_arg(groups_per_row),
            size_arg(n),
            Arg::I32(GROUP_SIZE),
        ],
    );
    assert(r@ =~~= seq![dequant_row_launch(kernel, row, blocks64, groups_per_row, n)]);
    r
}

/// The embedding kernels of a context: plans their build and their launches.
#[derive(Clone, Copy, Debug, PartialEq, Eq)]
pub struct EmbeddingDequantKernels {}

impl EmbeddingDequantKernels {
    /// The kernels and the build that loads them.
    pub fn new() -> (r: (Self, KernelBuild<EmbeddingKernel>))
        ensures
            r.1@ == embedding_build(),
    {
        let mut build: KernelBuild<EmbeddingKernel> = KernelBuild::start(embedding_source());
        build.load_all(vec![EmbeddingKernel::Dequant, EmbeddingKernel::DequantDevpos]);
        assert(build@ =~= embedding_build());
        (EmbeddingDequantKernels {  }, build)
    }

    /// Writes row `row_idx` of the table, `n` columns in `blocks64` blocks and
    /// `groups_per_row` groups.
    ///
    /// For a table of `rows` rows the bit buffers cover `rows * blocks64 * 2`
    /// words and the scales `rows * groups_per_row` elements; `output` covers
    /// `n`. `blocks64` is `ceil(n / 64)` and `groups_per_row` `ceil(n / 128)`.
    pub fn launch_dequant_row(
        &self,
        row_idx: usize,
        blocks64: usize,
        groups_per_row: usize,
        n: usize,
    ) -> (r: LaunchPlan<EmbeddingKernel>)
        ensures
            r@ == seq![
                dequant_row_launch(
                    EmbeddingKernel::Dequant,
                    int_arg(row_idx as int),
                    blocks64,
                    groups_per_row,
                    n,
                ),
            ],
    {
        plan_dequant_row(EmbeddingKernel::Dequant, size_arg(row_idx), blocks64, groups_per_row, n)
    }

    /// [`EmbeddingDequantKernels::launch_dequant_row`] of the row that a buffer
    /// holds.
    ///
    /// The buffers cover as many elements as there, and the row buffer one.
    pub fn launch_dequant_row_devpos(
        &self,
        blocks64: usize,
        groups_per_row: usize,
        n: usize,
    ) -> (r: LaunchPlan<EmbeddingKernel>)
        ensures
            r@ == seq![
                dequant_row_launch(
                    EmbeddingKernel::DequantDevpos,
                    Arg::Buf(Buffer::RowIdxDev),
                    blocks64,
                    groups_per_row,
                    n,
                ),
            ],
    {
        plan_dequant_row(
            EmbeddingKernel::DequantDevpos,
            Arg::Buf(Buffer::RowIdxDev),
            blocks64,
            groups_per_row,
            n,
        )
    }
}

/// The two ways to name the row differ in the kernel and in the row's argument,
/// the fifth, and in nothing else.
pub proof fn law_dequant_devpos_twin(
    row_idx: usize,
    blocks64: usize,
    groups_per_row: usize,
    n: usize,
)
    ensures
        dequant_row_launch(
            EmbeddingKernel::DequantDevpos,
            Arg::Buf(Buffer::RowIdxDev),
            blocks64,
            groups_per_row,
            n,
        ) == (LaunchView {
            kernel: EmbeddingKernel::DequantDevpos,
            args: dequant_row_launch(
                EmbeddingKernel::Dequant,
                int_arg(row_idx as int),
                blocks64,
                groups_per_row,
                n,
            ).args.update(4, Arg::Buf(Buffer::RowIdxDev)),
            ..dequant_row_launch(
                EmbeddingKernel::Dequant,
                int_arg(row_idx as int),
                blocks64,
                groups_per_row,
                n,
            )
        }),
{
    assert(dequant_row_launch(
        EmbeddingKernel::DequantDevpos,
        Arg::Buf(Buffer::RowIdxDev),
        blocks64,
        groups_per_row,
        n,
    ).args =~= dequant_row_launch(
        EmbeddingKernel::Dequant,
        int_arg(row_idx as int),
        blocks64,
        groups_per_row,
        n,
    ).args.update(4, Arg::Buf(Buffer::RowIdxDev)));
}

} // verus!
