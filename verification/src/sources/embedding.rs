//! CUDA C of the embedding kernels.

use vstd::prelude::*;
use crate::embedding::EmbeddingKernel;
use crate::sources::{
    declare, kernels_text, param, text_of_kernels, CudaType, Declaration, KernelText, Param,
    ParamView,
};

verus! {

/// The parameters of `dequant_wte_row_f32`.
pub open spec fn dequant_wte_row_f32_params() -> Seq<ParamView> {
    seq![
        param(CudaType::WordsIn, "pos_bits_u32"@),
        param(CudaType::WordsIn, "neg_bits_u32"@),
        param(CudaType::FloatsIn, "group_scale_f32"@),
        param(CudaType::FloatsOut, "out"@),
        param(CudaType::ConstInt, "row_idx"@),
        param(CudaType::ConstInt, "blocks64"@),
        param(CudaType::ConstInt, "groups_per_row"@),
        param(CudaType::ConstInt, "n"@),
        param(CudaType::ConstInt, "group_size"@),
    ]
}

/// [`dequant_wte_row_f32_params`], computed.
fn dequant_wte_row_f32_list() -> (r: Vec<Param>)
    ensures
        r@.map_values(|p: Param| p@) == dequant_wte_row_f32_params(),
{
    let r: Vec<Param> = vec![
        Param { ty: CudaType::WordsIn, name: "pos_bits_u32" },
        Param { ty: CudaType::WordsIn, name: "neg_bits_u32" },
        Param { ty: CudaType::FloatsIn, name: "group_scale_f32" },
        Param { ty: CudaType::FloatsOut, name: "out" },
        Param { ty: CudaType::ConstInt, name: "row_idx" },
        Param { ty: CudaType::ConstInt, name: "blocks64" },
        Param { ty: CudaType::ConstInt, name: "groups_per_row" },
        Param { ty: CudaType::ConstInt, name: "n" },
        Param { ty: CudaType::ConstInt, name: "group_size" },
    ];
    assert(r@.map_values(|p: Param| p@) =~= dequant_wte_row_f32_params());
    r
}

/// The parameters of `dequant_wte_row_f32_devpos`.
pub open spec fn dequant_wte_row_f32_devpos_params() -> Seq<ParamView> {
    seq![
        param(CudaType::WordsIn, "pos_bits_u32"@),
        param(CudaType::WordsIn, "neg_bits_u32"@),
        param(CudaType::FloatsIn, "group_scale_f32"@),
        param(CudaType::FloatsOut, "out"@),
        param(CudaType::IntsIn, "row_idx_dev"@),
        param(CudaType::ConstInt, "blocks64"@),
        param(CudaType::ConstInt, "groups_per_row"@),
        param(CudaType::ConstInt, "n"@),
        param(CudaType::ConstInt, "group_size"@),
    ]
}

/// [`dequant_wte_row_f32_devpos_params`], computed.
fn dequant_wte_row_f32_devpos_list() -> (r: Vec<Param>)
    ensures
        r@.map_values(|p: Param| p@) == dequant_wte_row_f32_devpos_params(),
{
    let r: Vec<Param> = vec![
        Param { ty: CudaType::WordsIn, name: "pos_bits_u32" },
        Param { ty: CudaType::WordsIn, name: "neg_bits_u32" },
        Param { ty: CudaType::FloatsIn, name: "group_scale_f32" },
        Param { ty: CudaType::FloatsOut, name: "out" },
        Param { ty: CudaType::IntsIn, name: "row_idx_dev" },
        Param { ty: CudaType::ConstInt, name: "blocks64" },
        Param { ty: CudaType::ConstInt, name: "groups_per_row" },
        Param { ty: CudaType::ConstInt, name: "n" },
        Param { ty: CudaType::ConstInt, name: "group_size" },
    ];
    assert(r@.map_values(|p: Param| p@) =~= dequant_wte_row_f32_devpos_params());
    r
}

/// The body of `dequant_wte_row_f32`.
pub const DEQUANT_WTE_ROW_F32_BODY: &'static str = r#"
{
    const int col = blockIdx.x * blockDim.x + threadIdx.x;
    if (col >= n) return;

    const int words_per_row = blocks64 * 2;
    const int block_idx = col / 64;
    const int word_in_block = (col % 64) / 32;
    const int bit_pos = col % 32;

    const int word_idx = row_idx * words_per_row + block_idx * 2 + word_in_block;
    const unsigned int pos_bit = (pos_bits_u32[word_idx] >> bit_pos) & 1u;
    const unsigned int neg_bit = (neg_bits_u32[word_idx] >> bit_pos) & 1u;

    const float sign_f = (float)pos_bit - (float)neg_bit;

    const int group = col / group_size;
    const float scale = group_scale_f32[row_idx * groups_per_row + group];

    out[col] = sign_f * scale;
}

"#;

/// The body of `dequant_wte_row_f32_devpos`.
pub const DEQUANT_WTE_ROW_F32_DEVPOS_BODY: &'static str = r#"
{
    const int row_idx = *row_idx_dev;
    const int col = blockIdx.x * blockDim.x + threadIdx.x;
    if (col >= n) return;

    const int words_per_row = blocks64 * 2;
    const int block_idx = col / 64;
    const int word_in_block = (col % 64) / 32;
    const int bit_pos = col % 32;

    const int word_idx = row_idx * words_per_row + block_idx * 2 + word_in_block;
    const unsigned int pos_bit = (pos_bits_u32[word_idx] >> bit_pos) & 1u;
    const unsigned int neg_bit = (neg_bits_u32[word_idx] >> bit_pos) & 1u;

    const float sign_f = (float)pos_bit - (float)neg_bit;
    const int group = col / group_size;
    const float scale = group_scale_f32[row_idx * groups_per_row + group];

    out[col] = sign_f * scale;
}
"#;

impl KernelText for EmbeddingKernel {
    open spec fn helpers(self) -> Seq<char> {
        match self {
            EmbeddingKernel::Dequant => "\n"@,
            _ => Seq::empty(),
        }
    }

    open spec fn declared(self) -> Declaration {
        match self {
            EmbeddingKernel::Dequant => Declaration {
                bounded: false,
                name: "dequant_wte_row_f32"@,
                params: dequant_wte_row_f32_params(),
            },
            EmbeddingKernel::DequantDevpos => Declaration {
                bounded: false,
                name: "dequant_wte_row_f32_devpos"@,
                params: dequant_wte_row_f32_devpos_params(),
            },
        }
    }

    open spec fn body(self) -> Seq<char> {
        match self {
            EmbeddingKernel::Dequant => DEQUANT_WTE_ROW_F32_BODY@,
            EmbeddingKernel::DequantDevpos => DEQUANT_WTE_ROW_F32_DEVPOS_BODY@,
        }
    }

    fn append_text(self, s: &mut String) {
        match self {
            EmbeddingKernel::Dequant => s.append("\n"),
            _ => {},
        }
        assert(s@ =~= old(s)@ + self.helpers());
        match self {
            EmbeddingKernel::Dequant => declare(
                s,
                false,
                "dequant_wte_row_f32",
                &dequant_wte_row_f32_list(),
            ),
            EmbeddingKernel::DequantDevpos => declare(
                s,
                false,
                "dequant_wte_row_f32_devpos",
                &dequant_wte_row_f32_devpos_list(),
            ),
        }
        match self {
            EmbeddingKernel::Dequant => s.append(DEQUANT_WTE_ROW_F32_BODY),
            EmbeddingKernel::DequantDevpos => s.append(DEQUANT_WTE_ROW_F32_DEVPOS_BODY),
        }
        assert(s@ =~= old(s)@ + (self.helpers() + self.declared().text() + self.body()));
    }
}

/// The kernels in the order of the text.
pub open spec fn embedding_text_order() -> Seq<EmbeddingKernel> {
    seq![
        EmbeddingKernel::Dequant,
        EmbeddingKernel::DequantDevpos,
    ]
}

/// The whole text.
pub open spec fn embedding_cuda_src() -> Seq<char> {
    text_of_kernels(embedding_text_order())
}

/// [`embedding_cuda_src`], computed.
pub fn embedding_source() -> (r: String)
    ensures
        r@ == embedding_cuda_src(),
{
    kernels_text(
        vec![
            EmbeddingKernel::Dequant,
            EmbeddingKernel::DequantDevpos,
        ],
    )
}

} // verus!
