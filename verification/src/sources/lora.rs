//! CUDA C of the low-rank kernels.

use vstd::prelude::*;
use crate::lora::LoraKernel;
use crate::sources::{
    declare, kernels_text, param, text_of_kernels, CudaType, Declaration, KernelText, Param,
    ParamView,
};

verus! {

/// The parameters of `lora_down_project_f32`.
pub open spec fn lora_down_project_f32_params() -> Seq<ParamView> {
    seq![
        param(CudaType::FloatsIn, "a_mat"@),
        param(CudaType::FloatsIn, "norm_x"@),
        param(CudaType::FloatsOut, "ax_out"@),
        param(CudaType::ConstInt, "rank"@),
        param(CudaType::ConstInt, "n_embd"@),
    ]
}

/// [`lora_down_project_f32_params`], computed.
fn lora_down_project_f32_list() -> (r: Vec<Param>)
    ensures
        r@.map_values(|p: Param| p@) == lora_down_project_f32_params(),
{
    let r: Vec<Param> = vec![
        Param { ty: CudaType::FloatsIn, name: "a_mat" },
        Param { ty: CudaType::FloatsIn, name: "norm_x" },
        Param { ty: CudaType::FloatsOut, name: "ax_out" },
        Param { ty: CudaType::ConstInt, name: "rank" },
        Param { ty: CudaType::ConstInt, name: "n_embd" },
    ];
    assert(r@.map_values(|p: Param| p@) =~= lora_down_project_f32_params());
    r
}

/// The parameters of `lora_up_project_add_f32`.
pub open spec fn lora_up_project_add_f32_params() -> Seq<ParamView> {
    seq![
        param(CudaType::FloatsIn, "b_mat"@),
        param(CudaType::FloatsIn, "ax"@),
        param(CudaType::FloatsOut, "qkv"@),
        param(CudaType::ConstInt, "out_dim"@),
        param(CudaType::ConstInt, "rank"@),
        param(CudaType::ConstInt, "slice_off"@),
        param(CudaType::ConstFloat, "scale"@),
    ]
}

/// [`lora_up_project_add_f32_params`], computed.
fn lora_up_project_add_f32_list() -> (r: Vec<Param>)
    ensures
        r@.map_values(|p: Param| p@) == lora_up_project_add_f32_params(),
{
    let r: Vec<Param> = vec![
        Param { ty: CudaType::FloatsIn, name: "b_mat" },
        Param { ty: CudaType::FloatsIn, name: "ax" },
        Param { ty: CudaType::FloatsOut, name: "qkv" },
        Param { ty: CudaType::ConstInt, name: "out_dim" },
        Param { ty: CudaType::ConstInt, name: "rank" },
        Param { ty: CudaType::ConstInt, name: "slice_off" },
        Param { ty: CudaType::ConstFloat, name: "scale" },
    ];
    assert(r@.map_values(|p: Param| p@) =~= lora_up_project_add_f32_params());
    r
}

/// The body of `lora_down_project_f32`.
pub const LORA_DOWN_PROJECT_F32_BODY: &'static str = r#"
{
    const int r = threadIdx.x;
    if (r >= rank) return;

    const float* row = a_mat + (r * n_embd);
    float sum = 0.0f;
    for (int j = 0; j < n_embd; j++) {
        sum += row[j] * norm_x[j];
    }
    ax_out[r] = sum;
}

"#;

/// The body of `lora_up_project_add_f32`.
pub const LORA_UP_PROJECT_ADD_F32_BODY: &'static str = r#"
{
    const int i = blockIdx.x * blockDim.x + threadIdx.x;
    if (i >= out_dim) return;

    const float* row = b_mat + (i * rank);
    float sum = 0.0f;
    for (int r = 0; r < rank; r++) {
        sum += row[r] * ax[r];
    }
    qkv[slice_off + i] += scale * sum;
}
"#;

impl KernelText for LoraKernel {
    open spec fn helpers(self) -> Seq<char> {
        match self {
            LoraKernel::DownProject => "\n"@,
            _ => Seq::empty(),
        }
    }

    open spec fn declared(self) -> Declaration {
        match self {
            LoraKernel::DownProject => Declaration {
                bounded: false,
                name: "lora_down_project_f32"@,
                params: lora_down_project_f32_params(),
            },
            LoraKernel::UpProjectAdd => Declaration {
                bounded: false,
                name: "lora_up_project_add_f32"@,
                params: lora_up_project_add_f32_params(),
            },
        }
    }

    open spec fn body(self) -> Seq<char> {
        match self {
            LoraKernel::DownProject => LORA_DOWN_PROJECT_F32_BODY@,
            LoraKernel::UpProjectAdd => LORA_UP_PROJECT_ADD_F32_BODY@,
        }
    }

    fn append_text(self, s: &mut String) {
        match self {
            LoraKernel::DownProject => s.append("\n"),
            _ => {},
        }
        assert(s@ =~= old(s)@ + self.helpers());
        match self {
            LoraKernel::DownProject => declare(
                s,
                false,
                "lora_down_project_f32",
                &lora_down_project_f32_list(),
            ),
            LoraKernel::UpProjectAdd => declare(
                s,
                false,
                "lora_up_project_add_f32",
                &lora_up_project_add_f32_list(),
            ),
        }
        match self {
            LoraKernel::DownProject => s.append(LORA_DOWN_PROJECT_F32_BODY),
            LoraKernel::UpProjectAdd => s.append(LORA_UP_PROJECT_ADD_F32_BODY),
        }
        assert(s@ =~= old(s)@ + (self.helpers() + self.declared().text() + self.body()));
    }
}

/// The kernels in the order of the text.
pub open spec fn lora_text_order() -> Seq<LoraKernel> {
    seq![
        LoraKernel::DownProject,
        LoraKernel::UpProjectAdd,
    ]
}

/// The whole text.
pub open spec fn lora_cuda_src() -> Seq<char> {
    text_of_kernels(lora_text_order())
}

/// [`lora_cuda_src`], computed.
pub fn lora_source() -> (r: String)
    ensures
        r@ == lora_cuda_src(),
{
    kernels_text(
        vec![
            LoraKernel::DownProject,
            LoraKernel::UpProjectAdd,
        ],
    )
}

} // verus!
