//! CUDA C of the elementwise kernels.

use vstd::prelude::*;
use crate::elementwise::ElementwiseKernel;
use crate::sources::{
    declare, kernels_text, param, text_of_kernels, CudaType, Declaration, KernelText, Param,
    ParamView,
};

verus! {

/// The parameters of `rmsnorm_f32`.
pub open spec fn rmsnorm_f32_params() -> Seq<ParamView> {
    seq![
        param(CudaType::FloatsIn, "input"@),
        param(CudaType::FloatsIn, "gamma"@),
        param(CudaType::FloatsOut, "output"@),
        param(CudaType::Float, "inv_dim"@),
        param(CudaType::Float, "eps"@),
        param(CudaType::Int, "dim"@),
    ]
}

/// [`rmsnorm_f32_params`], computed.
fn rmsnorm_f32_list() -> (r: Vec<Param>)
    ensures
        r@.map_values(|p: Param| p@) == rmsnorm_f32_params(),
{
    let r: Vec<Param> = vec![
        Param { ty: CudaType::FloatsIn, name: "input" },
        Param { ty: CudaType::FloatsIn, name: "gamma" },
        Param { ty: CudaType::FloatsOut, name: "output" },
        Param { ty: CudaType::Float, name: "inv_dim" },
        Param { ty: CudaType::Float, name: "eps" },
        Param { ty: CudaType::Int, name: "dim" },
    ];
    assert(r@.map_values(|p: Param| p@) =~= rmsnorm_f32_params());
    r
}

/// The parameters of `residual_add_f32`.
pub open spec fn residual_add_f32_params() -> Seq<ParamView> {
    seq![
        param(CudaType::FloatsIn, "a"@),
        param(CudaType::FloatsIn, "b"@),
        param(CudaType::FloatsOut, "output"@),
        param(CudaType::Int, "n"@),
    ]
}

/// [`residual_add_f32_params`], computed.
fn residual_add_f32_list() -> (r: Vec<Param>)
    ensures
        r@.map_values(|p: Param| p@) == residual_add_f32_params(),
{
    let r: Vec<Param> = vec![
        Param { ty: CudaType::FloatsIn, name: "a" },
        Param { ty: CudaType::FloatsIn, name: "b" },
        Param { ty: CudaType::FloatsOut, name: "output" },
        Param { ty: CudaType::Int, name: "n" },
    ];
    assert(r@.map_values(|p: Param| p@) =~= residual_add_f32_params());
    r
}

/// The parameters of `swiglu_f32`.
pub open spec fn swiglu_f32_params() -> Seq<ParamView> {
    seq![
        param(CudaType::FloatsIn, "gate"@),
        param(CudaType::FloatsIn, "up"@),
        param(CudaType::FloatsOut, "output"@),
        param(CudaType::Int, "n"@),
    ]
}

/// [`swiglu_f32_params`], computed.
fn swiglu_f32_list() -> (r: Vec<Param>)
    ensures
        r@.map_values(|p: Param| p@) == swiglu_f32_params(),
{
    let r: Vec<Param> = vec![
        Param { ty: CudaType::FloatsIn, name: "gate" },
        Param { ty: CudaType::FloatsIn, name: "up" },
        Param { ty: CudaType::FloatsOut, name: "output" },
        Param { ty: CudaType::Int, name: "n" },
    ];
    assert(r@.map_values(|p: Param| p@) =~= swiglu_f32_params());
    r
}

/// The parameters of `quantize_f32_to_i8`.
pub open spec fn quantize_f32_to_i8_params() -> Seq<ParamView> {
    seq![
        param(CudaType::FloatsIn, "x"@),
        param(CudaType::BytesOut, "out"@),
        param(CudaType::FloatsOut, "ascale"@),
        param(CudaType::ConstInt, "n"@),
        param(CudaType::ConstInt, "ablock"@),
        param(CudaType::ConstInt, "ablocks"@),
    ]
}

/// [`quantize_f32_to_i8_params`], computed.
fn quantize_f32_to_i8_list() -> (r: Vec<Param>)
    ensures
        r@.map_values(|p: Param| p@) == quantize_f32_to_i8_params(),
{
    let r: Vec<Param> = vec![
        Param { ty: CudaType::FloatsIn, name: "x" },
        Param { ty: CudaType::BytesOut, name: "out" },
        Param { ty: CudaType::FloatsOut, name: "ascale" },
        Param { ty: CudaType::ConstInt, name: "n" },
        Param { ty: CudaType::ConstInt, name: "ablock" },
        Param { ty: CudaType::ConstInt, name: "ablocks" },
    ];
    assert(r@.map_values(|p: Param| p@) =~= quantize_f32_to_i8_params());
    r
}

/// The parameters of `rmsnorm_quantize_f32`.
pub open spec fn rmsnorm_quantize_f32_params() -> Seq<ParamView> {
    seq![
        param(CudaType::FloatsIn, "input"@),
        param(CudaType::FloatsIn, "gamma"@),
        param(CudaType::BytesOut, "out"@),
        param(CudaType::FloatsOut, "ascale"@),
        param(CudaType::Float, "inv_dim"@),
        param(CudaType::Float, "eps"@),
        param(CudaType::Int, "dim"@),
        param(CudaType::Int, "ablock"@),
        param(CudaType::Int, "ablocks"@),
        param(CudaType::Int, "block_size"@),
    ]
}

/// [`rmsnorm_quantize_f32_params`], computed.
fn rmsnorm_quantize_f32_list() -> (r: Vec<Param>)
    ensures
        r@.map_values(|p: Param| p@) == rmsnorm_quantize_f32_params(),
{
    let r: Vec<Param> = vec![
        Param { ty: CudaType::FloatsIn, name: "input" },
        Param { ty: CudaType::FloatsIn, name: "gamma" },
        Param { ty: CudaType::BytesOut, name: "out" },
        Param { ty: CudaType::FloatsOut, name: "ascale" },
        Param { ty: CudaType::Float, name: "inv_dim" },
        Param { ty: CudaType::Float, name: "eps" },
        Param { ty: CudaType::Int, name: "dim" },
        Param { ty: CudaType::Int, name: "ablock" },
        Param { ty: CudaType::Int, name: "ablocks" },
        Param { ty: CudaType::Int, name: "block_size" },
    ];
    assert(r@.map_values(|p: Param| p@) =~= rmsnorm_quantize_f32_params());
    r
}

/// The parameters of `rmsnorm_quantize_multiblock_f32`.
pub open spec fn rmsnorm_quantize_multiblock_f32_params() -> Seq<ParamView> {
    seq![
        param(CudaType::FloatsIn, "input"@),
        param(CudaType::FloatsIn, "gamma"@),
        param(CudaType::BytesOut, "out"@),
        param(CudaType::FloatsOut, "ascale"@),
        param(CudaType::FloatsOut, "partials"@),
        param(CudaType::IntsOut, "arrived"@),
        param(CudaType::Float, "inv_dim"@),
        param(CudaType::Float, "eps"@),
        param(CudaType::Int, "dim"@),
        param(CudaType::Int, "ablock"@),
        param(CudaType::Int, "ablocks"@),
        param(CudaType::Int, "block_size"@),
    ]
}

/// [`rmsnorm_quantize_multiblock_f32_params`], computed.
fn rmsnorm_quantize_multiblock_f32_list() -> (r: Vec<Param>)
    ensures
        r@.map_values(|p: Param| p@) == rmsnorm_quantize_multiblock_f32_params(),
{
    let r: Vec<Param> = vec![
        Param { ty: CudaType::FloatsIn, name: "input" },
        Param { ty: CudaType::FloatsIn, name: "gamma" },
        Param { ty: CudaType::BytesOut, name: "out" },
        Param { ty: CudaType::FloatsOut, name: "ascale" },
        Param { ty: CudaType::FloatsOut, name: "partials" },
        Param { ty: CudaType::IntsOut, name: "arrived" },
        Param { ty: CudaType::Float, name: "inv_dim" },
        Param { ty: CudaType::Float, name: "eps" },
        Param { ty: CudaType::Int, name: "dim" },
        Param { ty: CudaType::Int, name: "ablock" },
        Param { ty: CudaType::Int, name: "ablocks" },
        Param { ty: CudaType::Int, name: "block_size" },
    ];
    assert(r@.map_values(|p: Param| p@) =~= rmsnorm_quantize_multiblock_f32_params());
    r
}

/// The parameters of `rmsnorm_quantize_with_norm_x_f32`.
pub open spec fn rmsnorm_quantize_with_norm_x_f32_params() -> Seq<ParamView> {
    seq![
        param(CudaType::FloatsIn, "input"@),
        param(CudaType::FloatsIn, "gamma"@),
        param(CudaType::BytesOut, "out"@),
        param(CudaType::FloatsOut, "ascale"@),
        param(CudaType::FloatsOut, "norm_x_out"@),
        param(CudaType::Float, "inv_dim"@),
        param(CudaType::Float, "eps"@),
        param(CudaType::Int, "dim"@),
        param(CudaType::Int, "ablock"@),
        param(CudaType::Int, "ablocks"@),
        param(CudaType::Int, "block_size"@),
    ]
}

/// [`rmsnorm_quantize_with_norm_x_f32_params`], computed.
fn rmsnorm_quantize_with_norm_x_f32_list() -> (r: Vec<Param>)
    ensures
        r@.map_values(|p: Param| p@) == rmsnorm_quantize_with_norm_x_f32_params(),
{
    let r: Vec<Param> = vec![
        Param { ty: CudaType::FloatsIn, name: "input" },
        Param { ty: CudaType::FloatsIn, name: "gamma" },
        Param { ty: CudaType::BytesOut, name: "out" },
        Param { ty: CudaType::FloatsOut, name: "ascale" },
        Param { ty: CudaType::FloatsOut, name: "norm_x_out" },
        Param { ty: CudaType::Float, name: "inv_dim" },
        Param { ty: CudaType::Float, name: "eps" },
        Param { ty: CudaType::Int, name: "dim" },
        Param { ty: CudaType::Int, name: "ablock" },
        Param { ty: CudaType::Int, name: "ablocks" },
        Param { ty: CudaType::Int, name: "block_size" },
    ];
    assert(r@.map_values(|p: Param| p@) =~= rmsnorm_quantize_with_norm_x_f32_params());
    r
}

/// The parameters of `swiglu_quantize_f32`.
pub open spec fn swiglu_quantize_f32_params() -> Seq<ParamView> {
    seq![
        param(CudaType::FloatsIn, "gate"@),
        param(CudaType::FloatsIn, "up"@),
        param(CudaType::BytesOut, "out"@),
        param(CudaType::FloatsOut, "ascale"@),
        param(CudaType::ConstInt, "n"@),
        param(CudaType::ConstInt, "ablock"@),
        param(CudaType::ConstInt, "ablocks"@),
    ]
}

/// [`swiglu_quantize_f32_params`], computed.
fn swiglu_quantize_f32_list() -> (r: Vec<Param>)
    ensures
        r@.map_values(|p: Param| p@) == swiglu_quantize_f32_params(),
{
    let r: Vec<Param> = vec![
        Param { ty: CudaType::FloatsIn, name: "gate" },
        Param { ty: CudaType::FloatsIn, name: "up" },
        Param { ty: CudaType::BytesOut, name: "out" },
        Param { ty: CudaType::FloatsOut, name: "ascale" },
        Param { ty: CudaType::ConstInt, name: "n" },
        Param { ty: CudaType::ConstInt, name: "ablock" },
        Param { ty: CudaType::ConstInt, name: "ablocks" },
    ];
    assert(r@.map_values(|p: Param| p@) =~= swiglu_quantize_f32_params());
    r
}

/// The parameters of `gate_silu_quantize_f32` and the kernels that declare the same.
pub open spec fn gate_silu_quantize_f32_params() -> Seq<ParamView> {
    seq![
        param(CudaType::FloatsIn, "x"@),
        param(CudaType::FloatsIn, "gate"@),
        param(CudaType::BytesOut, "out"@),
        param(CudaType::FloatsOut, "ascale"@),
        param(CudaType::ConstInt, "n"@),
        param(CudaType::ConstInt, "ablock"@),
        param(CudaType::ConstInt, "ablocks"@),
    ]
}

/// [`gate_silu_quantize_f32_params`], computed.
fn gate_silu_quantize_f32_list() -> (r: Vec<Param>)
    ensures
        r@.map_values(|p: Param| p@) == gate_silu_quantize_f32_params(),
{
    let r: Vec<Param> = vec![
        Param { ty: CudaType::FloatsIn, name: "x" },
        Param { ty: CudaType::FloatsIn, name: "gate" },
        Param { ty: CudaType::BytesOut, name: "out" },
        Param { ty: CudaType::FloatsOut, name: "ascale" },
        Param { ty: CudaType::ConstInt, name: "n" },
        Param { ty: CudaType::ConstInt, name: "ablock" },
        Param { ty: CudaType::ConstInt, name: "ablocks" },
    ];
    assert(r@.map_values(|p: Param| p@) =~= gate_silu_quantize_f32_params());
    r
}

/// The parameters of `rmsnorm_gate_silu_quantize_f32`.
pub open spec fn rmsnorm_gate_silu_quantize_f32_params() -> Seq<ParamView> {
    seq![
        param(CudaType::FloatsIn, "x"@),
        param(CudaType::FloatsIn, "gate"@),
        param(CudaType::FloatsIn, "gamma"@),
        param(CudaType::BytesOut, "out"@),
        param(CudaType::FloatsOut, "ascale"@),
        param(CudaType::ConstFloat, "inv_head_dim"@),
        param(CudaType::ConstFloat, "eps"@),
        param(CudaType::ConstInt, "head_dim"@),
        param(CudaType::ConstInt, "ablock"@),
    ]
}

/// [`rmsnorm_gate_silu_quantize_f32_params`], computed.
fn rmsnorm_gate_silu_quantize_f32_list() -> (r: Vec<Param>)
    ensures
        r@.map_values(|p: Param| p@) == rmsnorm_gate_silu_quantize_f32_params(),
{
    let r: Vec<Param> = vec![
        Param { ty: CudaType::FloatsIn, name: "x" },
        Param { ty: CudaType::FloatsIn, name: "gate" },
        Param { ty: CudaType::FloatsIn, name: "gamma" },
        Param { ty: CudaType::BytesOut, name: "out" },
        Param { ty: CudaType::FloatsOut, name: "ascale" },
        Param { ty: CudaType::ConstFloat, name: "inv_head_dim" },
        Param { ty: CudaType::ConstFloat, name: "eps" },
        Param { ty: CudaType::ConstInt, name: "head_dim" },
        Param { ty: CudaType::ConstInt, name: "ablock" },
    ];
    assert(r@.map_values(|p: Param| p@) =~= rmsnorm_gate_silu_quantize_f32_params());
    r
}

/// The parameters of `argmax_first_f32`.
pub open spec fn argmax_first_f32_params() -> Seq<ParamView> {
    seq![
        param(CudaType::FloatsIn, "values"@),
        param(CudaType::Int, "n"@),
        param(CudaType::LongsOut, "result"@),
    ]
}

/// [`argmax_first_f32_params`], computed.
fn argmax_first_f32_list() -> (r: Vec<Param>)
    ensures
        r@.map_values(|p: Param| p@) == argmax_first_f32_params(),
{
    let r: Vec<Param> = vec![
        Param { ty: CudaType::FloatsIn, name: "values" },
        Param { ty: CudaType::Int, name: "n" },
        Param { ty: CudaType::LongsOut, name: "result" },
    ];
    assert(r@.map_values(|p: Param| p@) =~= argmax_first_f32_params());
    r
}

/// The body of `rmsnorm_f32`.
pub const RMSNORM_F32_BODY: &'static str = r#"
{
    const int tid = threadIdx.x;
    const int block_size = blockDim.x;

    float partial_sq = 0.0f;
    for (int i = tid; i < dim; i += block_size) {
        float x = input[i];
        partial_sq += x * x;
    }

    __shared__ float smem[256];
    smem[tid] = partial_sq;
    __syncthreads();

    if (tid < 128) smem[tid] += smem[tid + 128]; __syncthreads();
    if (tid < 64)  smem[tid] += smem[tid + 64];  __syncthreads();
    if (tid < 32)  smem[tid] += smem[tid + 32];  __syncthreads();
    if (tid < 16)  smem[tid] += smem[tid + 16];  __syncthreads();
    if (tid < 8)   smem[tid] += smem[tid + 8];   __syncthreads();
    if (tid < 4)   smem[tid] += smem[tid + 4];   __syncthreads();
    if (tid < 2)   smem[tid] += smem[tid + 2];   __syncthreads();
    if (tid < 1)   smem[0] += smem[1];
    __syncthreads();

    float inv_rms;
    if (tid == 0) {
        float mean_sq = smem[0] * inv_dim;
        smem[0] = 1.0f / sqrtf(mean_sq + eps);
    }
    __syncthreads();
    inv_rms = smem[0];

    for (int j = tid; j < dim; j += block_size) {
        output[j] = input[j] * inv_rms * gamma[j];
    }
}

"#;

/// The body of `residual_add_f32`.
pub const RESIDUAL_ADD_F32_BODY: &'static str = r#"
{
    const int idx = blockIdx.x * blockDim.x + threadIdx.x;
    if (idx < n) {
        output[idx] = a[idx] + b[idx];
    }
}

"#;

/// The body of `swiglu_f32`.
pub const SWIGLU_F32_BODY: &'static str = r#"
{
    const int idx = blockIdx.x * blockDim.x + threadIdx.x;
    if (idx < n) {
        float g = gate[idx];

        float silu_g = g / (1.0f + expf(-g));
        output[idx] = silu_g * up[idx];
    }
}

"#;

/// The body of `quantize_f32_to_i8`.
pub const QUANTIZE_F32_TO_I8_BODY: &'static str = r#"
{
    const int blk = blockIdx.x;
    if (blk >= ablocks) return;
    const int tid = threadIdx.x;

    const int start = blk * ablock;
    const int len = min(ablock, n - start);

    float x_val = (tid < len) ? x[start + tid] : 0.0f;
    float a = fabsf(x_val);

    a = fmaxf(a, __shfl_down_sync(0xFFFFFFFFu, a, 8));
    a = fmaxf(a, __shfl_down_sync(0xFFFFFFFFu, a, 4));
    a = fmaxf(a, __shfl_down_sync(0xFFFFFFFFu, a, 2));
    a = fmaxf(a, __shfl_down_sync(0xFFFFFFFFu, a, 1));
    const float absmax = __shfl_sync(0xFFFFFFFFu, a, 0);

    const float d = (absmax > 0.0f) ? (absmax * (1.0f / 127.0f)) : 1.0f;
    if (tid == 0) {
        ascale[blk] = d;
    }
    const float inv_d = 1.0f / d;

    if (tid < len) {
        float q = roundf(x_val * inv_d);

        q = fmaxf(-128.0f, fminf(127.0f, q));
        out[start + tid] = (signed char)q;
    }
}

"#;

/// The body of `rmsnorm_quantize_f32`.
pub const RMSNORM_QUANTIZE_F32_BODY: &'static str = r#"
{
    const int tid = threadIdx.x;

    const int start = tid * ablock;
    const bool active = (tid < ablocks);

    float vals[16];
    float gam[16];
    float partial_sq = 0.0f;
    if (active) {
        const int len = (start + ablock <= dim) ? ablock : (dim - start);
        #pragma unroll
        for (int i = 0; i < 16; i++) {
            const bool ok = (i < len);
            float v = ok ? input[start + i] : 0.0f;
            vals[i] = v;
            gam[i] = ok ? gamma[start + i] : 0.0f;
            partial_sq += v * v;
        }
    }
    for (int b = tid + block_size; b < ablocks; b += block_size) {
        const int at = b * ablock;
        const int len = (at + ablock <= dim) ? ablock : (dim - at);
        for (int i = 0; i < len; i++) {
            const float v = input[at + i];
            partial_sq += v * v;
        }
    }

    __shared__ float smem[1024];
    smem[tid] = partial_sq;
    for (int i = tid + block_size; i < 32; i += block_size) smem[i] = 0.0f;
    __syncthreads();

    for (int s = block_size / 2; s > 32; s >>= 1) {
        if (tid < s) {
            smem[tid] += smem[tid + s];
        }
        __syncthreads();
    }

    if (block_size > 32 && tid < 32) {
        smem[tid] += smem[tid + 32];
    }
    __syncthreads();

    if (tid < 32) {
        volatile float* vsmem = smem;
        if (tid < 16) vsmem[tid] += vsmem[tid + 16];
        if (tid < 8)  vsmem[tid] += vsmem[tid + 8];
        if (tid < 4)  vsmem[tid] += vsmem[tid + 4];
        if (tid < 2)  vsmem[tid] += vsmem[tid + 2];
        if (tid < 1)  vsmem[tid] += vsmem[tid + 1];
    }
    __syncthreads();

    float inv_rms;
    if (tid == 0) {
        float mean_sq = smem[0] * inv_dim;
        smem[0] = 1.0f / sqrtf(mean_sq + eps);
    }
    __syncthreads();
    inv_rms = smem[0];

    for (int b = tid; b < ablocks; b += block_size) {
        const int at = b * ablock;
        const int len = (at + ablock <= dim) ? ablock : (dim - at);
        if (b != tid) {
            #pragma unroll
            for (int i = 0; i < 16; i++) {
                const bool ok = (i < len);
                vals[i] = ok ? input[at + i] : 0.0f;
                gam[i] = ok ? gamma[at + i] : 0.0f;
            }
        }

        float absmax = 0.0f;
        #pragma unroll
        for (int i = 0; i < 16; i++) {
            float v;
            if (i < len) {
                v = vals[i] * inv_rms * gam[i];
            } else {
                v = 0.0f;
            }
            vals[i] = v;
            absmax = fmaxf(absmax, fabsf(v));
        }

        float d = (absmax > 0.0f) ? (absmax * (1.0f / 127.0f)) : 1.0f;
        ascale[b] = d;
        float inv_d = 1.0f / d;

        #pragma unroll
        for (int i = 0; i < 16; i++) {
            if (i < len) {
                float q = roundf(vals[i] * inv_d);
                q = fmaxf(-128.0f, fminf(127.0f, q));
                out[at + i] = (signed char)q;
            }
        }
    }
}

"#;

/// The body of `rmsnorm_quantize_multiblock_f32`.
pub const RMSNORM_QUANTIZE_MULTIBLOCK_F32_BODY: &'static str = r#"
{
    const int lane = threadIdx.x;
    const int t = blockIdx.x * 32 + lane;
    const bool active = t < ablocks;

    float vals[16];
    float gam[16];
    float partial_sq = 0.0f;
    if (active) {
        const int start = t * ablock;
        const int len = (start + ablock <= dim) ? ablock : (dim - start);
        if (len == 16) {
            const float4* in4 = (const float4*)(input + start);
            const float4* ga4 = (const float4*)(gamma + start);
            #pragma unroll
            for (int i = 0; i < 4; ++i) {
                const float4 v = in4[i];
                const float4 g = ga4[i];
                vals[4*i+0] = v.x; vals[4*i+1] = v.y; vals[4*i+2] = v.z; vals[4*i+3] = v.w;
                gam[4*i+0] = g.x; gam[4*i+1] = g.y; gam[4*i+2] = g.z; gam[4*i+3] = g.w;
                partial_sq += v.x * v.x;
                partial_sq += v.y * v.y;
                partial_sq += v.z * v.z;
                partial_sq += v.w * v.w;
            }
        } else {
            #pragma unroll
            for (int i = 0; i < 16; ++i) {
                const bool ok = (i < len);
                const float v = ok ? input[start + i] : 0.0f;
                vals[i] = v;
                gam[i] = ok ? gamma[start + i] : 0.0f;
                partial_sq += v * v;
            }
        }
    }

    partials[t] = partial_sq;
    if (lane == 0) {
        __threadfence();
        atomicAdd(&arrived[0], 1);

        while (((volatile int*)arrived)[0] < (int)gridDim.x) { }
    }
    __syncwarp();
    __threadfence();

    __shared__ float sm[512];

    if (lane + block_size < 32) sm[lane + block_size] = 0.0f;
    for (int i = lane; i < block_size; i += 32) sm[i] = partials[i];
    __syncwarp();
    for (int s = block_size / 2; s > 32; s >>= 1) {
        for (int t2 = lane; t2 < s; t2 += 32) sm[t2] += sm[t2 + s];
        __syncwarp();
    }
    if (block_size > 32) {
        sm[lane] += sm[lane + 32];
    }
    __syncwarp();
    {
        volatile float* vsm = sm;
        if (lane < 16) vsm[lane] += vsm[lane + 16];
        if (lane < 8)  vsm[lane] += vsm[lane + 8];
        if (lane < 4)  vsm[lane] += vsm[lane + 4];
        if (lane < 2)  vsm[lane] += vsm[lane + 2];
        if (lane < 1)  vsm[lane] += vsm[lane + 1];
    }
    __syncwarp();
    const float sumsq = sm[0];
    const float inv_rms = 1.0f / sqrtf(sumsq * inv_dim + eps);

    if (active) {
        const int start = t * ablock;
        const int len = (start + ablock <= dim) ? ablock : (dim - start);
        float absmax = 0.0f;
        #pragma unroll
        for (int i = 0; i < 16; ++i) {
            float v;
            if (i < len) {
                v = vals[i] * inv_rms * gam[i];
            } else {
                v = 0.0f;
            }
            vals[i] = v;
            absmax = fmaxf(absmax, fabsf(v));
        }

        float d = (absmax > 0.0f) ? (absmax * (1.0f / 127.0f)) : 1.0f;
        ascale[t] = d;
        float inv_d = 1.0f / d;

        #pragma unroll
        for (int i = 0; i < 16; ++i) {
            if (i < len) {
                float q = roundf(vals[i] * inv_d);
                q = fmaxf(-128.0f, fminf(127.0f, q));
                out[start + i] = (signed char)q;
            }
        }
    }

    __syncwarp();
    if (lane == 0) {
        __threadfence();
        const int old = atomicAdd(&arrived[1], 1);
        if (old == (int)gridDim.x - 1) {
            arrived[0] = 0;
            arrived[1] = 0;
            __threadfence();
        }
    }
}

"#;

/// The body of `rmsnorm_quantize_with_norm_x_f32`.
pub const RMSNORM_QUANTIZE_WITH_NORM_X_F32_BODY: &'static str = r#"
{
    const int tid = threadIdx.x;

    const int start = tid * ablock;
    const bool active = (tid < ablocks);

    float vals[16];
    float gam[16];
    float partial_sq = 0.0f;
    if (active) {
        const int len = (start + ablock <= dim) ? ablock : (dim - start);
        #pragma unroll
        for (int i = 0; i < 16; i++) {
            const bool ok = (i < len);
            float v = ok ? input[start + i] : 0.0f;
            vals[i] = v;
            gam[i] = ok ? gamma[start + i] : 0.0f;
            partial_sq += v * v;
        }
    }
    for (int b = tid + block_size; b < ablocks; b += block_size) {
        const int at = b * ablock;
        const int len = (at + ablock <= dim) ? ablock : (dim - at);
        for (int i = 0; i < len; i++) {
            const float v = input[at + i];
            partial_sq += v * v;
        }
    }

    __shared__ float smem[1024];
    smem[tid] = partial_sq;
    for (int i = tid + block_size; i < 32; i += block_size) smem[i] = 0.0f;
    __syncthreads();

    for (int s = block_size / 2; s > 32; s >>= 1) {
        if (tid < s) {
            smem[tid] += smem[tid + s];
        }
        __syncthreads();
    }
    if (block_size > 32 && tid < 32) {
        smem[tid] += smem[tid + 32];
    }
    __syncthreads();
    if (tid < 32) {
        volatile float* vsmem = smem;
        if (tid < 16) vsmem[tid] += vsmem[tid + 16];
        if (tid < 8)  vsmem[tid] += vsmem[tid + 8];
        if (tid < 4)  vsmem[tid] += vsmem[tid + 4];
        if (tid < 2)  vsmem[tid] += vsmem[tid + 2];
        if (tid < 1)  vsmem[tid] += vsmem[tid + 1];
    }
    __syncthreads();

    float inv_rms;
    if (tid == 0) {
        float mean_sq = smem[0] * inv_dim;
        smem[0] = 1.0f / sqrtf(mean_sq + eps);
    }
    __syncthreads();
    inv_rms = smem[0];

    for (int b = tid; b < ablocks; b += block_size) {
        const int at = b * ablock;
        const int len = (at + ablock <= dim) ? ablock : (dim - at);
        if (b != tid) {
            #pragma unroll
            for (int i = 0; i < 16; i++) {
                const bool ok = (i < len);
                vals[i] = ok ? input[at + i] : 0.0f;
                gam[i] = ok ? gamma[at + i] : 0.0f;
            }
        }

        float absmax = 0.0f;
        #pragma unroll
        for (int i = 0; i < 16; i++) {
            float v;
            if (i < len) {
                v = vals[i] * inv_rms * gam[i];
            } else {
                v = 0.0f;
            }
            vals[i] = v;
            absmax = fmaxf(absmax, fabsf(v));

            if (i < len) {
                norm_x_out[at + i] = v;
            }
        }

        float d = (absmax > 0.0f) ? (absmax * (1.0f / 127.0f)) : 1.0f;
        ascale[b] = d;
        float inv_d = 1.0f / d;

        #pragma unroll
        for (int i = 0; i < 16; i++) {
            if (i < len) {
                float q = roundf(vals[i] * inv_d);
                q = fmaxf(-128.0f, fminf(127.0f, q));
                out[at + i] = (signed char)q;
            }
        }
    }
}


"#;

/// The body of `swiglu_quantize_f32`.
pub const SWIGLU_QUANTIZE_F32_BODY: &'static str = r#"
{
    const int blk = blockIdx.x;
    if (blk >= ablocks) return;
    const int tid = threadIdx.x;

    const int start = blk * ablock;
    const int len = min(ablock, n - start);

    float val = 0.0f;
    if (tid < len) {
        float g = gate[start + tid];
        float silu_g = g / (1.0f + expf(-g));
        val = silu_g * up[start + tid];
    }

    float a = fabsf(val);
    a = fmaxf(a, __shfl_down_sync(0xFFFFFFFFu, a, 8));
    a = fmaxf(a, __shfl_down_sync(0xFFFFFFFFu, a, 4));
    a = fmaxf(a, __shfl_down_sync(0xFFFFFFFFu, a, 2));
    a = fmaxf(a, __shfl_down_sync(0xFFFFFFFFu, a, 1));
    const float absmax = __shfl_sync(0xFFFFFFFFu, a, 0);

    const float d = (absmax > 0.0f) ? (absmax * (1.0f / 127.0f)) : 1.0f;
    if (tid == 0) {
        ascale[blk] = d;
    }
    const float inv_d = 1.0f / d;

    if (tid < len) {
        float q = roundf(val * inv_d);
        q = fmaxf(-128.0f, fminf(127.0f, q));
        out[start + tid] = (signed char)q;
    }
}

"#;

/// The body of `gate_silu_quantize_f32`.
pub const GATE_SILU_QUANTIZE_F32_BODY: &'static str = r#"
{
    const int blk = blockIdx.x;
    if (blk >= ablocks) return;
    const int tid = threadIdx.x;

    const int start = blk * ablock;
    const int len = min(ablock, n - start);

    float val = 0.0f;
    if (tid < len) {
        float g = gate[start + tid];
        float silu_g = g / (1.0f + expf(-g));
        val = silu_g * x[start + tid];
    }

    float a = fabsf(val);
    a = fmaxf(a, __shfl_down_sync(0xFFFFFFFFu, a, 8));
    a = fmaxf(a, __shfl_down_sync(0xFFFFFFFFu, a, 4));
    a = fmaxf(a, __shfl_down_sync(0xFFFFFFFFu, a, 2));
    a = fmaxf(a, __shfl_down_sync(0xFFFFFFFFu, a, 1));
    const float absmax = __shfl_sync(0xFFFFFFFFu, a, 0);

    const float d = (absmax > 0.0f) ? (absmax * (1.0f / 127.0f)) : 1.0f;
    if (tid == 0) {
        ascale[blk] = d;
    }
    const float inv_d = 1.0f / d;

    if (tid < len) {
        float q = roundf(val * inv_d);
        q = fmaxf(-128.0f, fminf(127.0f, q));
        out[start + tid] = (signed char)q;
    }
}

"#;

/// The body of `gate_sigmoid_quantize_f32`.
pub const GATE_SIGMOID_QUANTIZE_F32_BODY: &'static str = r#"
{
    const int blk = blockIdx.x;
    if (blk >= ablocks) return;
    const int tid = threadIdx.x;

    const int start = blk * ablock;
    const int len = min(ablock, n - start);

    float val = 0.0f;
    if (tid < len) {
        float g = gate[start + tid];
        float sig = 1.0f / (1.0f + expf(-g));
        val = sig * x[start + tid];
    }

    float a = fabsf(val);
    a = fmaxf(a, __shfl_down_sync(0xFFFFFFFFu, a, 8));
    a = fmaxf(a, __shfl_down_sync(0xFFFFFFFFu, a, 4));
    a = fmaxf(a, __shfl_down_sync(0xFFFFFFFFu, a, 2));
    a = fmaxf(a, __shfl_down_sync(0xFFFFFFFFu, a, 1));
    const float absmax = __shfl_sync(0xFFFFFFFFu, a, 0);

    const float d = (absmax > 0.0f) ? (absmax * (1.0f / 127.0f)) : 1.0f;
    if (tid == 0) {
        ascale[blk] = d;
    }
    const float inv_d = 1.0f / d;

    if (tid < len) {
        float q = roundf(val * inv_d);
        q = fmaxf(-128.0f, fminf(127.0f, q));
        out[start + tid] = (signed char)q;
    }
}

"#;

/// The body of `rmsnorm_gate_silu_quantize_f32`.
pub const RMSNORM_GATE_SILU_QUANTIZE_F32_BODY: &'static str = r#"
{
    const int head_idx = blockIdx.x;
    const int tid = threadIdx.x;
    const int block_size = blockDim.x;
    const int base = head_idx * head_dim;
    const int groups_per_head = head_dim / ablock;

    float partial_sq = 0.0f;
    for (int i = tid; i < head_dim; i += block_size) {
        float xv = x[base + i];
        partial_sq += xv * xv;
    }

    __shared__ float smem[256];
    smem[tid] = partial_sq;
    __syncthreads();

    if (tid < 128) smem[tid] += smem[tid + 128]; __syncthreads();
    if (tid < 64)  smem[tid] += smem[tid + 64];  __syncthreads();
    if (tid < 32)  smem[tid] += smem[tid + 32];  __syncthreads();
    if (tid < 16)  smem[tid] += smem[tid + 16];  __syncthreads();
    if (tid < 8)   smem[tid] += smem[tid + 8];   __syncthreads();
    if (tid < 4)   smem[tid] += smem[tid + 4];   __syncthreads();
    if (tid < 2)   smem[tid] += smem[tid + 2];   __syncthreads();
    if (tid < 1)   smem[0] += smem[1];
    __syncthreads();

    float inv_rms;
    if (tid == 0) {
        float mean_sq = smem[0] * inv_head_dim;
        smem[0] = 1.0f / sqrtf(mean_sq + eps);
    }
    __syncthreads();
    inv_rms = smem[0];

    float val = 0.0f;
    if (tid < head_dim) {
        float xv = x[base + tid];
        float gv = gate[base + tid];
        float silu_g = gv / (1.0f + expf(-gv));
        float x_norm = xv * inv_rms * gamma[tid];
        val = silu_g * x_norm;
    }

    float a = fabsf(val);
    a = fmaxf(a, __shfl_xor_sync(0xFFFFFFFFu, a, 8));
    a = fmaxf(a, __shfl_xor_sync(0xFFFFFFFFu, a, 4));
    a = fmaxf(a, __shfl_xor_sync(0xFFFFFFFFu, a, 2));
    a = fmaxf(a, __shfl_xor_sync(0xFFFFFFFFu, a, 1));

    const int group = tid / ablock;
    const int ascale_idx = head_idx * groups_per_head + group;

    const float d = (a > 0.0f) ? (a * (1.0f / 127.0f)) : 1.0f;
    if ((tid % ablock) == 0 && tid < head_dim) {
        ascale[ascale_idx] = d;
    }
    const float inv_d = 1.0f / d;

    if (tid < head_dim) {
        float q = roundf(val * inv_d);
        q = fmaxf(-128.0f, fminf(127.0f, q));
        out[base + tid] = (signed char)q;
    }
}

"#;

/// The body of `argmax_first_f32`.
pub const ARGMAX_FIRST_F32_BODY: &'static str = r#"
{
    const int tid = threadIdx.x;
    const int stride = gridDim.x * blockDim.x;

    float m = __int_as_float(0xff800000);
    int mi = 0;
    for (int i = blockIdx.x * blockDim.x + tid; i < n; i += stride) {
        const float v = values[i];
        if (v > m) { m = v; mi = i; }
    }

    __shared__ float sm[256];
    __shared__ int si[256];
    sm[tid] = m;
    si[tid] = mi;
    __syncthreads();

    for (int s = blockDim.x / 2; s > 0; s >>= 1) {
        if (tid < s) {
            if (sm[tid + s] > sm[tid] || (sm[tid + s] == sm[tid] && si[tid + s] < si[tid])) {
                sm[tid] = sm[tid + s];
                si[tid] = si[tid + s];
            }
        }
        __syncthreads();
    }

    if (tid == 0) {
        unsigned int bits = __float_as_uint(sm[0]);

        if ((bits & 0x7FFFFFFFu) == 0u) bits = 0u;

        const unsigned int key = (bits & 0x80000000u) ? ~bits : (bits | 0x80000000u);
        const unsigned long long packed =
            ((unsigned long long)key << 32) | (unsigned int)(~(unsigned int)si[0]);
        atomicMax(result, packed);
    }
}
"#;

impl KernelText for ElementwiseKernel {
    open spec fn helpers(self) -> Seq<char> {
        match self {
            ElementwiseKernel::Rmsnorm => "\n"@,
            _ => Seq::empty(),
        }
    }

    open spec fn declared(self) -> Declaration {
        match self {
            ElementwiseKernel::Rmsnorm => Declaration {
                bounded: false,
                name: "rmsnorm_f32"@,
                params: rmsnorm_f32_params(),
            },
            ElementwiseKernel::ResidualAdd => Declaration {
                bounded: false,
                name: "residual_add_f32"@,
                params: residual_add_f32_params(),
            },
            ElementwiseKernel::Swiglu => Declaration {
                bounded: false,
                name: "swiglu_f32"@,
                params: swiglu_f32_params(),
            },
            ElementwiseKernel::Quantize => Declaration {
                bounded: false,
                name: "quantize_f32_to_i8"@,
                params: quantize_f32_to_i8_params(),
            },
            ElementwiseKernel::RmsnormQuantize => Declaration {
                bounded: false,
                name: "rmsnorm_quantize_f32"@,
                params: rmsnorm_quantize_f32_params(),
            },
            ElementwiseKernel::RmsnormQuantizeMultiblock => Declaration {
                bounded: false,
                name: "rmsnorm_quantize_multiblock_f32"@,
                params: rmsnorm_quantize_multiblock_f32_params(),
            },
            ElementwiseKernel::RmsnormQuantizeWithNormX => Declaration {
                bounded: false,
                name: "rmsnorm_quantize_with_norm_x_f32"@,
                params: rmsnorm_quantize_with_norm_x_f32_params(),
            },
            ElementwiseKernel::SwigluQuantize => Declaration {
                bounded: false,
                name: "swiglu_quantize_f32"@,
                params: swiglu_quantize_f32_params(),
            },
            ElementwiseKernel::GateSiluQuantize => Declaration {
                bounded: false,
                name: "gate_silu_quantize_f32"@,
                params: gate_silu_quantize_f32_params(),
            },
            ElementwiseKernel::GateSigmoidQuantize => Declaration {
                bounded: false,
                name: "gate_sigmoid_quantize_f32"@,
                params: gate_silu_quantize_f32_params(),
            },
            ElementwiseKernel::RmsnormGateSiluQuantize => Declaration {
                bounded: false,
                name: "rmsnorm_gate_silu_quantize_f32"@,
                params: rmsnorm_gate_silu_quantize_f32_params(),
            },
            ElementwiseKernel::ArgmaxFirst => Declaration {
                bounded: false,
                name: "argmax_first_f32"@,
                params: argmax_first_f32_params(),
            },
        }
    }

    open spec fn body(self) -> Seq<char> {
        match self {
            ElementwiseKernel::Rmsnorm => RMSNORM_F32_BODY@,
            ElementwiseKernel::ResidualAdd => RESIDUAL_ADD_F32_BODY@,
            ElementwiseKernel::Swiglu => SWIGLU_F32_BODY@,
            ElementwiseKernel::Quantize => QUANTIZE_F32_TO_I8_BODY@,
            ElementwiseKernel::RmsnormQuantize => RMSNORM_QUANTIZE_F32_BODY@,
            ElementwiseKernel::RmsnormQuantizeMultiblock => RMSNORM_QUANTIZE_MULTIBLOCK_F32_BODY@,
            ElementwiseKernel::RmsnormQuantizeWithNormX => RMSNORM_QUANTIZE_WITH_NORM_X_F32_BODY@,
            ElementwiseKernel::SwigluQuantize => SWIGLU_QUANTIZE_F32_BODY@,
            ElementwiseKernel::GateSiluQuantize => GATE_SILU_QUANTIZE_F32_BODY@,
            ElementwiseKernel::GateSigmoidQuantize => GATE_SIGMOID_QUANTIZE_F32_BODY@,
            ElementwiseKernel::RmsnormGateSiluQuantize => RMSNORM_GATE_SILU_QUANTIZE_F32_BODY@,
            ElementwiseKernel::ArgmaxFirst => ARGMAX_FIRST_F32_BODY@,
        }
    }

    fn append_text(self, s: &mut String) {
        match self {
            ElementwiseKernel::Rmsnorm => s.append("\n"),
            _ => {},
        }
        assert(s@ =~= old(s)@ + self.helpers());
        match self {
            ElementwiseKernel::Rmsnorm => declare(
                s,
                false,
                "rmsnorm_f32",
                &rmsnorm_f32_list(),
            ),
            ElementwiseKernel::ResidualAdd => declare(
                s,
                false,
                "residual_add_f32",
                &residual_add_f32_list(),
            ),
            ElementwiseKernel::Swiglu => declare(
                s,
                false,
                "swiglu_f32",
                &swiglu_f32_list(),
            ),
            ElementwiseKernel::Quantize => declare(
                s,
                false,
                "quantize_f32_to_i8",
                &quantize_f32_to_i8_list(),
            ),
            ElementwiseKernel::RmsnormQuantize => declare(
                s,
                false,
                "rmsnorm_quantize_f32",
                &rmsnorm_quantize_f32_list(),
            ),
            ElementwiseKernel::RmsnormQuantizeMultiblock => declare(
                s,
                false,
                "rmsnorm_quantize_multiblock_f32",
                &rmsnorm_quantize_multiblock_f32_list(),
            ),
            ElementwiseKernel::RmsnormQuantizeWithNormX => declare(
                s,
                false,
                "rmsnorm_quantize_with_norm_x_f32",
                &rmsnorm_quantize_with_norm_x_f32_list(),
            ),
            ElementwiseKernel::SwigluQuantize => declare(
                s,
                false,
                "swiglu_quantize_f32",
                &swiglu_quantize_f32_list(),
            ),
            ElementwiseKernel::GateSiluQuantize => declare(
                s,
                false,
                "gate_silu_quantize_f32",
                &gate_silu_quantize_f32_list(),
            ),
            ElementwiseKernel::GateSigmoidQuantize => declare(
                s,
                false,
                "gate_sigmoid_quantize_f32",
                &gate_silu_quantize_f32_list(),
            ),
            ElementwiseKernel::RmsnormGateSiluQuantize => declare(
                s,
                false,
                "rmsnorm_gate_silu_quantize_f32",
                &rmsnorm_gate_silu_quantize_f32_list(),
            ),
            ElementwiseKernel::ArgmaxFirst => declare(
                s,
                false,
                "argmax_first_f32",
                &argmax_first_f32_list(),
            ),
        }
        match self {
            ElementwiseKernel::Rmsnorm => s.append(RMSNORM_F32_BODY),
            ElementwiseKernel::ResidualAdd => s.append(RESIDUAL_ADD_F32_BODY),
            ElementwiseKernel::Swiglu => s.append(SWIGLU_F32_BODY),
            ElementwiseKernel::Quantize => s.append(QUANTIZE_F32_TO_I8_BODY),
            ElementwiseKernel::RmsnormQuantize => s.append(RMSNORM_QUANTIZE_F32_BODY),
            ElementwiseKernel::RmsnormQuantizeMultiblock => s.append(RMSNORM_QUANTIZE_MULTIBLOCK_F32_BODY),
            ElementwiseKernel::RmsnormQuantizeWithNormX => s.append(RMSNORM_QUANTIZE_WITH_NORM_X_F32_BODY),
            ElementwiseKernel::SwigluQuantize => s.append(SWIGLU_QUANTIZE_F32_BODY),
            ElementwiseKernel::GateSiluQuantize => s.append(GATE_SILU_QUANTIZE_F32_BODY),
            ElementwiseKernel::GateSigmoidQuantize => s.append(GATE_SIGMOID_QUANTIZE_F32_BODY),
            ElementwiseKernel::RmsnormGateSiluQuantize => s.append(RMSNORM_GATE_SILU_QUANTIZE_F32_BODY),
            ElementwiseKernel::ArgmaxFirst => s.append(ARGMAX_FIRST_F32_BODY),
        }
        assert(s@ =~= old(s)@ + (self.helpers() + self.declared().text() + self.body()));
    }
}

/// The kernels in the order of the text.
pub open spec fn elementwise_text_order() -> Seq<ElementwiseKernel> {
    seq![
        ElementwiseKernel::Rmsnorm,
        ElementwiseKernel::ResidualAdd,
        ElementwiseKernel::Swiglu,
        ElementwiseKernel::Quantize,
        ElementwiseKernel::RmsnormQuantize,
        ElementwiseKernel::RmsnormQuantizeMultiblock,
        ElementwiseKernel::RmsnormQuantizeWithNormX,
        ElementwiseKernel::SwigluQuantize,
        ElementwiseKernel::GateSiluQuantize,
        ElementwiseKernel::GateSigmoidQuantize,
        ElementwiseKernel::RmsnormGateSiluQuantize,
        ElementwiseKernel::ArgmaxFirst,
    ]
}

/// The whole text.
pub open spec fn elementwise_cuda_src() -> Seq<char> {
    text_of_kernels(elementwise_text_order())
}

/// [`elementwise_cuda_src`], computed.
pub fn elementwise_source() -> (r: String)
    ensures
        r@ == elementwise_cuda_src(),
{
    kernels_text(
        vec![
            ElementwiseKernel::Rmsnorm,
            ElementwiseKernel::ResidualAdd,
            ElementwiseKernel::Swiglu,
            ElementwiseKernel::Quantize,
            ElementwiseKernel::RmsnormQuantize,
            ElementwiseKernel::RmsnormQuantizeMultiblock,
            ElementwiseKernel::RmsnormQuantizeWithNormX,
            ElementwiseKernel::SwigluQuantize,
            ElementwiseKernel::GateSiluQuantize,
            ElementwiseKernel::GateSigmoidQuantize,
            ElementwiseKernel::RmsnormGateSiluQuantize,
            ElementwiseKernel::ArgmaxFirst,
        ],
    )
}

} // verus!
