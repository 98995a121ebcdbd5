//! CUDA C of the delta-rule kernels.

use vstd::prelude::*;
use crate::deltanet::DeltanetKernel;
use crate::sources::{
    declare, kernels_text, param, text_of_kernels, CudaType, Declaration, KernelText, Param,
    ParamView,
};

verus! {

/// The parameters of `conv1d_f32`.
pub open spec fn conv1d_f32_params() -> Seq<ParamView> {
    seq![
        param(CudaType::FloatsOut, "input"@),
        param(CudaType::FloatsIn, "weight"@),
        param(CudaType::FloatsOut, "conv_state"@),
        param(CudaType::ConstInt, "conv_dim"@),
        param(CudaType::ConstInt, "kernel_size"@),
    ]
}

/// [`conv1d_f32_params`], computed.
fn conv1d_f32_list() -> (r: Vec<Param>)
    ensures
        r@.map_values(|p: Param| p@) == conv1d_f32_params(),
{
    let r: Vec<Param> = vec![
        Param { ty: CudaType::FloatsOut, name: "input" },
        Param { ty: CudaType::FloatsIn, name: "weight" },
        Param { ty: CudaType::FloatsOut, name: "conv_state" },
        Param { ty: CudaType::ConstInt, name: "conv_dim" },
        Param { ty: CudaType::ConstInt, name: "kernel_size" },
    ];
    assert(r@.map_values(|p: Param| p@) =~= conv1d_f32_params());
    r
}

/// The parameters of `beta_decay_f32`.
pub open spec fn beta_decay_f32_params() -> Seq<ParamView> {
    seq![
        param(CudaType::FloatsIn, "a_raw"@),
        param(CudaType::FloatsIn, "b_raw"@),
        param(CudaType::FloatsIn, "a_log"@),
        param(CudaType::FloatsIn, "dt_bias"@),
        param(CudaType::FloatsOut, "beta_out"@),
        param(CudaType::FloatsOut, "decay_out"@),
        param(CudaType::ConstInt, "n_head"@),
    ]
}

/// [`beta_decay_f32_params`], computed.
fn beta_decay_f32_list() -> (r: Vec<Param>)
    ensures
        r@.map_values(|p: Param| p@) == beta_decay_f32_params(),
{
    let r: Vec<Param> = vec![
        Param { ty: CudaType::FloatsIn, name: "a_raw" },
        Param { ty: CudaType::FloatsIn, name: "b_raw" },
        Param { ty: CudaType::FloatsIn, name: "a_log" },
        Param { ty: CudaType::FloatsIn, name: "dt_bias" },
        Param { ty: CudaType::FloatsOut, name: "beta_out" },
        Param { ty: CudaType::FloatsOut, name: "decay_out" },
        Param { ty: CudaType::ConstInt, name: "n_head" },
    ];
    assert(r@.map_values(|p: Param| p@) =~= beta_decay_f32_params());
    r
}

/// The parameters of `expand_and_l2_normalize_heads_f32`.
pub open spec fn expand_and_l2_normalize_heads_f32_params() -> Seq<ParamView> {
    seq![
        param(CudaType::FloatsIn, "compact"@),
        param(CudaType::FloatsOut, "expanded"@),
        param(CudaType::ConstInt, "n_k_heads"@),
        param(CudaType::ConstInt, "n_v_heads"@),
        param(CudaType::ConstInt, "head_dim"@),
    ]
}

/// [`expand_and_l2_normalize_heads_f32_params`], computed.
fn expand_and_l2_normalize_heads_f32_list() -> (r: Vec<Param>)
    ensures
        r@.map_values(|p: Param| p@) == expand_and_l2_normalize_heads_f32_params(),
{
    let r: Vec<Param> = vec![
        Param { ty: CudaType::FloatsIn, name: "compact" },
        Param { ty: CudaType::FloatsOut, name: "expanded" },
        Param { ty: CudaType::ConstInt, name: "n_k_heads" },
        Param { ty: CudaType::ConstInt, name: "n_v_heads" },
        Param { ty: CudaType::ConstInt, name: "head_dim" },
    ];
    assert(r@.map_values(|p: Param| p@) =~= expand_and_l2_normalize_heads_f32_params());
    r
}

/// The parameters of `recurrence_f32` and the kernels that declare the same.
pub open spec fn recurrence_f32_params() -> Seq<ParamView> {
    seq![
        param(CudaType::FloatsIn, "qkv"@),
        param(CudaType::FloatsIn, "beta"@),
        param(CudaType::FloatsIn, "decay"@),
        param(CudaType::FloatsOut, "state"@),
        param(CudaType::FloatsOut, "output"@),
        param(CudaType::ConstInt, "head_dim"@),
        param(CudaType::ConstInt, "n_head"@),
    ]
}

/// [`recurrence_f32_params`], computed.
fn recurrence_f32_list() -> (r: Vec<Param>)
    ensures
        r@.map_values(|p: Param| p@) == recurrence_f32_params(),
{
    let r: Vec<Param> = vec![
        Param { ty: CudaType::FloatsIn, name: "qkv" },
        Param { ty: CudaType::FloatsIn, name: "beta" },
        Param { ty: CudaType::FloatsIn, name: "decay" },
        Param { ty: CudaType::FloatsOut, name: "state" },
        Param { ty: CudaType::FloatsOut, name: "output" },
        Param { ty: CudaType::ConstInt, name: "head_dim" },
        Param { ty: CudaType::ConstInt, name: "n_head" },
    ];
    assert(r@.map_values(|p: Param| p@) =~= recurrence_f32_params());
    r
}

/// The parameters of `z_gating_f32`.
pub open spec fn z_gating_f32_params() -> Seq<ParamView> {
    seq![
        param(CudaType::FloatsOut, "output"@),
        param(CudaType::FloatsIn, "z"@),
        param(CudaType::ConstInt, "n"@),
    ]
}

/// [`z_gating_f32_params`], computed.
fn z_gating_f32_list() -> (r: Vec<Param>)
    ensures
        r@.map_values(|p: Param| p@) == z_gating_f32_params(),
{
    let r: Vec<Param> = vec![
        Param { ty: CudaType::FloatsOut, name: "output" },
        Param { ty: CudaType::FloatsIn, name: "z" },
        Param { ty: CudaType::ConstInt, name: "n" },
    ];
    assert(r@.map_values(|p: Param| p@) =~= z_gating_f32_params());
    r
}

/// The parameters of `recurrence_f32_fused_hd64` and the kernels that declare the same.
pub open spec fn recurrence_f32_fused_hd64_params() -> Seq<ParamView> {
    seq![
        param(CudaType::FloatsIn, "qkv"@),
        param(CudaType::FloatsIn, "beta"@),
        param(CudaType::FloatsIn, "decay"@),
        param(CudaType::FloatsOut, "state"@),
        param(CudaType::FloatsOut, "output"@),
        param(CudaType::ConstInt, "n_head"@),
    ]
}

/// [`recurrence_f32_fused_hd64_params`], computed.
fn recurrence_f32_fused_hd64_list() -> (r: Vec<Param>)
    ensures
        r@.map_values(|p: Param| p@) == recurrence_f32_fused_hd64_params(),
{
    let r: Vec<Param> = vec![
        Param { ty: CudaType::FloatsIn, name: "qkv" },
        Param { ty: CudaType::FloatsIn, name: "beta" },
        Param { ty: CudaType::FloatsIn, name: "decay" },
        Param { ty: CudaType::FloatsOut, name: "state" },
        Param { ty: CudaType::FloatsOut, name: "output" },
        Param { ty: CudaType::ConstInt, name: "n_head" },
    ];
    assert(r@.map_values(|p: Param| p@) =~= recurrence_f32_fused_hd64_params());
    r
}

/// The parameters of `recurrence_half_fused_hd128_f16` and the kernels that declare the same.
pub open spec fn recurrence_half_fused_hd128_f16_params() -> Seq<ParamView> {
    seq![
        param(CudaType::FloatsIn, "qkv"@),
        param(CudaType::FloatsIn, "beta"@),
        param(CudaType::FloatsIn, "decay"@),
        param(CudaType::HalvesOut, "state"@),
        param(CudaType::FloatsOut, "output"@),
        param(CudaType::ConstInt, "n_head"@),
    ]
}

/// [`recurrence_half_fused_hd128_f16_params`], computed.
fn recurrence_half_fused_hd128_f16_list() -> (r: Vec<Param>)
    ensures
        r@.map_values(|p: Param| p@) == recurrence_half_fused_hd128_f16_params(),
{
    let r: Vec<Param> = vec![
        Param { ty: CudaType::FloatsIn, name: "qkv" },
        Param { ty: CudaType::FloatsIn, name: "beta" },
        Param { ty: CudaType::FloatsIn, name: "decay" },
        Param { ty: CudaType::HalvesOut, name: "state" },
        Param { ty: CudaType::FloatsOut, name: "output" },
        Param { ty: CudaType::ConstInt, name: "n_head" },
    ];
    assert(r@.map_values(|p: Param| p@) =~= recurrence_half_fused_hd128_f16_params());
    r
}

/// The parameters of `deltanet_bptt_recompute_f32`.
pub open spec fn deltanet_bptt_recompute_f32_params() -> Seq<ParamView> {
    seq![
        param(CudaType::FloatsIn, "qkv_seq"@),
        param(CudaType::FloatsIn, "beta_seq"@),
        param(CudaType::FloatsIn, "decay_seq"@),
        param(CudaType::FloatsIn, "grad_out_seq"@),
        param(CudaType::FloatsOut, "grad_qkv_seq"@),
        param(CudaType::FloatsOut, "grad_beta_seq"@),
        param(CudaType::FloatsOut, "grad_decay_seq"@),
        param(CudaType::FloatsOut, "state_decayed_seq"@),
        param(CudaType::FloatsOut, "state_seq"@),
        param(CudaType::FloatsOut, "kv_mem_seq"@),
        param(CudaType::FloatsOut, "delta_seq"@),
        param(CudaType::FloatsOut, "grad_s"@),
        param(CudaType::ConstInt, "T"@),
        param(CudaType::ConstInt, "head_dim"@),
        param(CudaType::ConstInt, "n_head"@),
    ]
}

/// [`deltanet_bptt_recompute_f32_params`], computed.
fn deltanet_bptt_recompute_f32_list() -> (r: Vec<Param>)
    ensures
        r@.map_values(|p: Param| p@) == deltanet_bptt_recompute_f32_params(),
{
    let r: Vec<Param> = vec![
        Param { ty: CudaType::FloatsIn, name: "qkv_seq" },
        Param { ty: CudaType::FloatsIn, name: "beta_seq" },
        Param { ty: CudaType::FloatsIn, name: "decay_seq" },
        Param { ty: CudaType::FloatsIn, name: "grad_out_seq" },
        Param { ty: CudaType::FloatsOut, name: "grad_qkv_seq" },
        Param { ty: CudaType::FloatsOut, name: "grad_beta_seq" },
        Param { ty: CudaType::FloatsOut, name: "grad_decay_seq" },
        Param { ty: CudaType::FloatsOut, name: "state_decayed_seq" },
        Param { ty: CudaType::FloatsOut, name: "state_seq" },
        Param { ty: CudaType::FloatsOut, name: "kv_mem_seq" },
        Param { ty: CudaType::FloatsOut, name: "delta_seq" },
        Param { ty: CudaType::FloatsOut, name: "grad_s" },
        Param { ty: CudaType::ConstInt, name: "T" },
        Param { ty: CudaType::ConstInt, name: "head_dim" },
        Param { ty: CudaType::ConstInt, name: "n_head" },
    ];
    assert(r@.map_values(|p: Param| p@) =~= deltanet_bptt_recompute_f32_params());
    r
}

/// The parameters of `conv1d_rows_f32`.
pub open spec fn conv1d_rows_f32_params() -> Seq<ParamView> {
    seq![
        param(CudaType::FloatsOut, "input"@),
        param(CudaType::FloatsIn, "weight"@),
        param(CudaType::FloatsOut, "conv_state"@),
        param(CudaType::ConstInt, "conv_dim"@),
        param(CudaType::ConstInt, "kernel_size"@),
        param(CudaType::ConstInt, "p"@),
    ]
}

/// [`conv1d_rows_f32_params`], computed.
fn conv1d_rows_f32_list() -> (r: Vec<Param>)
    ensures
        r@.map_values(|p: Param| p@) == conv1d_rows_f32_params(),
{
    let r: Vec<Param> = vec![
        Param { ty: CudaType::FloatsOut, name: "input" },
        Param { ty: CudaType::FloatsIn, name: "weight" },
        Param { ty: CudaType::FloatsOut, name: "conv_state" },
        Param { ty: CudaType::ConstInt, name: "conv_dim" },
        Param { ty: CudaType::ConstInt, name: "kernel_size" },
        Param { ty: CudaType::ConstInt, name: "p" },
    ];
    assert(r@.map_values(|p: Param| p@) =~= conv1d_rows_f32_params());
    r
}

/// The parameters of `beta_decay_rows_f32`.
pub open spec fn beta_decay_rows_f32_params() -> Seq<ParamView> {
    seq![
        param(CudaType::FloatsIn, "a_raw"@),
        param(CudaType::FloatsIn, "b_raw"@),
        param(CudaType::FloatsIn, "a_log"@),
        param(CudaType::FloatsIn, "dt_bias"@),
        param(CudaType::FloatsOut, "beta_out"@),
        param(CudaType::FloatsOut, "decay_out"@),
        param(CudaType::ConstInt, "n_head"@),
        param(CudaType::ConstInt, "p"@),
    ]
}

/// [`beta_decay_rows_f32_params`], computed.
fn beta_decay_rows_f32_list() -> (r: Vec<Param>)
    ensures
        r@.map_values(|p: Param| p@) == beta_decay_rows_f32_params(),
{
    let r: Vec<Param> = vec![
        Param { ty: CudaType::FloatsIn, name: "a_raw" },
        Param { ty: CudaType::FloatsIn, name: "b_raw" },
        Param { ty: CudaType::FloatsIn, name: "a_log" },
        Param { ty: CudaType::FloatsIn, name: "dt_bias" },
        Param { ty: CudaType::FloatsOut, name: "beta_out" },
        Param { ty: CudaType::FloatsOut, name: "decay_out" },
        Param { ty: CudaType::ConstInt, name: "n_head" },
        Param { ty: CudaType::ConstInt, name: "p" },
    ];
    assert(r@.map_values(|p: Param| p@) =~= beta_decay_rows_f32_params());
    r
}

/// The parameters of `expand_and_l2_normalize_heads_rows_f32` and the
/// kernels that declare the same.
pub open spec fn expand_and_l2_normalize_heads_rows_f32_params() -> Seq<ParamView> {
    seq![
        param(CudaType::FloatsIn, "compact"@),
        param(CudaType::FloatsOut, "expanded"@),
        param(CudaType::ConstInt, "n_k_heads"@),
        param(CudaType::ConstInt, "n_v_heads"@),
        param(CudaType::ConstInt, "head_dim"@),
        param(CudaType::ConstInt, "p"@),
    ]
}

/// [`expand_and_l2_normalize_heads_rows_f32_params`], computed.
fn expand_and_l2_normalize_heads_rows_f32_list() -> (r: Vec<Param>)
    ensures
        r@.map_values(|p: Param| p@) == expand_and_l2_normalize_heads_rows_f32_params(),
{
    let r: Vec<Param> = vec![
        Param { ty: CudaType::FloatsIn, name: "compact" },
        Param { ty: CudaType::FloatsOut, name: "expanded" },
        Param { ty: CudaType::ConstInt, name: "n_k_heads" },
        Param { ty: CudaType::ConstInt, name: "n_v_heads" },
        Param { ty: CudaType::ConstInt, name: "head_dim" },
        Param { ty: CudaType::ConstInt, name: "p" },
    ];
    assert(r@.map_values(|p: Param| p@) =~= expand_and_l2_normalize_heads_rows_f32_params());
    r
}

/// The parameters of `recurrence_f32_fused_rows_hd128`.
pub open spec fn recurrence_f32_fused_rows_hd128_params() -> Seq<ParamView> {
    seq![
        param(CudaType::FloatsIn, "qkv"@),
        param(CudaType::FloatsIn, "beta"@),
        param(CudaType::FloatsIn, "decay"@),
        param(CudaType::FloatsOut, "state"@),
        param(CudaType::FloatsOut, "output"@),
        param(CudaType::ConstInt, "n_head"@),
        param(CudaType::ConstInt, "p"@),
    ]
}

/// [`recurrence_f32_fused_rows_hd128_params`], computed.
fn recurrence_f32_fused_rows_hd128_list() -> (r: Vec<Param>)
    ensures
        r@.map_values(|p: Param| p@) == recurrence_f32_fused_rows_hd128_params(),
{
    let r: Vec<Param> = vec![
        Param { ty: CudaType::FloatsIn, name: "qkv" },
        Param { ty: CudaType::FloatsIn, name: "beta" },
        Param { ty: CudaType::FloatsIn, name: "decay" },
        Param { ty: CudaType::FloatsOut, name: "state" },
        Param { ty: CudaType::FloatsOut, name: "output" },
        Param { ty: CudaType::ConstInt, name: "n_head" },
        Param { ty: CudaType::ConstInt, name: "p" },
    ];
    assert(r@.map_values(|p: Param| p@) =~= recurrence_f32_fused_rows_hd128_params());
    r
}

/// The body of `conv1d_f32`.
pub const CONV1D_F32_BODY: &'static str = r#"
{
    const int ch = blockIdx.x * blockDim.x + threadIdx.x;
    if (ch >= conv_dim) return;

    const int state_off = ch * kernel_size;

    for (int k = 0; k < kernel_size - 1; k++) {
        conv_state[state_off + k] = conv_state[state_off + k + 1];
    }
    conv_state[state_off + kernel_size - 1] = input[ch];

    const int weight_off = ch * kernel_size;
    float sum = 0.0f;
    for (int k = 0; k < kernel_size; k++) {
        sum += conv_state[state_off + k] * weight[weight_off + k];
    }

    input[ch] = sum / (1.0f + expf(-sum));
}

"#;

/// The body of `beta_decay_f32`.
pub const BETA_DECAY_F32_BODY: &'static str = r#"
{
    const int h = threadIdx.x;
    if (h >= n_head) return;

    float b_val = b_raw[h];
    beta_out[h] = 1.0f / (1.0f + expf(-b_val));

    float a_val = a_raw[h] + dt_bias[h];
    float sp;
    if (a_val > 20.0f) {
        sp = a_val;
    } else if (a_val < -20.0f) {
        sp = 0.0f;
    } else {
        sp = logf(1.0f + expf(a_val));
    }
    float g = a_log[h] * sp;
    decay_out[h] = expf(g);
}

"#;

/// The body of `expand_and_l2_normalize_heads_f32`.
pub const EXPAND_AND_L2_NORMALIZE_HEADS_F32_BODY: &'static str = r#"
{
    const int idx = blockIdx.x * blockDim.x + threadIdx.x;
    const int qk_expanded_block = n_v_heads * head_dim;
    const int total_elems = 3 * qk_expanded_block;
    if (idx >= total_elems) return;

    const int section = idx / qk_expanded_block;
    const int local_idx = idx % qk_expanded_block;
    const int out_head = local_idx / head_dim;
    const int col = local_idx % head_dim;

    if (section < 2) {
        const int src_head = out_head % n_k_heads;
        const int compact_section_off = section * n_k_heads * head_dim;
        const int src_head_off = compact_section_off + src_head * head_dim;

        float sq_sum = 0.0f;
        for (int c = 0; c < head_dim; c++) {
            float val = compact[src_head_off + c];
            sq_sum += val * val;
        }
        if (sq_sum > 0.0f) {
            float inv_norm = 1.0f / sqrtf(sq_sum);
            expanded[idx] = compact[src_head_off + col] * inv_norm;
        } else {
            expanded[idx] = 0.0f;
        }
    } else {
        const int v_compact_off = 2 * n_k_heads * head_dim;
        expanded[idx] = compact[v_compact_off + local_idx];
    }
}

"#;

/// The body of `recurrence_f32`.
pub const RECURRENCE_F32_BODY: &'static str = r#"
{
    const int head = blockIdx.x;
    const int col = threadIdx.x;
    const int cube_size = blockDim.x;

    if (head >= n_head) return;

    const int head_off_q = head * head_dim;
    const int head_off_k = n_head * head_dim + head * head_dim;
    const int head_off_v = 2 * n_head * head_dim + head * head_dim;
    const int state_off = head * head_dim * head_dim;

    const float beta_val = beta[head];
    const float decay_val = decay[head];

    const float k_col = qkv[head_off_k + col];
    const float q_col = qkv[head_off_q + col];

    extern __shared__ float smem[];

    for (int row = 0; row < head_dim; row++) {
        int idx = state_off + row * head_dim + col;
        state[idx] *= decay_val;
    }

    for (int row = 0; row < head_dim; row++) {
        int idx = state_off + row * head_dim + col;
        float s_val = state[idx];
        float partial = s_val * k_col;

        smem[col] = partial;
        __syncthreads();

        for (int stride = cube_size / 2; stride >= 32; stride >>= 1) {
            if (col < stride) {
                smem[col] += smem[col + stride];
            }
            __syncthreads();
        }

        if (col < 32) {
            volatile float* vsmem = smem;
            if (col < 16) vsmem[col] += vsmem[col + 16];
            if (col < 8)  vsmem[col] += vsmem[col + 8];
            if (col < 4)  vsmem[col] += vsmem[col + 4];
            if (col < 2)  vsmem[col] += vsmem[col + 2];
            if (col < 1)  vsmem[0] += vsmem[1];
        }
        __syncthreads();

        float kv_mem_row = smem[0];

        if (col == 0) {
            float v_row = qkv[head_off_v + row];
            smem[0] = beta_val * (v_row - kv_mem_row);
        }
        __syncthreads();

        float delta_row = smem[0];
        state[state_off + row * head_dim + col] += k_col * delta_row;

        __syncthreads();
    }

    const float scale = 1.0f / sqrtf((float)head_dim);

    for (int row = 0; row < head_dim; row++) {
        int idx = state_off + row * head_dim + col;
        float s_val = state[idx];
        float partial = s_val * q_col;

        smem[col] = partial;
        __syncthreads();

        for (int stride = cube_size / 2; stride >= 32; stride >>= 1) {
            if (col < stride) {
                smem[col] += smem[col + stride];
            }
            __syncthreads();
        }
        if (col < 32) {
            volatile float* vsmem = smem;
            if (col < 16) vsmem[col] += vsmem[col + 16];
            if (col < 8)  vsmem[col] += vsmem[col + 8];
            if (col < 4)  vsmem[col] += vsmem[col + 4];
            if (col < 2)  vsmem[col] += vsmem[col + 2];
            if (col < 1)  vsmem[0] += vsmem[1];
        }
        __syncthreads();

        float dot = smem[0];

        if (col == 0) {
            output[head * head_dim + row] = dot * scale;
        }
    }
}

"#;

/// The body of `z_gating_f32`.
pub const Z_GATING_F32_BODY: &'static str = r#"
{
    const int idx = blockIdx.x * blockDim.x + threadIdx.x;
    if (idx >= n) return;

    float z_val = z[idx];

    float silu = z_val / (1.0f + expf(-z_val));
    output[idx] *= silu;
}

"#;

/// The body of `recurrence_f32_parallel`.
pub const RECURRENCE_F32_PARALLEL_BODY: &'static str = r#"
{
    const int head = blockIdx.x;
    const int row = blockIdx.y;
    const int lane = threadIdx.x;
    const int WARP_SIZE = 32;
    const int COLS_PER_LANE = head_dim / WARP_SIZE;

    if (head >= n_head) return;
    if (row >= head_dim) return;

    const int head_off_q = head * head_dim;
    const int head_off_k = n_head * head_dim + head * head_dim;
    const int head_off_v = 2 * n_head * head_dim + head * head_dim;
    const int row_off = (head * head_dim + row) * head_dim;

    const float beta_val = beta[head];
    const float decay_val = decay[head];

    #pragma unroll
    for (int c = 0; c < COLS_PER_LANE; c++) {
        int col = c * WARP_SIZE + lane;
        state[row_off + col] *= decay_val;
    }
    __syncwarp();

    float partial = 0.0f;
    #pragma unroll
    for (int c = 0; c < COLS_PER_LANE; c++) {
        int col = c * WARP_SIZE + lane;
        partial += state[row_off + col] * qkv[head_off_k + col];
    }

    partial += __shfl_xor_sync(0xffffffff, partial, 16);
    partial += __shfl_xor_sync(0xffffffff, partial, 8);
    partial += __shfl_xor_sync(0xffffffff, partial, 4);
    partial += __shfl_xor_sync(0xffffffff, partial, 2);
    partial += __shfl_xor_sync(0xffffffff, partial, 1);

    float v_row = qkv[head_off_v + row];
    float delta_row = beta_val * (v_row - partial);

    #pragma unroll
    for (int c = 0; c < COLS_PER_LANE; c++) {
        int col = c * WARP_SIZE + lane;
        state[row_off + col] += qkv[head_off_k + col] * delta_row;
    }
    __syncwarp();

    partial = 0.0f;
    #pragma unroll
    for (int c = 0; c < COLS_PER_LANE; c++) {
        int col = c * WARP_SIZE + lane;
        partial += state[row_off + col] * qkv[head_off_q + col];
    }
    partial += __shfl_xor_sync(0xffffffff, partial, 16);
    partial += __shfl_xor_sync(0xffffffff, partial, 8);
    partial += __shfl_xor_sync(0xffffffff, partial, 4);
    partial += __shfl_xor_sync(0xffffffff, partial, 2);
    partial += __shfl_xor_sync(0xffffffff, partial, 1);
    float dot = partial;

    const float scale = 1.0f / sqrtf((float)head_dim);
    if (lane == 0) {
        output[head * head_dim + row] = dot * scale;
    }
}

"#;

/// What stands ahead of `recurrence_f32_fused_hd64`.
pub const RECURRENCE_F32_FUSED_HD64_HELPERS: &'static str = r#"template <int HD>
__device__ __forceinline__ void recurrence_fused_body(
    const float* __restrict__ qkv,
    const float* __restrict__ beta,
    const float* __restrict__ decay,
    float* __restrict__ state,
    float* __restrict__ output,
    const int n_head)
{
    constexpr int COLS_PER_LANE = HD / 32;
    const int head = blockIdx.x;
    const int row = blockIdx.y;
    const int lane = threadIdx.x;

    if (head >= n_head) return;
    if (row >= HD) return;

    const int head_off_q = head * HD;
    const int head_off_k = n_head * HD + head * HD;
    const int head_off_v = 2 * n_head * HD + head * HD;
    const int row_off = (head * HD + row) * HD;

    const float beta_val = beta[head];
    const float decay_val = decay[head];

    float k_c[COLS_PER_LANE];
    float q_c[COLS_PER_LANE];
    #pragma unroll
    for (int c = 0; c < COLS_PER_LANE; c++) {
        int col = c * 32 + lane;
        k_c[c] = qkv[head_off_k + col];
        q_c[c] = qkv[head_off_q + col];
    }

    float partial = 0.0f;
    float s_dec[COLS_PER_LANE];
    #pragma unroll
    for (int c = 0; c < COLS_PER_LANE; c++) {
        int col = c * 32 + lane;
        float s = state[row_off + col];
        s_dec[c] = s * decay_val;
        partial += s_dec[c] * k_c[c];
    }
    partial += __shfl_xor_sync(0xffffffff, partial, 16);
    partial += __shfl_xor_sync(0xffffffff, partial, 8);
    partial += __shfl_xor_sync(0xffffffff, partial, 4);
    partial += __shfl_xor_sync(0xffffffff, partial, 2);
    partial += __shfl_xor_sync(0xffffffff, partial, 1);
    const float kv_mem = partial;

    const float v_row = qkv[head_off_v + row];
    const float delta_row = beta_val * (v_row - kv_mem);

    float partial2 = 0.0f;
    #pragma unroll
    for (int c = 0; c < COLS_PER_LANE; c++) {
        int col = c * 32 + lane;
        float s_new = s_dec[c] + k_c[c] * delta_row;
        state[row_off + col] = s_new;
        partial2 += s_new * q_c[c];
    }
    partial2 += __shfl_xor_sync(0xffffffff, partial2, 16);
    partial2 += __shfl_xor_sync(0xffffffff, partial2, 8);
    partial2 += __shfl_xor_sync(0xffffffff, partial2, 4);
    partial2 += __shfl_xor_sync(0xffffffff, partial2, 2);
    partial2 += __shfl_xor_sync(0xffffffff, partial2, 1);

    const float scale = 1.0f / sqrtf((float)HD);
    if (lane == 0) {
        output[head * HD + row] = partial2 * scale;
    }
}

"#;

/// The body of `recurrence_f32_fused_hd64`.
pub const RECURRENCE_F32_FUSED_HD64_BODY: &'static str = r#"
{
    recurrence_fused_body<64>(qkv, beta, decay, state, output, n_head);
}

"#;

/// The body of `recurrence_f32_fused_hd128`.
pub const RECURRENCE_F32_FUSED_HD128_BODY: &'static str = r#"
{
    recurrence_fused_body<128>(qkv, beta, decay, state, output, n_head);
}

"#;

/// The body of `recurrence_f32_fused_hd256`.
pub const RECURRENCE_F32_FUSED_HD256_BODY: &'static str = r#"
{
    recurrence_fused_body<256>(qkv, beta, decay, state, output, n_head);
}

"#;

/// What stands ahead of `recurrence_half_fused_hd128_f16`.
pub const RECURRENCE_HALF_FUSED_HD128_F16_HELPERS: &'static str = r#"__device__ __forceinline__ float h16_bits_to_f32(unsigned short b)
{
    float f;
    asm("cvt.f32.f16 %0, %1;" : "=f"(f) : "h"(b));
    return f;
}
__device__ __forceinline__ unsigned short f32_to_h16_bits_rn(float f)
{
    const float clamped = fminf(fmaxf(f, -65504.0f), 65504.0f);
    unsigned short b;
    asm("cvt.rn.f16.f32 %0, %1;" : "=h"(b) : "f"(clamped));
    return b;
}
__device__ __forceinline__ float bf16_bits_to_f32(unsigned short b)
{
    float f;
    asm("cvt.f32.bf16 %0, %1;" : "=f"(f) : "h"(b));
    return f;
}
__device__ __forceinline__ unsigned short f32_to_bf16_bits_rn(float f)
{
    unsigned short b;
    asm("cvt.rn.bf16.f32 %0, %1;" : "=h"(b) : "f"(f));
    return b;
}

template <int HD, int FMT>
__device__ __forceinline__ void recurrence_fused_half_body(
    const float* __restrict__ qkv,
    const float* __restrict__ beta,
    const float* __restrict__ decay,
    unsigned short* __restrict__ state,
    float* __restrict__ output,
    const int n_head)
{
    constexpr int COLS_PER_LANE = HD / 32;
    const int head = blockIdx.x;
    const int row = blockIdx.y;
    const int lane = threadIdx.x;

    if (head >= n_head) return;
    if (row >= HD) return;

    const int head_off_q = head * HD;
    const int head_off_k = n_head * HD + head * HD;
    const int head_off_v = 2 * n_head * HD + head * HD;
    const int row_off = (head * HD + row) * HD;

    const float beta_val = beta[head];
    const float decay_val = decay[head];

    float k_c[COLS_PER_LANE];
    float q_c[COLS_PER_LANE];
#pragma unroll
    for (int c = 0; c < COLS_PER_LANE; c++) {
        int col = c * 32 + lane;
        k_c[c] = qkv[head_off_k + col];
        q_c[c] = qkv[head_off_q + col];
    }

    float partial = 0.0f;
    float s_dec[COLS_PER_LANE];
#pragma unroll
    for (int c = 0; c < COLS_PER_LANE; c++) {
        int col = c * 32 + lane;
        const unsigned short sb = state[row_off + col];
        const float s = (FMT == 0) ? h16_bits_to_f32(sb) : bf16_bits_to_f32(sb);
        s_dec[c] = s * decay_val;
        partial += s_dec[c] * k_c[c];
    }
    partial += __shfl_xor_sync(0xffffffff, partial, 16);
    partial += __shfl_xor_sync(0xffffffff, partial, 8);
    partial += __shfl_xor_sync(0xffffffff, partial, 4);
    partial += __shfl_xor_sync(0xffffffff, partial, 2);
    partial += __shfl_xor_sync(0xffffffff, partial, 1);
    const float kv_mem = partial;

    const float v_row = qkv[head_off_v + row];
    const float delta_row = beta_val * (v_row - kv_mem);

    float partial2 = 0.0f;
#pragma unroll
    for (int c = 0; c < COLS_PER_LANE; c++) {
        int col = c * 32 + lane;
        const float s_new = s_dec[c] + k_c[c] * delta_row;
        state[row_off + col] =
            (FMT == 0) ? f32_to_h16_bits_rn(s_new) : f32_to_bf16_bits_rn(s_new);
        partial2 += s_new * q_c[c];
    }
    partial2 += __shfl_xor_sync(0xffffffff, partial2, 16);
    partial2 += __shfl_xor_sync(0xffffffff, partial2, 8);
    partial2 += __shfl_xor_sync(0xffffffff, partial2, 4);
    partial2 += __shfl_xor_sync(0xffffffff, partial2, 2);
    partial2 += __shfl_xor_sync(0xffffffff, partial2, 1);

    const float scale = 1.0f / sqrtf((float)HD);
    if (lane == 0) {
        output[head * HD + row] = partial2 * scale;
    }
}

"#;

/// The body of `recurrence_half_fused_hd128_f16`.
pub const RECURRENCE_HALF_FUSED_HD128_F16_BODY: &'static str = r#"
{
    recurrence_fused_half_body<128, 0>(qkv, beta, decay, state, output, n_head);
}

"#;

/// The body of `recurrence_half_fused_hd128_bf16`.
pub const RECURRENCE_HALF_FUSED_HD128_BF16_BODY: &'static str = r#"
{
    recurrence_fused_half_body<128, 1>(qkv, beta, decay, state, output, n_head);
}

"#;

/// The body of `deltanet_bptt_recompute_f32`.
pub const DELTANET_BPTT_RECOMPUTE_F32_BODY: &'static str = r#"
{
    const int head = blockIdx.x;
    const int col = threadIdx.x;
    if (head >= n_head) return;

    const int state_per_head = head_dim * head_dim;
    const int qkv_per_head = 3 * head_dim;
    const float scale = 1.0f / sqrtf((float)head_dim);

    const int q_off = head * head_dim;
    const int k_off = n_head * head_dim + head * head_dim;
    const int v_off = 2 * n_head * head_dim + head * head_dim;

    extern __shared__ float smem[];
    float* smem_reduce = smem;
    float* smem_gdelta = smem + head_dim;

    for (int t = 0; t < T; t++) {
        const int t_head = t * n_head + head;
        const float beta_val = beta_seq[t_head];
        const float decay_val = decay_seq[t_head];

        const float* qkv_t = &qkv_seq[t * n_head * qkv_per_head];
        const float k_col = qkv_t[k_off + col];

        float* state_d = &state_decayed_seq[t * n_head * state_per_head + head * state_per_head];
        float* state_s = &state_seq[t * n_head * state_per_head + head * state_per_head];
        float* kv_mem = &kv_mem_seq[t * n_head * head_dim + head * head_dim];
        float* delta_arr = &delta_seq[t * n_head * head_dim + head * head_dim];

        if (t == 0) {
            for (int row = 0; row < head_dim; row++)
                state_d[row * head_dim + col] = 0.0f;
        } else {
            const float* state_prev = &state_seq[(t-1) * n_head * state_per_head + head * state_per_head];
            for (int row = 0; row < head_dim; row++)
                state_d[row * head_dim + col] = decay_val * state_prev[row * head_dim + col];
        }
        __syncthreads();

        for (int row = 0; row < head_dim; row++) {
            float partial = state_d[row * head_dim + col] * k_col;
            smem_reduce[col] = partial;
            __syncthreads();

            for (int stride = head_dim / 2; stride >= 32; stride >>= 1) {
                if (col < stride) smem_reduce[col] += smem_reduce[col + stride];
                __syncthreads();
            }
            if (col < 32) {
                volatile float* v = smem_reduce;
                if (col < 16) v[col] += v[col + 16];
                if (col < 8)  v[col] += v[col + 8];
                if (col < 4)  v[col] += v[col + 4];
                if (col < 2)  v[col] += v[col + 2];
                if (col < 1)  v[0]    += v[1];
            }
            __syncthreads();

            float kv_row = smem_reduce[0];
            if (col == 0) {
                float v_row = qkv_t[v_off + row];
                kv_mem[row] = kv_row;
                float d = beta_val * (v_row - kv_row);
                delta_arr[row] = d;
                smem_reduce[0] = d;
            }
            __syncthreads();

            float delta_row = smem_reduce[0];
            state_s[row * head_dim + col] = state_d[row * head_dim + col] + k_col * delta_row;
            __syncthreads();
        }
    }

    float* gs = &grad_s[head * state_per_head];

    for (int t = T - 1; t >= 0; t--) {
        const int t_head = t * n_head + head;
        const float beta_val = beta_seq[t_head];
        const float decay_val = decay_seq[t_head];

        const float* qkv_t = &qkv_seq[t * n_head * qkv_per_head];
        const float k_col = qkv_t[k_off + col];
        const float q_col = qkv_t[q_off + col];
        const float* dy = &grad_out_seq[t * n_head * head_dim + head * head_dim];

        const float* state_d = &state_decayed_seq[t * n_head * state_per_head + head * state_per_head];
        const float* state_s = &state_seq[t * n_head * state_per_head + head * state_per_head];
        const float* kv_mem = &kv_mem_seq[t * n_head * head_dim + head * head_dim];
        const float* delta_arr = &delta_seq[t * n_head * head_dim + head * head_dim];

        float* grad_qkv_t = &grad_qkv_seq[t * n_head * qkv_per_head];

        float grad_q_col = 0.0f;
        for (int row = 0; row < head_dim; row++) {
            float dy_r = dy[row] * scale;
            gs[row * head_dim + col] += dy_r * q_col;
            grad_q_col += state_s[row * head_dim + col] * dy_r;
        }
        grad_qkv_t[q_off + col] = grad_q_col;

        float grad_k_s4 = 0.0f;
        for (int row = 0; row < head_dim; row++) {
            float gs_row = gs[row * head_dim + col];
            float partial = gs_row * k_col;
            smem_reduce[col] = partial;
            __syncthreads();

            for (int stride = head_dim / 2; stride >= 32; stride >>= 1) {
                if (col < stride) smem_reduce[col] += smem_reduce[col + stride];
                __syncthreads();
            }
            if (col < 32) {
                volatile float* v = smem_reduce;
                if (col < 16) v[col] += v[col + 16];
                if (col < 8)  v[col] += v[col + 8];
                if (col < 4)  v[col] += v[col + 4];
                if (col < 2)  v[col] += v[col + 2];
                if (col < 1)  v[0]    += v[1];
            }
            __syncthreads();

            float grad_delta_row = smem_reduce[0];
            if (col == 0) smem_gdelta[row] = grad_delta_row;

            grad_k_s4 += delta_arr[row] * gs_row;

            float grad_kv_row = -beta_val * grad_delta_row;
            if (col == 0) {
                float v_row = qkv_t[v_off + row];
                grad_qkv_t[v_off + row] = beta_val * grad_delta_row;
                grad_beta_seq[t_head] += grad_delta_row * (v_row - kv_mem[row]);
            }

            gs[row * head_dim + col] += grad_kv_row * k_col;

            __syncthreads();
        }
        __syncthreads();

        float grad_k_s2 = 0.0f;
        for (int row = 0; row < head_dim; row++) {
            grad_k_s2 += state_d[row * head_dim + col] * (-beta_val * smem_gdelta[row]);
        }
        grad_qkv_t[k_off + col] = grad_k_s4 + grad_k_s2;

        if (t > 0) {
            const float* state_prev = &state_seq[(t-1) * n_head * state_per_head + head * state_per_head];
            float g_partial = 0.0f;
            for (int row = 0; row < head_dim; row++)
                g_partial += gs[row * head_dim + col] * state_prev[row * head_dim + col];

            smem_reduce[col] = g_partial;
            __syncthreads();
            for (int stride = head_dim / 2; stride >= 32; stride >>= 1) {
                if (col < stride) smem_reduce[col] += smem_reduce[col + stride];
                __syncthreads();
            }
            if (col < 32) {
                volatile float* v = smem_reduce;
                if (col < 16) v[col] += v[col + 16];
                if (col < 8)  v[col] += v[col + 8];
                if (col < 4)  v[col] += v[col + 4];
                if (col < 2)  v[col] += v[col + 2];
                if (col < 1)  v[0]    += v[1];
            }
            __syncthreads();
            if (col == 0) grad_decay_seq[t_head] = smem_reduce[0];
            for (int row = 0; row < head_dim; row++)
                gs[row * head_dim + col] *= decay_val;
        } else {
            if (col == 0) grad_decay_seq[t_head] = 0.0f;
        }
    }
}

"#;

/// What stands ahead of `conv1d_rows_f32`.
pub const CONV1D_ROWS_F32_HELPERS: &'static str = r#"template <int KS>
__device__ __forceinline__ void conv1d_rows_body(
    float* __restrict__ input,
    const float* __restrict__ weight,
    float* __restrict__ conv_state,
    const int conv_dim,
    const int p)
{
    const int ch = blockIdx.x * blockDim.x + threadIdx.x;
    if (ch >= conv_dim) return;

    const int state_off = ch * KS;
    const int weight_off = ch * KS;
    float st[KS];
#pragma unroll
    for (int k = 0; k < KS; k++) st[k] = conv_state[state_off + k];
    for (int t = 0; t < p; t++) {
#pragma unroll
        for (int k = 0; k < KS - 1; k++) st[k] = st[k + 1];
        st[KS - 1] = input[(long)t * conv_dim + ch];
        float sum = 0.0f;
#pragma unroll
        for (int k = 0; k < KS; k++) {
            sum += st[k] * weight[weight_off + k];
        }
        input[(long)t * conv_dim + ch] = sum / (1.0f + expf(-sum));
    }
#pragma unroll
    for (int k = 0; k < KS; k++) conv_state[state_off + k] = st[k];
}

"#;

/// The body of `conv1d_rows_f32`.
pub const CONV1D_ROWS_F32_BODY: &'static str = r#"
{
    if (kernel_size == 4) {
        conv1d_rows_body<4>(input, weight, conv_state, conv_dim, p);
    } else if (kernel_size == 8) {
        conv1d_rows_body<8>(input, weight, conv_state, conv_dim, p);
    } else {
    }
}

"#;

/// The body of `beta_decay_rows_f32`.
pub const BETA_DECAY_ROWS_F32_BODY: &'static str = r#"
{
    const int h = threadIdx.x;
    if (h >= n_head) return;
    for (int t = 0; t < p; t++) {
        const long i = (long)t * n_head + h;
        float b_val = b_raw[i];
        beta_out[i] = 1.0f / (1.0f + expf(-b_val));

        float a_val = a_raw[i] + dt_bias[h];
        float sp;
        if (a_val > 20.0f) {
            sp = a_val;
        } else if (a_val < -20.0f) {
            sp = 0.0f;
        } else {
            sp = logf(1.0f + expf(a_val));
        }
        float g = a_log[h] * sp;
        decay_out[i] = expf(g);
    }
}

"#;

/// The body of `expand_and_l2_normalize_heads_rows_f32`.
pub const EXPAND_AND_L2_NORMALIZE_HEADS_ROWS_F32_BODY: &'static str = r#"
{
    const int qk_expanded_block = n_v_heads * head_dim;
    const long per_row_out = 3L * qk_expanded_block;
    const long idx = (long)blockIdx.x * blockDim.x + threadIdx.x;
    if (idx >= (long)p * per_row_out) return;

    const int row = (int)(idx / per_row_out);
    const int local = (int)(idx % per_row_out);
    const int section = local / qk_expanded_block;
    const int local_idx = local % qk_expanded_block;
    const int out_head = local_idx / head_dim;
    const int col = local_idx % head_dim;

    const long cbase = (long)row * (2L * n_k_heads * head_dim + n_v_heads * head_dim);

    if (section < 2) {
        const int src_head = out_head % n_k_heads;
        const long compact_section_off = cbase + section * n_k_heads * head_dim;
        const long src_head_off = compact_section_off + src_head * head_dim;
        float sq_sum = 0.0f;
        for (int c = 0; c < head_dim; c++) {
            float val = compact[src_head_off + c];
            sq_sum += val * val;
        }
        if (sq_sum > 0.0f) {
            float inv_norm = 1.0f / sqrtf(sq_sum);
            expanded[idx] = compact[src_head_off + col] * inv_norm;
        } else {
            expanded[idx] = 0.0f;
        }
    } else {
        const long v_compact_off = cbase + 2L * n_k_heads * head_dim;
        expanded[idx] = compact[v_compact_off + local_idx];
    }
}

"#;

/// The body of `expand_and_l2_normalize_heads_rows_v2_f32`.
pub const EXPAND_AND_L2_NORMALIZE_HEADS_ROWS_V2_F32_BODY: &'static str = r#"
{
    const int row = blockIdx.x;
    const int section = blockIdx.y;
    const int tid = threadIdx.x;

    const int qk_expanded_block = n_v_heads * head_dim;
    const long per_row_out = 3L * qk_expanded_block;
    const long cbase = (long)row * (2L * n_k_heads * head_dim + n_v_heads * head_dim);

    if (section == 2) {
        const long v_compact_off = cbase + 2L * n_k_heads * head_dim;
        float* out_v = expanded + (long)row * per_row_out + 2L * qk_expanded_block;
        for (int e = tid; e < qk_expanded_block; e += blockDim.x) {
            out_v[e] = compact[v_compact_off + e];
        }
        return;
    }

    __shared__ float s_sq[1024];
    if (tid < n_k_heads) {
        const long src_off = cbase + (long)section * n_k_heads * head_dim + (long)tid * head_dim;
        float sq_sum = 0.0f;
        if ((head_dim & 3) == 0) {
            const float4* src4 = reinterpret_cast<const float4*>(compact + src_off);
            for (int c = 0; c < head_dim; c += 4) {
                const float4 v = src4[c >> 2];
                sq_sum += v.x * v.x;
                sq_sum += v.y * v.y;
                sq_sum += v.z * v.z;
                sq_sum += v.w * v.w;
            }
        } else {
            for (int c = 0; c < head_dim; c++) {
                const float val = compact[src_off + c];
                sq_sum += val * val;
            }
        }
        s_sq[tid] = sq_sum;
    }
    __syncthreads();

    for (int e = tid; e < qk_expanded_block; e += blockDim.x) {
        const int out_head = e / head_dim;
        const int col = e % head_dim;
        const int src_head = out_head % n_k_heads;
        const long src_off = cbase + (long)section * n_k_heads * head_dim + (long)src_head * head_dim;
        const long idx = (long)row * per_row_out + (long)section * qk_expanded_block + e;
        const float sq_sum = s_sq[src_head];
        if (sq_sum > 0.0f) {
            const float inv_norm = 1.0f / sqrtf(sq_sum);
            expanded[idx] = compact[src_off + col] * inv_norm;
        } else {
            expanded[idx] = 0.0f;
        }
    }
}

"#;

/// The body of `recurrence_f32_fused_rows_hd128`.
pub const RECURRENCE_F32_FUSED_ROWS_HD128_BODY: &'static str = r#"
{
    constexpr int HD = 128;
    constexpr int COLS_PER_LANE = HD / 32;
    const int head = blockIdx.x;
    const int row = blockIdx.y;
    const int lane = threadIdx.x;

    if (head >= n_head) return;
    if (row >= HD) return;

    const int head_off_q = head * HD;
    const int head_off_k = n_head * HD + head * HD;
    const int head_off_v = 2 * n_head * HD + head * HD;
    const int row_off = (head * HD + row) * HD;

    float s_c[COLS_PER_LANE];
#pragma unroll
    for (int c = 0; c < COLS_PER_LANE; c++) {
        s_c[c] = state[row_off + c * 32 + lane];
    }

    const long qkv_stride = 3L * n_head * HD;
    const float scale = 1.0f / sqrtf((float)HD);
    for (int t = 0; t < p; t++) {
        const float beta_val = beta[t * n_head + head];
        const float decay_val = decay[t * n_head + head];
        const float* qkv_t = qkv + t * qkv_stride;

        float k_c[COLS_PER_LANE];
        float q_c[COLS_PER_LANE];
#pragma unroll
        for (int c = 0; c < COLS_PER_LANE; c++) {
            int col = c * 32 + lane;
            k_c[c] = qkv_t[head_off_k + col];
            q_c[c] = qkv_t[head_off_q + col];
        }

        float partial = 0.0f;
#pragma unroll
        for (int c = 0; c < COLS_PER_LANE; c++) {
            const float sd = s_c[c] * decay_val;
            s_c[c] = sd;
            partial += sd * k_c[c];
        }
        partial += __shfl_xor_sync(0xffffffffu, partial, 16);
        partial += __shfl_xor_sync(0xffffffffu, partial, 8);
        partial += __shfl_xor_sync(0xffffffffu, partial, 4);
        partial += __shfl_xor_sync(0xffffffffu, partial, 2);
        partial += __shfl_xor_sync(0xffffffffu, partial, 1);
        const float kv_mem = partial;

        const float v_row = qkv_t[head_off_v + row];
        const float delta_row = beta_val * (v_row - kv_mem);

        float partial2 = 0.0f;
#pragma unroll
        for (int c = 0; c < COLS_PER_LANE; c++) {
            const float s_new = s_c[c] + k_c[c] * delta_row;
            s_c[c] = s_new;
            partial2 += s_new * q_c[c];
        }
        partial2 += __shfl_xor_sync(0xffffffffu, partial2, 16);
        partial2 += __shfl_xor_sync(0xffffffffu, partial2, 8);
        partial2 += __shfl_xor_sync(0xffffffffu, partial2, 4);
        partial2 += __shfl_xor_sync(0xffffffffu, partial2, 2);
        partial2 += __shfl_xor_sync(0xffffffffu, partial2, 1);

        if (lane == 0) {
            output[(long)t * n_head * HD + head * HD + row] = partial2 * scale;
        }
    }
#pragma unroll
    for (int c = 0; c < COLS_PER_LANE; c++) {
        state[row_off + c * 32 + lane] = s_c[c];
    }
}
"#;

impl KernelText for DeltanetKernel {
    open spec fn helpers(self) -> Seq<char> {
        match self {
            DeltanetKernel::RecurrenceFusedHd64 => RECURRENCE_F32_FUSED_HD64_HELPERS@,
            DeltanetKernel::RecurrenceHalfHd128F16 => RECURRENCE_HALF_FUSED_HD128_F16_HELPERS@,
            DeltanetKernel::Conv1dRows => CONV1D_ROWS_F32_HELPERS@,
            DeltanetKernel::Conv1d => "\n"@,
            _ => Seq::empty(),
        }
    }

    open spec fn declared(self) -> Declaration {
        match self {
            DeltanetKernel::Conv1d => Declaration {
                bounded: false,
                name: "conv1d_f32"@,
                params: conv1d_f32_params(),
            },
            DeltanetKernel::BetaDecay => Declaration {
                bounded: false,
                name: "beta_decay_f32"@,
                params: beta_decay_f32_params(),
            },
            DeltanetKernel::ExpandL2 => Declaration {
                bounded: false,
                name: "expand_and_l2_normalize_heads_f32"@,
                params: expand_and_l2_normalize_heads_f32_params(),
            },
            DeltanetKernel::Recurrence => Declaration {
                bounded: false,
                name: "recurrence_f32"@,
                params: recurrence_f32_params(),
            },
            DeltanetKernel::ZGating => Declaration {
                bounded: false,
                name: "z_gating_f32"@,
                params: z_gating_f32_params(),
            },
            DeltanetKernel::RecurrenceParallel => Declaration {
                bounded: false,
                name: "recurrence_f32_parallel"@,
                params: recurrence_f32_params(),
            },
            DeltanetKernel::RecurrenceFusedHd64 => Declaration {
                bounded: false,
                name: "recurrence_f32_fused_hd64"@,
                params: recurrence_f32_fused_hd64_params(),
            },
            DeltanetKernel::RecurrenceFusedHd128 => Declaration {
                bounded: false,
                name: "recurrence_f32_fused_hd128"@,
                params: recurrence_f32_fused_hd64_params(),
            },
            DeltanetKernel::RecurrenceFusedHd256 => Declaration {
                bounded: false,
                name: "recurrence_f32_fused_hd256"@,
                params: recurrence_f32_fused_hd64_params(),
            },
            DeltanetKernel::RecurrenceHalfHd128F16 => Declaration {
                bounded: false,
                name: "recurrence_half_fused_hd128_f16"@,
                params: recurrence_half_fused_hd128_f16_params(),
            },
            DeltanetKernel::RecurrenceHalfHd128Bf16 => Declaration {
                bounded: false,
                name: "recurrence_half_fused_hd128_bf16"@,
                params: recurrence_half_fused_hd128_f16_params(),
            },
            DeltanetKernel::BpttRecompute => Declaration {
                bounded: false,
                name: "deltanet_bptt_recompute_f32"@,
                params: deltanet_bptt_recompute_f32_params(),
            },
            DeltanetKernel::Conv1dRows => Declaration {
                bounded: false,
                name: "conv1d_rows_f32"@,
                params: conv1d_rows_f32_params(),
            },
            DeltanetKernel::BetaDecayRows => Declaration {
                bounded: false,
                name: "beta_decay_rows_f32"@,
                params: beta_decay_rows_f32_params(),
            },
            DeltanetKernel::ExpandL2Rows => Declaration {
                bounded: false,
                name: "expand_and_l2_normalize_heads_rows_f32"@,
                params: expand_and_l2_normalize_heads_rows_f32_params(),
            },
            DeltanetKernel::ExpandL2RowsV2 => Declaration {
                bounded: false,
                name: "expand_and_l2_normalize_heads_rows_v2_f32"@,
                params: expand_and_l2_normalize_heads_rows_f32_params(),
            },
            DeltanetKernel::RecurrenceFusedRowsHd128 => Declaration {
                bounded: false,
                name: "recurrence_f32_fused_rows_hd128"@,
                params: recurrence_f32_fused_rows_hd128_params(),
            },
        }
    }

    open spec fn body(self) -> Seq<char> {
        match self {
            DeltanetKernel::Conv1d => CONV1D_F32_BODY@,
            DeltanetKernel::BetaDecay => BETA_DECAY_F32_BODY@,
            DeltanetKernel::ExpandL2 => EXPAND_AND_L2_NORMALIZE_HEADS_F32_BODY@,
            DeltanetKernel::Recurrence => RECURRENCE_F32_BODY@,
            DeltanetKernel::ZGating => Z_GATING_F32_BODY@,
            DeltanetKernel::RecurrenceParallel => RECURRENCE_F32_PARALLEL_BODY@,
            DeltanetKernel::RecurrenceFusedHd64 => RECURRENCE_F32_FUSED_HD64_BODY@,
            DeltanetKernel::RecurrenceFusedHd128 => RECURRENCE_F32_FUSED_HD128_BODY@,
            DeltanetKernel::RecurrenceFusedHd256 => RECURRENCE_F32_FUSED_HD256_BODY@,
            DeltanetKernel::RecurrenceHalfHd128F16 => RECURRENCE_HALF_FUSED_HD128_F16_BODY@,
            DeltanetKernel::RecurrenceHalfHd128Bf16 => RECURRENCE_HALF_FUSED_HD128_BF16_BODY@,
            DeltanetKernel::BpttRecompute => DELTANET_BPTT_RECOMPUTE_F32_BODY@,
            DeltanetKernel::Conv1dRows => CONV1D_ROWS_F32_BODY@,
            DeltanetKernel::BetaDecayRows => BETA_DECAY_ROWS_F32_BODY@,
            DeltanetKernel::ExpandL2Rows => EXPAND_AND_L2_NORMALIZE_HEADS_ROWS_F32_BODY@,
            DeltanetKernel::ExpandL2RowsV2 => EXPAND_AND_L2_NORMALIZE_HEADS_ROWS_V2_F32_BODY@,
            DeltanetKernel::RecurrenceFusedRowsHd128 => RECURRENCE_F32_FUSED_ROWS_HD128_BODY@,
        }
    }

    fn append_text(self, s: &mut String) {
        match self {
            DeltanetKernel::RecurrenceFusedHd64 => s.append(RECURRENCE_F32_FUSED_HD64_HELPERS),
            DeltanetKernel::RecurrenceHalfHd128F16 => s.append(RECURRENCE_HALF_FUSED_HD128_F16_HELPERS),
            DeltanetKernel::Conv1dRows => s.append(CONV1D_ROWS_F32_HELPERS),
            DeltanetKernel::Conv1d => s.append("\n"),
            _ => {},
        }
        assert(s@ =~= old(s)@ + self.helpers());
        match self {
            DeltanetKernel::Conv1d => declare(
                s,
                false,
                "conv1d_f32",
                &conv1d_f32_list(),
            ),
            DeltanetKernel::BetaDecay => declare(
                s,
                false,
                "beta_decay_f32",
                &beta_decay_f32_list(),
            ),
            DeltanetKernel::ExpandL2 => declare(
                s,
                false,
                "expand_and_l2_normalize_heads_f32",
                &expand_and_l2_normalize_heads_f32_list(),
            ),
            DeltanetKernel::Recurrence => declare(
                s,
                false,
                "recurrence_f32",
                &recurrence_f32_list(),
            ),
            DeltanetKernel::ZGating => declare(
                s,
                false,
                "z_gating_f32",
                &z_gating_f32_list(),
            ),
            DeltanetKernel::RecurrenceParallel => declare(
                s,
                false,
                "recurrence_f32_parallel",
                &recurrence_f32_list(),
            ),
            DeltanetKernel::RecurrenceFusedHd64 => declare(
                s,
                false,
                "recurrence_f32_fused_hd64",
                &recurrence_f32_fused_hd64_list(),
            ),
            DeltanetKernel::RecurrenceFusedHd128 => declare(
                s,
                false,
                "recurrence_f32_fused_hd128",
                &recurrence_f32_fused_hd64_list(),
            ),
            DeltanetKernel::RecurrenceFusedHd256 => declare(
                s,
                false,
                "recurrence_f32_fused_hd256",
                &recurrence_f32_fused_hd64_list(),
            ),
            DeltanetKernel::RecurrenceHalfHd128F16 => declare(
                s,
                false,
                "recurrence_half_fused_hd128_f16",
                &recurrence_half_fused_hd128_f16_list(),
            ),
            DeltanetKernel::RecurrenceHalfHd128Bf16 => declare(
                s,
                false,
                "recurrence_half_fused_hd128_bf16",
                &recurrence_half_fused_hd128_f16_list(),
            ),
            DeltanetKernel::BpttRecompute => declare(
                s,
                false,
                "deltanet_bptt_recompute_f32",
                &deltanet_bptt_recompute_f32_list(),
            ),
            DeltanetKernel::Conv1dRows => declare(
                s,
                false,
                "conv1d_rows_f32",
                &conv1d_rows_f32_list(),
            ),
            DeltanetKernel::BetaDecayRows => declare(
                s,
                false,
                "beta_decay_rows_f32",
                &beta_decay_rows_f32_list(),
            ),
            DeltanetKernel::ExpandL2Rows => declare(
                s,
                false,
                "expand_and_l2_normalize_heads_rows_f32",
                &expand_and_l2_normalize_heads_rows_f32_list(),
            ),
            DeltanetKernel::ExpandL2RowsV2 => declare(
                s,
                false,
                "expand_and_l2_normalize_heads_rows_v2_f32",
                &expand_and_l2_normalize_heads_rows_f32_list(),
            ),
            DeltanetKernel::RecurrenceFusedRowsHd128 => declare(
                s,
                false,
                "recurrence_f32_fused_rows_hd128",
                &recurrence_f32_fused_rows_hd128_list(),
            ),
        }
        match self {
            DeltanetKernel::Conv1d => s.append(CONV1D_F32_BODY),
            DeltanetKernel::BetaDecay => s.append(BETA_DECAY_F32_BODY),
            DeltanetKernel::ExpandL2 => s.append(EXPAND_AND_L2_NORMALIZE_HEADS_F32_BODY),
            DeltanetKernel::Recurrence => s.append(RECURRENCE_F32_BODY),
            DeltanetKernel::ZGating => s.append(Z_GATING_F32_BODY),
            DeltanetKernel::RecurrenceParallel => s.append(RECURRENCE_F32_PARALLEL_BODY),
            DeltanetKernel::RecurrenceFusedHd64 => s.append(RECURRENCE_F32_FUSED_HD64_BODY),
            DeltanetKernel::RecurrenceFusedHd128 => s.append(RECURRENCE_F32_FUSED_HD128_BODY),
            DeltanetKernel::RecurrenceFusedHd256 => s.append(RECURRENCE_F32_FUSED_HD256_BODY),
            DeltanetKernel::RecurrenceHalfHd128F16 => s.append(RECURRENCE_HALF_FUSED_HD128_F16_BODY),
            DeltanetKernel::RecurrenceHalfHd128Bf16 => s.append(RECURRENCE_HALF_FUSED_HD128_BF16_BODY),
            DeltanetKernel::BpttRecompute => s.append(DELTANET_BPTT_RECOMPUTE_F32_BODY),
            DeltanetKernel::Conv1dRows => s.append(CONV1D_ROWS_F32_BODY),
            DeltanetKernel::BetaDecayRows => s.append(BETA_DECAY_ROWS_F32_BODY),
            DeltanetKernel::ExpandL2Rows => s.append(EXPAND_AND_L2_NORMALIZE_HEADS_ROWS_F32_BODY),
            DeltanetKernel::ExpandL2RowsV2 => s.append(EXPAND_AND_L2_NORMALIZE_HEADS_ROWS_V2_F32_BODY),
            DeltanetKernel::RecurrenceFusedRowsHd128 => s.append(RECURRENCE_F32_FUSED_ROWS_HD128_BODY),
        }
        assert(s@ =~= old(s)@ + (self.helpers() + self.declared().text() + self.body()));
    }
}

/// The kernels in the order of the text.
pub open spec fn deltanet_text_order() -> Seq<DeltanetKernel> {
    seq![
        DeltanetKernel::Conv1d,
        DeltanetKernel::BetaDecay,
        DeltanetKernel::ExpandL2,
        DeltanetKernel::Recurrence,
        DeltanetKernel::ZGating,
        DeltanetKernel::RecurrenceParallel,
        DeltanetKernel::RecurrenceFusedHd64,
        DeltanetKernel::RecurrenceFusedHd128,
        DeltanetKernel::RecurrenceFusedHd256,
        DeltanetKernel::RecurrenceHalfHd128F16,
        DeltanetKernel::RecurrenceHalfHd128Bf16,
        DeltanetKernel::BpttRecompute,
        DeltanetKernel::Conv1dRows,
        DeltanetKernel::BetaDecayRows,
        DeltanetKernel::ExpandL2Rows,
        DeltanetKernel::ExpandL2RowsV2,
        DeltanetKernel::RecurrenceFusedRowsHd128,
    ]
}

/// The whole text.
pub open spec fn deltanet_cuda_src() -> Seq<char> {
    text_of_kernels(deltanet_text_order())
}

/// [`deltanet_cuda_src`], computed.
pub fn deltanet_source() -> (r: String)
    ensures
        r@ == deltanet_cuda_src(),
{
    kernels_text(
        vec![
            DeltanetKernel::Conv1d,
            DeltanetKernel::BetaDecay,
            DeltanetKernel::ExpandL2,
            DeltanetKernel::Recurrence,
            DeltanetKernel::ZGating,
            DeltanetKernel::RecurrenceParallel,
            DeltanetKernel::RecurrenceFusedHd64,
            DeltanetKernel::RecurrenceFusedHd128,
            DeltanetKernel::RecurrenceFusedHd256,
            DeltanetKernel::RecurrenceHalfHd128F16,
            DeltanetKernel::RecurrenceHalfHd128Bf16,
            DeltanetKernel::BpttRecompute,
            DeltanetKernel::Conv1dRows,
            DeltanetKernel::BetaDecayRows,
            DeltanetKernel::ExpandL2Rows,
            DeltanetKernel::ExpandL2RowsV2,
            DeltanetKernel::RecurrenceFusedRowsHd128,
        ],
    )
}

} // verus!
