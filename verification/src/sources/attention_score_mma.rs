//! CUDA C of the tensor-core score kernels. `KV_F16` acts as in the attention text.

use vstd::prelude::*;
use crate::attention_score_mma::ScoreMmaKernel;
use crate::sources::{
    declare, kernels_text, param, text_of_kernels, CudaType, Declaration, KernelText, Param,
    ParamView,
};

verus! {

/// The parameters of `attention_decode_splitgqa_partial_rows_qg_mma_f32` and the
/// kernels that declare the same.
pub open spec fn attention_decode_splitgqa_partial_rows_qg_mma_f32_params() -> Seq<ParamView> {
    seq![
        param(CudaType::FloatsIn, "query"@),
        param(CudaType::CacheIn, "key_cache"@),
        param(CudaType::CacheIn, "value_cache"@),
        param(CudaType::FloatsOut, "part_m"@),
        param(CudaType::FloatsOut, "part_l"@),
        param(CudaType::FloatsOut, "part_out"@),
        param(CudaType::ConstFloat, "scale"@),
        param(CudaType::ConstInt, "head_dim"@),
        param(CudaType::ConstInt, "n_head"@),
        param(CudaType::ConstInt, "n_kv_head"@),
        param(CudaType::ConstInt, "chunk_len"@),
        param(CudaType::ConstInt, "base_pos"@),
        param(CudaType::ConstInt, "p"@),
    ]
}

/// [`attention_decode_splitgqa_partial_rows_qg_mma_f32_params`], computed.
fn attention_decode_splitgqa_partial_rows_qg_mma_f32_list() -> (r: Vec<Param>)
    ensures
        r@.map_values(|p: Param| p@) == attention_decode_splitgqa_partial_rows_qg_mma_f32_params(),
{
    let r: Vec<Param> = vec![
        Param { ty: CudaType::FloatsIn, name: "query" },
        Param { ty: CudaType::CacheIn, name: "key_cache" },
        Param { ty: CudaType::CacheIn, name: "value_cache" },
        Param { ty: CudaType::FloatsOut, name: "part_m" },
        Param { ty: CudaType::FloatsOut, name: "part_l" },
        Param { ty: CudaType::FloatsOut, name: "part_out" },
        Param { ty: CudaType::ConstFloat, name: "scale" },
        Param { ty: CudaType::ConstInt, name: "head_dim" },
        Param { ty: CudaType::ConstInt, name: "n_head" },
        Param { ty: CudaType::ConstInt, name: "n_kv_head" },
        Param { ty: CudaType::ConstInt, name: "chunk_len" },
        Param { ty: CudaType::ConstInt, name: "base_pos" },
        Param { ty: CudaType::ConstInt, name: "p" },
    ];
    assert(r@.map_values(|p: Param| p@) =~= attention_decode_splitgqa_partial_rows_qg_mma_f32_params());
    r
}

/// The parameters of `attention_decode_splitgqa_partial_rows_qg_mma_f32_devpos` and the
/// kernels that declare the same.
pub open spec fn attention_decode_splitgqa_partial_rows_qg_mma_f32_devpos_params() -> Seq<ParamView> {
    seq![
        param(CudaType::FloatsIn, "query"@),
        param(CudaType::CacheIn, "key_cache"@),
        param(CudaType::CacheIn, "value_cache"@),
        param(CudaType::FloatsOut, "part_m"@),
        param(CudaType::FloatsOut, "part_l"@),
        param(CudaType::FloatsOut, "part_out"@),
        param(CudaType::ConstFloat, "scale"@),
        param(CudaType::ConstInt, "head_dim"@),
        param(CudaType::ConstInt, "n_head"@),
        param(CudaType::ConstInt, "n_kv_head"@),
        param(CudaType::ConstInt, "chunk_len"@),
        param(CudaType::IntsIn, "pos_dev"@),
        param(CudaType::ConstInt, "p"@),
    ]
}

/// [`attention_decode_splitgqa_partial_rows_qg_mma_f32_devpos_params`], computed.
fn attention_decode_splitgqa_partial_rows_qg_mma_f32_devpos_list() -> (r: Vec<Param>)
    ensures
        r@.map_values(|p: Param| p@) == attention_decode_splitgqa_partial_rows_qg_mma_f32_devpos_params(),
{
    let r: Vec<Param> = vec![
        Param { ty: CudaType::FloatsIn, name: "query" },
        Param { ty: CudaType::CacheIn, name: "key_cache" },
        Param { ty: CudaType::CacheIn, name: "value_cache" },
        Param { ty: CudaType::FloatsOut, name: "part_m" },
        Param { ty: CudaType::FloatsOut, name: "part_l" },
        Param { ty: CudaType::FloatsOut, name: "part_out" },
        Param { ty: CudaType::ConstFloat, name: "scale" },
        Param { ty: CudaType::ConstInt, name: "head_dim" },
        Param { ty: CudaType::ConstInt, name: "n_head" },
        Param { ty: CudaType::ConstInt, name: "n_kv_head" },
        Param { ty: CudaType::ConstInt, name: "chunk_len" },
        Param { ty: CudaType::IntsIn, name: "pos_dev" },
        Param { ty: CudaType::ConstInt, name: "p" },
    ];
    assert(r@.map_values(|p: Param| p@) =~= attention_decode_splitgqa_partial_rows_qg_mma_f32_devpos_params());
    r
}

/// The parameters of `attention_decode_split_combine_rows_f32`.
pub open spec fn attention_decode_split_combine_rows_f32_params() -> Seq<ParamView> {
    seq![
        param(CudaType::FloatsIn, "part_m"@),
        param(CudaType::FloatsIn, "part_l"@),
        param(CudaType::FloatsIn, "part_out"@),
        param(CudaType::FloatsOut, "attn_out"@),
        param(CudaType::ConstInt, "head_dim"@),
        param(CudaType::ConstInt, "n_head"@),
        param(CudaType::ConstInt, "n_chunks"@),
        param(CudaType::ConstInt, "p"@),
    ]
}

/// [`attention_decode_split_combine_rows_f32_params`], computed.
fn attention_decode_split_combine_rows_f32_list() -> (r: Vec<Param>)
    ensures
        r@.map_values(|p: Param| p@) == attention_decode_split_combine_rows_f32_params(),
{
    let r: Vec<Param> = vec![
        Param { ty: CudaType::FloatsIn, name: "part_m" },
        Param { ty: CudaType::FloatsIn, name: "part_l" },
        Param { ty: CudaType::FloatsIn, name: "part_out" },
        Param { ty: CudaType::FloatsOut, name: "attn_out" },
        Param { ty: CudaType::ConstInt, name: "head_dim" },
        Param { ty: CudaType::ConstInt, name: "n_head" },
        Param { ty: CudaType::ConstInt, name: "n_chunks" },
        Param { ty: CudaType::ConstInt, name: "p" },
    ];
    assert(r@.map_values(|p: Param| p@) =~= attention_decode_split_combine_rows_f32_params());
    r
}

/// What stands ahead of `attention_decode_splitgqa_partial_rows_qg_mma_f32`.
pub const ATTENTION_DECODE_SPLITGQA_PARTIAL_ROWS_QG_MMA_F32_HELPERS: &'static str = r#"
#ifdef KV_F16
typedef unsigned short kv_elt;
__device__ __forceinline__ float kv_f16_to_f32(unsigned short h)
{
    const unsigned int sign = ((unsigned int)h & 0x8000u) << 16;
    const unsigned int exp = ((unsigned int)h >> 10) & 0x1fu;
    unsigned int mant = (unsigned int)h & 0x3ffu;
    if (exp == 0x1fu) {
        return __uint_as_float(sign | 0x7f800000u
                               | (mant ? (0x400000u | (mant << 13)) : 0u));
    }
    if (exp == 0) {
        if (mant == 0) return __uint_as_float(sign);
        int s = 0;
        while (!(mant & 0x400u)) { mant <<= 1; s++; }
        return __uint_as_float(sign | ((unsigned int)(113 - s) << 23)
                               | ((mant & 0x3ffu) << 13));
    }
    return __uint_as_float(sign | ((exp + 112u) << 23) | (mant << 13));
}
#define KV_RD(p) (kv_f16_to_f32(*(p)))
#else
typedef float kv_elt;
#define KV_RD(p) (*(p))
#endif

#define ATT_MMA_TILE 32

__device__ __forceinline__ unsigned cvt_tf32(float x)
{
    unsigned r;
    asm("cvt.rna.tf32.f32 %0, %1;" : "=r"(r) : "f"(x));
    return r;
}

__device__ __forceinline__ void mma_m16n8k8_tf32(
    float* __restrict__ d,
    const unsigned* __restrict__ a,
    const unsigned* __restrict__ b)
{
    asm(
        "mma.sync.aligned.m16n8k8.row.col.f32.tf32.tf32.f32 "
        "{%0,%1,%2,%3}, {%4,%5,%6,%7}, {%8,%9}, {%0,%1,%2,%3};"
        : "+f"(d[0]), "+f"(d[1]), "+f"(d[2]), "+f"(d[3])
        : "r"(a[0]), "r"(a[1]), "r"(a[2]), "r"(a[3]), "r"(b[0]), "r"(b[1]));
}

static __device__ void attention_score_mma_body(
    const float* __restrict__ query,
    const kv_elt* __restrict__ key_cache,
    const kv_elt* __restrict__ value_cache,
    float* __restrict__ part_m,
    float* __restrict__ part_l,
    float* __restrict__ part_out,
    float* smem,
    const float scale,
    const int head_dim,
    const int n_head,
    const int n_kv_head,
    const int chunk_len,
    const int base_pos,
    const int p)
{
    const int n_positions = base_pos + p;
    const int kv_group = blockIdx.x;
    const int chunk_id = blockIdx.y;
    const int n_chunks = gridDim.y;
    const int tid = threadIdx.x;
    const int warp = tid >> 5;
    const int lane = tid & 31;
    const int grp = tid >> 8;
    const int dim = tid & 255;
    const int g = n_head / n_kv_head;

    const int row_off = blockIdx.z * 16;
    const int row_lim = p - row_off;

    float* k_smem = smem;
    float* p_smem = k_smem + head_dim * (ATT_MMA_TILE + 1);
    float* st_smem = p_smem + 16 * g * ATT_MMA_TILE;

    const int chunk_start = chunk_id * chunk_len;
    if (chunk_start >= n_positions) {
        if (tid < 16 * g) {
            const int r = row_off + tid / g;
            const int h = tid % g;
            if (r < p) {
                const int p_idx = (r * n_head + kv_group * g + h) * n_chunks + chunk_id;
                part_m[p_idx] = -1e30f;
                part_l[p_idx] = 0.0f;
            }
        }
        for (int i = tid; i < 16 * g * head_dim; i += blockDim.x) {
            const int d_ = i % head_dim;
            const int t = i / head_dim;
            const int r = row_off + t / g;
            const int h = t % g;
            if (r < p) {
                part_out[((r * n_head + kv_group * g + h) * n_chunks + chunk_id) * head_dim
                         + d_] = 0.0f;
            }
        }
        return;
    }
    const int chunk_end_raw = chunk_start + chunk_len;
    const int chunk_end = (chunk_end_raw < n_positions) ? chunk_end_raw : n_positions;

    const int kv_stride = n_kv_head * head_dim;
    const int kv_off = kv_group * head_dim;
    const int q_stride = n_head * head_dim;

    float acc[4][8];
#pragma unroll
    for (int u = 0; u < 4; u++)
#pragma unroll
        for (int h = 0; h < 8; h++) acc[u][h] = 0.0f;

    const int mf = warp;
    const bool score_warp = warp < g;

    float run_max[2];
    float run_sum[2];
    run_max[0] = -1e30f; run_max[1] = -1e30f;
    run_sum[0] = 0.0f;   run_sum[1] = 0.0f;

    const int tile0 = chunk_start / ATT_MMA_TILE;
    const int tile1 = (chunk_end + ATT_MMA_TILE - 1) / ATT_MMA_TILE;
    const int ks = ATT_MMA_TILE + 1;
    for (int tile = tile0; tile < tile1; tile++) {
        const int tile_base = tile * ATT_MMA_TILE;

        for (int i = tid; i < ATT_MMA_TILE * head_dim; i += blockDim.x) {
            const int r_ = i / head_dim;
            const int d = i % head_dim;
            k_smem[d * ks + r_] = (tile_base + r_ < n_positions)
                ? KV_RD(&key_cache[(tile_base + r_) * kv_stride + kv_off + d])
                : 0.0f;
        }
        __syncthreads();

        if (score_warp) {
            float d_acc[4][4];
#pragma unroll
            for (int kf = 0; kf < 4; kf++)
#pragma unroll
                for (int e = 0; e < 4; e++) d_acc[kf][e] = 0.0f;

            const int gid = lane >> 2;
            const int tig = lane & 3;

            for (int k8 = 0; k8 < head_dim; k8 += 8) {
                unsigned a_hi[4], a_lo[4];
#pragma unroll
                for (int half = 0; half < 2; half++) {
                    const int t16 = mf * 16 + half * 8 + gid;
                    const int r = row_off + t16 / g;
                    const int h = t16 % g;
                    if (r < p) {
                        const float2 qv = *reinterpret_cast<const float2*>(
                            query + (long)r * q_stride
                            + (kv_group * g + h) * head_dim + k8 + 2 * tig);
                        const float q0_hi = __uint_as_float(cvt_tf32(qv.x));
                        const float q0_lo = qv.x - q0_hi;
                        const float q1_hi = __uint_as_float(cvt_tf32(qv.y));
                        const float q1_lo = qv.y - q1_hi;
                        a_hi[half * 2] = cvt_tf32(q0_hi);
                        a_lo[half * 2] = cvt_tf32(q0_lo);
                        a_hi[half * 2 + 1] = cvt_tf32(q1_hi);
                        a_lo[half * 2 + 1] = cvt_tf32(q1_lo);
                    } else {
                        a_hi[half * 2] = 0u;
                        a_lo[half * 2] = 0u;
                        a_hi[half * 2 + 1] = 0u;
                        a_lo[half * 2 + 1] = 0u;
                    }
                }

#pragma unroll
                for (int kf = 0; kf < 4; kf++) {
                    const float k0 = k_smem[(k8 + 2 * tig) * ks + (kf * 8 + gid)];
                    const float k1 = k_smem[(k8 + 2 * tig + 1) * ks + (kf * 8 + gid)];
                    const float k0_hi = __uint_as_float(cvt_tf32(k0));
                    const float k0_lo = k0 - k0_hi;
                    const float k1_hi = __uint_as_float(cvt_tf32(k1));
                    const float k1_lo = k1 - k1_hi;
                    const unsigned b_hi[2] = {cvt_tf32(k0_hi), cvt_tf32(k1_hi)};
                    const unsigned b_lo[2] = {cvt_tf32(k0_lo), cvt_tf32(k1_lo)};

                    mma_m16n8k8_tf32(d_acc[kf], a_hi, b_hi);
                    mma_m16n8k8_tf32(d_acc[kf], a_hi, b_lo);
                    mma_m16n8k8_tf32(d_acc[kf], a_lo, b_hi);
                }
            }

#pragma unroll
            for (int kf = 0; kf < 4; kf++) {
#pragma unroll
                for (int e = 0; e < 4; e++) {
                    const int half = e >> 1;
                    const int t16 = mf * 16 + half * 8 + gid;
                    const int r_rel = t16 / g;
                    const int col = kf * 8 + tig * 2 + (e & 1);
                    const int pos = tile_base + col;
                    const bool valid = (r_rel < row_lim)
                        && (pos < chunk_end)
                        && (pos <= base_pos + row_off + r_rel);
                    float s = d_acc[kf][e] * scale;
                    d_acc[kf][e] = valid ? s : -1e30f;
                }
            }

            float st_write[2];
#pragma unroll
            for (int half = 0; half < 2; half++) {
                float m = fmaxf(d_acc[0][half * 2], d_acc[0][half * 2 + 1]);
#pragma unroll
                for (int kf = 1; kf < 4; kf++) {
                    m = fmaxf(m, d_acc[kf][half * 2]);
                    m = fmaxf(m, d_acc[kf][half * 2 + 1]);
                }

                m = fmaxf(m, __shfl_xor_sync(0xffffffffu, m, 1));
                m = fmaxf(m, __shfl_xor_sync(0xffffffffu, m, 2));
                const float m_tile = m;
                const float new_max = (m_tile > run_max[half]) ? m_tile : run_max[half];
                const float exp_prev = expf(run_max[half] - new_max);
                const float exp_tile = expf(m_tile - new_max);
                float s = 0.0f;
#pragma unroll
                for (int kf = 0; kf < 4; kf++) {
#pragma unroll
                    for (int e = 0; e < 2; e++) {
                        const int idx = half * 2 + e;
                        const int t16 = mf * 16 + half * 8 + gid;
                        const int r_rel = t16 / g;
                        const int col = kf * 8 + tig * 2 + (e & 1);
                        const int pos = tile_base + col;
                        const bool valid = (r_rel < row_lim)
                            && (pos < chunk_end)
                            && (pos <= base_pos + row_off + r_rel);
                        float pv = 0.0f;
                        if (valid) pv = exp_tile * expf(d_acc[kf][idx] - m_tile);
                        d_acc[kf][idx] = pv;
                        s += pv;
                    }
                }
                s += __shfl_xor_sync(0xffffffffu, s, 1);
                s += __shfl_xor_sync(0xffffffffu, s, 2);
                run_sum[half] = run_sum[half] * exp_prev + s;
                run_max[half] = new_max;
                st_write[half] = exp_prev;
            }

#pragma unroll
            for (int kf = 0; kf < 4; kf++) {
#pragma unroll
                for (int half = 0; half < 2; half++) {
                    const int t16 = mf * 16 + half * 8 + gid;
                    p_smem[t16 * ATT_MMA_TILE + kf * 8 + tig * 2] = d_acc[kf][half * 2];
                    p_smem[t16 * ATT_MMA_TILE + kf * 8 + tig * 2 + 1] =
                        d_acc[kf][half * 2 + 1];
                }
            }
            if (tig == 0) {
#pragma unroll
                for (int half = 0; half < 2; half++) {
                    const int t16 = mf * 16 + half * 8 + gid;
                    st_smem[t16] = st_write[half];
                }
            }
        }
        __syncthreads();

        const int l_valid = (chunk_end - tile_base < ATT_MMA_TILE)
                                ? (chunk_end - tile_base)
                                : ATT_MMA_TILE;
#pragma unroll
        for (int u = 0; u < 4; u++) {
            const int r = grp * 4 + u;
            if (r < row_lim) {
#pragma unroll
                for (int h = 0; h < 8; h++) {
                    if (h < g) acc[u][h] *= st_smem[r * g + h];
                }
            }
        }
        for (int l = 0; l < l_valid; l++) {
            const float v = KV_RD(&value_cache[(tile_base + l) * kv_stride + kv_off + dim]);
#pragma unroll
            for (int u = 0; u < 4; u++) {
                const int r = grp * 4 + u;
                if (r < row_lim) {
#pragma unroll
                    for (int h = 0; h < 8; h++) {
                        if (h < g) {
                            acc[u][h] +=
                                p_smem[(r * g + h) * ATT_MMA_TILE + l] * v;
                        }
                    }
                }
            }
        }
        __syncthreads();
    }

    {
        const int r0 = grp * 4;
#pragma unroll
        for (int u = 0; u < 4; u++) {
            const int r = r0 + u;
            if (r < row_lim) {
#pragma unroll
                for (int h = 0; h < 8; h++) {
                    if (h < g) {
                        const int p_idx =
                            ((row_off + r) * n_head + kv_group * g + h) * n_chunks + chunk_id;
                        part_out[p_idx * head_dim + dim] = acc[u][h];
                    }
                }
            }
        }
    }

    if (score_warp && (lane & 3) == 0) {
#pragma unroll
        for (int half = 0; half < 2; half++) {
            const int t16 = mf * 16 + half * 8 + (lane >> 2);
            const int r_rel = t16 / g;
            if (r_rel < row_lim) {
                const int p_idx =
                    ((row_off + r_rel) * n_head + kv_group * g + (t16 % g)) * n_chunks
                    + chunk_id;
                part_m[p_idx] = run_max[half];
                part_l[p_idx] = run_sum[half];
            }
        }
    }
}

"#;

/// The body of `attention_decode_splitgqa_partial_rows_qg_mma_f32`.
pub const ATTENTION_DECODE_SPLITGQA_PARTIAL_ROWS_QG_MMA_F32_BODY: &'static str = r#"
{
    extern __shared__ float smem[];
    attention_score_mma_body(query, key_cache, value_cache, part_m, part_l,
                             part_out, smem, scale, head_dim, n_head, n_kv_head,
                             chunk_len, base_pos, p);
}

"#;

/// What stands ahead of `attention_decode_splitgqa_partial_rows_qg_mma_f32_devpos`.
pub const ATTENTION_DECODE_SPLITGQA_PARTIAL_ROWS_QG_MMA_F32_DEVPOS_HELPERS: &'static str = r#"static __device__ void attention_score_mma24_body(
    const float* __restrict__ query,
    const kv_elt* __restrict__ key_cache,
    const kv_elt* __restrict__ value_cache,
    float* __restrict__ part_m,
    float* __restrict__ part_l,
    float* __restrict__ part_out,
    float* smem,
    const float scale,
    const int head_dim,
    const int n_head,
    const int n_kv_head,
    const int chunk_len,
    const int base_pos,
    const int p)
{
    const int n_positions = base_pos + p;
    const int kv_group = blockIdx.x;
    const int chunk_id = blockIdx.y;
    const int n_chunks = gridDim.y;
    const int tid = threadIdx.x;
    const int warp = tid >> 5;
    const int lane = tid & 31;
    const int grp = tid >> 8;
    const int dim = tid & 255;
    const int g = n_head / n_kv_head;
    const int row_off = blockIdx.z * 16;
    const int row_lim = p - row_off;

    float* k_smem = smem;
    float* p_smem = k_smem + head_dim * (ATT_MMA_TILE + 1);
    float* st_smem = p_smem + 16 * g * ATT_MMA_TILE;
    float* red_max = st_smem + 16 * g;
    float* red_sum = red_max + g * 2 * 8 * 4;

    const int chunk_start = chunk_id * chunk_len;
    if (chunk_start >= n_positions) {
        if (tid < 16 * g) {
            const int r = row_off + tid / g;
            const int h = tid % g;
            if (r < p) {
                const int p_idx = (r * n_head + kv_group * g + h) * n_chunks + chunk_id;
                part_m[p_idx] = -1e30f;
                part_l[p_idx] = 0.0f;
            }
        }
        for (int i = tid; i < 16 * g * head_dim; i += blockDim.x) {
            const int d_ = i % head_dim;
            const int t = i / head_dim;
            const int r = row_off + t / g;
            const int h = t % g;
            if (r < p) {
                part_out[((r * n_head + kv_group * g + h) * n_chunks + chunk_id) * head_dim
                         + d_] = 0.0f;
            }
        }
        return;
    }
    const int chunk_end_raw = chunk_start + chunk_len;
    const int chunk_end = (chunk_end_raw < n_positions) ? chunk_end_raw : n_positions;

    const int kv_stride = n_kv_head * head_dim;
    const int kv_off = kv_group * head_dim;
    const int q_stride = n_head * head_dim;

    float acc[4][8];
#pragma unroll
    for (int u = 0; u < 4; u++)
#pragma unroll
        for (int h = 0; h < 8; h++) acc[u][h] = 0.0f;

    const int mf = warp >> 2;
    const int kf_own = warp & 3;
    const bool score_warp = warp < 4 * g;
    float run_max[2];
    float run_sum[2];
    run_max[0] = -1e30f; run_max[1] = -1e30f;
    run_sum[0] = 0.0f;   run_sum[1] = 0.0f;

    const int tile0 = chunk_start / ATT_MMA_TILE;
    const int tile1 = (chunk_end + ATT_MMA_TILE - 1) / ATT_MMA_TILE;
    const int ks = ATT_MMA_TILE + 1;
    for (int tile = tile0; tile < tile1; tile++) {
        const int tile_base = tile * ATT_MMA_TILE;

        for (int i = tid; i < ATT_MMA_TILE * head_dim; i += blockDim.x) {
            const int r_ = i / head_dim;
            const int d = i % head_dim;
            k_smem[d * ks + r_] = (tile_base + r_ < n_positions)
                ? KV_RD(&key_cache[(tile_base + r_) * kv_stride + kv_off + d])
                : 0.0f;
        }
        __syncthreads();

        float d_acc[4];
        float sc[4];
#pragma unroll
        for (int e = 0; e < 4; e++) d_acc[e] = 0.0f;
#pragma unroll
        for (int e = 0; e < 4; e++) sc[e] = 0.0f;
        if (score_warp) {
            const int gid = lane >> 2;
            const int tig = lane & 3;
            for (int k8 = 0; k8 < head_dim; k8 += 8) {
                unsigned a_hi[4], a_lo[4];
#pragma unroll
                for (int half = 0; half < 2; half++) {
                    const int t16 = mf * 16 + half * 8 + gid;
                    const int r = row_off + t16 / g;
                    const int h = t16 % g;
                    if (r < p) {
                        const float2 qv = *reinterpret_cast<const float2*>(
                            query + (long)r * q_stride
                            + (kv_group * g + h) * head_dim + k8 + 2 * tig);
                        const float q0_hi = __uint_as_float(cvt_tf32(qv.x));
                        const float q0_lo = qv.x - q0_hi;
                        const float q1_hi = __uint_as_float(cvt_tf32(qv.y));
                        const float q1_lo = qv.y - q1_hi;
                        a_hi[half * 2] = cvt_tf32(q0_hi);
                        a_lo[half * 2] = cvt_tf32(q0_lo);
                        a_hi[half * 2 + 1] = cvt_tf32(q1_hi);
                        a_lo[half * 2 + 1] = cvt_tf32(q1_lo);
                    } else {
                        a_hi[half * 2] = 0u;
                        a_lo[half * 2] = 0u;
                        a_hi[half * 2 + 1] = 0u;
                        a_lo[half * 2 + 1] = 0u;
                    }
                }

                const float k0 = k_smem[(k8 + 2 * tig) * ks + (kf_own * 8 + gid)];
                const float k1 = k_smem[(k8 + 2 * tig + 1) * ks + (kf_own * 8 + gid)];
                const float k0_hi = __uint_as_float(cvt_tf32(k0));
                const float k0_lo = k0 - k0_hi;
                const float k1_hi = __uint_as_float(cvt_tf32(k1));
                const float k1_lo = k1 - k1_hi;
                const unsigned b_hi[2] = {cvt_tf32(k0_hi), cvt_tf32(k1_hi)};
                const unsigned b_lo[2] = {cvt_tf32(k0_lo), cvt_tf32(k1_lo)};
                mma_m16n8k8_tf32(d_acc, a_hi, b_hi);
                mma_m16n8k8_tf32(d_acc, a_hi, b_lo);
                mma_m16n8k8_tf32(d_acc, a_lo, b_hi);
            }

#pragma unroll
            for (int e = 0; e < 4; e++) {
                const int half = e >> 1;
                const int t16 = mf * 16 + half * 8 + gid;
                const int r_rel = t16 / g;
                const int col = kf_own * 8 + tig * 2 + (e & 1);
                const int pos = tile_base + col;
                const bool valid = (r_rel < row_lim)
                    && (pos < chunk_end)
                    && (pos <= base_pos + row_off + r_rel);
                float s = d_acc[e] * scale;
                d_acc[e] = valid ? s : -1e30f;
            }

#pragma unroll
            for (int half = 0; half < 2; half++) {
                float m = fmaxf(d_acc[half * 2], d_acc[half * 2 + 1]);
                m = fmaxf(m, __shfl_xor_sync(0xffffffffu, m, 1));
                m = fmaxf(m, __shfl_xor_sync(0xffffffffu, m, 2));
                if (tig == 0) {
                    red_max[((mf * 2 + half) * 8 + gid) * 4 + kf_own] = m;
                }
            }
        }
        __syncthreads();

        if (score_warp) {
            const int gid = lane >> 2;
            const int tig = lane & 3;
#pragma unroll
            for (int half = 0; half < 2; half++) {
                float m_tile = -1e30f;
#pragma unroll
                for (int kf = 0; kf < 4; kf++) {
                    m_tile = fmaxf(
                        m_tile, red_max[((mf * 2 + half) * 8 + gid) * 4 + kf]);
                }
                const float new_max =
                    (m_tile > run_max[half]) ? m_tile : run_max[half];
                const float exp_prev = expf(run_max[half] - new_max);
                const float exp_tile = expf(m_tile - new_max);
                float s = 0.0f;
#pragma unroll
                for (int e = 0; e < 2; e++) {
                    const int idx = half * 2 + e;
                    const int t16 = mf * 16 + half * 8 + gid;
                    const int r_rel = t16 / g;
                    const int col = kf_own * 8 + tig * 2 + (e & 1);
                    const int pos = tile_base + col;
                    const bool valid = (r_rel < row_lim)
                        && (pos < chunk_end)
                        && (pos <= base_pos + row_off + r_rel);
                    float pv = 0.0f;
                    if (valid) pv = exp_tile * expf(d_acc[idx] - m_tile);
                    d_acc[idx] = pv;
                    s += pv;
                }
                s += __shfl_xor_sync(0xffffffffu, s, 1);
                s += __shfl_xor_sync(0xffffffffu, s, 2);
                sc[half * 2] = new_max;
                sc[half * 2 + 1] = exp_prev;
                if (tig == 0) {
                    red_sum[((mf * 2 + half) * 8 + gid) * 4 + kf_own] = s;
                }
            }
        }
        __syncthreads();

        if (score_warp) {
            const int gid = lane >> 2;
            const int tig = lane & 3;
#pragma unroll
            for (int half = 0; half < 2; half++) {
                float s_tile = 0.0f;
#pragma unroll
                for (int kf = 0; kf < 4; kf++) {
                    s_tile += red_sum[((mf * 2 + half) * 8 + gid) * 4 + kf];
                }
                run_sum[half] = run_sum[half] * sc[half * 2 + 1] + s_tile;
                run_max[half] = sc[half * 2];
            }
#pragma unroll
            for (int half = 0; half < 2; half++) {
                const int t16 = mf * 16 + half * 8 + gid;
                p_smem[t16 * ATT_MMA_TILE + kf_own * 8 + tig * 2] = d_acc[half * 2];
                p_smem[t16 * ATT_MMA_TILE + kf_own * 8 + tig * 2 + 1] =
                    d_acc[half * 2 + 1];
            }
            if (kf_own == 0 && tig == 0) {
#pragma unroll
                for (int half = 0; half < 2; half++) {
                    const int t16 = mf * 16 + half * 8 + gid;
                    st_smem[t16] = sc[half * 2 + 1];
                }
            }
        }
        __syncthreads();

        const int l_valid = (chunk_end - tile_base < ATT_MMA_TILE)
                                ? (chunk_end - tile_base)
                                : ATT_MMA_TILE;
#pragma unroll
        for (int u = 0; u < 4; u++) {
            const int r = grp * 4 + u;
            if (r < row_lim) {
#pragma unroll
                for (int h = 0; h < 8; h++) {
                    if (h < g) acc[u][h] *= st_smem[r * g + h];
                }
            }
        }
        for (int l = 0; l < l_valid; l++) {
            const float v = KV_RD(&value_cache[(tile_base + l) * kv_stride + kv_off + dim]);
#pragma unroll
            for (int u = 0; u < 4; u++) {
                const int r = grp * 4 + u;
                if (r < row_lim) {
#pragma unroll
                    for (int h = 0; h < 8; h++) {
                        if (h < g) {
                            acc[u][h] +=
                                p_smem[(r * g + h) * ATT_MMA_TILE + l] * v;
                        }
                    }
                }
            }
        }
        __syncthreads();
    }

    {
        const int r0 = grp * 4;
#pragma unroll
        for (int u = 0; u < 4; u++) {
            const int r = r0 + u;
            if (r < row_lim) {
#pragma unroll
                for (int h = 0; h < 8; h++) {
                    if (h < g) {
                        const int p_idx =
                            ((row_off + r) * n_head + kv_group * g + h) * n_chunks + chunk_id;
                        part_out[p_idx * head_dim + dim] = acc[u][h];
                    }
                }
            }
        }
    }

    if (score_warp && kf_own == 0 && (lane & 3) == 0) {
#pragma unroll
        for (int half = 0; half < 2; half++) {
            const int t16 = mf * 16 + half * 8 + (lane >> 2);
            const int r_rel = t16 / g;
            if (r_rel < row_lim) {
                const int p_idx =
                    ((row_off + r_rel) * n_head + kv_group * g + (t16 % g)) * n_chunks
                    + chunk_id;
                part_m[p_idx] = run_max[half];
                part_l[p_idx] = run_sum[half];
            }
        }
    }
}

"#;

/// The body of `attention_decode_splitgqa_partial_rows_qg_mma_f32_devpos`.
pub const ATTENTION_DECODE_SPLITGQA_PARTIAL_ROWS_QG_MMA_F32_DEVPOS_BODY: &'static str = r#"
{
    extern __shared__ float smem[];
    const int base_pos = *pos_dev;
    attention_score_mma_body(query, key_cache, value_cache, part_m, part_l,
                             part_out, smem, scale, head_dim, n_head, n_kv_head,
                             chunk_len, base_pos, p);
}

"#;

/// The body of `attention_decode_splitgqa_partial_rows_qg_mma24_f32`.
pub const ATTENTION_DECODE_SPLITGQA_PARTIAL_ROWS_QG_MMA24_F32_BODY: &'static str = r#"
{
    extern __shared__ float smem[];
    attention_score_mma24_body(query, key_cache, value_cache, part_m, part_l,
                               part_out, smem, scale, head_dim, n_head, n_kv_head,
                               chunk_len, base_pos, p);
}

"#;

/// The body of `attention_decode_splitgqa_partial_rows_qg_mma24_f32_devpos`.
pub const ATTENTION_DECODE_SPLITGQA_PARTIAL_ROWS_QG_MMA24_F32_DEVPOS_BODY: &'static str = r#"
{
    extern __shared__ float smem[];
    const int base_pos = *pos_dev;
    attention_score_mma24_body(query, key_cache, value_cache, part_m, part_l,
                               part_out, smem, scale, head_dim, n_head, n_kv_head,
                               chunk_len, base_pos, p);
}

"#;

/// The body of `attention_decode_split_combine_rows_f32`.
pub const ATTENTION_DECODE_SPLIT_COMBINE_ROWS_F32_BODY: &'static str = r#"
{
    const int row_head = blockIdx.x;
    const int r = row_head / n_head;
    const int head_idx = row_head % n_head;
    const int tid = threadIdx.x;
    if (tid >= head_dim) return;

    const int base = row_head * n_chunks;

    float m_max = -1e30f;
    for (int c = 0; c < n_chunks; c++) {
        if (part_m[base + c] > m_max) m_max = part_m[base + c];
    }

    float l_total = 0.0f;
    float out_acc = 0.0f;
    for (int c = 0; c < n_chunks; c++) {
        float w = expf(part_m[base + c] - m_max);
        l_total += part_l[base + c] * w;
        out_acc += w * part_out[(base + c) * head_dim + tid];
    }

    attn_out[(long)r * n_head * head_dim + head_idx * head_dim + tid] =
        (l_total == 0.0f) ? 0.0f : (out_acc / l_total);
}
"#;

impl KernelText for ScoreMmaKernel {
    open spec fn helpers(self) -> Seq<char> {
        match self {
            ScoreMmaKernel::ScoreMma => ATTENTION_DECODE_SPLITGQA_PARTIAL_ROWS_QG_MMA_F32_HELPERS@,
            ScoreMmaKernel::ScoreMmaDevpos => ATTENTION_DECODE_SPLITGQA_PARTIAL_ROWS_QG_MMA_F32_DEVPOS_HELPERS@,
            _ => Seq::empty(),
        }
    }

    open spec fn declared(self) -> Declaration {
        match self {
            ScoreMmaKernel::ScoreMma => Declaration {
                bounded: true,
                name: "attention_decode_splitgqa_partial_rows_qg_mma_f32"@,
                params: attention_decode_splitgqa_partial_rows_qg_mma_f32_params(),
            },
            ScoreMmaKernel::ScoreMmaDevpos => Declaration {
                bounded: true,
                name: "attention_decode_splitgqa_partial_rows_qg_mma_f32_devpos"@,
                params: attention_decode_splitgqa_partial_rows_qg_mma_f32_devpos_params(),
            },
            ScoreMmaKernel::ScoreMma24 => Declaration {
                bounded: true,
                name: "attention_decode_splitgqa_partial_rows_qg_mma24_f32"@,
                params: attention_decode_splitgqa_partial_rows_qg_mma_f32_params(),
            },
            ScoreMmaKernel::ScoreMma24Devpos => Declaration {
                bounded: true,
                name: "attention_decode_splitgqa_partial_rows_qg_mma24_f32_devpos"@,
                params: attention_decode_splitgqa_partial_rows_qg_mma_f32_devpos_params(),
            },
            ScoreMmaKernel::Combine => Declaration {
                bounded: false,
                name: "attention_decode_split_combine_rows_f32"@,
                params: attention_decode_split_combine_rows_f32_params(),
            },
        }
    }

    open spec fn body(self) -> Seq<char> {
        match self {
            ScoreMmaKernel::ScoreMma => ATTENTION_DECODE_SPLITGQA_PARTIAL_ROWS_QG_MMA_F32_BODY@,
            ScoreMmaKernel::ScoreMmaDevpos => ATTENTION_DECODE_SPLITGQA_PARTIAL_ROWS_QG_MMA_F32_DEVPOS_BODY@,
            ScoreMmaKernel::ScoreMma24 => ATTENTION_DECODE_SPLITGQA_PARTIAL_ROWS_QG_MMA24_F32_BODY@,
            ScoreMmaKernel::ScoreMma24Devpos => ATTENTION_DECODE_SPLITGQA_PARTIAL_ROWS_QG_MMA24_F32_DEVPOS_BODY@,
            ScoreMmaKernel::Combine => ATTENTION_DECODE_SPLIT_COMBINE_ROWS_F32_BODY@,
        }
    }

    fn append_text(self, s: &mut String) {
        match self {
            ScoreMmaKernel::ScoreMma => s.append(ATTENTION_DECODE_SPLITGQA_PARTIAL_ROWS_QG_MMA_F32_HELPERS),
            ScoreMmaKernel::ScoreMmaDevpos => s.append(ATTENTION_DECODE_SPLITGQA_PARTIAL_ROWS_QG_MMA_F32_DEVPOS_HELPERS),
            _ => {},
        }
        assert(s@ =~= old(s)@ + self.helpers());
        match self {
            ScoreMmaKernel::ScoreMma => declare(
                s,
                true,
                "attention_decode_splitgqa_partial_rows_qg_mma_f32",
                &attention_decode_splitgqa_partial_rows_qg_mma_f32_list(),
            ),
            ScoreMmaKernel::ScoreMmaDevpos => declare(
                s,
                true,
                "attention_decode_splitgqa_partial_rows_qg_mma_f32_devpos",
                &attention_decode_splitgqa_partial_rows_qg_mma_f32_devpos_list(),
            ),
            ScoreMmaKernel::ScoreMma24 => declare(
                s,
                true,
                "attention_decode_splitgqa_partial_rows_qg_mma24_f32",
                &attention_decode_splitgqa_partial_rows_qg_mma_f32_list(),
            ),
            ScoreMmaKernel::ScoreMma24Devpos => declare(
                s,
                true,
                "attention_decode_splitgqa_partial_rows_qg_mma24_f32_devpos",
                &attention_decode_splitgqa_partial_rows_qg_mma_f32_devpos_list(),
            ),
            ScoreMmaKernel::Combine => declare(
                s,
                false,
                "attention_decode_split_combine_rows_f32",
                &attention_decode_split_combine_rows_f32_list(),
            ),
        }
        match self {
            ScoreMmaKernel::ScoreMma => s.append(ATTENTION_DECODE_SPLITGQA_PARTIAL_ROWS_QG_MMA_F32_BODY),
            ScoreMmaKernel::ScoreMmaDevpos => s.append(ATTENTION_DECODE_SPLITGQA_PARTIAL_ROWS_QG_MMA_F32_DEVPOS_BODY),
            ScoreMmaKernel::ScoreMma24 => s.append(ATTENTION_DECODE_SPLITGQA_PARTIAL_ROWS_QG_MMA24_F32_BODY),
            ScoreMmaKernel::ScoreMma24Devpos => s.append(ATTENTION_DECODE_SPLITGQA_PARTIAL_ROWS_QG_MMA24_F32_DEVPOS_BODY),
            ScoreMmaKernel::Combine => s.append(ATTENTION_DECODE_SPLIT_COMBINE_ROWS_F32_BODY),
        }
        assert(s@ =~= old(s)@ + (self.helpers() + self.declared().text() + self.body()));
    }
}

/// The kernels in the order of the text.
pub open spec fn attention_score_mma_text_order() -> Seq<ScoreMmaKernel> {
    seq![
        ScoreMmaKernel::ScoreMma,
        ScoreMmaKernel::ScoreMmaDevpos,
        ScoreMmaKernel::ScoreMma24,
        ScoreMmaKernel::ScoreMma24Devpos,
        ScoreMmaKernel::Combine,
    ]
}

/// The whole text.
pub open spec fn attention_score_mma_cuda_src() -> Seq<char> {
    text_of_kernels(attention_score_mma_text_order())
}

/// [`attention_score_mma_cuda_src`], computed.
pub fn attention_score_mma_source() -> (r: String)
    ensures
        r@ == attention_score_mma_cuda_src(),
{
    kernels_text(
        vec![
            ScoreMmaKernel::ScoreMma,
            ScoreMmaKernel::ScoreMmaDevpos,
            ScoreMmaKernel::ScoreMma24,
            ScoreMmaKernel::ScoreMma24Devpos,
            ScoreMmaKernel::Combine,
        ],
    )
}

} // verus!
