//! What each attention launch of several rows calls.

use vstd::prelude::*;
use crate::attention::{AttentionKernel, AttentionKernels};
use crate::calls::{
    a_thread_each, in_pieces, lemma_a_thread_each, lemma_in_pieces, lemma_shares, shaped,
    shares_heads,
};
use crate::error::CudarcKernelError;
use crate::geometry::{int_arg, low_u32};
use crate::launch::{Arg, Buffer, LaunchPlan, Real};
use crate::sources::calls;

verus! {

/// Every row of the batch is turned, from the position given on.
pub proof fn law_launch_rope_rows(
    k: &AttentionKernels,
    rotary_dim: usize,
    head_dim: usize,
    n_head: usize,
    n_kv_head: usize,
    base_pos: usize,
    p: usize,
    r: LaunchPlan<AttentionKernel>,
)
    requires
        call_ensures(
            AttentionKernels::launch_rope_rows,
            (k, rotary_dim, head_dim, n_head, n_kv_head, base_pos, p),
            r,
        ),
    ensures
        r@.len() == 1,
        calls(
                r@[0],
                "rope_partial_rows_f32"@,
                seq![
                    ("q"@, Arg::Buf(Buffer::Q)),
                    ("k"@, Arg::Buf(Buffer::K)),
                    ("rotary_dim"@, int_arg(rotary_dim as int)),
                    ("head_dim"@, int_arg(head_dim as int)),
                    ("n_head"@, int_arg(n_head as int)),
                    ("n_kv_head"@, int_arg(n_kv_head as int)),
                    ("base_pos"@, int_arg(base_pos as int)),
                    ("p"@, int_arg(p as int)),
                    ("theta_base"@, Arg::Real(Real::ThetaBase)),
                ],
            ),
        a_thread_each(r@[0].config, low_u32(p * n_head * (rotary_dim / 2) as int) as int),
{
    lemma_a_thread_each(p * n_head * (rotary_dim / 2) as int);
}

/// Every row of the batch is turned, from the position that the buffer holds on.
pub proof fn law_launch_rope_rows_devpos(
    k: &AttentionKernels,
    rotary_dim: usize,
    head_dim: usize,
    n_head: usize,
    n_kv_head: usize,
    p: usize,
    r: LaunchPlan<AttentionKernel>,
)
    requires
        call_ensures(
            AttentionKernels::launch_rope_rows_devpos,
            (k, rotary_dim, head_dim, n_head, n_kv_head, p),
            r,
        ),
    ensures
        r@.len() == 1,
        calls(
                r@[0],
                "rope_partial_rows_f32_devpos"@,
                seq![
                    ("q"@, Arg::Buf(Buffer::Q)),
                    ("k"@, Arg::Buf(Buffer::K)),
                    ("rotary_dim"@, int_arg(rotary_dim as int)),
                    ("head_dim"@, int_arg(head_dim as int)),
                    ("n_head"@, int_arg(n_head as int)),
                    ("n_kv_head"@, int_arg(n_kv_head as int)),
                    ("pos_dev"@, Arg::Buf(Buffer::PosDev)),
                    ("p"@, int_arg(p as int)),
                    ("theta_base"@, Arg::Real(Real::ThetaBase)),
                ],
            ),
        a_thread_each(r@[0].config, low_u32(p * n_head * (rotary_dim / 2) as int) as int),
{
    lemma_a_thread_each(p * n_head * (rotary_dim / 2) as int);
}

/// The key rows go to the key cache and the value rows to the value cache.
pub proof fn law_launch_kv_append_rows(
    k: &AttentionKernels,
    kvd: usize,
    base_pos: usize,
    p: usize,
    r: LaunchPlan<AttentionKernel>,
)
    requires
        call_ensures(AttentionKernels::launch_kv_append_rows, (k, kvd, base_pos, p), r),
    ensures
        r@.len() == 1,
        calls(
                r@[0],
                "kv_cache_append_rows_f32"@,
                seq![
                    ("k_vecs"@, Arg::Buf(Buffer::KVec)),
                    ("v_vecs"@, Arg::Buf(Buffer::VVec)),
                    ("key_cache"@, Arg::Buf(Buffer::KeyCache)),
                    ("value_cache"@, Arg::Buf(Buffer::ValueCache)),
                    ("kvd"@, int_arg(kvd as int)),
                    ("base_pos"@, int_arg(base_pos as int)),
                    ("p"@, int_arg(p as int)),
                ],
            ),
        a_thread_each(r@[0].config, low_u32(p * kvd as int) as int),
{
    lemma_a_thread_each(p * kvd as int);
}

/// The key rows go to the key cache and the value rows to the value cache, from the
/// row that the buffer holds on.
pub proof fn law_launch_kv_append_rows_devpos(
    k: &AttentionKernels,
    kvd: usize,
    p: usize,
    r: LaunchPlan<AttentionKernel>,
)
    requires
        call_ensures(AttentionKernels::launch_kv_append_rows_devpos, (k, kvd, p), r),
    ensures
        r@.len() == 1,
        calls(
                r@[0],
                "kv_cache_append_rows_f32_devpos"@,
                seq![
                    ("k_vecs"@, Arg::Buf(Buffer::KVec)),
                    ("v_vecs"@, Arg::Buf(Buffer::VVec)),
                    ("key_cache"@, Arg::Buf(Buffer::KeyCache)),
                    ("value_cache"@, Arg::Buf(Buffer::ValueCache)),
                    ("kvd"@, int_arg(kvd as int)),
                    ("pos_dev"@, Arg::Buf(Buffer::PosDev)),
                    ("p"@, int_arg(p as int)),
                ],
            ),
        a_thread_each(r@[0].config, low_u32(p * kvd as int) as int),
{
    lemma_a_thread_each(p * kvd as int);
}

/// The query/gate rows of the batch are read, queries and gates are written.
pub proof fn law_launch_split_qg_rows(
    k: &AttentionKernels,
    head_dim: usize,
    n_head: usize,
    p: usize,
    r: LaunchPlan<AttentionKernel>,
)
    requires
        call_ensures(AttentionKernels::launch_split_qg_rows, (k, head_dim, n_head, p), r),
    ensures
        r@.len() == 1,
        calls(
                r@[0],
                "split_qg_rows_f32"@,
                seq![
                    ("qg"@, Arg::Buf(Buffer::Qg)),
                    ("q"@, Arg::Buf(Buffer::Q)),
                    ("gate"@, Arg::Buf(Buffer::Gate)),
                    ("head_dim"@, int_arg(head_dim as int)),
                    ("n_head"@, int_arg(n_head as int)),
                    ("p"@, int_arg(p as int)),
                ],
            ),
        a_thread_each(r@[0].config, low_u32(p * n_head * head_dim as int) as int),
{
    lemma_a_thread_each(p * n_head * head_dim as int);
}

/// Attention of the rows of a batch reads the query rows, the keys and the values, and
/// the merge reads what it wrote. 
/// Four rows share a block of 256 threads.
pub proof fn law_launch_attention_splitgqa_rows(
    k: &AttentionKernels,
    head_dim: usize,
    n_head: usize,
    n_kv_head: usize,
    chunk_len: usize,
    n_chunks: usize,
    base_pos: usize,
    p: usize,
    g: int,
    z: int,
    r: Result<LaunchPlan<AttentionKernel>, CudarcKernelError>,
)
    requires
        call_ensures(
            AttentionKernels::launch_attention_splitgqa_rows,
            (k, head_dim, n_head, n_kv_head, chunk_len, n_chunks, base_pos, p),
            r,
        ),
        in_pieces(p as int, 4, z),
    ensures
        r is Ok <==> shares_heads(head_dim, n_head, n_kv_head, chunk_len),
        r matches Err(e) ==> e@ is InvalidArg,
        r is Ok ==> r->Ok_0@.len() == 2,
        r is Ok ==> calls(
                r->Ok_0@[0],
                "attention_decode_splitgqa_partial_rows_f32"@,
                seq![
                    ("query"@, Arg::Buf(Buffer::Query)),
                    ("key_cache"@, Arg::Buf(Buffer::KeyCache)),
                    ("value_cache"@, Arg::Buf(Buffer::ValueCache)),
                    ("part_m"@, Arg::Buf(Buffer::PartM)),
                    ("part_l"@, Arg::Buf(Buffer::PartL)),
                    ("part_out"@, Arg::Buf(Buffer::PartOut)),
                    ("scale"@, Arg::InvSqrt(head_dim)),
                    ("head_dim"@, int_arg(head_dim as int)),
                    ("n_head"@, int_arg(n_head as int)),
                    ("n_kv_head"@, int_arg(n_kv_head as int)),
                    ("chunk_len"@, int_arg(chunk_len as int)),
                    ("base_pos"@, int_arg(base_pos as int)),
                    ("p"@, int_arg(p as int)),
                    ("k4"@, Arg::I32(if head_dim >= 128 { k.kf4 } else { 0 })),
                ],
            ),
        r is Ok ==> (n_head == g * n_kv_head ==> shaped(
            r->Ok_0@[0].config,
            n_kv_head as int,
            n_chunks as int,
            z,
            256,
            33 * head_dim + 4 * g * 32 + 4 * g,
        )),
        r is Ok ==> calls(
                r->Ok_0@[1],
                "attention_decode_split_combine_rows_f32"@,
                seq![
                    ("part_m"@, Arg::Buf(Buffer::PartM)),
                    ("part_l"@, Arg::Buf(Buffer::PartL)),
                    ("part_out"@, Arg::Buf(Buffer::PartOut)),
                    ("attn_out"@, Arg::Buf(Buffer::AttnOut)),
                    ("head_dim"@, int_arg(head_dim as int)),
                    ("n_head"@, int_arg(n_head as int)),
                    ("n_chunks"@, int_arg(n_chunks as int)),
                    ("p"@, int_arg(p as int)),
                ],
            ),
        r is Ok ==> (shaped(r->Ok_0@[1].config, p * n_head, 1, 1, head_dim as int, 0)),
{
    lemma_shares(head_dim, n_head, n_kv_head, chunk_len, g);
    lemma_in_pieces(p as int, 4, z);
}

/// The same from the position that the buffer holds on. 
/// Four rows share a block of 256 threads.
pub proof fn law_launch_attention_splitgqa_rows_devpos(
    k: &AttentionKernels,
    head_dim: usize,
    n_head: usize,
    n_kv_head: usize,
    chunk_len: usize,
    n_chunks: usize,
    p: usize,
    g: int,
    z: int,
    r: Result<LaunchPlan<AttentionKernel>, CudarcKernelError>,
)
    requires
        call_ensures(
            AttentionKernels::launch_attention_splitgqa_rows_devpos,
            (k, head_dim, n_head, n_kv_head, chunk_len, n_chunks, p),
            r,
        ),
        in_pieces(p as int, 4, z),
    ensures
        r is Ok <==> shares_heads(head_dim, n_head, n_kv_head, chunk_len),
        r matches Err(e) ==> e@ is InvalidArg,
        r is Ok ==> r->Ok_0@.len() == 2,
        r is Ok ==> calls(
                r->Ok_0@[0],
                "attention_decode_splitgqa_partial_rows_f32_devpos"@,
                seq![
                    ("query"@, Arg::Buf(Buffer::Query)),
                    ("key_cache"@, Arg::Buf(Buffer::KeyCache)),
                    ("value_cache"@, Arg::Buf(Buffer::ValueCache)),
                    ("part_m"@, Arg::Buf(Buffer::PartM)),
                    ("part_l"@, Arg::Buf(Buffer::PartL)),
                    ("part_out"@, Arg::Buf(Buffer::PartOut)),
                    ("scale"@, Arg::InvSqrt(head_dim)),
                    ("head_dim"@, int_arg(head_dim as int)),
                    ("n_head"@, int_arg(n_head as int)),
                    ("n_kv_head"@, int_arg(n_kv_head as int)),
                    ("chunk_len"@, int_arg(chunk_len as int)),
                    ("pos_dev"@, Arg::Buf(Buffer::PosDev)),
                    ("p"@, int_arg(p as int)),
                    ("k4"@, Arg::I32(if head_dim >= 128 { k.kf4 } else { 0 })),
                ],
            ),
        r is Ok ==> (n_head == g * n_kv_head ==> shaped(
            r->Ok_0@[0].config,
            n_kv_head as int,
            n_chunks as int,
            z,
            256,
            33 * head_dim + 4 * g * 32 + 4 * g,
        )),
        r is Ok ==> calls(
                r->Ok_0@[1],
                "attention_decode_split_combine_rows_f32"@,
                seq![
                    ("part_m"@, Arg::Buf(Buffer::PartM)),
                    ("part_l"@, Arg::Buf(Buffer::PartL)),
                    ("part_out"@, Arg::Buf(Buffer::PartOut)),
                    ("attn_out"@, Arg::Buf(Buffer::AttnOut)),
                    ("head_dim"@, int_arg(head_dim as int)),
                    ("n_head"@, int_arg(n_head as int)),
                    ("n_chunks"@, int_arg(n_chunks as int)),
                    ("p"@, int_arg(p as int)),
                ],
            ),
        r is Ok ==> (shaped(r->Ok_0@[1].config, p * n_head, 1, 1, head_dim as int, 0)),
{
    lemma_shares(head_dim, n_head, n_kv_head, chunk_len, g);
    lemma_in_pieces(p as int, 4, z);
}

/// Attention of the rows of a batch reads the query rows, the keys and the values, and
/// the merge reads what it wrote. 
/// With more accumulators per thread.
pub proof fn law_launch_attention_splitgqa_rows_ma(
    k: &AttentionKernels,
    head_dim: usize,
    n_head: usize,
    n_kv_head: usize,
    chunk_len: usize,
    n_chunks: usize,
    base_pos: usize,
    p: usize,
    g: int,
    z: int,
    r: Result<LaunchPlan<AttentionKernel>, CudarcKernelError>,
)
    requires
        call_ensures(
            AttentionKernels::launch_attention_splitgqa_rows_ma,
            (k, head_dim, n_head, n_kv_head, chunk_len, n_chunks, base_pos, p),
            r,
        ),
        in_pieces(p as int, 4, z),
    ensures
        r is Ok <==> shares_heads(head_dim, n_head, n_kv_head, chunk_len) && head_dim == 256,
        r matches Err(e) ==> e@ is InvalidArg,
        r is Ok ==> r->Ok_0@.len() == 2,
        r is Ok ==> calls(
                r->Ok_0@[0],
                "attention_decode_splitgqa_partial_rows_ma_f32"@,
                seq![
                    ("query"@, Arg::Buf(Buffer::Query)),
                    ("key_cache"@, Arg::Buf(Buffer::KeyCache)),
                    ("value_cache"@, Arg::Buf(Buffer::ValueCache)),
                    ("part_m"@, Arg::Buf(Buffer::PartM)),
                    ("part_l"@, Arg::Buf(Buffer::PartL)),
                    ("part_out"@, Arg::Buf(Buffer::PartOut)),
                    ("scale"@, Arg::InvSqrt(head_dim)),
                    ("head_dim"@, int_arg(head_dim as int)),
                    ("n_head"@, int_arg(n_head as int)),
                    ("n_kv_head"@, int_arg(n_kv_head as int)),
                    ("chunk_len"@, int_arg(chunk_len as int)),
                    ("base_pos"@, int_arg(base_pos as int)),
                    ("p"@, int_arg(p as int)),
                    ("k4"@, Arg::I32(if head_dim >= 128 { k.kf4 } else { 0 })),
                ],
            ),
        r is Ok ==> (n_head == g * n_kv_head ==> shaped(
            r->Ok_0@[0].config,
            n_kv_head as int,
            n_chunks as int,
            z,
            256,
            33 * head_dim + 4 * g * 32 + 4 * g,
        )),
        r is Ok ==> calls(
                r->Ok_0@[1],
                "attention_decode_split_combine_rows_f32"@,
                seq![
                    ("part_m"@, Arg::Buf(Buffer::PartM)),
                    ("part_l"@, Arg::Buf(Buffer::PartL)),
                    ("part_out"@, Arg::Buf(Buffer::PartOut)),
                    ("attn_out"@, Arg::Buf(Buffer::AttnOut)),
                    ("head_dim"@, int_arg(head_dim as int)),
                    ("n_head"@, int_arg(n_head as int)),
                    ("n_chunks"@, int_arg(n_chunks as int)),
                    ("p"@, int_arg(p as int)),
                ],
            ),
        r is Ok ==> (shaped(r->Ok_0@[1].config, p * n_head, 1, 1, head_dim as int, 0)),
{
    lemma_shares(head_dim, n_head, n_kv_head, chunk_len, g);
    lemma_in_pieces(p as int, 4, z);
}

/// The same from the position that the buffer holds on. 
/// With more accumulators per thread.
pub proof fn law_launch_attention_splitgqa_rows_ma_devpos(
    k: &AttentionKernels,
    head_dim: usize,
    n_head: usize,
    n_kv_head: usize,
    chunk_len: usize,
    n_chunks: usize,
    p: usize,
    g: int,
    z: int,
    r: Result<LaunchPlan<AttentionKernel>, CudarcKernelError>,
)
    requires
        call_ensures(
            AttentionKernels::launch_attention_splitgqa_rows_ma_devpos,
            (k, head_dim, n_head, n_kv_head, chunk_len, n_chunks, p),
            r,
        ),
        in_pieces(p as int, 4, z),
    ensures
        r is Ok <==> shares_heads(head_dim, n_head, n_kv_head, chunk_len) && head_dim == 256,
        r matches Err(e) ==> e@ is InvalidArg,
        r is Ok ==> r->Ok_0@.len() == 2,
        r is Ok ==> calls(
                r->Ok_0@[0],
                "attention_decode_splitgqa_partial_rows_ma_f32_devpos"@,
                seq![
                    ("query"@, Arg::Buf(Buffer::Query)),
                    ("key_cache"@, Arg::Buf(Buffer::KeyCache)),
                    ("value_cache"@, Arg::Buf(Buffer::ValueCache)),
                    ("part_m"@, Arg::Buf(Buffer::PartM)),
                    ("part_l"@, Arg::Buf(Buffer::PartL)),
                    ("part_out"@, Arg::Buf(Buffer::PartOut)),
                    ("scale"@, Arg::InvSqrt(head_dim)),
                    ("head_dim"@, int_arg(head_dim as int)),
                    ("n_head"@, int_arg(n_head as int)),
                    ("n_kv_head"@, int_arg(n_kv_head as int)),
                    ("chunk_len"@, int_arg(chunk_len as int)),
                    ("pos_dev"@, Arg::Buf(Buffer::PosDev)),
                    ("p"@, int_arg(p as int)),
                    ("k4"@, Arg::I32(if head_dim >= 128 { k.kf4 } else { 0 })),
                ],
            ),
        r is Ok ==> (n_head == g * n_kv_head ==> shaped(
            r->Ok_0@[0].config,
            n_kv_head as int,
            n_chunks as int,
            z,
            256,
            33 * head_dim + 4 * g * 32 + 4 * g,
        )),
        r is Ok ==> calls(
                r->Ok_0@[1],
                "attention_decode_split_combine_rows_f32"@,
                seq![
                    ("part_m"@, Arg::Buf(Buffer::PartM)),
                    ("part_l"@, Arg::Buf(Buffer::PartL)),
                    ("part_out"@, Arg::Buf(Buffer::PartOut)),
                    ("attn_out"@, Arg::Buf(Buffer::AttnOut)),
                    ("head_dim"@, int_arg(head_dim as int)),
                    ("n_head"@, int_arg(n_head as int)),
                    ("n_chunks"@, int_arg(n_chunks as int)),
                    ("p"@, int_arg(p as int)),
                ],
            ),
        r is Ok ==> (shaped(r->Ok_0@[1].config, p * n_head, 1, 1, head_dim as int, 0)),
{
    lemma_shares(head_dim, n_head, n_kv_head, chunk_len, g);
    lemma_in_pieces(p as int, 4, z);
}

/// Attention of the rows of a batch reads the query rows, the keys and the values, and
/// the merge reads what it wrote. 
/// Sixteen rows share a block of 1024 threads, and up to 64 are taken.
pub proof fn law_launch_attention_splitgqa_rows_qg(
    k: &AttentionKernels,
    head_dim: usize,
    n_head: usize,
    n_kv_head: usize,
    chunk_len: usize,
    n_chunks: usize,
    base_pos: usize,
    p: usize,
    g: int,
    z: int,
    r: Result<LaunchPlan<AttentionKernel>, CudarcKernelError>,
)
    requires
        call_ensures(
            AttentionKernels::launch_attention_splitgqa_rows_qg,
            (k, head_dim, n_head, n_kv_head, chunk_len, n_chunks, base_pos, p),
            r,
        ),
        in_pieces(p as int, 16, z),
    ensures
        r is Ok <==> shares_heads(head_dim, n_head, n_kv_head, chunk_len) && head_dim == 256
            && 1 <= p <= 64,
        r matches Err(e) ==> e@ is InvalidArg,
        r is Ok ==> r->Ok_0@.len() == 2,
        r is Ok ==> calls(
                r->Ok_0@[0],
                "attention_decode_splitgqa_partial_rows_qg_f32"@,
                seq![
                    ("query"@, Arg::Buf(Buffer::Query)),
                    ("key_cache"@, Arg::Buf(Buffer::KeyCache)),
                    ("value_cache"@, Arg::Buf(Buffer::ValueCache)),
                    ("part_m"@, Arg::Buf(Buffer::PartM)),
                    ("part_l"@, Arg::Buf(Buffer::PartL)),
                    ("part_out"@, Arg::Buf(Buffer::PartOut)),
                    ("scale"@, Arg::InvSqrt(head_dim)),
                    ("head_dim"@, int_arg(head_dim as int)),
                    ("n_head"@, int_arg(n_head as int)),
                    ("n_kv_head"@, int_arg(n_kv_head as int)),
                    ("chunk_len"@, int_arg(chunk_len as int)),
                    ("base_pos"@, int_arg(base_pos as int)),
                    ("p"@, int_arg(p as int)),
                    ("k4"@, Arg::I32(if head_dim >= 128 { k.kf4 } else { 0 })),
                ],
            ),
        r is Ok ==> (n_head == g * n_kv_head ==> shaped(
            r->Ok_0@[0].config,
            n_kv_head as int,
            n_chunks as int,
            z,
            1024,
            33 * head_dim + 16 * g * 32 + 16 * g,
        )),
        r is Ok ==> calls(
                r->Ok_0@[1],
                "attention_decode_split_combine_rows_f32"@,
                seq![
                    ("part_m"@, Arg::Buf(Buffer::PartM)),
                    ("part_l"@, Arg::Buf(Buffer::PartL)),
                    ("part_out"@, Arg::Buf(Buffer::PartOut)),
                    ("attn_out"@, Arg::Buf(Buffer::AttnOut)),
                    ("head_dim"@, int_arg(head_dim as int)),
                    ("n_head"@, int_arg(n_head as int)),
                    ("n_chunks"@, int_arg(n_chunks as int)),
                    ("p"@, int_arg(p as int)),
                ],
            ),
        r is Ok ==> (shaped(r->Ok_0@[1].config, p * n_head, 1, 1, head_dim as int, 0)),
{
    lemma_shares(head_dim, n_head, n_kv_head, chunk_len, g);
    lemma_in_pieces(p as int, 16, z);
}

/// The same from the position that the buffer holds on. 
/// Sixteen rows share a block of 1024 threads, and up to 64 are taken.
pub proof fn law_launch_attention_splitgqa_rows_qg_devpos(
    k: &AttentionKernels,
    head_dim: usize,
    n_head: usize,
    n_kv_head: usize,
    chunk_len: usize,
    n_chunks: usize,
    p: usize,
    g: int,
    z: int,
    r: Result<LaunchPlan<AttentionKernel>, CudarcKernelError>,
)
    requires
        call_ensures(
            AttentionKernels::launch_attention_splitgqa_rows_qg_devpos,
            (k, head_dim, n_head, n_kv_head, chunk_len, n_chunks, p),
            r,
        ),
        in_pieces(p as int, 16, z),
    ensures
        r is Ok <==> shares_heads(head_dim, n_head, n_kv_head, chunk_len) && head_dim == 256
            && 1 <= p <= 64,
        r matches Err(e) ==> e@ is InvalidArg,
        r is Ok ==> r->Ok_0@.len() == 2,
        r is Ok ==> calls(
                r->Ok_0@[0],
                "attention_decode_splitgqa_partial_rows_qg_f32_devpos"@,
                seq![
                    ("query"@, Arg::Buf(Buffer::Query)),
                    ("key_cache"@, Arg::Buf(Buffer::KeyCache)),
                    ("value_cache"@, Arg::Buf(Buffer::ValueCache)),
                    ("part_m"@, Arg::Buf(Buffer::PartM)),
                    ("part_l"@, Arg::Buf(Buffer::PartL)),
                    ("part_out"@, Arg::Buf(Buffer::PartOut)),
                    ("scale"@, Arg::InvSqrt(head_dim)),
                    ("head_dim"@, int_arg(head_dim as int)),
                    ("n_head"@, int_arg(n_head as int)),
                    ("n_kv_head"@, int_arg(n_kv_head as int)),
                    ("chunk_len"@, int_arg(chunk_len as int)),
                    ("pos_dev"@, Arg::Buf(Buffer::PosDev)),
                    ("p"@, int_arg(p as int)),
                    ("k4"@, Arg::I32(if head_dim >= 128 { k.kf4 } else { 0 })),
                ],
            ),
        r is Ok ==> (n_head == g * n_kv_head ==> shaped(
            r->Ok_0@[0].config,
            n_kv_head as int,
            n_chunks as int,
            z,
            1024,
            33 * head_dim + 16 * g * 32 + 16 * g,
        )),
        r is Ok ==> calls(
                r->Ok_0@[1],
                "attention_decode_split_combine_rows_f32"@,
                seq![
                    ("part_m"@, Arg::Buf(Buffer::PartM)),
                    ("part_l"@, Arg::Buf(Buffer::PartL)),
                    ("part_out"@, Arg::Buf(Buffer::PartOut)),
                    ("attn_out"@, Arg::Buf(Buffer::AttnOut)),
                    ("head_dim"@, int_arg(head_dim as int)),
                    ("n_head"@, int_arg(n_head as int)),
                    ("n_chunks"@, int_arg(n_chunks as int)),
                    ("p"@, int_arg(p as int)),
                ],
            ),
        r is Ok ==> (shaped(r->Ok_0@[1].config, p * n_head, 1, 1, head_dim as int, 0)),
{
    lemma_shares(head_dim, n_head, n_kv_head, chunk_len, g);
    lemma_in_pieces(p as int, 16, z);
}

/// Attention of the rows of a batch reads the query rows, the keys and the values, and
/// the merge reads what it wrote. 
/// Sixteen rows share a block of 1024 threads, and no more are taken.
pub proof fn law_launch_attention_splitgqa_rows_qgma(
    k: &AttentionKernels,
    head_dim: usize,
    n_head: usize,
    n_kv_head: usize,
    chunk_len: usize,
    n_chunks: usize,
    base_pos: usize,
    p: usize,
    g: int,
    z: int,
    r: Result<LaunchPlan<AttentionKernel>, CudarcKernelError>,
)
    requires
        call_ensures(
            AttentionKernels::launch_attention_splitgqa_rows_qgma,
            (k, head_dim, n_head, n_kv_head, chunk_len, n_chunks, base_pos, p),
            r,
        ),
        in_pieces(p as int, 16, z),
    ensures
        r is Ok <==> shares_heads(head_dim, n_head, n_kv_head, chunk_len) && head_dim == 256
            && 1 <= p <= 16,
        r matches Err(e) ==> e@ is InvalidArg,
        r is Ok ==> r->Ok_0@.len() == 2,
        r is Ok ==> calls(
                r->Ok_0@[0],
                "attention_decode_splitgqa_partial_rows_qgma_f32"@,
                seq![
                    ("query"@, Arg::Buf(Buffer::Query)),
                    ("key_cache"@, Arg::Buf(Buffer::KeyCache)),
                    ("value_cache"@, Arg::Buf(Buffer::ValueCache)),
                    ("part_m"@, Arg::Buf(Buffer::PartM)),
                    ("part_l"@, Arg::Buf(Buffer::PartL)),
                    ("part_out"@, Arg::Buf(Buffer::PartOut)),
                    ("scale"@, Arg::InvSqrt(head_dim)),
                    ("head_dim"@, int_arg(head_dim as int)),
                    ("n_head"@, int_arg(n_head as int)),
                    ("n_kv_head"@, int_arg(n_kv_head as int)),
                    ("chunk_len"@, int_arg(chunk_len as int)),
                    ("base_pos"@, int_arg(base_pos as int)),
                    ("p"@, int_arg(p as int)),
                    ("k4"@, Arg::I32(if head_dim >= 128 { k.kf4 } else { 0 })),
                ],
            ),
        r is Ok ==> (n_head == g * n_kv_head ==> shaped(
            r->Ok_0@[0].config,
            n_kv_head as int,
            n_chunks as int,
            z,
            1024,
            33 * head_dim + 16 * g * 32 + 16 * g,
        )),
        r is Ok ==> calls(
                r->Ok_0@[1],
                "attention_decode_split_combine_rows_f32"@,
                seq![
                    ("part_m"@, Arg::Buf(Buffer::PartM)),
                    ("part_l"@, Arg::Buf(Buffer::PartL)),
                    ("part_out"@, Arg::Buf(Buffer::PartOut)),
                    ("attn_out"@, Arg::Buf(Buffer::AttnOut)),
                    ("head_dim"@, int_arg(head_dim as int)),
                    ("n_head"@, int_arg(n_head as int)),
                    ("n_chunks"@, int_arg(n_chunks as int)),
                    ("p"@, int_arg(p as int)),
                ],
            ),
        r is Ok ==> (shaped(r->Ok_0@[1].config, p * n_head, 1, 1, head_dim as int, 0)),
{
    lemma_shares(head_dim, n_head, n_kv_head, chunk_len, g);
    lemma_in_pieces(p as int, 16, z);
}

/// The same from the position that the buffer holds on. 
/// Sixteen rows share a block of 1024 threads, and no more are taken.
pub proof fn law_launch_attention_splitgqa_rows_qgma_devpos(
    k: &AttentionKernels,
    head_dim: usize,
    n_head: usize,
    n_kv_head: usize,
    chunk_len: usize,
    n_chunks: usize,
    p: usize,
    g: int,
    z: int,
    r: Result<LaunchPlan<AttentionKernel>, CudarcKernelError>,
)
    requires
        call_ensures(
            AttentionKernels::launch_attention_splitgqa_rows_qgma_devpos,
            (k, head_dim, n_head, n_kv_head, chunk_len, n_chunks, p),
            r,
        ),
        in_pieces(p as int, 16, z),
    ensures
        r is Ok <==> shares_heads(head_dim, n_head, n_kv_head, chunk_len) && head_dim == 256
            && 1 <= p <= 16,
        r matches Err(e) ==> e@ is InvalidArg,
        r is Ok ==> r->Ok_0@.len() == 2,
        r is Ok ==> calls(
                r->Ok_0@[0],
                "attention_decode_splitgqa_partial_rows_qgma_f32_devpos"@,
                seq![
                    ("query"@, Arg::Buf(Buffer::Query)),
                    ("key_cache"@, Arg::Buf(Buffer::KeyCache)),
                    ("value_cache"@, Arg::Buf(Buffer::ValueCache)),
                    ("part_m"@, Arg::Buf(Buffer::PartM)),
                    ("part_l"@, Arg::Buf(Buffer::PartL)),
                    ("part_out"@, Arg::Buf(Buffer::PartOut)),
                    ("scale"@, Arg::InvSqrt(head_dim)),
                    ("head_dim"@, int_arg(head_dim as int)),
                    ("n_head"@, int_arg(n_head as int)),
                    ("n_kv_head"@, int_arg(n_kv_head as int)),
                    ("chunk_len"@, int_arg(chunk_len as int)),
                    ("pos_dev"@, Arg::Buf(Buffer::PosDev)),
                    ("p"@, int_arg(p as int)),
                    ("k4"@, Arg::I32(if head_dim >= 128 { k.kf4 } else { 0 })),
                ],
            ),
        r is Ok ==> (n_head == g * n_kv_head ==> shaped(
            r->Ok_0@[0].config,
            n_kv_head as int,
            n_chunks as int,
            z,
            1024,
            33 * head_dim + 16 * g * 32 + 16 * g,
        )),
        r is Ok ==> calls(
                r->Ok_0@[1],
                "attention_decode_split_combine_rows_f32"@,
                seq![
                    ("part_m"@, Arg::Buf(Buffer::PartM)),
                    ("part_l"@, Arg::Buf(Buffer::PartL)),
                    ("part_out"@, Arg::Buf(Buffer::PartOut)),
                    ("attn_out"@, Arg::Buf(Buffer::AttnOut)),
                    ("head_dim"@, int_arg(head_dim as int)),
                    ("n_head"@, int_arg(n_head as int)),
                    ("n_chunks"@, int_arg(n_chunks as int)),
                    ("p"@, int_arg(p as int)),
                ],
            ),
        r is Ok ==> (shaped(r->Ok_0@[1].config, p * n_head, 1, 1, head_dim as int, 0)),
{
    lemma_shares(head_dim, n_head, n_kv_head, chunk_len, g);
    lemma_in_pieces(p as int, 16, z);
}

/// The two-pass attention: the statistics pass scores the query rows against the keys,
/// the merge folds its statistics, the value pass scores against the same keys under
/// the merged maximum and sums the values, and the last merge reads what that wrote.
pub proof fn law_launch_attention_verify2p(
    k: &AttentionKernels,
    head_dim: usize,
    n_head: usize,
    n_kv_head: usize,
    chunk_len: usize,
    n_chunks: usize,
    n_stat_tiles: usize,
    base_pos: usize,
    p: usize,
    g: int,
    r: Result<LaunchPlan<AttentionKernel>, CudarcKernelError>,
)
    requires
        call_ensures(
            AttentionKernels::launch_attention_verify2p,
            (k, head_dim, n_head, n_kv_head, chunk_len, n_chunks, n_stat_tiles, base_pos, p),
            r,
        ),
    ensures
        r is Ok <==> shares_heads(head_dim, n_head, n_kv_head, chunk_len) && head_dim == 256
            && 1 <= p <= 16,
        r matches Err(e) ==> e@ is InvalidArg,
        r is Ok ==> r->Ok_0@.len() == 4,
        r is Ok ==> calls(
                r->Ok_0@[0],
                "attention_verify2p_stats_f32"@,
                seq![
                    ("query"@, Arg::Buf(Buffer::Query)),
                    ("key_cache"@, Arg::Buf(Buffer::KeyCache)),
                    ("stat_m"@, Arg::Buf(Buffer::StatM)),
                    ("stat_l"@, Arg::Buf(Buffer::StatL)),
                    ("scale"@, Arg::InvSqrt(head_dim)),
                    ("head_dim"@, int_arg(head_dim as int)),
                    ("n_head"@, int_arg(n_head as int)),
                    ("n_kv_head"@, int_arg(n_kv_head as int)),
                    ("n_tiles"@, int_arg(n_stat_tiles as int)),
                    ("base_pos"@, int_arg(base_pos as int)),
                    ("p"@, int_arg(p as int)),
                ],
            ),
        r is Ok ==> (shaped(
            r->Ok_0@[0].config,
            n_kv_head as int,
            n_stat_tiles as int,
            1,
            1024,
            33 * head_dim,
        )),
        r is Ok ==> calls(
                r->Ok_0@[1],
                "attention_verify2p_merge_f32"@,
                seq![
                    ("stat_m"@, Arg::Buf(Buffer::StatM)),
                    ("stat_l"@, Arg::Buf(Buffer::StatL)),
                    ("mrg_m"@, Arg::Buf(Buffer::MergedM)),
                    ("mrg_l"@, Arg::Buf(Buffer::MergedL)),
                    ("n_head"@, int_arg(n_head as int)),
                    ("n_kv_head"@, int_arg(n_kv_head as int)),
                    ("n_tiles"@, int_arg(n_stat_tiles as int)),
                    ("p"@, int_arg(p as int)),
                ],
            ),
        r is Ok ==> (shaped(r->Ok_0@[1].config, n_kv_head as int, 1, 1, 128, 0)),
        r is Ok ==> calls(
                r->Ok_0@[2],
                "attention_verify2p_pv_f32"@,
                seq![
                    ("query"@, Arg::Buf(Buffer::Query)),
                    ("key_cache"@, Arg::Buf(Buffer::KeyCache)),
                    ("value_cache"@, Arg::Buf(Buffer::ValueCache)),
                    ("mrg_m"@, Arg::Buf(Buffer::MergedM)),
                    ("part_m"@, Arg::Buf(Buffer::PartM)),
                    ("part_l"@, Arg::Buf(Buffer::PartL)),
                    ("part_out"@, Arg::Buf(Buffer::PartOut)),
                    ("scale"@, Arg::InvSqrt(head_dim)),
                    ("head_dim"@, int_arg(head_dim as int)),
                    ("n_head"@, int_arg(n_head as int)),
                    ("n_kv_head"@, int_arg(n_kv_head as int)),
                    ("chunk_len"@, int_arg(chunk_len as int)),
                    ("base_pos"@, int_arg(base_pos as int)),
                    ("p"@, int_arg(p as int)),
                ],
            ),
        r is Ok ==> (n_head == g * n_kv_head ==> shaped(
            r->Ok_0@[2].config,
            n_kv_head as int,
            n_chunks as int,
            1,
            1024,
            33 * head_dim + 16 * g * 32,
        )),
        r is Ok ==> calls(
                r->Ok_0@[3],
                "attention_decode_split_combine_rows_f32"@,
                seq![
                    ("part_m"@, Arg::Buf(Buffer::PartM)),
                    ("part_l"@, Arg::Buf(Buffer::PartL)),
                    ("part_out"@, Arg::Buf(Buffer::PartOut)),
                    ("attn_out"@, Arg::Buf(Buffer::AttnOut)),
                    ("head_dim"@, int_arg(head_dim as int)),
                    ("n_head"@, int_arg(n_head as int)),
                    ("n_chunks"@, int_arg(n_chunks as int)),
                    ("p"@, int_arg(p as int)),
                ],
            ),
        r is Ok ==> (shaped(r->Ok_0@[3].config, p * n_head, 1, 1, head_dim as int, 0)),
{
    lemma_shares(head_dim, n_head, n_kv_head, chunk_len, g);
}

/// The two-pass attention from the position that the buffer holds on.
pub proof fn law_launch_attention_verify2p_devpos(
    k: &AttentionKernels,
    head_dim: usize,
    n_head: usize,
    n_kv_head: usize,
    chunk_len: usize,
    n_chunks: usize,
    n_stat_tiles: usize,
    p: usize,
    g: int,
    r: Result<LaunchPlan<AttentionKernel>, CudarcKernelError>,
)
    requires
        call_ensures(
            AttentionKernels::launch_attention_verify2p_devpos,
            (k, head_dim, n_head, n_kv_head, chunk_len, n_chunks, n_stat_tiles, p),
            r,
        ),
    ensures
        r is Ok <==> shares_heads(head_dim, n_head, n_kv_head, chunk_len) && head_dim == 256
            && 1 <= p <= 16,
        r matches Err(e) ==> e@ is InvalidArg,
        r is Ok ==> r->Ok_0@.len() == 4,
        r is Ok ==> calls(
                r->Ok_0@[0],
                "attention_verify2p_stats_f32_devpos"@,
                seq![
                    ("query"@, Arg::Buf(Buffer::Query)),
                    ("key_cache"@, Arg::Buf(Buffer::KeyCache)),
                    ("stat_m"@, Arg::Buf(Buffer::StatM)),
                    ("stat_l"@, Arg::Buf(Buffer::StatL)),
                    ("scale"@, Arg::InvSqrt(head_dim)),
                    ("head_dim"@, int_arg(head_dim as int)),
                    ("n_head"@, int_arg(n_head as int)),
                    ("n_kv_head"@, int_arg(n_kv_head as int)),
                    ("n_tiles"@, int_arg(n_stat_tiles as int)),
                    ("pos_dev"@, Arg::Buf(Buffer::PosDev)),
                    ("p"@, int_arg(p as int)),
                ],
            ),
        r is Ok ==> (shaped(
            r->Ok_0@[0].config,
            n_kv_head as int,
            n_stat_tiles as int,
            1,
            1024,
            33 * head_dim,
        )),
        r is Ok ==> calls(
                r->Ok_0@[1],
                "attention_verify2p_merge_f32"@,
                seq![
                    ("stat_m"@, Arg::Buf(Buffer::StatM)),
                    ("stat_l"@, Arg::Buf(Buffer::StatL)),
                    ("mrg_m"@, Arg::Buf(Buffer::MergedM)),
                    ("mrg_l"@, Arg::Buf(Buffer::MergedL)),
                    ("n_head"@, int_arg(n_head as int)),
                    ("n_kv_head"@, int_arg(n_kv_head as int)),
                    ("n_tiles"@, int_arg(n_stat_tiles as int)),
                    ("p"@, int_arg(p as int)),
                ],
            ),
        r is Ok ==> (shaped(r->Ok_0@[1].config, n_kv_head as int, 1, 1, 128, 0)),
        r is Ok ==> calls(
                r->Ok_0@[2],
                "attention_verify2p_pv_f32_devpos"@,
                seq![
                    ("query"@, Arg::Buf(Buffer::Query)),
                    ("key_cache"@, Arg::Buf(Buffer::KeyCache)),
                    ("value_cache"@, Arg::Buf(Buffer::ValueCache)),
                    ("mrg_m"@, Arg::Buf(Buffer::MergedM)),
                    ("part_m"@, Arg::Buf(Buffer::PartM)),
                    ("part_l"@, Arg::Buf(Buffer::PartL)),
                    ("part_out"@, Arg::Buf(Buffer::PartOut)),
                    ("scale"@, Arg::InvSqrt(head_dim)),
                    ("head_dim"@, int_arg(head_dim as int)),
                    ("n_head"@, int_arg(n_head as int)),
                    ("n_kv_head"@, int_arg(n_kv_head as int)),
                    ("chunk_len"@, int_arg(chunk_len as int)),
                    ("pos_dev"@, Arg::Buf(Buffer::PosDev)),
                    ("p"@, int_arg(p as int)),
                ],
            ),
        r is Ok ==> (n_head == g * n_kv_head ==> shaped(
            r->Ok_0@[2].config,
            n_kv_head as int,
            n_chunks as int,
            1,
            1024,
            33 * head_dim + 16 * g * 32,
        )),
        r is Ok ==> calls(
                r->Ok_0@[3],
                "attention_decode_split_combine_rows_f32"@,
                seq![
                    ("part_m"@, Arg::Buf(Buffer::PartM)),
                    ("part_l"@, Arg::Buf(Buffer::PartL)),
                    ("part_out"@, Arg::Buf(Buffer::PartOut)),
                    ("attn_out"@, Arg::Buf(Buffer::AttnOut)),
                    ("head_dim"@, int_arg(head_dim as int)),
                    ("n_head"@, int_arg(n_head as int)),
                    ("n_chunks"@, int_arg(n_chunks as int)),
                    ("p"@, int_arg(p as int)),
                ],
            ),
        r is Ok ==> (shaped(r->Ok_0@[3].config, p * n_head, 1, 1, head_dim as int, 0)),
{
    lemma_shares(head_dim, n_head, n_kv_head, chunk_len, g);
}

} // verus!
