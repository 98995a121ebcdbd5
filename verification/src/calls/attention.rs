//! What each attention launch of one row calls.

use vstd::prelude::*;
use crate::attention::{AttentionKernel, AttentionKernels};
use crate::calls::{
    a_thread_each, in_chunks, lemma_a_thread_each, lemma_in_chunks, lemma_shares, shaped,
    shares_heads,
};
use crate::error::CudarcKernelError;
use crate::geometry::{int_arg, low_u32};
use crate::launch::{Arg, Buffer, LaunchPlan, Real};
use crate::sources::calls;

verus! {

/// Rotary embedding turns the queries and the keys, at the position given, with a
/// thread for every pair of lanes of a query head.
pub proof fn law_launch_rope(
    k: &AttentionKernels,
    rotary_dim: usize,
    head_dim: usize,
    n_head: usize,
    n_kv_head: usize,
    pos: usize,
    r: LaunchPlan<AttentionKernel>,
)
    requires
        call_ensures(
            AttentionKernels::launch_rope,
            (k, rotary_dim, head_dim, n_head, n_kv_head, pos),
            r,
        ),
    ensures
        r@.len() == 1,
        calls(
                r@[0],
                "rope_partial_f32"@,
                seq![
                    ("q"@, Arg::Buf(Buffer::Q)),
                    ("k"@, Arg::Buf(Buffer::K)),
                    ("rotary_dim"@, int_arg(rotary_dim as int)),
                    ("head_dim"@, int_arg(head_dim as int)),
                    ("n_head"@, int_arg(n_head as int)),
                    ("n_kv_head"@, int_arg(n_kv_head as int)),
                    ("pos"@, int_arg(pos as int)),
                    ("theta_base"@, Arg::Real(Real::ThetaBase)),
                ],
            ),
        a_thread_each(r@[0].config, low_u32(n_head * (rotary_dim / 2) as int) as int),
{
    lemma_a_thread_each(n_head * (rotary_dim / 2) as int);
}

/// The backward pass turns the gradients of the queries and the keys.
pub proof fn law_launch_rope_backward(
    k: &AttentionKernels,
    rotary_dim: usize,
    head_dim: usize,
    n_head: usize,
    n_kv_head: usize,
    pos: usize,
    r: LaunchPlan<AttentionKernel>,
)
    requires
        call_ensures(
            AttentionKernels::launch_rope_backward,
            (k, rotary_dim, head_dim, n_head, n_kv_head, pos),
            r,
        ),
    ensures
        r@.len() == 1,
        calls(
                r@[0],
                "rope_partial_backward_f32"@,
                seq![
                    ("grad_q"@, Arg::Buf(Buffer::GradQ)),
                    ("grad_k"@, Arg::Buf(Buffer::GradK)),
                    ("rotary_dim"@, int_arg(rotary_dim as int)),
                    ("head_dim"@, int_arg(head_dim as int)),
                    ("n_head"@, int_arg(n_head as int)),
                    ("n_kv_head"@, int_arg(n_kv_head as int)),
                    ("pos"@, int_arg(pos as int)),
                    ("theta_base"@, Arg::Real(Real::ThetaBase)),
                ],
            ),
        a_thread_each(r@[0].config, low_u32(n_head * (rotary_dim / 2) as int) as int),
{
    lemma_a_thread_each(n_head * (rotary_dim / 2) as int);
}

/// Rotary embedding at the position that the buffer holds.
pub proof fn law_launch_rope_devpos(
    k: &AttentionKernels,
    rotary_dim: usize,
    head_dim: usize,
    n_head: usize,
    n_kv_head: usize,
    r: LaunchPlan<AttentionKernel>,
)
    requires
        call_ensures(
            AttentionKernels::launch_rope_devpos,
            (k, rotary_dim, head_dim, n_head, n_kv_head),
            r,
        ),
    ensures
        r@.len() == 1,
        calls(
                r@[0],
                "rope_partial_f32_devpos"@,
                seq![
                    ("q"@, Arg::Buf(Buffer::Q)),
                    ("k"@, Arg::Buf(Buffer::K)),
                    ("rotary_dim"@, int_arg(rotary_dim as int)),
                    ("head_dim"@, int_arg(head_dim as int)),
                    ("n_head"@, int_arg(n_head as int)),
                    ("n_kv_head"@, int_arg(n_kv_head as int)),
                    ("pos_dev"@, Arg::Buf(Buffer::PosDev)),
                    ("theta_base"@, Arg::Real(Real::ThetaBase)),
                ],
            ),
        a_thread_each(r@[0].config, low_u32(n_head * (rotary_dim / 2) as int) as int),
{
    lemma_a_thread_each(n_head * (rotary_dim / 2) as int);
}

/// The query/gate rows are read, queries and gates are written.
pub proof fn law_launch_split_qg(
    k: &AttentionKernels,
    head_dim: usize,
    n_head: usize,
    r: LaunchPlan<AttentionKernel>,
)
    requires
        call_ensures(AttentionKernels::launch_split_qg, (k, head_dim, n_head), r),
    ensures
        r@.len() == 1,
        calls(
                r@[0],
                "split_qg_f32"@,
                seq![
                    ("qg"@, Arg::Buf(Buffer::Qg)),
                    ("q"@, Arg::Buf(Buffer::Q)),
                    ("gate"@, Arg::Buf(Buffer::Gate)),
                    ("head_dim"@, int_arg(head_dim as int)),
                    ("n_head"@, int_arg(n_head as int)),
                ],
            ),
        a_thread_each(r@[0].config, low_u32(n_head * head_dim as int) as int),
{
    lemma_a_thread_each(n_head * head_dim as int);
}

/// A block of 256 threads per head, with a float of shared memory each; the mean is
/// over the lanes of a head.
pub proof fn law_launch_rmsnorm_batched(
    k: &AttentionKernels,
    n_batch: usize,
    head_dim: usize,
    r: LaunchPlan<AttentionKernel>,
)
    requires
        call_ensures(AttentionKernels::launch_rmsnorm_batched, (k, n_batch, head_dim), r),
    ensures
        r@.len() == 1,
        calls(
                r@[0],
                "rmsnorm_batched_f32"@,
                seq![
                    ("input"@, Arg::Buf(Buffer::Input)),
                    ("gamma"@, Arg::Buf(Buffer::Gamma)),
                    ("output"@, Arg::Buf(Buffer::Output)),
                    ("inv_dim"@, Arg::Recip(head_dim)),
                    ("eps"@, Arg::Real(Real::Eps)),
                    ("head_dim"@, int_arg(head_dim as int)),
                ],
            ),
        shaped(r@[0].config, n_batch as int, 1, 1, 256, 256),
{
}

/// The key row goes to the key cache and the value row to the value cache.
pub proof fn law_launch_kv_cache_append(
    k: &AttentionKernels,
    kvd: usize,
    pos: usize,
    r: LaunchPlan<AttentionKernel>,
)
    requires
        call_ensures(AttentionKernels::launch_kv_cache_append, (k, kvd, pos), r),
    ensures
        r@.len() == 1,
        calls(
                r@[0],
                "kv_cache_append_f32"@,
                seq![
                    ("k_vec"@, Arg::Buf(Buffer::KVec)),
                    ("v_vec"@, Arg::Buf(Buffer::VVec)),
                    ("key_cache"@, Arg::Buf(Buffer::KeyCache)),
                    ("value_cache"@, Arg::Buf(Buffer::ValueCache)),
                    ("kvd"@, int_arg(kvd as int)),
                    ("pos"@, int_arg(pos as int)),
                ],
            ),
        a_thread_each(r@[0].config, low_u32(kvd as int) as int),
{
    lemma_a_thread_each(kvd as int);
}

/// The key row goes to the key cache and the value row to the value cache, at the row
/// that the buffer holds.
pub proof fn law_launch_kv_cache_append_devpos(
    k: &AttentionKernels,
    kvd: usize,
    r: LaunchPlan<AttentionKernel>,
)
    requires
        call_ensures(AttentionKernels::launch_kv_cache_append_devpos, (k, kvd), r),
    ensures
        r@.len() == 1,
        calls(
                r@[0],
                "kv_cache_append_f32_devpos"@,
                seq![
                    ("k_vec"@, Arg::Buf(Buffer::KVec)),
                    ("v_vec"@, Arg::Buf(Buffer::VVec)),
                    ("key_cache"@, Arg::Buf(Buffer::KeyCache)),
                    ("value_cache"@, Arg::Buf(Buffer::ValueCache)),
                    ("kvd"@, int_arg(kvd as int)),
                    ("pos_dev"@, Arg::Buf(Buffer::PosDev)),
                ],
            ),
        a_thread_each(r@[0].config, low_u32(kvd as int) as int),
{
    lemma_a_thread_each(kvd as int);
}

/// Decode attention scores the query against the keys, scaled by the inverse square
/// root of the head dimension, and sums the values: a block per query head, a thread
/// per lane.
pub proof fn law_launch_attention_decode(
    k: &AttentionKernels,
    head_dim: usize,
    n_head: usize,
    n_kv_head: usize,
    n_positions: usize,
    r: LaunchPlan<AttentionKernel>,
)
    requires
        call_ensures(
            AttentionKernels::launch_attention_decode,
            (k, head_dim, n_head, n_kv_head, n_positions),
            r,
        ),
    ensures
        r@.len() == 1,
        calls(
                r@[0],
                "attention_decode_f32"@,
                seq![
                    ("query"@, Arg::Buf(Buffer::Query)),
                    ("key_cache"@, Arg::Buf(Buffer::KeyCache)),
                    ("value_cache"@, Arg::Buf(Buffer::ValueCache)),
                    ("attn_out"@, Arg::Buf(Buffer::AttnOut)),
                    ("scale"@, Arg::InvSqrt(head_dim)),
                    ("head_dim"@, int_arg(head_dim as int)),
                    ("n_head"@, int_arg(n_head as int)),
                    ("n_kv_head"@, int_arg(n_kv_head as int)),
                    ("n_positions"@, int_arg(n_positions as int)),
                ],
            ),
        shaped(r@[0].config, n_head as int, 1, 1, head_dim as int, head_dim as int),
{
}

/// Decode attention up to the position that the buffer holds.
pub proof fn law_launch_attention_decode_devpos(
    k: &AttentionKernels,
    head_dim: usize,
    n_head: usize,
    n_kv_head: usize,
    r: LaunchPlan<AttentionKernel>,
)
    requires
        call_ensures(
            AttentionKernels::launch_attention_decode_devpos,
            (k, head_dim, n_head, n_kv_head),
            r,
        ),
    ensures
        r@.len() == 1,
        calls(
                r@[0],
                "attention_decode_f32_devpos"@,
                seq![
                    ("query"@, Arg::Buf(Buffer::Query)),
                    ("key_cache"@, Arg::Buf(Buffer::KeyCache)),
                    ("value_cache"@, Arg::Buf(Buffer::ValueCache)),
                    ("attn_out"@, Arg::Buf(Buffer::AttnOut)),
                    ("scale"@, Arg::InvSqrt(head_dim)),
                    ("head_dim"@, int_arg(head_dim as int)),
                    ("n_head"@, int_arg(n_head as int)),
                    ("n_kv_head"@, int_arg(n_kv_head as int)),
                    ("pos_dev"@, Arg::Buf(Buffer::PosDev)),
                ],
            ),
        shaped(r@[0].config, n_head as int, 1, 1, head_dim as int, head_dim as int),
{
}

/// The split attention reads what plain decode attention reads, chunk by chunk, and
/// the merge reads what the split wrote. There are as many chunks as it takes to hold
/// the positions.
pub proof fn law_launch_attention_decode_split(
    k: &AttentionKernels,
    head_dim: usize,
    n_head: usize,
    n_kv_head: usize,
    chunk_len: usize,
    n_positions: usize,
    chunks: int,
    r: LaunchPlan<AttentionKernel>,
)
    requires
        call_ensures(
            AttentionKernels::launch_attention_decode_split,
            (k, head_dim, n_head, n_kv_head, chunk_len, n_positions),
            r,
        ),
        chunk_len > 0,
        in_chunks(n_positions as int, chunk_len as int, chunks),
    ensures
        r@.len() == 2,
        calls(
                r@[0],
                "attention_decode_split_partial_f32"@,
                seq![
                    ("query"@, Arg::Buf(Buffer::Query)),
                    ("key_cache"@, Arg::Buf(Buffer::KeyCache)),
                    ("value_cache"@, Arg::Buf(Buffer::ValueCache)),
                    ("part_m"@, Arg::Buf(Buffer::PartM)),
                    ("part_l"@, Arg::Buf(Buffer::PartL)),
                    ("part_out"@, Arg::Buf(Buffer::PartOut)),
                    ("scale"@, Arg::InvSqrt(head_dim)),
                    ("head_dim"@, int_arg(head_dim as int)),
                    ("n_head"@, int_arg(n_head as int)),
                    ("n_kv_head"@, int_arg(n_kv_head as int)),
                    ("chunk_len"@, int_arg(chunk_len as int)),
                    ("n_positions"@, int_arg(n_positions as int)),
                ],
            ),
        shaped(r@[0].config, n_head as int, chunks as int, 1, head_dim as int, head_dim as int),
        calls(
                r@[1],
                "attention_decode_split_combine_f32"@,
                seq![
                    ("part_m"@, Arg::Buf(Buffer::PartM)),
                    ("part_l"@, Arg::Buf(Buffer::PartL)),
                    ("part_out"@, Arg::Buf(Buffer::PartOut)),
                    ("attn_out"@, Arg::Buf(Buffer::AttnOut)),
                    ("head_dim"@, int_arg(head_dim as int)),
                    ("n_chunks"@, int_arg(chunks)),
                ],
            ),
        shaped(r@[1].config, n_head as int, 1, 1, head_dim as int, 0),
{
    lemma_in_chunks(n_positions, chunk_len, chunks);
}

/// The split attention up to the position that the buffer holds.
pub proof fn law_launch_attention_decode_split_devpos(
    k: &AttentionKernels,
    head_dim: usize,
    n_head: usize,
    n_kv_head: usize,
    chunk_len: usize,
    n_chunks_max: usize,
    r: LaunchPlan<AttentionKernel>,
)
    requires
        call_ensures(
            AttentionKernels::launch_attention_decode_split_devpos,
            (k, head_dim, n_head, n_kv_head, chunk_len, n_chunks_max),
            r,
        ),
    ensures
        r@.len() == 2,
        calls(
                r@[0],
                "attention_decode_split_partial_f32_devpos"@,
                seq![
                    ("query"@, Arg::Buf(Buffer::Query)),
                    ("key_cache"@, Arg::Buf(Buffer::KeyCache)),
                    ("value_cache"@, Arg::Buf(Buffer::ValueCache)),
                    ("part_m"@, Arg::Buf(Buffer::PartM)),
                    ("part_l"@, Arg::Buf(Buffer::PartL)),
                    ("part_out"@, Arg::Buf(Buffer::PartOut)),
                    ("scale"@, Arg::InvSqrt(head_dim)),
                    ("head_dim"@, int_arg(head_dim as int)),
                    ("n_head"@, int_arg(n_head as int)),
                    ("n_kv_head"@, int_arg(n_kv_head as int)),
                    ("chunk_len"@, int_arg(chunk_len as int)),
                    ("pos_dev"@, Arg::Buf(Buffer::PosDev)),
                ],
            ),
        shaped(
            r@[0].config,
            n_head as int,
            n_chunks_max as int,
            1,
            head_dim as int,
            head_dim as int,
        ),
        calls(
                r@[1],
                "attention_decode_split_combine_f32"@,
                seq![
                    ("part_m"@, Arg::Buf(Buffer::PartM)),
                    ("part_l"@, Arg::Buf(Buffer::PartL)),
                    ("part_out"@, Arg::Buf(Buffer::PartOut)),
                    ("attn_out"@, Arg::Buf(Buffer::AttnOut)),
                    ("head_dim"@, int_arg(head_dim as int)),
                    ("n_chunks"@, int_arg(n_chunks_max as int)),
                ],
            ),
        shaped(r@[1].config, n_head as int, 1, 1, head_dim as int, 0),
{
}

/// The shared-head split reads what plain decode attention reads. A block serves the
/// `g` query heads of a K/V head: its shared memory holds their queries, a tile of keys
/// with one column of padding, and their probabilities and rescales.
pub proof fn law_launch_attention_decode_split_gqa(
    k: &AttentionKernels,
    head_dim: usize,
    n_head: usize,
    n_kv_head: usize,
    chunk_len: usize,
    n_positions: usize,
    chunks: int,
    g: int,
    r: Result<LaunchPlan<AttentionKernel>, CudarcKernelError>,
)
    requires
        call_ensures(
            AttentionKernels::launch_attention_decode_split_gqa,
            (k, head_dim, n_head, n_kv_head, chunk_len, n_positions),
            r,
        ),
        chunk_len > 0,
        in_chunks(n_positions as int, chunk_len as int, chunks),
    ensures
        r is Ok <==> shares_heads(head_dim, n_head, n_kv_head, chunk_len),
        r matches Err(e) ==> e@ is InvalidArg,
        r is Ok ==> r->Ok_0@.len() == 2,
        r is Ok ==> calls(
                r->Ok_0@[0],
                "attention_decode_splitgqa_partial_f32"@,
                seq![
                    ("query"@, Arg::Buf(Buffer::Query)),
                    ("key_cache"@, Arg::Buf(Buffer::KeyCache)),
                    ("value_cache"@, Arg::Buf(Buffer::ValueCache)),
                    ("part_m"@, Arg::Buf(Buffer::PartM)),
                    ("part_l"@, Arg::Buf(Buffer::PartL)),
                    ("part_out"@, Arg::Buf(Buffer::PartOut)),
                    ("scale"@, Arg::InvSqrt(head_dim)),
                    ("head_dim"@, int_arg(head_dim as int)),
                    ("n_head"@, int_arg(n_head as int)),
                    ("n_kv_head"@, int_arg(n_kv_head as int)),
                    ("chunk_len"@, int_arg(chunk_len as int)),
                    ("n_positions"@, int_arg(n_positions as int)),
                ],
            ),
        r is Ok ==> (n_head == g * n_kv_head ==> shaped(
            r->Ok_0@[0].config,
            n_kv_head as int,
            chunks as int,
            1,
            256,
            g * head_dim + 33 * head_dim + 32 * g + g,
        )),
        r is Ok ==> calls(
                r->Ok_0@[1],
                "attention_decode_split_combine_f32"@,
                seq![
                    ("part_m"@, Arg::Buf(Buffer::PartM)),
                    ("part_l"@, Arg::Buf(Buffer::PartL)),
                    ("part_out"@, Arg::Buf(Buffer::PartOut)),
                    ("attn_out"@, Arg::Buf(Buffer::AttnOut)),
                    ("head_dim"@, int_arg(head_dim as int)),
                    ("n_chunks"@, int_arg(chunks)),
                ],
            ),
        r is Ok ==> (shaped(r->Ok_0@[1].config, n_head as int, 1, 1, head_dim as int, 0)),
{
    lemma_in_chunks(n_positions, chunk_len, chunks);
    lemma_shares(head_dim, n_head, n_kv_head, chunk_len, g);
    assert(1 <= g <= 8 && 1 <= head_dim <= 256 ==> 0 <= g * head_dim <= 2048) by (nonlinear_arith);
}

/// The shared-head split up to the position that the buffer holds.
pub proof fn law_launch_attention_decode_split_gqa_devpos(
    k: &AttentionKernels,
    head_dim: usize,
    n_head: usize,
    n_kv_head: usize,
    chunk_len: usize,
    n_chunks_max: usize,
    g: int,
    r: Result<LaunchPlan<AttentionKernel>, CudarcKernelError>,
)
    requires
        call_ensures(
            AttentionKernels::launch_attention_decode_split_gqa_devpos,
            (k, head_dim, n_head, n_kv_head, chunk_len, n_chunks_max),
            r,
        ),
    ensures
        r is Ok <==> shares_heads(head_dim, n_head, n_kv_head, chunk_len),
        r matches Err(e) ==> e@ is InvalidArg,
        r is Ok ==> r->Ok_0@.len() == 2,
        r is Ok ==> calls(
                r->Ok_0@[0],
                "attention_decode_splitgqa_partial_f32_devpos"@,
                seq![
                    ("query"@, Arg::Buf(Buffer::Query)),
                    ("key_cache"@, Arg::Buf(Buffer::KeyCache)),
                    ("value_cache"@, Arg::Buf(Buffer::ValueCache)),
                    ("part_m"@, Arg::Buf(Buffer::PartM)),
                    ("part_l"@, Arg::Buf(Buffer::PartL)),
                    ("part_out"@, Arg::Buf(Buffer::PartOut)),
                    ("scale"@, Arg::InvSqrt(head_dim)),
                    ("head_dim"@, int_arg(head_dim as int)),
                    ("n_head"@, int_arg(n_head as int)),
                    ("n_kv_head"@, int_arg(n_kv_head as int)),
                    ("chunk_len"@, int_arg(chunk_len as int)),
                    ("pos_dev"@, Arg::Buf(Buffer::PosDev)),
                ],
            ),
        r is Ok ==> (n_head == g * n_kv_head ==> shaped(
            r->Ok_0@[0].config,
            n_kv_head as int,
            n_chunks_max as int,
            1,
            256,
            g * head_dim + 33 * head_dim + 32 * g + g,
        )),
        r is Ok ==> calls(
                r->Ok_0@[1],
                "attention_decode_split_combine_f32"@,
                seq![
                    ("part_m"@, Arg::Buf(Buffer::PartM)),
                    ("part_l"@, Arg::Buf(Buffer::PartL)),
                    ("part_out"@, Arg::Buf(Buffer::PartOut)),
                    ("attn_out"@, Arg::Buf(Buffer::AttnOut)),
                    ("head_dim"@, int_arg(head_dim as int)),
                    ("n_chunks"@, int_arg(n_chunks_max as int)),
                ],
            ),
        r is Ok ==> (shaped(r->Ok_0@[1].config, n_head as int, 1, 1, head_dim as int, 0)),
{
    lemma_shares(head_dim, n_head, n_kv_head, chunk_len, g);
    assert(1 <= g <= 8 && 1 <= head_dim <= 256 ==> 0 <= g * head_dim <= 2048) by (nonlinear_arith);
}

/// The attention output is gated in place.
pub proof fn law_launch_output_gate(
    k: &AttentionKernels,
    n: usize,
    r: LaunchPlan<AttentionKernel>,
)
    requires
        call_ensures(AttentionKernels::launch_output_gate, (k, n), r),
    ensures
        r@.len() == 1,
        calls(
                r@[0],
                "output_gate_f32"@,
                seq![
                    ("attn_out"@, Arg::Buf(Buffer::AttnOut)),
                    ("gate"@, Arg::Buf(Buffer::Gate)),
                    ("n"@, int_arg(n as int)),
                ],
            ),
        a_thread_each(r@[0].config, low_u32(n as int) as int),
{
    lemma_a_thread_each(n as int);
}

} // verus!
