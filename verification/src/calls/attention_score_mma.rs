//! What each launch of the score kernels calls.

use vstd::prelude::*;
use crate::attention_score_mma::{AttentionScoreMmaKernels, ScoreMmaKernel};
use crate::calls::{in_pieces, lemma_in_pieces, lemma_shares, shaped, shares_heads};
use crate::error::CudarcKernelError;
use crate::geometry::int_arg;
use crate::launch::{Arg, Buffer, LaunchPlan};
use crate::sources::calls;

verus! {

/// The scores of the query rows against the keys, and the sums of the values, by the
/// kernel of the tiling that is asked for.
pub proof fn law_launch_splitgqa_rows_qg_mma(
    k: &AttentionScoreMmaKernels,
    arm24: bool,
    head_dim: usize,
    n_head: usize,
    n_kv_head: usize,
    chunk_len: usize,
    n_chunks: usize,
    base_pos: usize,
    p: usize,
    g: int,
    z: int,
    r: Result<LaunchPlan<ScoreMmaKernel>, CudarcKernelError>,
)
    requires
        call_ensures(
            AttentionScoreMmaKernels::launch_splitgqa_rows_qg_mma,
            (k, arm24, head_dim, n_head, n_kv_head, chunk_len, n_chunks, base_pos, p),
            r,
        ),
        in_pieces(p as int, 16, z),
    ensures
        r is Ok <==> shares_heads(head_dim, n_head, n_kv_head, chunk_len) && head_dim == 256
            && 1 <= p <= 64,
        r matches Err(e) ==> e@ is InvalidArg,
        r is Ok ==> r->Ok_0@.len() == 2,
        r is Ok ==> calls(
                r->Ok_0@[0],
                if arm24 {
                    "attention_decode_splitgqa_partial_rows_qg_mma24_f32"@
                } else {
                    "attention_decode_splitgqa_partial_rows_qg_mma_f32"@
                },
                seq![
                    ("query"@, Arg::Buf(Buffer::Query)),
                    ("key_cache"@, Arg::Buf(Buffer::KeyCache)),
                    ("value_cache"@, Arg::Buf(Buffer::ValueCache)),
                    ("part_m"@, Arg::Buf(Buffer::PartM)),
                    ("part_l"@, Arg::Buf(Buffer::PartL)),
                    ("part_out"@, Arg::Buf(Buffer::PartOut)),
                    ("scale"@, Arg::InvSqrt(head_dim)),
                    ("head_dim"@, int_arg(head_dim as int)),
                    ("n_head"@, int_arg(n_head as int)),
                    ("n_kv_head"@, int_arg(n_kv_head as int)),
                    ("chunk_len"@, int_arg(chunk_len as int)),
                    ("base_pos"@, int_arg(base_pos as int)),
                    ("p"@, int_arg(p as int)),
                ],
            ),
        r is Ok ==> (n_head == g * n_kv_head ==> shaped(
            r->Ok_0@[0].config,
            n_kv_head as int,
            n_chunks as int,
            z,
            1024,
            33 * head_dim + 16 * g * 32 + 16 * g + if arm24 { 2 * (g * 2 * 8 * 4) } else { 0 },
        )),
        r is Ok ==> calls(
                r->Ok_0@[1],
                "attention_decode_split_combine_rows_f32"@,
                seq![
                    ("part_m"@, Arg::Buf(Buffer::PartM)),
                    ("part_l"@, Arg::Buf(Buffer::PartL)),
                    ("part_out"@, Arg::Buf(Buffer::PartOut)),
                    ("attn_out"@, Arg::Buf(Buffer::AttnOut)),
                    ("head_dim"@, int_arg(head_dim as int)),
                    ("n_head"@, int_arg(n_head as int)),
                    ("n_chunks"@, int_arg(n_chunks as int)),
                    ("p"@, int_arg(p as int)),
                ],
            ),
        r is Ok ==> (shaped(r->Ok_0@[1].config, p * n_head, 1, 1, head_dim as int, 0)),
{
    lemma_shares(head_dim, n_head, n_kv_head, chunk_len, g);
    lemma_in_pieces(p as int, 16, z);
}

/// The same from the position that the buffer holds on.
pub proof fn law_launch_splitgqa_rows_qg_mma_devpos(
    k: &AttentionScoreMmaKernels,
    arm24: bool,
    head_dim: usize,
    n_head: usize,
    n_kv_head: usize,
    chunk_len: usize,
    n_chunks: usize,
    p: usize,
    g: int,
    z: int,
    r: Result<LaunchPlan<ScoreMmaKernel>, CudarcKernelError>,
)
    requires
        call_ensures(
            AttentionScoreMmaKernels::launch_splitgqa_rows_qg_mma_devpos,
            (k, arm24, head_dim, n_head, n_kv_head, chunk_len, n_chunks, p),
            r,
        ),
        in_pieces(p as int, 16, z),
    ensures
        r is Ok <==> shares_heads(head_dim, n_head, n_kv_head, chunk_len) && head_dim == 256
            && 1 <= p <= 64,
        r matches Err(e) ==> e@ is InvalidArg,
        r is Ok ==> r->Ok_0@.len() == 2,
        r is Ok ==> calls(
                r->Ok_0@[0],
                if arm24 {
                    "attention_decode_splitgqa_partial_rows_qg_mma24_f32_devpos"@
                } else {
                    "attention_decode_splitgqa_partial_rows_qg_mma_f32_devpos"@
                },
                seq![
                    ("query"@, Arg::Buf(Buffer::Query)),
                    ("key_cache"@, Arg::Buf(Buffer::KeyCache)),
                    ("value_cache"@, Arg::Buf(Buffer::ValueCache)),
                    ("part_m"@, Arg::Buf(Buffer::PartM)),
                    ("part_l"@, Arg::Buf(Buffer::PartL)),
                    ("part_out"@, Arg::Buf(Buffer::PartOut)),
                    ("scale"@, Arg::InvSqrt(head_dim)),
                    ("head_dim"@, int_arg(head_dim as int)),
                    ("n_head"@, int_arg(n_head as int)),
                    ("n_kv_head"@, int_arg(n_kv_head as int)),
                    ("chunk_len"@, int_arg(chunk_len as int)),
                    ("pos_dev"@, Arg::Buf(Buffer::PosDev)),
                    ("p"@, int_arg(p as int)),
                ],
            ),
        r is Ok ==> (n_head == g * n_kv_head ==> shaped(
            r->Ok_0@[0].config,
            n_kv_head as int,
            n_chunks as int,
            z,
            1024,
            33 * head_dim + 16 * g * 32 + 16 * g + if arm24 { 2 * (g * 2 * 8 * 4) } else { 0 },
        )),
        r is Ok ==> calls(
                r->Ok_0@[1],
                "attention_decode_split_combine_rows_f32"@,
                seq![
                    ("part_m"@, Arg::Buf(Buffer::PartM)),
                    ("part_l"@, Arg::Buf(Buffer::PartL)),
                    ("part_out"@, Arg::Buf(Buffer::PartOut)),
                    ("attn_out"@, Arg::Buf(Buffer::AttnOut)),
                    ("head_dim"@, int_arg(head_dim as int)),
                    ("n_head"@, int_arg(n_head as int)),
                    ("n_chunks"@, int_arg(n_chunks as int)),
                    ("p"@, int_arg(p as int)),
                ],
            ),
        r is Ok ==> (shaped(r->Ok_0@[1].config, p * n_head, 1, 1, head_dim as int, 0)),
{
    lemma_shares(head_dim, n_head, n_kv_head, chunk_len, g);
    lemma_in_pieces(p as int, 16, z);
}

} // verus!
