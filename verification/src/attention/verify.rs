//! Attention of up to sixteen rows in two passes: the statistics of every tile
//! of positions, their merge, the weighted sums under the merged maximum, and
//! the merge of the chunks.

use vstd::prelude::*;
use crate::attention::decode::launch_of;
use crate::attention::rows::{
    check_grouped, combine_rows_arg_vec, combine_rows_launch, grouped_refusal,
};
use crate::attention::{group, group_size, AttentionKernel, AttentionKernels};
use crate::error::CudarcKernelError;
use crate::geometry::{flat, flat_config, int_arg, low_u32, size_arg, to_u32};
use crate::launch::{planned, Arg, Buffer, LaunchConfig, LaunchPlan, LaunchView};

verus! {

/// Rows that a two-pass launch takes at most.
pub const VERIFY2P_MAX_P: usize = 16;

/// The first pass: one block per K/V head and tile of 32 positions, with the
/// K tile in shared memory.
pub open spec fn verify2p_stats_launch(
    kernel: AttentionKernel,
    head_dim: usize,
    n_head: usize,
    n_kv_head: usize,
    n_stat_tiles: usize,
    base: Arg,
    p: usize,
) -> LaunchView<AttentionKernel> {
    launch_of(
        kernel,
        LaunchConfig {
            grid_dim: (low_u32(n_kv_head as int), low_u32(n_stat_tiles as int), 1),
            block_dim: (1024, 1, 1),
            shared_mem_bytes: low_u32(head_dim * 33 * 4),
        },
        seq![
            Arg::Buf(Buffer::Query),
            Arg::Buf(Buffer::KeyCache),
            Arg::Buf(Buffer::StatM),
            Arg::Buf(Buffer::StatL),
            Arg::InvSqrt(head_dim),
            int_arg(head_dim as int),
            int_arg(n_head as int),
            int_arg(n_kv_head as int),
            int_arg(n_stat_tiles as int),
            base,
            int_arg(p as int),
        ],
    )
}

/// The merge of the tile statistics: one block per K/V head.
pub open spec fn verify2p_merge_launch(
    n_head: usize,
    n_kv_head: usize,
    n_stat_tiles: usize,
    p: usize,
) -> LaunchView<AttentionKernel> {
    launch_of(
        AttentionKernel::Verify2pMerge,
        flat(low_u32(n_kv_head as int), 128, 0),
        seq![
            Arg::Buf(Buffer::StatM),
            Arg::Buf(Buffer::StatL),
            Arg::Buf(Buffer::MergedM),
            Arg::Buf(Buffer::MergedL),
            int_arg(n_head as int),
            int_arg(n_kv_head as int),
            int_arg(n_stat_tiles as int),
            int_arg(p as int),
        ],
    )
}

/// Bytes of shared memory of the second pass: a K tile of 32 positions and the
/// probabilities of sixteen rows' query heads.
pub open spec fn pv_smem(head_dim: usize, n_head: usize, n_kv_head: usize) -> int {
    (head_dim * 33 + 16 * group(n_head, n_kv_head) * 32) * 4
}

/// The second pass: one block per K/V head and chunk.
pub open spec fn verify2p_pv_launch(
    kernel: AttentionKernel,
    head_dim: usize,
    n_head: usize,
    n_kv_head: usize,
    chunk_len: usize,
    n_chunks: usize,
    base: Arg,
    p: usize,
) -> LaunchView<AttentionKernel> {
    launch_of(
        kernel,
        LaunchConfig {
            grid_dim: (low_u32(n_kv_head as int), low_u32(n_chunks as int), 1),
            block_dim: (1024, 1, 1),
            shared_mem_bytes: low_u32(pv_smem(head_dim, n_head, n_kv_head)),
        },
        seq![
            Arg::Buf(Buffer::Query),
            Arg::Buf(Buffer::KeyCache),
            Arg::Buf(Buffer::ValueCache),
            Arg::Buf(Buffer::MergedM),
            Arg::Buf(Buffer::PartM),
            Arg::Buf(Buffer::PartL),
            Arg::Buf(Buffer::PartOut),
            Arg::InvSqrt(head_dim),
            int_arg(head_dim as int),
            int_arg(n_head as int),
            int_arg(n_kv_head as int),
            int_arg(chunk_len as int),
            base,
            int_arg(p as int),
        ],
    )
}

/// The four launches, in order.
pub open spec fn verify2p_launches(
    stats: AttentionKernel,
    pv: AttentionKernel,
    head_dim: usize,
    n_head: usize,
    n_kv_head: usize,
    chunk_len: usize,
    n_chunks: usize,
    n_stat_tiles: usize,
    base: Arg,
    p: usize,
) -> Seq<LaunchView<AttentionKernel>> {
    seq![
        verify2p_stats_launch(stats, head_dim, n_head, n_kv_head, n_stat_tiles, base, p),
        verify2p_merge_launch(n_head, n_kv_head, n_stat_tiles, p),
        verify2p_pv_launch(pv, head_dim, n_head, n_kv_head, chunk_len, n_chunks, base, p),
        combine_rows_launch(head_dim, n_head, n_chunks, p),
    ]
}

/// [`verify2p_launches`], planned.
fn plan_verify2p(
    stats: AttentionKernel,
    pv: AttentionKernel,
    head_dim: usize,
    n_head: usize,
    n_kv_head: usize,
    chunk_len: usize,
    n_chunks: usize,
    n_stat_tiles: usize,
    base: Arg,
    p: usize,
) -> (r: LaunchPlan<AttentionKernel>)
    requires
        head_dim == 256,
        1 <= group(n_head, n_kv_head) <= 8,
        p * n_head <= usize::MAX,
    ensures
        r@ == verify2p_launches(
            stats,
            pv,
            head_dim,
            n_head,
            n_kv_head,
            chunk_len,
            n_chunks,
            n_stat_tiles,
            base,
            p,
        ),
{
    let plan = LaunchPlan::one(
        stats,
        LaunchConfig {
            grid_dim: (to_u32(n_kv_head), to_u32(n_stat_tiles), 1),
            block_dim: (1024, 1, 1),
            shared_mem_bytes: to_u32(head_dim * 33 * 4),
        },
        vec![
            Arg::Buf(Buffer::Query),
            Arg::Buf(Buffer::KeyCache),
            Arg::Buf(Buffer::StatM),
            Arg::Buf(Buffer::StatL),
            Arg::InvSqrt(head_dim),
            size_arg(head_dim),
            size_arg(n_head),
            size_arg(n_kv_head),
            size_arg(n_stat_tiles),
            base,
            size_arg(p),
        ],
    );
    let ghost first = verify2p_stats_launch(
        stats,
        head_dim,
        n_head,
        n_kv_head,
        n_stat_tiles,
        base,
        p,
    );
    assert(plan@ =~~= seq![first]);
    let plan = plan.followed_by(
        AttentionKernel::Verify2pMerge,
        flat_config(to_u32(n_kv_head), 128, 0),
        vec![
            Arg::Buf(Buffer::StatM),
            Arg::Buf(Buffer::StatL),
            Arg::Buf(Buffer::MergedM),
            Arg::Buf(Buffer::MergedL),
            size_arg(n_head),
            size_arg(n_kv_head),
            size_arg(n_stat_tiles),
            size_arg(p),
        ],
    );
    let ghost second = verify2p_merge_launch(n_head, n_kv_head, n_stat_tiles, p);
    assert(plan@ =~~= seq![first, second]);
    let g: usize = group_size(n_head, n_kv_head);
    let plan = plan.followed_by(
        pv,
        LaunchConfig {
            grid_dim: (to_u32(n_kv_head), to_u32(n_chunks), 1),
            block_dim: (1024, 1, 1),
            shared_mem_bytes: to_u32((head_dim * 33 + 16 * g * 32) * 4),
        },
        vec![
            Arg::Buf(Buffer::Query),
            Arg::Buf(Buffer::KeyCache),
            Arg::Buf(Buffer::ValueCache),
            Arg::Buf(Buffer::MergedM),
            Arg::Buf(Buffer::PartM),
            Arg::Buf(Buffer::PartL),
            Arg::Buf(Buffer::PartOut),
            Arg::InvSqrt(head_dim),
            size_arg(head_dim),
            size_arg(n_head),
            size_arg(n_kv_head),
            size_arg(chunk_len),
            base,
            size_arg(p),
        ],
    );
    let ghost third = verify2p_pv_launch(
        pv,
        head_dim,
        n_head,
        n_kv_head,
        chunk_len,
        n_chunks,
        base,
        p,
    );
    assert(plan@ =~~= seq![first, second, third]);
    let r = plan.followed_by(
        AttentionKernel::SplitCombineRows,
        flat_config(to_u32(p * n_head), to_u32(head_dim), 0),
        combine_rows_arg_vec(head_dim, n_head, n_chunks, p),
    );
    assert(r@ =~= seq![first, second, third, combine_rows_launch(head_dim, n_head, n_chunks, p)]);
    r
}

impl AttentionKernels {
    /// Attention of `p` rows from position `base_pos` on. `n_stat_tiles` is how
    /// many tiles of 32 positions hold the `base_pos + p` positions.
    ///
    /// `query` and `attn_out` cover `p * n_head * head_dim` elements, `stat_m`
    /// and `stat_l` `p * n_head * n_stat_tiles`, the merged pair `p * n_head`,
    /// `part_m` and `part_l` `p * n_head * n_chunks`, `part_out` `p * n_head *
    /// n_chunks * head_dim`, and each cache `(base_pos + p) * n_kv_head *
    /// head_dim`.
    pub fn launch_attention_verify2p(
        &self,
        head_dim: usize,
        n_head: usize,
        n_kv_head: usize,
        chunk_len: usize,
        n_chunks: usize,
        n_stat_tiles: usize,
        base_pos: usize,
        p: usize,
    ) -> (r: Result<LaunchPlan<AttentionKernel>, CudarcKernelError>)
        requires
            grouped_refusal(
                "verify2p"@,
                VERIFY2P_MAX_P,
                head_dim,
                n_head,
                n_kv_head,
                chunk_len,
                p,
            ) is None ==> p * n_head <= usize::MAX,
        ensures
            planned(
                r,
                grouped_refusal(
                    "verify2p"@,
                    VERIFY2P_MAX_P,
                    head_dim,
                    n_head,
                    n_kv_head,
                    chunk_len,
                    p,
                ),
                verify2p_launches(
                    AttentionKernel::Verify2pStats,
                    AttentionKernel::Verify2pPv,
                    head_dim,
                    n_head,
                    n_kv_head,
                    chunk_len,
                    n_chunks,
                    n_stat_tiles,
                    int_arg(base_pos as int),
                    p,
                ),
            ),
    {
        match check_grouped(
            "verify2p",
            VERIFY2P_MAX_P,
            head_dim,
            n_head,
            n_kv_head,
            chunk_len,
            p,
        ) {
            Err(e) => Err(e),
            Ok(()) => Ok(
                plan_verify2p(
                    AttentionKernel::Verify2pStats,
                    AttentionKernel::Verify2pPv,
                    head_dim,
                    n_head,
                    n_kv_head,
                    chunk_len,
                    n_chunks,
                    n_stat_tiles,
                    size_arg(base_pos),
                    p,
                ),
            ),
        }
    }

    /// [`AttentionKernels::launch_attention_verify2p`] from the position that a
    /// buffer holds, with blocks for the largest tile and chunk counts.
    ///
    /// The buffers cover as many elements as there, and the position buffer
    /// one. `n_stat_tiles` and `n_chunks` stay the same when the launch is
    /// replayed.
    pub fn launch_attention_verify2p_devpos(
        &self,
        head_dim: usize,
        n_head: usize,
        n_kv_head: usize,
        chunk_len: usize,
        n_chunks: usize,
        n_stat_tiles: usize,
        p: usize,
    ) -> (r: Result<LaunchPlan<AttentionKernel>, CudarcKernelError>)
        requires
            grouped_refusal(
                "verify2p devpos"@,
                VERIFY2P_MAX_P,
                head_dim,
                n_head,
                n_kv_head,
                chunk_len,
                p,
            ) is None ==> p * n_head <= usize::MAX,
        ensures
            planned(
                r,
                grouped_refusal(
                    "verify2p devpos"@,
                    VERIFY2P_MAX_P,
                    head_dim,
                    n_head,
                    n_kv_head,
                    chunk_len,
                    p,
                ),
                verify2p_launches(
                    AttentionKernel::Verify2pStatsDevpos,
                    AttentionKernel::Verify2pPvDevpos,
                    head_dim,
                    n_head,
                    n_kv_head,
                    chunk_len,
                    n_chunks,
                    n_stat_tiles,
                    Arg::Buf(Buffer::PosDev),
                    p,
                ),
            ),
    {
        match check_grouped(
            "verify2p devpos",
            VERIFY2P_MAX_P,
            head_dim,
            n_head,
            n_kv_head,
            chunk_len,
            p,
        ) {
            Err(e) => Err(e),
            Ok(()) => Ok(
                plan_verify2p(
                    AttentionKernel::Verify2pStatsDevpos,
                    AttentionKernel::Verify2pPvDevpos,
                    head_dim,
                    n_head,
                    n_kv_head,
                    chunk_len,
                    n_chunks,
                    n_stat_tiles,
                    Arg::Buf(Buffer::PosDev),
                    p,
                ),
            ),
        }
    }
}

} // verus!
