//! How launches relate: a batch of rows to one row, the forms of attention to plain
//! decode attention, and the launches of a plan to each other.

use vstd::prelude::*;
use crate::attention::{AttentionKernel, AttentionKernels};
use crate::attention_score_mma::{AttentionScoreMmaKernels, ScoreMmaKernel};
use crate::deltanet::dispatch::expand_rows_launches;
use crate::deltanet::{DeltanetKernel, DeltanetKernels, HalfStateFmt};
use crate::elementwise::{ElementwiseKernel, ElementwiseKernels};
use crate::error::CudarcKernelError;
use crate::geometry::int_arg;
use crate::launch::{Arg, Buffer, LaunchPlan};
use crate::lora::{LoraDecodeKernels, LoraKernel};

verus! {

/// The gates of several rows take the arguments of the gates of one, and the number of
/// rows.
pub proof fn law_gates_of_rows(
    k: &DeltanetKernels,
    n_head: usize,
    p: usize,
    one: LaunchPlan<DeltanetKernel>,
    rows: LaunchPlan<DeltanetKernel>,
)
    requires
        call_ensures(DeltanetKernels::launch_beta_decay, (k, n_head), one),
        call_ensures(DeltanetKernels::launch_beta_decay_rows, (k, n_head, p), rows),
    ensures
        rows@[0].args == one@[0].args.push(int_arg(p as int)),
{
    assert(rows@[0].args =~= one@[0].args.push(int_arg(p as int)));
}

/// The convolution of several rows takes the arguments of that of one, and the number
/// of rows.
pub proof fn law_convolution_of_rows(
    k: &DeltanetKernels,
    conv_dim: usize,
    kernel_size: usize,
    p: usize,
    one: LaunchPlan<DeltanetKernel>,
    rows: Result<LaunchPlan<DeltanetKernel>, CudarcKernelError>,
)
    requires
        call_ensures(DeltanetKernels::launch_conv1d, (k, conv_dim, kernel_size), one),
        call_ensures(DeltanetKernels::launch_conv1d_rows, (k, conv_dim, kernel_size, p), rows),
        rows is Ok,
    ensures
        rows->Ok_0@[0].args == one@[0].args.push(int_arg(p as int)),
{
    assert(rows->Ok_0@[0].args =~= one@[0].args.push(int_arg(p as int)));
}

/// The recurrence over several rows takes the arguments of the fused one of its head
/// dimension, and the number of rows.
pub proof fn law_recurrence_of_rows(
    k: &DeltanetKernels,
    n_head: usize,
    p: usize,
    one: Result<LaunchPlan<DeltanetKernel>, CudarcKernelError>,
    rows: LaunchPlan<DeltanetKernel>,
)
    requires
        call_ensures(DeltanetKernels::launch_recurrence_fused, (k, 128, n_head), one),
        one is Ok,
        call_ensures(DeltanetKernels::launch_recurrence_fused_rows_hd128, (k, n_head, p), rows),
    ensures
        rows@[0].args == one->Ok_0@[0].args.push(int_arg(p as int)),
{
    assert(rows@[0].args =~= one->Ok_0@[0].args.push(int_arg(p as int)));
}

/// The expansion of several rows, by either kernel, takes the arguments of that of one,
/// and the number of rows.
pub proof fn law_expansion_of_rows(
    k: &DeltanetKernels,
    n_k_heads: usize,
    n_v_heads: usize,
    head_dim: usize,
    p: usize,
    staged: bool,
    one: LaunchPlan<DeltanetKernel>,
)
    requires
        call_ensures(
            DeltanetKernels::launch_expand_and_l2_normalize,
            (k, n_k_heads, n_v_heads, head_dim),
            one,
        ),
    ensures
        ({
            let plan = expand_rows_launches(staged, n_k_heads, n_v_heads, head_dim, p);
            plan.len() > 0 ==> plan[0].args == one@[0].args.push(int_arg(p as int))
        }),
{
    let plan = expand_rows_launches(staged, n_k_heads, n_v_heads, head_dim, p);
    if plan.len() > 0 {
        assert(plan[0].args =~= one@[0].args.push(int_arg(p as int)));
    }
}

/// The query/gate split of several rows takes the arguments of that of one, and the
/// number of rows.
pub proof fn law_split_qg_of_rows(
    k: &AttentionKernels,
    head_dim: usize,
    n_head: usize,
    p: usize,
    one: LaunchPlan<AttentionKernel>,
    rows: LaunchPlan<AttentionKernel>,
)
    requires
        call_ensures(AttentionKernels::launch_split_qg, (k, head_dim, n_head), one),
        call_ensures(AttentionKernels::launch_split_qg_rows, (k, head_dim, n_head, p), rows),
    ensures
        rows@[0].args == one@[0].args.push(int_arg(p as int)),
{
    assert(rows@[0].args =~= one@[0].args.push(int_arg(p as int)));
}

/// The append of several rows takes the arguments of that of one, and the number of
/// rows.
pub proof fn law_append_of_rows(
    k: &AttentionKernels,
    kvd: usize,
    pos: usize,
    p: usize,
    one: LaunchPlan<AttentionKernel>,
    rows: LaunchPlan<AttentionKernel>,
)
    requires
        call_ensures(AttentionKernels::launch_kv_cache_append, (k, kvd, pos), one),
        call_ensures(AttentionKernels::launch_kv_append_rows, (k, kvd, pos, p), rows),
    ensures
        rows@[0].args == one@[0].args.push(int_arg(p as int)),
{
    assert(rows@[0].args =~= one@[0].args.push(int_arg(p as int)));
}

/// The same where the row is read from a buffer.
pub proof fn law_append_of_rows_devpos(
    k: &AttentionKernels,
    kvd: usize,
    p: usize,
    one: LaunchPlan<AttentionKernel>,
    rows: LaunchPlan<AttentionKernel>,
)
    requires
        call_ensures(AttentionKernels::launch_kv_cache_append_devpos, (k, kvd), one),
        call_ensures(AttentionKernels::launch_kv_append_rows_devpos, (k, kvd, p), rows),
    ensures
        rows@[0].args == one@[0].args.push(int_arg(p as int)),
{
    assert(rows@[0].args =~= one@[0].args.push(int_arg(p as int)));
}

/// The rotary embedding of several rows takes the arguments of that of one, with the
/// number of rows ahead of the base.
pub proof fn law_rope_of_rows(
    k: &AttentionKernels,
    rotary_dim: usize,
    head_dim: usize,
    n_head: usize,
    n_kv_head: usize,
    pos: usize,
    p: usize,
    one: LaunchPlan<AttentionKernel>,
    rows: LaunchPlan<AttentionKernel>,
)
    requires
        call_ensures(
            AttentionKernels::launch_rope,
            (k, rotary_dim, head_dim, n_head, n_kv_head, pos),
            one,
        ),
        call_ensures(
            AttentionKernels::launch_rope_rows,
            (k, rotary_dim, head_dim, n_head, n_kv_head, pos, p),
            rows,
        ),
    ensures
        rows@[0].args == one@[0].args.insert(7, int_arg(p as int)),
{
    assert(rows@[0].args =~= one@[0].args.insert(7, int_arg(p as int)));
}

/// The same where the position is read from a buffer.
pub proof fn law_rope_of_rows_devpos(
    k: &AttentionKernels,
    rotary_dim: usize,
    head_dim: usize,
    n_head: usize,
    n_kv_head: usize,
    p: usize,
    one: LaunchPlan<AttentionKernel>,
    rows: LaunchPlan<AttentionKernel>,
)
    requires
        call_ensures(
            AttentionKernels::launch_rope_devpos,
            (k, rotary_dim, head_dim, n_head, n_kv_head),
            one,
        ),
        call_ensures(
            AttentionKernels::launch_rope_rows_devpos,
            (k, rotary_dim, head_dim, n_head, n_kv_head, p),
            rows,
        ),
    ensures
        rows@[0].args == one@[0].args.insert(7, int_arg(p as int)),
{
    assert(rows@[0].args =~= one@[0].args.insert(7, int_arg(p as int)));
}

/// The backward pass of the rotary embedding has the same grid and the same sizes and
/// position, and turns gradients in place of the rows.
pub proof fn law_rope_and_its_backward_pass(
    k: &AttentionKernels,
    rotary_dim: usize,
    head_dim: usize,
    n_head: usize,
    n_kv_head: usize,
    pos: usize,
    forth: LaunchPlan<AttentionKernel>,
    back: LaunchPlan<AttentionKernel>,
)
    requires
        call_ensures(
            AttentionKernels::launch_rope,
            (k, rotary_dim, head_dim, n_head, n_kv_head, pos),
            forth,
        ),
        call_ensures(
            AttentionKernels::launch_rope_backward,
            (k, rotary_dim, head_dim, n_head, n_kv_head, pos),
            back,
        ),
    ensures
        back@[0].config == forth@[0].config,
        back@[0].args.skip(2) == forth@[0].args.skip(2),
        back@[0].args[0] == Arg::Buf(Buffer::GradQ),
        back@[0].args[1] == Arg::Buf(Buffer::GradK),
        forth@[0].args[0] == Arg::Buf(Buffer::Q),
        forth@[0].args[1] == Arg::Buf(Buffer::K),
{
    assert(back@[0].args.skip(2) =~= forth@[0].args.skip(2));
}

/// Split attention takes the query, the caches, the scale, the sizes and the positions
/// of plain decode attention, and the chunk length; it writes partial results, and the
/// merge reads those and writes the output of plain decode attention.
pub proof fn law_split_reads_as_decode(
    k: &AttentionKernels,
    head_dim: usize,
    n_head: usize,
    n_kv_head: usize,
    chunk_len: usize,
    n_positions: usize,
    decode: LaunchPlan<AttentionKernel>,
    split: LaunchPlan<AttentionKernel>,
)
    requires
        call_ensures(
            AttentionKernels::launch_attention_decode,
            (k, head_dim, n_head, n_kv_head, n_positions),
            decode,
        ),
        call_ensures(
            AttentionKernels::launch_attention_decode_split,
            (k, head_dim, n_head, n_kv_head, chunk_len, n_positions),
            split,
        ),
    ensures
        split@[0].args == decode@[0].args.take(3) + seq![
            Arg::Buf(Buffer::PartM),
            Arg::Buf(Buffer::PartL),
            Arg::Buf(Buffer::PartOut),
        ] + decode@[0].args.subrange(4, 8) + seq![
            int_arg(chunk_len as int),
            decode@[0].args[8],
        ],
        split@[1].args.take(3) == split@[0].args.subrange(3, 6),
        split@[1].args[3] == decode@[0].args[3],
{
    assert(split@[0].args == decode@[0].args.take(3) + seq![
        Arg::Buf(Buffer::PartM),
        Arg::Buf(Buffer::PartL),
        Arg::Buf(Buffer::PartOut),
    ] + decode@[0].args.subrange(4, 8) + seq![
        int_arg(chunk_len as int),
        decode@[0].args[8],
    ]);
    assert(split@[1].args.take(3) =~= split@[0].args.subrange(3, 6));
}

/// The same of the split over shared heads.
pub proof fn law_shared_split_reads_as_decode(
    k: &AttentionKernels,
    head_dim: usize,
    n_head: usize,
    n_kv_head: usize,
    chunk_len: usize,
    n_positions: usize,
    decode: LaunchPlan<AttentionKernel>,
    split: Result<LaunchPlan<AttentionKernel>, CudarcKernelError>,
)
    requires
        call_ensures(
            AttentionKernels::launch_attention_decode,
            (k, head_dim, n_head, n_kv_head, n_positions),
            decode,
        ),
        call_ensures(
            AttentionKernels::launch_attention_decode_split_gqa,
            (k, head_dim, n_head, n_kv_head, chunk_len, n_positions),
            split,
        ),
        split is Ok,
    ensures
        split->Ok_0@[0].args == decode@[0].args.take(3) + seq![
            Arg::Buf(Buffer::PartM),
            Arg::Buf(Buffer::PartL),
            Arg::Buf(Buffer::PartOut),
        ] + decode@[0].args.subrange(4, 8) + seq![
            int_arg(chunk_len as int),
            decode@[0].args[8],
        ],
        split->Ok_0@[1].args.take(3) == split->Ok_0@[0].args.subrange(3, 6),
        split->Ok_0@[1].args[3] == decode@[0].args[3],
{
    assert(split->Ok_0@[0].args == decode@[0].args.take(3) + seq![
        Arg::Buf(Buffer::PartM),
        Arg::Buf(Buffer::PartL),
        Arg::Buf(Buffer::PartOut),
    ] + decode@[0].args.subrange(4, 8) + seq![
        int_arg(chunk_len as int),
        decode@[0].args[8],
    ]);
    assert(split->Ok_0@[1].args.take(3) =~= split->Ok_0@[0].args.subrange(3, 6));
}

/// The same of split attention that reads its position from a buffer.
pub proof fn law_split_devpos_reads_as_decode(
    k: &AttentionKernels,
    head_dim: usize,
    n_head: usize,
    n_kv_head: usize,
    chunk_len: usize,
    n_chunks_max: usize,
    decode: LaunchPlan<AttentionKernel>,
    split: LaunchPlan<AttentionKernel>,
)
    requires
        call_ensures(
            AttentionKernels::launch_attention_decode_devpos,
            (k, head_dim, n_head, n_kv_head),
            decode,
        ),
        call_ensures(
            AttentionKernels::launch_attention_decode_split_devpos,
            (k, head_dim, n_head, n_kv_head, chunk_len, n_chunks_max),
            split,
        ),
    ensures
        split@[0].args == decode@[0].args.take(3) + seq![
            Arg::Buf(Buffer::PartM),
            Arg::Buf(Buffer::PartL),
            Arg::Buf(Buffer::PartOut),
        ] + decode@[0].args.subrange(4, 8) + seq![
            int_arg(chunk_len as int),
            decode@[0].args[8],
        ],
        split@[1].args.take(3) == split@[0].args.subrange(3, 6),
        split@[1].args[3] == decode@[0].args[3],
{
    assert(split@[0].args == decode@[0].args.take(3) + seq![
        Arg::Buf(Buffer::PartM),
        Arg::Buf(Buffer::PartL),
        Arg::Buf(Buffer::PartOut),
    ] + decode@[0].args.subrange(4, 8) + seq![
        int_arg(chunk_len as int),
        decode@[0].args[8],
    ]);
    assert(split@[1].args.take(3) =~= split@[0].args.subrange(3, 6));
}

/// The same of the split over shared heads that reads its position from a buffer.
pub proof fn law_shared_split_devpos_reads_as_decode(
    k: &AttentionKernels,
    head_dim: usize,
    n_head: usize,
    n_kv_head: usize,
    chunk_len: usize,
    n_chunks_max: usize,
    decode: LaunchPlan<AttentionKernel>,
    split: Result<LaunchPlan<AttentionKernel>, CudarcKernelError>,
)
    requires
        call_ensures(
            AttentionKernels::launch_attention_decode_devpos,
            (k, head_dim, n_head, n_kv_head),
            decode,
        ),
        call_ensures(
            AttentionKernels::launch_attention_decode_split_gqa_devpos,
            (k, head_dim, n_head, n_kv_head, chunk_len, n_chunks_max),
            split,
        ),
        split is Ok,
    ensures
        split->Ok_0@[0].args == decode@[0].args.take(3) + seq![
            Arg::Buf(Buffer::PartM),
            Arg::Buf(Buffer::PartL),
            Arg::Buf(Buffer::PartOut),
        ] + decode@[0].args.subrange(4, 8) + seq![
            int_arg(chunk_len as int),
            decode@[0].args[8],
        ],
        split->Ok_0@[1].args.take(3) == split->Ok_0@[0].args.subrange(3, 6),
        split->Ok_0@[1].args[3] == decode@[0].args[3],
{
    assert(split->Ok_0@[0].args == decode@[0].args.take(3) + seq![
        Arg::Buf(Buffer::PartM),
        Arg::Buf(Buffer::PartL),
        Arg::Buf(Buffer::PartOut),
    ] + decode@[0].args.subrange(4, 8) + seq![
        int_arg(chunk_len as int),
        decode@[0].args[8],
    ]);
    assert(split->Ok_0@[1].args.take(3) =~= split->Ok_0@[0].args.subrange(3, 6));
}

/// Attention of several rows takes what the split over
/// shared heads takes, with its first position and the number of rows; the merge reads
/// its partial results and writes the output.
pub proof fn law_rows_read_as_the_shared_split(
    k: &AttentionKernels,
    head_dim: usize,
    n_head: usize,
    n_kv_head: usize,
    chunk_len: usize,
    n_positions: usize,
    n_chunks: usize,
    base_pos: usize,
    p: usize,
    split: Result<LaunchPlan<AttentionKernel>, CudarcKernelError>,
    rows: Result<LaunchPlan<AttentionKernel>, CudarcKernelError>,
)
    requires
        call_ensures(
            AttentionKernels::launch_attention_decode_split_gqa,
            (k, head_dim, n_head, n_kv_head, chunk_len, n_positions),
            split,
        ),
        split is Ok,
        call_ensures(
            AttentionKernels::launch_attention_splitgqa_rows,
            (k, head_dim, n_head, n_kv_head, chunk_len, n_chunks, base_pos, p),
            rows,
        ),
        rows is Ok,
    ensures
        rows->Ok_0@[0].args.take(13) == split->Ok_0@[0].args.update(11, int_arg(base_pos as int)).push(int_arg(p as int)),
        rows->Ok_0@[0].args.len() == 14,
        rows->Ok_0@[1].args.take(3) == rows->Ok_0@[0].args.subrange(3, 6),
        rows->Ok_0@[1].args[3] == split->Ok_0@[1].args[3],
{
    assert(rows->Ok_0@[0].args.take(13) == split->Ok_0@[0].args.update(11, int_arg(base_pos as int)).push(int_arg(p as int)));
    assert(rows->Ok_0@[1].args.take(3) =~= rows->Ok_0@[0].args.subrange(3, 6));
}

/// Attention of several rows with more accumulators takes what the split over
/// shared heads takes, with its first position and the number of rows; the merge reads
/// its partial results and writes the output.
pub proof fn law_rows_ma_read_as_the_shared_split(
    k: &AttentionKernels,
    head_dim: usize,
    n_head: usize,
    n_kv_head: usize,
    chunk_len: usize,
    n_positions: usize,
    n_chunks: usize,
    base_pos: usize,
    p: usize,
    split: Result<LaunchPlan<AttentionKernel>, CudarcKernelError>,
    rows: Result<LaunchPlan<AttentionKernel>, CudarcKernelError>,
)
    requires
        call_ensures(
            AttentionKernels::launch_attention_decode_split_gqa,
            (k, head_dim, n_head, n_kv_head, chunk_len, n_positions),
            split,
        ),
        split is Ok,
        call_ensures(
            AttentionKernels::launch_attention_splitgqa_rows_ma,
            (k, head_dim, n_head, n_kv_head, chunk_len, n_chunks, base_pos, p),
            rows,
        ),
        rows is Ok,
    ensures
        rows->Ok_0@[0].args.take(13) == split->Ok_0@[0].args.update(11, int_arg(base_pos as int)).push(int_arg(p as int)),
        rows->Ok_0@[0].args.len() == 14,
        rows->Ok_0@[1].args.take(3) == rows->Ok_0@[0].args.subrange(3, 6),
        rows->Ok_0@[1].args[3] == split->Ok_0@[1].args[3],
{
    assert(rows->Ok_0@[0].args.take(13) == split->Ok_0@[0].args.update(11, int_arg(base_pos as int)).push(int_arg(p as int)));
    assert(rows->Ok_0@[1].args.take(3) =~= rows->Ok_0@[0].args.subrange(3, 6));
}

/// Attention of several rows in query groups takes what the split over
/// shared heads takes, with its first position and the number of rows; the merge reads
/// its partial results and writes the output.
pub proof fn law_rows_qg_read_as_the_shared_split(
    k: &AttentionKernels,
    head_dim: usize,
    n_head: usize,
    n_kv_head: usize,
    chunk_len: usize,
    n_positions: usize,
    n_chunks: usize,
    base_pos: usize,
    p: usize,
    split: Result<LaunchPlan<AttentionKernel>, CudarcKernelError>,
    rows: Result<LaunchPlan<AttentionKernel>, CudarcKernelError>,
)
    requires
        call_ensures(
            AttentionKernels::launch_attention_decode_split_gqa,
            (k, head_dim, n_head, n_kv_head, chunk_len, n_positions),
            split,
        ),
        split is Ok,
        call_ensures(
            AttentionKernels::launch_attention_splitgqa_rows_qg,
            (k, head_dim, n_head, n_kv_head, chunk_len, n_chunks, base_pos, p),
            rows,
        ),
        rows is Ok,
    ensures
        rows->Ok_0@[0].args.take(13) == split->Ok_0@[0].args.update(11, int_arg(base_pos as int)).push(int_arg(p as int)),
        rows->Ok_0@[0].args.len() == 14,
        rows->Ok_0@[1].args.take(3) == rows->Ok_0@[0].args.subrange(3, 6),
        rows->Ok_0@[1].args[3] == split->Ok_0@[1].args[3],
{
    assert(rows->Ok_0@[0].args.take(13) == split->Ok_0@[0].args.update(11, int_arg(base_pos as int)).push(int_arg(p as int)));
    assert(rows->Ok_0@[1].args.take(3) =~= rows->Ok_0@[0].args.subrange(3, 6));
}

/// Attention of several rows in query groups with more accumulators takes what the split over
/// shared heads takes, with its first position and the number of rows; the merge reads
/// its partial results and writes the output.
pub proof fn law_rows_qgma_read_as_the_shared_split(
    k: &AttentionKernels,
    head_dim: usize,
    n_head: usize,
    n_kv_head: usize,
    chunk_len: usize,
    n_positions: usize,
    n_chunks: usize,
    base_pos: usize,
    p: usize,
    split: Result<LaunchPlan<AttentionKernel>, CudarcKernelError>,
    rows: Result<LaunchPlan<AttentionKernel>, CudarcKernelError>,
)
    requires
        call_ensures(
            AttentionKernels::launch_attention_decode_split_gqa,
            (k, head_dim, n_head, n_kv_head, chunk_len, n_positions),
            split,
        ),
        split is Ok,
        call_ensures(
            AttentionKernels::launch_attention_splitgqa_rows_qgma,
            (k, head_dim, n_head, n_kv_head, chunk_len, n_chunks, base_pos, p),
            rows,
        ),
        rows is Ok,
    ensures
        rows->Ok_0@[0].args.take(13) == split->Ok_0@[0].args.update(11, int_arg(base_pos as int)).push(int_arg(p as int)),
        rows->Ok_0@[0].args.len() == 14,
        rows->Ok_0@[1].args.take(3) == rows->Ok_0@[0].args.subrange(3, 6),
        rows->Ok_0@[1].args[3] == split->Ok_0@[1].args[3],
{
    assert(rows->Ok_0@[0].args.take(13) == split->Ok_0@[0].args.update(11, int_arg(base_pos as int)).push(int_arg(p as int)));
    assert(rows->Ok_0@[1].args.take(3) =~= rows->Ok_0@[0].args.subrange(3, 6));
}

/// The two passes score the query of plain decode attention against its keys, under its
/// scale, and the second sums its values. What the first pass writes the merge reads,
/// what the merge writes the second pass scores under, and what that writes the last
/// merge reads, into the output of plain decode attention.
pub proof fn law_two_passes_read_as_decode(
    k: &AttentionKernels,
    head_dim: usize,
    n_head: usize,
    n_kv_head: usize,
    chunk_len: usize,
    n_chunks: usize,
    n_stat_tiles: usize,
    base_pos: usize,
    p: usize,
    n_positions: usize,
    decode: LaunchPlan<AttentionKernel>,
    two: Result<LaunchPlan<AttentionKernel>, CudarcKernelError>,
)
    requires
        call_ensures(
            AttentionKernels::launch_attention_decode,
            (k, head_dim, n_head, n_kv_head, n_positions),
            decode,
        ),
        call_ensures(
            AttentionKernels::launch_attention_verify2p,
            (k, head_dim, n_head, n_kv_head, chunk_len, n_chunks, n_stat_tiles, base_pos, p),
            two,
        ),
        two is Ok,
    ensures
        two->Ok_0@.len() == 4,
        two->Ok_0@[0].args.take(2) == decode@[0].args.take(2),
        two->Ok_0@[2].args.take(3) == decode@[0].args.take(3),
        two->Ok_0@[0].args.subrange(4, 8) == decode@[0].args.subrange(4, 8),
        two->Ok_0@[2].args.subrange(7, 11) == decode@[0].args.subrange(4, 8),
        two->Ok_0@[1].args.take(2) == two->Ok_0@[0].args.subrange(2, 4),
        two->Ok_0@[2].args[3] == two->Ok_0@[1].args[2],
        two->Ok_0@[3].args.take(3) == two->Ok_0@[2].args.subrange(4, 7),
        two->Ok_0@[3].args[3] == decode@[0].args[3],
        two->Ok_0@[0].args[9] == two->Ok_0@[2].args[12],
{
    assert(two->Ok_0@[0].args.take(2) =~= decode@[0].args.take(2));
    assert(two->Ok_0@[2].args.take(3) =~= decode@[0].args.take(3));
    assert(two->Ok_0@[0].args.subrange(4, 8) =~= decode@[0].args.subrange(4, 8));
    assert(two->Ok_0@[2].args.subrange(7, 11) =~= decode@[0].args.subrange(4, 8));
    assert(two->Ok_0@[1].args.take(2) =~= two->Ok_0@[0].args.subrange(2, 4));
    assert(two->Ok_0@[3].args.take(3) =~= two->Ok_0@[2].args.subrange(4, 7));
}

/// The same where the position is read from a buffer.
pub proof fn law_two_passes_read_as_decode_devpos(
    k: &AttentionKernels,
    head_dim: usize,
    n_head: usize,
    n_kv_head: usize,
    chunk_len: usize,
    n_chunks: usize,
    n_stat_tiles: usize,
    p: usize,
    decode: LaunchPlan<AttentionKernel>,
    two: Result<LaunchPlan<AttentionKernel>, CudarcKernelError>,
)
    requires
        call_ensures(
            AttentionKernels::launch_attention_decode_devpos,
            (k, head_dim, n_head, n_kv_head),
            decode,
        ),
        call_ensures(
            AttentionKernels::launch_attention_verify2p_devpos,
            (k, head_dim, n_head, n_kv_head, chunk_len, n_chunks, n_stat_tiles, p),
            two,
        ),
        two is Ok,
    ensures
        two->Ok_0@.len() == 4,
        two->Ok_0@[0].args.take(2) == decode@[0].args.take(2),
        two->Ok_0@[2].args.take(3) == decode@[0].args.take(3),
        two->Ok_0@[0].args.subrange(4, 8) == decode@[0].args.subrange(4, 8),
        two->Ok_0@[2].args.subrange(7, 11) == decode@[0].args.subrange(4, 8),
        two->Ok_0@[1].args.take(2) == two->Ok_0@[0].args.subrange(2, 4),
        two->Ok_0@[2].args[3] == two->Ok_0@[1].args[2],
        two->Ok_0@[3].args.take(3) == two->Ok_0@[2].args.subrange(4, 7),
        two->Ok_0@[3].args[3] == decode@[0].args[3],
        two->Ok_0@[0].args[9] == two->Ok_0@[2].args[12],
{
    assert(two->Ok_0@[0].args.take(2) =~= decode@[0].args.take(2));
    assert(two->Ok_0@[2].args.take(3) =~= decode@[0].args.take(3));
    assert(two->Ok_0@[0].args.subrange(4, 8) =~= decode@[0].args.subrange(4, 8));
    assert(two->Ok_0@[2].args.subrange(7, 11) =~= decode@[0].args.subrange(4, 8));
    assert(two->Ok_0@[1].args.take(2) =~= two->Ok_0@[0].args.subrange(2, 4));
    assert(two->Ok_0@[3].args.take(3) =~= two->Ok_0@[2].args.subrange(4, 7));
}

/// The score kernels take what the query-grouped attention takes, but for the tile
/// layout, and their merge what its merge takes.
pub proof fn law_scores_read_as_query_groups(
    k: &AttentionKernels,
    k1: &AttentionScoreMmaKernels,
    arm24: bool,
    head_dim: usize,
    n_head: usize,
    n_kv_head: usize,
    chunk_len: usize,
    n_chunks: usize,
    base_pos: usize,
    p: usize,
    grouped: Result<LaunchPlan<AttentionKernel>, CudarcKernelError>,
    scores: Result<LaunchPlan<ScoreMmaKernel>, CudarcKernelError>,
)
    requires
        call_ensures(
            AttentionKernels::launch_attention_splitgqa_rows_qg,
            (k, head_dim, n_head, n_kv_head, chunk_len, n_chunks, base_pos, p),
            grouped,
        ),
        grouped is Ok,
        call_ensures(
            AttentionScoreMmaKernels::launch_splitgqa_rows_qg_mma,
            (k1, arm24, head_dim, n_head, n_kv_head, chunk_len, n_chunks, base_pos, p),
            scores,
        ),
        scores is Ok,
    ensures
        scores->Ok_0@[0].args == grouped->Ok_0@[0].args.drop_last(),
        scores->Ok_0@[1].args == grouped->Ok_0@[1].args,
        scores->Ok_0@[0].config.grid_dim == grouped->Ok_0@[0].config.grid_dim,
{
    assert(scores->Ok_0@[0].args =~= grouped->Ok_0@[0].args.drop_last());
}

/// The parallel recurrence takes what the serial one takes.
pub proof fn law_parallel_recurrence_as_serial(
    k: &DeltanetKernels,
    head_dim: usize,
    n_head: usize,
    serial: LaunchPlan<DeltanetKernel>,
    parallel: LaunchPlan<DeltanetKernel>,
)
    requires
        call_ensures(DeltanetKernels::launch_recurrence, (k, head_dim, n_head), serial),
        call_ensures(DeltanetKernels::launch_recurrence_parallel, (k, head_dim, n_head), parallel),
    ensures
        parallel@[0].args == serial@[0].args,
{
}

/// The fused recurrence takes what the parallel one takes, but for the head dimension,
/// on the same grid.
pub proof fn law_fused_recurrence_as_parallel(
    k: &DeltanetKernels,
    head_dim: usize,
    n_head: usize,
    parallel: LaunchPlan<DeltanetKernel>,
    fused: Result<LaunchPlan<DeltanetKernel>, CudarcKernelError>,
)
    requires
        call_ensures(DeltanetKernels::launch_recurrence_parallel, (k, head_dim, n_head), parallel),
        call_ensures(DeltanetKernels::launch_recurrence_fused, (k, head_dim, n_head), fused),
        fused is Ok,
    ensures
        fused->Ok_0@[0].args == parallel@[0].args.remove(5),
        fused->Ok_0@[0].config == parallel@[0].config,
{
    assert(fused->Ok_0@[0].args =~= parallel@[0].args.remove(5));
}

/// The recurrence over halves takes what the fused one of its head dimension takes, on
/// the same grid.
pub proof fn law_half_recurrence_as_fused(
    k: &DeltanetKernels,
    n_head: usize,
    fmt: HalfStateFmt,
    fused: Result<LaunchPlan<DeltanetKernel>, CudarcKernelError>,
    half: LaunchPlan<DeltanetKernel>,
)
    requires
        call_ensures(DeltanetKernels::launch_recurrence_fused, (k, 128, n_head), fused),
        fused is Ok,
        call_ensures(DeltanetKernels::launch_recurrence_fused_half_hd128, (k, n_head, fmt), half),
    ensures
        half@[0].args == fused->Ok_0@[0].args,
        half@[0].config == fused->Ok_0@[0].config,
{
}

/// A fused quantisation writes and sizes as the plain one does, on the same grid, and
/// reads two rows in place of one.
pub proof fn law_swiglu_quantises_as_quantize(
    k: &ElementwiseKernels,
    n: usize,
    plain: LaunchPlan<ElementwiseKernel>,
    fused: LaunchPlan<ElementwiseKernel>,
)
    requires
        call_ensures(ElementwiseKernels::launch_quantize, (k, n), plain),
        call_ensures(ElementwiseKernels::launch_swiglu_quantize, (k, n), fused),
    ensures
        fused@[0].args.skip(2) == plain@[0].args.skip(1),
        fused@[0].config == plain@[0].config,
{
    assert(fused@[0].args.skip(2) =~= plain@[0].args.skip(1));
}

/// A fused quantisation writes and sizes as the plain one does, on the same grid, and
/// reads two rows in place of one.
pub proof fn law_silu_gate_quantises_as_quantize(
    k: &ElementwiseKernels,
    n: usize,
    plain: LaunchPlan<ElementwiseKernel>,
    fused: LaunchPlan<ElementwiseKernel>,
)
    requires
        call_ensures(ElementwiseKernels::launch_quantize, (k, n), plain),
        call_ensures(ElementwiseKernels::launch_gate_silu_quantize, (k, n), fused),
    ensures
        fused@[0].args.skip(2) == plain@[0].args.skip(1),
        fused@[0].config == plain@[0].config,
{
    assert(fused@[0].args.skip(2) =~= plain@[0].args.skip(1));
}

/// A fused quantisation writes and sizes as the plain one does, on the same grid, and
/// reads two rows in place of one.
pub proof fn law_sigmoid_gate_quantises_as_quantize(
    k: &ElementwiseKernels,
    n: usize,
    plain: LaunchPlan<ElementwiseKernel>,
    fused: LaunchPlan<ElementwiseKernel>,
)
    requires
        call_ensures(ElementwiseKernels::launch_quantize, (k, n), plain),
        call_ensures(ElementwiseKernels::launch_gate_sigmoid_quantize, (k, n), fused),
    ensures
        fused@[0].args.skip(2) == plain@[0].args.skip(1),
        fused@[0].config == plain@[0].config,
{
    assert(fused@[0].args.skip(2) =~= plain@[0].args.skip(1));
}

/// The two gated quantisations read the same rows.
pub proof fn law_gates_read_the_same_rows(
    k: &ElementwiseKernels,
    n: usize,
    silu: LaunchPlan<ElementwiseKernel>,
    sigmoid: LaunchPlan<ElementwiseKernel>,
)
    requires
        call_ensures(ElementwiseKernels::launch_gate_silu_quantize, (k, n), silu),
        call_ensures(ElementwiseKernels::launch_gate_sigmoid_quantize, (k, n), sigmoid),
    ensures
        silu@[0].args == sigmoid@[0].args,
        silu@[0].kernel != sigmoid@[0].kernel,
{
}

/// A correction flows from one projection to the next: each up-projection reads what
/// its down-projection wrote, both down-projections read the same row, and both
/// up-projections add to the same row under the same scale.
pub proof fn law_corrections_flow(
    k: &LoraDecodeKernels,
    n_embd: usize,
    q_dim: usize,
    k_dim: usize,
    v_dim: usize,
    rank: usize,
    r: LaunchPlan<LoraKernel>,
)
    requires
        call_ensures(LoraDecodeKernels::launch_qv_apply, (k, n_embd, q_dim, k_dim, v_dim, rank), r),
    ensures
        r@.len() == 4,
        r@[2].args[1] == r@[0].args[2],
        r@[3].args[1] == r@[1].args[2],
        r@[0].args[2] != r@[1].args[2],
        r@[0].args[1] == r@[1].args[1],
        r@[2].args[2] == r@[3].args[2],
        r@[2].args[6] == r@[3].args[6],
        r@[0].args[0] != r@[1].args[0],
        r@[2].args[0] != r@[3].args[0],
{
}

} // verus!
