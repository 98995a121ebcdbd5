//! One row at a time: rotary embedding, query/gate split, per-head norm, cache
//! append, and decode attention in its plain, split and shared-head forms.
//!
//! A position is an argument of the launch, or, in the `devpos` forms, a buffer
//! that the kernel reads, so that a captured launch can be replayed.

use vstd::prelude::*;
use crate::attention::{
    group, group_size, splitgqa_refusal, validate_splitgqa, AttentionKernel, AttentionKernels,
};
use crate::error::CudarcKernelError;
use crate::geometry::{
    ceil_div, div_up, flat, flat_config, int_arg, linear, linear_config, low_u32, size_arg, to_u32,
};
use crate::launch::{planned, Arg, Buffer, LaunchConfig, LaunchPlan, LaunchView, Real};

verus! {

/// A launch of one attention kernel.
pub open spec fn launch_of(
    kernel: AttentionKernel,
    config: LaunchConfig,
    args: Seq<Arg>,
) -> LaunchView<AttentionKernel> {
    LaunchView { kernel, config, args }
}

/// Rotary embedding of `q` and `k` in place: one thread per pair of lanes of a
/// query head.
pub open spec fn rope_launch(
    kernel: AttentionKernel,
    q: Buffer,
    k: Buffer,
    rotary_dim: usize,
    head_dim: usize,
    n_head: usize,
    n_kv_head: usize,
    pos: Arg,
) -> LaunchView<AttentionKernel> {
    launch_of(
        kernel,
        linear(n_head * (rotary_dim / 2)),
        seq![
            Arg::Buf(q),
            Arg::Buf(k),
            int_arg(rotary_dim as int),
            int_arg(head_dim as int),
            int_arg(n_head as int),
            int_arg(n_kv_head as int),
            pos,
            Arg::Real(Real::ThetaBase),
        ],
    )
}

/// Separates the interleaved query and gate: one thread per element.
pub open spec fn split_qg_launch(head_dim: usize, n_head: usize) -> LaunchView<AttentionKernel> {
    launch_of(
        AttentionKernel::SplitQg,
        linear(n_head * head_dim),
        seq![
            Arg::Buf(Buffer::Qg),
            Arg::Buf(Buffer::Q),
            Arg::Buf(Buffer::Gate),
            int_arg(head_dim as int),
            int_arg(n_head as int),
        ],
    )
}

/// RMS norm of `n_batch` heads: one block of 256 threads per head.
pub open spec fn rmsnorm_batched_launch(n_batch: usize, head_dim: usize) -> LaunchView<
    AttentionKernel,
> {
    launch_of(
        AttentionKernel::RmsnormBatched,
        flat(low_u32(n_batch as int), 256, 1024),
        seq![
            Arg::Buf(Buffer::Input),
            Arg::Buf(Buffer::Gamma),
            Arg::Buf(Buffer::Output),
            Arg::Recip(head_dim),
            Arg::Real(Real::Eps),
            int_arg(head_dim as int),
        ],
    )
}

/// Appends one row to the K/V caches: one thread per element of the row.
pub open spec fn kv_append_launch(kernel: AttentionKernel, kvd: usize, pos: Arg) -> LaunchView<
    AttentionKernel,
> {
    launch_of(
        kernel,
        linear(kvd as int),
        seq![
            Arg::Buf(Buffer::KVec),
            Arg::Buf(Buffer::VVec),
            Arg::Buf(Buffer::KeyCache),
            Arg::Buf(Buffer::ValueCache),
            int_arg(kvd as int),
            pos,
        ],
    )
}

/// Decode attention: one block per query head, one thread per lane.
/// `positions` is how many cached rows are attended, or where that is read.
pub open spec fn attention_decode_launch(
    kernel: AttentionKernel,
    head_dim: usize,
    n_head: usize,
    n_kv_head: usize,
    positions: Arg,
) -> LaunchView<AttentionKernel> {
    launch_of(
        kernel,
        flat(low_u32(n_head as int), low_u32(head_dim as int), low_u32(head_dim * 4)),
        seq![
            Arg::Buf(Buffer::Query),
            Arg::Buf(Buffer::KeyCache),
            Arg::Buf(Buffer::ValueCache),
            Arg::Buf(Buffer::AttnOut),
            Arg::InvSqrt(head_dim),
            int_arg(head_dim as int),
            int_arg(n_head as int),
            int_arg(n_kv_head as int),
            positions,
        ],
    )
}

/// Chunks that `n_positions` cached rows fall into, at least one.
pub open spec fn split_chunks(n_positions: usize, chunk_len: usize) -> int {
    let c = ceil_div(n_positions as int, chunk_len as int);
    if c < 1 {
        1
    } else {
        c
    }
}

/// The arguments of the split kernels.
pub open spec fn split_args(
    head_dim: usize,
    n_head: usize,
    n_kv_head: usize,
    chunk_len: usize,
    positions: Arg,
) -> Seq<Arg> {
    seq![
        Arg::Buf(Buffer::Query),
        Arg::Buf(Buffer::KeyCache),
        Arg::Buf(Buffer::ValueCache),
        Arg::Buf(Buffer::PartM),
        Arg::Buf(Buffer::PartL),
        Arg::Buf(Buffer::PartOut),
        Arg::InvSqrt(head_dim),
        int_arg(head_dim as int),
        int_arg(n_head as int),
        int_arg(n_kv_head as int),
        int_arg(chunk_len as int),
        positions,
    ]
}

/// Partial attention over chunks of the cache: one block per query head and
/// chunk.
pub open spec fn split_launch(
    kernel: AttentionKernel,
    head_dim: usize,
    n_head: usize,
    n_kv_head: usize,
    chunk_len: usize,
    n_chunks: int,
    positions: Arg,
) -> LaunchView<AttentionKernel> {
    launch_of(
        kernel,
        LaunchConfig {
            grid_dim: (low_u32(n_head as int), low_u32(n_chunks), 1),
            block_dim: (low_u32(head_dim as int), 1, 1),
            shared_mem_bytes: low_u32(head_dim * 4),
        },
        split_args(head_dim, n_head, n_kv_head, chunk_len, positions),
    )
}

/// Bytes of shared memory of the shared-head split: the queries of a group, a
/// K tile of 32 positions, the probabilities and the rescales.
pub open spec fn splitgqa_smem(head_dim: usize, n_head: usize, n_kv_head: usize) -> int {
    let g = group(n_head, n_kv_head);
    (g * head_dim + head_dim * 33 + g * 32 + g) * 4
}

/// Partial attention over chunks of the cache: one block per K/V head and
/// chunk, which serves the query heads that share the K/V head.
pub open spec fn splitgqa_launch(
    kernel: AttentionKernel,
    head_dim: usize,
    n_head: usize,
    n_kv_head: usize,
    chunk_len: usize,
    n_chunks: int,
    positions: Arg,
) -> LaunchView<AttentionKernel> {
    launch_of(
        kernel,
        LaunchConfig {
            grid_dim: (low_u32(n_kv_head as int), low_u32(n_chunks), 1),
            block_dim: (256, 1, 1),
            shared_mem_bytes: low_u32(splitgqa_smem(head_dim, n_head, n_kv_head)),
        },
        split_args(head_dim, n_head, n_kv_head, chunk_len, positions),
    )
}

/// Merges the partial results of the chunks: one block per query head, one
/// thread per lane.
pub open spec fn split_combine_launch(head_dim: usize, n_head: usize, n_chunks: int) -> LaunchView<
    AttentionKernel,
> {
    launch_of(
        AttentionKernel::SplitCombine,
        flat(low_u32(n_head as int), low_u32(head_dim as int), 0),
        seq![
            Arg::Buf(Buffer::PartM),
            Arg::Buf(Buffer::PartL),
            Arg::Buf(Buffer::PartOut),
            Arg::Buf(Buffer::AttnOut),
            int_arg(head_dim as int),
            int_arg(n_chunks),
        ],
    )
}

/// Gates the attention output in place: one thread per element.
pub open spec fn output_gate_launch(n: usize) -> LaunchView<AttentionKernel> {
    launch_of(
        AttentionKernel::OutputGate,
        linear(n as int),
        seq![Arg::Buf(Buffer::AttnOut), Arg::Buf(Buffer::Gate), int_arg(n as int)],
    )
}

/// [`split_chunks`], computed.
fn count_chunks(n_positions: usize, chunk_len: usize) -> (r: usize)
    requires
        chunk_len > 0,
    ensures
        r == split_chunks(n_positions, chunk_len),
{
    let c: usize = div_up(n_positions, chunk_len);
    if c < 1 {
        1
    } else {
        c
    }
}

/// [`split_args`], computed.
fn split_arg_vec(
    head_dim: usize,
    n_head: usize,
    n_kv_head: usize,
    chunk_len: usize,
    positions: Arg,
) -> (r: Vec<Arg>)
    ensures
        r@ == split_args(head_dim, n_head, n_kv_head, chunk_len, positions),
{
    let r: Vec<Arg> = vec![
        Arg::Buf(Buffer::Query),
        Arg::Buf(Buffer::KeyCache),
        Arg::Buf(Buffer::ValueCache),
        Arg::Buf(Buffer::PartM),
        Arg::Buf(Buffer::PartL),
        Arg::Buf(Buffer::PartOut),
        Arg::InvSqrt(head_dim),
        size_arg(head_dim),
        size_arg(n_head),
        size_arg(n_kv_head),
        size_arg(chunk_len),
        positions,
    ];
    assert(r@ =~= split_args(head_dim, n_head, n_kv_head, chunk_len, positions));
    r
}

/// [`rope_launch`], planned.
fn plan_rope(
    kernel: AttentionKernel,
    q: Buffer,
    k: Buffer,
    rotary_dim: usize,
    head_dim: usize,
    n_head: usize,
    n_kv_head: usize,
    pos: Arg,
) -> (r: LaunchPlan<AttentionKernel>)
    requires
        n_head * (rotary_dim / 2) <= usize::MAX,
    ensures
        r@ == seq![rope_launch(kernel, q, k, rotary_dim, head_dim, n_head, n_kv_head, pos)],
{
    let r = LaunchPlan::one(
        kernel,
        linear_config(n_head * (rotary_dim / 2)),
        vec![
            Arg::Buf(q),
            Arg::Buf(k),
            size_arg(rotary_dim),
            size_arg(head_dim),
            size_arg(n_head),
            size_arg(n_kv_head),
            pos,
            Arg::Real(Real::ThetaBase),
        ],
    );
    assert(r@ =~~= seq![
        rope_launch(kernel, q, k, rotary_dim, head_dim, n_head, n_kv_head, pos),
    ]);
    r
}

/// [`kv_append_launch`], planned.
fn plan_kv_append(kernel: AttentionKernel, kvd: usize, pos: Arg) -> (r: LaunchPlan<AttentionKernel>)
    ensures
        r@ == seq![kv_append_launch(kernel, kvd, pos)],
{
    let r = LaunchPlan::one(
        kernel,
        linear_config(kvd),
        vec![
            Arg::Buf(Buffer::KVec),
            Arg::Buf(Buffer::VVec),
            Arg::Buf(Buffer::KeyCache),
            Arg::Buf(Buffer::ValueCache),
            size_arg(kvd),
            pos,
        ],
    );
    assert(r@ =~~= seq![kv_append_launch(kernel, kvd, pos)]);
    r
}

/// [`attention_decode_launch`], planned.
fn plan_decode(
    kernel: AttentionKernel,
    head_dim: usize,
    n_head: usize,
    n_kv_head: usize,
    positions: Arg,
) -> (r: LaunchPlan<AttentionKernel>)
    requires
        head_dim * 4 <= usize::MAX,
    ensures
        r@ == seq![attention_decode_launch(kernel, head_dim, n_head, n_kv_head, positions)],
{
    let r = LaunchPlan::one(
        kernel,
        flat_config(to_u32(n_head), to_u32(head_dim), to_u32(head_dim * 4)),
        vec![
            Arg::Buf(Buffer::Query),
            Arg::Buf(Buffer::KeyCache),
            Arg::Buf(Buffer::ValueCache),
            Arg::Buf(Buffer::AttnOut),
            Arg::InvSqrt(head_dim),
            size_arg(head_dim),
            size_arg(n_head),
            size_arg(n_kv_head),
            positions,
        ],
    );
    assert(r@ =~~= seq![
        attention_decode_launch(kernel, head_dim, n_head, n_kv_head, positions),
    ]);
    r
}

/// [`split_launch`], planned, and the merge of its chunks.
fn plan_split(
    kernel: AttentionKernel,
    head_dim: usize,
    n_head: usize,
    n_kv_head: usize,
    chunk_len: usize,
    n_chunks: usize,
    positions: Arg,
) -> (r: LaunchPlan<AttentionKernel>)
    requires
        head_dim * 4 <= usize::MAX,
    ensures
        r@ == seq![
            split_launch(
                kernel,
                head_dim,
                n_head,
                n_kv_head,
                chunk_len,
                n_chunks as int,
                positions,
            ),
            split_combine_launch(head_dim, n_head, n_chunks as int),
        ],
{
    let partial = LaunchPlan::one(
        kernel,
        LaunchConfig {
            grid_dim: (to_u32(n_head), to_u32(n_chunks), 1),
            block_dim: (to_u32(head_dim), 1, 1),
            shared_mem_bytes: to_u32(head_dim * 4),
        },
        split_arg_vec(head_dim, n_head, n_kv_head, chunk_len, positions),
    );
    let r = AttentionKernels::launch_split_combine(partial, head_dim, n_head, n_chunks);
    assert(r@ =~= seq![
        split_launch(kernel, head_dim, n_head, n_kv_head, chunk_len, n_chunks as int, positions),
        split_combine_launch(head_dim, n_head, n_chunks as int),
    ]);
    r
}

/// The terms of [`splitgqa_smem`] stay small where the sizes are accepted.
proof fn lemma_splitgqa_smem_small(head_dim: usize, n_head: usize, n_kv_head: usize)
    requires
        1 <= group(n_head, n_kv_head) <= 8,
        1 <= head_dim <= 256,
    ensures
        0 <= group(n_head, n_kv_head) * head_dim <= 2048,
        0 <= splitgqa_smem(head_dim, n_head, n_kv_head) <= 43040,
{
    let g = group(n_head, n_kv_head);
    assert(0 <= g * head_dim <= 8 * 256) by (nonlinear_arith)
        requires
            1 <= g <= 8,
            1 <= head_dim <= 256,
    ;
}

/// [`splitgqa_launch`], planned, and the merge of its chunks.
fn plan_splitgqa(
    kernel: AttentionKernel,
    head_dim: usize,
    n_head: usize,
    n_kv_head: usize,
    chunk_len: usize,
    n_chunks: usize,
    positions: Arg,
) -> (r: LaunchPlan<AttentionKernel>)
    requires
        splitgqa_refusal(head_dim, n_head, n_kv_head, chunk_len) is None,
    ensures
        r@ == seq![
            splitgqa_launch(
                kernel,
                head_dim,
                n_head,
                n_kv_head,
                chunk_len,
                n_chunks as int,
                positions,
            ),
            split_combine_launch(head_dim, n_head, n_chunks as int),
        ],
{
    let g: usize = group_size(n_head, n_kv_head);
    proof {
        lemma_splitgqa_smem_small(head_dim, n_head, n_kv_head);
    }
    let smem_floats: usize = g * head_dim + head_dim * 33 + g * 32 + g;
    let partial = LaunchPlan::one(
        kernel,
        LaunchConfig {
            grid_dim: (to_u32(n_kv_head), to_u32(n_chunks), 1),
            block_dim: (256, 1, 1),
            shared_mem_bytes: to_u32(smem_floats * 4),
        },
        split_arg_vec(head_dim, n_head, n_kv_head, chunk_len, positions),
    );
    let r = AttentionKernels::launch_split_combine(partial, head_dim, n_head, n_chunks);
    assert(r@ =~= seq![
        splitgqa_launch(kernel, head_dim, n_head, n_kv_head, chunk_len, n_chunks as int, positions),
        split_combine_launch(head_dim, n_head, n_chunks as int),
    ]);
    r
}

impl AttentionKernels {
    /// Rotary embedding of the first `rotary_dim` lanes of each head of `q` and
    /// `k`, in place, at position `pos`.
    ///
    /// `q` covers `n_head * head_dim` elements and `k` `n_kv_head * head_dim`.
    /// At most `head_dim` lanes are rotated: `rotary_dim <= head_dim`.
    pub fn launch_rope(
        &self,
        rotary_dim: usize,
        head_dim: usize,
        n_head: usize,
        n_kv_head: usize,
        pos: usize,
    ) -> (r: LaunchPlan<AttentionKernel>)
        requires
            n_head * (rotary_dim / 2) <= usize::MAX,
        ensures
            r@ == seq![
                rope_launch(
                    AttentionKernel::Rope,
                    Buffer::Q,
                    Buffer::K,
                    rotary_dim,
                    head_dim,
                    n_head,
                    n_kv_head,
                    int_arg(pos as int),
                ),
            ],
    {
        plan_rope(
            AttentionKernel::Rope,
            Buffer::Q,
            Buffer::K,
            rotary_dim,
            head_dim,
            n_head,
            n_kv_head,
            size_arg(pos),
        )
    }

    /// The backward pass of [`AttentionKernels::launch_rope`], on the gradients
    /// of `q` and `k`.
    ///
    /// `grad_q` covers `n_head * head_dim` elements and `grad_k` `n_kv_head *
    /// head_dim`. At most `head_dim` lanes are rotated: `rotary_dim <=
    /// head_dim`.
    pub fn launch_rope_backward(
        &self,
        rotary_dim: usize,
        head_dim: usize,
        n_head: usize,
        n_kv_head: usize,
        pos: usize,
    ) -> (r: LaunchPlan<AttentionKernel>)
        requires
            n_head * (rotary_dim / 2) <= usize::MAX,
        ensures
            r@ == seq![
                rope_launch(
                    AttentionKernel::RopeBackward,
                    Buffer::GradQ,
                    Buffer::GradK,
                    rotary_dim,
                    head_dim,
                    n_head,
                    n_kv_head,
                    int_arg(pos as int),
                ),
            ],
    {
        plan_rope(
            AttentionKernel::RopeBackward,
            Buffer::GradQ,
            Buffer::GradK,
            rotary_dim,
            head_dim,
            n_head,
            n_kv_head,
            size_arg(pos),
        )
    }

    /// [`AttentionKernels::launch_rope`] at the position that a buffer holds.
    ///
    /// The buffers cover as many elements as there, and the position buffer
    /// one.
    pub fn launch_rope_devpos(
        &self,
        rotary_dim: usize,
        head_dim: usize,
        n_head: usize,
        n_kv_head: usize,
    ) -> (r: LaunchPlan<AttentionKernel>)
        requires
            n_head * (rotary_dim / 2) <= usize::MAX,
        ensures
            r@ == seq![
                rope_launch(
                    AttentionKernel::RopeDevpos,
                    Buffer::Q,
                    Buffer::K,
                    rotary_dim,
                    head_dim,
                    n_head,
                    n_kv_head,
                    Arg::Buf(Buffer::PosDev),
                ),
            ],
    {
        plan_rope(
            AttentionKernel::RopeDevpos,
            Buffer::Q,
            Buffer::K,
            rotary_dim,
            head_dim,
            n_head,
            n_kv_head,
            Arg::Buf(Buffer::PosDev),
        )
    }

    /// Separates `[n_head, 2 * head_dim]` query/gate rows into `q` and `gate`.
    ///
    /// `qg` covers `n_head * 2 * head_dim` elements, `q` and `gate` `n_head *
    /// head_dim` each.
    pub fn launch_split_qg(&self, head_dim: usize, n_head: usize) -> (r: LaunchPlan<
        AttentionKernel,
    >)
        requires
            n_head * head_dim <= usize::MAX,
        ensures
            r@ == seq![split_qg_launch(head_dim, n_head)],
    {
        let r = LaunchPlan::one(
            AttentionKernel::SplitQg,
            linear_config(n_head * head_dim),
            vec![
                Arg::Buf(Buffer::Qg),
                Arg::Buf(Buffer::Q),
                Arg::Buf(Buffer::Gate),
                size_arg(head_dim),
                size_arg(n_head),
            ],
        );
        assert(r@ =~~= seq![split_qg_launch(head_dim, n_head)]);
        r
    }

    /// RMS norm of each of `n_batch` heads, with one `gamma` for all of them.
    ///
    /// `input` and `output` cover `n_batch * head_dim` elements and `gamma`
    /// `head_dim`.
    pub fn launch_rmsnorm_batched(&self, n_batch: usize, head_dim: usize) -> (r: LaunchPlan<
        AttentionKernel,
    >)
        ensures
            r@ == seq![rmsnorm_batched_launch(n_batch, head_dim)],
    {
        let r = LaunchPlan::one(
            AttentionKernel::RmsnormBatched,
            flat_config(to_u32(n_batch), 256, 1024),
            vec![
                Arg::Buf(Buffer::Input),
                Arg::Buf(Buffer::Gamma),
                Arg::Buf(Buffer::Output),
                Arg::Recip(head_dim),
                Arg::Real(Real::Eps),
                size_arg(head_dim),
            ],
        );
        assert(r@ =~~= seq![rmsnorm_batched_launch(n_batch, head_dim)]);
        r
    }

    /// Writes one K row and one V row of `kvd` elements into the caches at row
    /// `pos`.
    ///
    /// `k_vec` and `v_vec` cover `kvd` elements and each cache `(pos + 1) *
    /// kvd`.
    pub fn launch_kv_cache_append(&self, kvd: usize, pos: usize) -> (r: LaunchPlan<AttentionKernel>)
        ensures
            r@ == seq![
                kv_append_launch(AttentionKernel::KvCacheAppend, kvd, int_arg(pos as int)),
            ],
    {
        plan_kv_append(AttentionKernel::KvCacheAppend, kvd, size_arg(pos))
    }

    /// [`AttentionKernels::launch_kv_cache_append`] at the row that a buffer
    /// holds.
    ///
    /// The buffers cover as many elements as there, and the position buffer
    /// one.
    pub fn launch_kv_cache_append_devpos(&self, kvd: usize) -> (r: LaunchPlan<AttentionKernel>)
        ensures
            r@ == seq![
                kv_append_launch(
                    AttentionKernel::KvCacheAppendDevpos,
                    kvd,
                    Arg::Buf(Buffer::PosDev),
                ),
            ],
    {
        plan_kv_append(AttentionKernel::KvCacheAppendDevpos, kvd, Arg::Buf(Buffer::PosDev))
    }

    /// Decode attention of one query row over `n_positions` cached rows.
    ///
    /// `query` and `attn_out` cover `n_head * head_dim` elements and each cache
    /// `n_positions * n_kv_head * head_dim`.
    pub fn launch_attention_decode(
        &self,
        head_dim: usize,
        n_head: usize,
        n_kv_head: usize,
        n_positions: usize,
    ) -> (r: LaunchPlan<AttentionKernel>)
        requires
            head_dim * 4 <= usize::MAX,
        ensures
            r@ == seq![
                attention_decode_launch(
                    AttentionKernel::AttentionDecode,
                    head_dim,
                    n_head,
                    n_kv_head,
                    int_arg(n_positions as int),
                ),
            ],
    {
        plan_decode(
            AttentionKernel::AttentionDecode,
            head_dim,
            n_head,
            n_kv_head,
            size_arg(n_positions),
        )
    }

    /// [`AttentionKernels::launch_attention_decode`] up to the position that a
    /// buffer holds.
    ///
    /// Where the buffer holds `pos`, `pos + 1` cached rows are attended. The
    /// buffers cover as many elements as there, and the position buffer one.
    pub fn launch_attention_decode_devpos(
        &self,
        head_dim: usize,
        n_head: usize,
        n_kv_head: usize,
    ) -> (r: LaunchPlan<AttentionKernel>)
        requires
            head_dim * 4 <= usize::MAX,
        ensures
            r@ == seq![
                attention_decode_launch(
                    AttentionKernel::AttentionDecodeDevpos,
                    head_dim,
                    n_head,
                    n_kv_head,
                    Arg::Buf(Buffer::PosDev),
                ),
            ],
    {
        plan_decode(
            AttentionKernel::AttentionDecodeDevpos,
            head_dim,
            n_head,
            n_kv_head,
            Arg::Buf(Buffer::PosDev),
        )
    }

    /// Decode attention in chunks of `chunk_len` cached rows, then the merge of
    /// the chunks.
    ///
    /// `chunk_len` has to be a multiple of `head_dim`: the kernel walks a chunk
    /// in tiles of `head_dim` positions, and other chunks would overlap.
    /// `query` and `attn_out` cover `n_head * head_dim` elements, each cache
    /// `n_positions * n_kv_head * head_dim`, and, for `c = ceil(n_positions /
    /// chunk_len)` chunks or one, `part_m` and `part_l` cover `n_head * c` and
    /// `part_out` `n_head * c * head_dim`.
    pub fn launch_attention_decode_split(
        &self,
        head_dim: usize,
        n_head: usize,
        n_kv_head: usize,
        chunk_len: usize,
        n_positions: usize,
    ) -> (r: LaunchPlan<AttentionKernel>)
        requires
            chunk_len > 0,
            head_dim * 4 <= usize::MAX,
        ensures
            r@ == seq![
                split_launch(
                    AttentionKernel::Split,
                    head_dim,
                    n_head,
                    n_kv_head,
                    chunk_len,
                    split_chunks(n_positions, chunk_len),
                    int_arg(n_positions as int),
                ),
                split_combine_launch(head_dim, n_head, split_chunks(n_positions, chunk_len)),
            ],
    {
        plan_split(
            AttentionKernel::Split,
            head_dim,
            n_head,
            n_kv_head,
            chunk_len,
            count_chunks(n_positions, chunk_len),
            size_arg(n_positions),
        )
    }

    /// [`AttentionKernels::launch_attention_decode_split`] up to the position
    /// that a buffer holds, with blocks for `n_chunks_max` chunks.
    ///
    /// Where the buffer holds `pos`, `pos + 1` cached rows are attended, and
    /// the chunks behind them contribute nothing. `chunk_len` has to be a
    /// multiple of `head_dim`. The buffers cover as many elements as there, for
    /// `n_chunks_max` chunks, and the position buffer one.
    pub fn launch_attention_decode_split_devpos(
        &self,
        head_dim: usize,
        n_head: usize,
        n_kv_head: usize,
        chunk_len: usize,
        n_chunks_max: usize,
    ) -> (r: LaunchPlan<AttentionKernel>)
        requires
            head_dim * 4 <= usize::MAX,
        ensures
            r@ == seq![
                split_launch(
                    AttentionKernel::SplitDevpos,
                    head_dim,
                    n_head,
                    n_kv_head,
                    chunk_len,
                    n_chunks_max as int,
                    Arg::Buf(Buffer::PosDev),
                ),
                split_combine_launch(head_dim, n_head, n_chunks_max as int),
            ],
    {
        plan_split(
            AttentionKernel::SplitDevpos,
            head_dim,
            n_head,
            n_kv_head,
            chunk_len,
            n_chunks_max,
            Arg::Buf(Buffer::PosDev),
        )
    }

    /// Split decode attention in which one block serves all query heads of a
    /// K/V head, then the merge of the chunks.
    ///
    /// `query` and `attn_out` cover `n_head * head_dim` elements, each cache
    /// `n_positions * n_kv_head * head_dim`, and, for `c = ceil(n_positions /
    /// chunk_len)` chunks or one, `part_m` and `part_l` cover `n_head * c` and
    /// `part_out` `n_head * c * head_dim`.
    pub fn launch_attention_decode_split_gqa(
        &self,
        head_dim: usize,
        n_head: usize,
        n_kv_head: usize,
        chunk_len: usize,
        n_positions: usize,
    ) -> (r: Result<LaunchPlan<AttentionKernel>, CudarcKernelError>)
        requires
            splitgqa_refusal(head_dim, n_head, n_kv_head, chunk_len) is None ==> chunk_len > 0,
        ensures
            planned(
                r,
                splitgqa_refusal(head_dim, n_head, n_kv_head, chunk_len),
                seq![
                    splitgqa_launch(
                        AttentionKernel::Splitgqa,
                        head_dim,
                        n_head,
                        n_kv_head,
                        chunk_len,
                        split_chunks(n_positions, chunk_len),
                        int_arg(n_positions as int),
                    ),
                    split_combine_launch(head_dim, n_head, split_chunks(n_positions, chunk_len)),
                ],
            ),
    {
        match validate_splitgqa(head_dim, n_head, n_kv_head, chunk_len) {
            Err(e) => Err(e),
            Ok(()) => Ok(
                plan_splitgqa(
                    AttentionKernel::Splitgqa,
                    head_dim,
                    n_head,
                    n_kv_head,
                    chunk_len,
                    count_chunks(n_positions, chunk_len),
                    size_arg(n_positions),
                ),
            ),
        }
    }

    /// [`AttentionKernels::launch_attention_decode_split_gqa`] up to the
    /// position that a buffer holds, with blocks for `n_chunks_max` chunks.
    ///
    /// Where the buffer holds `pos`, `pos + 1` cached rows are attended, and
    /// the chunks behind them contribute nothing. The buffers cover as many
    /// elements as there, for `n_chunks_max` chunks, and the position buffer
    /// one.
    pub fn launch_attention_decode_split_gqa_devpos(
        &self,
        head_dim: usize,
        n_head: usize,
        n_kv_head: usize,
        chunk_len: usize,
        n_chunks_max: usize,
    ) -> (r: Result<LaunchPlan<AttentionKernel>, CudarcKernelError>)
        ensures
            planned(
                r,
                splitgqa_refusal(head_dim, n_head, n_kv_head, chunk_len),
                seq![
                    splitgqa_launch(
                        AttentionKernel::SplitgqaDevpos,
                        head_dim,
                        n_head,
                        n_kv_head,
                        chunk_len,
                        n_chunks_max as int,
                        Arg::Buf(Buffer::PosDev),
                    ),
                    split_combine_launch(head_dim, n_head, n_chunks_max as int),
                ],
            ),
    {
        match validate_splitgqa(head_dim, n_head, n_kv_head, chunk_len) {
            Err(e) => Err(e),
            Ok(()) => Ok(
                plan_splitgqa(
                    AttentionKernel::SplitgqaDevpos,
                    head_dim,
                    n_head,
                    n_kv_head,
                    chunk_len,
                    n_chunks_max,
                    Arg::Buf(Buffer::PosDev),
                ),
            ),
        }
    }

    /// Adds the merge of `n_chunks` chunks to a plan.
    fn launch_split_combine(
        plan: LaunchPlan<AttentionKernel>,
        head_dim: usize,
        n_head: usize,
        n_chunks: usize,
    ) -> (r: LaunchPlan<AttentionKernel>)
        ensures
            r@ == plan@.push(split_combine_launch(head_dim, n_head, n_chunks as int)),
    {
        let r = plan.followed_by(
            AttentionKernel::SplitCombine,
            flat_config(to_u32(n_head), to_u32(head_dim), 0),
            vec![
                Arg::Buf(Buffer::PartM),
                Arg::Buf(Buffer::PartL),
                Arg::Buf(Buffer::PartOut),
                Arg::Buf(Buffer::AttnOut),
                size_arg(head_dim),
                size_arg(n_chunks),
            ],
        );
        assert(r@.last().args =~= split_combine_launch(head_dim, n_head, n_chunks as int).args);
        r
    }

    /// Multiplies the attention output by the sigmoid of `gate`, in place.
    ///
    /// `attn_out` and `gate` cover `n` elements.
    pub fn launch_output_gate(&self, n: usize) -> (r: LaunchPlan<AttentionKernel>)
        ensures
            r@ == seq![output_gate_launch(n)],
    {
        let r = LaunchPlan::one(
            AttentionKernel::OutputGate,
            linear_config(n),
            vec![Arg::Buf(Buffer::AttnOut), Arg::Buf(Buffer::Gate), size_arg(n)],
        );
        assert(r@ =~~= seq![output_gate_launch(n)]);
        r
    }
}

} // verus!
