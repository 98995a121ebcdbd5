//! Several rows at once: rotary embedding, cache append, query/gate split and
//! shared-head split attention of `p` consecutive positions.
//!
//! The attention comes in four forms. The plain one gives each block four rows
//! of a K/V head. `ma` keeps more accumulators per thread. `qg` gives each block
//! of 1024 threads sixteen rows. `qgma` does both.

use vstd::prelude::*;
use crate::attention::decode::launch_of;
use crate::attention::{
    group, group_size, kf4_for, splitgqa_refusal, validate_splitgqa, AttentionKernel,
    AttentionKernels, SPLITGQA_QGMA_ROWS_MAX_P, SPLITGQA_QG_ROWS_MAX_P,
};
use crate::error::{CudarcKernelError, ErrorView};
use crate::geometry::{
    ceil_div, div_up, flat, flat_config, int_arg, linear, linear_config, low_u32, size_arg, to_u32,
};
use crate::launch::{planned, Arg, Buffer, LaunchConfig, LaunchPlan, LaunchView, Real};
use crate::text::{append_number, decimal};

verus! {

/// Rows of one block of the plain and the many-accumulator kernels.
pub const ROWS_PER_BLOCK: usize = 4;

/// Rows of one block of the query-grouped kernels.
pub const QG_ROWS_PER_BLOCK: usize = 16;

/// Rotary embedding of `p` rows in place: one thread per pair of lanes of a
/// query head of a row. Row `i` stands at position `base + i`.
pub open spec fn rope_rows_launch(
    kernel: AttentionKernel,
    rotary_dim: usize,
    head_dim: usize,
    n_head: usize,
    n_kv_head: usize,
    base: Arg,
    p: usize,
) -> LaunchView<AttentionKernel> {
    launch_of(
        kernel,
        linear(p * n_head * (rotary_dim / 2)),
        seq![
            Arg::Buf(Buffer::Q),
            Arg::Buf(Buffer::K),
            int_arg(rotary_dim as int),
            int_arg(head_dim as int),
            int_arg(n_head as int),
            int_arg(n_kv_head as int),
            base,
            int_arg(p as int),
            Arg::Real(Real::ThetaBase),
        ],
    )
}

/// Appends `p` rows to the K/V caches: one thread per element.
pub open spec fn kv_append_rows_launch(
    kernel: AttentionKernel,
    kvd: usize,
    base: Arg,
    p: usize,
) -> LaunchView<AttentionKernel> {
    launch_of(
        kernel,
        linear(p * kvd),
        seq![
            Arg::Buf(Buffer::KVec),
            Arg::Buf(Buffer::VVec),
            Arg::Buf(Buffer::KeyCache),
            Arg::Buf(Buffer::ValueCache),
            int_arg(kvd as int),
            base,
            int_arg(p as int),
        ],
    )
}

/// Separates the interleaved query and gate of `p` rows: one thread per
/// element.
pub open spec fn split_qg_rows_launch(head_dim: usize, n_head: usize, p: usize) -> LaunchView<
    AttentionKernel,
> {
    launch_of(
        AttentionKernel::SplitQgRows,
        linear(p * n_head * head_dim),
        seq![
            Arg::Buf(Buffer::Qg),
            Arg::Buf(Buffer::Q),
            Arg::Buf(Buffer::Gate),
            int_arg(head_dim as int),
            int_arg(n_head as int),
            int_arg(p as int),
        ],
    )
}

/// Bytes of shared memory of a block that serves `rows` rows: a K tile of 32
/// positions, and the probabilities and rescales of each row's query heads.
pub open spec fn rows_smem(rows: int, head_dim: usize, n_head: usize, n_kv_head: usize) -> int {
    let g = group(n_head, n_kv_head);
    (head_dim * 33 + rows * g * 32 + rows * g) * 4
}

/// Partial attention of `p` rows over chunks of the cache: one block of `block`
/// threads per K/V head, chunk and slice of `rows` rows.
pub open spec fn splitgqa_rows_launch(
    kernel: AttentionKernel,
    block: u32,
    rows: int,
    kf4: i32,
    head_dim: usize,
    n_head: usize,
    n_kv_head: usize,
    chunk_len: usize,
    n_chunks: usize,
    base: Arg,
    p: usize,
) -> LaunchView<AttentionKernel> {
    launch_of(
        kernel,
        LaunchConfig {
            grid_dim: (
                low_u32(n_kv_head as int),
                low_u32(n_chunks as int),
                low_u32(ceil_div(p as int, rows)),
            ),
            block_dim: (block, 1, 1),
            shared_mem_bytes: low_u32(rows_smem(rows, head_dim, n_head, n_kv_head)),
        },
        seq![
            Arg::Buf(Buffer::Query),
            Arg::Buf(Buffer::KeyCache),
            Arg::Buf(Buffer::ValueCache),
            Arg::Buf(Buffer::PartM),
            Arg::Buf(Buffer::PartL),
            Arg::Buf(Buffer::PartOut),
            Arg::InvSqrt(head_dim),
            int_arg(head_dim as int),
            int_arg(n_head as int),
            int_arg(n_kv_head as int),
            int_arg(chunk_len as int),
            base,
            int_arg(p as int),
            Arg::I32(kf4_for(kf4, head_dim)),
        ],
    )
}

/// Merges the partial results of `p` rows: one block per row and query head,
/// one thread per lane.
pub open spec fn combine_rows_launch(
    head_dim: usize,
    n_head: usize,
    n_chunks: usize,
    p: usize,
) -> LaunchView<AttentionKernel> {
    launch_of(
        AttentionKernel::SplitCombineRows,
        flat(low_u32(p * n_head), low_u32(head_dim as int), 0),
        combine_rows_args(head_dim, n_head, n_chunks, p),
    )
}

/// The arguments of the merge.
pub open spec fn combine_rows_args(
    head_dim: usize,
    n_head: usize,
    n_chunks: usize,
    p: usize,
) -> Seq<Arg> {
    seq![
        Arg::Buf(Buffer::PartM),
        Arg::Buf(Buffer::PartL),
        Arg::Buf(Buffer::PartOut),
        Arg::Buf(Buffer::AttnOut),
        int_arg(head_dim as int),
        int_arg(n_head as int),
        int_arg(n_chunks as int),
        int_arg(p as int),
    ]
}

/// Why a head dimension is refused by a kernel that is written for 256 lanes.
pub open spec fn head_dim_refusal(label: Seq<char>, head_dim: usize) -> Option<Seq<char>> {
    if head_dim != 256 {
        Some(label + ": head_dim must be 256 (got "@ + decimal(head_dim as nat) + ")"@)
    } else {
        None
    }
}

/// Why a number of rows is refused by a kernel that takes 1 to `max` rows.
pub open spec fn rows_refusal(label: Seq<char>, p: usize, max: usize) -> Option<Seq<char>> {
    if !(1 <= p <= max) {
        Some(
            label + ": p must be in 1..="@ + decimal(max as nat) + " (got "@ + decimal(p as nat)
                + ")"@,
        )
    } else {
        None
    }
}

/// Why a launch of the many-accumulator kernels is refused, if it is.
pub open spec fn ma_refusal(
    head_dim: usize,
    n_head: usize,
    n_kv_head: usize,
    chunk_len: usize,
) -> Option<Seq<char>> {
    match splitgqa_refusal(head_dim, n_head, n_kv_head, chunk_len) {
        Some(t) => Some(t),
        None => head_dim_refusal("splitgqa rows ma"@, head_dim),
    }
}

/// Why a launch of a kernel for 256 lanes and 1 to `max` rows is refused, if it
/// is: the sizes first, then the head dimension, then the rows.
pub open spec fn grouped_refusal(
    label: Seq<char>,
    max: usize,
    head_dim: usize,
    n_head: usize,
    n_kv_head: usize,
    chunk_len: usize,
    p: usize,
) -> Option<Seq<char>> {
    match splitgqa_refusal(head_dim, n_head, n_kv_head, chunk_len) {
        Some(t) => Some(t),
        None => match head_dim_refusal(label, head_dim) {
            Some(t) => Some(t),
            None => rows_refusal(label, p, max),
        },
    }
}

/// [`head_dim_refusal`], computed.
pub(crate) fn check_head_dim(label: &str, head_dim: usize) -> (r: Result<(), CudarcKernelError>)
    ensures
        match r {
            Ok(()) => head_dim_refusal(label@, head_dim) is None,
            Err(e) => head_dim_refusal(label@, head_dim) matches Some(t)
                && e@ == ErrorView::InvalidArg(t),
        },
{
    if head_dim != 256 {
        let mut s: String = label.to_owned();
        s.append(": head_dim must be 256 (got ");
        append_number(&mut s, head_dim);
        s.append(")");
        return Err(CudarcKernelError::InvalidArg(s));
    }
    Ok(())
}

/// [`rows_refusal`], computed.
pub(crate) fn check_rows(label: &str, p: usize, max: usize) -> (r: Result<(), CudarcKernelError>)
    ensures
        match r {
            Ok(()) => rows_refusal(label@, p, max) is None,
            Err(e) => rows_refusal(label@, p, max) matches Some(t)
                && e@ == ErrorView::InvalidArg(t),
        },
{
    if p == 0 || p > max {
        let mut s: String = label.to_owned();
        s.append(": p must be in 1..=");
        append_number(&mut s, max);
        s.append(" (got ");
        append_number(&mut s, p);
        s.append(")");
        return Err(CudarcKernelError::InvalidArg(s));
    }
    Ok(())
}

/// [`grouped_refusal`], computed.
pub(crate) fn check_grouped(
    label: &str,
    max: usize,
    head_dim: usize,
    n_head: usize,
    n_kv_head: usize,
    chunk_len: usize,
    p: usize,
) -> (r: Result<(), CudarcKernelError>)
    ensures
        match r {
            Ok(()) => grouped_refusal(
                label@,
                max,
                head_dim,
                n_head,
                n_kv_head,
                chunk_len,
                p,
            ) is None,
            Err(e) => grouped_refusal(
                label@,
                max,
                head_dim,
                n_head,
                n_kv_head,
                chunk_len,
                p,
            ) matches Some(t) && e@ == ErrorView::InvalidArg(t),
        },
{
    match validate_splitgqa(head_dim, n_head, n_kv_head, chunk_len) {
        Err(e) => Err(e),
        Ok(()) => match check_head_dim(label, head_dim) {
            Err(e) => Err(e),
            Ok(()) => check_rows(label, p, max),
        },
    }
}

/// [`rope_rows_launch`], planned.
fn plan_rope_rows(
    kernel: AttentionKernel,
    rotary_dim: usize,
    head_dim: usize,
    n_head: usize,
    n_kv_head: usize,
    base: Arg,
    p: usize,
) -> (r: LaunchPlan<AttentionKernel>)
    requires
        p * n_head <= usize::MAX,
        p * n_head * (rotary_dim / 2) <= usize::MAX,
    ensures
        r@ == seq![rope_rows_launch(kernel, rotary_dim, head_dim, n_head, n_kv_head, base, p)],
{
    let r = LaunchPlan::one(
        kernel,
        linear_config(p * n_head * (rotary_dim / 2)),
        vec![
            Arg::Buf(Buffer::Q),
            Arg::Buf(Buffer::K),
            size_arg(rotary_dim),
            size_arg(head_dim),
            size_arg(n_head),
            size_arg(n_kv_head),
            base,
            size_arg(p),
            Arg::Real(Real::ThetaBase),
        ],
    );
    assert(r@ =~~= seq![
        rope_rows_launch(kernel, rotary_dim, head_dim, n_head, n_kv_head, base, p),
    ]);
    r
}

/// [`kv_append_rows_launch`], planned.
fn plan_kv_append_rows(kernel: AttentionKernel, kvd: usize, base: Arg, p: usize) -> (r: LaunchPlan<
    AttentionKernel,
>)
    requires
        p * kvd <= usize::MAX,
    ensures
        r@ == seq![kv_append_rows_launch(kernel, kvd, base, p)],
{
    let r = LaunchPlan::one(
        kernel,
        linear_config(p * kvd),
        vec![
            Arg::Buf(Buffer::KVec),
            Arg::Buf(Buffer::VVec),
            Arg::Buf(Buffer::KeyCache),
            Arg::Buf(Buffer::ValueCache),
            size_arg(kvd),
            base,
            size_arg(p),
        ],
    );
    assert(r@ =~~= seq![kv_append_rows_launch(kernel, kvd, base, p)]);
    r
}

/// The terms of [`rows_smem`] stay small where the sizes are accepted.
pub(crate) proof fn lemma_rows_smem_small(
    rows: int,
    head_dim: usize,
    n_head: usize,
    n_kv_head: usize,
)
    requires
        1 <= group(n_head, n_kv_head) <= 8,
        1 <= head_dim <= 256,
        1 <= rows <= 16,
    ensures
        0 <= rows * group(n_head, n_kv_head) <= rows * 8,
        0 <= rows_smem(rows, head_dim, n_head, n_kv_head) <= (8448 + rows * 264) * 4,
{
    let g = group(n_head, n_kv_head);
    assert(0 <= rows * g <= rows * 8) by (nonlinear_arith)
        requires
            1 <= g <= 8,
            1 <= rows,
    ;
}

/// The arguments of the merge, computed.
pub(crate) fn combine_rows_arg_vec(
    head_dim: usize,
    n_head: usize,
    n_chunks: usize,
    p: usize,
) -> (r: Vec<Arg>)
    ensures
        r@ == combine_rows_args(head_dim, n_head, n_chunks, p),
{
    let r: Vec<Arg> = vec![
        Arg::Buf(Buffer::PartM),
        Arg::Buf(Buffer::PartL),
        Arg::Buf(Buffer::PartOut),
        Arg::Buf(Buffer::AttnOut),
        size_arg(head_dim),
        size_arg(n_head),
        size_arg(n_chunks),
        size_arg(p),
    ];
    assert(r@ =~= combine_rows_args(head_dim, n_head, n_chunks, p));
    r
}

impl AttentionKernels {
    /// Rotary embedding of `p` rows in place, row `i` at position
    /// `base_pos + i`.
    ///
    /// `q` covers `p * n_head * head_dim` elements and `k` `p * n_kv_head *
    /// head_dim`. At most `head_dim` lanes are rotated: `rotary_dim <=
    /// head_dim`.
    pub fn launch_rope_rows(
        &self,
        rotary_dim: usize,
        head_dim: usize,
        n_head: usize,
        n_kv_head: usize,
        base_pos: usize,
        p: usize,
    ) -> (r: LaunchPlan<AttentionKernel>)
        requires
            p * n_head <= usize::MAX,
            p * n_head * (rotary_dim / 2) <= usize::MAX,
        ensures
            r@ == seq![
                rope_rows_launch(
                    AttentionKernel::RopeRows,
                    rotary_dim,
                    head_dim,
                    n_head,
                    n_kv_head,
                    int_arg(base_pos as int),
                    p,
                ),
            ],
    {
        plan_rope_rows(
            AttentionKernel::RopeRows,
            rotary_dim,
            head_dim,
            n_head,
            n_kv_head,
            size_arg(base_pos),
            p,
        )
    }

    /// [`AttentionKernels::launch_rope_rows`] from the position that a buffer
    /// holds.
    ///
    /// The buffers cover as many elements as there, and the position buffer
    /// one.
    pub fn launch_rope_rows_devpos(
        &self,
        rotary_dim: usize,
        head_dim: usize,
        n_head: usize,
        n_kv_head: usize,
        p: usize,
    ) -> (r: LaunchPlan<AttentionKernel>)
        requires
            p * n_head <= usize::MAX,
            p * n_head * (rotary_dim / 2) <= usize::MAX,
        ensures
            r@ == seq![
                rope_rows_launch(
                    AttentionKernel::RopeRowsDevpos,
                    rotary_dim,
                    head_dim,
                    n_head,
                    n_kv_head,
                    Arg::Buf(Buffer::PosDev),
                    p,
                ),
            ],
    {
        plan_rope_rows(
            AttentionKernel::RopeRowsDevpos,
            rotary_dim,
            head_dim,
            n_head,
            n_kv_head,
            Arg::Buf(Buffer::PosDev),
            p,
        )
    }

    /// Writes `p` K rows and V rows into the caches from row `base_pos` on.
    ///
    /// `k_vec` and `v_vec` cover `p * kvd` elements and each cache `(base_pos +
    /// p) * kvd`.
    pub fn launch_kv_append_rows(&self, kvd: usize, base_pos: usize, p: usize) -> (r: LaunchPlan<
        AttentionKernel,
    >)
        requires
            p * kvd <= usize::MAX,
        ensures
            r@ == seq![
                kv_append_rows_launch(
                    AttentionKernel::KvAppendRows,
                    kvd,
                    int_arg(base_pos as int),
                    p,
                ),
            ],
    {
        plan_kv_append_rows(AttentionKernel::KvAppendRows, kvd, size_arg(base_pos), p)
    }

    /// [`AttentionKernels::launch_kv_append_rows`] from the row that a buffer
    /// holds.
    ///
    /// The buffers cover as many elements as there, and the position buffer
    /// one.
    pub fn launch_kv_append_rows_devpos(&self, kvd: usize, p: usize) -> (r: LaunchPlan<
        AttentionKernel,
    >)
        requires
            p * kvd <= usize::MAX,
        ensures
            r@ == seq![
                kv_append_rows_launch(
                    AttentionKernel::KvAppendRowsDevpos,
                    kvd,
                    Arg::Buf(Buffer::PosDev),
                    p,
                ),
            ],
    {
        plan_kv_append_rows(AttentionKernel::KvAppendRowsDevpos, kvd, Arg::Buf(Buffer::PosDev), p)
    }

    /// Separates the query/gate rows of `p` positions into `q` and `gate`.
    ///
    /// `qg` covers `p * n_head * 2 * head_dim` elements, `q` and `gate` `p *
    /// n_head * head_dim` each.
    pub fn launch_split_qg_rows(&self, head_dim: usize, n_head: usize, p: usize) -> (r: LaunchPlan<
        AttentionKernel,
    >)
        requires
            p * n_head <= usize::MAX,
            p * n_head * head_dim <= usize::MAX,
        ensures
            r@ == seq![split_qg_rows_launch(head_dim, n_head, p)],
    {
        let r = LaunchPlan::one(
            AttentionKernel::SplitQgRows,
            linear_config(p * n_head * head_dim),
            vec![
                Arg::Buf(Buffer::Qg),
                Arg::Buf(Buffer::Q),
                Arg::Buf(Buffer::Gate),
                size_arg(head_dim),
                size_arg(n_head),
                size_arg(p),
            ],
        );
        assert(r@ =~~= seq![split_qg_rows_launch(head_dim, n_head, p)]);
        r
    }

    /// [`splitgqa_rows_launch`], planned, and the merge of its chunks.
    fn plan_splitgqa_rows(
        &self,
        kernel: AttentionKernel,
        block: u32,
        rows: usize,
        head_dim: usize,
        n_head: usize,
        n_kv_head: usize,
        chunk_len: usize,
        n_chunks: usize,
        base: Arg,
        p: usize,
    ) -> (r: LaunchPlan<AttentionKernel>)
        requires
            splitgqa_refusal(head_dim, n_head, n_kv_head, chunk_len) is None,
            1 <= rows <= 16,
            p * n_head <= usize::MAX,
        ensures
            r@ == seq![
                splitgqa_rows_launch(
                    kernel,
                    block,
                    rows as int,
                    self.kf4,
                    head_dim,
                    n_head,
                    n_kv_head,
                    chunk_len,
                    n_chunks,
                    base,
                    p,
                ),
                combine_rows_launch(head_dim, n_head, n_chunks, p),
            ],
    {
        let g: usize = group_size(n_head, n_kv_head);
        proof {
            lemma_rows_smem_small(rows as int, head_dim, n_head, n_kv_head);
        }
        let smem_floats: usize = head_dim * 33 + rows * g * 32 + rows * g;
        let plan = LaunchPlan::one(
            kernel,
            LaunchConfig {
                grid_dim: (to_u32(n_kv_head), to_u32(n_chunks), to_u32(div_up(p, rows))),
                block_dim: (block, 1, 1),
                shared_mem_bytes: to_u32(smem_floats * 4),
            },
            vec![
                Arg::Buf(Buffer::Query),
                Arg::Buf(Buffer::KeyCache),
                Arg::Buf(Buffer::ValueCache),
                Arg::Buf(Buffer::PartM),
                Arg::Buf(Buffer::PartL),
                Arg::Buf(Buffer::PartOut),
                Arg::InvSqrt(head_dim),
                size_arg(head_dim),
                size_arg(n_head),
                size_arg(n_kv_head),
                size_arg(chunk_len),
                base,
                size_arg(p),
                Arg::I32(self.verify_kf4_for(head_dim)),
            ],
        );
        let ghost partial = splitgqa_rows_launch(
            kernel,
            block,
            rows as int,
            self.kf4,
            head_dim,
            n_head,
            n_kv_head,
            chunk_len,
            n_chunks,
            base,
            p,
        );
        assert(plan@[0].args =~= partial.args);
        let r = plan.followed_by(
            AttentionKernel::SplitCombineRows,
            flat_config(to_u32(p * n_head), to_u32(head_dim), 0),
            combine_rows_arg_vec(head_dim, n_head, n_chunks, p),
        );
        assert(r@ =~= seq![partial, combine_rows_launch(head_dim, n_head, n_chunks, p)]);
        r
    }

    /// Causal attention of `p` rows from position `base_pos` on, in `n_chunks`
    /// chunks of `chunk_len` cached rows, then the merge of the chunks.
    ///
    /// `query` and `attn_out` cover `p * n_head * head_dim` elements, `part_m`
    /// and `part_l` `p * n_head * n_chunks`, `part_out` `p * n_head * n_chunks
    /// * head_dim`, and each cache `(base_pos + p) * n_kv_head * head_dim`.
    pub fn launch_attention_splitgqa_rows(
        &self,
        head_dim: usize,
        n_head: usize,
        n_kv_head: usize,
        chunk_len: usize,
        n_chunks: usize,
        base_pos: usize,
        p: usize,
    ) -> (r: Result<LaunchPlan<AttentionKernel>, CudarcKernelError>)
        requires
            splitgqa_refusal(head_dim, n_head, n_kv_head, chunk_len) is None ==> p * n_head <= usize::MAX,
        ensures
            planned(
                r,
                splitgqa_refusal(head_dim, n_head, n_kv_head, chunk_len),
                seq![
                    splitgqa_rows_launch(
                        AttentionKernel::SplitgqaRows,
                        256,
                        ROWS_PER_BLOCK as int,
                        self.kf4,
                        head_dim,
                        n_head,
                        n_kv_head,
                        chunk_len,
                        n_chunks,
                        int_arg(base_pos as int),
                        p,
                    ),
                    combine_rows_launch(head_dim, n_head, n_chunks, p),
                ],
            ),
    {
        match validate_splitgqa(head_dim, n_head, n_kv_head, chunk_len) {
            Err(e) => Err(e),
            Ok(()) => Ok(
                self.plan_splitgqa_rows(
                    AttentionKernel::SplitgqaRows,
                    256,
                    ROWS_PER_BLOCK,
                    head_dim,
                    n_head,
                    n_kv_head,
                    chunk_len,
                    n_chunks,
                    size_arg(base_pos),
                    p,
                ),
            ),
        }
    }

    /// [`AttentionKernels::launch_attention_splitgqa_rows`] from the position that a
    /// buffer holds.
    ///
    /// The buffers cover as many elements as there, and the position buffer
    /// one. `n_chunks` stays the same when the launch is replayed.
    pub fn launch_attention_splitgqa_rows_devpos(
        &self,
        head_dim: usize,
        n_head: usize,
        n_kv_head: usize,
        chunk_len: usize,
        n_chunks: usize,
        p: usize,
    ) -> (r: Result<LaunchPlan<AttentionKernel>, CudarcKernelError>)
        requires
            splitgqa_refusal(head_dim, n_head, n_kv_head, chunk_len) is None ==> p * n_head <= usize::MAX,
        ensures
            planned(
                r,
                splitgqa_refusal(head_dim, n_head, n_kv_head, chunk_len),
                seq![
                    splitgqa_rows_launch(
                        AttentionKernel::SplitgqaRowsDevpos,
                        256,
                        ROWS_PER_BLOCK as int,
                        self.kf4,
                        head_dim,
                        n_head,
                        n_kv_head,
                        chunk_len,
                        n_chunks,
                        Arg::Buf(Buffer::PosDev),
                        p,
                    ),
                    combine_rows_launch(head_dim, n_head, n_chunks, p),
                ],
            ),
    {
        match validate_splitgqa(head_dim, n_head, n_kv_head, chunk_len) {
            Err(e) => Err(e),
            Ok(()) => Ok(
                self.plan_splitgqa_rows(
                    AttentionKernel::SplitgqaRowsDevpos,
                    256,
                    ROWS_PER_BLOCK,
                    head_dim,
                    n_head,
                    n_kv_head,
                    chunk_len,
                    n_chunks,
                    Arg::Buf(Buffer::PosDev),
                    p,
                ),
            ),
        }
    }

    /// [`AttentionKernels::launch_attention_splitgqa_rows`] with more accumulators
    /// per thread, for heads of 256 lanes.
    ///
    /// The buffers cover as many elements as there.
    pub fn launch_attention_splitgqa_rows_ma(
        &self,
        head_dim: usize,
        n_head: usize,
        n_kv_head: usize,
        chunk_len: usize,
        n_chunks: usize,
        base_pos: usize,
        p: usize,
    ) -> (r: Result<LaunchPlan<AttentionKernel>, CudarcKernelError>)
        requires
            ma_refusal(head_dim, n_head, n_kv_head, chunk_len) is None ==> p * n_head <= usize::MAX,
        ensures
            planned(
                r,
                ma_refusal(head_dim, n_head, n_kv_head, chunk_len),
                seq![
                    splitgqa_rows_launch(
                        AttentionKernel::SplitgqaRowsMa,
                        256,
                        ROWS_PER_BLOCK as int,
                        self.kf4,
                        head_dim,
                        n_head,
                        n_kv_head,
                        chunk_len,
                        n_chunks,
                        int_arg(base_pos as int),
                        p,
                    ),
                    combine_rows_launch(head_dim, n_head, n_chunks, p),
                ],
            ),
    {
        match validate_splitgqa(head_dim, n_head, n_kv_head, chunk_len) {
            Err(e) => return Err(e),
            Ok(()) => {},
        }
        match check_head_dim("splitgqa rows ma", head_dim) {
            Err(e) => Err(e),
            Ok(()) => Ok(
                self.plan_splitgqa_rows(
                    AttentionKernel::SplitgqaRowsMa,
                    256,
                    ROWS_PER_BLOCK,
                    head_dim,
                    n_head,
                    n_kv_head,
                    chunk_len,
                    n_chunks,
                    size_arg(base_pos),
                    p,
                ),
            ),
        }
    }

    /// [`AttentionKernels::launch_attention_splitgqa_rows_ma`] from the position that a
    /// buffer holds.
    ///
    /// The buffers cover as many elements as there, and the position buffer
    /// one. `n_chunks` stays the same when the launch is replayed.
    pub fn launch_attention_splitgqa_rows_ma_devpos(
        &self,
        head_dim: usize,
        n_head: usize,
        n_kv_head: usize,
        chunk_len: usize,
        n_chunks: usize,
        p: usize,
    ) -> (r: Result<LaunchPlan<AttentionKernel>, CudarcKernelError>)
        requires
            ma_refusal(head_dim, n_head, n_kv_head, chunk_len) is None ==> p * n_head <= usize::MAX,
        ensures
            planned(
                r,
                ma_refusal(head_dim, n_head, n_kv_head, chunk_len),
                seq![
                    splitgqa_rows_launch(
                        AttentionKernel::SplitgqaRowsMaDevpos,
                        256,
                        ROWS_PER_BLOCK as int,
                        self.kf4,
                        head_dim,
                        n_head,
                        n_kv_head,
                        chunk_len,
                        n_chunks,
                        Arg::Buf(Buffer::PosDev),
                        p,
                    ),
                    combine_rows_launch(head_dim, n_head, n_chunks, p),
                ],
            ),
    {
        match validate_splitgqa(head_dim, n_head, n_kv_head, chunk_len) {
            Err(e) => return Err(e),
            Ok(()) => {},
        }
        match check_head_dim("splitgqa rows ma", head_dim) {
            Err(e) => Err(e),
            Ok(()) => Ok(
                self.plan_splitgqa_rows(
                    AttentionKernel::SplitgqaRowsMaDevpos,
                    256,
                    ROWS_PER_BLOCK,
                    head_dim,
                    n_head,
                    n_kv_head,
                    chunk_len,
                    n_chunks,
                    Arg::Buf(Buffer::PosDev),
                    p,
                ),
            ),
        }
    }

    /// [`AttentionKernels::launch_attention_splitgqa_rows`] with sixteen rows per
    /// block, for heads of 256 lanes.
    ///
    /// The buffers cover as many elements as there.
    pub fn launch_attention_splitgqa_rows_qg(
        &self,
        head_dim: usize,
        n_head: usize,
        n_kv_head: usize,
        chunk_len: usize,
        n_chunks: usize,
        base_pos: usize,
        p: usize,
    ) -> (r: Result<LaunchPlan<AttentionKernel>, CudarcKernelError>)
        requires
            grouped_refusal(
                "splitgqa rows qg"@,
                SPLITGQA_QG_ROWS_MAX_P,
                head_dim,
                n_head,
                n_kv_head,
                chunk_len,
                p,
            ) is None ==> p * n_head <= usize::MAX,
        ensures
            planned(
                r,
                grouped_refusal(
                    "splitgqa rows qg"@,
                    SPLITGQA_QG_ROWS_MAX_P,
                    head_dim,
                    n_head,
                    n_kv_head,
                    chunk_len,
                    p,
                ),
                seq![
                    splitgqa_rows_launch(
                        AttentionKernel::SplitgqaRowsQg,
                        1024,
                        QG_ROWS_PER_BLOCK as int,
                        self.kf4,
                        head_dim,
                        n_head,
                        n_kv_head,
                        chunk_len,
                        n_chunks,
                        int_arg(base_pos as int),
                        p,
                    ),
                    combine_rows_launch(head_dim, n_head, n_chunks, p),
                ],
            ),
    {
        match check_grouped(
            "splitgqa rows qg",
            SPLITGQA_QG_ROWS_MAX_P,
            head_dim,
            n_head,
            n_kv_head,
            chunk_len,
            p,
        ) {
            Err(e) => Err(e),
            Ok(()) => Ok(
                self.plan_splitgqa_rows(
                    AttentionKernel::SplitgqaRowsQg,
                    1024,
                    QG_ROWS_PER_BLOCK,
                    head_dim,
                    n_head,
                    n_kv_head,
                    chunk_len,
                    n_chunks,
                    size_arg(base_pos),
                    p,
                ),
            ),
        }
    }

    /// [`AttentionKernels::launch_attention_splitgqa_rows_qg`] from the position that a
    /// buffer holds.
    ///
    /// The buffers cover as many elements as there, and the position buffer
    /// one. `n_chunks` stays the same when the launch is replayed.
    pub fn launch_attention_splitgqa_rows_qg_devpos(
        &self,
        head_dim: usize,
        n_head: usize,
        n_kv_head: usize,
        chunk_len: usize,
        n_chunks: usize,
        p: usize,
    ) -> (r: Result<LaunchPlan<AttentionKernel>, CudarcKernelError>)
        requires
            grouped_refusal(
                "splitgqa rows qg devpos"@,
                SPLITGQA_QG_ROWS_MAX_P,
                head_dim,
                n_head,
                n_kv_head,
                chunk_len,
                p,
            ) is None ==> p * n_head <= usize::MAX,
        ensures
            planned(
                r,
                grouped_refusal(
                    "splitgqa rows qg devpos"@,
                    SPLITGQA_QG_ROWS_MAX_P,
                    head_dim,
                    n_head,
                    n_kv_head,
                    chunk_len,
                    p,
                ),
                seq![
                    splitgqa_rows_launch(
                        AttentionKernel::SplitgqaRowsQgDevpos,
                        1024,
                        QG_ROWS_PER_BLOCK as int,
                        self.kf4,
                        head_dim,
                        n_head,
                        n_kv_head,
                        chunk_len,
                        n_chunks,
                        Arg::Buf(Buffer::PosDev),
                        p,
                    ),
                    combine_rows_launch(head_dim, n_head, n_chunks, p),
                ],
            ),
    {
        match check_grouped(
            "splitgqa rows qg devpos",
            SPLITGQA_QG_ROWS_MAX_P,
            head_dim,
            n_head,
            n_kv_head,
            chunk_len,
            p,
        ) {
            Err(e) => Err(e),
            Ok(()) => Ok(
                self.plan_splitgqa_rows(
                    AttentionKernel::SplitgqaRowsQgDevpos,
                    1024,
                    QG_ROWS_PER_BLOCK,
                    head_dim,
                    n_head,
                    n_kv_head,
                    chunk_len,
                    n_chunks,
                    Arg::Buf(Buffer::PosDev),
                    p,
                ),
            ),
        }
    }

    /// [`AttentionKernels::launch_attention_splitgqa_rows_qg`] with more
    /// accumulators per thread, for the rows of one block: at most sixteen.
    ///
    /// The buffers cover as many elements as there.
    pub fn launch_attention_splitgqa_rows_qgma(
        &self,
        head_dim: usize,
        n_head: usize,
        n_kv_head: usize,
        chunk_len: usize,
        n_chunks: usize,
        base_pos: usize,
        p: usize,
    ) -> (r: Result<LaunchPlan<AttentionKernel>, CudarcKernelError>)
        requires
            grouped_refusal(
                "splitgqa rows qgma"@,
                SPLITGQA_QGMA_ROWS_MAX_P,
                head_dim,
                n_head,
                n_kv_head,
                chunk_len,
                p,
            ) is None ==> p * n_head <= usize::MAX,
        ensures
            planned(
                r,
                grouped_refusal(
                    "splitgqa rows qgma"@,
                    SPLITGQA_QGMA_ROWS_MAX_P,
                    head_dim,
                    n_head,
                    n_kv_head,
                    chunk_len,
                    p,
                ),
                seq![
                    splitgqa_rows_launch(
                        AttentionKernel::SplitgqaRowsQgma,
                        1024,
                        QG_ROWS_PER_BLOCK as int,
                        self.kf4,
                        head_dim,
                        n_head,
                        n_kv_head,
                        chunk_len,
                        n_chunks,
                        int_arg(base_pos as int),
                        p,
                    ),
                    combine_rows_launch(head_dim, n_head, n_chunks, p),
                ],
            ),
    {
        match check_grouped(
            "splitgqa rows qgma",
            SPLITGQA_QGMA_ROWS_MAX_P,
            head_dim,
            n_head,
            n_kv_head,
            chunk_len,
            p,
        ) {
            Err(e) => Err(e),
            Ok(()) => Ok(
                self.plan_splitgqa_rows(
                    AttentionKernel::SplitgqaRowsQgma,
                    1024,
                    QG_ROWS_PER_BLOCK,
                    head_dim,
                    n_head,
                    n_kv_head,
                    chunk_len,
                    n_chunks,
                    size_arg(base_pos),
                    p,
                ),
            ),
        }
    }

    /// [`AttentionKernels::launch_attention_splitgqa_rows_qgma`] from the position that a
    /// buffer holds.
    ///
    /// The buffers cover as many elements as there, and the position buffer
    /// one. `n_chunks` stays the same when the launch is replayed.
    pub fn launch_attention_splitgqa_rows_qgma_devpos(
        &self,
        head_dim: usize,
        n_head: usize,
        n_kv_head: usize,
        chunk_len: usize,
        n_chunks: usize,
        p: usize,
    ) -> (r: Result<LaunchPlan<AttentionKernel>, CudarcKernelError>)
        requires
            grouped_refusal(
                "splitgqa rows qgma devpos"@,
                SPLITGQA_QGMA_ROWS_MAX_P,
                head_dim,
                n_head,
                n_kv_head,
                chunk_len,
                p,
            ) is None ==> p * n_head <= usize::MAX,
        ensures
            planned(
                r,
                grouped_refusal(
                    "splitgqa rows qgma devpos"@,
                    SPLITGQA_QGMA_ROWS_MAX_P,
                    head_dim,
                    n_head,
                    n_kv_head,
                    chunk_len,
                    p,
                ),
                seq![
                    splitgqa_rows_launch(
                        AttentionKernel::SplitgqaRowsQgmaDevpos,
                        1024,
                        QG_ROWS_PER_BLOCK as int,
                        self.kf4,
                        head_dim,
                        n_head,
                        n_kv_head,
                        chunk_len,
                        n_chunks,
                        Arg::Buf(Buffer::PosDev),
                        p,
                    ),
                    combine_rows_launch(head_dim, n_head, n_chunks, p),
                ],
            ),
    {
        match check_grouped(
            "splitgqa rows qgma devpos",
            SPLITGQA_QGMA_ROWS_MAX_P,
            head_dim,
            n_head,
            n_kv_head,
            chunk_len,
            p,
        ) {
            Err(e) => Err(e),
            Ok(()) => Ok(
                self.plan_splitgqa_rows(
                    AttentionKernel::SplitgqaRowsQgmaDevpos,
                    1024,
                    QG_ROWS_PER_BLOCK,
                    head_dim,
                    n_head,
                    n_kv_head,
                    chunk_len,
                    n_chunks,
                    Arg::Buf(Buffer::PosDev),
                    p,
                ),
            ),
        }
    }
}

} // verus!
