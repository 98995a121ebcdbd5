//! Query-grouped row attention whose scores come from the tensor cores.
//!
//! The launches take the buffers, the grid and the merge of the query-grouped
//! kernels of the attention module. The scores of these kernels are known to
//! be wrong at model scale: keep them switched off.

use vstd::prelude::*;
use crate::attention::rows::{
    check_head_dim, check_rows, combine_rows_arg_vec, combine_rows_args, combine_rows_launch,
    grouped_refusal, head_dim_refusal, lemma_rows_smem_small, rows_refusal, rows_smem,
    splitgqa_rows_launch, QG_ROWS_PER_BLOCK,
};
use crate::attention::{group, group_size, AttentionKernel, SPLITGQA_QG_ROWS_MAX_P};
use crate::error::{CudarcKernelError, ErrorView};
use crate::geometry::{
    ceil_div, div_up, flat, flat_config, int_arg, low_u32, multiple, size_arg, to_u32,
};
use crate::launch::{planned, Arg, Buffer, LaunchConfig, LaunchPlan, LaunchView};
use crate::module::{
    build_start, kv_source, kv_text, loads, BuildStepView, KernelBuild, KernelId,
    MAX_SHARED_MEMORY,
};
use crate::sources::attention_score_mma::{
    attention_score_mma_cuda_src, attention_score_mma_source,
};
use crate::text::{append_number, decimal, message1};

verus! {

/// The kernels of the tensor-core module.
#[derive(Clone, Copy, Debug, PartialEq, Eq)]
pub enum ScoreMmaKernel {
    /// One warp per row fragment.
    ScoreMma,
    ScoreMmaDevpos,
    /// One warp per row and key fragment.
    ScoreMma24,
    ScoreMma24Devpos,
    Combine,
}

impl KernelId for ScoreMmaKernel {
    open spec fn entry_point(self) -> Seq<char> {
        match self {
            ScoreMmaKernel::ScoreMma => "attention_decode_splitgqa_partial_rows_qg_mma_f32"@,
            ScoreMmaKernel::ScoreMmaDevpos => "attention_decode_splitgqa_partial_rows_qg_mma_f32_devpos"@,
            ScoreMmaKernel::ScoreMma24 => "attention_decode_splitgqa_partial_rows_qg_mma24_f32"@,
            ScoreMmaKernel::ScoreMma24Devpos => "attention_decode_splitgqa_partial_rows_qg_mma24_f32_devpos"@,
            ScoreMmaKernel::Combine => "attention_decode_split_combine_rows_f32"@,
        }
    }

    fn entry(self) -> (r: &'static str) {
        match self {
            ScoreMmaKernel::ScoreMma => "attention_decode_splitgqa_partial_rows_qg_mma_f32",
            ScoreMmaKernel::ScoreMmaDevpos => "attention_decode_splitgqa_partial_rows_qg_mma_f32_devpos",
            ScoreMmaKernel::ScoreMma24 => "attention_decode_splitgqa_partial_rows_qg_mma24_f32",
            ScoreMmaKernel::ScoreMma24Devpos => "attention_decode_splitgqa_partial_rows_qg_mma24_f32_devpos",
            ScoreMmaKernel::Combine => "attention_decode_split_combine_rows_f32",
        }
    }
}

/// Shared memory of the score kernels at eight query heads per K/V head, with
/// the reduction scratch of the larger tiling.
pub const SCORE_MMA_SMEM_BYTES: i32 = 54784;

/// An opt-in step.
pub open spec fn opted_in(kernel: ScoreMmaKernel) -> BuildStepView<ScoreMmaKernel> {
    BuildStepView::OptInSharedMemory {
        kernel,
        bytes: SCORE_MMA_SMEM_BYTES,
        label: "score mma smem opt-in"@,
    }
}

/// The build of the tensor-core module.
pub open spec fn score_mma_build(kv_f16: bool) -> Seq<BuildStepView<ScoreMmaKernel>> {
    build_start(kv_source(attention_score_mma_cuda_src(), kv_f16))
        + loads(
            seq![
                ScoreMmaKernel::ScoreMma,
                ScoreMmaKernel::ScoreMmaDevpos,
                ScoreMmaKernel::ScoreMma24,
                ScoreMmaKernel::ScoreMma24Devpos,
                ScoreMmaKernel::Combine,
            ],
        )
        + seq![
            opted_in(ScoreMmaKernel::ScoreMma),
            opted_in(ScoreMmaKernel::ScoreMmaDevpos),
            opted_in(ScoreMmaKernel::ScoreMma24),
            opted_in(ScoreMmaKernel::ScoreMma24Devpos),
        ]
}

/// Why the sizes are refused, if they are. A group that does not divide the
/// query heads evenly is refused by its rounded-down size, and so are sizes
/// without K/V heads, whose group is empty.
pub open spec fn shape_refusal(
    head_dim: usize,
    n_head: usize,
    n_kv_head: usize,
    p: usize,
) -> Option<Seq<char>> {
    let g = group(n_head, n_kv_head);
    match head_dim_refusal("score mma"@, head_dim) {
        Some(t) => Some(t),
        None => if !multiple(n_head, n_kv_head) || !(1 <= g <= 8) {
            Some("score mma: GQA group "@ + decimal(g as nat) + " outside [1, 8]"@)
        } else {
            rows_refusal("score mma"@, p, SPLITGQA_QG_ROWS_MAX_P)
        },
    }
}

/// Why a launch is refused, if it is: the sizes first, then the chunk length.
pub open spec fn launch_refusal(
    label: Seq<char>,
    head_dim: usize,
    n_head: usize,
    n_kv_head: usize,
    chunk_len: usize,
    p: usize,
) -> Option<Seq<char>> {
    match shape_refusal(head_dim, n_head, n_kv_head, p) {
        Some(t) => Some(t),
        None => if chunk_len % 32 != 0 {
            Some(
                label + ": chunk_len "@ + decimal(chunk_len as nat)
                    + " not a multiple of the 32-position tile"@,
            )
        } else {
            None
        },
    }
}

/// Bytes of shared memory of a score block: those of a query-grouped block, and
/// for the larger tiling two reduction tables of `[g][2][8][4]` floats.
pub open spec fn score_mma_smem(
    arm24: bool,
    head_dim: usize,
    n_head: usize,
    n_kv_head: usize,
) -> int {
    let g = group(n_head, n_kv_head);
    rows_smem(16, head_dim, n_head, n_kv_head) + if arm24 {
        2 * (g * 2 * 8 * 4) * 4
    } else {
        0
    }
}

/// Partial attention of `p` rows over chunks of the cache: one block of 1024
/// threads per K/V head, chunk and slice of sixteen rows.
pub open spec fn score_mma_launch(
    kernel: ScoreMmaKernel,
    arm24: bool,
    head_dim: usize,
    n_head: usize,
    n_kv_head: usize,
    chunk_len: usize,
    n_chunks: usize,
    base: Arg,
    p: usize,
) -> LaunchView<ScoreMmaKernel> {
    LaunchView {
        kernel,
        config: LaunchConfig {
            grid_dim: (
                low_u32(n_kv_head as int),
                low_u32(n_chunks as int),
                low_u32(ceil_div(p as int, 16)),
            ),
            block_dim: (1024, 1, 1),
            shared_mem_bytes: low_u32(score_mma_smem(arm24, head_dim, n_head, n_kv_head)),
        },
        args: seq![
            Arg::Buf(Buffer::Query),
            Arg::Buf(Buffer::KeyCache),
            Arg::Buf(Buffer::ValueCache),
            Arg::Buf(Buffer::PartM),
            Arg::Buf(Buffer::PartL),
            Arg::Buf(Buffer::PartOut),
            Arg::InvSqrt(head_dim),
            int_arg(head_dim as int),
            int_arg(n_head as int),
            int_arg(n_kv_head as int),
            int_arg(chunk_len as int),
            base,
            int_arg(p as int),
        ],
    }
}

/// Merges the partial results of `p` rows: one block per row and query head,
/// one thread per lane.
pub open spec fn combine_launch(
    head_dim: usize,
    n_head: usize,
    n_chunks: usize,
    p: usize,
) -> LaunchView<ScoreMmaKernel> {
    LaunchView {
        kernel: ScoreMmaKernel::Combine,
        config: flat(low_u32(p * n_head), low_u32(head_dim as int), 0),
        args: combine_rows_args(head_dim, n_head, n_chunks, p),
    }
}

/// The score kernels of a context: plans their build and their launches.
#[derive(Clone, Copy, Debug, PartialEq, Eq)]
pub struct AttentionScoreMmaKernels {}

impl AttentionScoreMmaKernels {
    /// Kernels over caches of 32-bit floats, or of 16-bit floats where `kv_f16`
    /// holds.
    pub fn new(kv_f16: bool) -> (r: (Self, KernelBuild<ScoreMmaKernel>))
        ensures
            r.1@ == score_mma_build(kv_f16),
    {
        let source: String = attention_score_mma_source();
        let mut build: KernelBuild<ScoreMmaKernel> = KernelBuild::start(
            kv_text(source.as_str(), kv_f16),
        );
        build.load_all(
            vec![
                ScoreMmaKernel::ScoreMma,
                ScoreMmaKernel::ScoreMmaDevpos,
                ScoreMmaKernel::ScoreMma24,
                ScoreMmaKernel::ScoreMma24Devpos,
                ScoreMmaKernel::Combine,
            ],
        );
        build.opt_in(ScoreMmaKernel::ScoreMma, SCORE_MMA_SMEM_BYTES, "score mma smem opt-in");
        build.opt_in(ScoreMmaKernel::ScoreMmaDevpos, SCORE_MMA_SMEM_BYTES, "score mma smem opt-in");
        build.opt_in(ScoreMmaKernel::ScoreMma24, SCORE_MMA_SMEM_BYTES, "score mma smem opt-in");
        build.opt_in(
            ScoreMmaKernel::ScoreMma24Devpos,
            SCORE_MMA_SMEM_BYTES,
            "score mma smem opt-in",
        );
        assert(build@ =~= score_mma_build(kv_f16));
        (AttentionScoreMmaKernels {  }, build)
    }

    /// [`shape_refusal`], computed.
    pub fn validate(head_dim: usize, n_head: usize, n_kv_head: usize, p: usize) -> (r: Result<
        (),
        CudarcKernelError,
    >)
        ensures
            match r {
                Ok(()) => shape_refusal(head_dim, n_head, n_kv_head, p) is None,
                Err(e) => shape_refusal(head_dim, n_head, n_kv_head, p) matches Some(t)
                    && e@ == ErrorView::InvalidArg(t),
            },
    {
        match check_head_dim("score mma", head_dim) {
            Err(e) => return Err(e),
            Ok(()) => {},
        }
        let g: usize = group_size(n_head, n_kv_head);
        if !n_head.is_multiple_of(n_kv_head) || g == 0 || g > 8 {
            return Err(
                CudarcKernelError::InvalidArg(
                    message1("score mma: GQA group ", g, " outside [1, 8]"),
                ),
            );
        }
        check_rows("score mma", p, SPLITGQA_QG_ROWS_MAX_P)
    }

    /// [`score_mma_launch`], planned, and the merge of its chunks, unless
    /// [`launch_refusal`] refuses them.
    fn plan_rows_qg_mma(
        label: &str,
        kernel: ScoreMmaKernel,
        arm24: bool,
        head_dim: usize,
        n_head: usize,
        n_kv_head: usize,
        chunk_len: usize,
        n_chunks: usize,
        base: Arg,
        p: usize,
    ) -> (r: Result<LaunchPlan<ScoreMmaKernel>, CudarcKernelError>)
        requires
            launch_refusal(label@, head_dim, n_head, n_kv_head, chunk_len, p) is None ==> p * n_head
                <= usize::MAX,
        ensures
            planned(
                r,
                launch_refusal(label@, head_dim, n_head, n_kv_head, chunk_len, p),
                seq![
                    score_mma_launch(
                        kernel,
                        arm24,
                        head_dim,
                        n_head,
                        n_kv_head,
                        chunk_len,
                        n_chunks,
                        base,
                        p,
                    ),
                    combine_launch(head_dim, n_head, n_chunks, p),
                ],
            ),
    {
        match Self::validate(head_dim, n_head, n_kv_head, p) {
            Err(e) => return Err(e),
            Ok(()) => {},
        }
        if !chunk_len.is_multiple_of(32) {
            let mut s: String = label.to_owned();
            s.append(": chunk_len ");
            append_number(&mut s, chunk_len);
            s.append(" not a multiple of the 32-position tile");
            return Err(CudarcKernelError::InvalidArg(s));
        }
        let g: usize = group_size(n_head, n_kv_head);
        proof {
            lemma_rows_smem_small(16, head_dim, n_head, n_kv_head);
        }
        let red: usize = if arm24 {
            2 * (g * 2 * 8 * 4)
        } else {
            0
        };
        let smem_floats: usize = head_dim * 33 + 16 * g * 32 + 16 * g + red;
        let plan = LaunchPlan::one(
            kernel,
            LaunchConfig {
                grid_dim: (
                    to_u32(n_kv_head),
                    to_u32(n_chunks),
                    to_u32(div_up(p, QG_ROWS_PER_BLOCK)),
                ),
                block_dim: (1024, 1, 1),
                shared_mem_bytes: to_u32(smem_floats * 4),
            },
            vec![
                Arg::Buf(Buffer::Query),
                Arg::Buf(Buffer::KeyCache),
                Arg::Buf(Buffer::ValueCache),
                Arg::Buf(Buffer::PartM),
                Arg::Buf(Buffer::PartL),
                Arg::Buf(Buffer::PartOut),
                Arg::InvSqrt(head_dim),
                size_arg(head_dim),
                size_arg(n_head),
                size_arg(n_kv_head),
                size_arg(chunk_len),
                base,
                size_arg(p),
            ],
        );
        let ghost score = score_mma_launch(
            kernel,
            arm24,
            head_dim,
            n_head,
            n_kv_head,
            chunk_len,
            n_chunks,
            base,
            p,
        );
        assert(plan@ =~~= seq![score]);
        let r = Self::launch_combine(plan, head_dim, n_head, n_chunks, p);
        assert(r@ =~= seq![score, combine_launch(head_dim, n_head, n_chunks, p)]);
        Ok(r)
    }

    /// Causal attention of `p` rows from position `base_pos` on, in `n_chunks`
    /// chunks of `chunk_len` cached rows, then the merge of the chunks. `arm24`
    /// picks the larger tiling.
    ///
    /// `query` and `attn_out` cover `p * n_head * head_dim` elements, `part_m`
    /// and `part_l` `p * n_head * n_chunks`, `part_out` `p * n_head * n_chunks
    /// * head_dim`, and each cache `(base_pos + p) * n_kv_head * head_dim`.
    pub fn launch_splitgqa_rows_qg_mma(
        &self,
        arm24: bool,
        head_dim: usize,
        n_head: usize,
        n_kv_head: usize,
        chunk_len: usize,
        n_chunks: usize,
        base_pos: usize,
        p: usize,
    ) -> (r: Result<LaunchPlan<ScoreMmaKernel>, CudarcKernelError>)
        requires
            launch_refusal(
                "score mma"@,
                head_dim,
                n_head,
                n_kv_head,
                chunk_len,
                p,
            ) is None ==> p * n_head <= usize::MAX,
        ensures
            planned(
                r,
                launch_refusal(
                    "score mma"@,
                    head_dim,
                    n_head,
                    n_kv_head,
                    chunk_len,
                    p,
                ),
                seq![
                    score_mma_launch(
                        if arm24 {
                            ScoreMmaKernel::ScoreMma24
                        } else {
                            ScoreMmaKernel::ScoreMma
                        },
                        arm24,
                        head_dim,
                        n_head,
                        n_kv_head,
                        chunk_len,
                        n_chunks,
                        int_arg(base_pos as int),
                        p,
                    ),
                    combine_launch(head_dim, n_head, n_chunks, p),
                ],
            ),
    {
        Self::plan_rows_qg_mma(
            "score mma",
            if arm24 {
                ScoreMmaKernel::ScoreMma24
            } else {
                ScoreMmaKernel::ScoreMma
            },
            arm24,
            head_dim,
            n_head,
            n_kv_head,
            chunk_len,
            n_chunks,
            size_arg(base_pos),
            p,
        )
    }

    /// [`AttentionScoreMmaKernels::launch_splitgqa_rows_qg_mma`] from the
    /// position that a buffer holds.
    ///
    /// The buffers cover as many elements as there, and the position buffer
    /// one. `n_chunks` stays the same when the launch is replayed.
    pub fn launch_splitgqa_rows_qg_mma_devpos(
        &self,
        arm24: bool,
        head_dim: usize,
        n_head: usize,
        n_kv_head: usize,
        chunk_len: usize,
        n_chunks: usize,
        p: usize,
    ) -> (r: Result<LaunchPlan<ScoreMmaKernel>, CudarcKernelError>)
        requires
            launch_refusal(
                "score mma devpos"@,
                head_dim,
                n_head,
                n_kv_head,
                chunk_len,
                p,
            ) is None ==> p * n_head <= usize::MAX,
        ensures
            planned(
                r,
                launch_refusal(
                    "score mma devpos"@,
                    head_dim,
                    n_head,
                    n_kv_head,
                    chunk_len,
                    p,
                ),
                seq![
                    score_mma_launch(
                        if arm24 {
                            ScoreMmaKernel::ScoreMma24Devpos
                        } else {
                            ScoreMmaKernel::ScoreMmaDevpos
                        },
                        arm24,
                        head_dim,
                        n_head,
                        n_kv_head,
                        chunk_len,
                        n_chunks,
                        Arg::Buf(Buffer::PosDev),
                        p,
                    ),
                    combine_launch(head_dim, n_head, n_chunks, p),
                ],
            ),
    {
        Self::plan_rows_qg_mma(
            "score mma devpos",
            if arm24 {
                ScoreMmaKernel::ScoreMma24Devpos
            } else {
                ScoreMmaKernel::ScoreMmaDevpos
            },
            arm24,
            head_dim,
            n_head,
            n_kv_head,
            chunk_len,
            n_chunks,
            Arg::Buf(Buffer::PosDev),
            p,
        )
    }

    /// Adds the merge of the chunks to a plan.
    fn launch_combine(
        plan: LaunchPlan<ScoreMmaKernel>,
        head_dim: usize,
        n_head: usize,
        n_chunks: usize,
        p: usize,
    ) -> (r: LaunchPlan<ScoreMmaKernel>)
        requires
            p * n_head <= usize::MAX,
        ensures
            r@ == plan@.push(combine_launch(head_dim, n_head, n_chunks, p)),
    {
        plan.followed_by(
            ScoreMmaKernel::Combine,
            flat_config(to_u32(p * n_head), to_u32(head_dim), 0),
            combine_rows_arg_vec(head_dim, n_head, n_chunks, p),
        )
    }
}

/// The smaller tiling launches as the query-grouped attention does: the same
/// grid, blocks and shared memory, and its arguments but for the last, the tile
/// layout. The larger tiling differs in the shared memory alone.
pub proof fn law_launches_as_query_grouped(
    kernel: ScoreMmaKernel,
    qg: AttentionKernel,
    arm24: bool,
    kf4: i32,
    head_dim: usize,
    n_head: usize,
    n_kv_head: usize,
    chunk_len: usize,
    n_chunks: usize,
    base: Arg,
    p: usize,
)
    ensures
        ({
            let a = score_mma_launch(
                kernel,
                arm24,
                head_dim,
                n_head,
                n_kv_head,
                chunk_len,
                n_chunks,
                base,
                p,
            );
            let b = splitgqa_rows_launch(
                qg,
                1024,
                16,
                kf4,
                head_dim,
                n_head,
                n_kv_head,
                chunk_len,
                n_chunks,
                base,
                p,
            );
            &&& a.config.grid_dim == b.config.grid_dim
            &&& a.config.block_dim == b.config.block_dim
            &&& !arm24 ==> a.config == b.config
            &&& a.args == b.args.drop_last()
        }),
{
    let a = score_mma_launch(
        kernel,
        arm24,
        head_dim,
        n_head,
        n_kv_head,
        chunk_len,
        n_chunks,
        base,
        p,
    );
    let b = splitgqa_rows_launch(
        qg,
        1024,
        16,
        kf4,
        head_dim,
        n_head,
        n_kv_head,
        chunk_len,
        n_chunks,
        base,
        p,
    );
    assert(a.args =~= b.args.drop_last());
}

/// The merge is launched as the query-grouped attention's.
pub proof fn law_merges_as_query_grouped(head_dim: usize, n_head: usize, n_chunks: usize, p: usize)
    ensures
        combine_launch(head_dim, n_head, n_chunks, p).config == combine_rows_launch(
            head_dim,
            n_head,
            n_chunks,
            p,
        ).config,
        combine_launch(head_dim, n_head, n_chunks, p).args == combine_rows_launch(
            head_dim,
            n_head,
            n_chunks,
            p,
        ).args,
        ScoreMmaKernel::Combine.entry_point() == AttentionKernel::SplitCombineRows.entry_point(),
{
}

/// The same sizes are accepted as by the query-grouped attention.
pub proof fn law_accepts_as_query_grouped(
    label: Seq<char>,
    qg_label: Seq<char>,
    head_dim: usize,
    n_head: usize,
    n_kv_head: usize,
    chunk_len: usize,
    p: usize,
)
    ensures
        launch_refusal(label, head_dim, n_head, n_kv_head, chunk_len, p) is None
            <==> grouped_refusal(
            qg_label,
            SPLITGQA_QG_ROWS_MAX_P,
            head_dim,
            n_head,
            n_kv_head,
            chunk_len,
            p,
        ) is None,
{
}

/// Accepted sizes stay within the shared memory that the kernels opt in to, and
/// the opt-in is no larger than it has to be.
pub proof fn law_shared_memory_fits(
    arm24: bool,
    head_dim: usize,
    n_head: usize,
    n_kv_head: usize,
    p: usize,
)
    requires
        shape_refusal(head_dim, n_head, n_kv_head, p) is None,
    ensures
        low_u32(score_mma_smem(arm24, head_dim, n_head, n_kv_head)) == score_mma_smem(
            arm24,
            head_dim,
            n_head,
            n_kv_head,
        ),
        score_mma_smem(arm24, head_dim, n_head, n_kv_head) <= SCORE_MMA_SMEM_BYTES,
        arm24 && group(n_head, n_kv_head) == 8 ==> score_mma_smem(
            arm24,
            head_dim,
            n_head,
            n_kv_head,
        ) == SCORE_MMA_SMEM_BYTES,
        SCORE_MMA_SMEM_BYTES <= MAX_SHARED_MEMORY,
{
    lemma_rows_smem_small(16, head_dim, n_head, n_kv_head);
}

/// The form that reads its first position from a buffer has another kernel and
/// the buffer in place of the twelfth argument.
pub proof fn law_devpos_twin(
    live: ScoreMmaKernel,
    devpos: ScoreMmaKernel,
    arm24: bool,
    head_dim: usize,
    n_head: usize,
    n_kv_head: usize,
    chunk_len: usize,
    n_chunks: usize,
    base: Arg,
    p: usize,
)
    ensures
        ({
            let a = score_mma_launch(
                live,
                arm24,
                head_dim,
                n_head,
                n_kv_head,
                chunk_len,
                n_chunks,
                base,
                p,
            );
            score_mma_launch(
                devpos,
                arm24,
                head_dim,
                n_head,
                n_kv_head,
                chunk_len,
                n_chunks,
                Arg::Buf(Buffer::PosDev),
                p,
            ) == (LaunchView {
                kernel: devpos,
                config: a.config,
                args: a.args.update(11, Arg::Buf(Buffer::PosDev)),
            })
        }),
{
    let a = score_mma_launch(
        live,
        arm24,
        head_dim,
        n_head,
        n_kv_head,
        chunk_len,
        n_chunks,
        base,
        p,
    );
    let b = score_mma_launch(
        devpos,
        arm24,
        head_dim,
        n_head,
        n_kv_head,
        chunk_len,
        n_chunks,
        Arg::Buf(Buffer::PosDev),
        p,
    );
    assert(b.args =~= a.args.update(11, Arg::Buf(Buffer::PosDev)));
}

/// The build looks every kernel up before any of them opts in, and every score
/// kernel does.
pub proof fn law_build_order(kv_f16: bool)
    ensures
        score_mma_build(kv_f16).len() == 11,
        forall|i: int|
            2 <= i < 7 ==> #[trigger] score_mma_build(kv_f16)[i] is LoadFunction,
        forall|i: int|
            7 <= i < 11 ==> #[trigger] score_mma_build(kv_f16)[i] == opted_in(
                score_mma_build(kv_f16)[i - 5]->LoadFunction_kernel,
            ),
{
}

} // verus!
