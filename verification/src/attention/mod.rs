//! Attention of the full-attention layers: rotary embedding, K/V caches, the
//! decode kernels and their split and row-batched forms.

pub mod decode;
pub mod laws;
pub mod rows;
pub mod verify;

use vstd::prelude::*;
use crate::error::{CudarcKernelError, ErrorView};
use crate::geometry::multiple;
use crate::module::{build_start, kv_source, kv_text, loads, BuildStepView, KernelBuild, KernelId};
use crate::sources::attention::{attention_cuda_src, attention_source};
use crate::text::{decimal, message1, message2, same_text, text_of};

verus! {

/// Rows that a launch of the query-grouped kernels takes at most.
pub const SPLITGQA_QG_ROWS_MAX_P: usize = 64;

/// Rows that a launch of the query-grouped kernels with more accumulators takes
/// at most: those of one block.
pub const SPLITGQA_QGMA_ROWS_MAX_P: usize = 16;

/// The kernels of the attention module.
#[derive(Clone, Copy, Debug, PartialEq, Eq)]
pub enum AttentionKernel {
    Rope,
    RopeDevpos,
    RopeBackward,
    SplitQg,
    RmsnormBatched,
    KvCacheAppend,
    KvCacheAppendDevpos,
    AttentionDecode,
    AttentionDecodeDevpos,
    Split,
    SplitDevpos,
    SplitCombine,
    Splitgqa,
    SplitgqaDevpos,
    RopeRows,
    RopeRowsDevpos,
    KvAppendRows,
    KvAppendRowsDevpos,
    SplitQgRows,
    SplitgqaRows,
    SplitgqaRowsDevpos,
    SplitCombineRows,
    SplitgqaRowsQg,
    SplitgqaRowsQgDevpos,
    SplitgqaRowsMa,
    SplitgqaRowsMaDevpos,
    SplitgqaRowsQgma,
    SplitgqaRowsQgmaDevpos,
    Verify2pStats,
    Verify2pStatsDevpos,
    Verify2pMerge,
    Verify2pPv,
    Verify2pPvDevpos,
    OutputGate,
}

impl KernelId for AttentionKernel {
    open spec fn entry_point(self) -> Seq<char> {
        match self {
            AttentionKernel::Rope => "rope_partial_f32"@,
            AttentionKernel::RopeDevpos => "rope_partial_f32_devpos"@,
            AttentionKernel::RopeBackward => "rope_partial_backward_f32"@,
            AttentionKernel::SplitQg => "split_qg_f32"@,
            AttentionKernel::RmsnormBatched => "rmsnorm_batched_f32"@,
            AttentionKernel::KvCacheAppend => "kv_cache_append_f32"@,
            AttentionKernel::KvCacheAppendDevpos => "kv_cache_append_f32_devpos"@,
            AttentionKernel::AttentionDecode => "attention_decode_f32"@,
            AttentionKernel::AttentionDecodeDevpos => "attention_decode_f32_devpos"@,
            AttentionKernel::Split => "attention_decode_split_partial_f32"@,
            AttentionKernel::SplitDevpos => "attention_decode_split_partial_f32_devpos"@,
            AttentionKernel::SplitCombine => "attention_decode_split_combine_f32"@,
            AttentionKernel::Splitgqa => "attention_decode_splitgqa_partial_f32"@,
            AttentionKernel::SplitgqaDevpos => "attention_decode_splitgqa_partial_f32_devpos"@,
            AttentionKernel::RopeRows => "rope_partial_rows_f32"@,
            AttentionKernel::RopeRowsDevpos => "rope_partial_rows_f32_devpos"@,
            AttentionKernel::KvAppendRows => "kv_cache_append_rows_f32"@,
            AttentionKernel::KvAppendRowsDevpos => "kv_cache_append_rows_f32_devpos"@,
            AttentionKernel::SplitQgRows => "split_qg_rows_f32"@,
            AttentionKernel::SplitgqaRows => "attention_decode_splitgqa_partial_rows_f32"@,
            AttentionKernel::SplitgqaRowsDevpos => "attention_decode_splitgqa_partial_rows_f32_devpos"@,
            AttentionKernel::SplitCombineRows => "attention_decode_split_combine_rows_f32"@,
            AttentionKernel::SplitgqaRowsQg => "attention_decode_splitgqa_partial_rows_qg_f32"@,
            AttentionKernel::SplitgqaRowsQgDevpos => "attention_decode_splitgqa_partial_rows_qg_f32_devpos"@,
            AttentionKernel::SplitgqaRowsMa => "attention_decode_splitgqa_partial_rows_ma_f32"@,
            AttentionKernel::SplitgqaRowsMaDevpos => "attention_decode_splitgqa_partial_rows_ma_f32_devpos"@,
            AttentionKernel::SplitgqaRowsQgma => "attention_decode_splitgqa_partial_rows_qgma_f32"@,
            AttentionKernel::SplitgqaRowsQgmaDevpos => "attention_decode_splitgqa_partial_rows_qgma_f32_devpos"@,
            AttentionKernel::Verify2pStats => "attention_verify2p_stats_f32"@,
            AttentionKernel::Verify2pStatsDevpos => "attention_verify2p_stats_f32_devpos"@,
            AttentionKernel::Verify2pMerge => "attention_verify2p_merge_f32"@,
            AttentionKernel::Verify2pPv => "attention_verify2p_pv_f32"@,
            AttentionKernel::Verify2pPvDevpos => "attention_verify2p_pv_f32_devpos"@,
            AttentionKernel::OutputGate => "output_gate_f32"@,
        }
    }

    fn entry(self) -> (r: &'static str) {
        match self {
            AttentionKernel::Rope => "rope_partial_f32",
            AttentionKernel::RopeDevpos => "rope_partial_f32_devpos",
            AttentionKernel::RopeBackward => "rope_partial_backward_f32",
            AttentionKernel::SplitQg => "split_qg_f32",
            AttentionKernel::RmsnormBatched => "rmsnorm_batched_f32",
            AttentionKernel::KvCacheAppend => "kv_cache_append_f32",
            AttentionKernel::KvCacheAppendDevpos => "kv_cache_append_f32_devpos",
            AttentionKernel::AttentionDecode => "attention_decode_f32",
            AttentionKernel::AttentionDecodeDevpos => "attention_decode_f32_devpos",
            AttentionKernel::Split => "attention_decode_split_partial_f32",
            AttentionKernel::SplitDevpos => "attention_decode_split_partial_f32_devpos",
            AttentionKernel::SplitCombine => "attention_decode_split_combine_f32",
            AttentionKernel::Splitgqa => "attention_decode_splitgqa_partial_f32",
            AttentionKernel::SplitgqaDevpos => "attention_decode_splitgqa_partial_f32_devpos",
            AttentionKernel::RopeRows => "rope_partial_rows_f32",
            AttentionKernel::RopeRowsDevpos => "rope_partial_rows_f32_devpos",
            AttentionKernel::KvAppendRows => "kv_cache_append_rows_f32",
            AttentionKernel::KvAppendRowsDevpos => "kv_cache_append_rows_f32_devpos",
            AttentionKernel::SplitQgRows => "split_qg_rows_f32",
            AttentionKernel::SplitgqaRows => "attention_decode_splitgqa_partial_rows_f32",
            AttentionKernel::SplitgqaRowsDevpos => "attention_decode_splitgqa_partial_rows_f32_devpos",
            AttentionKernel::SplitCombineRows => "attention_decode_split_combine_rows_f32",
            AttentionKernel::SplitgqaRowsQg => "attention_decode_splitgqa_partial_rows_qg_f32",
            AttentionKernel::SplitgqaRowsQgDevpos => "attention_decode_splitgqa_partial_rows_qg_f32_devpos",
            AttentionKernel::SplitgqaRowsMa => "attention_decode_splitgqa_partial_rows_ma_f32",
            AttentionKernel::SplitgqaRowsMaDevpos => "attention_decode_splitgqa_partial_rows_ma_f32_devpos",
            AttentionKernel::SplitgqaRowsQgma => "attention_decode_splitgqa_partial_rows_qgma_f32",
            AttentionKernel::SplitgqaRowsQgmaDevpos => "attention_decode_splitgqa_partial_rows_qgma_f32_devpos",
            AttentionKernel::Verify2pStats => "attention_verify2p_stats_f32",
            AttentionKernel::Verify2pStatsDevpos => "attention_verify2p_stats_f32_devpos",
            AttentionKernel::Verify2pMerge => "attention_verify2p_merge_f32",
            AttentionKernel::Verify2pPv => "attention_verify2p_pv_f32",
            AttentionKernel::Verify2pPvDevpos => "attention_verify2p_pv_f32_devpos",
            AttentionKernel::OutputGate => "output_gate_f32",
        }
    }
}

/// The kernels that are looked up before the first shared memory opt-in.
pub open spec fn decode_and_rows_kernels() -> Seq<AttentionKernel> {
    seq![
        AttentionKernel::Rope, AttentionKernel::RopeDevpos, AttentionKernel::RopeBackward,
        AttentionKernel::SplitQg, AttentionKernel::RmsnormBatched, AttentionKernel::KvCacheAppend,
        AttentionKernel::KvCacheAppendDevpos, AttentionKernel::AttentionDecode,
        AttentionKernel::AttentionDecodeDevpos, AttentionKernel::Split,
        AttentionKernel::SplitDevpos, AttentionKernel::SplitCombine, AttentionKernel::Splitgqa,
        AttentionKernel::SplitgqaDevpos, AttentionKernel::RopeRows,
        AttentionKernel::RopeRowsDevpos, AttentionKernel::KvAppendRows,
        AttentionKernel::KvAppendRowsDevpos, AttentionKernel::SplitQgRows,
        AttentionKernel::SplitgqaRows, AttentionKernel::SplitgqaRowsDevpos,
        AttentionKernel::SplitCombineRows, AttentionKernel::SplitgqaRowsQg,
        AttentionKernel::SplitgqaRowsQgDevpos,
    ]
}

/// The many-accumulator forms.
pub open spec fn many_accumulator_kernels() -> Seq<AttentionKernel> {
    seq![
        AttentionKernel::SplitgqaRowsMa, AttentionKernel::SplitgqaRowsMaDevpos,
        AttentionKernel::SplitgqaRowsQgma, AttentionKernel::SplitgqaRowsQgmaDevpos,
    ]
}

/// The two-pass verify kernels.
pub open spec fn verify2p_kernels() -> Seq<AttentionKernel> {
    seq![
        AttentionKernel::Verify2pStats, AttentionKernel::Verify2pStatsDevpos,
        AttentionKernel::Verify2pMerge, AttentionKernel::Verify2pPv,
        AttentionKernel::Verify2pPvDevpos,
    ]
}

/// An opt-in step.
pub open spec fn opted_in(
    kernel: AttentionKernel,
    bytes: i32,
    label: Seq<char>,
) -> BuildStepView<AttentionKernel> {
    BuildStepView::OptInSharedMemory { kernel, bytes, label }
}

/// The build of the attention module. The query-grouped kernels and the value
/// pass of the two-pass verify need more shared memory than a kernel has
/// without asking, each for the largest shape that it takes.
pub open spec fn attention_build(kv_f16: bool) -> Seq<BuildStepView<AttentionKernel>> {
    build_start(kv_source(attention_cuda_src(), kv_f16))
        + loads(decode_and_rows_kernels())
        + seq![
            opted_in(AttentionKernel::SplitgqaRowsQg, QG_SMEM_BYTES, "qg rows smem opt-in"@),
            opted_in(
                AttentionKernel::SplitgqaRowsQgDevpos,
                QG_SMEM_BYTES,
                "qg rows devpos smem opt-in"@,
            ),
        ]
        + loads(many_accumulator_kernels())
        + seq![
            opted_in(AttentionKernel::SplitgqaRowsQgma, QG_SMEM_BYTES, "qgma rows smem opt-in"@),
            opted_in(
                AttentionKernel::SplitgqaRowsQgmaDevpos,
                QG_SMEM_BYTES,
                "qgma rows smem opt-in"@,
            ),
        ]
        + loads(verify2p_kernels())
        + seq![
            opted_in(AttentionKernel::Verify2pPv, PV_SMEM_BYTES, "verify2p pv smem opt-in"@),
            opted_in(
                AttentionKernel::Verify2pPvDevpos,
                PV_SMEM_BYTES,
                "verify2p pv devpos smem opt-in"@,
            ),
        ]
        + loads(seq![AttentionKernel::OutputGate])
}

/// Shared memory of the query-grouped kernels at head dimension 256 and eight
/// query heads per K/V head: the K tile, the probabilities and the rescales.
pub const QG_SMEM_BYTES: i32 = 50688;

/// Shared memory of the value pass at the same shape: the K tile and the
/// probabilities.
pub const PV_SMEM_BYTES: i32 = 50176;

/// Query heads that share a K/V head. Without K/V heads there are none.
pub open spec fn group(n_head: usize, n_kv_head: usize) -> int {
    if n_kv_head == 0 {
        0
    } else {
        n_head as int / n_kv_head as int
    }
}

/// [`group`], computed.
pub(crate) fn group_size(n_head: usize, n_kv_head: usize) -> (r: usize)
    ensures
        r == group(n_head, n_kv_head),
{
    if n_kv_head == 0 {
        0
    } else {
        n_head / n_kv_head
    }
}

/// Why a split attention over shared K/V heads is refused, if it is: the first
/// of the four rules that the sizes break.
pub open spec fn splitgqa_refusal(
    head_dim: usize,
    n_head: usize,
    n_kv_head: usize,
    chunk_len: usize,
) -> Option<Seq<char>> {
    let g = group(n_head, n_kv_head);
    if !multiple(n_head, n_kv_head) {
        Some(
            "splitgqa: n_head ("@ + decimal(n_head as nat) + ") not divisible by n_kv_head ("@
                + decimal(n_kv_head as nat) + ")"@,
        )
    } else if !(1 <= g <= 8) {
        Some("splitgqa: GQA group "@ + decimal(g as nat) + " outside [1, 8] (warp budget)"@)
    } else if !(1 <= head_dim <= 256) {
        Some(
            "splitgqa: head_dim "@ + decimal(head_dim as nat)
                + " outside [1, 256] (block budget)"@,
        )
    } else if chunk_len % 32 != 0 {
        Some(
            "splitgqa: chunk_len "@ + decimal(chunk_len as nat)
                + " not a multiple of the 32-position tile"@,
        )
    } else {
        None
    }
}

/// Holds the sizes of a split attention against the budgets of its kernels:
/// one warp per query head of a group, one thread per lane of a head, whole
/// tiles of 32 positions per chunk.
pub fn validate_splitgqa(
    head_dim: usize,
    n_head: usize,
    n_kv_head: usize,
    chunk_len: usize,
) -> (r: Result<(), CudarcKernelError>)
    ensures
        match r {
            Ok(()) => splitgqa_refusal(head_dim, n_head, n_kv_head, chunk_len) is None,
            Err(e) => splitgqa_refusal(head_dim, n_head, n_kv_head, chunk_len) matches Some(t)
                && e@ == ErrorView::InvalidArg(t),
        },
{
    if !n_head.is_multiple_of(n_kv_head) {
        return Err(
            CudarcKernelError::InvalidArg(
                message2(
                    "splitgqa: n_head (",
                    n_head,
                    ") not divisible by n_kv_head (",
                    n_kv_head,
                    ")",
                ),
            ),
        );
    }
    let g: usize = group_size(n_head, n_kv_head);
    if g == 0 || g > 8 {
        return Err(
            CudarcKernelError::InvalidArg(
                message1("splitgqa: GQA group ", g, " outside [1, 8] (warp budget)"),
            ),
        );
    }
    if head_dim == 0 || head_dim > 256 {
        return Err(
            CudarcKernelError::InvalidArg(
                message1("splitgqa: head_dim ", head_dim, " outside [1, 256] (block budget)"),
            ),
        );
    }
    if !chunk_len.is_multiple_of(32) {
        return Err(
            CudarcKernelError::InvalidArg(
                message1(
                    "splitgqa: chunk_len ",
                    chunk_len,
                    " not a multiple of the 32-position tile",
                ),
            ),
        );
    }
    Ok(())
}

/// The layout of the K tile that the row-batched kernels use: 0 for columns,
/// 1 for rows that are read four floats at a time. Only the setting `0` asks
/// for columns.
pub open spec fn kf4_arm(setting: Option<Seq<char>>) -> i32 {
    if setting == Some("0"@) {
        0
    } else {
        1
    }
}

/// The arm for a head dimension: a tile of rows takes `32 * (head_dim + 4)`
/// floats and may not outgrow the `33 * head_dim` floats of a tile of columns.
pub open spec fn kf4_for(arm: i32, head_dim: usize) -> i32 {
    if 32 * (head_dim + 4) <= head_dim * 33 {
        arm
    } else {
        0
    }
}

/// [`kf4_arm`], computed.
pub fn verify_kf4(setting: Option<&str>) -> (r: i32)
    ensures
        r == kf4_arm(text_of(setting)),
{
    match setting {
        Some(s) => if same_text(s, "0") {
            0
        } else {
            1
        },
        None => 1,
    }
}

/// The tile layout of a process. Launches may be captured and replayed, so the
/// layout is resolved once and kept.
#[derive(Clone, Copy, Debug, PartialEq, Eq)]
pub struct Kf4Choice {
    /// The layout, once it has been resolved.
    pub resolved: Option<i32>,
}

impl Kf4Choice {
    /// The choice before the layout is resolved.
    pub open spec fn unmade() -> Self {
        Kf4Choice { resolved: None }
    }

    /// The layout: the resolved one, else the one that the setting asks for.
    pub open spec fn arm(self, setting: Option<Seq<char>>) -> i32 {
        match self.resolved {
            Some(v) => v,
            None => kf4_arm(setting),
        }
    }

    /// The choice after the layout was asked for once.
    pub open spec fn after_one(self, setting: Option<Seq<char>>) -> Self {
        Kf4Choice { resolved: Some(self.arm(setting)) }
    }

    /// The choice after the layout was asked for under each of the settings, in
    /// order.
    pub open spec fn after(self, settings: Seq<Option<Seq<char>>>) -> Self
        decreases settings.len(),
    {
        if settings.len() == 0 {
            self
        } else {
            self.after(settings.drop_last()).after_one(settings.last())
        }
    }

    /// [`Kf4Choice::unmade`], computed.
    pub fn new() -> (r: Self)
        ensures
            r == Self::unmade(),
    {
        Kf4Choice { resolved: None }
    }

    /// The layout of the process. The first call takes the setting; later ones
    /// keep what it asked for.
    pub fn resolve(&mut self, setting: Option<&str>) -> (r: i32)
        ensures
            r == old(self).arm(text_of(setting)),
            *final(self) == old(self).after_one(text_of(setting)),
            old(self).resolved matches Some(v) ==> r == v && *final(self) == *old(self),
    {
        let arm: i32 = match self.resolved {
            Some(v) => v,
            None => verify_kf4(setting),
        };
        self.resolved = Some(arm);
        arm
    }
}

/// The attention kernels of a context: plans their build and their launches.
#[derive(Clone, Copy, Debug, PartialEq, Eq)]
pub struct AttentionKernels {
    /// The K tile layout of the row-batched kernels, as [`verify_kf4`] gives it.
    pub kf4: i32,
}

impl AttentionKernels {
    /// Kernels over caches of 32-bit floats. `kf4_setting` is the setting that
    /// picks the K tile layout.
    pub fn new(kf4_setting: Option<&str>) -> (r: (Self, KernelBuild<AttentionKernel>))
        ensures
            r.0.kf4 == kf4_arm(text_of(kf4_setting)),
            r.1@ == attention_build(false),
    {
        Self::new_with_kv_dtype(kf4_setting, false)
    }

    /// Kernels over caches of 32-bit floats, or of 16-bit floats where `kv_f16`
    /// holds.
    pub fn new_with_kv_dtype(kf4_setting: Option<&str>, kv_f16: bool) -> (r: (
        Self,
        KernelBuild<AttentionKernel>,
    ))
        ensures
            r.0.kf4 == kf4_arm(text_of(kf4_setting)),
            r.1@ == attention_build(kv_f16),
    {
        let source: String = attention_source();
        let mut build: KernelBuild<AttentionKernel> = KernelBuild::start(
            kv_text(source.as_str(), kv_f16),
        );
        build.load_all(
            vec![
                AttentionKernel::Rope, AttentionKernel::RopeDevpos, AttentionKernel::RopeBackward,
                AttentionKernel::SplitQg, AttentionKernel::RmsnormBatched, AttentionKernel::KvCacheAppend,
                AttentionKernel::KvCacheAppendDevpos, AttentionKernel::AttentionDecode,
                AttentionKernel::AttentionDecodeDevpos, AttentionKernel::Split,
                AttentionKernel::SplitDevpos, AttentionKernel::SplitCombine, AttentionKernel::Splitgqa,
                AttentionKernel::SplitgqaDevpos, AttentionKernel::RopeRows,
                AttentionKernel::RopeRowsDevpos, AttentionKernel::KvAppendRows,
                AttentionKernel::KvAppendRowsDevpos, AttentionKernel::SplitQgRows,
                AttentionKernel::SplitgqaRows, AttentionKernel::SplitgqaRowsDevpos,
                AttentionKernel::SplitCombineRows, AttentionKernel::SplitgqaRowsQg,
                AttentionKernel::SplitgqaRowsQgDevpos,
            ],
        );
        build.opt_in(AttentionKernel::SplitgqaRowsQg, QG_SMEM_BYTES, "qg rows smem opt-in");
        build.opt_in(
            AttentionKernel::SplitgqaRowsQgDevpos,
            QG_SMEM_BYTES,
            "qg rows devpos smem opt-in",
        );
        build.load_all(
            vec![
                AttentionKernel::SplitgqaRowsMa, AttentionKernel::SplitgqaRowsMaDevpos,
                AttentionKernel::SplitgqaRowsQgma, AttentionKernel::SplitgqaRowsQgmaDevpos,
            ],
        );
        build.opt_in(AttentionKernel::SplitgqaRowsQgma, QG_SMEM_BYTES, "qgma rows smem opt-in");
        build.opt_in(
            AttentionKernel::SplitgqaRowsQgmaDevpos,
            QG_SMEM_BYTES,
            "qgma rows smem opt-in",
        );
        build.load_all(
            vec![
                AttentionKernel::Verify2pStats, AttentionKernel::Verify2pStatsDevpos,
                AttentionKernel::Verify2pMerge, AttentionKernel::Verify2pPv,
                AttentionKernel::Verify2pPvDevpos,
            ],
        );
        build.opt_in(AttentionKernel::Verify2pPv, PV_SMEM_BYTES, "verify2p pv smem opt-in");
        build.opt_in(
            AttentionKernel::Verify2pPvDevpos,
            PV_SMEM_BYTES,
            "verify2p pv devpos smem opt-in",
        );
        build.load_all(vec![AttentionKernel::OutputGate]);
        assert(build@ =~= attention_build(kv_f16));
        (AttentionKernels { kf4: verify_kf4(kf4_setting) }, build)
    }

    /// These kernels with the layout of the process, for launches at a head
    /// dimension. The setting is consulted only where a tile of rows fits;
    /// elsewhere the layout plays no part.
    pub fn with_kf4(&self, choice: &mut Kf4Choice, setting: Option<&str>, head_dim: usize) -> (r:
        Self)
        requires
            32 * (head_dim + 4) <= usize::MAX,
            head_dim * 33 <= usize::MAX,
        ensures
            kf4_for(r.kf4, head_dim) == kf4_for(old(choice).arm(text_of(setting)), head_dim),
            r.kf4 == if head_dim >= 128 {
                old(choice).arm(text_of(setting))
            } else {
                self.kf4
            },
            *final(choice) == if head_dim >= 128 {
                old(choice).after_one(text_of(setting))
            } else {
                *old(choice)
            },
    {
        if 32 * (head_dim + 4) <= head_dim * 33 {
            AttentionKernels { kf4: choice.resolve(setting) }
        } else {
            *self
        }
    }

    /// The K tile layout at a head dimension, as [`kf4_for`] gives it.
    pub fn verify_kf4_for(&self, head_dim: usize) -> (r: i32)
        requires
            32 * (head_dim + 4) <= usize::MAX,
            head_dim * 33 <= usize::MAX,
        ensures
            r == kf4_for(self.kf4, head_dim),
    {
        if 32 * (head_dim + 4) <= head_dim * 33 {
            self.kf4
        } else {
            0
        }
    }
}

} // verus!
