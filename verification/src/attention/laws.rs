//! What holds of the attention launches and of the build across functions.

use vstd::prelude::*;
use crate::attention::decode::{
    attention_decode_launch, kv_append_launch, rope_launch, split_chunks, split_launch,
    split_qg_launch, splitgqa_launch, splitgqa_smem,
};
use crate::attention::rows::{
    grouped_refusal, kv_append_rows_launch, lemma_rows_smem_small, rope_rows_launch, rows_smem,
    split_qg_rows_launch, splitgqa_rows_launch,
};
use crate::attention::verify::{
    pv_smem, verify2p_launches, verify2p_pv_launch, verify2p_stats_launch,
};
use crate::attention::{
    attention_build, decode_and_rows_kernels, group, kf4_arm, kf4_for, opted_in,
    splitgqa_refusal, AttentionKernel, Kf4Choice, PV_SMEM_BYTES, QG_SMEM_BYTES,
    SPLITGQA_QGMA_ROWS_MAX_P, SPLITGQA_QG_ROWS_MAX_P,
};
use crate::geometry::{ceil_div, law_pieces_cover, low_u32};
use crate::launch::{Arg, Buffer, LaunchView};
use crate::module::{
    kv_source, BuildStepView, KernelId, ARCH, DEFAULT_SHARED_MEMORY, MAX_SHARED_MEMORY,
};
use crate::sources::attention::attention_cuda_src;

verus! {

/// The form of a launch that reads the position from a buffer: another kernel,
/// the buffer in place of argument `slot`, and all else the same.
pub open spec fn devpos_twin(
    live: LaunchView<AttentionKernel>,
    kernel: AttentionKernel,
    slot: int,
) -> LaunchView<AttentionKernel> {
    LaunchView {
        kernel,
        config: live.config,
        args: live.args.update(slot, Arg::Buf(Buffer::PosDev)),
    }
}

/// Rotary embedding reads its position from the seventh argument, whichever form
/// the launch has; grid and further arguments do not depend on the form.
pub proof fn law_rope_twin(
    live: AttentionKernel,
    devpos: AttentionKernel,
    q: Buffer,
    k: Buffer,
    rotary_dim: usize,
    head_dim: usize,
    n_head: usize,
    n_kv_head: usize,
    pos: Arg,
)
    ensures
        rope_launch(
            devpos,
            q,
            k,
            rotary_dim,
            head_dim,
            n_head,
            n_kv_head,
            Arg::Buf(Buffer::PosDev),
        ) == devpos_twin(
            rope_launch(live, q, k, rotary_dim, head_dim, n_head, n_kv_head, pos),
            devpos,
            6,
        ),
{
    let a = rope_launch(live, q, k, rotary_dim, head_dim, n_head, n_kv_head, pos);
    let dev = Arg::Buf(Buffer::PosDev);
    let b = rope_launch(devpos, q, k, rotary_dim, head_dim, n_head, n_kv_head, dev);
    assert(b =~= devpos_twin(a, devpos, 6));
}

/// The same of the rotary embedding of several rows.
pub proof fn law_rope_rows_twin(
    live: AttentionKernel,
    devpos: AttentionKernel,
    rotary_dim: usize,
    head_dim: usize,
    n_head: usize,
    n_kv_head: usize,
    base: Arg,
    p: usize,
)
    ensures
        rope_rows_launch(
            devpos,
            rotary_dim,
            head_dim,
            n_head,
            n_kv_head,
            Arg::Buf(Buffer::PosDev),
            p,
        ) == devpos_twin(
            rope_rows_launch(live, rotary_dim, head_dim, n_head, n_kv_head, base, p),
            devpos,
            6,
        ),
{
    let a = rope_rows_launch(live, rotary_dim, head_dim, n_head, n_kv_head, base, p);
    let dev = Arg::Buf(Buffer::PosDev);
    let b = rope_rows_launch(devpos, rotary_dim, head_dim, n_head, n_kv_head, dev, p);
    assert(b =~= devpos_twin(a, devpos, 6));
}

/// Cache appends, of one row and of several, read their row from the sixth
/// argument.
pub proof fn law_kv_append_twin(
    live: AttentionKernel,
    devpos: AttentionKernel,
    kvd: usize,
    pos: Arg,
    p: usize,
)
    ensures
        kv_append_launch(devpos, kvd, Arg::Buf(Buffer::PosDev)) == devpos_twin(
            kv_append_launch(live, kvd, pos),
            devpos,
            5,
        ),
        kv_append_rows_launch(devpos, kvd, Arg::Buf(Buffer::PosDev), p) == devpos_twin(
            kv_append_rows_launch(live, kvd, pos, p),
            devpos,
            5,
        ),
{
    let dev = Arg::Buf(Buffer::PosDev);
    assert(kv_append_launch(devpos, kvd, dev) =~= devpos_twin(
        kv_append_launch(live, kvd, pos),
        devpos,
        5,
    ));
    assert(kv_append_rows_launch(devpos, kvd, dev, p) =~= devpos_twin(
        kv_append_rows_launch(live, kvd, pos, p),
        devpos,
        5,
    ));
}

/// Decode attention reads its position from the ninth argument, its split forms
/// from the twelfth; with as many chunks the grids are the same.
pub proof fn law_decode_twin(
    live: AttentionKernel,
    devpos: AttentionKernel,
    head_dim: usize,
    n_head: usize,
    n_kv_head: usize,
    chunk_len: usize,
    n_chunks: int,
    positions: Arg,
)
    ensures
        attention_decode_launch(devpos, head_dim, n_head, n_kv_head, Arg::Buf(Buffer::PosDev))
            == devpos_twin(
            attention_decode_launch(live, head_dim, n_head, n_kv_head, positions),
            devpos,
            8,
        ),
        split_launch(
            devpos,
            head_dim,
            n_head,
            n_kv_head,
            chunk_len,
            n_chunks,
            Arg::Buf(Buffer::PosDev),
        ) == devpos_twin(
            split_launch(live, head_dim, n_head, n_kv_head, chunk_len, n_chunks, positions),
            devpos,
            11,
        ),
        splitgqa_launch(
            devpos,
            head_dim,
            n_head,
            n_kv_head,
            chunk_len,
            n_chunks,
            Arg::Buf(Buffer::PosDev),
        ) == devpos_twin(
            splitgqa_launch(live, head_dim, n_head, n_kv_head, chunk_len, n_chunks, positions),
            devpos,
            11,
        ),
{
    let dev = Arg::Buf(Buffer::PosDev);
    assert(attention_decode_launch(devpos, head_dim, n_head, n_kv_head, dev) =~= devpos_twin(
        attention_decode_launch(live, head_dim, n_head, n_kv_head, positions),
        devpos,
        8,
    ));
    assert(split_launch(devpos, head_dim, n_head, n_kv_head, chunk_len, n_chunks, dev)
        =~= devpos_twin(
        split_launch(live, head_dim, n_head, n_kv_head, chunk_len, n_chunks, positions),
        devpos,
        11,
    ));
    assert(splitgqa_launch(devpos, head_dim, n_head, n_kv_head, chunk_len, n_chunks, dev)
        =~= devpos_twin(
        splitgqa_launch(live, head_dim, n_head, n_kv_head, chunk_len, n_chunks, positions),
        devpos,
        11,
    ));
}

/// Row-batched attention, in each of its four forms, reads its first position
/// from the twelfth argument.
pub proof fn law_splitgqa_rows_twin(
    live: AttentionKernel,
    devpos: AttentionKernel,
    block: u32,
    rows: int,
    kf4: i32,
    head_dim: usize,
    n_head: usize,
    n_kv_head: usize,
    chunk_len: usize,
    n_chunks: usize,
    base: Arg,
    p: usize,
)
    ensures
        splitgqa_rows_launch(
            devpos,
            block,
            rows,
            kf4,
            head_dim,
            n_head,
            n_kv_head,
            chunk_len,
            n_chunks,
            Arg::Buf(Buffer::PosDev),
            p,
        ) == devpos_twin(
            splitgqa_rows_launch(
                live,
                block,
                rows,
                kf4,
                head_dim,
                n_head,
                n_kv_head,
                chunk_len,
                n_chunks,
                base,
                p,
            ),
            devpos,
            11,
        ),
{
    let a = splitgqa_rows_launch(
        live,
        block,
        rows,
        kf4,
        head_dim,
        n_head,
        n_kv_head,
        chunk_len,
        n_chunks,
        base,
        p,
    );
    let b = splitgqa_rows_launch(
        devpos,
        block,
        rows,
        kf4,
        head_dim,
        n_head,
        n_kv_head,
        chunk_len,
        n_chunks,
        Arg::Buf(Buffer::PosDev),
        p,
    );
    assert(b =~= devpos_twin(a, devpos, 11));
}

/// The two-pass attention reads its first position in its first and its third
/// launch; the two merges are the same in both forms.
pub proof fn law_verify2p_twin(
    head_dim: usize,
    n_head: usize,
    n_kv_head: usize,
    chunk_len: usize,
    n_chunks: usize,
    n_stat_tiles: usize,
    base: Arg,
    p: usize,
)
    ensures
        ({
            let live = verify2p_launches(
                AttentionKernel::Verify2pStats,
                AttentionKernel::Verify2pPv,
                head_dim,
                n_head,
                n_kv_head,
                chunk_len,
                n_chunks,
                n_stat_tiles,
                base,
                p,
            );
            verify2p_launches(
                AttentionKernel::Verify2pStatsDevpos,
                AttentionKernel::Verify2pPvDevpos,
                head_dim,
                n_head,
                n_kv_head,
                chunk_len,
                n_chunks,
                n_stat_tiles,
                Arg::Buf(Buffer::PosDev),
                p,
            ) == seq![
                devpos_twin(live[0], AttentionKernel::Verify2pStatsDevpos, 9),
                live[1],
                devpos_twin(live[2], AttentionKernel::Verify2pPvDevpos, 12),
                live[3],
            ]
        }),
{
    let dev = Arg::Buf(Buffer::PosDev);
    let stats = AttentionKernel::Verify2pStatsDevpos;
    let pv = AttentionKernel::Verify2pPvDevpos;
    assert(verify2p_stats_launch(stats, head_dim, n_head, n_kv_head, n_stat_tiles, dev, p)
        =~= devpos_twin(
        verify2p_stats_launch(
            AttentionKernel::Verify2pStats,
            head_dim,
            n_head,
            n_kv_head,
            n_stat_tiles,
            base,
            p,
        ),
        stats,
        9,
    ));
    assert(verify2p_pv_launch(pv, head_dim, n_head, n_kv_head, chunk_len, n_chunks, dev, p)
        =~= devpos_twin(
        verify2p_pv_launch(
            AttentionKernel::Verify2pPv,
            head_dim,
            n_head,
            n_kv_head,
            chunk_len,
            n_chunks,
            base,
            p,
        ),
        pv,
        12,
    ));
}

/// The row-batched kernels over one row have the grids of the one-row kernels.
pub proof fn law_one_row_grids(
    rotary_dim: usize,
    head_dim: usize,
    n_head: usize,
    n_kv_head: usize,
    kvd: usize,
    pos: Arg,
)
    ensures
        rope_rows_launch(
            AttentionKernel::RopeRows,
            rotary_dim,
            head_dim,
            n_head,
            n_kv_head,
            pos,
            1,
        ).config == rope_launch(
            AttentionKernel::Rope,
            Buffer::Q,
            Buffer::K,
            rotary_dim,
            head_dim,
            n_head,
            n_kv_head,
            pos,
        ).config,
        kv_append_rows_launch(AttentionKernel::KvAppendRows, kvd, pos, 1).config
            == kv_append_launch(AttentionKernel::KvCacheAppend, kvd, pos).config,
        split_qg_rows_launch(head_dim, n_head, 1).config == split_qg_launch(
            head_dim,
            n_head,
        ).config,
{
    assert(1 * n_head == n_head);
}

/// A cached row lies in exactly one chunk, and the launch has a block for it;
/// there is a chunk also where no row is cached, and no chunk but that one is
/// empty.
pub proof fn law_chunks_cover(n_positions: usize, chunk_len: usize, i: int)
    requires
        chunk_len > 0,
    ensures
        split_chunks(n_positions, chunk_len) >= 1,
        n_positions == 0 ==> split_chunks(n_positions, chunk_len) == 1,
        0 <= i < n_positions ==> {
            &&& 0 <= i / (chunk_len as int) < split_chunks(n_positions, chunk_len)
            &&& chunk_len * (i / chunk_len as int) <= i < chunk_len * (i / chunk_len as int)
                + chunk_len
            &&& forall|c: int| #![trigger chunk_len * c]
                chunk_len * c <= i < chunk_len * c + chunk_len ==> c == i / chunk_len as int
            &&& chunk_len * (split_chunks(n_positions, chunk_len) - 1) < n_positions
        },
{
    if n_positions == 0 {
        assert((0 + chunk_len - 1) / chunk_len as int == 0) by (nonlinear_arith)
            requires
                chunk_len > 0,
        ;
    } else {
        law_pieces_cover(n_positions as int, chunk_len as int, 0);
    }
    if 0 <= i < n_positions {
        law_pieces_cover(n_positions as int, chunk_len as int, i);
        assert forall|c: int| #![trigger chunk_len * c]
            chunk_len * c <= i < chunk_len * c + chunk_len implies c == i / chunk_len as int by {
            assert(chunk_len as int * c == chunk_len * c);
        }
    }
}

/// A row of a batch lies in exactly one slice of the third grid dimension, and
/// no slice is empty.
pub proof fn law_row_slices_cover(p: usize, rows: int, r: int)
    requires
        rows == 4 || rows == 16,
        0 <= r < p <= u32::MAX,
    ensures
        0 <= r / rows < low_u32(ceil_div(p as int, rows)),
        rows * (r / rows) <= r < rows * (r / rows) + rows,
        forall|z: int| #![trigger rows * z] rows * z <= r < rows * z + rows ==> z == r / rows,
        rows * (low_u32(ceil_div(p as int, rows)) - 1) < p,
{
    law_pieces_cover(p as int, rows, r);
}

/// The query-grouped kernels serve up to sixteen rows with one slice, and so do
/// those with more accumulators, which take no more; the plain ones serve the
/// most that they take with four.
pub proof fn law_qg_slices(
    kernel: AttentionKernel,
    kf4: i32,
    head_dim: usize,
    n_head: usize,
    n_kv_head: usize,
    chunk_len: usize,
    n_chunks: usize,
    base: Arg,
    p: usize,
)
    requires
        1 <= p <= SPLITGQA_QG_ROWS_MAX_P,
    ensures
        ({
            let z = splitgqa_rows_launch(
                kernel,
                1024,
                16,
                kf4,
                head_dim,
                n_head,
                n_kv_head,
                chunk_len,
                n_chunks,
                base,
                p,
            ).config.grid_dim.2;
            &&& 1 <= z <= 4
            &&& z == 1 <==> p <= 16
            &&& p <= SPLITGQA_QGMA_ROWS_MAX_P ==> z == 1
        }),
{
}

/// Sizes that are accepted launch blocks that the device has room for. Kernels
/// without an opt-in stay within the shared memory that every kernel has; the
/// query-grouped kernels and the value pass stay within what they opt in to.
pub proof fn law_shared_memory_fits(
    head_dim: usize,
    n_head: usize,
    n_kv_head: usize,
    chunk_len: usize,
)
    requires
        splitgqa_refusal(head_dim, n_head, n_kv_head, chunk_len) is None,
    ensures
        low_u32(splitgqa_smem(head_dim, n_head, n_kv_head)) == splitgqa_smem(
            head_dim,
            n_head,
            n_kv_head,
        ),
        splitgqa_smem(head_dim, n_head, n_kv_head) <= DEFAULT_SHARED_MEMORY,
        low_u32(rows_smem(4, head_dim, n_head, n_kv_head)) == rows_smem(
            4,
            head_dim,
            n_head,
            n_kv_head,
        ),
        rows_smem(4, head_dim, n_head, n_kv_head) <= DEFAULT_SHARED_MEMORY,
        low_u32(head_dim * 33 * 4) == head_dim * 33 * 4,
        head_dim * 33 * 4 <= DEFAULT_SHARED_MEMORY,
        low_u32(rows_smem(16, head_dim, n_head, n_kv_head)) == rows_smem(
            16,
            head_dim,
            n_head,
            n_kv_head,
        ),
        rows_smem(16, head_dim, n_head, n_kv_head) <= QG_SMEM_BYTES,
        low_u32(pv_smem(head_dim, n_head, n_kv_head)) == pv_smem(head_dim, n_head, n_kv_head),
        pv_smem(head_dim, n_head, n_kv_head) <= PV_SMEM_BYTES,
        DEFAULT_SHARED_MEMORY < PV_SMEM_BYTES < QG_SMEM_BYTES <= MAX_SHARED_MEMORY,
{
    let g = group(n_head, n_kv_head);
    lemma_rows_smem_small(4, head_dim, n_head, n_kv_head);
    lemma_rows_smem_small(16, head_dim, n_head, n_kv_head);
    assert(0 <= g * head_dim <= 8 * 256) by (nonlinear_arith)
        requires
            1 <= g <= 8,
            1 <= head_dim <= 256,
    ;
}

/// Decode attention, plain and split, has a block with a thread per lane and a
/// float of shared memory for each: that fits every head of up to 1024 lanes.
pub proof fn law_decode_blocks_fit(
    kernel: AttentionKernel,
    head_dim: usize,
    n_head: usize,
    n_kv_head: usize,
    chunk_len: usize,
    n_chunks: int,
    positions: Arg,
)
    requires
        head_dim <= 1024,
    ensures
        ({
            let a = attention_decode_launch(kernel, head_dim, n_head, n_kv_head, positions).config;
            let b = split_launch(
                kernel,
                head_dim,
                n_head,
                n_kv_head,
                chunk_len,
                n_chunks,
                positions,
            ).config;
            &&& a.block_dim == (head_dim as u32, 1u32, 1u32)
            &&& a.shared_mem_bytes == 4 * head_dim
            &&& a.shared_mem_bytes <= DEFAULT_SHARED_MEMORY
            &&& b.block_dim == a.block_dim
            &&& b.shared_mem_bytes == a.shared_mem_bytes
        }),
{
}

/// The opt-ins are no larger than they have to be: heads of 256 lanes, eight of
/// them per K/V head, use all that is opted in to.
pub proof fn law_opt_ins_are_tight(n_kv_head: usize)
    requires
        0 < n_kv_head,
        8 * n_kv_head <= usize::MAX,
    ensures
        rows_smem(16, 256, (8 * n_kv_head) as usize, n_kv_head) == QG_SMEM_BYTES,
        pv_smem(256, (8 * n_kv_head) as usize, n_kv_head) == PV_SMEM_BYTES,
{
    assert((8 * n_kv_head) / n_kv_head as int == 8) by (nonlinear_arith)
        requires
            n_kv_head > 0,
    ;
}

/// The tile of rows is used from 128 lanes on, and there it takes no more floats
/// than the tile of columns that the shared memory is sized for.
pub proof fn law_row_tile_fits(arm: i32, head_dim: usize)
    ensures
        kf4_for(arm, head_dim) == if head_dim >= 128 {
            arm
        } else {
            0
        },
        kf4_for(arm, head_dim) != 0 ==> 32 * (head_dim + 4) <= 33 * head_dim,
{
}

/// Every call of a process gives the layout that the setting asked for at the
/// first of them, whatever the setting has become since, and no call but the
/// first changes the choice.
pub proof fn law_tile_layout_is_resolved_once(
    settings: Seq<Option<Seq<char>>>,
    later: Option<Seq<char>>,
)
    requires
        settings.len() > 0,
    ensures
        Kf4Choice::unmade().after(settings).arm(later) == kf4_arm(settings[0]),
        Kf4Choice::unmade().after(settings).after_one(later) == Kf4Choice::unmade().after(settings),
        Kf4Choice::unmade().after(settings) == Kf4Choice::unmade().after_one(settings[0]),
    decreases settings.len(),
{
    let before = settings.drop_last();
    if before.len() == 0 {
        reveal_with_fuel(Kf4Choice::after, 2);
    } else {
        law_tile_layout_is_resolved_once(before, settings.last());
    }
}

/// Sizes without K/V heads are refused, by the split attention and so by every
/// form of it.
pub proof fn law_no_kv_heads_is_refused(head_dim: usize, n_head: usize, chunk_len: usize)
    ensures
        splitgqa_refusal(head_dim, n_head, 0, chunk_len) is Some,
{
}

/// Where the two-pass attention is not refused, the query-grouped attention of
/// the same sizes is not refused either.
pub proof fn law_verify2p_within_qg(
    label: Seq<char>,
    qg_label: Seq<char>,
    head_dim: usize,
    n_head: usize,
    n_kv_head: usize,
    chunk_len: usize,
    p: usize,
)
    ensures
        grouped_refusal(label, 16, head_dim, n_head, n_kv_head, chunk_len, p) is None
            ==> grouped_refusal(
            qg_label,
            SPLITGQA_QG_ROWS_MAX_P,
            head_dim,
            n_head,
            n_kv_head,
            chunk_len,
            p,
        ) is None,
{
}

/// The step of the build that looks a kernel up.
pub open spec fn load_step(k: AttentionKernel) -> int {
    match k {
        AttentionKernel::Rope => 2,
        AttentionKernel::RopeDevpos => 3,
        AttentionKernel::RopeBackward => 4,
        AttentionKernel::SplitQg => 5,
        AttentionKernel::RmsnormBatched => 6,
        AttentionKernel::KvCacheAppend => 7,
        AttentionKernel::KvCacheAppendDevpos => 8,
        AttentionKernel::AttentionDecode => 9,
        AttentionKernel::AttentionDecodeDevpos => 10,
        AttentionKernel::Split => 11,
        AttentionKernel::SplitDevpos => 12,
        AttentionKernel::SplitCombine => 13,
        AttentionKernel::Splitgqa => 14,
        AttentionKernel::SplitgqaDevpos => 15,
        AttentionKernel::RopeRows => 16,
        AttentionKernel::RopeRowsDevpos => 17,
        AttentionKernel::KvAppendRows => 18,
        AttentionKernel::KvAppendRowsDevpos => 19,
        AttentionKernel::SplitQgRows => 20,
        AttentionKernel::SplitgqaRows => 21,
        AttentionKernel::SplitgqaRowsDevpos => 22,
        AttentionKernel::SplitCombineRows => 23,
        AttentionKernel::SplitgqaRowsQg => 24,
        AttentionKernel::SplitgqaRowsQgDevpos => 25,
        AttentionKernel::SplitgqaRowsMa => 28,
        AttentionKernel::SplitgqaRowsMaDevpos => 29,
        AttentionKernel::SplitgqaRowsQgma => 30,
        AttentionKernel::SplitgqaRowsQgmaDevpos => 31,
        AttentionKernel::Verify2pStats => 34,
        AttentionKernel::Verify2pStatsDevpos => 35,
        AttentionKernel::Verify2pMerge => 36,
        AttentionKernel::Verify2pPv => 37,
        AttentionKernel::Verify2pPvDevpos => 38,
        AttentionKernel::OutputGate => 41,
    }
}

/// The build compiles, loads the module, and then looks up every kernel, each
/// once, under its entry point; a kernel that opts in to more shared memory does
/// so after it has been looked up.
pub proof fn law_build_loads_every_kernel(kv_f16: bool, k: AttentionKernel)
    ensures
        attention_build(kv_f16)[0] == (BuildStepView::<AttentionKernel>::Compile {
            source: kv_source(attention_cuda_src(), kv_f16),
            arch: ARCH@,
        }),
        attention_build(kv_f16)[1] == BuildStepView::<AttentionKernel>::LoadModule,
        2 <= load_step(k) < attention_build(kv_f16).len(),
        attention_build(kv_f16)[load_step(k)] == (BuildStepView::LoadFunction {
            kernel: k,
            entry: k.entry_point(),
        }),
        forall|i: int|
            0 <= i < attention_build(kv_f16).len() ==> {
                &&& #[trigger] attention_build(kv_f16)[i] matches BuildStepView::LoadFunction {
                    kernel,
                    ..
                } ==> load_step(kernel) == i
                &&& attention_build(kv_f16)[i] matches BuildStepView::OptInSharedMemory {
                    kernel,
                    ..
                } ==> load_step(kernel) < i
            },
{
    let b = attention_build(kv_f16);
    assert(b.len() == 42);
    assert forall|i: int| 0 <= i < b.len() implies {
        &&& #[trigger] b[i] matches BuildStepView::LoadFunction { kernel, .. } ==> load_step(kernel)
            == i
        &&& b[i] matches BuildStepView::OptInSharedMemory { kernel, .. } ==> load_step(kernel) < i
    } by {
        if 2 <= i < 26 {
            let k0 = decode_and_rows_kernels()[i - 2];
            assert(b[i] == (BuildStepView::LoadFunction { kernel: k0, entry: k0.entry_point() }));
        }
    }
    assert(b[load_step(k)] == (BuildStepView::LoadFunction { kernel: k, entry: k.entry_point() }));
}

/// The element type of the caches changes the text that is compiled and nothing
/// else of the build.
pub proof fn law_kv_dtype_changes_the_text_only()
    ensures
        attention_build(true) == attention_build(false).update(
            0,
            BuildStepView::Compile {
                source: kv_source(attention_cuda_src(), true),
                arch: ARCH@,
            },
        ),
{
    assert(attention_build(true) =~= attention_build(false).update(
        0,
        BuildStepView::Compile { source: kv_source(attention_cuda_src(), true), arch: ARCH@ },
    ));
}

/// Whether a kernel opts in to more shared memory, and to how much.
pub open spec fn opt_in_bytes(k: AttentionKernel) -> Option<i32> {
    match k {
        AttentionKernel::SplitgqaRowsQg | AttentionKernel::SplitgqaRowsQgDevpos => Some(
            QG_SMEM_BYTES,
        ),
        AttentionKernel::SplitgqaRowsQgma | AttentionKernel::SplitgqaRowsQgmaDevpos => Some(
            QG_SMEM_BYTES,
        ),
        AttentionKernel::Verify2pPv | AttentionKernel::Verify2pPvDevpos => Some(PV_SMEM_BYTES),
        _ => None,
    }
}

/// Whether a step of the build is the opt-in of a kernel.
pub open spec fn opts_in(
    step: BuildStepView<AttentionKernel>,
    k: AttentionKernel,
    bytes: i32,
) -> bool {
    step matches BuildStepView::OptInSharedMemory { kernel, bytes: b, .. } && kernel == k && b
        == bytes
}

/// The kernels that may be launched with more shared memory than every kernel
/// has are the ones that opt in, each to the bound of
/// [`law_shared_memory_fits`].
pub proof fn law_opt_ins(kv_f16: bool, k: AttentionKernel, bytes: i32)
    ensures
        (exists|i: int|
            0 <= i < attention_build(kv_f16).len() && #[trigger] opts_in(
                attention_build(kv_f16)[i],
                k,
                bytes,
            )) <==> opt_in_bytes(k) == Some(bytes),
{
    let b = attention_build(kv_f16);
    assert(b.len() == 42);
    assert(b[26] == opted_in(
        AttentionKernel::SplitgqaRowsQg,
        QG_SMEM_BYTES,
        "qg rows smem opt-in"@,
    ));
    assert(b[27] == opted_in(
        AttentionKernel::SplitgqaRowsQgDevpos,
        QG_SMEM_BYTES,
        "qg rows devpos smem opt-in"@,
    ));
    assert(b[32] == opted_in(
        AttentionKernel::SplitgqaRowsQgma,
        QG_SMEM_BYTES,
        "qgma rows smem opt-in"@,
    ));
    assert(b[33] == opted_in(
        AttentionKernel::SplitgqaRowsQgmaDevpos,
        QG_SMEM_BYTES,
        "qgma rows smem opt-in"@,
    ));
    assert(b[39] == opted_in(
        AttentionKernel::Verify2pPv,
        PV_SMEM_BYTES,
        "verify2p pv smem opt-in"@,
    ));
    assert(b[40] == opted_in(
        AttentionKernel::Verify2pPvDevpos,
        PV_SMEM_BYTES,
        "verify2p pv devpos smem opt-in"@,
    ));
    if opt_in_bytes(k) == Some(bytes) {
        assert(opts_in(b[26], k, bytes) || opts_in(b[27], k, bytes) || opts_in(b[32], k, bytes)
            || opts_in(b[33], k, bytes) || opts_in(b[39], k, bytes) || opts_in(b[40], k, bytes));
    }
    assert forall|i: int|
        0 <= i < b.len() && #[trigger] opts_in(b[i], k, bytes) implies i == 26 || i == 27 || i
        == 32 || i == 33 || i == 39 || i == 40 by {
    }
}

} // verus!
