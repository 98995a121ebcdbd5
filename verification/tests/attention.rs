use riir_infer_gpu::attention::{
    validate_splitgqa, verify_kf4, AttentionKernel, AttentionKernels, Kf4Choice, PV_SMEM_BYTES,
    QG_SMEM_BYTES, SPLITGQA_QGMA_ROWS_MAX_P, SPLITGQA_QG_ROWS_MAX_P,
};
use riir_infer_gpu::error::CudarcKernelError;
use riir_infer_gpu::launch::{Arg, Buffer, LaunchConfig, LaunchPlan, Real};
use riir_infer_gpu::module::BuildStep;

fn kernels() -> AttentionKernels {
    AttentionKernels::new(None).0
}

fn cfg(grid: (u32, u32, u32), block: u32, smem: u32) -> LaunchConfig {
    LaunchConfig { grid_dim: grid, block_dim: (block, 1, 1), shared_mem_bytes: smem }
}

fn buf(b: Buffer) -> Arg {
    Arg::Buf(b)
}

fn text(e: CudarcKernelError) -> String {
    match e {
        CudarcKernelError::InvalidArg(t) => t,
        other => panic!("not an invalid argument: {:?}", other),
    }
}

fn refused(r: Result<LaunchPlan<AttentionKernel>, CudarcKernelError>) -> String {
    match r {
        Ok(_) => panic!("accepted"),
        Err(e) => text(e),
    }
}

fn declares(source: &str, entry: &str) -> bool {
    source.contains(&format!(" {}(", entry)) || source.contains(&format!("\n{}(", entry))
}

#[test]
fn validate_accepts_the_budgets() {
    assert!(validate_splitgqa(256, 24, 4, 64).is_ok());
    assert!(validate_splitgqa(1, 1, 1, 0).is_ok());
    assert!(validate_splitgqa(256, 64, 8, 32).is_ok());
}

#[test]
fn validate_names_the_first_broken_rule() {
    let t = |hd, nh, nkv, c| text(validate_splitgqa(hd, nh, nkv, c).unwrap_err());
    assert_eq!(t(0, 10, 4, 1), "splitgqa: n_head (10) not divisible by n_kv_head (4)");
    assert_eq!(t(256, 10, 0, 32), "splitgqa: n_head (10) not divisible by n_kv_head (0)");
    assert_eq!(t(0, 36, 4, 1), "splitgqa: GQA group 9 outside [1, 8] (warp budget)");
    assert_eq!(t(0, 0, 4, 1), "splitgqa: GQA group 0 outside [1, 8] (warp budget)");
    assert_eq!(t(0, 24, 4, 1), "splitgqa: head_dim 0 outside [1, 256] (block budget)");
    assert_eq!(t(257, 24, 4, 1), "splitgqa: head_dim 257 outside [1, 256] (block budget)");
    assert_eq!(
        t(256, 24, 4, 48),
        "splitgqa: chunk_len 48 not a multiple of the 32-position tile"
    );
}

#[test]
fn only_zero_asks_for_columns() {
    assert_eq!(verify_kf4(None), 1);
    assert_eq!(verify_kf4(Some("0")), 0);
    assert_eq!(verify_kf4(Some("1")), 1);
    assert_eq!(verify_kf4(Some("")), 1);
    assert_eq!(verify_kf4(Some("00")), 1);
    let rows = AttentionKernels::new(Some("1")).0;
    assert_eq!(rows.verify_kf4_for(127), 0);
    assert_eq!(rows.verify_kf4_for(128), 1);
    assert_eq!(rows.verify_kf4_for(256), 1);
    let columns = AttentionKernels::new(Some("0")).0;
    assert_eq!(columns.verify_kf4_for(256), 0);
}

#[test]
fn build_compiles_loads_and_opts_in() {
    let (_, build) = AttentionKernels::new(None);
    assert_eq!(build.steps.len(), 42);
    let source = match &build.steps[0] {
        BuildStep::Compile { source, arch } => {
            assert_eq!(*arch, "sm_89");
            source.clone()
        }
        other => panic!("not a compile step: {:?}", other),
    };
    assert!(!source.contains('\0'));
    assert_eq!(build.steps[1], BuildStep::LoadModule);
    let mut opt_ins = Vec::new();
    let mut loaded = Vec::new();
    for step in &build.steps[2..] {
        match step {
            BuildStep::LoadFunction { kernel, entry } => {
                assert!(declares(&source, entry), "{}", entry);
                assert!(!loaded.contains(kernel));
                loaded.push(*kernel);
            }
            BuildStep::OptInSharedMemory { kernel, bytes, label } => {
                assert!(loaded.contains(kernel));
                opt_ins.push((*kernel, *bytes, *label));
            }
            other => panic!("unexpected step: {:?}", other),
        }
    }
    assert_eq!(loaded.len(), 34);
    assert_eq!(loaded[0], AttentionKernel::Rope);
    assert_eq!(loaded[33], AttentionKernel::OutputGate);
    assert_eq!(
        opt_ins,
        vec![
            (AttentionKernel::SplitgqaRowsQg, 50688, "qg rows smem opt-in"),
            (AttentionKernel::SplitgqaRowsQgDevpos, 50688, "qg rows devpos smem opt-in"),
            (AttentionKernel::SplitgqaRowsQgma, 50688, "qgma rows smem opt-in"),
            (AttentionKernel::SplitgqaRowsQgmaDevpos, 50688, "qgma rows smem opt-in"),
            (AttentionKernel::Verify2pPv, 50176, "verify2p pv smem opt-in"),
            (AttentionKernel::Verify2pPvDevpos, 50176, "verify2p pv devpos smem opt-in"),
        ]
    );
}

#[test]
fn half_caches_change_the_text_only() {
    let (_, full) = AttentionKernels::new_with_kv_dtype(None, false);
    let (_, half) = AttentionKernels::new_with_kv_dtype(None, true);
    assert_eq!(full.steps[1..], half.steps[1..]);
    match (&full.steps[0], &half.steps[0]) {
        (BuildStep::Compile { source: a, .. }, BuildStep::Compile { source: b, .. }) => {
            assert_eq!(format!("#define KV_F16 1\n{}", a), *b);
        }
        other => panic!("not compile steps: {:?}", other),
    }
}

#[test]
fn rope_has_a_thread_per_pair() {
    let plan = kernels().launch_rope(64, 256, 24, 4, 7);
    assert_eq!(plan.launches.len(), 1);
    let l = &plan.launches[0];
    assert_eq!(l.kernel, AttentionKernel::Rope);
    assert_eq!(l.config, cfg((3, 1, 1), 256, 0));
    assert_eq!(
        l.args,
        vec![
            buf(Buffer::Q),
            buf(Buffer::K),
            Arg::I32(64),
            Arg::I32(256),
            Arg::I32(24),
            Arg::I32(4),
            Arg::I32(7),
            Arg::Real(Real::ThetaBase),
        ]
    );
    let back = kernels().launch_rope_backward(64, 256, 24, 4, 7);
    assert_eq!(back.launches[0].kernel, AttentionKernel::RopeBackward);
    assert_eq!(back.launches[0].config, l.config);
    assert_eq!(back.launches[0].args[..2], [buf(Buffer::GradQ), buf(Buffer::GradK)]);
    assert_eq!(back.launches[0].args[2..], l.args[2..]);
}

#[test]
fn devpos_forms_differ_in_the_position_only() {
    let k = kernels();
    let pairs = vec![
        (k.launch_rope(64, 256, 24, 4, 9), k.launch_rope_devpos(64, 256, 24, 4), 6),
        (k.launch_kv_cache_append(1024, 9), k.launch_kv_cache_append_devpos(1024), 5),
        (
            k.launch_attention_decode(256, 24, 4, 10),
            k.launch_attention_decode_devpos(256, 24, 4),
            8,
        ),
        (
            k.launch_attention_decode_split(256, 24, 4, 64, 130),
            k.launch_attention_decode_split_devpos(256, 24, 4, 64, 3),
            11,
        ),
        (
            k.launch_attention_decode_split_gqa(256, 24, 4, 64, 130).unwrap(),
            k.launch_attention_decode_split_gqa_devpos(256, 24, 4, 64, 3).unwrap(),
            11,
        ),
        (k.launch_rope_rows(64, 256, 24, 4, 9, 5), k.launch_rope_rows_devpos(64, 256, 24, 4, 5), 6),
        (k.launch_kv_append_rows(1024, 9, 5), k.launch_kv_append_rows_devpos(1024, 5), 5),
        (
            k.launch_attention_splitgqa_rows(256, 24, 4, 64, 3, 9, 5).unwrap(),
            k.launch_attention_splitgqa_rows_devpos(256, 24, 4, 64, 3, 5).unwrap(),
            11,
        ),
        (
            k.launch_attention_splitgqa_rows_ma(256, 24, 4, 64, 3, 9, 5).unwrap(),
            k.launch_attention_splitgqa_rows_ma_devpos(256, 24, 4, 64, 3, 5).unwrap(),
            11,
        ),
        (
            k.launch_attention_splitgqa_rows_qg(256, 24, 4, 64, 3, 9, 5).unwrap(),
            k.launch_attention_splitgqa_rows_qg_devpos(256, 24, 4, 64, 3, 5).unwrap(),
            11,
        ),
        (
            k.launch_attention_splitgqa_rows_qgma(256, 24, 4, 64, 3, 9, 5).unwrap(),
            k.launch_attention_splitgqa_rows_qgma_devpos(256, 24, 4, 64, 3, 5).unwrap(),
            11,
        ),
    ];
    for (live, devpos, slot) in pairs {
        assert_eq!(live.launches.len(), devpos.launches.len());
        assert_ne!(live.launches[0].kernel, devpos.launches[0].kernel);
        assert_eq!(live.launches[0].config, devpos.launches[0].config);
        let mut args = live.launches[0].args.clone();
        args[slot] = buf(Buffer::PosDev);
        assert_eq!(args, devpos.launches[0].args);
        assert_eq!(live.launches[1..], devpos.launches[1..]);
    }
}

#[test]
fn one_row_helpers() {
    let k = kernels();
    let split = k.launch_split_qg(256, 24);
    assert_eq!(split.launches[0].config, cfg((24, 1, 1), 256, 0));
    assert_eq!(
        split.launches[0].args,
        vec![buf(Buffer::Qg), buf(Buffer::Q), buf(Buffer::Gate), Arg::I32(256), Arg::I32(24)]
    );
    let norm = k.launch_rmsnorm_batched(24, 256);
    assert_eq!(norm.launches[0].config, cfg((24, 1, 1), 256, 1024));
    assert_eq!(
        norm.launches[0].args,
        vec![
            buf(Buffer::Input),
            buf(Buffer::Gamma),
            buf(Buffer::Output),
            Arg::Recip(256),
            Arg::Real(Real::Eps),
            Arg::I32(256),
        ]
    );
    let append = k.launch_kv_cache_append(1000, 3);
    assert_eq!(append.launches[0].config, cfg((4, 1, 1), 256, 0));
    let gate = k.launch_output_gate(6144);
    assert_eq!(gate.launches[0].config, cfg((24, 1, 1), 256, 0));
    assert_eq!(
        gate.launches[0].args,
        vec![buf(Buffer::AttnOut), buf(Buffer::Gate), Arg::I32(6144)]
    );
    let none = k.launch_output_gate(0);
    assert_eq!(none.launches[0].config.grid_dim, (1, 1, 1));
}

#[test]
fn decode_has_a_block_per_head() {
    let plan = kernels().launch_attention_decode(128, 16, 4, 33);
    assert_eq!(plan.launches[0].config, cfg((16, 1, 1), 128, 512));
    assert_eq!(
        plan.launches[0].args,
        vec![
            buf(Buffer::Query),
            buf(Buffer::KeyCache),
            buf(Buffer::ValueCache),
            buf(Buffer::AttnOut),
            Arg::InvSqrt(128),
            Arg::I32(128),
            Arg::I32(16),
            Arg::I32(4),
            Arg::I32(33),
        ]
    );
}

#[test]
fn split_rounds_chunks_up_and_keeps_one() {
    let k = kernels();
    for (positions, chunks) in vec![(0, 1), (1, 1), (64, 1), (65, 2), (128, 2), (129, 3)] {
        let plan = k.launch_attention_decode_split(256, 24, 4, 64, positions);
        assert_eq!(plan.launches.len(), 2);
        assert_eq!(plan.launches[0].kernel, AttentionKernel::Split);
        assert_eq!(plan.launches[0].config, cfg((24, chunks, 1), 256, 1024));
        assert_eq!(plan.launches[1].kernel, AttentionKernel::SplitCombine);
        assert_eq!(plan.launches[1].config, cfg((24, 1, 1), 256, 0));
        assert_eq!(
            plan.launches[1].args,
            vec![
                buf(Buffer::PartM),
                buf(Buffer::PartL),
                buf(Buffer::PartOut),
                buf(Buffer::AttnOut),
                Arg::I32(256),
                Arg::I32(chunks as i32),
            ]
        );
    }
}

#[test]
fn shared_heads_split_by_kv_head() {
    let plan = kernels().launch_attention_decode_split_gqa(256, 24, 4, 64, 130).unwrap();
    assert_eq!(plan.launches[0].kernel, AttentionKernel::Splitgqa);
    assert_eq!(plan.launches[0].config, cfg((4, 3, 1), 256, (6 * 256 + 256 * 33 + 6 * 32 + 6) * 4));
    let largest = kernels().launch_attention_decode_split_gqa(256, 8, 1, 32, 1).unwrap();
    assert_eq!(largest.launches[0].config.shared_mem_bytes, 43040);
    assert_eq!(
        refused(kernels().launch_attention_decode_split_gqa(256, 9, 4, 64, 1)),
        "splitgqa: n_head (9) not divisible by n_kv_head (4)"
    );
    assert_eq!(
        refused(kernels().launch_attention_decode_split_gqa_devpos(300, 24, 4, 64, 1)),
        "splitgqa: head_dim 300 outside [1, 256] (block budget)"
    );
}

#[test]
fn rows_helpers_multiply_by_the_rows() {
    let k = kernels();
    assert_eq!(k.launch_rope_rows(64, 256, 24, 4, 0, 16).launches[0].config, cfg((48, 1, 1), 256, 0));
    assert_eq!(k.launch_kv_append_rows(1024, 0, 3).launches[0].config, cfg((12, 1, 1), 256, 0));
    let split = k.launch_split_qg_rows(256, 24, 3);
    assert_eq!(split.launches[0].config, cfg((72, 1, 1), 256, 0));
    assert_eq!(
        split.launches[0].args,
        vec![
            buf(Buffer::Qg),
            buf(Buffer::Q),
            buf(Buffer::Gate),
            Arg::I32(256),
            Arg::I32(24),
            Arg::I32(3),
        ]
    );
    assert_eq!(
        k.launch_rope_rows(64, 256, 24, 4, 5, 1).launches[0].config,
        k.launch_rope(64, 256, 24, 4, 5).launches[0].config
    );
}

#[test]
fn rows_take_four_per_block() {
    let plan = kernels().launch_attention_splitgqa_rows(256, 24, 4, 64, 3, 100, 9).unwrap();
    assert_eq!(plan.launches.len(), 2);
    assert_eq!(plan.launches[0].config, cfg((4, 3, 3), 256, (256 * 33 + 4 * 6 * 32 + 4 * 6) * 4));
    assert_eq!(
        plan.launches[0].args,
        vec![
            buf(Buffer::Query),
            buf(Buffer::KeyCache),
            buf(Buffer::ValueCache),
            buf(Buffer::PartM),
            buf(Buffer::PartL),
            buf(Buffer::PartOut),
            Arg::InvSqrt(256),
            Arg::I32(256),
            Arg::I32(24),
            Arg::I32(4),
            Arg::I32(64),
            Arg::I32(100),
            Arg::I32(9),
            Arg::I32(1),
        ]
    );
    assert_eq!(plan.launches[1].kernel, AttentionKernel::SplitCombineRows);
    assert_eq!(plan.launches[1].config, cfg((9 * 24, 1, 1), 256, 0));
    assert_eq!(
        plan.launches[1].args,
        vec![
            buf(Buffer::PartM),
            buf(Buffer::PartL),
            buf(Buffer::PartOut),
            buf(Buffer::AttnOut),
            Arg::I32(256),
            Arg::I32(24),
            Arg::I32(3),
            Arg::I32(9),
        ]
    );
    let small = kernels().launch_attention_splitgqa_rows(64, 8, 4, 32, 1, 0, 1).unwrap();
    assert_eq!(small.launches[0].args[13], Arg::I32(0));
}

#[test]
fn query_groups_take_sixteen_per_block() {
    let k = kernels();
    for (p, z) in vec![(1, 1), (16, 1), (17, 2), (64, 4)] {
        let plan = k.launch_attention_splitgqa_rows_qg(256, 24, 4, 64, 3, 100, p).unwrap();
        assert_eq!(plan.launches[0].kernel, AttentionKernel::SplitgqaRowsQg);
        assert_eq!(
            plan.launches[0].config,
            cfg((4, 3, z), 1024, (256 * 33 + 16 * 6 * 32 + 16 * 6) * 4)
        );
    }
    let largest = k.launch_attention_splitgqa_rows_qgma(256, 32, 4, 64, 3, 100, 8).unwrap();
    assert_eq!(largest.launches[0].config.shared_mem_bytes as i32, QG_SMEM_BYTES);
    assert_eq!(SPLITGQA_QG_ROWS_MAX_P, 64);
}

#[test]
fn row_kernels_refuse_in_order() {
    let k = kernels();
    assert_eq!(
        refused(k.launch_attention_splitgqa_rows(256, 24, 4, 65, 1, 0, 1)),
        "splitgqa: chunk_len 65 not a multiple of the 32-position tile"
    );
    assert_eq!(
        refused(k.launch_attention_splitgqa_rows_ma(128, 24, 4, 64, 1, 0, 1)),
        "splitgqa rows ma: head_dim must be 256 (got 128)"
    );
    assert_eq!(
        refused(k.launch_attention_splitgqa_rows_ma_devpos(128, 24, 4, 64, 1, 1)),
        "splitgqa rows ma: head_dim must be 256 (got 128)"
    );
    assert_eq!(
        refused(k.launch_attention_splitgqa_rows_qg(128, 24, 4, 64, 1, 0, 0)),
        "splitgqa rows qg: head_dim must be 256 (got 128)"
    );
    assert_eq!(
        refused(k.launch_attention_splitgqa_rows_qg(256, 24, 4, 64, 1, 0, 0)),
        "splitgqa rows qg: p must be in 1..=64 (got 0)"
    );
    assert_eq!(
        refused(k.launch_attention_splitgqa_rows_qg_devpos(256, 24, 4, 64, 1, 65)),
        "splitgqa rows qg devpos: p must be in 1..=64 (got 65)"
    );
    assert_eq!(
        refused(k.launch_attention_splitgqa_rows_qgma(255, 24, 4, 64, 1, 0, 1)),
        "splitgqa rows qgma: head_dim must be 256 (got 255)"
    );
    assert_eq!(
        refused(k.launch_attention_splitgqa_rows_qgma_devpos(256, 24, 4, 64, 1, 100)),
        "splitgqa rows qgma devpos: p must be in 1..=16 (got 100)"
    );
}

#[test]
fn more_accumulators_take_the_rows_of_one_block() {
    let k = kernels();
    let most = k.launch_attention_splitgqa_rows_qgma(256, 24, 4, 512, 1, 0, 16).unwrap();
    assert_eq!(most.launches[0].config.grid_dim, (4, 1, 1));
    assert!(k.launch_attention_splitgqa_rows_qgma_devpos(256, 24, 4, 512, 1, 16).is_ok());
    assert_eq!(
        refused(k.launch_attention_splitgqa_rows_qgma(256, 24, 4, 512, 1, 0, 17)),
        "splitgqa rows qgma: p must be in 1..=16 (got 17)"
    );
    assert_eq!(
        refused(k.launch_attention_splitgqa_rows_qgma_devpos(256, 24, 4, 512, 1, 17)),
        "splitgqa rows qgma devpos: p must be in 1..=16 (got 17)"
    );
    assert_eq!(
        refused(k.launch_attention_splitgqa_rows_qgma(256, 24, 4, 512, 1, 0, 0)),
        "splitgqa rows qgma: p must be in 1..=16 (got 0)"
    );
    assert_eq!(SPLITGQA_QGMA_ROWS_MAX_P, 16);
    assert!(k.launch_attention_splitgqa_rows_qg(256, 24, 4, 512, 1, 0, 17).is_ok());
}

#[test]
fn two_passes_make_four_launches() {
    let k = kernels();
    let plan = k.launch_attention_verify2p(256, 24, 4, 64, 3, 5, 140, 16).unwrap();
    let order: Vec<AttentionKernel> = plan.launches.iter().map(|l| l.kernel).collect();
    assert_eq!(
        order,
        vec![
            AttentionKernel::Verify2pStats,
            AttentionKernel::Verify2pMerge,
            AttentionKernel::Verify2pPv,
            AttentionKernel::SplitCombineRows,
        ]
    );
    assert_eq!(plan.launches[0].config, cfg((4, 5, 1), 1024, 33792));
    assert_eq!(plan.launches[1].config, cfg((4, 1, 1), 128, 0));
    assert_eq!(plan.launches[2].config, cfg((4, 3, 1), 1024, (256 * 33 + 16 * 6 * 32) * 4));
    assert_eq!(plan.launches[3].config, cfg((384, 1, 1), 256, 0));
    assert_eq!(
        plan.launches[1].args,
        vec![
            buf(Buffer::StatM),
            buf(Buffer::StatL),
            buf(Buffer::MergedM),
            buf(Buffer::MergedL),
            Arg::I32(24),
            Arg::I32(4),
            Arg::I32(5),
            Arg::I32(16),
        ]
    );
    let devpos = k.launch_attention_verify2p_devpos(256, 24, 4, 64, 3, 5, 16).unwrap();
    assert_eq!(devpos.launches[0].args[9], buf(Buffer::PosDev));
    assert_eq!(devpos.launches[2].args[12], buf(Buffer::PosDev));
    assert_eq!(devpos.launches[1], plan.launches[1]);
    assert_eq!(devpos.launches[3], plan.launches[3]);
    let largest = k.launch_attention_verify2p(256, 8, 1, 32, 1, 1, 0, 1).unwrap();
    assert_eq!(largest.launches[2].config.shared_mem_bytes as i32, PV_SMEM_BYTES);
    assert_eq!(
        refused(k.launch_attention_verify2p(256, 24, 4, 64, 3, 5, 140, 17)),
        "verify2p: p must be in 1..=16 (got 17)"
    );
    assert_eq!(
        refused(k.launch_attention_verify2p_devpos(64, 24, 4, 64, 3, 5, 17)),
        "verify2p devpos: head_dim must be 256 (got 64)"
    );
}

#[test]
fn sizes_keep_their_low_bits() {
    let plan = kernels().launch_kv_cache_append(0x1_0000_0001, 0xffff_ffff);
    assert_eq!(plan.launches[0].config.grid_dim, (1, 1, 1));
    assert_eq!(plan.launches[0].args[4], Arg::I32(1));
    assert_eq!(plan.launches[0].args[5], Arg::I32(-1));
}

#[test]
fn sizes_without_kv_heads_are_refused() {
    let empty = "splitgqa: GQA group 0 outside [1, 8] (warp budget)";
    let k = kernels();
    assert_eq!(text(validate_splitgqa(256, 0, 0, 32).unwrap_err()), empty);
    assert_eq!(refused(k.launch_attention_decode_split_gqa(256, 0, 0, 32, 1)), empty);
    assert_eq!(refused(k.launch_attention_decode_split_gqa_devpos(256, 0, 0, 32, 1)), empty);
    assert_eq!(refused(k.launch_attention_splitgqa_rows(256, 0, 0, 32, 1, 0, 1)), empty);
    assert_eq!(refused(k.launch_attention_splitgqa_rows_ma(256, 0, 0, 32, 1, 0, 1)), empty);
    assert_eq!(refused(k.launch_attention_splitgqa_rows_qg(256, 0, 0, 32, 1, 0, 1)), empty);
    assert_eq!(refused(k.launch_attention_splitgqa_rows_qgma(256, 0, 0, 32, 1, 0, 1)), empty);
    assert_eq!(refused(k.launch_attention_verify2p(256, 0, 0, 32, 1, 1, 0, 1)), empty);
}

#[test]
fn tile_layout_is_resolved_once() {
    let mut choice = Kf4Choice::new();
    assert_eq!(choice.resolve(Some("0")), 0);
    for later in vec![None, Some("1"), Some(""), Some("0")] {
        assert_eq!(choice.resolve(later), 0);
        assert_eq!(choice.resolved, Some(0));
    }
    let mut rows = Kf4Choice::new();
    assert_eq!(rows.resolve(Some("off")), 1);
    assert_eq!(rows.resolve(Some("0")), 1);
}

#[test]
fn tile_layout_is_consulted_where_a_tile_of_rows_fits() {
    let mut choice = Kf4Choice::new();
    let k = kernels().with_kf4(&mut choice, Some("0"), 127);
    assert_eq!(choice, Kf4Choice::new());
    let k = k.with_kf4(&mut choice, Some("0"), 128);
    assert_eq!(choice.resolved, Some(0));
    assert_eq!(k.kf4, 0);
    let plan = k.launch_attention_splitgqa_rows(256, 24, 4, 64, 1, 0, 1).unwrap();
    assert_eq!(plan.launches[0].args[13], Arg::I32(0));
    assert_eq!(kernels().with_kf4(&mut choice, None, 256).kf4, 0);
}

#[test]
fn staged_keys_stop_at_the_live_length() {
    match &AttentionKernels::new(None).1.steps[0] {
        BuildStep::Compile { source, .. } => {
            assert_eq!(source.matches("KV_RD(&key_cache[(tile_base + ").count(), 7);
            assert_eq!(source.matches("? KV_RD(&key_cache[(tile_base + ").count(), 7);
        }
        other => panic!("not a compile step: {:?}", other),
    }
}
