use riir_infer_gpu::attention::AttentionKernels;
use riir_infer_gpu::attention_score_mma::{
    AttentionScoreMmaKernels, ScoreMmaKernel, SCORE_MMA_SMEM_BYTES,
};
use riir_infer_gpu::error::CudarcKernelError;
use riir_infer_gpu::launch::{Arg, Buffer, LaunchPlan};
use riir_infer_gpu::module::BuildStep;

fn refused(r: Result<LaunchPlan<ScoreMmaKernel>, CudarcKernelError>) -> String {
    match r {
        Err(CudarcKernelError::InvalidArg(t)) => t,
        other => panic!("not refused: {:?}", other),
    }
}

fn declares(source: &str, entry: &str) -> bool {
    source.contains(&format!(" {}(", entry)) || source.contains(&format!("\n{}(", entry))
}

#[test]
fn score_build_opts_every_score_kernel_in() {
    let (_, build) = AttentionScoreMmaKernels::new(false);
    assert_eq!(build.steps.len(), 11);
    let source = match &build.steps[0] {
        BuildStep::Compile { source, .. } => source.clone(),
        other => panic!("not a compile step: {:?}", other),
    };
    assert!(!source.contains('\0'));
    for i in 2..7 {
        match &build.steps[i] {
            BuildStep::LoadFunction { entry, .. } => {
                assert!(declares(&source, entry), "{}", entry)
            }
            other => panic!("not a lookup: {:?}", other),
        }
    }
    for i in 7..11 {
        match (&build.steps[i], &build.steps[i - 5]) {
            (
                BuildStep::OptInSharedMemory { kernel, bytes, label },
                BuildStep::LoadFunction { kernel: loaded, .. },
            ) => {
                assert_eq!(kernel, loaded);
                assert_eq!(*bytes, 54784);
                assert_eq!(*label, "score mma smem opt-in");
            }
            other => panic!("not an opt-in: {:?}", other),
        }
    }
    let (_, half) = AttentionScoreMmaKernels::new(true);
    match &half.steps[0] {
        BuildStep::Compile { source: s, .. } => {
            assert_eq!(*s, format!("#define KV_F16 1\n{}", source))
        }
        other => panic!("not a compile step: {:?}", other),
    }
}

#[test]
fn scores_launch_as_query_groups_do() {
    let k = AttentionScoreMmaKernels::new(false).0;
    let qg = AttentionKernels::new(None).0;
    let a = k.launch_splitgqa_rows_qg_mma(false, 256, 24, 4, 64, 3, 100, 20).unwrap();
    let b = qg.launch_attention_splitgqa_rows_qg(256, 24, 4, 64, 3, 100, 20).unwrap();
    assert_eq!(a.launches[0].kernel, ScoreMmaKernel::ScoreMma);
    assert_eq!(a.launches[0].config, b.launches[0].config);
    assert_eq!(a.launches[0].args[..], b.launches[0].args[..13]);
    assert_eq!(a.launches[1].kernel, ScoreMmaKernel::Combine);
    assert_eq!(a.launches[1].config, b.launches[1].config);
    assert_eq!(a.launches[1].args, b.launches[1].args);
}

#[test]
fn larger_tiling_adds_reduction_tables() {
    let k = AttentionScoreMmaKernels::new(false).0;
    let a = k.launch_splitgqa_rows_qg_mma(true, 256, 24, 4, 64, 3, 100, 20).unwrap();
    assert_eq!(a.launches[0].kernel, ScoreMmaKernel::ScoreMma24);
    assert_eq!(
        a.launches[0].config.shared_mem_bytes,
        (256 * 33 + 16 * 6 * 32 + 16 * 6 + 2 * (6 * 2 * 8 * 4)) * 4
    );
    let largest = k.launch_splitgqa_rows_qg_mma(true, 256, 8, 1, 32, 1, 0, 1).unwrap();
    assert_eq!(largest.launches[0].config.shared_mem_bytes as i32, SCORE_MMA_SMEM_BYTES);
    let devpos = k.launch_splitgqa_rows_qg_mma_devpos(true, 256, 24, 4, 64, 3, 20).unwrap();
    assert_eq!(devpos.launches[0].kernel, ScoreMmaKernel::ScoreMma24Devpos);
    assert_eq!(devpos.launches[0].config, a.launches[0].config);
    assert_eq!(devpos.launches[0].args[11], Arg::Buf(Buffer::PosDev));
    let small = k.launch_splitgqa_rows_qg_mma_devpos(false, 256, 24, 4, 64, 3, 20).unwrap();
    assert_eq!(small.launches[0].kernel, ScoreMmaKernel::ScoreMmaDevpos);
}

#[test]
fn score_kernels_refuse_in_order() {
    let k = AttentionScoreMmaKernels::new(false).0;
    assert_eq!(
        refused(k.launch_splitgqa_rows_qg_mma(false, 128, 25, 0, 1, 1, 0, 0)),
        "score mma: head_dim must be 256 (got 128)"
    );
    assert_eq!(
        refused(k.launch_splitgqa_rows_qg_mma(false, 256, 25, 4, 1, 1, 0, 0)),
        "score mma: GQA group 6 outside [1, 8]"
    );
    for n_head in vec![0, 24] {
        assert_eq!(
            refused(k.launch_splitgqa_rows_qg_mma(false, 256, n_head, 0, 32, 1, 0, 1)),
            "score mma: GQA group 0 outside [1, 8]"
        );
        assert_eq!(
            refused(k.launch_splitgqa_rows_qg_mma_devpos(true, 256, n_head, 0, 32, 1, 1)),
            "score mma: GQA group 0 outside [1, 8]"
        );
    }
    assert_eq!(
        refused(k.launch_splitgqa_rows_qg_mma(false, 256, 36, 4, 1, 1, 0, 0)),
        "score mma: GQA group 9 outside [1, 8]"
    );
    assert_eq!(
        refused(k.launch_splitgqa_rows_qg_mma(false, 256, 24, 4, 1, 1, 0, 65)),
        "score mma: p must be in 1..=64 (got 65)"
    );
    assert_eq!(
        refused(k.launch_splitgqa_rows_qg_mma(false, 256, 24, 4, 33, 1, 0, 64)),
        "score mma: chunk_len 33 not a multiple of the 32-position tile"
    );
    assert_eq!(
        refused(k.launch_splitgqa_rows_qg_mma_devpos(true, 256, 24, 4, 33, 1, 64)),
        "score mma devpos: chunk_len 33 not a multiple of the 32-position tile"
    );
    assert!(AttentionScoreMmaKernels::validate(256, 24, 4, 64).is_ok());
}

#[test]
fn halves_are_read_as_in_the_attention_text() {
    let text = |steps: &BuildStep<ScoreMmaKernel>| match steps {
        BuildStep::Compile { source, .. } => source.clone(),
        other => panic!("not a compile step: {:?}", other),
    };
    let mma = text(&AttentionScoreMmaKernels::new(true).1.steps[0]);
    let attention = match &AttentionKernels::new_with_kv_dtype(None, true).1.steps[0] {
        BuildStep::Compile { source, .. } => source.clone(),
        other => panic!("not a compile step: {:?}", other),
    };
    let reader = |source: &str| -> Vec<String> {
        let from = source.find("float kv_f16_to_f32(").unwrap();
        let to = from + source[from..].find("\n}\n").unwrap();
        source[from..to]
            .lines()
            .map(|l| l.trim().to_string())
            .filter(|l| !l.is_empty())
            .collect()
    };
    assert_eq!(reader(&mma), reader(&attention));
}

#[test]
fn staged_score_keys_stop_at_the_live_length() {
    match &AttentionScoreMmaKernels::new(false).1.steps[0] {
        BuildStep::Compile { source, .. } => {
            assert_eq!(source.matches("KV_RD(&key_cache[(tile_base + ").count(), 2);
            assert_eq!(source.matches("? KV_RD(&key_cache[(tile_base + ").count(), 2);
        }
        other => panic!("not a compile step: {:?}", other),
    }
}
