use riir_infer_gpu::attention::{AttentionKernel, AttentionKernels};
use riir_infer_gpu::error::CudarcKernelError;
use riir_infer_gpu::attention_score_mma::AttentionScoreMmaKernels;
use riir_infer_gpu::deltanet::DeltanetKernels;
use riir_infer_gpu::elementwise::ElementwiseKernels;
use riir_infer_gpu::embedding::EmbeddingDequantKernels;
use riir_infer_gpu::lora::LoraDecodeKernels;
use riir_infer_gpu::module::{BuildStep, KernelBuild};

#[test]
fn errors_name_their_kind() {
    let m = |e: CudarcKernelError| e.message();
    assert_eq!(m(CudarcKernelError::CudaInit("a".to_string())), "CUDA init failed: a");
    assert_eq!(m(CudarcKernelError::Compile("b".to_string())), "NVRTC compile failed: b");
    assert_eq!(m(CudarcKernelError::Launch("c".to_string())), "kernel launch failed: c");
    assert_eq!(m(CudarcKernelError::InvalidArg("d".to_string())), "invalid argument: d");
}

#[test]
fn a_plan_runs_in_order() {
    let k = AttentionKernels::new(None).0;
    let mut plan = k.launch_attention_decode_split(256, 24, 4, 64, 100);
    assert_eq!(plan.next().unwrap().kernel, AttentionKernel::Split);
    assert!(plan.report(Ok(())).is_ok());
    assert_eq!(plan.next().unwrap().kernel, AttentionKernel::SplitCombine);
    assert!(plan.report(Ok(())).is_ok());
    assert!(plan.next().is_none());
}

#[test]
fn a_failed_launch_ends_the_plan() {
    let k = AttentionKernels::new(None).0;
    let mut plan = k.launch_attention_decode_split(256, 24, 4, 64, 100);
    assert_eq!(
        plan.report(Err("illegal address".to_string())),
        Err(CudarcKernelError::Launch("illegal address".to_string()))
    );
    assert!(plan.next().is_none());
}

#[test]
fn a_build_reports_each_step_in_its_way() {
    let (_, mut build) = AttentionKernels::new(None);
    assert!(matches!(build.next(), Some(BuildStep::Compile { .. })));
    assert!(build.report(Ok(())).is_ok());
    assert_eq!(build.next(), Some(&BuildStep::LoadModule));
    assert_eq!(
        build.report(Err("bad image".to_string())),
        Err(CudarcKernelError::Compile("bad image".to_string()))
    );
    assert!(build.next().is_none());

    let (_, mut build) = AttentionKernels::new(None);
    while !matches!(build.next(), Some(BuildStep::OptInSharedMemory { .. })) {
        assert!(build.report(Ok(())).is_ok());
    }
    assert_eq!(build.steps.len(), 16);
    assert_eq!(
        build.report(Err("not supported".to_string())),
        Err(CudarcKernelError::Launch("qg rows smem opt-in: not supported".to_string()))
    );
    assert!(build.next().is_none());
}

#[test]
fn every_build_starts_with_a_text_to_compile() {
    assert!(AttentionKernels::new_with_kv_dtype(None, false).1.compilable());
    assert!(AttentionKernels::new_with_kv_dtype(None, true).1.compilable());
    assert!(AttentionScoreMmaKernels::new(false).1.compilable());
    assert!(DeltanetKernels::new().1.compilable());
    assert!(ElementwiseKernels::new().1.compilable());
    assert!(EmbeddingDequantKernels::new().1.compilable());
    let mut build = LoraDecodeKernels::new().1;
    assert!(build.compilable());
    assert!(build.report(Ok(())).is_ok());
    assert!(!build.compilable());
    let nul: KernelBuild<AttentionKernel> = KernelBuild {
        steps: vec![BuildStep::Compile { source: "int x;\0".to_string(), arch: "sm_89" }],
    };
    assert!(!nul.compilable());
}

#[test]
fn a_failed_compilation_ends_the_build() {
    let mut build = LoraDecodeKernels::new().1;
    match build.report_compiled(Err("line 1: error".to_string())) {
        Err(CudarcKernelError::Compile(t)) => assert_eq!(t, "line 1: error"),
        _ => panic!("not a compile error"),
    }
    assert!(build.next().is_none());
}

#[test]
fn a_compiled_program_is_handed_on() {
    let mut build = LoraDecodeKernels::new().1;
    let ptx = cudarc::nvrtc::Ptx::from_src(".version 8.0");
    match build.report_compiled(Ok(ptx)) {
        Ok(p) => assert_eq!(p.to_src(), ".version 8.0"),
        Err(e) => panic!("refused: {:?}", e),
    }
    assert_eq!(build.next(), Some(&BuildStep::LoadModule));
}
