use riir_infer_gpu::embedding::{EmbeddingDequantKernels, EmbeddingKernel};
use riir_infer_gpu::error::CudarcKernelError;
use riir_infer_gpu::launch::{Arg, Buffer, LaunchConfig, Real};
use riir_infer_gpu::lora::{
    LoraDecodeKernels, LoraKernel, QvLoraGpuCudarc, QvLoraShape, UploadStep,
};
use riir_infer_gpu::module::BuildStep;

fn flat(grid: u32, block: u32) -> LaunchConfig {
    LaunchConfig { grid_dim: (grid, 1, 1), block_dim: (block, 1, 1), shared_mem_bytes: 0 }
}

fn buf(b: Buffer) -> Arg {
    Arg::Buf(b)
}

#[test]
fn a_row_of_the_table_has_a_thread_per_column() {
    let k = EmbeddingDequantKernels::new().0;
    let plan = k.launch_dequant_row(42, 80, 40, 5120);
    assert_eq!(plan.launches[0].kernel, EmbeddingKernel::Dequant);
    assert_eq!(plan.launches[0].config, flat(20, 256));
    assert_eq!(
        plan.launches[0].args,
        vec![
            buf(Buffer::PosBits),
            buf(Buffer::NegBits),
            buf(Buffer::GroupScale),
            buf(Buffer::Output),
            Arg::I32(42),
            Arg::I32(80),
            Arg::I32(40),
            Arg::I32(5120),
            Arg::I32(128),
        ]
    );
    let devpos = k.launch_dequant_row_devpos(80, 40, 5120);
    assert_eq!(devpos.launches[0].kernel, EmbeddingKernel::DequantDevpos);
    assert_eq!(devpos.launches[0].config, plan.launches[0].config);
    let mut args = plan.launches[0].args.clone();
    args[4] = buf(Buffer::RowIdxDev);
    assert_eq!(devpos.launches[0].args, args);
}

#[test]
fn small_modules_look_their_kernels_up() {
    let embedding = EmbeddingDequantKernels::new().1;
    assert_eq!(embedding.steps.len(), 4);
    assert_eq!(
        embedding.steps[2],
        BuildStep::LoadFunction { kernel: EmbeddingKernel::Dequant, entry: "dequant_wte_row_f32" }
    );
    assert_eq!(
        embedding.steps[3],
        BuildStep::LoadFunction {
            kernel: EmbeddingKernel::DequantDevpos,
            entry: "dequant_wte_row_f32_devpos"
        }
    );
    let lora = LoraDecodeKernels::new().1;
    assert_eq!(lora.steps.len(), 4);
    assert_eq!(
        lora.steps[2],
        BuildStep::LoadFunction { kernel: LoraKernel::DownProject, entry: "lora_down_project_f32" }
    );
    assert_eq!(
        lora.steps[3],
        BuildStep::LoadFunction { kernel: LoraKernel::UpProjectAdd, entry: "lora_up_project_add_f32" }
    );
}

#[test]
fn corrections_reach_the_query_and_value_slices() {
    let k = LoraDecodeKernels::new().0;
    let plan = k.launch_qv_apply(5120, 2048, 2048, 6144, 8);
    assert_eq!(plan.launches.len(), 4);
    assert_eq!(plan.launches[0].config, flat(1, 8));
    assert_eq!(
        plan.launches[0].args,
        vec![
            buf(Buffer::ALoraQ),
            buf(Buffer::NormX),
            buf(Buffer::AxQ),
            Arg::I32(8),
            Arg::I32(5120),
        ]
    );
    assert_eq!(plan.launches[1].args[0], buf(Buffer::ALoraV));
    assert_eq!(plan.launches[1].args[2], buf(Buffer::AxV));
    assert_eq!(plan.launches[2].config, flat(8, 256));
    assert_eq!(
        plan.launches[2].args,
        vec![
            buf(Buffer::BLoraQ),
            buf(Buffer::AxQ),
            buf(Buffer::Qkv),
            Arg::I32(2048),
            Arg::I32(8),
            Arg::I32(0),
            Arg::Real(Real::Scale),
        ]
    );
    assert_eq!(plan.launches[3].config, flat(24, 256));
    assert_eq!(
        plan.launches[3].args,
        vec![
            buf(Buffer::BLoraV),
            buf(Buffer::AxV),
            buf(Buffer::Qkv),
            Arg::I32(6144),
            Arg::I32(8),
            Arg::I32(4096),
            Arg::Real(Real::Scale),
        ]
    );
    assert_eq!(k.launch_qv_apply(5120, 1, 1, 1, 0).launches[0].config, flat(1, 1));
}

#[test]
fn adapters_make_scratch_and_upload_matrices_and_scale() {
    let shape = QvLoraShape { rank: 8, n_embd: 5120, q_dim: 2048, v_dim: 6144 };
    let (slot, mut plan) = QvLoraGpuCudarc::from_qv_lora(&shape);
    assert_eq!(slot.shape, shape);
    let mut seen = Vec::new();
    while let Some(step) = plan.next() {
        seen.push(step);
        assert!(plan.report(Ok(())).is_ok());
    }
    assert_eq!(
        seen,
        vec![
            UploadStep::Alloc(Buffer::AxQ, 8),
            UploadStep::Alloc(Buffer::AxV, 8),
            UploadStep::Copy(Buffer::ALoraQ),
            UploadStep::Copy(Buffer::BLoraQ),
            UploadStep::Copy(Buffer::ALoraV),
            UploadStep::Copy(Buffer::BLoraV),
            UploadStep::RefreshScale,
        ]
    );
    let mut update = slot.update_from(&shape).unwrap();
    assert_eq!(update.steps[..], seen[2..]);
    assert_eq!(
        update.report(Err("lost".to_string())),
        Err(CudarcKernelError::Launch("lost".to_string()))
    );
    assert_eq!(update.next(), None);
}

#[test]
fn adapters_of_other_sizes_are_refused() {
    let shape = QvLoraShape { rank: 8, n_embd: 5120, q_dim: 2048, v_dim: 6144 };
    let slot = QvLoraGpuCudarc::from_qv_lora(&shape).0;
    let other = QvLoraShape { rank: 16, v_dim: 0, ..shape };
    assert_eq!(
        slot.update_from(&other).unwrap_err(),
        CudarcKernelError::InvalidArg(
            "update_from: adapter shape mismatch (rank 16/8 n_embd 5120/5120 q_dim 2048/2048 v_dim 0/6144); re-attach instead of updating when the shape changes"
                .to_string()
        )
    );
}
