use riir_infer_gpu::elementwise::{
    argmax_first_index, ElementwiseKernel, ElementwiseKernels, ScratchAlloc,
};
use riir_infer_gpu::error::CudarcKernelError;
use riir_infer_gpu::launch::{Arg, Buffer, LaunchConfig, Real};
use riir_infer_gpu::module::BuildStep;

fn kernels() -> ElementwiseKernels {
    ElementwiseKernels::new().0
}

fn flat(grid: u32, block: u32, smem: u32) -> LaunchConfig {
    LaunchConfig { grid_dim: (grid, 1, 1), block_dim: (block, 1, 1), shared_mem_bytes: smem }
}

fn buf(b: Buffer) -> Arg {
    Arg::Buf(b)
}

fn with_scratch() -> ElementwiseKernels {
    let mut k = kernels();
    let mut init = k.init_rmsnorm_mb_scratch(512);
    while init.next().is_some() {
        assert!(k.report_rmsnorm_mb_scratch(&mut init, Ok(())).is_ok());
    }
    k
}

fn declares(source: &str, entry: &str) -> bool {
    source.contains(&format!(" {}(", entry)) || source.contains(&format!("\n{}(", entry))
}

#[test]
fn elementwise_build_looks_every_kernel_up() {
    let (_, build) = ElementwiseKernels::new();
    assert_eq!(build.steps.len(), 14);
    let source = match &build.steps[0] {
        BuildStep::Compile { source, .. } => source.clone(),
        other => panic!("not a compile step: {:?}", other),
    };
    assert!(!source.contains('\0'));
    for step in &build.steps[2..] {
        match step {
            BuildStep::LoadFunction { entry, .. } => {
                assert!(declares(&source, entry), "{}", entry)
            }
            other => panic!("not a lookup: {:?}", other),
        }
    }
}

#[test]
fn norm_of_one_row() {
    let plan = kernels().launch_rmsnorm(5120);
    assert_eq!(plan.launches[0].config, flat(1, 256, 1024));
    assert_eq!(
        plan.launches[0].args,
        vec![
            buf(Buffer::Input),
            buf(Buffer::Gamma),
            buf(Buffer::Output),
            Arg::Recip(5120),
            Arg::Real(Real::Eps),
            Arg::I32(5120),
        ]
    );
}

#[test]
fn sums_and_swiglu_have_no_block_without_elements() {
    let k = kernels();
    assert_eq!(k.launch_residual_add(257).launches[0].config, flat(2, 256, 0));
    assert_eq!(k.launch_residual_add(0).launches[0].config, flat(0, 256, 0));
    assert_eq!(k.launch_swiglu(512).launches[0].config, flat(2, 256, 0));
    assert_eq!(k.launch_swiglu(0).launches[0].config, flat(0, 256, 0));
    assert_eq!(
        k.launch_residual_add(257).launches[0].args,
        vec![buf(Buffer::A), buf(Buffer::B), buf(Buffer::Output), Arg::I32(257)]
    );
    assert_eq!(
        k.launch_swiglu(512).launches[0].args,
        vec![buf(Buffer::Gate), buf(Buffer::Up), buf(Buffer::Output), Arg::I32(512)]
    );
}

#[test]
fn quantisations_share_a_grid() {
    let k = kernels();
    let plain = k.launch_quantize(100);
    assert_eq!(plain.launches[0].config, flat(7, 16, 0));
    assert_eq!(
        plain.launches[0].args,
        vec![
            buf(Buffer::X),
            buf(Buffer::OutI8),
            buf(Buffer::Ascale),
            Arg::I32(100),
            Arg::I32(16),
            Arg::I32(7),
        ]
    );
    let fused = vec![
        (k.launch_swiglu_quantize(100), ElementwiseKernel::SwigluQuantize, Buffer::Gate, Buffer::Up),
        (k.launch_gate_silu_quantize(100), ElementwiseKernel::GateSiluQuantize, Buffer::X, Buffer::Gate),
        (
            k.launch_gate_sigmoid_quantize(100),
            ElementwiseKernel::GateSigmoidQuantize,
            Buffer::X,
            Buffer::Gate,
        ),
    ];
    for (plan, kernel, a, b) in fused {
        assert_eq!(plan.launches[0].kernel, kernel);
        assert_eq!(plan.launches[0].config, plain.launches[0].config);
        assert_eq!(plan.launches[0].args[..2], [buf(a), buf(b)]);
        assert_eq!(plan.launches[0].args[2..], plain.launches[0].args[1..]);
    }
}

#[test]
fn per_head_norm_gate_and_quantisation() {
    let plan = kernels().launch_rmsnorm_gate_silu_quantize(48, 128);
    assert_eq!(plan.launches[0].config, flat(48, 256, 1024));
    assert_eq!(
        plan.launches[0].args,
        vec![
            buf(Buffer::X),
            buf(Buffer::Gate),
            buf(Buffer::Gamma),
            buf(Buffer::OutI8),
            buf(Buffer::Ascale),
            Arg::Recip(128),
            Arg::Real(Real::Eps),
            Arg::I32(128),
            Arg::I32(16),
        ]
    );
}

#[test]
fn without_scratch_a_norm_takes_one_block() {
    let k = kernels();
    for (dim, width) in vec![(0, 1), (16, 1), (17, 2), (33, 4), (5120, 512), (8192, 512), (8193, 1024), (100000, 1024)] {
        let plan = k.launch_rmsnorm_quantize(dim);
        assert_eq!(plan.launches[0].kernel, ElementwiseKernel::RmsnormQuantize);
        assert_eq!(plan.launches[0].config, flat(1, width, width * 4));
        assert_eq!(plan.launches[0].args[9], Arg::I32(width as i32));
    }
}

#[test]
fn with_scratch_a_norm_takes_several_blocks_up_to_8192() {
    let k = with_scratch();
    assert!(k.mb_scratch);
    for (dim, grid, width) in vec![(16, 1, 1), (512, 1, 32), (513, 2, 64), (5120, 16, 512), (8192, 16, 512)] {
        let plan = k.launch_rmsnorm_quantize(dim);
        assert_eq!(plan.launches[0].kernel, ElementwiseKernel::RmsnormQuantizeMultiblock);
        assert_eq!(plan.launches[0].config, flat(grid, 32, 0));
        assert_eq!(
            plan.launches[0].args[4..6],
            [buf(Buffer::Partials), buf(Buffer::Arrived)]
        );
        assert_eq!(plan.launches[0].args[11], Arg::I32(width));
    }
    let over = k.launch_rmsnorm_quantize(8193);
    assert_eq!(over.launches[0].kernel, ElementwiseKernel::RmsnormQuantize);
}

#[test]
fn norm_as_a_second_output_stays_in_one_block() {
    let plan = with_scratch().launch_rmsnorm_quantize_with_norm_x(5120);
    assert_eq!(plan.launches[0].kernel, ElementwiseKernel::RmsnormQuantizeWithNormX);
    assert_eq!(plan.launches[0].config, flat(1, 512, 2048));
    assert_eq!(
        plan.launches[0].args,
        vec![
            buf(Buffer::Input),
            buf(Buffer::Gamma),
            buf(Buffer::OutI8),
            buf(Buffer::Ascale),
            buf(Buffer::NormX),
            Arg::Recip(5120),
            Arg::Real(Real::Eps),
            Arg::I32(5120),
            Arg::I32(16),
            Arg::I32(320),
            Arg::I32(512),
        ]
    );
}

#[test]
fn scratch_is_made_once_and_whole() {
    let mut k = kernels();
    let mut init = k.init_rmsnorm_mb_scratch(512);
    assert_eq!(init.next(), Some(ScratchAlloc::Partials(512)));
    assert!(k.report_rmsnorm_mb_scratch(&mut init, Ok(())).is_ok());
    assert!(!k.mb_scratch);
    assert_eq!(init.next(), Some(ScratchAlloc::Arrived(2)));
    assert_eq!(
        k.report_rmsnorm_mb_scratch(&mut init, Err("out of memory".to_string())),
        Err(CudarcKernelError::Launch("out of memory".to_string()))
    );
    assert!(!k.mb_scratch);
    assert_eq!(init.next(), None);
    let made = with_scratch();
    assert_eq!(made.init_rmsnorm_mb_scratch(1024).next(), None);
}

#[test]
fn argmax_has_at_most_4096_blocks() {
    let k = kernels();
    assert_eq!(k.launch_argmax_first(1).launches[0].config, flat(1, 256, 2048));
    assert_eq!(k.launch_argmax_first(248320).launches[0].config, flat(970, 256, 2048));
    assert_eq!(k.launch_argmax_first(1048576).launches[0].config, flat(4096, 256, 2048));
    assert_eq!(k.launch_argmax_first(1048577).launches[0].config, flat(4096, 256, 2048));
    assert_eq!(
        k.launch_argmax_first(1000).launches[0].args,
        vec![buf(Buffer::Values), Arg::I32(1000), buf(Buffer::Result)]
    );
}

#[test]
fn argmax_folds_to_the_first_index() {
    let fold = |key: u64, index: u32| (key << 32) | u64::from(!index);
    assert_eq!(argmax_first_index(fold(7, 0)), 0);
    assert_eq!(argmax_first_index(fold(7, 12345)), 12345);
    let candidates = vec![fold(3, 9), fold(8, 5), fold(8, 2), fold(1, 0)];
    assert_eq!(argmax_first_index(*candidates.iter().max().unwrap()), 2);
    assert_eq!(argmax_first_index(0), u32::MAX);
}

#[test]
fn threads_stride_over_the_scales() {
    let k = kernels();
    assert_eq!(k.launch_rmsnorm_quantize(16384).launches[0].config.block_dim.0, 1024);
    assert_eq!(k.launch_rmsnorm_quantize(16384).launches[0].args[8], Arg::I32(1024));
    assert_eq!(k.launch_rmsnorm_quantize_with_norm_x(16384).launches[0].config.block_dim.0, 1024);
    let over = k.launch_rmsnorm_quantize(16385);
    assert_eq!(over.launches[0].config.block_dim.0, 1024);
    assert_eq!(over.launches[0].args[8], Arg::I32(1025));
    match &ElementwiseKernels::new().1.steps[0] {
        BuildStep::Compile { source, .. } => assert_eq!(
            source.matches("for (int b = tid; b < ablocks; b += block_size)").count(),
            2
        ),
        other => panic!("not a compile step: {:?}", other),
    }
}
