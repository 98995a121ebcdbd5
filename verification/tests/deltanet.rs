use riir_infer_gpu::deltanet::dispatch::{
    asks_for_legacy, expand_l2_rows_v2_enabled, expand_l2_rows_v2_launches, is_legacy_word,
    report_expand_l2_rows, set_expand_l2_rows_v2, ExpandL2RowsDispatch,
};
use riir_infer_gpu::deltanet::{DeltanetKernel, DeltanetKernels, HalfStateFmt};
use riir_infer_gpu::error::CudarcKernelError;
use riir_infer_gpu::launch::{Arg, Buffer, LaunchConfig};
use riir_infer_gpu::module::BuildStep;

fn kernels() -> DeltanetKernels {
    DeltanetKernels::new().0
}

fn cfg(grid: (u32, u32, u32), block: u32, smem: u32) -> LaunchConfig {
    LaunchConfig { grid_dim: grid, block_dim: (block, 1, 1), shared_mem_bytes: smem }
}

fn bufs(bs: Vec<Buffer>, ns: Vec<i32>) -> Vec<Arg> {
    let mut r: Vec<Arg> = bs.into_iter().map(Arg::Buf).collect();
    r.extend(ns.into_iter().map(Arg::I32));
    r
}

fn recurrence(ns: Vec<i32>) -> Vec<Arg> {
    bufs(
        vec![Buffer::Qkv, Buffer::Beta, Buffer::Decay, Buffer::State, Buffer::Output],
        ns,
    )
}

fn declares(source: &str, entry: &str) -> bool {
    source.contains(&format!(" {}(", entry)) || source.contains(&format!("\n{}(", entry))
}

#[test]
fn delta_build_looks_every_kernel_up() {
    let (_, build) = DeltanetKernels::new();
    assert_eq!(build.steps.len(), 19);
    let source = match &build.steps[0] {
        BuildStep::Compile { source, arch } => {
            assert_eq!(*arch, "sm_89");
            source.clone()
        }
        other => panic!("not a compile step: {:?}", other),
    };
    assert!(!source.contains('\0'));
    for step in &build.steps[2..] {
        match step {
            BuildStep::LoadFunction { entry, .. } => {
                assert!(declares(&source, entry), "{}", entry)
            }
            other => panic!("not a lookup: {:?}", other),
        }
    }
}

#[test]
fn conv_and_gates() {
    let k = kernels();
    let conv = k.launch_conv1d(10240, 4);
    assert_eq!(conv.launches[0].config, cfg((40, 1, 1), 256, 0));
    assert_eq!(
        conv.launches[0].args,
        bufs(vec![Buffer::Input, Buffer::Weight, Buffer::ConvState], vec![10240, 4])
    );
    let gates = k.launch_beta_decay(48);
    assert_eq!(gates.launches[0].config, cfg((1, 1, 1), 48, 0));
    assert_eq!(
        gates.launches[0].args,
        bufs(
            vec![
                Buffer::ARaw,
                Buffer::BRaw,
                Buffer::ALog,
                Buffer::DtBias,
                Buffer::Beta,
                Buffer::Decay,
            ],
            vec![48]
        )
    );
    assert_eq!(k.launch_beta_decay(0).launches[0].config, cfg((1, 1, 1), 1, 0));
    let rows = k.launch_beta_decay_rows(48, 7);
    assert_eq!(rows.launches[0].kernel, DeltanetKernel::BetaDecayRows);
    assert_eq!(rows.launches[0].config, gates.launches[0].config);
    assert_eq!(rows.launches[0].args[7], Arg::I32(7));
    let z = k.launch_z_gating(6144);
    assert_eq!(z.launches[0].config, cfg((24, 1, 1), 256, 0));
    assert_eq!(z.launches[0].args, bufs(vec![Buffer::Output, Buffer::Z], vec![6144]));
}

#[test]
fn conv_rows_take_windows_of_four_or_eight() {
    let k = kernels();
    for size in vec![4, 8] {
        let plan = k.launch_conv1d_rows(10240, size, 16).unwrap();
        assert_eq!(plan.launches[0].kernel, DeltanetKernel::Conv1dRows);
        assert_eq!(plan.launches[0].config, cfg((40, 1, 1), 256, 0));
        assert_eq!(
            plan.launches[0].args,
            bufs(
                vec![Buffer::Input, Buffer::Weight, Buffer::ConvState],
                vec![10240, size as i32, 16]
            )
        );
    }
    assert_eq!(
        k.launch_conv1d_rows(10240, 5, 16).unwrap_err(),
        CudarcKernelError::InvalidArg("conv1d_rows: kernel_size 5 not in {4, 8}".to_string())
    );
}

#[test]
fn expansion_has_a_thread_per_element() {
    let plan = kernels().launch_expand_and_l2_normalize(16, 48, 128);
    assert_eq!(plan.launches[0].config, cfg((72, 1, 1), 256, 0));
    assert_eq!(
        plan.launches[0].args,
        bufs(vec![Buffer::Compact, Buffer::Expanded], vec![16, 48, 128])
    );
}

#[test]
fn recurrences_share_a_grid() {
    let k = kernels();
    let serial = k.launch_recurrence(128, 48);
    assert_eq!(serial.launches[0].config, cfg((48, 1, 1), 128, 512));
    assert_eq!(serial.launches[0].args, recurrence(vec![128, 48]));
    let parallel = k.launch_recurrence_parallel(128, 48);
    assert_eq!(parallel.launches[0].config, cfg((48, 128, 1), 32, 0));
    assert_eq!(parallel.launches[0].args, recurrence(vec![128, 48]));
    let dims = vec![
        (64, DeltanetKernel::RecurrenceFusedHd64),
        (128, DeltanetKernel::RecurrenceFusedHd128),
        (256, DeltanetKernel::RecurrenceFusedHd256),
    ];
    for (hd, kernel) in dims {
        let fused = k.launch_recurrence_fused(hd, 48).unwrap();
        assert_eq!(fused.launches[0].kernel, kernel);
        assert_eq!(
            fused.launches[0].config,
            k.launch_recurrence_parallel(hd, 48).launches[0].config
        );
        assert_eq!(fused.launches[0].args, recurrence(vec![48]));
    }
    let rows = k.launch_recurrence_fused_rows_hd128(48, 5);
    assert_eq!(rows.launches[0].config, parallel.launches[0].config);
    assert_eq!(rows.launches[0].args, recurrence(vec![48, 5]));
}

#[test]
fn fused_recurrence_refuses_other_head_dims() {
    assert_eq!(
        kernels().launch_recurrence_fused(96, 48).unwrap_err(),
        CudarcKernelError::InvalidArg(
            "recurrence_f32_fused is specialized for head_dim {64,128,256}; got 96 (use recurrence_parallel)"
                .to_string()
        )
    );
}

#[test]
fn half_states_pick_their_kernel() {
    let k = kernels();
    let f16 = k.launch_recurrence_fused_half_hd128(48, HalfStateFmt::F16);
    let bf16 = k.launch_recurrence_fused_half_hd128(48, HalfStateFmt::Bf16);
    assert_eq!(f16.launches[0].kernel, DeltanetKernel::RecurrenceHalfHd128F16);
    assert_eq!(bf16.launches[0].kernel, DeltanetKernel::RecurrenceHalfHd128Bf16);
    assert_eq!(f16.launches[0].config, cfg((48, 128, 1), 32, 0));
    assert_eq!(f16.launches[0].args, recurrence(vec![48]));
    assert_eq!(f16.launches[0].args, bf16.launches[0].args);
}

#[test]
fn backward_pass_has_two_floats_per_thread() {
    let plan = kernels().launch_bptt_recompute(32, 128, 48);
    assert_eq!(plan.launches[0].config, cfg((48, 1, 1), 128, 1024));
    assert_eq!(
        plan.launches[0].args,
        bufs(
            vec![
                Buffer::QkvSeq,
                Buffer::BetaSeq,
                Buffer::DecaySeq,
                Buffer::GradOutSeq,
                Buffer::GradQkvSeq,
                Buffer::GradBetaSeq,
                Buffer::GradDecaySeq,
                Buffer::StateDecayedSeq,
                Buffer::StateSeq,
                Buffer::KvMemSeq,
                Buffer::DeltaSeq,
                Buffer::GradS,
            ],
            vec![32, 128, 48]
        )
    );
}

#[test]
fn settings_ask_for_the_legacy_kernel_in_any_case() {
    for s in vec!["1", "on", "ON", "On", "true", "TRUE", "True"] {
        assert!(asks_for_legacy(Some(s)), "{}", s);
    }
    for s in vec!["", "0", "off", "yes", "01", " 1", "tru\u{00c9}"] {
        assert!(!asks_for_legacy(Some(s)), "{}", s);
    }
    assert!(!asks_for_legacy(None));
    assert!(is_legacy_word("true"));
    assert!(!is_legacy_word("TRUE"));
}

#[test]
fn staged_kernel_is_the_default() {
    let mut d = ExpandL2RowsDispatch::new();
    let plan = kernels().launch_expand_l2_rows(&mut d, None, 16, 48, 128, 4);
    assert_eq!(plan.launches[0].kernel, DeltanetKernel::ExpandL2RowsV2);
    assert_eq!(plan.launches[0].config, cfg((4, 3, 1), 1024, 0));
    assert_eq!(
        plan.launches[0].args,
        bufs(vec![Buffer::Compact, Buffer::Expanded], vec![16, 48, 128, 4])
    );
    assert_eq!(d.resolved, Some(true));
}

#[test]
fn setting_restores_the_legacy_kernel_and_is_read_once() {
    let k = kernels();
    let mut d = ExpandL2RowsDispatch::new();
    let plan = k.launch_expand_l2_rows(&mut d, Some("On"), 16, 48, 128, 4);
    assert_eq!(plan.launches[0].kernel, DeltanetKernel::ExpandL2Rows);
    assert_eq!(plan.launches[0].config, cfg((288, 1, 1), 256, 0));
    assert_eq!(
        plan.launches[0].args,
        bufs(vec![Buffer::Compact, Buffer::Expanded], vec![16, 48, 128, 4])
    );
    let again = k.launch_expand_l2_rows(&mut d, None, 16, 48, 128, 4);
    assert_eq!(again.launches[0].kernel, DeltanetKernel::ExpandL2Rows);
}

#[test]
fn forcing_wins_and_lifting_restores() {
    let mut d = ExpandL2RowsDispatch::new();
    set_expand_l2_rows_v2(&mut d, Some(false));
    assert!(!expand_l2_rows_v2_enabled(&mut d, None));
    set_expand_l2_rows_v2(&mut d, Some(true));
    assert!(expand_l2_rows_v2_enabled(&mut d, Some("1")));
    set_expand_l2_rows_v2(&mut d, None);
    assert!(expand_l2_rows_v2_enabled(&mut d, Some("1")));
    let mut legacy = ExpandL2RowsDispatch::new();
    set_expand_l2_rows_v2(&mut legacy, None);
    assert!(!expand_l2_rows_v2_enabled(&mut legacy, Some("1")));
}

#[test]
fn too_many_key_heads_go_to_the_legacy_kernel() {
    let k = kernels();
    let mut d = ExpandL2RowsDispatch::new();
    set_expand_l2_rows_v2(&mut d, Some(true));
    let fits = k.launch_expand_l2_rows(&mut d, None, 1024, 1024, 1, 1);
    assert_eq!(fits.launches[0].kernel, DeltanetKernel::ExpandL2RowsV2);
    let over = k.launch_expand_l2_rows(&mut d, None, 1025, 1025, 1, 1);
    assert_eq!(over.launches[0].kernel, DeltanetKernel::ExpandL2Rows);
}

#[test]
fn nothing_to_expand_launches_nothing() {
    let k = kernels();
    let mut d = ExpandL2RowsDispatch::new();
    for (nv, hd, p) in vec![(0, 128, 4), (48, 0, 4), (48, 128, 0)] {
        assert_eq!(k.launch_expand_l2_rows(&mut d, Some("1"), 16, nv, hd, p).launches.len(), 0);
    }
    assert_eq!(d, ExpandL2RowsDispatch::new());
}

#[test]
fn only_staged_launches_that_succeed_are_counted() {
    let k = kernels();
    let mut d = ExpandL2RowsDispatch::new();
    let mut staged = k.launch_expand_l2_rows(&mut d, None, 16, 48, 128, 4);
    assert!(report_expand_l2_rows(&mut d, &mut staged, Ok(())).is_ok());
    assert_eq!(staged.launches.len(), 0);
    assert_eq!(expand_l2_rows_v2_launches(&d), 1);
    let mut failing = k.launch_expand_l2_rows(&mut d, None, 16, 48, 128, 4);
    assert_eq!(
        report_expand_l2_rows(&mut d, &mut failing, Err("no device".to_string())),
        Err(CudarcKernelError::Launch("no device".to_string()))
    );
    assert_eq!(expand_l2_rows_v2_launches(&d), 1);
    set_expand_l2_rows_v2(&mut d, Some(false));
    let mut legacy = k.launch_expand_l2_rows(&mut d, None, 16, 48, 128, 4);
    assert!(report_expand_l2_rows(&mut d, &mut legacy, Ok(())).is_ok());
    assert_eq!(expand_l2_rows_v2_launches(&d), 1);
    d.launches = usize::MAX;
    set_expand_l2_rows_v2(&mut d, Some(true));
    let mut wraps = k.launch_expand_l2_rows(&mut d, None, 16, 48, 128, 4);
    assert!(report_expand_l2_rows(&mut d, &mut wraps, Ok(())).is_ok());
    assert_eq!(expand_l2_rows_v2_launches(&d), 0);
}

#[test]
fn every_forced_staged_launch_is_counted() {
    let k = kernels();
    let mut d = ExpandL2RowsDispatch::new();
    let before = expand_l2_rows_v2_launches(&d);
    let mut expected = 0;
    for (n_k, n_v, hd) in vec![(16, 48, 128), (2, 3, 16), (4, 4, 10), (1, 1, 128), (5, 7, 6)] {
        for p in vec![1, 3, 8] {
            for staged in vec![false, true, true] {
                set_expand_l2_rows_v2(&mut d, Some(staged));
                let mut plan = k.launch_expand_l2_rows(&mut d, Some("1"), n_k, n_v, hd, p);
                let kernel = plan.next().unwrap().kernel;
                if staged {
                    assert_eq!(kernel, DeltanetKernel::ExpandL2RowsV2);
                    expected += 1;
                } else {
                    assert_eq!(kernel, DeltanetKernel::ExpandL2Rows);
                }
                assert!(report_expand_l2_rows(&mut d, &mut plan, Ok(())).is_ok());
            }
        }
    }
    set_expand_l2_rows_v2(&mut d, None);
    assert_eq!(expand_l2_rows_v2_launches(&d) - before, expected);
}
