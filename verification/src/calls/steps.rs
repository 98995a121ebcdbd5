//! How queues are worked off: launches, build steps, uploads and scratch.

use vstd::prelude::*;
use crate::attention::{AttentionKernel, AttentionKernels};
use crate::attention_score_mma::{AttentionScoreMmaKernels, ScoreMmaKernel};
use crate::deltanet::{DeltanetKernel, DeltanetKernels};
use crate::elementwise::{ElementwiseKernel, ElementwiseKernels, ScratchAlloc, ScratchInit};
use crate::embedding::{EmbeddingDequantKernels, EmbeddingKernel};
use crate::error::{CudarcKernelError, ErrorView};
use crate::launch::{Buffer, Launch, LaunchPlan};
use crate::lora::{
    LoraDecodeKernels, LoraKernel, QvLoraGpuCudarc, QvLoraShape, UploadPlan, UploadStep,
};
use crate::module::{BuildStep, BuildStepView, KernelBuild, KernelId};
use crate::sources::attention::attention_cuda_src;
use crate::sources::attention_score_mma::attention_score_mma_cuda_src;
use crate::sources::deltanet::deltanet_cuda_src;
use crate::sources::elementwise::elementwise_cuda_src;
use crate::sources::embedding::embedding_cuda_src;
use crate::sources::lora::lora_cuda_src;
use crate::sources::KernelText;

verus! {

/// Whether a queue went one step on: its first entry is gone, the others moved up.
pub open spec fn moved_up<T>(before: Seq<T>, after: Seq<T>) -> bool {
    &&& after.len() == before.len() - 1
    &&& forall|i: int| 0 <= i < after.len() ==> #[trigger] after[i] == before[i + 1]
}

/// A plan is worked off from its front: the launch to make is the first, a success
/// moves the others up, and a failure leaves nothing to launch and is reported as a
/// failed launch, in the driver's words.
pub proof fn law_launches_go_in_order<K>(
    plan: &mut LaunchPlan<K>,
    head: Option<&Launch<K>>,
    outcome: Result<(), String>,
    r: Result<(), CudarcKernelError>,
)
    requires
        plan@.len() > 0,
        call_ensures(LaunchPlan::<K>::next, (&*plan,), head),
        call_ensures(LaunchPlan::<K>::report, (plan, outcome), r),
    ensures
        head matches Some(l) && l@ == old(plan)@[0],
        r is Ok <==> outcome is Ok,
        outcome is Ok ==> moved_up(old(plan)@, final(plan)@),
        outcome is Err ==> final(plan)@.len() == 0,
        outcome matches Err(t) ==> r matches Err(e) ==> e@ == ErrorView::Launch(t@),
{
}

/// A build is worked off likewise. A refused opt-in is reported as a failed launch
/// under the opt-in's label, any other failure as a failed compilation; either way the
/// driver's words come last.
pub proof fn law_build_steps_go_in_order<K>(
    build: &mut KernelBuild<K>,
    head: Option<&BuildStep<K>>,
    outcome: Result<(), String>,
    r: Result<(), CudarcKernelError>,
)
    requires
        build@.len() > 0,
        call_ensures(KernelBuild::<K>::next, (&*build,), head),
        call_ensures(KernelBuild::<K>::report, (build, outcome), r),
    ensures
        head matches Some(s) && s@ == old(build)@[0],
        r is Ok <==> outcome is Ok,
        outcome is Ok ==> moved_up(old(build)@, final(build)@),
        outcome is Err ==> final(build)@.len() == 0,
        outcome matches Err(t) ==> r matches Err(e) ==> match old(build)@[0] {
            BuildStepView::Compile { .. } => e@ == ErrorView::Compile(t@),
            BuildStepView::LoadModule => e@ == ErrorView::Compile(t@),
            BuildStepView::LoadFunction { .. } => e@ == ErrorView::Compile(t@),
            BuildStepView::OptInSharedMemory { label, .. } => {
                &&& e@ is Launch
                &&& e@->Launch_0.len() == label.len() + 2 + t@.len()
                &&& e@->Launch_0.take(label.len() as int) == label
                &&& e@->Launch_0.subrange(label.len() as int, label.len() as int + 2) == seq![':', ' ']
                &&& e@->Launch_0.skip(label.len() as int + 2) == t@
            },
        },
{
    reveal_strlit(": ");
    if let BuildStepView::OptInSharedMemory { label, .. } = old(build)@[0] {
        if let Err(t) = outcome {
            if let Err(e) = r {
                let s = e@->Launch_0;
                assert(s.take(label.len() as int) =~= label);
                assert(s.subrange(label.len() as int, label.len() as int + 2) =~= seq![':', ' ']);
                assert(s.skip(label.len() as int + 2) =~= t@);
            }
        }
    }
}

/// An upload is worked off likewise.
pub proof fn law_uploads_go_in_order(
    plan: &mut UploadPlan,
    head: Option<UploadStep>,
    outcome: Result<(), String>,
    r: Result<(), CudarcKernelError>,
)
    requires
        plan@.len() > 0,
        call_ensures(UploadPlan::next, (&*plan,), head),
        call_ensures(UploadPlan::report, (plan, outcome), r),
    ensures
        head == Some(old(plan)@[0]),
        r is Ok <==> outcome is Ok,
        outcome is Ok ==> moved_up(old(plan)@, final(plan)@),
        outcome is Err ==> final(plan)@.len() == 0,
        outcome matches Err(t) ==> r matches Err(e) ==> e@ == ErrorView::Launch(t@),
{
}

/// The scratch of the several-block norm is worked off likewise, and counts as made
/// exactly when its last buffer is made, or was made before.
pub proof fn law_scratch_goes_in_order(
    k: &mut ElementwiseKernels,
    init: &mut ScratchInit,
    head: Option<ScratchAlloc>,
    outcome: Result<(), String>,
    r: Result<(), CudarcKernelError>,
)
    requires
        init@.len() > 0,
        call_ensures(ScratchInit::next, (&*init,), head),
        call_ensures(ElementwiseKernels::report_rmsnorm_mb_scratch, (k, init, outcome), r),
    ensures
        head == Some(old(init)@[0]),
        r is Ok <==> outcome is Ok,
        outcome is Ok ==> moved_up(old(init)@, final(init)@),
        outcome is Err ==> final(init)@.len() == 0 && final(k).mb_scratch == old(k).mb_scratch,
        outcome matches Err(t) ==> r matches Err(e) ==> e@ == ErrorView::Launch(t@),
        final(k).mb_scratch <==> old(k).mb_scratch || (outcome is Ok && final(init)@.len() == 0),
{
}

/// The scratch is made once: the partial sums, as many as asked for, then the two
/// arrival counters; where it is there already, nothing is made.
pub proof fn law_scratch_allocs(k: &ElementwiseKernels, max_leaves: usize, r: ScratchInit)
    requires
        call_ensures(ElementwiseKernels::init_rmsnorm_mb_scratch, (k, max_leaves), r),
    ensures
        r@.len() == if k.mb_scratch {
            0nat
        } else {
            2nat
        },
        !k.mb_scratch ==> r@[0] == ScratchAlloc::Partials(max_leaves) && r@[1]
            == ScratchAlloc::Arrived(2),
{
}

/// A new adapter gets a scratch row of its rank for each of its two projections, then
/// each of its four matrices once, and its scale when all of that is there.
pub proof fn law_adapter_is_made(lora: &QvLoraShape, r: (QvLoraGpuCudarc, UploadPlan))
    requires
        call_ensures(QvLoraGpuCudarc::from_qv_lora, (lora,), r),
    ensures
        r.0.shape == *lora,
        r.1@.len() == 7,
        r.1@.no_duplicates(),
        r.1@.last() == UploadStep::RefreshScale,
        forall|b: Buffer|
            (b == Buffer::AxQ || b == Buffer::AxV) ==> #[trigger] r.1@.take(2).contains(
                UploadStep::Alloc(b, lora.rank),
            ),
        forall|b: Buffer|
            (b == Buffer::ALoraQ || b == Buffer::BLoraQ || b == Buffer::ALoraV || b
                == Buffer::BLoraV) ==> #[trigger] r.1@.subrange(2, 6).contains(
                UploadStep::Copy(b),
            ),
{
    let s = r.1@;
    assert(s.take(2)[0] == UploadStep::Alloc(Buffer::AxQ, lora.rank));
    assert(s.take(2)[1] == UploadStep::Alloc(Buffer::AxV, lora.rank));
    let m = s.subrange(2, 6);
    assert(m[0] == UploadStep::Copy(Buffer::ALoraQ));
    assert(m[1] == UploadStep::Copy(Buffer::BLoraQ));
    assert(m[2] == UploadStep::Copy(Buffer::ALoraV));
    assert(m[3] == UploadStep::Copy(Buffer::BLoraV));
}

/// An update does what making the adapter does after the scratch is there, and is owed
/// exactly to an adapter of the same sizes; any other is refused as an argument.
pub proof fn law_adapter_is_updated(
    lora: &QvLoraShape,
    fresh: (QvLoraGpuCudarc, UploadPlan),
    slot: &QvLoraGpuCudarc,
    r: Result<UploadPlan, CudarcKernelError>,
)
    requires
        call_ensures(QvLoraGpuCudarc::from_qv_lora, (lora,), fresh),
        call_ensures(QvLoraGpuCudarc::update_from, (slot, lora), r),
    ensures
        r is Ok <==> lora.rank == slot.shape.rank && lora.n_embd == slot.shape.n_embd && lora.q_dim
            == slot.shape.q_dim && lora.v_dim == slot.shape.v_dim,
        r matches Ok(plan) ==> plan@ == fresh.1@.skip(2),
        r matches Err(e) ==> e@ is InvalidArg,
{
    if let Ok(plan) = r {
        assert(plan@ =~= fresh.1@.skip(2));
    }
}

/// Whether a build compiles `text` for the device's architecture, loads the module, and
/// then looks up every kernel, by the name that the text declares it under.
pub open spec fn builds<K: KernelText>(
    steps: Seq<BuildStepView<K>>,
    text: Seq<char>,
    all: spec_fn(K) -> bool,
) -> bool {
    &&& steps.len() > 2
    &&& steps[0] matches BuildStepView::Compile { source, arch } && source == text && arch
        == "sm_89"@
    &&& steps[1] is LoadModule
    &&& forall|k: K| #[trigger]
        all(k) ==> steps.contains(
            BuildStepView::LoadFunction { kernel: k, entry: k.declared().name },
        )
    &&& forall|i: int|
        2 <= i < steps.len() ==> match #[trigger] steps[i] {
            BuildStepView::LoadFunction { kernel, entry } => entry == kernel.declared().name,
            BuildStepView::OptInSharedMemory { .. } => true,
            _ => false,
        }
}

/// The build of the attention kernels.
pub proof fn law_attention_build(
    setting: Option<&str>,
    kv_f16: bool,
    r: (AttentionKernels, KernelBuild<AttentionKernel>),
)
    requires
        call_ensures(AttentionKernels::new_with_kv_dtype, (setting, kv_f16), r),
    ensures
        builds(
            r.1@,
            (if kv_f16 {
                "#define KV_F16 1\n"@
            } else {
                Seq::empty()
            }) + attention_cuda_src(),
            |k: AttentionKernel| true,
        ),
{
    let b = r.1@;
    assert(attention_cuda_src() =~= Seq::empty() + attention_cuda_src());
    assert forall|k: AttentionKernel| true implies b.contains(
        BuildStepView::LoadFunction { kernel: k, entry: k.declared().name },
    ) by {
        let i: int = match k {
            AttentionKernel::Rope => 2,
            AttentionKernel::RopeDevpos => 3,
            AttentionKernel::RopeBackward => 4,
            AttentionKernel::SplitQg => 5,
            AttentionKernel::RmsnormBatched => 6,
            AttentionKernel::KvCacheAppend => 7,
            AttentionKernel::KvCacheAppendDevpos => 8,
            AttentionKernel::AttentionDecode => 9,
            AttentionKernel::AttentionDecodeDevpos => 10,
            AttentionKernel::Split => 11,
            AttentionKernel::SplitDevpos => 12,
            AttentionKernel::SplitCombine => 13,
            AttentionKernel::Splitgqa => 14,
            AttentionKernel::SplitgqaDevpos => 15,
            AttentionKernel::RopeRows => 16,
            AttentionKernel::RopeRowsDevpos => 17,
            AttentionKernel::KvAppendRows => 18,
            AttentionKernel::KvAppendRowsDevpos => 19,
            AttentionKernel::SplitQgRows => 20,
            AttentionKernel::SplitgqaRows => 21,
            AttentionKernel::SplitgqaRowsDevpos => 22,
            AttentionKernel::SplitCombineRows => 23,
            AttentionKernel::SplitgqaRowsQg => 24,
            AttentionKernel::SplitgqaRowsQgDevpos => 25,
            AttentionKernel::SplitgqaRowsMa => 28,
            AttentionKernel::SplitgqaRowsMaDevpos => 29,
            AttentionKernel::SplitgqaRowsQgma => 30,
            AttentionKernel::SplitgqaRowsQgmaDevpos => 31,
            AttentionKernel::Verify2pStats => 34,
            AttentionKernel::Verify2pStatsDevpos => 35,
            AttentionKernel::Verify2pMerge => 36,
            AttentionKernel::Verify2pPv => 37,
            AttentionKernel::Verify2pPvDevpos => 38,
            AttentionKernel::OutputGate => 41,
        };
        assert(b[i] == (BuildStepView::LoadFunction { kernel: k, entry: k.declared().name }));
    }
}

/// The build of the tensor-core kernels.
pub proof fn law_attention_score_mma_build(
    kv_f16: bool,
    r: (AttentionScoreMmaKernels, KernelBuild<ScoreMmaKernel>),
)
    requires
        call_ensures(AttentionScoreMmaKernels::new, (kv_f16,), r),
    ensures
        builds(
            r.1@,
            (if kv_f16 {
                "#define KV_F16 1\n"@
            } else {
                Seq::empty()
            }) + attention_score_mma_cuda_src(),
            |k: ScoreMmaKernel| true,
        ),
{
    let b = r.1@;
    assert(attention_score_mma_cuda_src() =~= Seq::empty() + attention_score_mma_cuda_src());
    assert forall|k: ScoreMmaKernel| true implies b.contains(
        BuildStepView::LoadFunction { kernel: k, entry: k.declared().name },
    ) by {
        let i: int = match k {
            ScoreMmaKernel::ScoreMma => 2,
            ScoreMmaKernel::ScoreMmaDevpos => 3,
            ScoreMmaKernel::ScoreMma24 => 4,
            ScoreMmaKernel::ScoreMma24Devpos => 5,
            ScoreMmaKernel::Combine => 6,
        };
        assert(b[i] == (BuildStepView::LoadFunction { kernel: k, entry: k.declared().name }));
    }
}

/// The build of the delta-rule kernels.
pub proof fn law_deltanet_build(
    r: (DeltanetKernels, KernelBuild<DeltanetKernel>),
)
    requires
        call_ensures(DeltanetKernels::new, (), r),
    ensures
        builds(
            r.1@,
            deltanet_cuda_src(),
            |k: DeltanetKernel| true,
        ),
{
    let b = r.1@;
    assert(deltanet_cuda_src() =~= Seq::empty() + deltanet_cuda_src());
    assert forall|k: DeltanetKernel| true implies b.contains(
        BuildStepView::LoadFunction { kernel: k, entry: k.declared().name },
    ) by {
        let i: int = match k {
            DeltanetKernel::Conv1d => 2,
            DeltanetKernel::BetaDecay => 3,
            DeltanetKernel::ExpandL2 => 4,
            DeltanetKernel::Recurrence => 5,
            DeltanetKernel::RecurrenceParallel => 6,
            DeltanetKernel::RecurrenceFusedHd64 => 7,
            DeltanetKernel::RecurrenceFusedHd128 => 8,
            DeltanetKernel::RecurrenceFusedHd256 => 9,
            DeltanetKernel::RecurrenceHalfHd128F16 => 10,
            DeltanetKernel::RecurrenceHalfHd128Bf16 => 11,
            DeltanetKernel::ZGating => 12,
            DeltanetKernel::BpttRecompute => 13,
            DeltanetKernel::Conv1dRows => 14,
            DeltanetKernel::BetaDecayRows => 15,
            DeltanetKernel::ExpandL2Rows => 16,
            DeltanetKernel::ExpandL2RowsV2 => 17,
            DeltanetKernel::RecurrenceFusedRowsHd128 => 18,
        };
        assert(b[i] == (BuildStepView::LoadFunction { kernel: k, entry: k.declared().name }));
    }
}

/// The build of the elementwise kernels.
pub proof fn law_elementwise_build(
    r: (ElementwiseKernels, KernelBuild<ElementwiseKernel>),
)
    requires
        call_ensures(ElementwiseKernels::new, (), r),
    ensures
        builds(
            r.1@,
            elementwise_cuda_src(),
            |k: ElementwiseKernel| true,
        ),
{
    let b = r.1@;
    assert(elementwise_cuda_src() =~= Seq::empty() + elementwise_cuda_src());
    assert forall|k: ElementwiseKernel| true implies b.contains(
        BuildStepView::LoadFunction { kernel: k, entry: k.declared().name },
    ) by {
        let i: int = match k {
            ElementwiseKernel::Rmsnorm => 2,
            ElementwiseKernel::ResidualAdd => 3,
            ElementwiseKernel::Swiglu => 4,
            ElementwiseKernel::Quantize => 5,
            ElementwiseKernel::RmsnormQuantize => 6,
            ElementwiseKernel::RmsnormQuantizeWithNormX => 7,
            ElementwiseKernel::RmsnormQuantizeMultiblock => 8,
            ElementwiseKernel::SwigluQuantize => 9,
            ElementwiseKernel::GateSiluQuantize => 10,
            ElementwiseKernel::GateSigmoidQuantize => 11,
            ElementwiseKernel::RmsnormGateSiluQuantize => 12,
            ElementwiseKernel::ArgmaxFirst => 13,
        };
        assert(b[i] == (BuildStepView::LoadFunction { kernel: k, entry: k.declared().name }));
    }
}

/// The build of the embedding kernels.
pub proof fn law_embedding_build(
    r: (EmbeddingDequantKernels, KernelBuild<EmbeddingKernel>),
)
    requires
        call_ensures(EmbeddingDequantKernels::new, (), r),
    ensures
        builds(
            r.1@,
            embedding_cuda_src(),
            |k: EmbeddingKernel| true,
        ),
{
    let b = r.1@;
    assert(embedding_cuda_src() =~= Seq::empty() + embedding_cuda_src());
    assert forall|k: EmbeddingKernel| true implies b.contains(
        BuildStepView::LoadFunction { kernel: k, entry: k.declared().name },
    ) by {
        let i: int = match k {
            EmbeddingKernel::Dequant => 2,
            EmbeddingKernel::DequantDevpos => 3,
        };
        assert(b[i] == (BuildStepView::LoadFunction { kernel: k, entry: k.declared().name }));
    }
}

/// The build of the low-rank kernels.
pub proof fn law_lora_build(
    r: (LoraDecodeKernels, KernelBuild<LoraKernel>),
)
    requires
        call_ensures(LoraDecodeKernels::new, (), r),
    ensures
        builds(
            r.1@,
            lora_cuda_src(),
            |k: LoraKernel| true,
        ),
{
    let b = r.1@;
    assert(lora_cuda_src() =~= Seq::empty() + lora_cuda_src());
    assert forall|k: LoraKernel| true implies b.contains(
        BuildStepView::LoadFunction { kernel: k, entry: k.declared().name },
    ) by {
        let i: int = match k {
            LoraKernel::DownProject => 2,
            LoraKernel::UpProjectAdd => 3,
        };
        assert(b[i] == (BuildStepView::LoadFunction { kernel: k, entry: k.declared().name }));
    }
}

/// A program that NVRTC made is handed on and the build goes on; the words of an error
/// are reported as a failed compilation, and the build is over.
pub proof fn law_compiled_program_is_handed_on<K>(
    build: &mut KernelBuild<K>,
    compiled: Result<cudarc::nvrtc::Ptx, String>,
    r: Result<cudarc::nvrtc::Ptx, CudarcKernelError>,
)
    requires
        build@.len() > 0,
        build@[0] is Compile,
        call_ensures(KernelBuild::<K>::report_compiled, (build, compiled), r),
    ensures
        compiled matches Ok(ptx) ==> r == Ok::<_, CudarcKernelError>(ptx) && moved_up(
            old(build)@,
            final(build)@,
        ),
        compiled matches Err(t) ==> r matches Err(e) && e@ == ErrorView::Compile(t@)
            && final(build)@.len() == 0,
{
}

/// A step that is offered to NVRTC holds no NUL character, in its text or in its
/// architecture.
pub proof fn law_compilable_texts<K>(build: &KernelBuild<K>, r: bool)
    requires
        call_ensures(KernelBuild::<K>::compilable, (build,), r),
    ensures
        r ==> build@.len() > 0 && (build@[0] matches BuildStepView::Compile { source, arch } && (
        forall|i: int| 0 <= i < source.len() ==> #[trigger] source[i] != '\0') && (forall|i: int|
            0 <= i < arch.len() ==> #[trigger] arch[i] != '\0')),
{
    if r {
        if let BuildStepView::Compile { source, arch } = build@[0] {
            assert forall|i: int| 0 <= i < source.len() implies #[trigger] source[i] != '\0' by {
                assert(source.contains(source[i]));
            }
            assert forall|i: int| 0 <= i < arch.len() implies #[trigger] arch[i] != '\0' by {
                assert(arch.contains(arch[i]));
            }
        }
    }
}

} // verus!
