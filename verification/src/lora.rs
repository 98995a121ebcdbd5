//! Low-rank corrections of the query and value projections of one row.
//!
//! A correction of rank `r` adds `scale * B (A x)`: the down-projection gives
//! `A x`, the up-projection adds the rest to its slice of the compact
//! query/key/value row.

use vstd::prelude::*;
use crate::error::{CudarcKernelError, ErrorView};
use crate::geometry::{
    flat, flat_config, int_arg, law_linear_covers, linear, linear_config, low_u32, size_arg,
    to_u32,
};
use crate::launch::{Arg, Buffer, LaunchPlan, LaunchView, Real};
use crate::module::{build_start, loads, BuildStepView, KernelBuild, KernelId};
use crate::sources::lora::{lora_cuda_src, lora_source};
use crate::text::{append_number, decimal, message2};

verus! {

/// The kernels of the low-rank module.
#[derive(Clone, Copy, Debug, PartialEq, Eq)]
pub enum LoraKernel {
    DownProject,
    UpProjectAdd,
}

impl KernelId for LoraKernel {
    open spec fn entry_point(self) -> Seq<char> {
        match self {
            LoraKernel::DownProject => "lora_down_project_f32"@,
            LoraKernel::UpProjectAdd => "lora_up_project_add_f32"@,
        }
    }

    fn entry(self) -> (r: &'static str) {
        match self {
            LoraKernel::DownProject => "lora_down_project_f32",
            LoraKernel::UpProjectAdd => "lora_up_project_add_f32",
        }
    }
}

/// The build of the low-rank module.
pub open spec fn lora_build() -> Seq<BuildStepView<LoraKernel>> {
    build_start(lora_cuda_src()) + loads(seq![LoraKernel::DownProject, LoraKernel::UpProjectAdd])
}

/// `ax = A x`: one block, one thread per rank, at least one.
pub open spec fn down_project_launch(
    a: Buffer,
    ax: Buffer,
    rank: usize,
    n_embd: usize,
) -> LaunchView<LoraKernel> {
    LaunchView {
        kernel: LoraKernel::DownProject,
        config: flat(1, low_u32(if rank == 0 { 1 } else { rank as int }), 0),
        args: seq![
            Arg::Buf(a),
            Arg::Buf(Buffer::NormX),
            Arg::Buf(ax),
            int_arg(rank as int),
            int_arg(n_embd as int),
        ],
    }
}

/// Adds `scale * B ax` to `dim` elements from `offset` on: one thread per
/// element.
pub open spec fn up_project_launch(
    b: Buffer,
    ax: Buffer,
    dim: usize,
    rank: usize,
    offset: int,
) -> LaunchView<LoraKernel> {
    LaunchView {
        kernel: LoraKernel::UpProjectAdd,
        config: linear(dim as int),
        args: seq![
            Arg::Buf(b),
            Arg::Buf(ax),
            Arg::Buf(Buffer::Qkv),
            int_arg(dim as int),
            int_arg(rank as int),
            int_arg(offset),
            Arg::Real(Real::Scale),
        ],
    }
}

/// The four launches of a correction, in order.
pub open spec fn qv_apply_launches(
    n_embd: usize,
    q_dim: usize,
    k_dim: usize,
    v_dim: usize,
    rank: usize,
) -> Seq<LaunchView<LoraKernel>> {
    seq![
        down_project_launch(Buffer::ALoraQ, Buffer::AxQ, rank, n_embd),
        down_project_launch(Buffer::ALoraV, Buffer::AxV, rank, n_embd),
        up_project_launch(Buffer::BLoraQ, Buffer::AxQ, q_dim, rank, 0),
        up_project_launch(Buffer::BLoraV, Buffer::AxV, v_dim, rank, q_dim + k_dim),
    ]
}

/// Adds a down-projection to a plan.
fn with_down_project(
    plan: LaunchPlan<LoraKernel>,
    a: Buffer,
    ax: Buffer,
    rank: usize,
    n_embd: usize,
) -> (r: LaunchPlan<LoraKernel>)
    ensures
        r@ == plan@.push(down_project_launch(a, ax, rank, n_embd)),
{
    let args: Vec<Arg> = vec![
        Arg::Buf(a),
        Arg::Buf(Buffer::NormX),
        Arg::Buf(ax),
        size_arg(rank),
        size_arg(n_embd),
    ];
    assert(args@ =~= down_project_launch(a, ax, rank, n_embd).args);
    plan.followed_by(
        LoraKernel::DownProject,
        flat_config(1, to_u32(if rank == 0 { 1 } else { rank }), 0),
        args,
    )
}

/// Adds an up-projection to a plan.
fn with_up_project(
    plan: LaunchPlan<LoraKernel>,
    b: Buffer,
    ax: Buffer,
    dim: usize,
    rank: usize,
    offset: usize,
) -> (r: LaunchPlan<LoraKernel>)
    ensures
        r@ == plan@.push(up_project_launch(b, ax, dim, rank, offset as int)),
{
    let args: Vec<Arg> = vec![
        Arg::Buf(b),
        Arg::Buf(ax),
        Arg::Buf(Buffer::Qkv),
        size_arg(dim),
        size_arg(rank),
        size_arg(offset),
        Arg::Real(Real::Scale),
    ];
    assert(args@ =~= up_project_launch(b, ax, dim, rank, offset as int).args);
    plan.followed_by(LoraKernel::UpProjectAdd, linear_config(dim), args)
}

/// The low-rank kernels of a context: plans their build and their launches.
#[derive(Clone, Copy, Debug, PartialEq, Eq)]
pub struct LoraDecodeKernels {}

impl LoraDecodeKernels {
    /// The kernels and the build that loads them.
    pub fn new() -> (r: (Self, KernelBuild<LoraKernel>))
        ensures
            r.1@ == lora_build(),
    {
        let mut build: KernelBuild<LoraKernel> = KernelBuild::start(lora_source());
        build.load_all(vec![LoraKernel::DownProject, LoraKernel::UpProjectAdd]);
        assert(build@ =~= lora_build());
        (LoraDecodeKernels {  }, build)
    }

    /// Corrects the query slice, the first `q_dim` elements of the row, and the
    /// value slice, the `v_dim` elements behind the query and key slices.
    ///
    /// `norm_x` covers `n_embd` elements, `qkv` `q_dim + k_dim + v_dim`, the
    /// two scratch buffers `rank`, each down-projection `rank * n_embd`, and
    /// the up-projections `q_dim * rank` and `v_dim * rank`.
    pub fn launch_qv_apply(
        &self,
        n_embd: usize,
        q_dim: usize,
        k_dim: usize,
        v_dim: usize,
        rank: usize,
    ) -> (r: LaunchPlan<LoraKernel>)
        requires
            q_dim + k_dim <= usize::MAX,
        ensures
            r@ == qv_apply_launches(n_embd, q_dim, k_dim, v_dim, rank),
    {
        let plan = with_down_project(
            LaunchPlan::empty(),
            Buffer::ALoraQ,
            Buffer::AxQ,
            rank,
            n_embd,
        );
        let plan = with_down_project(plan, Buffer::ALoraV, Buffer::AxV, rank, n_embd);
        let plan = with_up_project(plan, Buffer::BLoraQ, Buffer::AxQ, q_dim, rank, 0);
        let r = with_up_project(plan, Buffer::BLoraV, Buffer::AxV, v_dim, rank, q_dim + k_dim);
        assert(r@ =~= qv_apply_launches(n_embd, q_dim, k_dim, v_dim, rank));
        r
    }
}

/// The sizes of an adapter.
#[derive(Clone, Copy, Debug, PartialEq, Eq)]
pub struct QvLoraShape {
    pub rank: usize,
    pub n_embd: usize,
    pub q_dim: usize,
    pub v_dim: usize,
}

/// One step of bringing an adapter to the device.
#[derive(Clone, Copy, Debug, PartialEq, Eq)]
pub enum UploadStep {
    /// Makes the scratch buffer, this many zeros.
    Alloc(Buffer, usize),
    /// Copies the matrix that the buffer stands for.
    Copy(Buffer),
    /// Takes over the adapter's scale.
    RefreshScale,
}

/// Steps that are still to be made, first one first.
#[derive(Debug, PartialEq, Eq)]
pub struct UploadPlan {
    pub steps: Vec<UploadStep>,
}

impl View for UploadPlan {
    type V = Seq<UploadStep>;

    open spec fn view(&self) -> Seq<UploadStep> {
        self.steps@
    }
}

/// The scratch of an adapter: the two down-projected rows, an element per rank.
pub open spec fn scratch_steps(rank: usize) -> Seq<UploadStep> {
    seq![UploadStep::Alloc(Buffer::AxQ, rank), UploadStep::Alloc(Buffer::AxV, rank)]
}

/// The upload of an adapter: the four matrices, then the scale.
pub open spec fn upload_steps() -> Seq<UploadStep> {
    seq![
        UploadStep::Copy(Buffer::ALoraQ),
        UploadStep::Copy(Buffer::BLoraQ),
        UploadStep::Copy(Buffer::ALoraV),
        UploadStep::Copy(Buffer::BLoraV),
        UploadStep::RefreshScale,
    ]
}

impl UploadPlan {
    /// [`upload_steps`], planned.
    fn full() -> (r: Self)
        ensures
            r@ == upload_steps(),
    {
        let r = UploadPlan {
            steps: vec![
                UploadStep::Copy(Buffer::ALoraQ),
                UploadStep::Copy(Buffer::BLoraQ),
                UploadStep::Copy(Buffer::ALoraV),
                UploadStep::Copy(Buffer::BLoraV),
                UploadStep::RefreshScale,
            ],
        };
        assert(r@ =~= upload_steps());
        r
    }

    /// The step to make next, if one is left.
    pub fn next(&self) -> (r: Option<UploadStep>)
        ensures
            match r {
                Some(s) => self@.len() > 0 && s == self@[0],
                None => self@.len() == 0,
            },
    {
        if self.steps.len() == 0 {
            None
        } else {
            Some(self.steps[0])
        }
    }

    /// Takes the outcome of the step that [`UploadPlan::next`] gave. After a
    /// success the step leaves the plan. After a failure nothing is left to do,
    /// and the failure is reported with the driver's text.
    pub fn report(&mut self, outcome: Result<(), String>) -> (r: Result<(), CudarcKernelError>)
        requires
            old(self)@.len() > 0,
        ensures
            match outcome {
                Ok(()) => r is Ok && final(self)@ == old(self)@.drop_first(),
                Err(text) => r matches Err(e) && e@ == ErrorView::Launch(text@)
                    && final(self)@.len() == 0,
            },
    {
        match outcome {
            Ok(()) => {
                let made = self.steps.remove(0);
                assert(self@ =~= old(self)@.drop_first());
                Ok(())
            },
            Err(text) => {
                self.steps = Vec::new();
                Err(CudarcKernelError::Launch(text))
            },
        }
    }
}

/// Why an adapter cannot take the place of one of the sizes `slot`, if it
/// cannot: the sizes of both, the adapter's first.
pub open spec fn update_refusal(lora: QvLoraShape, slot: QvLoraShape) -> Option<Seq<char>> {
    if lora != slot {
        Some(
            "update_from: adapter shape mismatch (rank "@ + decimal(lora.rank as nat) + "/"@
                + decimal(slot.rank as nat) + " n_embd "@ + decimal(lora.n_embd as nat) + "/"@
                + decimal(slot.n_embd as nat) + " q_dim "@ + decimal(lora.q_dim as nat) + "/"@
                + decimal(slot.q_dim as nat) + " v_dim "@ + decimal(lora.v_dim as nat) + "/"@
                + decimal(slot.v_dim as nat)
                + "); re-attach instead of updating when the shape changes"@,
        )
    } else {
        None
    }
}

/// An adapter on the device: the sizes of its buffers.
#[derive(Clone, Copy, Debug, PartialEq, Eq)]
pub struct QvLoraGpuCudarc {
    pub shape: QvLoraShape,
}

impl QvLoraGpuCudarc {
    /// An adapter with the sizes of `lora`, and the plan that makes its scratch
    /// and uploads its matrices and scale. Nothing is left to make per row.
    pub fn from_qv_lora(lora: &QvLoraShape) -> (r: (Self, UploadPlan))
        ensures
            r.0.shape == *lora,
            r.1@ == scratch_steps(lora.rank) + upload_steps(),
    {
        let mut plan = UploadPlan {
            steps: vec![
                UploadStep::Alloc(Buffer::AxQ, lora.rank),
                UploadStep::Alloc(Buffer::AxV, lora.rank),
            ],
        };
        assert(plan@ =~= scratch_steps(lora.rank));
        let mut upload = UploadPlan::full();
        plan.steps.append(&mut upload.steps);
        assert(plan@ =~= scratch_steps(lora.rank) + upload_steps());
        (QvLoraGpuCudarc { shape: *lora }, plan)
    }

    /// The upload that replaces the matrices and the scale in place, and keeps the
    /// scratch. An adapter of other sizes is refused.
    pub fn update_from(&self, lora: &QvLoraShape) -> (r: Result<UploadPlan, CudarcKernelError>)
        ensures
            match r {
                Ok(plan) => update_refusal(*lora, self.shape) is None && plan@ == upload_steps(),
                Err(e) => update_refusal(*lora, self.shape) matches Some(t) && e@
                    == ErrorView::InvalidArg(t),
            },
    {
        if lora.rank != self.shape.rank || lora.n_embd != self.shape.n_embd || lora.q_dim
            != self.shape.q_dim || lora.v_dim != self.shape.v_dim {
            let mut s: String = message2(
                "update_from: adapter shape mismatch (rank ",
                lora.rank,
                "/",
                self.shape.rank,
                " n_embd ",
            );
            append_number(&mut s, lora.n_embd);
            s.append("/");
            append_number(&mut s, self.shape.n_embd);
            s.append(" q_dim ");
            append_number(&mut s, lora.q_dim);
            s.append("/");
            append_number(&mut s, self.shape.q_dim);
            s.append(" v_dim ");
            append_number(&mut s, lora.v_dim);
            s.append("/");
            append_number(&mut s, self.shape.v_dim);
            s.append("); re-attach instead of updating when the shape changes");
            return Err(CudarcKernelError::InvalidArg(s));
        }
        Ok(UploadPlan::full())
    }
}

/// An adapter of the sizes that a slot was made with is never refused, and one
/// of any other sizes always is.
pub proof fn law_update_needs_same_shape(lora: QvLoraShape, slot: QvLoraShape)
    ensures
        update_refusal(lora, slot) is None <==> lora == slot,
{
}

/// A correction touches the query and the value slice of a row of `q_dim +
/// k_dim + v_dim` elements, each element by exactly one thread of one launch,
/// and no element of the key slice: where the row's length fits 31 bits, the
/// query launch covers the elements from 0 and the value launch those from
/// `q_dim + k_dim`, and `i` lies in at most one of the two slices.
pub proof fn law_corrections_are_disjoint(
    n_embd: usize,
    q_dim: usize,
    k_dim: usize,
    v_dim: usize,
    rank: usize,
    i: int,
)
    requires
        q_dim + k_dim + v_dim <= i32::MAX,
        0 <= i < q_dim + k_dim + v_dim,
    ensures
        ({
            let plan = qv_apply_launches(n_embd, q_dim, k_dim, v_dim, rank);
            let q_off = plan[2].args[5]->I32_0 as int;
            let q_len = plan[2].args[3]->I32_0 as int;
            let v_off = plan[3].args[5]->I32_0 as int;
            let v_len = plan[3].args[3]->I32_0 as int;
            let in_q = q_off <= i < q_off + q_len;
            let in_v = v_off <= i < v_off + v_len;
            &&& in_q <==> i < q_dim
            &&& in_v <==> q_dim + k_dim <= i
            &&& !(in_q && in_v)
            &&& in_q ==> 0 <= (i - q_off) / 256 < plan[2].config.grid_dim.0
            &&& in_v ==> 0 <= (i - v_off) / 256 < plan[3].config.grid_dim.0
        }),
{
    if i < q_dim {
        law_linear_covers(q_dim as int, i);
    }
    if q_dim + k_dim <= i {
        law_linear_covers(v_dim as int, i - q_dim - k_dim);
    }
}

} // verus!
