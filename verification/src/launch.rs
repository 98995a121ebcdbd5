//! Kernel launches as plain data: which kernel, over which grid, with which
//! arguments. A launch plan is a queue of launches; running it on a device
//! stream is the caller's part.

use vstd::prelude::*;
use crate::error::{CudarcKernelError, ErrorView};

verus! {

/// Grid, block and dynamic shared memory of one launch.
#[derive(Clone, Copy, Debug, PartialEq, Eq)]
pub struct LaunchConfig {
    /// (width, height, depth) of the grid in blocks.
    pub grid_dim: (u32, u32, u32),
    /// (x, y, z) dimension of each thread block.
    pub block_dim: (u32, u32, u32),
    /// Dynamic shared memory per thread block, in bytes.
    pub shared_mem_bytes: u32,
}

/// A device buffer of a launch, by the role it plays there.
#[derive(Clone, Copy, Debug, PartialEq, Eq)]
pub enum Buffer {
    A,
    ALog,
    ALoraQ,
    ALoraV,
    ARaw,
    Arrived,
    Ascale,
    AttnOut,
    AxQ,
    AxV,
    B,
    BLoraQ,
    BLoraV,
    BRaw,
    Beta,
    BetaSeq,
    Compact,
    ConvState,
    Decay,
    DecaySeq,
    DeltaSeq,
    DtBias,
    Expanded,
    Gamma,
    Gate,
    GradBetaSeq,
    GradDecaySeq,
    GradK,
    GradOutSeq,
    GradQ,
    GradQkvSeq,
    GradS,
    GroupScale,
    Input,
    K,
    KVec,
    KeyCache,
    KvMemSeq,
    MergedL,
    MergedM,
    NegBits,
    NormX,
    OutI8,
    Output,
    PartL,
    PartM,
    PartOut,
    Partials,
    PosBits,
    PosDev,
    Q,
    Qg,
    Qkv,
    QkvSeq,
    Query,
    Result,
    RowIdxDev,
    StatL,
    StatM,
    State,
    StateDecayedSeq,
    StateSeq,
    Up,
    VVec,
    ValueCache,
    Values,
    Weight,
    X,
    Z,
}

/// A 32-bit real number that the caller of a launch supplies.
#[derive(Clone, Copy, Debug, PartialEq, Eq)]
pub enum Real {
    /// Base of the rotary frequencies.
    ThetaBase,
    /// RMS norm epsilon.
    Eps,
    /// Scale of a low-rank correction.
    Scale,
}

/// One kernel argument.
#[derive(Clone, Copy, Debug, PartialEq, Eq)]
pub enum Arg {
    /// A device pointer.
    Buf(Buffer),
    /// A 32-bit integer.
    I32(i32),
    /// The 32-bit real number `1 / n`.
    Recip(usize),
    /// The 32-bit real number `1 / sqrt(n)`.
    InvSqrt(usize),
    /// A 32-bit real number of the caller's.
    Real(Real),
}

/// One kernel launch.
#[derive(Debug, PartialEq, Eq)]
pub struct Launch<K> {
    pub kernel: K,
    pub config: LaunchConfig,
    pub args: Vec<Arg>,
}

/// The model of a [`Launch`].
#[verifier::ext_equal]
pub struct LaunchView<K> {
    pub kernel: K,
    pub config: LaunchConfig,
    pub args: Seq<Arg>,
}

impl<K> View for Launch<K> {
    type V = LaunchView<K>;

    open spec fn view(&self) -> LaunchView<K> {
        LaunchView { kernel: self.kernel, config: self.config, args: self.args@ }
    }
}

/// Launches that are still to be made, first one first.
#[derive(Debug, PartialEq, Eq)]
pub struct LaunchPlan<K> {
    pub launches: Vec<Launch<K>>,
}

impl<K> View for LaunchPlan<K> {
    type V = Seq<LaunchView<K>>;

    open spec fn view(&self) -> Seq<LaunchView<K>> {
        self.launches@.map_values(|l: Launch<K>| l@)
    }
}

/// The outcome of planning: the plan where nothing is refused, else the
/// refusal as an invalid argument.
pub open spec fn planned<K>(
    r: Result<LaunchPlan<K>, CudarcKernelError>,
    refusal: Option<Seq<char>>,
    plan: Seq<LaunchView<K>>,
) -> bool {
    match r {
        Ok(p) => refusal is None && p@ == plan,
        Err(e) => refusal matches Some(t) && e@ == ErrorView::InvalidArg(t),
    }
}

impl<K> LaunchPlan<K> {
    /// The plan without launches.
    pub(crate) fn empty() -> (r: Self)
        ensures
            r@ == Seq::<LaunchView<K>>::empty(),
    {
        let r = LaunchPlan { launches: Vec::new() };
        assert(r@ =~= Seq::<LaunchView<K>>::empty());
        r
    }

    /// The plan of one launch.
    pub(crate) fn one(kernel: K, config: LaunchConfig, args: Vec<Arg>) -> (r: Self)
        ensures
            r@ == seq![LaunchView { kernel, config, args: args@ }],
    {
        Self::empty().followed_by(kernel, config, args)
    }

    /// This plan with one more launch at its end.
    pub(crate) fn followed_by(self, kernel: K, config: LaunchConfig, args: Vec<Arg>) -> (r: Self)
        ensures
            r@ == self@.push(LaunchView { kernel, config, args: args@ }),
    {
        let mut launches: Vec<Launch<K>> = self.launches;
        launches.push(Launch { kernel, config, args });
        let r = LaunchPlan { launches };
        assert(r@ =~= self@.push(LaunchView { kernel, config, args: args@ }));
        r
    }

    /// The launch to make next, if one is left.
    pub fn next(&self) -> (r: Option<&Launch<K>>)
        ensures
            match r {
                Some(l) => self@.len() > 0 && l@ == self@[0],
                None => self@.len() == 0,
            },
    {
        if self.launches.len() == 0 {
            None
        } else {
            Some(&self.launches[0])
        }
    }

    /// Takes the outcome of the launch that [`LaunchPlan::next`] gave. After a
    /// success the launch leaves the plan. After a failure nothing of the plan
    /// is left to run, and the failure is reported with the driver's text.
    pub fn report(&mut self, outcome: Result<(), String>) -> (r: Result<(), CudarcKernelError>)
        requires
            old(self)@.len() > 0,
        ensures
            match outcome {
                Ok(()) => r is Ok && final(self)@ == old(self)@.drop_first(),
                Err(text) => r matches Err(e) && e@ == ErrorView::Launch(text@)
                    && final(self)@.len() == 0,
            },
    {
        match outcome {
            Ok(()) => {
                let done = self.launches.remove(0);
                assert(self@ =~= old(self)@.drop_first());
                Ok(())
            },
            Err(text) => {
                self.launches = Vec::new();
                Err(CudarcKernelError::Launch(text))
            },
        }
    }
}

} // verus!
