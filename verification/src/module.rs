//! Building a kernel module as plain data: the queue of steps that compile the
//! CUDA C text, load the module, look up its kernels and raise their shared
//! memory limits.

use vstd::prelude::*;
use crate::error::{CudarcKernelError, ErrorView};
use crate::nvrtc::compile_ptx;
use crate::text::has_nul;

verus! {

/// The GPU architecture that all kernels are compiled for (Ada Lovelace).
pub const ARCH: &'static str = "sm_89";

/// Dynamic shared memory that a block may use without an opt-in, in bytes.
pub const DEFAULT_SHARED_MEMORY: u32 = 49152;

/// Shared memory that a block may have at most on `sm_89`, in bytes.
pub const MAX_SHARED_MEMORY: u32 = 101376;

/// One step of building a module of kernels `K`.
#[derive(Debug, PartialEq, Eq)]
pub enum BuildStep<K> {
    /// Compile a CUDA C text for an architecture.
    Compile { source: String, arch: &'static str },
    /// Load the compiled program as a module.
    LoadModule,
    /// Look up the entry point of a kernel.
    LoadFunction { kernel: K, entry: &'static str },
    /// Raise a kernel's limit of dynamic shared memory to `bytes`.
    OptInSharedMemory { kernel: K, bytes: i32, label: &'static str },
}

/// The model of a [`BuildStep`].
#[verifier::ext_equal]
pub enum BuildStepView<K> {
    Compile { source: Seq<char>, arch: Seq<char> },
    LoadModule,
    LoadFunction { kernel: K, entry: Seq<char> },
    OptInSharedMemory { kernel: K, bytes: i32, label: Seq<char> },
}

impl<K> View for BuildStep<K> {
    type V = BuildStepView<K>;

    open spec fn view(&self) -> BuildStepView<K> {
        match *self {
            BuildStep::Compile { source, arch } => BuildStepView::Compile {
                source: source@,
                arch: arch@,
            },
            BuildStep::LoadModule => BuildStepView::LoadModule,
            BuildStep::LoadFunction { kernel, entry } => BuildStepView::LoadFunction {
                kernel,
                entry: entry@,
            },
            BuildStep::OptInSharedMemory { kernel, bytes, label } =>
                BuildStepView::OptInSharedMemory { kernel, bytes, label: label@ },
        }
    }
}

/// A kernel of a module, known by its entry point.
pub trait KernelId: Sized + Copy {
    /// The name of the kernel's entry point in the CUDA C text.
    spec fn entry_point(self) -> Seq<char>;

    /// [`KernelId::entry_point`], computed.
    fn entry(self) -> (r: &'static str)
        ensures
            r@ == self.entry_point(),
    ;
}

/// The lookups of the kernels `ks`, in order.
pub open spec fn loads<K: KernelId>(ks: Seq<K>) -> Seq<BuildStepView<K>> {
    ks.map_values(|k: K| BuildStepView::LoadFunction { kernel: k, entry: k.entry_point() })
}

/// The error of a step that failed with `text`: a refused opt-in is a launch
/// error under the step's label, any other failure a compile error.
pub open spec fn step_error<K>(step: BuildStepView<K>, text: Seq<char>) -> ErrorView {
    match step {
        BuildStepView::OptInSharedMemory { label, .. } => ErrorView::Launch(label + ": "@ + text),
        _ => ErrorView::Compile(text),
    }
}

/// The first two steps of every build.
pub open spec fn build_start<K>(source: Seq<char>) -> Seq<BuildStepView<K>> {
    seq![BuildStepView::Compile { source, arch: ARCH@ }, BuildStepView::LoadModule]
}

/// Whether the first step compiles a text that NVRTC can be given: one without a
/// NUL character, for an architecture without one.
pub open spec fn compile_ready<K>(steps: Seq<BuildStepView<K>>) -> bool {
    &&& steps.len() > 0
    &&& steps[0] matches BuildStepView::Compile { source, arch }
    &&& !source.contains('\0')
    &&& !arch.contains('\0')
}

/// The text with `KV_F16` defined ahead of it where the K/V caches hold halves.
pub open spec fn kv_source(source: Seq<char>, kv_f16: bool) -> Seq<char> {
    if kv_f16 {
        "#define KV_F16 1\n"@ + source
    } else {
        source
    }
}

/// Steps that are still to be made, first one first.
#[derive(Debug, PartialEq, Eq)]
pub struct KernelBuild<K> {
    pub steps: Vec<BuildStep<K>>,
}

impl<K> View for KernelBuild<K> {
    type V = Seq<BuildStepView<K>>;

    open spec fn view(&self) -> Seq<BuildStepView<K>> {
        self.steps@.map_values(|s: BuildStep<K>| s@)
    }
}

/// [`kv_source`], computed.
pub(crate) fn kv_text(source: &str, kv_f16: bool) -> (r: String)
    ensures
        r@ == kv_source(source@, kv_f16),
{
    if kv_f16 {
        let mut s: String = "#define KV_F16 1\n".to_owned();
        s.append(source);
        s
    } else {
        source.to_owned()
    }
}

impl<K> KernelBuild<K> {
    /// A build of `source` that so far only compiles it and loads the module.
    pub(crate) fn start(source: String) -> (r: Self)
        ensures
            r@ == build_start::<K>(source@),
    {
        let mut steps: Vec<BuildStep<K>> = Vec::new();
        steps.push(BuildStep::Compile { source, arch: ARCH });
        steps.push(BuildStep::LoadModule);
        let r = KernelBuild { steps };
        assert(r@ =~= build_start::<K>(source@));
        r
    }

    /// Adds the lookup of a kernel.
    pub(crate) fn load(&mut self, kernel: K, entry: &'static str)
        ensures
            final(self)@ == old(self)@.push(
                BuildStepView::LoadFunction { kernel, entry: entry@ },
            ),
    {
        self.steps.push(BuildStep::LoadFunction { kernel, entry });
        assert(self@ =~= old(self)@.push(BuildStepView::LoadFunction { kernel, entry: entry@ }));
    }

    /// Adds the lookups of several kernels.
    pub(crate) fn load_all(&mut self, ks: Vec<K>) where K: KernelId
        ensures
            final(self)@ == old(self)@ + loads(ks@),
    {
        let mut i: usize = 0;
        assert(self@ =~= old(self)@ + loads(ks@.take(0)));
        while i < ks.len()
            invariant
                i <= ks.len(),
                self@ == old(self)@ + loads(ks@.take(i as int)),
            decreases ks.len() - i,
        {
            let k: K = ks[i];
            self.load(k, k.entry());
            i += 1;
            assert(self@ =~= old(self)@ + loads(ks@.take(i as int)));
        }
        assert(ks@.take(ks@.len() as int) =~= ks@);
    }

    /// Adds a shared memory opt-in.
    pub(crate) fn opt_in(&mut self, kernel: K, bytes: i32, label: &'static str)
        ensures
            final(self)@ == old(self)@.push(
                BuildStepView::OptInSharedMemory { kernel, bytes, label: label@ },
            ),
    {
        self.steps.push(BuildStep::OptInSharedMemory { kernel, bytes, label });
        assert(self@ =~= old(self)@.push(
            BuildStepView::OptInSharedMemory { kernel, bytes, label: label@ },
        ));
    }

    /// The step to make next, if one is left.
    pub fn next(&self) -> (r: Option<&BuildStep<K>>)
        ensures
            match r {
                Some(s) => self@.len() > 0 && s@ == self@[0],
                None => self@.len() == 0,
            },
    {
        if self.steps.len() == 0 {
            None
        } else {
            Some(&self.steps[0])
        }
    }

    /// Takes the outcome of the step that [`KernelBuild::next`] gave. After a
    /// success the step leaves the queue. After a failure nothing is left to do,
    /// and the step's error is reported.
    pub fn report(&mut self, outcome: Result<(), String>) -> (r: Result<(), CudarcKernelError>)
        requires
            old(self)@.len() > 0,
        ensures
            match outcome {
                Ok(()) => r is Ok && final(self)@ == old(self)@.drop_first(),
                Err(text) => r matches Err(e) && e@ == step_error(old(self)@[0], text@)
                    && final(self)@.len() == 0,
            },
    {
        let step: BuildStep<K> = self.steps.remove(0);
        assert(step@ == old(self)@[0]);
        match outcome {
            Ok(()) => {
                assert(self@ =~= old(self)@.drop_first());
                Ok(())
            },
            Err(text) => {
                self.steps = Vec::new();
                match step {
                    BuildStep::OptInSharedMemory { label, .. } => {
                        let mut s: String = label.to_owned();
                        s.append(": ");
                        s.append(text.as_str());
                        Err(CudarcKernelError::Launch(s))
                    },
                    _ => Err(CudarcKernelError::Compile(text)),
                }
            },
        }
    }

    /// Whether the next step compiles a text that NVRTC can be given.
    pub fn compilable(&self) -> (r: bool)
        ensures
            r == compile_ready(self@),
    {
        if self.steps.len() == 0 {
            return false;
        }
        assert(self@[0] == self.steps@[0]@);
        match &self.steps[0] {
            BuildStep::Compile { source, arch } => !has_nul(source.as_str()) && !has_nul(*arch),
            _ => false,
        }
    }

    /// Makes the compile step at the head of the queue: hands its text and its
    /// architecture to NVRTC and takes what came back as
    /// [`KernelBuild::report_compiled`] does. Which of its outcomes that is rests
    /// on the machine's NVRTC library. On a machine without that library the call
    /// panics.
    pub fn compile(&mut self) -> (r: Result<cudarc::nvrtc::Ptx, CudarcKernelError>)
        requires
            compile_ready(old(self)@),
        ensures
            match r {
                Ok(ptx) => final(self)@ == old(self)@.drop_first(),
                Err(e) => e@ is Compile && final(self)@.len() == 0,
            },
    {
        assert(self@[0] == self.steps@[0]@);
        let compiled: Result<cudarc::nvrtc::Ptx, String> = match &self.steps[0] {
            BuildStep::Compile { source, arch } => compile_ptx(source.as_str(), *arch),
            _ => Err(String::new()),
        };
        self.report_compiled(compiled)
    }

    /// Takes what NVRTC gave for the compile step at the head of the queue: the
    /// program, or the text of its error.
    pub fn report_compiled(&mut self, compiled: Result<cudarc::nvrtc::Ptx, String>) -> (r: Result<
        cudarc::nvrtc::Ptx,
        CudarcKernelError,
    >)
        requires
            old(self)@.len() > 0,
            old(self)@[0] is Compile,
        ensures
            match compiled {
                Ok(ptx) => r == Ok::<_, CudarcKernelError>(ptx) && final(self)@
                    == old(self)@.drop_first(),
                Err(text) => r matches Err(e) && e@ == ErrorView::Compile(text@)
                    && final(self)@.len() == 0,
            },
    {
        match compiled {
            Ok(ptx) => match self.report(Ok(())) {
                Ok(()) => Ok(ptx),
                Err(e) => Err(e),
            },
            Err(text) => match self.report(Err(text)) {
                Ok(()) => Err(CudarcKernelError::Compile(String::new())),
                Err(e) => Err(e),
            },
        }
    }
}

} // verus!
