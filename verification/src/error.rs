//! The error type of kernel operations.

use vstd::prelude::*;

verus! {

/// Error type for kernel operations.
#[derive(Debug, PartialEq, Eq)]
pub enum CudarcKernelError {
    /// CUDA context creation failed.
    CudaInit(String),
    /// NVRTC compilation failed.
    Compile(String),
    /// Kernel launch failed.
    Launch(String),
    /// Caller passed an invalid argument.
    InvalidArg(String),
}

/// The model of a [`CudarcKernelError`]: its variant and its text.
#[verifier::ext_equal]
pub enum ErrorView {
    CudaInit(Seq<char>),
    Compile(Seq<char>),
    Launch(Seq<char>),
    InvalidArg(Seq<char>),
}

impl View for CudarcKernelError {
    type V = ErrorView;

    open spec fn view(&self) -> ErrorView {
        match self {
            CudarcKernelError::CudaInit(s) => ErrorView::CudaInit(s@),
            CudarcKernelError::Compile(s) => ErrorView::Compile(s@),
            CudarcKernelError::Launch(s) => ErrorView::Launch(s@),
            CudarcKernelError::InvalidArg(s) => ErrorView::InvalidArg(s@),
        }
    }
}

/// What an error says to a reader: the failed operation, a colon, the detail.
pub open spec fn error_text(e: ErrorView) -> Seq<char> {
    match e {
        ErrorView::CudaInit(s) => "CUDA init failed: "@ + s,
        ErrorView::Compile(s) => "NVRTC compile failed: "@ + s,
        ErrorView::Launch(s) => "kernel launch failed: "@ + s,
        ErrorView::InvalidArg(s) => "invalid argument: "@ + s,
    }
}

impl CudarcKernelError {
    /// The text of the error, for a reader.
    pub fn message(&self) -> (r: String)
        ensures
            r@ == error_text(self@),
    {
        let (head, detail): (&'static str, &String) = match self {
            CudarcKernelError::CudaInit(s) => ("CUDA init failed: ", s),
            CudarcKernelError::Compile(s) => ("NVRTC compile failed: ", s),
            CudarcKernelError::Launch(s) => ("kernel launch failed: ", s),
            CudarcKernelError::InvalidArg(s) => ("invalid argument: ", s),
        };
        let mut out: String = head.to_owned();
        out.append(detail.as_str());
        out
    }
}

} // verus!
