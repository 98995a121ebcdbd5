//! The run-time compiler for CUDA C.

use vstd::prelude::*;

verus! {

/// `cudarc::nvrtc::Ptx`, a compiled program. Nothing is known of what it holds.
#[verifier::external_type_specification]
#[verifier::external_body]
pub struct ExPtx(cudarc::nvrtc::Ptx);

/// Calls `cudarc::nvrtc::compile_ptx_with_opts` on the CUDA C text `src`, with
/// `--gpu-architecture=arch` as the only option. An error comes back as its text.
///
/// A text or an architecture with a NUL character makes the call panic, so both
/// are left out. Nothing is claimed of the result: it rests on the NVRTC library
/// that the machine has, which the call loads when it is first made (and without
/// which it panics).
#[verifier::external_body]
pub(crate) fn compile_ptx(src: &str, arch: &'static str) -> (r: Result<cudarc::nvrtc::Ptx, String>)
    requires
        !src@.contains('\0'),
        !arch@.contains('\0'),
{
    cudarc::nvrtc::compile_ptx_with_opts(
        src,
        cudarc::nvrtc::CompileOptions { arch: Some(arch), ..Default::default() },
    ).map_err(|e| format!("{e}"))
}

} // verus!
