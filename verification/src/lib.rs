//! Launch planning for the CUDA kernels of the inference runtime.
//!
//! The library says what has to be compiled, loaded and launched, with which
//! grids, shared memory and arguments, and refuses sizes that a kernel cannot
//! take. Plans are values: the caller makes each step with the CUDA driver and
//! reports how it went.

pub mod attention;
pub mod attention_score_mma;
pub mod calls;
pub mod deltanet;
pub mod elementwise;
pub mod embedding;
pub mod error;
pub mod geometry;
pub mod launch;
pub mod lora;
pub mod module;
pub mod nvrtc;
pub mod sources;
pub mod text;

pub use attention::{AttentionKernels, SPLITGQA_QG_ROWS_MAX_P};
pub use attention_score_mma::AttentionScoreMmaKernels;
pub use deltanet::{DeltanetKernels, HalfStateFmt};
pub use elementwise::ElementwiseKernels;
pub use embedding::EmbeddingDequantKernels;
pub use error::CudarcKernelError;
pub use lora::{LoraDecodeKernels, QvLoraGpuCudarc};
