//! Decisions and bookkeeping of a Parakeet TDT speech recogniser on ONNX Runtime.

pub mod decode;
pub mod encoder;
pub mod error;
pub mod execution;
pub mod files;
pub mod loading;
pub mod logits;
pub mod model_tdt;
pub mod pretrained;
pub mod runtime;
pub mod tensor;
pub mod text;
