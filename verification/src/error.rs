//! What can go wrong.
use ort::session::builder::SessionBuilder;
use vstd::prelude::*;

verus! {

/// An error of the recogniser.
#[derive(Debug)]
pub enum ModelError {
    /// The model directory does not hold what is needed.
    Config(String),
    /// A model handed back something unusable.
    Model(String),
    /// ONNX Runtime did not accept a session option.
    Builder(ort::Error<SessionBuilder>),
    /// Another failure of ONNX Runtime.
    Runtime(ort::Error),
}

}
