//! Error kinds reported by the engine.

use vstd::prelude::*;

verus! {

/// Why an engine operation refused to produce a result.
#[derive(Clone, Copy, Debug, PartialEq, Eq, Structural)]
pub enum EngineError {
    /// A configuration scalar lies outside its valid range.
    InvalidParameter,
    /// The buffer is shorter than the operation's analysis window.
    InsufficientSamples,
    /// The host transform primitive reported an internal failure.
    TransformFailure,
}

} // verus!
