use vstd::prelude::*;

verus! {

/// Errors reported by the engine.
#[derive(Debug, Clone, Copy, PartialEq, Eq, Structural)]
pub enum EngineError {
    /// A count was zero, or the data handed in does not have the shape that
    /// the configuration asks for. Rejected at once, never retried.
    InvalidParameter,
}

} // verus!
