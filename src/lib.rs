//! A covert state inference and speculative path selection engine.
//!
//! The library holds the logic of the engine: a fixed grid of cells, the
//! classification of timing samples against calibrated thresholds, the
//! majority vote that reconstructs an approximate snapshot of the grid, and
//! the state machine that selects one winner among racing candidates.
//! Taking the timings and running candidates on threads is left to callers.

pub mod error;
pub mod explorer;
pub mod inference;
pub mod matrix;
pub mod probe;

pub use error::EngineError;
pub use explorer::{
    CandidateEvent, CandidateStatus, Directive, DistortionBubble, Outcome, RealityDistortionEngine, Scored,
    SelectionResult,
};
pub use inference::{CellEstimate, CheckedSnapshot, InferredSnapshot, MetaPrimitive, TelepathicCapabilityExtractor};
pub use matrix::{SystemPsyche, GRID_CELLS, GRID_SIDE};
pub use probe::{calibrate, classify, QuantumTelepath, SampleClass, Thresholds, TimingSample};
