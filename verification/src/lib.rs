//! A verified model of a multi-pass GPU feedback render pipeline.
//!
//! The pipeline loads a still image into a feedback texture, runs it each
//! tick through a chain of shader passes (a field pass, then a sort pass),
//! copies the final pass's output back into the feedback texture, and can
//! capture the feedback texture to host memory before the passes mutate it.
//!
//! The library verifies the orchestration logic: binding-slot layout
//! derivation, the per-tick command order, the uniform block's wire format,
//! the feedback-copy invariant, and the capture ordering hazard. The
//! graphics device itself is represented by an explicit sequential command
//! model; an unverified front end drives a real device with the same
//! decisions.

pub mod capture;
pub mod encoding;
pub mod geometry;
pub mod gpu;
pub mod orchestrator;
pub mod render;
pub mod uniforms;

use vstd::prelude::*;

verus! {

/// The construction failure that arises inside the pipeline logic itself.
/// The other construction failures — a missing asset, a shader that does
/// not compile — happen in the unverified front end before the library is
/// reached.
#[derive(Debug, Clone, Copy, PartialEq, Eq, Structural)]
pub enum ConstructionError {
    /// The fragment shader declares its binding slots in an order that is
    /// inconsistent with the inputs handed to the pass.
    BindingMismatch,
}

/// Failures of a frame capture; these are isolated from the render loop.
#[derive(Debug, Clone, Copy, PartialEq, Eq, Structural)]
pub enum CaptureError {
    /// The snapshot's enqueue was never submitted to the queue, so its
    /// staging memory never became host visible.
    NotSubmitted,
    /// No snapshot was taken since the last save.
    NothingCaptured,
}

} // verus!
