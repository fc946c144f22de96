//! The error taxonomy of the viewer.
//!
//! Asset-pipeline errors abort the whole load (no partial model is ever
//! published); initialization errors leave the lifecycle uninitialized;
//! per-frame surface errors are handled by the render planner.

use vstd::prelude::*;

verus! {

/// Why a load of a model, material or texture failed.  Any such failure
/// aborts the whole load operation.
#[derive(Clone, Copy, PartialEq, Eq, Structural, Debug)]
pub enum LoadError {
    /// A fetch failed or returned a non-success status.
    Network,
    /// A fetched payload (an image, text) could not be decoded.
    Decode,
    /// A geometry or material description is malformed.
    Parse,
}

/// Why GPU initialization failed.  The lifecycle stays uninitialized.
#[derive(Clone, Copy, PartialEq, Eq, Structural, Debug)]
pub enum InitError {
    /// No compatible adapter, device, or surface format was available.
    GpuAdapterUnavailable,
}

/// Why acquiring the next surface frame failed.
#[derive(Clone, Copy, PartialEq, Eq, Structural, Debug)]
pub enum SurfaceError {
    /// The surface was lost; reconfigure and retry once.
    Lost,
    /// The surface no longer matches the canvas; reconfigure and retry once.
    Outdated,
    /// Acquisition timed out; the frame is dropped.
    Timeout,
    /// The GPU is out of memory; the render loop must stop.
    OutOfMemory,
}

} // verus!
