//! Verified core of a browser-hosted 3D model viewer.
//!
//! The library covers the render-state lifecycle and the asset-to-GPU
//! pipeline: deferred one-shot initialization of the GPU state, the
//! model/material/texture loading pipeline, camera bookkeeping, and the
//! per-frame resize/update/render decisions.  GPU submission, networking
//! and the floating-point matrix math are performed by the host around
//! this crate; every decision the host acts on is computed and proved
//! here.

pub mod camera;
pub mod errors;
pub mod lifecycle;
pub mod model;
pub mod resources;
pub mod state;
pub mod texture;
