//! The per-canvas render state and its frame-to-frame operations.
//!
//! The state owns the verified side of what the host keeps on the GPU:
//! the surface dimensions, the camera parameters, the camera uniform,
//! the accumulated drag input, and the loaded model.  `resize` and
//! `update` decide when the host must reconfigure the surface;
//! `render_plan` and `retry_plan` decide what one frame does for each
//! outcome of acquiring the surface texture.
//!
//! Drag input maps to camera movement deterministically: the state
//! accumulates the drag deltas as a yaw/pitch pair of orbit angles (in
//! degrees, saturating at the integer bounds), and the host rotates the
//! camera's eye around its target by those angles before it computes
//! the view-projection matrix.  A zero delta leaves the orbit angles,
//! and with them the camera, unchanged.

use vstd::prelude::*;

use crate::camera::{Camera, CameraUniform, identity_matrix_bits};
use crate::errors::{InitError, SurfaceError};
use crate::model::Model;

verus! {

/// `a + d`, clamped into `i64`.
pub open spec fn spec_sat_add(a: i64, d: i64) -> i64 {
    if a + d > i64::MAX {
        i64::MAX
    } else if a + d < i64::MIN {
        i64::MIN
    } else {
        (a + d) as i64
    }
}

/// Saturating addition of a drag delta onto an orbit angle.
fn sat_add(a: i64, d: i64) -> (r: i64)
    ensures
        r == spec_sat_add(a, d),
{
    if d >= 0 {
        if a <= i64::MAX - d {
            a + d
        } else {
            i64::MAX
        }
    } else {
        if a >= i64::MIN - d {
            a + d
        } else {
            i64::MIN
        }
    }
}

/// The verified side of the per-canvas GPU state.
#[derive(Debug)]
pub struct RenderState {
    /// Width the surface is configured with: always the last canvas
    /// width passed to `resize` or `update`.
    pub width: u32,
    /// Height the surface is configured with: always the last canvas
    /// height passed to `resize` or `update`.
    pub height: u32,
    /// The camera parameters before drag input is applied.
    pub camera: Camera,
    /// The view-projection matrix uploaded to the camera uniform
    /// buffer.
    pub uniform: CameraUniform,
    /// Accumulated horizontal drag, as whole degrees of orbit around
    /// the camera target.
    pub yaw: i64,
    /// Accumulated vertical drag, as whole degrees of orbit around the
    /// camera target.
    pub pitch: i64,
    /// The loaded model, once the load completed.
    pub model: Option<Model>,
}

/// Whether configuring the surface to `width x height` changes it: a
/// resize to the current size must not reconfigure.
pub open spec fn spec_resize_reconfigures(s: RenderState, width: u32, height: u32) -> bool {
    s.width != width || s.height != height
}

/// The state after `resize(width, height)`: only the dimensions change.
pub open spec fn spec_resized(s: RenderState, width: u32, height: u32) -> RenderState {
    RenderState {
        width,
        height,
        camera: s.camera,
        uniform: s.uniform,
        yaw: s.yaw,
        pitch: s.pitch,
        model: s.model,
    }
}

/// The state after `update(width, height, delta)`: the dimensions
/// follow the canvas and the drag delta is folded into the orbit
/// angles; camera parameters, uniform and model stay.
pub open spec fn spec_updated(s: RenderState, width: u32, height: u32, delta: (i32, i32)) -> RenderState {
    RenderState {
        width,
        height,
        camera: s.camera,
        uniform: s.uniform,
        yaw: spec_sat_add(s.yaw, delta.0 as i64),
        pitch: spec_sat_add(s.pitch, delta.1 as i64),
        model: s.model,
    }
}

impl RenderState {
    /// Every mesh of the loaded model indexes into its material list.
    pub open spec fn wf(&self) -> bool {
        match self.model {
            Some(m) => m.wf(),
            None => true,
        }
    }

    /// A fresh state for a surface of `width x height`: identity
    /// uniform, no drag input, no model yet.
    pub fn new(width: u32, height: u32, camera: Camera) -> (s: Self)
        ensures
            s.width == width,
            s.height == height,
            s.camera == camera,
            s.uniform.matrix() == identity_matrix_bits(),
            s.yaw == 0,
            s.pitch == 0,
            s.model is None,
            s.wf(),
    {
        RenderState {
            width,
            height,
            camera,
            uniform: CameraUniform::new(),
            yaw: 0,
            pitch: 0,
            model: None,
        }
    }

    /// Publish the loaded model into the state.
    pub fn set_model(&mut self, model: Model)
        requires
            model.wf(),
        ensures
            final(self).model == Some(model),
            final(self).width == old(self).width,
            final(self).height == old(self).height,
            final(self).camera == old(self).camera,
            final(self).uniform == old(self).uniform,
            final(self).yaw == old(self).yaw,
            final(self).pitch == old(self).pitch,
            final(self).wf(),
    {
        self.model = Some(model);
    }

    /// Follow a canvas resize.  Returns whether the host must
    /// reconfigure the surface: exactly when the size changed, so a
    /// second call with the same size is a no-op.
    pub fn resize(&mut self, width: u32, height: u32) -> (reconfigure: bool)
        ensures
            *final(self) == spec_resized(*old(self), width, height),
            reconfigure == spec_resize_reconfigures(*old(self), width, height),
    {
        let reconfigure = self.width != width || self.height != height;
        self.width = width;
        self.height = height;
        reconfigure
    }

    /// Apply one tick's queued input: follow the canvas size and fold
    /// the drag delta into the orbit angles.  Returns whether the host
    /// must reconfigure the surface.  After this the host recomputes
    /// the view-projection matrix for the updated orbit and stores it
    /// with [`RenderState::set_view_proj`].
    pub fn update(&mut self, width: u32, height: u32, cursor_to: (i32, i32)) -> (reconfigure:
        bool)
        ensures
            *final(self) == spec_updated(*old(self), width, height, cursor_to),
            reconfigure == spec_resize_reconfigures(*old(self), width, height),
    {
        let reconfigure = self.width != width || self.height != height;
        self.width = width;
        self.height = height;
        self.yaw = sat_add(self.yaw, cursor_to.0 as i64);
        self.pitch = sat_add(self.pitch, cursor_to.1 as i64);
        reconfigure
    }

    /// Store the view-projection matrix the host computed for the
    /// current camera and orbit angles, for the uniform-buffer write.
    pub fn set_view_proj(&mut self, view_proj: [u32; 16])
        ensures
            final(self).uniform.matrix() == view_proj@,
            final(self).width == old(self).width,
            final(self).height == old(self).height,
            final(self).camera == old(self).camera,
            final(self).yaw == old(self).yaw,
            final(self).pitch == old(self).pitch,
            final(self).model == old(self).model,
    {
        self.uniform.update_view_proj(view_proj);
    }
}

/// Law: a resize to the size the surface already has reconfigures
/// nothing — two consecutive `resize` calls with the same dimensions
/// reconfigure the surface at most once.
pub proof fn lemma_resize_idempotent(s: RenderState, width: u32, height: u32)
    ensures
        !spec_resize_reconfigures(spec_resized(s, width, height), width, height),
{
}

/// Law: the drag mapping is reversible under a zero delta — an update
/// that carries no drag leaves the orbit angles, the camera parameters
/// and the uniform exactly as they were.
pub proof fn lemma_zero_delta_preserves_camera(s: RenderState, width: u32, height: u32)
    ensures
        spec_updated(s, width, height, (0i32, 0i32)).yaw == s.yaw,
        spec_updated(s, width, height, (0i32, 0i32)).pitch == s.pitch,
        spec_updated(s, width, height, (0i32, 0i32)).camera == s.camera,
        spec_updated(s, width, height, (0i32, 0i32)).uniform == s.uniform,
{
}

/// What one frame does, decided from the outcome of acquiring the
/// surface texture.
#[derive(Clone, Copy, PartialEq, Eq, Structural, Debug)]
pub enum RenderPlan {
    /// A frame was acquired: record one render pass, submit, present.
    Draw,
    /// The surface is lost or outdated: reconfigure it and acquire
    /// once more, then decide with [`retry_plan`].
    ReconfigureRetry,
    /// Acquisition timed out: log and drop this frame.
    DropFrame,
    /// The GPU is out of memory: stop the render loop.
    Abort,
}

/// What the one retry after a reconfigure does.  There is no second
/// retry: a surface error here propagates.
#[derive(Clone, Copy, PartialEq, Eq, Structural, Debug)]
pub enum RetryPlan {
    /// The retried acquisition succeeded: draw as usual.
    Draw,
    /// The retry timed out: log and drop this frame.
    DropFrame,
    /// The retry failed again: propagate the error to the caller.
    Fail(SurfaceError),
    /// The GPU is out of memory: stop the render loop.
    Abort,
}

/// The plan for a first acquisition outcome: lost and outdated surfaces
/// are reconfigured and retried, a timeout drops the frame, and memory
/// exhaustion aborts the loop.
pub open spec fn spec_render_plan(acquired: Result<(), SurfaceError>) -> RenderPlan {
    match acquired {
        Ok(_) => RenderPlan::Draw,
        Err(SurfaceError::Lost) => RenderPlan::ReconfigureRetry,
        Err(SurfaceError::Outdated) => RenderPlan::ReconfigureRetry,
        Err(SurfaceError::Timeout) => RenderPlan::DropFrame,
        Err(SurfaceError::OutOfMemory) => RenderPlan::Abort,
    }
}

/// The plan for the retried acquisition: no second reconfigure — a
/// lost or outdated surface now propagates as a failure.
pub open spec fn spec_retry_plan(acquired: Result<(), SurfaceError>) -> RetryPlan {
    match acquired {
        Ok(_) => RetryPlan::Draw,
        Err(SurfaceError::Timeout) => RetryPlan::DropFrame,
        Err(SurfaceError::OutOfMemory) => RetryPlan::Abort,
        Err(e) => RetryPlan::Fail(e),
    }
}

/// Decide what this frame does from the first acquisition outcome.
pub fn render_plan(acquired: &Result<(), SurfaceError>) -> (p: RenderPlan)
    ensures
        p == spec_render_plan(*acquired),
{
    match acquired {
        Ok(_) => RenderPlan::Draw,
        Err(SurfaceError::Lost) => RenderPlan::ReconfigureRetry,
        Err(SurfaceError::Outdated) => RenderPlan::ReconfigureRetry,
        Err(SurfaceError::Timeout) => RenderPlan::DropFrame,
        Err(SurfaceError::OutOfMemory) => RenderPlan::Abort,
    }
}

/// Decide what the one retry after a reconfigure does.
pub fn retry_plan(acquired: &Result<(), SurfaceError>) -> (p: RetryPlan)
    ensures
        p == spec_retry_plan(*acquired),
{
    match acquired {
        Ok(_) => RetryPlan::Draw,
        Err(SurfaceError::Timeout) => RetryPlan::DropFrame,
        Err(SurfaceError::OutOfMemory) => RetryPlan::Abort,
        Err(e) => RetryPlan::Fail(*e),
    }
}

/// Law: a frame reconfigures the surface exactly when the first
/// acquisition reports the surface lost or outdated, and never
/// otherwise.
pub proof fn lemma_reconfigure_exactly_on_lost_or_outdated(acquired: Result<(), SurfaceError>)
    ensures
        spec_render_plan(acquired) == RenderPlan::ReconfigureRetry <==> (acquired == Err::<
            (),
            SurfaceError,
        >(SurfaceError::Lost) || acquired == Err::<(), SurfaceError>(SurfaceError::Outdated)),
{
}

/// Law: a lost surface is followed by exactly one reconfigure-and-retry
/// attempt, which then either draws (when the retried acquisition
/// succeeds) or propagates without reconfiguring again — no retry plan
/// asks for a reconfigure.
pub proof fn lemma_lost_surface_retries_once(
    first: Result<(), SurfaceError>,
    second: Result<(), SurfaceError>,
)
    requires
        first == Err::<(), SurfaceError>(SurfaceError::Lost),
    ensures
        spec_render_plan(first) == RenderPlan::ReconfigureRetry,
        spec_retry_plan(second) == RetryPlan::Draw <==> second is Ok,
        second == Err::<(), SurfaceError>(SurfaceError::Lost) ==> spec_retry_plan(second)
            == RetryPlan::Fail(SurfaceError::Lost),
        second == Err::<(), SurfaceError>(SurfaceError::Outdated) ==> spec_retry_plan(second)
            == RetryPlan::Fail(SurfaceError::Outdated),
{
}

/// Pick the surface format: the first format the adapter supports.
/// An adapter that reports no format at all cannot drive the surface.
pub fn first_supported_format<T>(formats: &Vec<T>) -> (r: Result<&T, InitError>)
    ensures
        r is Ok <==> formats@.len() > 0,
        r is Ok ==> *(r->Ok_0) == formats@[0],
        r is Err ==> r->Err_0 == InitError::GpuAdapterUnavailable,
{
    if formats.len() > 0 {
        Ok(&formats[0])
    } else {
        Err(InitError::GpuAdapterUnavailable)
    }
}

} // verus!
