//! Camera parameters and the camera uniform.
//!
//! The camera's scalars are IEEE-754 single-precision values.  This
//! module stores them as their raw bit patterns: the host converts the
//! bits to floats only at the edge where it runs the look-at and
//! perspective matrix math, and hands the finished matrix back as bits.
//! For finite positive floats the bit patterns order exactly as the
//! numbers do, so the camera's validity (field of view inside (0, 180)
//! degrees, positive aspect ratio, near plane before far plane) is
//! decided here on the bits alone.

use vstd::prelude::*;

verus! {

/// The bit pattern of 1.0f32.
pub const ONE_BITS: u32 = 0x3F80_0000;

/// The bit pattern of 0.5f32.
pub const HALF_BITS: u32 = 0x3F00_0000;

/// The bit pattern of 180.0f32.
pub const DEG_180_BITS: u32 = 0x4334_0000;

/// The smallest bit pattern of a positive infinite or NaN f32; every
/// finite positive float lies strictly below it.
pub const POS_INFINITY_BITS: u32 = 0x7F80_0000;

/// `b` is the bit pattern of a finite f32 strictly greater than zero:
/// the sign bit is clear, the value is not zero, and the exponent is
/// not all ones (infinity or NaN).
pub open spec fn finite_positive_bits(b: u32) -> bool {
    0 < b < POS_INFINITY_BITS
}

/// View parameters of the camera.  Each scalar is an f32 bit pattern;
/// the vectors are (x, y, z) triples of bit patterns.
#[derive(Clone, Copy, Debug)]
pub struct Camera {
    /// Where the camera stands before any drag input is applied.
    pub eye: (u32, u32, u32),
    /// The point the camera looks at, and the center of drag orbits.
    pub target: (u32, u32, u32),
    /// The camera's up direction.
    pub up: (u32, u32, u32),
    /// Width over height of the surface.
    pub aspect: u32,
    /// Vertical field of view, in degrees.
    pub fovy: u32,
    /// Distance of the near clip plane.
    pub znear: u32,
    /// Distance of the far clip plane.
    pub zfar: u32,
}

/// The projection parameters are valid: the field of view lies inside
/// (0, 180) degrees, the aspect ratio is positive, and the near plane
/// lies strictly before the far plane.  Because the scalars are finite
/// positive floats, the comparisons on their bit patterns decide the
/// comparisons on the numbers themselves.
pub open spec fn valid_projection(c: Camera) -> bool {
    &&& finite_positive_bits(c.fovy)
    &&& c.fovy < DEG_180_BITS
    &&& finite_positive_bits(c.aspect)
    &&& finite_positive_bits(c.znear)
    &&& finite_positive_bits(c.zfar)
    &&& c.znear < c.zfar
}

impl Camera {
    /// Whether the projection parameters are valid, decided on the bits.
    pub fn is_valid_projection(&self) -> (r: bool)
        ensures
            r == valid_projection(*self),
    {
        0 < self.fovy && self.fovy < DEG_180_BITS && 0 < self.aspect
            && self.aspect < POS_INFINITY_BITS && 0 < self.znear && self.znear < self.zfar
            && self.zfar < POS_INFINITY_BITS
    }
}

/// The 4x4 identity matrix, column-major, as f32 bit patterns.
pub open spec fn identity_matrix_bits() -> Seq<u32> {
    seq![
        ONE_BITS, 0u32, 0u32, 0u32,
        0u32, ONE_BITS, 0u32, 0u32,
        0u32, 0u32, ONE_BITS, 0u32,
        0u32, 0u32, 0u32, ONE_BITS,
    ]
}

/// The fixed clip-space correction matrix, column-major, as f32 bit
/// patterns.  It remaps the projection's depth range from the [-1, 1]
/// convention to the [0, 1] convention of the target graphics API:
/// z' = 0.5 * z + 0.5 * w, leaving x, y and w unchanged.
pub open spec fn opengl_to_wgpu_bits() -> Seq<u32> {
    seq![
        ONE_BITS, 0u32, 0u32, 0u32,
        0u32, ONE_BITS, 0u32, 0u32,
        0u32, 0u32, HALF_BITS, 0u32,
        0u32, 0u32, HALF_BITS, ONE_BITS,
    ]
}

/// The fixed clip-space correction matrix, for the host to multiply
/// onto the perspective and view matrices.
pub fn opengl_to_wgpu_matrix() -> (m: [u32; 16])
    ensures
        m@ == opengl_to_wgpu_bits(),
{
    let m: [u32; 16] = [
        ONE_BITS, 0u32, 0u32, 0u32,
        0u32, ONE_BITS, 0u32, 0u32,
        0u32, 0u32, HALF_BITS, 0u32,
        0u32, 0u32, HALF_BITS, ONE_BITS,
    ];
    proof {
        assert(m@ =~= opengl_to_wgpu_bits());
    }
    m
}

/// The view-projection matrix in the flat, GPU-uploadable form: sixteen
/// f32 bit patterns, column-major.
#[derive(Debug)]
pub struct CameraUniform {
    view_proj: [u32; 16],
}

impl CameraUniform {
    /// The stored matrix, for contracts.
    pub closed spec fn matrix(&self) -> Seq<u32> {
        self.view_proj@
    }

    /// A fresh uniform holding the identity matrix.
    pub fn new() -> (u: Self)
        ensures
            u.matrix() == identity_matrix_bits(),
    {
        let m: [u32; 16] = [
            ONE_BITS, 0u32, 0u32, 0u32,
            0u32, ONE_BITS, 0u32, 0u32,
            0u32, 0u32, ONE_BITS, 0u32,
            0u32, 0u32, 0u32, ONE_BITS,
        ];
        proof {
            assert(m@ =~= identity_matrix_bits());
        }
        CameraUniform { view_proj: m }
    }

    /// Store the view-projection matrix the host computed for the
    /// current camera parameters.
    pub fn update_view_proj(&mut self, view_proj: [u32; 16])
        ensures
            final(self).matrix() == view_proj@,
    {
        self.view_proj = view_proj;
    }

    /// The matrix to upload, word by word.
    pub fn as_words(&self) -> (m: &[u32; 16])
        ensures
            m@ == self.matrix(),
    {
        &self.view_proj
    }
}

} // verus!
