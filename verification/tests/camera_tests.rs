use cgmath::{perspective, Deg, Matrix4, Point3, Vector3, Vector4};
use obj_viewer::camera::{opengl_to_wgpu_matrix, Camera, CameraUniform, DEG_180_BITS, HALF_BITS,
    ONE_BITS};

fn bits_to_matrix(bits: [u32; 16]) -> Matrix4<f32> {
    let mut cols = [[0f32; 4]; 4];
    for c in 0..4 {
        for r in 0..4 {
            cols[c][r] = f32::from_bits(bits[c * 4 + r]);
        }
    }
    Matrix4::from(cols)
}

/// The camera of the reference scene: eye (0,0,1), target the origin,
/// up +y, 45 degree field of view, unit aspect, near 0.1, far 100.
fn identity_camera() -> Camera {
    Camera {
        eye: (0.0f32.to_bits(), 0.0f32.to_bits(), 1.0f32.to_bits()),
        target: (0.0f32.to_bits(), 0.0f32.to_bits(), 0.0f32.to_bits()),
        up: (0.0f32.to_bits(), 1.0f32.to_bits(), 0.0f32.to_bits()),
        aspect: 1.0f32.to_bits(),
        fovy: 45.0f32.to_bits(),
        znear: 0.1f32.to_bits(),
        zfar: 100.0f32.to_bits(),
    }
}

/// The host's matrix math for a camera, as the renderer runs it: a
/// right-handed look-at view, a perspective projection, and the
/// library's clip-space correction on top.
fn build_view_projection_matrix(camera: &Camera) -> Matrix4<f32> {
    let view = Matrix4::look_at_rh(
        Point3::new(
            f32::from_bits(camera.eye.0),
            f32::from_bits(camera.eye.1),
            f32::from_bits(camera.eye.2),
        ),
        Point3::new(
            f32::from_bits(camera.target.0),
            f32::from_bits(camera.target.1),
            f32::from_bits(camera.target.2),
        ),
        Vector3::new(
            f32::from_bits(camera.up.0),
            f32::from_bits(camera.up.1),
            f32::from_bits(camera.up.2),
        ),
    );
    let proj = perspective(
        Deg(f32::from_bits(camera.fovy)),
        f32::from_bits(camera.aspect),
        f32::from_bits(camera.znear),
        f32::from_bits(camera.zfar),
    );
    bits_to_matrix(opengl_to_wgpu_matrix()) * proj * view
}

#[test]
fn bit_constants_are_the_advertised_floats() {
    assert_eq!(ONE_BITS, 1.0f32.to_bits());
    assert_eq!(HALF_BITS, 0.5f32.to_bits());
    assert_eq!(DEG_180_BITS, 180.0f32.to_bits());
}

#[test]
fn fresh_uniform_is_the_identity_matrix() {
    let uniform = CameraUniform::new();
    let m = bits_to_matrix(*uniform.as_words());
    for c in 0..4 {
        for r in 0..4 {
            assert_eq!(m[c][r], if c == r { 1.0 } else { 0.0 });
        }
    }
}

#[test]
fn correction_matrix_halves_and_shifts_depth() {
    // The correction maps (x, y, z, w) to (x, y, 0.5 z + 0.5 w, w):
    // depth -1 goes to 0 and depth 1 stays 1.
    let correction = bits_to_matrix(opengl_to_wgpu_matrix());
    let near = correction * Vector4::new(0.25f32, -2.0, -1.0, 1.0);
    assert_eq!((near.x, near.y, near.z, near.w), (0.25, -2.0, 0.0, 1.0));
    let far = correction * Vector4::new(0.0f32, 0.0, 1.0, 1.0);
    assert_eq!((far.z, far.w), (1.0, 1.0));
}

#[test]
fn depth_range_maps_near_to_zero_and_far_to_one() {
    let camera = identity_camera();
    let m = build_view_projection_matrix(&camera);
    // The camera sits at (0,0,1) looking down -z: the world points at
    // view-space depth -near and -far lie at world z = 1 - 0.1 and
    // z = 1 - 100.
    let near_clip = m * Vector4::new(0.0f32, 0.0, 1.0 - 0.1, 1.0);
    assert!((near_clip.z / near_clip.w).abs() < 1e-4);
    let far_clip = m * Vector4::new(0.0f32, 0.0, 1.0 - 100.0, 1.0);
    assert!((far_clip.z / far_clip.w - 1.0).abs() < 1e-4);
}

#[test]
fn same_camera_builds_the_identical_matrix() {
    let a = build_view_projection_matrix(&identity_camera());
    let b = build_view_projection_matrix(&identity_camera());
    let (a, b): ([[f32; 4]; 4], [[f32; 4]; 4]) = (a.into(), b.into());
    for c in 0..4 {
        for r in 0..4 {
            assert_eq!(a[c][r].to_bits(), b[c][r].to_bits());
        }
    }
}

#[test]
fn projection_validity_is_decided_on_the_bits() {
    let camera = identity_camera();
    assert!(camera.is_valid_projection());

    let mut flat = camera;
    flat.fovy = 180.0f32.to_bits();
    assert!(!flat.is_valid_projection());
    flat.fovy = 0.0f32.to_bits();
    assert!(!flat.is_valid_projection());

    let mut swapped = camera;
    swapped.znear = swapped.zfar;
    assert!(!swapped.is_valid_projection());

    let mut squashed = camera;
    squashed.aspect = 0.0f32.to_bits();
    assert!(!squashed.is_valid_projection());

    let mut infinite = camera;
    infinite.zfar = f32::INFINITY.to_bits();
    assert!(!infinite.is_valid_projection());
}
