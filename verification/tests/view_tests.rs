use manifolds::binding_structs::{
    Geometry, Info, KeyCode, MouseState, rotate_between, DELTA_DEFAULT, FOCAL_LENGTH_DEFAULT,
    MAX_ITERATIONS_DEFAULT, MOVE_DELTA,
};
use manifolds::manifold::shapes4d::{Hyperplane, AMOUNT};
use manifolds::manifold::{Manifold, EPSILON, NUDGE};
use manifolds::vecs::Vec4;
use nalgebra::Vector4;

fn v4(x: f32, y: f32, z: f32, w: f32) -> Vec4 {
    Vec4 { x: x.to_bits(), y: y.to_bits(), z: z.to_bits(), w: w.to_bits() }
}

fn f4(v: Vec4) -> [f32; 4] {
    [
        f32::from_bits(v.x),
        f32::from_bits(v.y),
        f32::from_bits(v.z),
        f32::from_bits(v.w),
    ]
}

fn close4(a: Vec4, b: Vec4, tol: f32) -> bool {
    let a = f4(a);
    let b = f4(b);
    (0..4).all(|i| (a[i] - b[i]).abs() <= tol)
}

#[test]
fn the_fixed_constants_are_the_advertised_values() {
    assert_eq!(EPSILON, 0.01f32.to_bits());
    assert_eq!(NUDGE, 0.0001f32.to_bits());
    assert_eq!(AMOUNT, 0.1f32.to_bits());
    assert_eq!(MOVE_DELTA, 0.2f32.to_bits());
    assert_eq!(FOCAL_LENGTH_DEFAULT, 0.5f32.to_bits());
    assert_eq!(DELTA_DEFAULT, 0.02f32.to_bits());
    assert_eq!(MAX_ITERATIONS_DEFAULT, 2000.0f32.to_bits());
}

#[test]
fn default_view_state() {
    let info = Info::default();
    assert_eq!(info.x, v4(1.0, 0.0, 0.0, 0.0));
    assert_eq!(info.y, v4(0.0, 1.0, 0.0, 0.0));
    assert_eq!(info.z, v4(0.0, 0.0, 1.0, 0.0));
    assert_eq!(info.p, v4(0.0, 0.0, 0.0, 0.0));
    assert_eq!(f32::from_bits(info.focal_length), 0.5);
    assert_eq!(f32::from_bits(info.px_size), 1.0);
    assert_eq!(f32::from_bits(info.delta), 0.02);
    assert_eq!(f32::from_bits(info.max_iterations), 2000.0);
}

#[test]
fn rotation_by_theta_then_minus_theta_restores_the_pair() {
    let theta = std::f32::consts::FRAC_PI_4;
    let mut x = v4(1.0, 0.0, 0.0, 0.0);
    let mut z = v4(0.0, 0.0, 1.0, 0.0);
    rotate_between(&mut x, &mut z, theta.to_bits());
    rotate_between(&mut x, &mut z, (-theta).to_bits());
    assert!(close4(x, v4(1.0, 0.0, 0.0, 0.0), 1e-6), "{:?}", f4(x));
    assert!(close4(z, v4(0.0, 0.0, 1.0, 0.0), 1e-6), "{:?}", f4(z));
}

#[test]
fn rotation_moves_the_pair_before_the_inverse_is_applied() {
    let theta = std::f32::consts::FRAC_PI_4;
    let mut x = v4(1.0, 0.0, 0.0, 0.0);
    let mut z = v4(0.0, 0.0, 1.0, 0.0);
    rotate_between(&mut x, &mut z, theta.to_bits());
    let xf = f4(x);
    let half = std::f32::consts::FRAC_1_SQRT_2;
    assert!((xf[0] - half).abs() < 1e-6 && (xf[2] - half).abs() < 1e-6, "{:?}", xf);
}

#[test]
fn steering_by_drag_angles_round_trips() {
    let theta = 0.3f32;
    let mut info = Info::default();
    info.rotate_around_y(theta.to_bits(), 0.0f32.to_bits());
    info.rotate_around_y((-theta).to_bits(), 0.0f32.to_bits());
    assert!(close4(info.x, v4(1.0, 0.0, 0.0, 0.0), 1e-6), "{:?}", f4(info.x));
    assert!(close4(info.z, v4(0.0, 0.0, 1.0, 0.0), 1e-6), "{:?}", f4(info.z));
}

#[test]
fn reorienting_the_canonical_basis_changes_nothing() {
    let mut info = Info::default();
    let (x, y, z) = (info.x, info.y, info.z);
    info.reorient();
    assert_eq!(info.x, x);
    assert_eq!(info.y, y);
    assert_eq!(info.z, z);
}

#[test]
fn reorienting_an_orthonormal_basis_is_a_fixed_point() {
    let theta = 0.7f32;
    let mut info = Info::default();
    info.rotate_around_y(theta.to_bits(), 0.0f32.to_bits());
    let (x, y, z) = (info.x, info.y, info.z);
    info.reorient();
    assert!(close4(info.x, x, 1e-6));
    assert!(close4(info.y, y, 1e-6));
    assert!(close4(info.z, z, 1e-6));
}

#[test]
fn reorient_matches_hardware_gram_schmidt() {
    let mut info = Info::default();
    info.x = v4(1.0, 0.25, -0.5, 0.125);
    info.y = v4(0.0, 1.0, 0.5, -0.25);
    info.z = v4(0.5, 0.0, 1.0, 0.75);
    info.reorient();

    let mut x = Vector4::new(1.0f32, 0.25, -0.5, 0.125);
    let mut y = Vector4::new(0.0f32, 1.0, 0.5, -0.25);
    let mut z = Vector4::new(0.5f32, 0.0, 1.0, 0.75);
    x = x.normalize();
    y = y.normalize();
    z = z.normalize();
    y = y - x * x.dot(&y);
    y = y.normalize();
    z = z - x * x.dot(&z) - y * y.dot(&z);
    z = z.normalize();

    assert_eq!(f4(info.x), [x.x, x.y, x.z, x.w]);
    assert_eq!(f4(info.y), [y.x, y.y, y.z, y.w]);
    assert_eq!(f4(info.z), [z.x, z.y, z.z, z.w]);
}

#[test]
fn movement_advances_position_and_rederives_the_axis() {
    let mut info = Info::default();
    let manifold = Manifold::Hyperplane(Hyperplane);
    info.movement(KeyCode::D, &manifold);
    assert_eq!(info.p, v4(0.2, 0.0, 0.0, 0.0));
    assert_eq!(info.x, v4(1.0, 0.0, 0.0, 0.0));
    assert_eq!(info.y, v4(0.0, 1.0, 0.0, 0.0));

    info.movement(KeyCode::A, &manifold);
    assert_eq!(f4(info.p), [0.0, 0.0, 0.0, 0.0]);
    // Moving backwards flips the derived ray twice: the axis is preserved
    // (up to the sign of zero, which the scaling by -1 flips).
    assert_eq!(f4(info.x), [1.0, 0.0, 0.0, 0.0]);
}

#[test]
fn movement_ignores_unbound_keys() {
    let mut info = Info::default();
    let before = info;
    let manifold = Manifold::Hyperplane(Hyperplane);
    info.movement(KeyCode::T, &manifold);
    assert_eq!(info, before);
}

#[test]
fn set_sizes_stores_the_viewport() {
    let mut info = Info::default();
    info.set_sizes(800.0f32.to_bits(), 600.0f32.to_bits());
    assert_eq!(f32::from_bits(info.width), 800.0);
    assert_eq!(f32::from_bits(info.height), 600.0);
}

#[test]
fn info_bytes_layout() {
    let mut info = Info::default();
    info.set_sizes(800.0f32.to_bits(), 600.0f32.to_bits());
    let elapsed = 1234.0f32;
    let b = info.get_bytes(elapsed.to_bits());
    assert_eq!(b.len(), 104);
    assert_eq!(&b[0..4], &1.0f32.to_le_bytes());
    assert_eq!(&b[20..24], &1.0f32.to_le_bytes());
    assert_eq!(&b[40..44], &1.0f32.to_le_bytes());
    assert_eq!(&b[48..64], &[0u8; 16][..]);
    assert_eq!(&b[64..68], &0.5f32.to_le_bytes());
    assert_eq!(&b[68..72], &1.0f32.to_le_bytes());
    assert_eq!(&b[72..76], &800.0f32.to_le_bytes());
    assert_eq!(&b[76..80], &600.0f32.to_le_bytes());
    assert_eq!(&b[80..84], &0.02f32.to_le_bytes());
    assert_eq!(&b[84..88], &2000.0f32.to_le_bytes());
    assert_eq!(&b[88..92], &1234.0f32.to_le_bytes());
    assert_eq!(&b[92..104], &[0u8; 12][..]);
}

#[test]
fn drag_delta_needs_left_button_and_two_positions() {
    let mut mouse = MouseState::default();
    assert!(mouse.get_mouse_drag_delta().is_none());

    mouse.position = Some((10.0f32.to_bits(), 4.0f32.to_bits()));
    mouse.prev_position = Some((7.0f32.to_bits(), 6.0f32.to_bits()));
    assert!(mouse.get_mouse_drag_delta().is_none());

    mouse.left_down = true;
    let (dx, dy) = mouse.get_mouse_drag_delta().unwrap();
    assert_eq!(f32::from_bits(dx), 3.0);
    assert_eq!(f32::from_bits(dy), -2.0);

    mouse.prev_position = None;
    assert!(mouse.get_mouse_drag_delta().is_none());
}

#[test]
fn geometry_record_serializes_the_identifier() {
    let g = Geometry::Function(7);
    let b = g.get_bytes();
    assert_eq!(b.len(), 16);
    assert_eq!(&b[0..4], &[0, 0, 0, 0]);
    assert_eq!(&b[4..8], &7u32.to_le_bytes());
    assert_eq!(&b[8..16], &[0u8; 8][..]);
}
