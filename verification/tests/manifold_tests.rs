use manifolds::manifold::{Manifold, Point};
use manifolds::manifold::shapes3d::{ExtrudedShape, Shape3D, Sphere, Torus};
use manifolds::manifold::shapes4d::{Ditorus, Hyperplane, Hypersphere, Hypersphube};
use manifolds::binding_structs::KeyCode;
use manifolds::vecs::{Vec3, Vec4};
use nalgebra::Vector4;

fn v4(x: f32, y: f32, z: f32, w: f32) -> Vec4 {
    Vec4 { x: x.to_bits(), y: y.to_bits(), z: z.to_bits(), w: w.to_bits() }
}

fn v3(x: f32, y: f32, z: f32) -> Vec3 {
    Vec3 { x: x.to_bits(), y: y.to_bits(), z: z.to_bits() }
}

fn f4(v: Vec4) -> [f32; 4] {
    [
        f32::from_bits(v.x),
        f32::from_bits(v.y),
        f32::from_bits(v.z),
        f32::from_bits(v.w),
    ]
}

fn close4(a: Vec4, b: Vec4, tol: f32) -> bool {
    let a = f4(a);
    let b = f4(b);
    (0..4).all(|i| (a[i] - b[i]).abs() <= tol)
}

fn all_manifolds() -> Vec<Manifold> {
    vec![
        Manifold::Hyperplane(Hyperplane),
        Manifold::Hypersphere(Hypersphere::new(3.0f32.to_bits())),
        Manifold::Hypersphube(Hypersphube::new(3.0f32.to_bits(), 6.0f32.to_bits())),
        Manifold::Ditorus(Ditorus::new(
            4.0f32.to_bits(),
            2.0f32.to_bits(),
            1.0f32.to_bits(),
        )),
    ]
}

#[test]
fn test_all_manifolds() {
    for manifold in all_manifolds() {
        println!("\n{}:", manifold.description());

        for i in -5..5 {
            for j in -5..5 {
                for k in -5..5 {
                    let pos = v4(i as f32, j as f32, k as f32, 0.0);

                    let pos2 = manifold.project_onto(pos);

                    println!("    {:?} => {:?}", f4(pos), f4(pos2));

                    assert!(manifold.is_on_curve(pos2).unwrap());
                }
            }
        }
    }
}

#[test]
fn hyperplane_projects_and_contains() {
    let h = Hyperplane;
    assert_eq!(h.project_onto(v4(1.0, 2.0, 3.0, 4.0)), v4(1.0, 2.0, 3.0, 0.0));
    assert!(h.is_on_curve(v4(1.0, 2.0, 3.0, 0.0)));
}

#[test]
fn hypersphere_projects_opposite_point_to_near_pole() {
    let s = Hypersphere::new(2.0f32.to_bits());
    assert_eq!(f4(s.center), [0.0, 0.0, 0.0, 2.0]);
    let p = s.project_onto(v4(0.0, 0.0, 0.0, 0.0));
    assert_eq!(p, v4(0.0, 0.0, 0.0, 0.0));
}

#[test]
fn ditorus_keybind_adjusts_exactly_one_radius() {
    let mut d = Ditorus::new(10.0f32.to_bits(), 8.0f32.to_bits(), 3.0f32.to_bits());
    let center = d.center;
    d.change_on_keybinds(&KeyCode::T);
    assert_eq!(d.radius_major_major, (10.0f32 + 0.1f32).to_bits());
    assert_eq!(f32::from_bits(d.radius_major_major), 10.1);
    assert_eq!(d.radius_major_minor, 8.0f32.to_bits());
    assert_eq!(d.radius_minor_minor, 3.0f32.to_bits());
    assert_eq!(d.center, center);

    d.change_on_keybinds(&KeyCode::J);
    assert_eq!(d.radius_minor_minor, (3.0f32 - 0.1f32).to_bits());
    assert_eq!(d.radius_major_minor, 8.0f32.to_bits());

    let before = d;
    d.change_on_keybinds(&KeyCode::W);
    assert_eq!(d, before);
}

#[test]
fn extruded_sphere_passes_third_coordinate_through() {
    let e = ExtrudedShape(Shape3D::Sphere(Sphere::new(5.0f32.to_bits())));
    let projected = e.project_onto(v4(0.0, 0.0, 7.0, 0.0));

    let inner = Sphere::new(5.0f32.to_bits()).project_onto(v3(0.0, 0.0, 0.0));
    let expected = Vec4 { x: inner.x, y: inner.y, z: 7.0f32.to_bits(), w: inner.z };
    assert_eq!(projected, expected);
    assert_eq!(projected, v4(0.0, 0.0, 7.0, 0.0));
}

#[test]
fn torus_projects_along_the_major_circle() {
    // Center sits at (0, 0, 12); the point (15, 0, 12) lies in the torus
    // plane, 15 from the axis: stage one lands at major radius 7, stage two
    // walks 5 further out, to (12, 0, 12).
    let t = Torus::new(7.0f32.to_bits(), 5.0f32.to_bits());
    let p = t.project_onto(v3(15.0, 0.0, 12.0));
    assert_eq!(
        [
            f32::from_bits(p.x),
            f32::from_bits(p.y),
            f32::from_bits(p.z)
        ],
        [12.0, 0.0, 12.0]
    );
}

#[test]
fn advance_point_returns_unit_ray() {
    for manifold in all_manifolds() {
        let point = Point { pos: v4(1.0, 2.0, 3.0, 0.0), ray: v4(0.0, 1.0, 0.0, 0.0) };
        let advanced = manifold.advance_point(point, 0.2f32.to_bits());
        let r = f4(advanced.ray);
        let norm = (r[0] * r[0] + r[1] * r[1] + r[2] * r[2] + r[3] * r[3]).sqrt();
        assert!((norm - 1.0).abs() < 1e-6, "{}: |ray| = {}", manifold.description(), norm);
    }
}

#[test]
fn advance_point_keeps_ray_on_zero_displacement() {
    let h = Manifold::Hyperplane(Hyperplane);
    let point = Point { pos: v4(1.0, 2.0, 3.0, 0.0), ray: v4(1.0, 0.0, 0.0, 0.0) };
    let advanced = h.advance_point(point, 0.0f32.to_bits());
    assert_eq!(advanced.pos, point.pos);
    assert_eq!(advanced.ray, point.ray);
}

#[test]
fn projection_is_idempotent_within_tolerance() {
    let samples = [
        v4(1.0, 2.0, 3.0, 4.0),
        v4(-3.0, 1.0, 0.5, 2.0),
        v4(0.25, -1.5, 2.0, -4.0),
        v4(5.0, 5.0, 5.0, 5.0),
    ];
    for manifold in all_manifolds() {
        for &p in samples.iter() {
            let once = manifold.project_onto(p);
            let twice = manifold.project_onto(once);
            assert!(
                close4(once, twice, 1e-2),
                "{}: {:?} vs {:?}",
                manifold.description(),
                f4(once),
                f4(twice)
            );
        }
    }
    let extruded = Manifold::ExtrudedShape(ExtrudedShape(Shape3D::Sphere(Sphere::new(
        5.0f32.to_bits(),
    ))));
    for &p in samples.iter() {
        let once = extruded.project_onto(p);
        let twice = extruded.project_onto(once);
        assert!(close4(once, twice, 1e-2));
    }
}

#[test]
fn membership_not_implemented_fails_loudly() {
    let e = Manifold::ExtrudedShape(ExtrudedShape(Shape3D::Torus(Torus::new(
        7.0f32.to_bits(),
        5.0f32.to_bits(),
    ))));
    let err = e.is_on_curve(v4(0.0, 0.0, 0.0, 0.0)).unwrap_err();
    assert_eq!(err, "Torus does not currently impl is_on_curve");
}

#[test]
fn extruded_sphere_membership_delegates() {
    let e = Manifold::ExtrudedShape(ExtrudedShape(Shape3D::Sphere(Sphere::new(
        5.0f32.to_bits(),
    ))));
    // (0, 0, anything, 0) projects to the origin of the inner sphere.
    assert!(e.is_on_curve(v4(0.0, 0.0, 123.0, 0.0)).unwrap());
    assert!(!e.is_on_curve(v4(0.0, 0.0, 0.0, 30.0)).unwrap());
}

#[test]
fn descriptions_name_the_variants() {
    assert_eq!(Manifold::Hyperplane(Hyperplane).description(), "Hyperplane");
    assert_eq!(
        Manifold::Hypersphere(Hypersphere::new(1.0f32.to_bits())).description(),
        "Hypersphere"
    );
    assert_eq!(
        Manifold::Hypersphube(Hypersphube::new(1.0f32.to_bits(), 2.0f32.to_bits()))
            .description(),
        "Hypersphube"
    );
    assert_eq!(
        Manifold::Ditorus(Ditorus::new(
            1.0f32.to_bits(),
            1.0f32.to_bits(),
            1.0f32.to_bits()
        ))
        .description(),
        "Ditorus"
    );
    assert_eq!(
        Manifold::ExtrudedShape(ExtrudedShape(Shape3D::Sphere(Sphere::new(
            1.0f32.to_bits()
        ))))
        .description(),
        "Extruded: Sphere"
    );
    assert_eq!(
        Manifold::ExtrudedShape(ExtrudedShape(Shape3D::Torus(Torus::new(
            1.0f32.to_bits(),
            1.0f32.to_bits()
        ))))
        .description(),
        "Extruded: Torus"
    );
}

#[test]
fn parameter_blocks_share_one_layout() {
    let blocks: Vec<Vec<u8>> = vec![
        Manifold::Hyperplane(Hyperplane).get_bytes(),
        Manifold::Hypersphere(Hypersphere::new(2.0f32.to_bits())).get_bytes(),
        Manifold::Hypersphube(Hypersphube::new(3.0f32.to_bits(), 6.0f32.to_bits()))
            .get_bytes(),
        Manifold::Ditorus(Ditorus::new(
            10.0f32.to_bits(),
            8.0f32.to_bits(),
            3.0f32.to_bits(),
        ))
        .get_bytes(),
        Manifold::ExtrudedShape(ExtrudedShape(Shape3D::Sphere(Sphere::new(
            5.0f32.to_bits(),
        ))))
        .get_bytes(),
        Manifold::ExtrudedShape(ExtrudedShape(Shape3D::Torus(Torus::new(
            7.0f32.to_bits(),
            5.0f32.to_bits(),
        ))))
        .get_bytes(),
    ];
    for block in blocks.iter() {
        assert_eq!(block.len(), 64);
    }
}

#[test]
fn hypersphere_block_fields_sit_at_fixed_offsets() {
    let b = Manifold::Hypersphere(Hypersphere::new(2.0f32.to_bits())).get_bytes();
    assert_eq!(&b[0..4], &0.0f32.to_le_bytes());
    assert_eq!(&b[4..8], &0.0f32.to_le_bytes());
    assert_eq!(&b[8..12], &0.0f32.to_le_bytes());
    assert_eq!(&b[12..16], &2.0f32.to_le_bytes());
    assert_eq!(&b[16..48], &[0u8; 32][..]);
    assert_eq!(&b[48..52], &2.0f32.to_le_bytes());
    assert_eq!(&b[52..56], &0.0f32.to_le_bytes());
    assert_eq!(&b[56..60], &0.0f32.to_le_bytes());
    assert_eq!(&b[60..64], &0.0f32.to_le_bytes());
}

#[test]
fn ditorus_block_scalars_in_order() {
    let b = Manifold::Ditorus(Ditorus::new(
        10.0f32.to_bits(),
        8.0f32.to_bits(),
        3.0f32.to_bits(),
    ))
    .get_bytes();
    assert_eq!(&b[12..16], &21.0f32.to_le_bytes());
    assert_eq!(&b[48..52], &10.0f32.to_le_bytes());
    assert_eq!(&b[52..56], &8.0f32.to_le_bytes());
    assert_eq!(&b[56..60], &3.0f32.to_le_bytes());
}

#[test]
fn extruded_torus_block_embeds_center() {
    let b = Manifold::ExtrudedShape(ExtrudedShape(Shape3D::Torus(Torus::new(
        7.0f32.to_bits(),
        5.0f32.to_bits(),
    ))))
    .get_bytes();
    assert_eq!(&b[8..12], &12.0f32.to_le_bytes());
    assert_eq!(&b[12..16], &0.0f32.to_le_bytes());
    assert_eq!(&b[48..52], &7.0f32.to_le_bytes());
    assert_eq!(&b[52..56], &5.0f32.to_le_bytes());
    assert_eq!(&b[56..60], &0.0f32.to_le_bytes());
}

#[test]
fn snippets_match_the_fixed_fragments() {
    assert_eq!(
        Manifold::Hyperplane(Hyperplane).project_onto_wgsl(),
        "return vec4(pos.x, pos.y, pos.z, 0.0);"
    );
    assert_eq!(
        Manifold::Hypersphere(Hypersphere::new(1.0f32.to_bits())).project_onto_wgsl(),
        "return manifold_info.r1 * normalize(pos - manifold_info.v1) + manifold_info.v1;"
    );
    let extruded = Manifold::ExtrudedShape(ExtrudedShape(Shape3D::Sphere(Sphere::new(
        1.0f32.to_bits(),
    ))))
    .project_onto_wgsl();
    assert!(extruded.starts_with(
        "let pos2 = project_onto_3d_part(vec3(pos.x, pos.y, pos.w)); "
    ));
    assert!(extruded.contains("fn project_onto_3d_part(pos: vec3<f32>) -> vec3<f32> {"));
    assert!(extruded.ends_with(
        "return manifold_info.r1 * normalize(pos - center) + center;"
    ));
}

#[test]
fn insert_into_wgsl_splices_after_the_marker() {
    let template = "struct Info { x: f32 }\n\nfn project_onto_curve(pos: vec4<f32>) -> vec4<f32> {\n}\n\nfn fs_main() {}\n";
    let h = Manifold::Hyperplane(Hyperplane);
    let out = h.insert_into_wgsl(String::from(template)).unwrap();
    let expected = "struct Info { x: f32 }\n\nfn project_onto_curve(pos: vec4<f32>) -> vec4<f32> {\n    return vec4(pos.x, pos.y, pos.z, 0.0);\n}\n\nfn fs_main() {}\n";
    assert_eq!(out, expected);
}

#[test]
fn insert_into_wgsl_without_marker_reports_absence() {
    let h = Manifold::Hyperplane(Hyperplane);
    assert!(h.insert_into_wgsl(String::from("fn other() {}\n")).is_none());
}

#[test]
fn insert_into_wgsl_with_repeated_marker_reports_failure() {
    let template = "fn project_onto_curve(pos: vec4<f32>) -> vec4<f32> {A}fn project_onto_curve(pos: vec4<f32>) -> vec4<f32> {B}";
    let h = Manifold::Hyperplane(Hyperplane);
    assert!(h.insert_into_wgsl(String::from(template)).is_none());
}

#[test]
fn membership_decisions_match_hardware_comparisons() {
    let s = Hypersphere::new(3.0f32.to_bits());
    let h = Hyperplane;
    for i in -5..6 {
        for j in -5..6 {
            for k in -5..6 {
                let (x, y, z, w) = (
                    i as f32 * 0.7,
                    j as f32 * 0.9,
                    k as f32 * 1.1,
                    (i + j) as f32 * 0.3,
                );
                let on_sphere = {
                    let dw = w - 3.0f32;
                    x * x + y * y + z * z + dw * dw - 9.0f32 < 0.01f32
                };
                assert_eq!(s.is_on_curve(v4(x, y, z, w)), on_sphere);
                assert_eq!(h.is_on_curve(v4(x, y, z, w)), w.abs() < 0.01f32);
            }
        }
    }
}

fn hypersphere_reference(radius: f32, pos: Vector4<f32>) -> Vector4<f32> {
    let center = radius * Vector4::w();
    let mut d = pos - center;
    if d.x == 0.0 && d.y == 0.0 && d.z == 0.0 && d.w == 0.0 {
        d.x += 0.0001;
    }
    radius * d.normalize() + center
}

fn ditorus_reference(r1: f32, r2: f32, r3: f32, pos: Vector4<f32>) -> Vector4<f32> {
    let center = (r1 + r2 + r3) * Vector4::w();
    let mut pos = pos - center;
    let mut new_pos = Vector4::zeros();

    if pos.x == 0.0 && pos.w == 0.0 {
        pos.x += 0.0001;
    }
    new_pos += r1 * Vector4::new(pos.x, 0.0, 0.0, pos.w).normalize();

    if pos.x == new_pos.x && pos.z == 0.0 && pos.w == new_pos.w {
        pos.x += 0.0001;
    }
    new_pos += r2 * (Vector4::new(pos.x, 0.0, pos.z, pos.w) - new_pos).normalize();

    if (pos - new_pos).magnitude() == 0.0 {
        pos.w += 0.0001;
    }
    new_pos += r3 * (pos - new_pos).normalize();

    new_pos + center
}

#[test]
fn hypersphere_projection_matches_hardware_arithmetic() {
    let s = Hypersphere::new(3.0f32.to_bits());
    for i in -4..5 {
        for j in -4..5 {
            for k in -4..5 {
                let (x, y, z, w) = (i as f32, j as f32 * 0.5, k as f32 * 0.25, 1.5f32);
                let ours = s.project_onto(v4(x, y, z, w));
                let reference = hypersphere_reference(3.0, Vector4::new(x, y, z, w));
                assert_eq!(ours.x, reference.x.to_bits());
                assert_eq!(ours.y, reference.y.to_bits());
                assert_eq!(ours.z, reference.z.to_bits());
                assert_eq!(ours.w, reference.w.to_bits());
            }
        }
    }
}

#[test]
fn ditorus_projection_matches_hardware_arithmetic() {
    let d = Ditorus::new(4.0f32.to_bits(), 2.0f32.to_bits(), 1.0f32.to_bits());
    let mut samples: Vec<(f32, f32, f32, f32)> = Vec::new();
    for i in -3..4 {
        for j in -3..4 {
            samples.push((i as f32, j as f32, (i + j) as f32 * 0.5, 0.0));
        }
    }
    // The degenerate inputs that trigger the nudges.
    samples.push((0.0, 0.0, 0.0, 7.0));
    samples.push((0.0, 1.0, 0.0, 7.0));
    samples.push((0.0, 0.0, 1.0, 7.0));
    for &(x, y, z, w) in samples.iter() {
        let ours = d.project_onto(v4(x, y, z, w));
        let reference = ditorus_reference(4.0, 2.0, 1.0, Vector4::new(x, y, z, w));
        assert_eq!([ours.x, ours.y, ours.z, ours.w], [
            reference.x.to_bits(),
            reference.y.to_bits(),
            reference.z.to_bits(),
            reference.w.to_bits()
        ]);
    }
}

#[test]
fn singular_inputs_are_nudged_before_normalizing() {
    // Hypersphere: projecting the center itself walks one radius along the
    // nudged first axis instead of normalizing a zero vector.
    let s = Hypersphere::new(2.0f32.to_bits());
    let ours = s.project_onto(v4(0.0, 0.0, 0.0, 2.0));
    let reference = hypersphere_reference(2.0, Vector4::new(0.0, 0.0, 0.0, 2.0));
    assert_eq!(
        [ours.x, ours.y, ours.z, ours.w],
        [
            reference.x.to_bits(),
            reference.y.to_bits(),
            reference.z.to_bits(),
            reference.w.to_bits()
        ]
    );
    assert!(f4(ours).iter().all(|c| c.is_finite()));

    // Sphere: the same policy in three dimensions.
    let sphere = Sphere::new(5.0f32.to_bits());
    let p = sphere.project_onto(v3(0.0, 0.0, 5.0));
    let mut d = nalgebra::Vector3::new(0.0f32, 0.0, 0.0);
    d.x += 0.0001;
    let expected = 5.0f32 * d.normalize() + 5.0f32 * nalgebra::Vector3::z();
    assert_eq!(
        [p.x, p.y, p.z],
        [expected.x.to_bits(), expected.y.to_bits(), expected.z.to_bits()]
    );

    // Hypersphube: the nudged offset gives a finite Lp norm, and the result
    // lands one radius out along the first axis.
    let cube = Hypersphube::new(3.0f32.to_bits(), 6.0f32.to_bits());
    let q = f4(cube.project_onto(v4(0.0, 0.0, 0.0, 3.0)));
    assert!(q.iter().all(|c| c.is_finite()), "{:?}", q);
    assert!((q[0] - 3.0).abs() < 1e-2, "{:?}", q);
    assert!(q[1] == 0.0 && q[2] == 0.0 && (q[3] - 3.0).abs() < 1e-2, "{:?}", q);
}

#[test]
fn hypersphube_with_square_exponent_behaves_like_a_sphere() {
    let cube = Hypersphube::new(3.0f32.to_bits(), 2.0f32.to_bits());
    let p = cube.project_onto(v4(1.0, 2.0, -1.0, 0.5));
    let reference = hypersphere_reference(3.0, Vector4::new(1.0, 2.0, -1.0, 0.5));
    let ours = f4(p);
    for i in 0..4 {
        assert!((ours[i] - reference[i]).abs() < 1e-4, "{:?} vs {}", ours, reference);
    }
}
