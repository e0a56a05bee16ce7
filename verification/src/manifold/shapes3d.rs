use vstd::prelude::*;
use crate::fbits::{
    add_bits, sub_bits, mul_bits, spec_eq_bits, spec_lt_bits, f32_add, f32_lt, f32_eq, F32_ZERO,
    F32_ONE,
};
use crate::vecs::{
    Vec3, Vec4, spec_v3_add, spec_v3_sub, spec_v3_scale, spec_v3_normalize, spec_v3_norm,
    spec_v3_zeros,
};
use crate::encoding::{param_block, spec_param_block};
use crate::manifold::{EPSILON, NUDGE};

verus! {

// The closed-form three-dimensional surfaces, and the adapter that lifts one
// of them into four dimensions by extruding it along the third axis.

#[derive(Clone, Copy, PartialEq, Eq, Structural, Debug)]
pub struct Sphere {
    pub radius: u32,
    pub center: Vec3,
}

#[derive(Clone, Copy, PartialEq, Eq, Structural, Debug)]
pub struct Torus {
    pub radius_major: u32,
    pub radius_minor: u32,
    pub center: Vec3,
}

/// The closed set of three-dimensional surfaces.
#[derive(Clone, Copy, PartialEq, Eq, Structural, Debug)]
pub enum Shape3D {
    Sphere(Sphere),
    Torus(Torus),
}

/// A three-dimensional shape extruded along the third spatial axis into a
/// four-dimensional surface.
#[derive(Clone, Copy, PartialEq, Eq, Structural, Debug)]
pub struct ExtrudedShape(pub Shape3D);

/// Projection onto the sphere: walk from the center along the normalized
/// offset, `radius * normalize(pos - center) + center`. An offset that
/// compares equal to zero — the input coincides with the center — is nudged
/// along the first axis before normalizing, so the direction is never of
/// undefined length.
pub open spec fn spec_sphere_project(s: Sphere, pos: Vec3) -> Vec3 {
    let d0 = spec_v3_sub(pos, s.center);
    let d = if spec_eq_bits(d0.x, F32_ZERO) && spec_eq_bits(d0.y, F32_ZERO) && spec_eq_bits(
        d0.z,
        F32_ZERO,
    ) {
        Vec3 { x: add_bits(d0.x, NUDGE), y: d0.y, z: d0.z }
    } else {
        d0
    };
    spec_v3_add(spec_v3_scale(s.radius, spec_v3_normalize(d)), s.center)
}

/// The sphere's membership test: the signed residue
/// `|pos - center|^2 - radius^2` lies below the tolerance. The comparison is
/// signed, not absolute, so points well inside also pass.
pub open spec fn spec_sphere_on_curve(s: Sphere, pos: Vec3) -> bool {
    let p = spec_v3_sub(pos, s.center);
    spec_lt_bits(
        sub_bits(
            add_bits(add_bits(mul_bits(p.x, p.x), mul_bits(p.y, p.y)), mul_bits(p.z, p.z)),
            mul_bits(s.radius, s.radius),
        ),
        EPSILON,
    )
}

/// Projection onto the torus: two nested normalization stages, each nudging
/// a degenerate zero-length intermediate vector before normalizing.
pub open spec fn spec_torus_project(t: Torus, pos: Vec3) -> Vec3 {
    let p0 = spec_v3_sub(pos, t.center);
    let p1 = if spec_eq_bits(p0.x, F32_ZERO) && spec_eq_bits(p0.z, F32_ZERO) {
        Vec3 { x: add_bits(p0.x, NUDGE), y: p0.y, z: p0.z }
    } else {
        p0
    };
    let n1 = spec_v3_add(
        spec_v3_zeros(),
        spec_v3_scale(t.radius_major, spec_v3_normalize(Vec3 { x: p1.x, y: F32_ZERO, z: p1.z })),
    );
    let p2 = if spec_eq_bits(spec_v3_norm(spec_v3_sub(p1, n1)), F32_ZERO) {
        Vec3 { x: p1.x, y: add_bits(p1.y, NUDGE), z: p1.z }
    } else {
        p1
    };
    let n2 = spec_v3_add(n1, spec_v3_scale(t.radius_minor, spec_v3_normalize(spec_v3_sub(p2, n1))));
    spec_v3_add(n2, t.center)
}

pub open spec fn spec_sphere_wgsl() -> Seq<char> {
    "let center = vec3(manifold_info.v1.x, manifold_info.v1.y, manifold_info.v1.z);\n    return manifold_info.r1 * normalize(pos - center) + center;"@
}

pub open spec fn spec_torus_wgsl() -> Seq<char> {
    "let center = vec3(manifold_info.v1.x, manifold_info.v1.y, manifold_info.v1.z);let pos2 = pos - center;\n    var new_pos: vec3<f32> = vec3(0.0, 0.0, 0.0);\n    \n    new_pos += manifold_info.r1 * normalize(vec3(pos2.x, 0.0, pos.z));\n    new_pos += manifold_info.r2 * normalize(pos2 - new_pos);\n    \n    return new_pos + center;"@
}

impl Sphere {
    /// A sphere of the given radius, centered one radius along the third
    /// axis.
    pub fn new(radius: u32) -> (r: Sphere)
        ensures
            r.radius == radius,
            r.center == spec_v3_scale(radius, Vec3 { x: F32_ZERO, y: F32_ZERO, z: F32_ONE }),
    {
        Sphere { radius, center: Vec3::z_axis().scale(radius) }
    }

    pub fn description(&self) -> (r: String)
        ensures
            r@ == "Sphere"@,
    {
        String::from_str("Sphere")
    }

    /// The sphere's serialization slots: its center, two zero vectors, its
    /// radius and two zero scalars.
    pub fn get_data(&self) -> (r: (Vec3, Vec3, Vec3, u32, u32, u32))
        ensures
            r == (self.center, spec_v3_zeros(), spec_v3_zeros(), self.radius, F32_ZERO, F32_ZERO),
    {
        (self.center, Vec3::zeros(), Vec3::zeros(), self.radius, F32_ZERO, F32_ZERO)
    }

    pub fn project_onto_wgsl(&self) -> (r: String)
        ensures
            r@ == spec_sphere_wgsl(),
    {
        String::from_str(
            "let center = vec3(manifold_info.v1.x, manifold_info.v1.y, manifold_info.v1.z);\n    return manifold_info.r1 * normalize(pos - center) + center;",
        )
    }

    pub fn project_onto(&self, pos: Vec3) -> (r: Vec3)
        ensures
            r == spec_sphere_project(*self, pos),
    {
        let mut d = pos.sub(self.center);
        if f32_eq(d.x, F32_ZERO) && f32_eq(d.y, F32_ZERO) && f32_eq(d.z, F32_ZERO) {
            d.x = f32_add(d.x, NUDGE);
        }
        d.normalize().scale(self.radius).add(self.center)
    }

    pub fn is_on_curve(&self, pos: Vec3) -> (r: bool)
        ensures
            r == spec_sphere_on_curve(*self, pos),
    {
        let p = pos.sub(self.center);
        f32_lt(
            crate::fbits::f32_sub(
                f32_add(
                    f32_add(crate::fbits::f32_mul(p.x, p.x), crate::fbits::f32_mul(p.y, p.y)),
                    crate::fbits::f32_mul(p.z, p.z),
                ),
                crate::fbits::f32_mul(self.radius, self.radius),
            ),
            EPSILON,
        )
    }
}

impl Torus {
    /// A torus with the given major and minor radii, centered the sum of the
    /// radii along the third axis.
    pub fn new(radius_major: u32, radius_minor: u32) -> (r: Torus)
        ensures
            r.radius_major == radius_major,
            r.radius_minor == radius_minor,
            r.center == spec_v3_scale(
                add_bits(radius_major, radius_minor),
                Vec3 { x: F32_ZERO, y: F32_ZERO, z: F32_ONE },
            ),
    {
        Torus {
            radius_major,
            radius_minor,
            center: Vec3::z_axis().scale(f32_add(radius_major, radius_minor)),
        }
    }

    pub fn description(&self) -> (r: String)
        ensures
            r@ == "Torus"@,
    {
        String::from_str("Torus")
    }

    /// The torus's serialization slots: its center, two zero vectors, its two
    /// radii and one zero scalar.
    pub fn get_data(&self) -> (r: (Vec3, Vec3, Vec3, u32, u32, u32))
        ensures
            r == (
                self.center,
                spec_v3_zeros(),
                spec_v3_zeros(),
                self.radius_major,
                self.radius_minor,
                F32_ZERO,
            ),
    {
        (
            self.center,
            Vec3::zeros(),
            Vec3::zeros(),
            self.radius_major,
            self.radius_minor,
            F32_ZERO,
        )
    }

    pub fn project_onto_wgsl(&self) -> (r: String)
        ensures
            r@ == spec_torus_wgsl(),
    {
        String::from_str(
            "let center = vec3(manifold_info.v1.x, manifold_info.v1.y, manifold_info.v1.z);let pos2 = pos - center;\n    var new_pos: vec3<f32> = vec3(0.0, 0.0, 0.0);\n    \n    new_pos += manifold_info.r1 * normalize(vec3(pos2.x, 0.0, pos.z));\n    new_pos += manifold_info.r2 * normalize(pos2 - new_pos);\n    \n    return new_pos + center;",
        )
    }

    pub fn project_onto(&self, pos: Vec3) -> (r: Vec3)
        ensures
            r == spec_torus_project(*self, pos),
    {
        let mut p = pos.sub(self.center);
        if f32_eq(p.x, F32_ZERO) && f32_eq(p.z, F32_ZERO) {
            p.x = f32_add(p.x, NUDGE);
        }
        let mut new_pos = Vec3::zeros();
        new_pos = new_pos.add(
            Vec3::new(p.x, F32_ZERO, p.z).normalize().scale(self.radius_major),
        );
        if f32_eq(p.sub(new_pos).norm(), F32_ZERO) {
            p.y = f32_add(p.y, NUDGE);
        }
        new_pos = new_pos.add(p.sub(new_pos).normalize().scale(self.radius_minor));
        new_pos.add(self.center)
    }
}

/// What the three-dimensional projection of this shape returns.
pub open spec fn spec_shape3d_project(s: Shape3D, pos: Vec3) -> Vec3 {
    match s {
        Shape3D::Sphere(sp) => spec_sphere_project(sp, pos),
        Shape3D::Torus(t) => spec_torus_project(t, pos),
    }
}

/// Whether the shape implements the membership test.
pub open spec fn spec_shape3d_supports_membership(s: Shape3D) -> bool {
    s is Sphere
}

/// The membership test of a shape that supports one.
pub open spec fn spec_shape3d_on_curve(s: Shape3D, pos: Vec3) -> bool {
    match s {
        Shape3D::Sphere(sp) => spec_sphere_on_curve(sp, pos),
        Shape3D::Torus(t) => arbitrary(),
    }
}

pub open spec fn spec_shape3d_desc(s: Shape3D) -> Seq<char> {
    match s {
        Shape3D::Sphere(_) => "Sphere"@,
        Shape3D::Torus(_) => "Torus"@,
    }
}

pub open spec fn spec_shape3d_wgsl(s: Shape3D) -> Seq<char> {
    match s {
        Shape3D::Sphere(_) => spec_sphere_wgsl(),
        Shape3D::Torus(_) => spec_torus_wgsl(),
    }
}

/// The shape's serialization slots.
pub open spec fn spec_shape3d_data(s: Shape3D) -> (Vec3, Vec3, Vec3, u32, u32, u32) {
    match s {
        Shape3D::Sphere(sp) => (
            sp.center,
            spec_v3_zeros(),
            spec_v3_zeros(),
            sp.radius,
            F32_ZERO,
            F32_ZERO,
        ),
        Shape3D::Torus(t) => (
            t.center,
            spec_v3_zeros(),
            spec_v3_zeros(),
            t.radius_major,
            t.radius_minor,
            F32_ZERO,
        ),
    }
}

impl Shape3D {
    pub fn description(&self) -> (r: String)
        ensures
            r@ == spec_shape3d_desc(*self),
    {
        match self {
            Shape3D::Sphere(sp) => sp.description(),
            Shape3D::Torus(t) => t.description(),
        }
    }

    pub fn project_onto(&self, pos: Vec3) -> (r: Vec3)
        ensures
            r == spec_shape3d_project(*self, pos),
    {
        match self {
            Shape3D::Sphere(sp) => sp.project_onto(pos),
            Shape3D::Torus(t) => t.project_onto(pos),
        }
    }

    /// The membership test, or an explicit "capability not implemented"
    /// failure naming the shape, never a silent false.
    pub fn is_on_curve(&self, pos: Vec3) -> (r: Result<bool, String>)
        ensures
            spec_shape3d_supports_membership(*self) ==> r == Ok::<bool, String>(
                spec_shape3d_on_curve(*self, pos),
            ),
            !spec_shape3d_supports_membership(*self) ==> (r matches Err(m) && m@
                == spec_shape3d_desc(*self) + " does not currently impl is_on_curve"@),
    {
        match self {
            Shape3D::Sphere(sp) => Ok(sp.is_on_curve(pos)),
            Shape3D::Torus(t) => Err(
                t.description().concat(" does not currently impl is_on_curve"),
            ),
        }
    }

    pub fn get_data(&self) -> (r: (Vec3, Vec3, Vec3, u32, u32, u32))
        ensures
            r == spec_shape3d_data(*self),
    {
        match self {
            Shape3D::Sphere(sp) => sp.get_data(),
            Shape3D::Torus(t) => t.get_data(),
        }
    }

    pub fn project_onto_wgsl(&self) -> (r: String)
        ensures
            r@ == spec_shape3d_wgsl(*self),
    {
        match self {
            Shape3D::Sphere(sp) => sp.project_onto_wgsl(),
            Shape3D::Torus(t) => t.project_onto_wgsl(),
        }
    }
}

/// Embeds a three-component vector into four components with a zero fourth
/// coordinate.
pub open spec fn spec_embed4(v: Vec3) -> Vec4 {
    Vec4 { x: v.x, y: v.y, z: v.z, w: F32_ZERO }
}

/// The extruded projection: project the (x, y, w) sub-tuple with the wrapped
/// shape and pass the third coordinate through unchanged.
pub open spec fn spec_extruded_project(e: ExtrudedShape, pos: Vec4) -> Vec4 {
    let q = spec_shape3d_project(e.0, Vec3 { x: pos.x, y: pos.y, z: pos.w });
    Vec4 { x: q.x, y: q.y, z: pos.z, w: q.z }
}

pub open spec fn spec_extruded_bytes(e: ExtrudedShape) -> Seq<u8> {
    let d = spec_shape3d_data(e.0);
    spec_param_block(spec_embed4(d.0), spec_embed4(d.1), spec_embed4(d.2), d.3, d.4, d.5)
}

pub open spec fn spec_extruded_wgsl(e: ExtrudedShape) -> Seq<char> {
    "let pos2 = project_onto_3d_part(vec3(pos.x, pos.y, pos.w)); \n    return vec4(pos2.x, pos2.y, pos.z, pos2.z);\n}\n\nfn project_onto_3d_part(pos: vec3<f32>) -> vec3<f32> {\n    "@
        + spec_shape3d_wgsl(e.0)
}

impl ExtrudedShape {
    pub fn description(&self) -> (r: String)
        ensures
            r@ == "Extruded: "@ + spec_shape3d_desc(self.0),
    {
        String::from_str("Extruded: ").concat(self.0.description().as_str())
    }

    /// The outer projection calls into an inner function built from the
    /// wrapped shape's snippet.
    pub fn project_onto_wgsl(&self) -> (r: String)
        ensures
            r@ == spec_extruded_wgsl(*self),
    {
        String::from_str(
            "let pos2 = project_onto_3d_part(vec3(pos.x, pos.y, pos.w)); \n    return vec4(pos2.x, pos2.y, pos.z, pos2.z);\n}\n\nfn project_onto_3d_part(pos: vec3<f32>) -> vec3<f32> {\n    ",
        ).concat(self.0.project_onto_wgsl().as_str())
    }

    /// The third coordinate of the input always passes through unchanged.
    pub fn project_onto(&self, pos: Vec4) -> (r: Vec4)
        ensures
            r == spec_extruded_project(*self, pos),
            r.z == pos.z,
    {
        let q = self.0.project_onto(Vec3::new(pos.x, pos.y, pos.w));
        Vec4::new(q.x, q.y, pos.z, q.z)
    }

    /// Delegates the membership test to the wrapped shape on the same
    /// sub-tuple.
    pub fn is_on_curve(&self, pos: Vec4) -> (r: Result<bool, String>)
        ensures
            spec_shape3d_supports_membership(self.0) ==> r == Ok::<bool, String>(
                spec_shape3d_on_curve(self.0, Vec3 { x: pos.x, y: pos.y, z: pos.w }),
            ),
            !spec_shape3d_supports_membership(self.0) ==> (r matches Err(m) && m@
                == spec_shape3d_desc(self.0) + " does not currently impl is_on_curve"@),
    {
        self.0.is_on_curve(Vec3::new(pos.x, pos.y, pos.w))
    }

    pub fn get_bytes(&self) -> (r: Vec<u8>)
        ensures
            r@ == spec_extruded_bytes(*self),
            r@.len() == 64,
    {
        let (v1, v2, v3, r1, r2, r3) = self.0.get_data();
        param_block(
            Vec4::new(v1.x, v1.y, v1.z, F32_ZERO),
            Vec4::new(v2.x, v2.y, v2.z, F32_ZERO),
            Vec4::new(v3.x, v3.y, v3.z, F32_ZERO),
            r1,
            r2,
            r3,
        )
    }
}

} // verus!
