use vstd::prelude::*;
use crate::fbits::{
    add_bits, sub_bits, mul_bits, div_bits, powf_bits, spec_abs_bits, spec_eq_bits, spec_lt_bits,
    f32_add, f32_sub, f32_mul, f32_div, f32_powf, f32_abs, f32_lt, f32_eq, F32_ZERO, F32_ONE,
};
use crate::vecs::{
    Vec4, spec_v4_add, spec_v4_sub, spec_v4_scale, spec_v4_unscale, spec_v4_normalize,
    spec_v4_norm, spec_v4_zeros,
};
use crate::encoding::{param_block, spec_param_block};
use crate::manifold::{EPSILON, NUDGE};
use crate::binding_structs::KeyCode;

verus! {

// The closed-form and iterative four-dimensional surfaces.

/// The hyperplane spanned by the first three axes.
#[derive(Clone, Copy, PartialEq, Eq, Structural, Debug)]
pub struct Hyperplane;

#[derive(Clone, Copy, PartialEq, Eq, Structural, Debug)]
pub struct Hypersphere {
    pub radius: u32,
    pub center: Vec4,
}

/// The superellipsoid variant: a generalized sphere under an Lp norm.
#[derive(Clone, Copy, PartialEq, Eq, Structural, Debug)]
pub struct Hypersphube {
    pub exponent: u32,
    pub radius: u32,
    pub center: Vec4,
}

/// The double torus, with three nested radii adjustable at run time.
#[derive(Clone, Copy, PartialEq, Eq, Structural, Debug)]
pub struct Ditorus {
    pub radius_major_major: u32,
    pub radius_major_minor: u32,
    pub radius_minor_minor: u32,
    pub center: Vec4,
}

/// Projection onto the hyperplane zeroes the fourth coordinate.
pub open spec fn spec_hyperplane_project(pos: Vec4) -> Vec4 {
    Vec4 { x: pos.x, y: pos.y, z: pos.z, w: F32_ZERO }
}

/// Hyperplane membership: the magnitude of the fourth coordinate lies below
/// the tolerance.
pub open spec fn spec_hyperplane_on_curve(pos: Vec4) -> bool {
    spec_lt_bits(spec_abs_bits(pos.w), EPSILON)
}

/// Projection onto the hypersphere:
/// `radius * normalize(pos - center) + center`. An offset that compares
/// equal to zero — the input coincides with the center — is nudged along
/// the first axis before normalizing, so the direction is never of
/// undefined length.
pub open spec fn spec_hypersphere_project(s: Hypersphere, pos: Vec4) -> Vec4 {
    let d0 = spec_v4_sub(pos, s.center);
    let d = if spec_eq_bits(d0.x, F32_ZERO) && spec_eq_bits(d0.y, F32_ZERO) && spec_eq_bits(
        d0.z,
        F32_ZERO,
    ) && spec_eq_bits(d0.w, F32_ZERO) {
        Vec4 { x: add_bits(d0.x, NUDGE), y: d0.y, z: d0.z, w: d0.w }
    } else {
        d0
    };
    spec_v4_add(spec_v4_scale(s.radius, spec_v4_normalize(d)), s.center)
}

/// Hypersphere membership: the signed residue
/// `|pos - center|^2 - radius^2` lies below the tolerance. The comparison is
/// signed, not absolute, so points well inside also pass.
pub open spec fn spec_hypersphere_on_curve(s: Hypersphere, pos: Vec4) -> bool {
    let p = spec_v4_sub(pos, s.center);
    spec_lt_bits(
        sub_bits(
            add_bits(
                add_bits(add_bits(mul_bits(p.x, p.x), mul_bits(p.y, p.y)), mul_bits(p.z, p.z)),
                mul_bits(p.w, p.w),
            ),
            mul_bits(s.radius, s.radius),
        ),
        EPSILON,
    )
}

/// The sum of the coordinates' magnitudes raised to the exponent, summed
/// left to right.
pub open spec fn spec_lp_sum(v: Vec4, exponent: u32) -> u32 {
    add_bits(
        add_bits(
            add_bits(
                powf_bits(spec_abs_bits(v.x), exponent),
                powf_bits(spec_abs_bits(v.y), exponent),
            ),
            powf_bits(spec_abs_bits(v.z), exponent),
        ),
        powf_bits(spec_abs_bits(v.w), exponent),
    )
}

/// Projection onto the hypersphube: scale the offset by
/// `radius / lp_norm(offset)` and add it back to the center. An offset that
/// compares equal to zero — the input coincides with the center — is nudged
/// along the first axis before the norm is taken, so the scaling is never
/// of undefined size.
pub open spec fn spec_hypersphube_project(s: Hypersphube, pos: Vec4) -> Vec4 {
    let d0 = spec_v4_sub(pos, s.center);
    let d = if spec_eq_bits(d0.x, F32_ZERO) && spec_eq_bits(d0.y, F32_ZERO) && spec_eq_bits(
        d0.z,
        F32_ZERO,
    ) && spec_eq_bits(d0.w, F32_ZERO) {
        Vec4 { x: add_bits(d0.x, NUDGE), y: d0.y, z: d0.z, w: d0.w }
    } else {
        d0
    };
    let lp_norm = powf_bits(spec_lp_sum(d, s.exponent), div_bits(F32_ONE, s.exponent));
    spec_v4_add(s.center, spec_v4_scale(s.radius, spec_v4_unscale(d, lp_norm)))
}

/// Hypersphube membership: the signed residue of the implicit Lp-surface
/// equation lies below the tolerance; signed, as for the hypersphere.
pub open spec fn spec_hypersphube_on_curve(s: Hypersphube, pos: Vec4) -> bool {
    let p = spec_v4_sub(pos, s.center);
    spec_lt_bits(
        sub_bits(spec_lp_sum(p, s.exponent), powf_bits(spec_abs_bits(s.radius), s.exponent)),
        EPSILON,
    )
}

/// Projection onto the double torus: three nested normalization stages, each
/// nudging a degenerate zero-length intermediate vector before normalizing.
pub open spec fn spec_ditorus_project(d: Ditorus, pos: Vec4) -> Vec4 {
    let p0 = spec_v4_sub(pos, d.center);
    let p1 = if spec_eq_bits(p0.x, F32_ZERO) && spec_eq_bits(p0.w, F32_ZERO) {
        Vec4 { x: add_bits(p0.x, NUDGE), y: p0.y, z: p0.z, w: p0.w }
    } else {
        p0
    };
    let n1 = spec_v4_add(
        spec_v4_zeros(),
        spec_v4_scale(
            d.radius_major_major,
            spec_v4_normalize(Vec4 { x: p1.x, y: F32_ZERO, z: F32_ZERO, w: p1.w }),
        ),
    );
    let p2 = if spec_eq_bits(p1.x, n1.x) && spec_eq_bits(p1.z, F32_ZERO) && spec_eq_bits(
        p1.w,
        n1.w,
    ) {
        Vec4 { x: add_bits(p1.x, NUDGE), y: p1.y, z: p1.z, w: p1.w }
    } else {
        p1
    };
    let n2 = spec_v4_add(
        n1,
        spec_v4_scale(
            d.radius_major_minor,
            spec_v4_normalize(spec_v4_sub(Vec4 { x: p2.x, y: F32_ZERO, z: p2.z, w: p2.w }, n1)),
        ),
    );
    let p3 = if spec_eq_bits(spec_v4_norm(spec_v4_sub(p2, n2)), F32_ZERO) {
        Vec4 { x: p2.x, y: p2.y, z: p2.z, w: add_bits(p2.w, NUDGE) }
    } else {
        p2
    };
    let n3 = spec_v4_add(
        n2,
        spec_v4_scale(d.radius_minor_minor, spec_v4_normalize(spec_v4_sub(p3, n2))),
    );
    spec_v4_add(n3, d.center)
}

/// Double-torus membership: the nested radical expression, bounded in
/// magnitude by the tolerance.
pub open spec fn spec_ditorus_on_curve(d: Ditorus, pos: Vec4) -> bool {
    let p = spec_v4_sub(pos, d.center);
    let s1 = sub_bits(
        crate::fbits::sqrt_bits(add_bits(mul_bits(p.x, p.x), mul_bits(p.w, p.w))),
        d.radius_major_major,
    );
    let s2 = sub_bits(
        crate::fbits::sqrt_bits(add_bits(mul_bits(s1, s1), mul_bits(p.z, p.z))),
        d.radius_major_minor,
    );
    spec_lt_bits(
        spec_abs_bits(
            sub_bits(
                add_bits(mul_bits(s2, s2), mul_bits(p.y, p.y)),
                mul_bits(d.radius_minor_minor, d.radius_minor_minor),
            ),
        ),
        EPSILON,
    )
}

pub open spec fn spec_hyperplane_bytes() -> Seq<u8> {
    spec_param_block(
        spec_v4_zeros(),
        spec_v4_zeros(),
        spec_v4_zeros(),
        F32_ZERO,
        F32_ZERO,
        F32_ZERO,
    )
}

pub open spec fn spec_hypersphere_bytes(s: Hypersphere) -> Seq<u8> {
    spec_param_block(s.center, spec_v4_zeros(), spec_v4_zeros(), s.radius, F32_ZERO, F32_ZERO)
}

pub open spec fn spec_hypersphube_bytes(s: Hypersphube) -> Seq<u8> {
    spec_param_block(s.center, spec_v4_zeros(), spec_v4_zeros(), s.radius, s.exponent, F32_ZERO)
}

pub open spec fn spec_ditorus_bytes(d: Ditorus) -> Seq<u8> {
    spec_param_block(
        d.center,
        spec_v4_zeros(),
        spec_v4_zeros(),
        d.radius_major_major,
        d.radius_major_minor,
        d.radius_minor_minor,
    )
}

pub open spec fn spec_hyperplane_wgsl() -> Seq<char> {
    "return vec4(pos.x, pos.y, pos.z, 0.0);"@
}

pub open spec fn spec_hypersphere_wgsl() -> Seq<char> {
    "return manifold_info.r1 * normalize(pos - manifold_info.v1) + manifold_info.v1;"@
}

pub open spec fn spec_hypersphube_wgsl() -> Seq<char> {
    "let new_pos: vec4<f32> = pos - manifold_info.v1;\n    \n    return manifold_info.v1 + manifold_info.r1 * (new_pos / pow(\n        pow(abs(new_pos.x), manifold_info.r2) + \n        pow(abs(new_pos.y), manifold_info.r2) + \n        pow(abs(new_pos.z), manifold_info.r2) + \n        pow(abs(new_pos.w), manifold_info.r2)\n    , 1.0 / manifold_info.r2));"@
}

pub open spec fn spec_ditorus_wgsl() -> Seq<char> {
    "let pos2 = pos - manifold_info.v1;\n    var new_pos: vec4<f32> = vec4(0.0, 0.0, 0.0, 0.0);\n    \n    new_pos += manifold_info.r1 * normalize(vec4(pos2.x, 0.0, 0.0, pos2.w));\n    new_pos += manifold_info.r2 * normalize(vec4(pos2.x, 0.0, pos2.z, pos2.w) - new_pos);\n    new_pos += manifold_info.r3 * normalize(pos2 - new_pos);\n    \n    return new_pos + manifold_info.v1;"@
}

impl Hyperplane {
    pub fn description(&self) -> (r: String)
        ensures
            r@ == "Hyperplane"@,
    {
        String::from_str("Hyperplane")
    }

    pub fn project_onto_wgsl(&self) -> (r: String)
        ensures
            r@ == spec_hyperplane_wgsl(),
    {
        String::from_str("return vec4(pos.x, pos.y, pos.z, 0.0);")
    }

    pub fn get_bytes(&self) -> (r: Vec<u8>)
        ensures
            r@ == spec_hyperplane_bytes(),
            r@.len() == 64,
    {
        param_block(Vec4::zeros(), Vec4::zeros(), Vec4::zeros(), F32_ZERO, F32_ZERO, F32_ZERO)
    }

    pub fn project_onto(&self, pos: Vec4) -> (r: Vec4)
        ensures
            r == spec_hyperplane_project(pos),
    {
        Vec4::new(pos.x, pos.y, pos.z, F32_ZERO)
    }

    pub fn is_on_curve(&self, pos: Vec4) -> (r: bool)
        ensures
            r == spec_hyperplane_on_curve(pos),
    {
        f32_lt(f32_abs(pos.w), EPSILON)
    }
}

impl Hypersphere {
    /// A hypersphere of the given radius, centered one radius along the
    /// fourth axis.
    pub fn new(radius: u32) -> (r: Hypersphere)
        ensures
            r.radius == radius,
            r.center == spec_v4_scale(
                radius,
                Vec4 { x: F32_ZERO, y: F32_ZERO, z: F32_ZERO, w: F32_ONE },
            ),
    {
        Hypersphere { radius, center: Vec4::w_axis().scale(radius) }
    }

    pub fn description(&self) -> (r: String)
        ensures
            r@ == "Hypersphere"@,
    {
        String::from_str("Hypersphere")
    }

    pub fn project_onto_wgsl(&self) -> (r: String)
        ensures
            r@ == spec_hypersphere_wgsl(),
    {
        String::from_str(
            "return manifold_info.r1 * normalize(pos - manifold_info.v1) + manifold_info.v1;",
        )
    }

    pub fn get_bytes(&self) -> (r: Vec<u8>)
        ensures
            r@ == spec_hypersphere_bytes(*self),
            r@.len() == 64,
    {
        param_block(self.center, Vec4::zeros(), Vec4::zeros(), self.radius, F32_ZERO, F32_ZERO)
    }

    pub fn project_onto(&self, pos: Vec4) -> (r: Vec4)
        ensures
            r == spec_hypersphere_project(*self, pos),
    {
        let mut d = pos.sub(self.center);
        if f32_eq(d.x, F32_ZERO) && f32_eq(d.y, F32_ZERO) && f32_eq(d.z, F32_ZERO) && f32_eq(
            d.w,
            F32_ZERO,
        ) {
            d.x = f32_add(d.x, NUDGE);
        }
        d.normalize().scale(self.radius).add(self.center)
    }

    pub fn is_on_curve(&self, pos: Vec4) -> (r: bool)
        ensures
            r == spec_hypersphere_on_curve(*self, pos),
    {
        let p = pos.sub(self.center);
        f32_lt(
            f32_sub(
                f32_add(
                    f32_add(f32_add(f32_mul(p.x, p.x), f32_mul(p.y, p.y)), f32_mul(p.z, p.z)),
                    f32_mul(p.w, p.w),
                ),
                f32_mul(self.radius, self.radius),
            ),
            EPSILON,
        )
    }
}

impl Hypersphube {
    /// A hypersphube of the given radius and Lp exponent, centered one radius
    /// along the fourth axis.
    pub fn new(radius: u32, exponent: u32) -> (r: Hypersphube)
        ensures
            r.radius == radius,
            r.exponent == exponent,
            r.center == spec_v4_scale(
                radius,
                Vec4 { x: F32_ZERO, y: F32_ZERO, z: F32_ZERO, w: F32_ONE },
            ),
    {
        Hypersphube { exponent, radius, center: Vec4::w_axis().scale(radius) }
    }

    pub fn description(&self) -> (r: String)
        ensures
            r@ == "Hypersphube"@,
    {
        String::from_str("Hypersphube")
    }

    pub fn project_onto_wgsl(&self) -> (r: String)
        ensures
            r@ == spec_hypersphube_wgsl(),
    {
        String::from_str(
            "let new_pos: vec4<f32> = pos - manifold_info.v1;\n    \n    return manifold_info.v1 + manifold_info.r1 * (new_pos / pow(\n        pow(abs(new_pos.x), manifold_info.r2) + \n        pow(abs(new_pos.y), manifold_info.r2) + \n        pow(abs(new_pos.z), manifold_info.r2) + \n        pow(abs(new_pos.w), manifold_info.r2)\n    , 1.0 / manifold_info.r2));",
        )
    }

    pub fn get_bytes(&self) -> (r: Vec<u8>)
        ensures
            r@ == spec_hypersphube_bytes(*self),
            r@.len() == 64,
    {
        param_block(self.center, Vec4::zeros(), Vec4::zeros(), self.radius, self.exponent, F32_ZERO)
    }

    /// The Lp sum of the given offset under this variant's exponent.
    fn lp_sum(&self, v: Vec4) -> (r: u32)
        ensures
            r == spec_lp_sum(v, self.exponent),
    {
        f32_add(
            f32_add(
                f32_add(
                    f32_powf(f32_abs(v.x), self.exponent),
                    f32_powf(f32_abs(v.y), self.exponent),
                ),
                f32_powf(f32_abs(v.z), self.exponent),
            ),
            f32_powf(f32_abs(v.w), self.exponent),
        )
    }

    pub fn project_onto(&self, pos: Vec4) -> (r: Vec4)
        ensures
            r == spec_hypersphube_project(*self, pos),
    {
        let mut d = pos.sub(self.center);
        if f32_eq(d.x, F32_ZERO) && f32_eq(d.y, F32_ZERO) && f32_eq(d.z, F32_ZERO) && f32_eq(
            d.w,
            F32_ZERO,
        ) {
            d.x = f32_add(d.x, NUDGE);
        }
        let lp_norm = f32_powf(self.lp_sum(d), f32_div(F32_ONE, self.exponent));
        self.center.add(d.unscale(lp_norm).scale(self.radius))
    }

    pub fn is_on_curve(&self, pos: Vec4) -> (r: bool)
        ensures
            r == spec_hypersphube_on_curve(*self, pos),
    {
        let p = pos.sub(self.center);
        f32_lt(
            f32_sub(self.lp_sum(p), f32_powf(f32_abs(self.radius), self.exponent)),
            EPSILON,
        )
    }
}

impl Ditorus {
    /// A double torus with the three given nested radii, centered the sum of
    /// the radii along the fourth axis.
    pub fn new(radius_major_major: u32, radius_major_minor: u32, radius_minor_minor: u32) -> (r:
        Ditorus)
        ensures
            r.radius_major_major == radius_major_major,
            r.radius_major_minor == radius_major_minor,
            r.radius_minor_minor == radius_minor_minor,
            r.center == spec_v4_scale(
                add_bits(add_bits(radius_major_major, radius_major_minor), radius_minor_minor),
                Vec4 { x: F32_ZERO, y: F32_ZERO, z: F32_ZERO, w: F32_ONE },
            ),
    {
        Ditorus {
            radius_major_major,
            radius_major_minor,
            radius_minor_minor,
            center: Vec4::w_axis().scale(
                f32_add(f32_add(radius_major_major, radius_major_minor), radius_minor_minor),
            ),
        }
    }

    pub fn description(&self) -> (r: String)
        ensures
            r@ == "Ditorus"@,
    {
        String::from_str("Ditorus")
    }

    pub fn project_onto_wgsl(&self) -> (r: String)
        ensures
            r@ == spec_ditorus_wgsl(),
    {
        String::from_str(
            "let pos2 = pos - manifold_info.v1;\n    var new_pos: vec4<f32> = vec4(0.0, 0.0, 0.0, 0.0);\n    \n    new_pos += manifold_info.r1 * normalize(vec4(pos2.x, 0.0, 0.0, pos2.w));\n    new_pos += manifold_info.r2 * normalize(vec4(pos2.x, 0.0, pos2.z, pos2.w) - new_pos);\n    new_pos += manifold_info.r3 * normalize(pos2 - new_pos);\n    \n    return new_pos + manifold_info.v1;",
        )
    }

    pub fn get_bytes(&self) -> (r: Vec<u8>)
        ensures
            r@ == spec_ditorus_bytes(*self),
            r@.len() == 64,
    {
        param_block(
            self.center,
            Vec4::zeros(),
            Vec4::zeros(),
            self.radius_major_major,
            self.radius_major_minor,
            self.radius_minor_minor,
        )
    }

    pub fn project_onto(&self, pos: Vec4) -> (r: Vec4)
        ensures
            r == spec_ditorus_project(*self, pos),
    {
        let mut p = pos.sub(self.center);
        if f32_eq(p.x, F32_ZERO) && f32_eq(p.w, F32_ZERO) {
            p.x = f32_add(p.x, NUDGE);
        }
        let mut new_pos = Vec4::zeros();
        new_pos = new_pos.add(
            Vec4::new(p.x, F32_ZERO, F32_ZERO, p.w).normalize().scale(self.radius_major_major),
        );
        if f32_eq(p.x, new_pos.x) && f32_eq(p.z, F32_ZERO) && f32_eq(p.w, new_pos.w) {
            p.x = f32_add(p.x, NUDGE);
        }
        new_pos = new_pos.add(
            Vec4::new(p.x, F32_ZERO, p.z, p.w).sub(new_pos).normalize().scale(
                self.radius_major_minor,
            ),
        );
        if f32_eq(p.sub(new_pos).norm(), F32_ZERO) {
            p.w = f32_add(p.w, NUDGE);
        }
        new_pos = new_pos.add(p.sub(new_pos).normalize().scale(self.radius_minor_minor));
        new_pos.add(self.center)
    }

    pub fn is_on_curve(&self, pos: Vec4) -> (r: bool)
        ensures
            r == spec_ditorus_on_curve(*self, pos),
    {
        let p = pos.sub(self.center);
        let s1 = f32_sub(
            crate::fbits::f32_sqrt(f32_add(f32_mul(p.x, p.x), f32_mul(p.w, p.w))),
            self.radius_major_major,
        );
        let s2 = f32_sub(
            crate::fbits::f32_sqrt(f32_add(f32_mul(s1, s1), f32_mul(p.z, p.z))),
            self.radius_major_minor,
        );
        f32_lt(
            f32_abs(
                f32_sub(
                    f32_add(f32_mul(s2, s2), f32_mul(p.y, p.y)),
                    f32_mul(self.radius_minor_minor, self.radius_minor_minor),
                ),
            ),
            EPSILON,
        )
    }

    /// Adjusts one nested radius by a tenth per key press: the bits of `0.1`
    /// added to or subtracted from exactly one radius, the center left as it
    /// was.
    pub fn change_on_keybinds(&mut self, key_code: &KeyCode)
        ensures
            *final(self) == spec_ditorus_after_key(*old(self), *key_code),
            final(self).center == old(self).center,
    {
        match key_code {
            KeyCode::T => {
                self.radius_major_major = f32_add(self.radius_major_major, AMOUNT);
            },
            KeyCode::G => {
                self.radius_major_major = f32_sub(self.radius_major_major, AMOUNT);
            },
            KeyCode::Y => {
                self.radius_major_minor = f32_add(self.radius_major_minor, AMOUNT);
            },
            KeyCode::H => {
                self.radius_major_minor = f32_sub(self.radius_major_minor, AMOUNT);
            },
            KeyCode::U => {
                self.radius_minor_minor = f32_add(self.radius_minor_minor, AMOUNT);
            },
            KeyCode::J => {
                self.radius_minor_minor = f32_sub(self.radius_minor_minor, AMOUNT);
            },
            _ => {},
        }
    }
}

/// The step applied to a double-torus radius per key press: the bits of
/// `0.1`.
pub const AMOUNT: u32 = 0x3DCC_CCCD;

/// What a key press does to the double torus: exactly one radius moves by
/// the fixed step, every other field stays as it was.
pub open spec fn spec_ditorus_after_key(d: Ditorus, key: KeyCode) -> Ditorus {
    match key {
        KeyCode::T => Ditorus { radius_major_major: add_bits(d.radius_major_major, AMOUNT), ..d },
        KeyCode::G => Ditorus { radius_major_major: sub_bits(d.radius_major_major, AMOUNT), ..d },
        KeyCode::Y => Ditorus { radius_major_minor: add_bits(d.radius_major_minor, AMOUNT), ..d },
        KeyCode::H => Ditorus { radius_major_minor: sub_bits(d.radius_major_minor, AMOUNT), ..d },
        KeyCode::U => Ditorus { radius_minor_minor: add_bits(d.radius_minor_minor, AMOUNT), ..d },
        KeyCode::J => Ditorus { radius_minor_minor: sub_bits(d.radius_minor_minor, AMOUNT), ..d },
        _ => d,
    }
}

} // verus!
