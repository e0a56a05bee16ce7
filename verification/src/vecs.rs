use vstd::prelude::*;
use crate::fbits::{
    add_bits, sub_bits, mul_bits, div_bits, sqrt_bits, spec_neg_bits, spec_eq_bits, f32_add,
    f32_sub, f32_mul, f32_div, f32_sqrt, f32_neg, f32_eq, F32_ZERO, F32_ONE,
};

verus! {

// Four- and three-component vectors of binary32 bit patterns, with the
// componentwise operations and the Euclidean norm. The accumulation orders in
// the dot products are part of the contracts: a different association would
// round differently.

#[derive(Clone, Copy, PartialEq, Eq, Structural, Debug)]
pub struct Vec4 {
    pub x: u32,
    pub y: u32,
    pub z: u32,
    pub w: u32,
}

#[derive(Clone, Copy, PartialEq, Eq, Structural, Debug)]
pub struct Vec3 {
    pub x: u32,
    pub y: u32,
    pub z: u32,
}

pub open spec fn spec_v4_add(a: Vec4, b: Vec4) -> Vec4 {
    Vec4 {
        x: add_bits(a.x, b.x),
        y: add_bits(a.y, b.y),
        z: add_bits(a.z, b.z),
        w: add_bits(a.w, b.w),
    }
}

pub open spec fn spec_v4_sub(a: Vec4, b: Vec4) -> Vec4 {
    Vec4 {
        x: sub_bits(a.x, b.x),
        y: sub_bits(a.y, b.y),
        z: sub_bits(a.z, b.z),
        w: sub_bits(a.w, b.w),
    }
}

pub open spec fn spec_v4_scale(s: u32, v: Vec4) -> Vec4 {
    Vec4 {
        x: mul_bits(s, v.x),
        y: mul_bits(s, v.y),
        z: mul_bits(s, v.z),
        w: mul_bits(s, v.w),
    }
}

pub open spec fn spec_v4_unscale(v: Vec4, s: u32) -> Vec4 {
    Vec4 {
        x: div_bits(v.x, s),
        y: div_bits(v.y, s),
        z: div_bits(v.z, s),
        w: div_bits(v.w, s),
    }
}

pub open spec fn spec_v4_neg(v: Vec4) -> Vec4 {
    Vec4 {
        x: spec_neg_bits(v.x),
        y: spec_neg_bits(v.y),
        z: spec_neg_bits(v.z),
        w: spec_neg_bits(v.w),
    }
}

/// The dot product of two four-component vectors, accumulated as
/// `(x + z) + (y + w)`.
pub open spec fn spec_v4_dot(a: Vec4, b: Vec4) -> u32 {
    add_bits(
        add_bits(mul_bits(a.x, b.x), mul_bits(a.z, b.z)),
        add_bits(mul_bits(a.y, b.y), mul_bits(a.w, b.w)),
    )
}

pub open spec fn spec_v4_norm_sq(v: Vec4) -> u32 {
    add_bits(F32_ZERO, spec_v4_dot(v, v))
}

pub open spec fn spec_v4_norm(v: Vec4) -> u32 {
    sqrt_bits(spec_v4_norm_sq(v))
}

/// Normalization divides each component by the Euclidean norm.
pub open spec fn spec_v4_normalize(v: Vec4) -> Vec4 {
    spec_v4_unscale(v, spec_v4_norm(v))
}

/// Componentwise IEEE `==` of two four-component vectors.
pub open spec fn spec_v4_eq_float(a: Vec4, b: Vec4) -> bool {
    spec_eq_bits(a.x, b.x) && spec_eq_bits(a.y, b.y) && spec_eq_bits(a.z, b.z) && spec_eq_bits(
        a.w,
        b.w,
    )
}

pub open spec fn spec_v4_zeros() -> Vec4 {
    Vec4 { x: F32_ZERO, y: F32_ZERO, z: F32_ZERO, w: F32_ZERO }
}

pub open spec fn spec_v3_add(a: Vec3, b: Vec3) -> Vec3 {
    Vec3 { x: add_bits(a.x, b.x), y: add_bits(a.y, b.y), z: add_bits(a.z, b.z) }
}

pub open spec fn spec_v3_sub(a: Vec3, b: Vec3) -> Vec3 {
    Vec3 { x: sub_bits(a.x, b.x), y: sub_bits(a.y, b.y), z: sub_bits(a.z, b.z) }
}

pub open spec fn spec_v3_scale(s: u32, v: Vec3) -> Vec3 {
    Vec3 { x: mul_bits(s, v.x), y: mul_bits(s, v.y), z: mul_bits(s, v.z) }
}

pub open spec fn spec_v3_unscale(v: Vec3, s: u32) -> Vec3 {
    Vec3 { x: div_bits(v.x, s), y: div_bits(v.y, s), z: div_bits(v.z, s) }
}

/// The dot product of two three-component vectors, accumulated as
/// `(x + y) + z`.
pub open spec fn spec_v3_dot(a: Vec3, b: Vec3) -> u32 {
    add_bits(add_bits(mul_bits(a.x, b.x), mul_bits(a.y, b.y)), mul_bits(a.z, b.z))
}

pub open spec fn spec_v3_norm_sq(v: Vec3) -> u32 {
    add_bits(F32_ZERO, spec_v3_dot(v, v))
}

pub open spec fn spec_v3_norm(v: Vec3) -> u32 {
    sqrt_bits(spec_v3_norm_sq(v))
}

/// Normalization divides each component by the Euclidean norm.
pub open spec fn spec_v3_normalize(v: Vec3) -> Vec3 {
    spec_v3_unscale(v, spec_v3_norm(v))
}

pub open spec fn spec_v3_zeros() -> Vec3 {
    Vec3 { x: F32_ZERO, y: F32_ZERO, z: F32_ZERO }
}

impl Vec4 {
    pub fn new(x: u32, y: u32, z: u32, w: u32) -> (r: Vec4)
        ensures
            r == (Vec4 { x, y, z, w }),
    {
        Vec4 { x, y, z, w }
    }

    pub fn zeros() -> (r: Vec4)
        ensures
            r == spec_v4_zeros(),
    {
        Vec4 { x: F32_ZERO, y: F32_ZERO, z: F32_ZERO, w: F32_ZERO }
    }

    /// The unit vector along the fourth axis.
    pub fn w_axis() -> (r: Vec4)
        ensures
            r == (Vec4 { x: F32_ZERO, y: F32_ZERO, z: F32_ZERO, w: F32_ONE }),
    {
        Vec4 { x: F32_ZERO, y: F32_ZERO, z: F32_ZERO, w: F32_ONE }
    }

    pub fn add(self, other: Vec4) -> (r: Vec4)
        ensures
            r == spec_v4_add(self, other),
    {
        Vec4 {
            x: f32_add(self.x, other.x),
            y: f32_add(self.y, other.y),
            z: f32_add(self.z, other.z),
            w: f32_add(self.w, other.w),
        }
    }

    pub fn sub(self, other: Vec4) -> (r: Vec4)
        ensures
            r == spec_v4_sub(self, other),
    {
        Vec4 {
            x: f32_sub(self.x, other.x),
            y: f32_sub(self.y, other.y),
            z: f32_sub(self.z, other.z),
            w: f32_sub(self.w, other.w),
        }
    }

    pub fn scale(self, s: u32) -> (r: Vec4)
        ensures
            r == spec_v4_scale(s, self),
    {
        Vec4 {
            x: f32_mul(s, self.x),
            y: f32_mul(s, self.y),
            z: f32_mul(s, self.z),
            w: f32_mul(s, self.w),
        }
    }

    pub fn unscale(self, s: u32) -> (r: Vec4)
        ensures
            r == spec_v4_unscale(self, s),
    {
        Vec4 {
            x: f32_div(self.x, s),
            y: f32_div(self.y, s),
            z: f32_div(self.z, s),
            w: f32_div(self.w, s),
        }
    }

    pub fn neg(self) -> (r: Vec4)
        ensures
            r == spec_v4_neg(self),
    {
        Vec4 {
            x: f32_neg(self.x),
            y: f32_neg(self.y),
            z: f32_neg(self.z),
            w: f32_neg(self.w),
        }
    }

    pub fn dot(self, other: Vec4) -> (r: u32)
        ensures
            r == spec_v4_dot(self, other),
    {
        f32_add(
            f32_add(f32_mul(self.x, other.x), f32_mul(self.z, other.z)),
            f32_add(f32_mul(self.y, other.y), f32_mul(self.w, other.w)),
        )
    }

    pub fn norm_sq(self) -> (r: u32)
        ensures
            r == spec_v4_norm_sq(self),
    {
        f32_add(F32_ZERO, self.dot(self))
    }

    pub fn norm(self) -> (r: u32)
        ensures
            r == spec_v4_norm(self),
    {
        f32_sqrt(self.norm_sq())
    }

    pub fn normalize(self) -> (r: Vec4)
        ensures
            r == spec_v4_normalize(self),
    {
        let n = self.norm();
        self.unscale(n)
    }

    /// Componentwise IEEE `==`; note that this is not bit equality.
    pub fn eq_float(self, other: Vec4) -> (r: bool)
        ensures
            r == spec_v4_eq_float(self, other),
    {
        f32_eq(self.x, other.x) && f32_eq(self.y, other.y) && f32_eq(self.z, other.z) && f32_eq(
            self.w,
            other.w,
        )
    }
}

impl Vec3 {
    pub fn new(x: u32, y: u32, z: u32) -> (r: Vec3)
        ensures
            r == (Vec3 { x, y, z }),
    {
        Vec3 { x, y, z }
    }

    pub fn zeros() -> (r: Vec3)
        ensures
            r == spec_v3_zeros(),
    {
        Vec3 { x: F32_ZERO, y: F32_ZERO, z: F32_ZERO }
    }

    /// The unit vector along the third axis.
    pub fn z_axis() -> (r: Vec3)
        ensures
            r == (Vec3 { x: F32_ZERO, y: F32_ZERO, z: F32_ONE }),
    {
        Vec3 { x: F32_ZERO, y: F32_ZERO, z: F32_ONE }
    }

    pub fn add(self, other: Vec3) -> (r: Vec3)
        ensures
            r == spec_v3_add(self, other),
    {
        Vec3 {
            x: f32_add(self.x, other.x),
            y: f32_add(self.y, other.y),
            z: f32_add(self.z, other.z),
        }
    }

    pub fn sub(self, other: Vec3) -> (r: Vec3)
        ensures
            r == spec_v3_sub(self, other),
    {
        Vec3 {
            x: f32_sub(self.x, other.x),
            y: f32_sub(self.y, other.y),
            z: f32_sub(self.z, other.z),
        }
    }

    pub fn scale(self, s: u32) -> (r: Vec3)
        ensures
            r == spec_v3_scale(s, self),
    {
        Vec3 { x: f32_mul(s, self.x), y: f32_mul(s, self.y), z: f32_mul(s, self.z) }
    }

    pub fn unscale(self, s: u32) -> (r: Vec3)
        ensures
            r == spec_v3_unscale(self, s),
    {
        Vec3 { x: f32_div(self.x, s), y: f32_div(self.y, s), z: f32_div(self.z, s) }
    }

    pub fn dot(self, other: Vec3) -> (r: u32)
        ensures
            r == spec_v3_dot(self, other),
    {
        f32_add(
            f32_add(f32_mul(self.x, other.x), f32_mul(self.y, other.y)),
            f32_mul(self.z, other.z),
        )
    }

    pub fn norm_sq(self) -> (r: u32)
        ensures
            r == spec_v3_norm_sq(self),
    {
        f32_add(F32_ZERO, self.dot(self))
    }

    pub fn norm(self) -> (r: u32)
        ensures
            r == spec_v3_norm(self),
    {
        f32_sqrt(self.norm_sq())
    }

    pub fn normalize(self) -> (r: Vec3)
        ensures
            r == spec_v3_normalize(self),
    {
        let n = self.norm();
        self.unscale(n)
    }
}

} // verus!
