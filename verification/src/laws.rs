use vstd::prelude::*;
use crate::vecs::Vec4;
use crate::fbits::{spec_abs_bits, spec_lt_bits, spec_is_nan, F32_ZERO};
use crate::encoding::{spec_param_block, spec_word_bytes, lemma_param_block_len};
use crate::manifold::{
    Manifold, EPSILON, spec_manifold_bytes, spec_manifold_params, spec_manifold_on_curve,
};
use crate::manifold::shapes3d::{
    ExtrudedShape, spec_extruded_project, spec_shape3d_project, spec_shape3d_on_curve,
    spec_shape3d_supports_membership,
};
use crate::manifold::shapes4d::{spec_hyperplane_project, spec_hyperplane_on_curve};
use crate::vecs::Vec3;

verus! {

// The laws that hold exactly, at the bit level, of the operations above.
// The floating-point analogues that hold only up to rounding (idempotence of
// the curved projections, unit rays, the basis fixed point) are exercised by
// the test suite instead: no exact statement of them is true.

/// Projecting onto the hyperplane is exactly idempotent: the projection only
/// zeroes the fourth coordinate, so a second application changes nothing.
pub proof fn lemma_hyperplane_projection_idempotent(pos: Vec4)
    ensures
        spec_hyperplane_project(spec_hyperplane_project(pos)) == spec_hyperplane_project(pos),
{
}

/// Every hyperplane projection lands on the hyperplane: the projected point
/// has a zero fourth coordinate, whose magnitude lies below the tolerance.
pub proof fn lemma_hyperplane_projection_on_curve(pos: Vec4)
    ensures
        spec_hyperplane_on_curve(spec_hyperplane_project(pos)),
{
    assert(F32_ZERO & 0x7FFF_FFFF == 0) by (bit_vector);
    assert(EPSILON & 0x7FFF_FFFF == 0x3C23_D70A) by (bit_vector);
    assert(!spec_is_nan(F32_ZERO));
    assert(!spec_is_nan(EPSILON));
    assert(spec_abs_bits(F32_ZERO) == 0);
    assert(spec_lt_bits(0, EPSILON));
}

/// Extrusion passes the third coordinate through untouched, and the other
/// three coordinates are exactly the wrapped shape's projection of the
/// (x, y, w) sub-tuple.
pub proof fn lemma_extruded_projection_keeps_depth(e: ExtrudedShape, pos: Vec4)
    ensures
        spec_extruded_project(e, pos).z == pos.z,
        ({
            let q = spec_shape3d_project(e.0, Vec3 { x: pos.x, y: pos.y, z: pos.w });
            spec_extruded_project(e, pos) == (Vec4 { x: q.x, y: q.y, z: pos.z, w: q.z })
        }),
{
}

/// Extrusion preserves idempotence: wherever the wrapped shape's projection
/// is idempotent at the (x, y, w) sub-tuple, projecting the extruded surface
/// twice gives the same point as projecting it once.
pub proof fn lemma_extrusion_preserves_idempotence(e: ExtrudedShape, pos: Vec4)
    requires
        ({
            let q = spec_shape3d_project(e.0, Vec3 { x: pos.x, y: pos.y, z: pos.w });
            spec_shape3d_project(e.0, q) == q
        }),
    ensures
        spec_extruded_project(e, spec_extruded_project(e, pos)) == spec_extruded_project(e, pos),
{
}

/// Extrusion preserves self-membership: wherever the wrapped shape's
/// projection of the (x, y, w) sub-tuple passes the shape's own membership
/// test, the projected extruded point passes the extruded test.
pub proof fn lemma_extrusion_preserves_self_membership(e: ExtrudedShape, pos: Vec4)
    requires
        spec_shape3d_supports_membership(e.0),
        spec_shape3d_on_curve(e.0, spec_shape3d_project(e.0, Vec3 { x: pos.x, y: pos.y, z: pos.w })),
    ensures
        spec_manifold_on_curve(
            Manifold::ExtrudedShape(e),
            spec_extruded_project(e, pos),
        ),
{
}

/// The parameter block's layout is fixed: 64 bytes, the first vector's
/// components at offsets 0, 4, 8 and 12, the two reserved vectors at 16 and
/// 32, the three scalars at 48, 52 and 56, and zero padding at 60.
pub proof fn lemma_param_block_layout(v1: Vec4, v2: Vec4, v3: Vec4, r1: u32, r2: u32, r3: u32)
    ensures
        spec_param_block(v1, v2, v3, r1, r2, r3).len() == 64,
        spec_param_block(v1, v2, v3, r1, r2, r3).subrange(0, 4) == spec_word_bytes(v1.x),
        spec_param_block(v1, v2, v3, r1, r2, r3).subrange(4, 8) == spec_word_bytes(v1.y),
        spec_param_block(v1, v2, v3, r1, r2, r3).subrange(8, 12) == spec_word_bytes(v1.z),
        spec_param_block(v1, v2, v3, r1, r2, r3).subrange(12, 16) == spec_word_bytes(v1.w),
        spec_param_block(v1, v2, v3, r1, r2, r3).subrange(16, 20) == spec_word_bytes(v2.x),
        spec_param_block(v1, v2, v3, r1, r2, r3).subrange(20, 24) == spec_word_bytes(v2.y),
        spec_param_block(v1, v2, v3, r1, r2, r3).subrange(24, 28) == spec_word_bytes(v2.z),
        spec_param_block(v1, v2, v3, r1, r2, r3).subrange(28, 32) == spec_word_bytes(v2.w),
        spec_param_block(v1, v2, v3, r1, r2, r3).subrange(32, 36) == spec_word_bytes(v3.x),
        spec_param_block(v1, v2, v3, r1, r2, r3).subrange(36, 40) == spec_word_bytes(v3.y),
        spec_param_block(v1, v2, v3, r1, r2, r3).subrange(40, 44) == spec_word_bytes(v3.z),
        spec_param_block(v1, v2, v3, r1, r2, r3).subrange(44, 48) == spec_word_bytes(v3.w),
        spec_param_block(v1, v2, v3, r1, r2, r3).subrange(48, 52) == spec_word_bytes(r1),
        spec_param_block(v1, v2, v3, r1, r2, r3).subrange(52, 56) == spec_word_bytes(r2),
        spec_param_block(v1, v2, v3, r1, r2, r3).subrange(56, 60) == spec_word_bytes(r3),
        spec_param_block(v1, v2, v3, r1, r2, r3).subrange(60, 64) == spec_word_bytes(F32_ZERO),
{
    vstd::bytes::lemma_auto_spec_u32_to_from_le_bytes();
    let b = spec_param_block(v1, v2, v3, r1, r2, r3);
    assert(b.subrange(0, 4) =~= spec_word_bytes(v1.x));
    assert(b.subrange(4, 8) =~= spec_word_bytes(v1.y));
    assert(b.subrange(8, 12) =~= spec_word_bytes(v1.z));
    assert(b.subrange(12, 16) =~= spec_word_bytes(v1.w));
    assert(b.subrange(16, 20) =~= spec_word_bytes(v2.x));
    assert(b.subrange(20, 24) =~= spec_word_bytes(v2.y));
    assert(b.subrange(24, 28) =~= spec_word_bytes(v2.z));
    assert(b.subrange(28, 32) =~= spec_word_bytes(v2.w));
    assert(b.subrange(32, 36) =~= spec_word_bytes(v3.x));
    assert(b.subrange(36, 40) =~= spec_word_bytes(v3.y));
    assert(b.subrange(40, 44) =~= spec_word_bytes(v3.z));
    assert(b.subrange(44, 48) =~= spec_word_bytes(v3.w));
    assert(b.subrange(48, 52) =~= spec_word_bytes(r1));
    assert(b.subrange(52, 56) =~= spec_word_bytes(r2));
    assert(b.subrange(56, 60) =~= spec_word_bytes(r3));
    assert(b.subrange(60, 64) =~= spec_word_bytes(F32_ZERO));
}

/// Every variant serializes through the one shared block layout, applied to
/// its own parameter slots: the byte length and the field offsets are the
/// same for all variants.
pub proof fn lemma_manifold_bytes_are_one_layout(m: Manifold)
    ensures
        spec_manifold_bytes(m) == ({
            let p = spec_manifold_params(m);
            spec_param_block(p.0, p.1, p.2, p.3, p.4, p.5)
        }),
        spec_manifold_bytes(m).len() == 64,
{
    lemma_manifold_block_len(m);
}

/// Every variant serializes to a block of the same byte length.
pub proof fn lemma_manifold_block_len(m: Manifold)
    ensures
        spec_manifold_bytes(m).len() == 64,
{
    match m {
        Manifold::Hyperplane(_) => {
            lemma_param_block_len(
                crate::vecs::spec_v4_zeros(),
                crate::vecs::spec_v4_zeros(),
                crate::vecs::spec_v4_zeros(),
                F32_ZERO,
                F32_ZERO,
                F32_ZERO,
            );
        },
        Manifold::Hypersphere(s) => {
            lemma_param_block_len(
                s.center,
                crate::vecs::spec_v4_zeros(),
                crate::vecs::spec_v4_zeros(),
                s.radius,
                F32_ZERO,
                F32_ZERO,
            );
        },
        Manifold::Hypersphube(s) => {
            lemma_param_block_len(
                s.center,
                crate::vecs::spec_v4_zeros(),
                crate::vecs::spec_v4_zeros(),
                s.radius,
                s.exponent,
                F32_ZERO,
            );
        },
        Manifold::Ditorus(d) => {
            lemma_param_block_len(
                d.center,
                crate::vecs::spec_v4_zeros(),
                crate::vecs::spec_v4_zeros(),
                d.radius_major_major,
                d.radius_major_minor,
                d.radius_minor_minor,
            );
        },
        Manifold::ExtrudedShape(e) => {
            let d = crate::manifold::shapes3d::spec_shape3d_data(e.0);
            lemma_param_block_len(
                crate::manifold::shapes3d::spec_embed4(d.0),
                crate::manifold::shapes3d::spec_embed4(d.1),
                crate::manifold::shapes3d::spec_embed4(d.2),
                d.3,
                d.4,
                d.5,
            );
        },
    }
}

} // verus!
