pub mod shapes3d;
pub mod shapes4d;

use vstd::prelude::*;
use crate::vecs::{
    Vec4, Vec3, spec_v4_add, spec_v4_sub, spec_v4_scale, spec_v4_normalize, spec_v4_eq_float,
};
use crate::binding_structs::KeyCode;
use crate::fbits::F32_ZERO;
use crate::vecs::spec_v4_zeros;
use crate::encoding::spec_param_block;
use shapes3d::{
    ExtrudedShape, spec_extruded_project, spec_extruded_bytes, spec_extruded_wgsl,
    spec_shape3d_supports_membership, spec_shape3d_on_curve, spec_shape3d_desc, spec_shape3d_data,
    spec_embed4,
};
use shapes4d::{
    Hyperplane, Hypersphere, Hypersphube, Ditorus, spec_hyperplane_project,
    spec_hypersphere_project, spec_hypersphube_project, spec_ditorus_project,
    spec_hyperplane_on_curve, spec_hypersphere_on_curve, spec_hypersphube_on_curve,
    spec_ditorus_on_curve, spec_hyperplane_bytes, spec_hypersphere_bytes, spec_hypersphube_bytes,
    spec_ditorus_bytes, spec_hyperplane_wgsl, spec_hypersphere_wgsl, spec_hypersphube_wgsl,
    spec_ditorus_wgsl, spec_ditorus_after_key,
};

verus! {

/// Tolerance of the membership tests: the bits of `0.01`.
pub const EPSILON: u32 = 0x3C23_D70A;

/// The fixed perturbation applied to a degenerate coordinate before a
/// normalization: the bits of `0.0001`.
pub const NUDGE: u32 = 0x38D1_B717;

/// A tracked position together with the direction it is moving in.
#[derive(Clone, Copy, PartialEq, Eq, Structural, Debug)]
pub struct Point {
    pub pos: Vec4,
    pub ray: Vec4,
}

/// The closed set of four-dimensional surfaces.
#[derive(Clone, Copy, PartialEq, Eq, Structural, Debug)]
pub enum Manifold {
    Hyperplane(Hyperplane),
    Hypersphere(Hypersphere),
    Hypersphube(Hypersphube),
    Ditorus(Ditorus),
    ExtrudedShape(ExtrudedShape),
}

/// What the projection of this surface returns.
pub open spec fn spec_manifold_project(m: Manifold, pos: Vec4) -> Vec4 {
    match m {
        Manifold::Hyperplane(_) => spec_hyperplane_project(pos),
        Manifold::Hypersphere(s) => spec_hypersphere_project(s, pos),
        Manifold::Hypersphube(s) => spec_hypersphube_project(s, pos),
        Manifold::Ditorus(d) => spec_ditorus_project(d, pos),
        Manifold::ExtrudedShape(e) => spec_extruded_project(e, pos),
    }
}

/// Whether the surface implements the membership test.
pub open spec fn spec_manifold_supports_membership(m: Manifold) -> bool {
    match m {
        Manifold::ExtrudedShape(e) => spec_shape3d_supports_membership(e.0),
        _ => true,
    }
}

/// The membership test of a surface that supports one.
pub open spec fn spec_manifold_on_curve(m: Manifold, pos: Vec4) -> bool {
    match m {
        Manifold::Hyperplane(_) => spec_hyperplane_on_curve(pos),
        Manifold::Hypersphere(s) => spec_hypersphere_on_curve(s, pos),
        Manifold::Hypersphube(s) => spec_hypersphube_on_curve(s, pos),
        Manifold::Ditorus(d) => spec_ditorus_on_curve(d, pos),
        Manifold::ExtrudedShape(e) => spec_shape3d_on_curve(
            e.0,
            Vec3 { x: pos.x, y: pos.y, z: pos.w },
        ),
    }
}

pub open spec fn spec_manifold_desc(m: Manifold) -> Seq<char> {
    match m {
        Manifold::Hyperplane(_) => "Hyperplane"@,
        Manifold::Hypersphere(_) => "Hypersphere"@,
        Manifold::Hypersphube(_) => "Hypersphube"@,
        Manifold::Ditorus(_) => "Ditorus"@,
        Manifold::ExtrudedShape(e) => "Extruded: "@ + spec_shape3d_desc(e.0),
    }
}

/// The slots each variant hands to the one shared block layout: its center
/// vector, two zero-filled reserved vectors, and its up-to-three scalars.
pub open spec fn spec_manifold_params(m: Manifold) -> (Vec4, Vec4, Vec4, u32, u32, u32) {
    match m {
        Manifold::Hyperplane(_) => (
            spec_v4_zeros(),
            spec_v4_zeros(),
            spec_v4_zeros(),
            F32_ZERO,
            F32_ZERO,
            F32_ZERO,
        ),
        Manifold::Hypersphere(s) => (
            s.center,
            spec_v4_zeros(),
            spec_v4_zeros(),
            s.radius,
            F32_ZERO,
            F32_ZERO,
        ),
        Manifold::Hypersphube(s) => (
            s.center,
            spec_v4_zeros(),
            spec_v4_zeros(),
            s.radius,
            s.exponent,
            F32_ZERO,
        ),
        Manifold::Ditorus(d) => (
            d.center,
            spec_v4_zeros(),
            spec_v4_zeros(),
            d.radius_major_major,
            d.radius_major_minor,
            d.radius_minor_minor,
        ),
        Manifold::ExtrudedShape(e) => {
            let d = spec_shape3d_data(e.0);
            (spec_embed4(d.0), spec_embed4(d.1), spec_embed4(d.2), d.3, d.4, d.5)
        },
    }
}

/// The surface's serialized parameter block.
pub open spec fn spec_manifold_bytes(m: Manifold) -> Seq<u8> {
    match m {
        Manifold::Hyperplane(_) => spec_hyperplane_bytes(),
        Manifold::Hypersphere(s) => spec_hypersphere_bytes(s),
        Manifold::Hypersphube(s) => spec_hypersphube_bytes(s),
        Manifold::Ditorus(d) => spec_ditorus_bytes(d),
        Manifold::ExtrudedShape(e) => spec_extruded_bytes(e),
    }
}

pub open spec fn spec_manifold_wgsl(m: Manifold) -> Seq<char> {
    match m {
        Manifold::Hyperplane(_) => spec_hyperplane_wgsl(),
        Manifold::Hypersphere(_) => spec_hypersphere_wgsl(),
        Manifold::Hypersphube(_) => spec_hypersphube_wgsl(),
        Manifold::Ditorus(_) => spec_ditorus_wgsl(),
        Manifold::ExtrudedShape(e) => spec_extruded_wgsl(e),
    }
}

/// What a key press does to the surface: only the double torus reacts.
pub open spec fn spec_manifold_after_key(m: Manifold, key: KeyCode) -> Manifold {
    match m {
        Manifold::Ditorus(d) => Manifold::Ditorus(spec_ditorus_after_key(d, key)),
        _ => m,
    }
}

/// One retraction step: displace the position along the ray, reproject, and
/// point the ray from the old position to the new one. When the projected
/// candidate compares equal to the old position the displacement is zero and
/// no direction exists; the ray is then kept as it was.
pub open spec fn spec_advance_point(m: Manifold, point: Point, delta: u32) -> Point {
    let candidate = spec_manifold_project(
        m,
        spec_v4_add(point.pos, spec_v4_scale(delta, point.ray)),
    );
    Point {
        pos: candidate,
        ray: if spec_v4_eq_float(candidate, point.pos) {
            point.ray
        } else {
            spec_v4_normalize(spec_v4_sub(candidate, point.pos))
        },
    }
}

/// The marker line after whose opening brace the snippet is inserted.
pub open spec fn spec_fn_header() -> Seq<char> {
    "fn project_onto_curve(pos: vec4<f32>) -> vec4<f32> {"@
}

/// The pattern occurs in the text at position `i`.
pub open spec fn spec_is_match(text: Seq<char>, pat: Seq<char>, i: int) -> bool {
    0 <= i && i + pat.len() <= text.len() && text.subrange(i, i + pat.len()) == pat
}

/// Finds the first occurrence of `pat` in `text`, if any.
fn find_sub(text: &str, pat: &str) -> (r: Option<usize>)
    ensures
        match r {
            Some(i) => spec_is_match(text@, pat@, i as int) && (forall|j: int|
                0 <= j < i as int ==> !spec_is_match(text@, pat@, j)),
            None => forall|j: int| !spec_is_match(text@, pat@, j),
        },
{
    let tlen = text.unicode_len();
    let plen = pat.unicode_len();
    if plen == 0 {
        proof {
            assert(text@.subrange(0, 0) =~= pat@);
        }
        return Some(0);
    }
    if plen > tlen {
        proof {
            assert forall|j: int| !spec_is_match(text@, pat@, j) by {}
        }
        return None;
    }
    let mut i: usize = 0;
    while i <= tlen - plen
        invariant
            0 < plen <= tlen,
            tlen == text@.len(),
            plen == pat@.len(),
            i <= tlen - plen + 1,
            forall|j: int| 0 <= j < i as int ==> !spec_is_match(text@, pat@, j),
        decreases tlen - plen - i + 1,
    {
        let mut j: usize = 0;
        let mut matches = true;
        proof {
            assert(text@.subrange(i as int, i as int) =~= pat@.subrange(0, 0));
        }
        while j < plen
            invariant
                0 < plen <= tlen,
                tlen == text@.len(),
                plen == pat@.len(),
                i <= tlen - plen,
                j <= plen,
                matches <==> text@.subrange(i as int, i as int + j as int) == pat@.subrange(
                    0,
                    j as int,
                ),
            decreases plen - j,
        {
            let c = text.get_char(i + j);
            let d = pat.get_char(j);
            proof {
                let t0 = text@.subrange(i as int, i as int + j as int);
                let p0 = pat@.subrange(0, j as int);
                let t1 = text@.subrange(i as int, i as int + j as int + 1);
                let p1 = pat@.subrange(0, j as int + 1);
                assert(t1 =~= t0.push(text@[i as int + j as int]));
                assert(p1 =~= p0.push(pat@[j as int]));
                if t0 == p0 && text@[i as int + j as int] == pat@[j as int] {
                    assert(t1 == p1);
                } else {
                    assert(t1 != p1) by {
                        if t1 == p1 {
                            assert(t0 =~= t1.subrange(0, j as int));
                            assert(p0 =~= p1.subrange(0, j as int));
                            assert(t1[j as int] == p1[j as int]);
                        }
                    }
                }
            }
            matches = matches && c == d;
            j = j + 1;
        }
        if matches {
            proof {
                assert(pat@.subrange(0, plen as int) =~= pat@);
            }
            return Some(i);
        }
        proof {
            assert(!spec_is_match(text@, pat@, i as int)) by {
                assert(pat@.subrange(0, plen as int) =~= pat@);
            }
        }
        i = i + 1;
    }
    proof {
        assert forall|j: int| !spec_is_match(text@, pat@, j) by {
            if 0 <= j < i as int {
                assert(!spec_is_match(text@, pat@, j));
            }
        }
    }
    None
}

/// A match of `pat` inside the tail of `t` that starts at `off` is a match
/// in `t` shifted by `off`.
proof fn lemma_match_shift(t: Seq<char>, pat: Seq<char>, off: int, k: int)
    requires
        0 <= off <= t.len(),
    ensures
        spec_is_match(t.subrange(off, t.len() as int), pat, k) <==> (0 <= k && spec_is_match(
            t,
            pat,
            off + k,
        )),
{
    let rest = t.subrange(off, t.len() as int);
    if 0 <= k && k + pat.len() <= rest.len() {
        assert(rest.subrange(k, k + pat.len() as int) =~= t.subrange(
            off + k,
            off + k + pat.len() as int,
        ));
    }
}

impl Manifold {
    pub fn description(&self) -> (r: String)
        ensures
            r@ == spec_manifold_desc(*self),
    {
        match self {
            Manifold::Hyperplane(h) => h.description(),
            Manifold::Hypersphere(s) => s.description(),
            Manifold::Hypersphube(s) => s.description(),
            Manifold::Ditorus(d) => d.description(),
            Manifold::ExtrudedShape(e) => e.description(),
        }
    }

    /// The nearest-point-style mapping onto the surface; defined for all
    /// inputs, with degenerate directions nudged rather than left undefined.
    pub fn project_onto(&self, pos: Vec4) -> (r: Vec4)
        ensures
            r == spec_manifold_project(*self, pos),
    {
        match self {
            Manifold::Hyperplane(h) => h.project_onto(pos),
            Manifold::Hypersphere(s) => s.project_onto(pos),
            Manifold::Hypersphube(s) => s.project_onto(pos),
            Manifold::Ditorus(d) => d.project_onto(pos),
            Manifold::ExtrudedShape(e) => e.project_onto(pos),
        }
    }

    /// The membership test, or an explicit "capability not implemented"
    /// failure naming the variant, never a silent false.
    pub fn is_on_curve(&self, pos: Vec4) -> (r: Result<bool, String>)
        ensures
            spec_manifold_supports_membership(*self) ==> r == Ok::<bool, String>(
                spec_manifold_on_curve(*self, pos),
            ),
            !spec_manifold_supports_membership(*self) ==> (r matches Err(m) && m@
                == spec_shape3d_desc(self->ExtrudedShape_0.0)
                + " does not currently impl is_on_curve"@),
    {
        match self {
            Manifold::Hyperplane(h) => Ok(h.is_on_curve(pos)),
            Manifold::Hypersphere(s) => Ok(s.is_on_curve(pos)),
            Manifold::Hypersphube(s) => Ok(s.is_on_curve(pos)),
            Manifold::Ditorus(d) => Ok(d.is_on_curve(pos)),
            Manifold::ExtrudedShape(e) => e.is_on_curve(pos),
        }
    }

    /// One retraction step along the surface. The ray of the result is the
    /// normalized displacement; in the zero-displacement edge case, where no
    /// direction exists, the incoming ray is kept.
    pub fn advance_point(&self, point: Point, delta: u32) -> (r: Point)
        ensures
            r == spec_advance_point(*self, point, delta),
            r.pos == spec_manifold_project(
                *self,
                spec_v4_add(point.pos, spec_v4_scale(delta, point.ray)),
            ),
            spec_v4_eq_float(r.pos, point.pos) ==> r.ray == point.ray,
    {
        let new_pos = self.project_onto(point.pos.add(point.ray.scale(delta)));
        if new_pos.eq_float(point.pos) {
            Point { pos: new_pos, ray: point.ray }
        } else {
            Point { pos: new_pos, ray: new_pos.sub(point.pos).normalize() }
        }
    }

    /// The fixed-layout parameter block consumed by the rendering backend:
    /// the same 64-byte layout for every variant, unused slots zero-filled.
    pub fn get_bytes(&self) -> (r: Vec<u8>)
        ensures
            r@ == spec_manifold_bytes(*self),
            r@.len() == 64,
    {
        match self {
            Manifold::Hyperplane(h) => h.get_bytes(),
            Manifold::Hypersphere(s) => s.get_bytes(),
            Manifold::Hypersphube(s) => s.get_bytes(),
            Manifold::Ditorus(d) => d.get_bytes(),
            Manifold::ExtrudedShape(e) => e.get_bytes(),
        }
    }

    /// The source fragment, in the rendering backend's shading language, of
    /// this surface's projection.
    pub fn project_onto_wgsl(&self) -> (r: String)
        ensures
            r@ == spec_manifold_wgsl(*self),
    {
        match self {
            Manifold::Hyperplane(h) => h.project_onto_wgsl(),
            Manifold::Hypersphere(s) => s.project_onto_wgsl(),
            Manifold::Hypersphube(s) => s.project_onto_wgsl(),
            Manifold::Ditorus(d) => d.project_onto_wgsl(),
            Manifold::ExtrudedShape(e) => e.project_onto_wgsl(),
        }
    }

    /// Splices the snippet into the template right after the marker line's
    /// opening brace, when the marker occurs exactly once; a marker that is
    /// absent or occurs more than once is reported as `None`.
    pub fn insert_into_wgsl(&self, wgsl: String) -> (r: Option<String>)
        ensures
            match r {
                Some(out) => exists|i: int|
                    {
                        &&& #[trigger] spec_is_match(wgsl@, spec_fn_header(), i)
                        &&& forall|j: int| spec_is_match(wgsl@, spec_fn_header(), j) ==> j == i
                        &&& out@ == wgsl@.subrange(0, i + spec_fn_header().len()) + "\n    "@
                            + spec_manifold_wgsl(*self) + wgsl@.subrange(
                            i + spec_fn_header().len(),
                            wgsl@.len() as int,
                        )
                    },
                None => (forall|j: int| !spec_is_match(wgsl@, spec_fn_header(), j)) || (exists|
                    i: int,
                    j: int,
                |
                    i != j && #[trigger] spec_is_match(wgsl@, spec_fn_header(), i)
                        && #[trigger] spec_is_match(wgsl@, spec_fn_header(), j)),
            },
    {
        let header = "fn project_onto_curve(pos: vec4<f32>) -> vec4<f32> {";
        proof {
            reveal_strlit("fn project_onto_curve(pos: vec4<f32>) -> vec4<f32> {");
            assert(header@ == spec_fn_header());
        }
        match find_sub(wgsl.as_str(), header) {
            Some(index) => {
                let tlen = wgsl.as_str().unicode_len();
                let hlen = header.unicode_len();
                proof {
                    assert(index + hlen <= tlen);
                }
                let rest = wgsl.as_str().substring_char(index + 1, tlen);
                match find_sub(rest, header) {
                    Some(k) => {
                        proof {
                            lemma_match_shift(
                                wgsl@,
                                spec_fn_header(),
                                index as int + 1,
                                k as int,
                            );
                            assert(spec_is_match(
                                wgsl@,
                                spec_fn_header(),
                                index as int + 1 + k as int,
                            ));
                        }
                        None
                    },
                    None => {
                        proof {
                            assert forall|j: int|
                                spec_is_match(wgsl@, spec_fn_header(), j) implies j
                                == index as int by {
                                if j > index as int {
                                    lemma_match_shift(
                                        wgsl@,
                                        spec_fn_header(),
                                        index as int + 1,
                                        j - index as int - 1,
                                    );
                                }
                            }
                        }
                        let cut = index + hlen;
                        let prefix = wgsl.as_str().substring_char(0, cut);
                        let mut out = prefix.to_owned();
                        out.append("\n    ");
                        let snippet = self.project_onto_wgsl();
                        out.append(snippet.as_str());
                        let suffix = wgsl.as_str().substring_char(cut, tlen);
                        out.append(suffix);
                        Some(out)
                    },
                }
            },
            None => None,
        }
    }

    /// Forwards a key press; only the double torus reacts, by adjusting one
    /// of its radii.
    pub fn change_on_keybinds(&mut self, key_code: &KeyCode)
        ensures
            *final(self) == spec_manifold_after_key(*old(self), *key_code),
    {
        match self {
            Manifold::Ditorus(d) => d.change_on_keybinds(key_code),
            _ => {},
        }
    }
}

} // verus!
