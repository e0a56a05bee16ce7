use vstd::prelude::*;
use crate::fbits::{
    sub_bits, cos_bits, sin_bits, spec_neg_bits, f32_sub, f32_cos, f32_sin, f32_neg, F32_ZERO,
    F32_ONE, F32_MINUS_ONE, F32_HALF,
};
use crate::vecs::{
    Vec4, spec_v4_add, spec_v4_sub, spec_v4_scale, spec_v4_normalize, spec_v4_dot, spec_v4_neg,
    spec_v4_zeros,
};
use crate::encoding::{push_word, spec_word_bytes};
use crate::manifold::{Manifold, Point, spec_advance_point};

verus! {

/// The key identifiers the library reacts to. The embedding translates the
/// window system's key codes into these before calling in.
#[derive(Clone, Copy, PartialEq, Eq, Structural, Debug)]
pub enum KeyCode {
    D,
    A,
    Space,
    LShift,
    W,
    S,
    T,
    G,
    Y,
    H,
    U,
    J,
    Escape,
}

/// The step a movement key advances the tracked point by: the bits of `0.2`.
pub const MOVE_DELTA: u32 = 0x3E4C_CCCD;

/// The default focal length: the bits of `0.5`.
pub const FOCAL_LENGTH_DEFAULT: u32 = F32_HALF;

/// The default ray-marching step: the bits of `0.02`.
pub const DELTA_DEFAULT: u32 = 0x3CA3_D70A;

/// The default iteration bound: the bits of `2000.0`.
pub const MAX_ITERATIONS_DEFAULT: u32 = 0x44FA_0000;

/// The per-frame view state handed to the rendering backend: a three-axis
/// look basis, the tracked position, and the scalar rendering parameters.
/// All scalars are binary32 bit patterns.
#[derive(Clone, Copy, PartialEq, Eq, Structural, Debug)]
pub struct Info {
    pub x: Vec4,
    pub y: Vec4,
    pub z: Vec4,
    pub p: Vec4,
    pub focal_length: u32,
    pub px_size: u32,
    pub width: u32,
    pub height: u32,
    pub delta: u32,
    pub max_iterations: u32,
}

/// Rotating a vector pair by an angle in their shared plane:
/// `(v1 cos + v2 sin, -v1 sin + v2 cos)`.
pub open spec fn spec_rotated(v1: Vec4, v2: Vec4, angle: u32) -> (Vec4, Vec4) {
    let c = cos_bits(angle);
    let s = sin_bits(angle);
    (
        spec_v4_add(spec_v4_scale(c, v1), spec_v4_scale(s, v2)),
        spec_v4_add(spec_v4_scale(s, spec_v4_neg(v1)), spec_v4_scale(c, v2)),
    )
}

/// Applies the standard 2x2 rotation by `angle` to the plane spanned by the
/// two vectors.
pub fn rotate_between(v1: &mut Vec4, v2: &mut Vec4, angle: u32)
    ensures
        (*final(v1), *final(v2)) == spec_rotated(*old(v1), *old(v2), angle),
{
    let c = f32_cos(angle);
    let s = f32_sin(angle);
    let old1 = *v1;
    let old2 = *v2;
    *v1 = old1.scale(c).add(old2.scale(s));
    *v2 = old1.neg().scale(s).add(old2.scale(c));
}

/// Where one movement step from `info.p` along `sign * axis` lands: the new
/// position and the re-derived axis, `sign * ray`.
pub open spec fn spec_moved(info: Info, axis: Vec4, sign: u32, m: Manifold) -> (Vec4, Vec4) {
    let adv = spec_advance_point(
        m,
        Point { pos: info.p, ray: spec_v4_scale(sign, axis) },
        MOVE_DELTA,
    );
    (adv.pos, spec_v4_scale(sign, adv.ray))
}

/// The view state after one movement key: the tracked position and the key's
/// axis are replaced by the advanced pair; any other key changes nothing.
pub open spec fn spec_info_after_movement(info: Info, key: KeyCode, m: Manifold) -> Info {
    match key {
        KeyCode::D => {
            let r = spec_moved(info, info.x, F32_ONE, m);
            Info { p: r.0, x: r.1, ..info }
        },
        KeyCode::A => {
            let r = spec_moved(info, info.x, F32_MINUS_ONE, m);
            Info { p: r.0, x: r.1, ..info }
        },
        KeyCode::Space => {
            let r = spec_moved(info, info.y, F32_ONE, m);
            Info { p: r.0, y: r.1, ..info }
        },
        KeyCode::LShift => {
            let r = spec_moved(info, info.y, F32_MINUS_ONE, m);
            Info { p: r.0, y: r.1, ..info }
        },
        KeyCode::W => {
            let r = spec_moved(info, info.z, F32_ONE, m);
            Info { p: r.0, z: r.1, ..info }
        },
        KeyCode::S => {
            let r = spec_moved(info, info.z, F32_MINUS_ONE, m);
            Info { p: r.0, z: r.1, ..info }
        },
        _ => info,
    }
}

/// The view state after steering by the two drag angles: the (x, z) plane
/// rotates by the negated first angle, then the (y, z) plane by the negated
/// second.
pub open spec fn spec_info_after_rotate(info: Info, xz_angle: u32, yz_angle: u32) -> Info {
    let r1 = spec_rotated(info.x, info.z, spec_neg_bits(xz_angle));
    let r2 = spec_rotated(info.y, r1.1, spec_neg_bits(yz_angle));
    Info { x: r1.0, y: r2.0, z: r2.1, ..info }
}

/// The re-orthonormalized look basis: normalize the first axis, remove its
/// component from the second and normalize, remove both prior components
/// from the third and normalize (Gram-Schmidt).
pub open spec fn spec_info_reoriented(info: Info) -> Info {
    let x1 = spec_v4_normalize(info.x);
    let y1 = spec_v4_normalize(info.y);
    let z1 = spec_v4_normalize(info.z);
    let y2 = spec_v4_normalize(spec_v4_sub(y1, spec_v4_scale(spec_v4_dot(x1, y1), x1)));
    let z2 = spec_v4_normalize(
        spec_v4_sub(
            spec_v4_sub(z1, spec_v4_scale(spec_v4_dot(x1, z1), x1)),
            spec_v4_scale(spec_v4_dot(y2, z1), y2),
        ),
    );
    Info { x: x1, y: y2, z: z2, ..info }
}

/// The default view state: the canonical axes, the origin, and the fixed
/// rendering parameters.
pub open spec fn spec_info_default() -> Info {
    Info {
        x: Vec4 { x: F32_ONE, y: F32_ZERO, z: F32_ZERO, w: F32_ZERO },
        y: Vec4 { x: F32_ZERO, y: F32_ONE, z: F32_ZERO, w: F32_ZERO },
        z: Vec4 { x: F32_ZERO, y: F32_ZERO, z: F32_ONE, w: F32_ZERO },
        p: spec_v4_zeros(),
        focal_length: FOCAL_LENGTH_DEFAULT,
        px_size: F32_ONE,
        width: F32_ZERO,
        height: F32_ZERO,
        delta: DELTA_DEFAULT,
        max_iterations: MAX_ITERATIONS_DEFAULT,
    }
}

/// The serialized view state: the four vectors, the seven scalars (the last
/// being the elapsed milliseconds), and three zero words — 104 bytes.
pub open spec fn spec_info_bytes(i: Info, elapsed_millis: u32) -> Seq<u8> {
    spec_word_bytes(i.x.x) + spec_word_bytes(i.x.y) + spec_word_bytes(i.x.z) + spec_word_bytes(
        i.x.w,
    ) + spec_word_bytes(i.y.x) + spec_word_bytes(i.y.y) + spec_word_bytes(i.y.z) + spec_word_bytes(
        i.y.w,
    ) + spec_word_bytes(i.z.x) + spec_word_bytes(i.z.y) + spec_word_bytes(i.z.z) + spec_word_bytes(
        i.z.w,
    ) + spec_word_bytes(i.p.x) + spec_word_bytes(i.p.y) + spec_word_bytes(i.p.z) + spec_word_bytes(
        i.p.w,
    ) + spec_word_bytes(i.focal_length) + spec_word_bytes(i.px_size) + spec_word_bytes(i.width)
        + spec_word_bytes(i.height) + spec_word_bytes(i.delta) + spec_word_bytes(i.max_iterations)
        + spec_word_bytes(elapsed_millis) + spec_word_bytes(F32_ZERO) + spec_word_bytes(F32_ZERO)
        + spec_word_bytes(F32_ZERO)
}

impl Info {
    pub fn set_sizes(&mut self, width: u32, height: u32)
        ensures
            *final(self) == (Info { width, height, ..*old(self) }),
    {
        self.width = width;
        self.height = height;
    }

    /// Serializes the view state for the backend's uniform buffer. The
    /// elapsed time is measured by the embedding and handed in as the bits
    /// of the millisecond count.
    pub fn get_bytes(&self, elapsed_millis: u32) -> (r: Vec<u8>)
        ensures
            r@ == spec_info_bytes(*self, elapsed_millis),
            r@.len() == 104,
    {
        let mut out: Vec<u8> = Vec::new();
        push_word(&mut out, self.x.x);
        push_word(&mut out, self.x.y);
        push_word(&mut out, self.x.z);
        push_word(&mut out, self.x.w);
        push_word(&mut out, self.y.x);
        push_word(&mut out, self.y.y);
        push_word(&mut out, self.y.z);
        push_word(&mut out, self.y.w);
        push_word(&mut out, self.z.x);
        push_word(&mut out, self.z.y);
        push_word(&mut out, self.z.z);
        push_word(&mut out, self.z.w);
        push_word(&mut out, self.p.x);
        push_word(&mut out, self.p.y);
        push_word(&mut out, self.p.z);
        push_word(&mut out, self.p.w);
        push_word(&mut out, self.focal_length);
        push_word(&mut out, self.px_size);
        push_word(&mut out, self.width);
        push_word(&mut out, self.height);
        push_word(&mut out, self.delta);
        push_word(&mut out, self.max_iterations);
        push_word(&mut out, elapsed_millis);
        push_word(&mut out, F32_ZERO);
        push_word(&mut out, F32_ZERO);
        push_word(&mut out, F32_ZERO);
        proof {
            vstd::bytes::lemma_auto_spec_u32_to_from_le_bytes();
            assert(out@ =~= spec_info_bytes(*self, elapsed_millis));
        }
        out
    }

    /// One movement step from the current position along the given axis.
    fn moved(&self, axis: Vec4, sign: u32, manifold: &Manifold) -> (r: (Vec4, Vec4))
        ensures
            r == spec_moved(*self, axis, sign, *manifold),
    {
        let adv = manifold.advance_point(Point { pos: self.p, ray: axis.scale(sign) }, MOVE_DELTA);
        (adv.pos, adv.ray.scale(sign))
    }

    /// Advances the tracked position along the axis bound to the key, and
    /// re-derives that axis from the step actually taken on the surface.
    pub fn movement(&mut self, keycode: KeyCode, manifold: &Manifold)
        ensures
            *final(self) == spec_info_after_movement(*old(self), keycode, *manifold),
    {
        match keycode {
            KeyCode::D => {
                let r = self.moved(self.x, F32_ONE, manifold);
                self.p = r.0;
                self.x = r.1;
            },
            KeyCode::A => {
                let r = self.moved(self.x, F32_MINUS_ONE, manifold);
                self.p = r.0;
                self.x = r.1;
            },
            KeyCode::Space => {
                let r = self.moved(self.y, F32_ONE, manifold);
                self.p = r.0;
                self.y = r.1;
            },
            KeyCode::LShift => {
                let r = self.moved(self.y, F32_MINUS_ONE, manifold);
                self.p = r.0;
                self.y = r.1;
            },
            KeyCode::W => {
                let r = self.moved(self.z, F32_ONE, manifold);
                self.p = r.0;
                self.z = r.1;
            },
            KeyCode::S => {
                let r = self.moved(self.z, F32_MINUS_ONE, manifold);
                self.p = r.0;
                self.z = r.1;
            },
            _ => {},
        }
    }

    /// Steers the basis by the two drag angles.
    pub fn rotate_around_y(&mut self, xz_angle: u32, yz_angle: u32)
        ensures
            *final(self) == spec_info_after_rotate(*old(self), xz_angle, yz_angle),
    {
        let mut x = self.x;
        let mut z = self.z;
        rotate_between(&mut x, &mut z, f32_neg(xz_angle));
        self.x = x;
        self.z = z;
        let mut y = self.y;
        let mut z2 = self.z;
        rotate_between(&mut y, &mut z2, f32_neg(yz_angle));
        self.y = y;
        self.z = z2;
    }

    /// Re-orthonormalizes the look basis (Gram-Schmidt), once per frame.
    pub fn reorient(&mut self)
        ensures
            *final(self) == spec_info_reoriented(*old(self)),
    {
        self.x = self.x.normalize();
        self.y = self.y.normalize();
        self.z = self.z.normalize();

        self.y = self.y.sub(self.x.scale(self.x.dot(self.y)));
        self.y = self.y.normalize();

        self.z = self.z.sub(self.x.scale(self.x.dot(self.z))).sub(
            self.y.scale(self.y.dot(self.z)),
        );
        self.z = self.z.normalize();
    }
}

impl Default for Info {
    /// The default view state.
    fn default() -> (r: Info)
        ensures
            r == spec_info_default(),
    {
        Info {
            x: Vec4::new(F32_ONE, F32_ZERO, F32_ZERO, F32_ZERO),
            y: Vec4::new(F32_ZERO, F32_ONE, F32_ZERO, F32_ZERO),
            z: Vec4::new(F32_ZERO, F32_ZERO, F32_ONE, F32_ZERO),
            p: Vec4::zeros(),
            focal_length: FOCAL_LENGTH_DEFAULT,
            px_size: F32_ONE,
            width: F32_ZERO,
            height: F32_ZERO,
            delta: DELTA_DEFAULT,
            max_iterations: MAX_ITERATIONS_DEFAULT,
        }
    }
}

/// The pointer state the embedding maintains between events; positions are
/// pairs of binary32 bit patterns.
#[derive(Clone, Copy, Debug)]
pub struct MouseState {
    pub left_down: bool,
    pub right_down: bool,
    pub position: Option<(u32, u32)>,
    pub prev_position: Option<(u32, u32)>,
}

/// The drag delta: the componentwise difference of the two last positions
/// while the left button is down, and nothing otherwise.
pub open spec fn spec_drag_delta(m: MouseState) -> Option<(u32, u32)> {
    if m.left_down {
        match (m.position, m.prev_position) {
            (Some(p), Some(q)) => Some((sub_bits(p.0, q.0), sub_bits(p.1, q.1))),
            _ => None,
        }
    } else {
        None
    }
}

impl MouseState {
    pub fn get_mouse_drag_delta(&self) -> (r: Option<(u32, u32)>)
        ensures
            r == spec_drag_delta(*self),
    {
        if self.left_down {
            match (self.position, self.prev_position) {
                (Some(p), Some(q)) => Some((f32_sub(p.0, q.0), f32_sub(p.1, q.1))),
                _ => None,
            }
        } else {
            None
        }
    }
}

impl Default for MouseState {
    /// No button down, no position seen yet.
    fn default() -> (r: MouseState)
        ensures
            !r.left_down,
            !r.right_down,
            r.position is None,
            r.prev_position is None,
    {
        MouseState { left_down: false, right_down: false, position: None, prev_position: None }
    }
}

/// A geometry record for the backend; the one variant names a function by
/// its identifier.
#[derive(Clone, Copy, PartialEq, Eq, Structural, Debug)]
pub enum Geometry {
    Function(u32),
}

/// The serialized geometry record: four little-endian words, the identifier
/// in the second slot.
pub open spec fn spec_geometry_bytes(g: Geometry) -> Seq<u8> {
    match g {
        Geometry::Function(id) => spec_word_bytes(0) + spec_word_bytes(id) + spec_word_bytes(0)
            + spec_word_bytes(0),
    }
}

impl Geometry {
    pub fn get_bytes(&self) -> (r: Vec<u8>)
        ensures
            r@ == spec_geometry_bytes(*self),
            r@.len() == 16,
    {
        let mut out: Vec<u8> = Vec::new();
        match self {
            Geometry::Function(id) => {
                push_word(&mut out, 0);
                push_word(&mut out, *id);
                push_word(&mut out, 0);
                push_word(&mut out, 0);
            },
        }
        proof {
            vstd::bytes::lemma_auto_spec_u32_to_from_le_bytes();
            assert(out@ =~= spec_geometry_bytes(*self));
        }
        out
    }
}

} // verus!
