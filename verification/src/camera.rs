//! The camera: a rigid-body pose plus perspective parameters, with lazily
//! recomputed view and projection matrices.
//!
//! The pose is a camera-to-world transform: an orthonormal-by-construction
//! rotation block in the upper-left 3x3 of `transform`, the world position in
//! its last column. Each mutator marks the derived matrix whose inputs it
//! touches as dirty; the two matrix queries recompute at most once per
//! mutation batch and otherwise return the cached value.
//!
//! Angles cross the interface as an [`Angle`]: the radians value together with
//! its sine and cosine, all in fixed point, so that the matrix algebra stays
//! an exact integer computation. The projection's focal scale is derived from
//! the half-angle identity 1/tan(f/2) = (1 + cos f)/sin f.

use crate::fixed::{
    fx_add, fx_add_spec, fx_div, fx_div_spec, fx_mul, fx_mul_spec, fx_neg, fx_neg_spec, fx_sub,
    fx_sub_spec, lemma_fx_mul_one, lemma_fx_mul_zero, Fx, FX_NEG_ONE, FX_ONE, FX_TWO,
};
use crate::matrix::{
    fx_dot3, fx_dot3_spec, fx_dot4, fx_dot4_spec, fx_of, mat_mul, rot_x, rot_y, spec_identity,
    spec_mat_mul, spec_rot_x, spec_rot_y, spec_with_col3, Mat4, Vec3,
};
use vstd::prelude::*;

verus! {

/// Near clip plane: the fixed-point value closest to 0.1.
pub const NEAR_RAW: i64 = 6554;

/// Far clip plane: 1024.
pub const FAR_RAW: i64 = 67108864;

/// A quarter turn (pi/2 radians) in fixed point, rounded to nearest.
pub const QUARTER_TURN_RAW: i64 = 102944;

/// An angle carried together with its sine and cosine, all fixed-point.
/// The trigonometric pair is supplied by the caller (the one place floating
/// point is needed); sine and cosine are clamped to [-1, 1] on construction.
#[derive(Clone, Copy, Debug, PartialEq, Eq, Structural)]
pub struct Angle {
    pub radians: Fx,
    pub sin: Fx,
    pub cos: Fx,
}

/// A sine or cosine clamped into [-1, 1].
pub open spec fn clamp_unit_spec(v: int) -> int {
    if v > FX_ONE as int {
        FX_ONE as int
    } else if v < -(FX_ONE as int) {
        -(FX_ONE as int)
    } else {
        v
    }
}

/// The angle 0: sine 0, cosine 1.
pub open spec fn spec_angle_zero() -> Angle {
    Angle { radians: Fx { raw: 0 }, sin: Fx { raw: 0 }, cos: Fx { raw: FX_ONE } }
}

/// The angle pi/2: sine 1, cosine 0.
pub open spec fn spec_quarter_turn() -> Angle {
    Angle { radians: Fx { raw: QUARTER_TURN_RAW }, sin: Fx { raw: FX_ONE }, cos: Fx { raw: 0 } }
}

fn clamp_unit(v: Fx) -> (r: Fx)
    ensures
        r.raw as int == clamp_unit_spec(v.raw as int),
{
    if v.raw > FX_ONE {
        Fx { raw: FX_ONE }
    } else if v.raw < -FX_ONE {
        Fx { raw: FX_NEG_ONE }
    } else {
        v
    }
}

impl Angle {
    /// Both trigonometric components lie in [-1, 1].
    pub open spec fn wf(self) -> bool {
        &&& -(FX_ONE as int) <= self.sin.raw as int <= FX_ONE as int
        &&& -(FX_ONE as int) <= self.cos.raw as int <= FX_ONE as int
    }

    /// An angle from its radians value and its sine and cosine; the latter two
    /// are clamped into [-1, 1].
    pub fn new(radians: Fx, sin: Fx, cos: Fx) -> (r: Angle)
        ensures
            r.radians == radians,
            r.sin.raw as int == clamp_unit_spec(sin.raw as int),
            r.cos.raw as int == clamp_unit_spec(cos.raw as int),
            r.wf(),
    {
        Angle { radians, sin: clamp_unit(sin), cos: clamp_unit(cos) }
    }

    /// The angle 0.
    pub fn zero() -> (r: Angle)
        ensures
            r == spec_angle_zero(),
            r.wf(),
    {
        Angle { radians: Fx { raw: 0 }, sin: Fx { raw: 0 }, cos: Fx { raw: FX_ONE } }
    }

    /// The angle pi/2.
    pub fn quarter_turn() -> (r: Angle)
        ensures
            r == spec_quarter_turn(),
            r.wf(),
    {
        Angle {
            radians: Fx { raw: QUARTER_TURN_RAW },
            sin: Fx { raw: FX_ONE },
            cos: Fx { raw: 0 },
        }
    }
}

/// The camera: perspective parameters, pose, and the two cached derived
/// matrices, each paired with its dirty flag.
#[derive(Clone, Copy, Debug, PartialEq, Eq, Structural)]
pub struct Camera {
    pub fov: Angle,
    pub near: Fx,
    pub far: Fx,
    pub aspect_ratio: Fx,
    pub transform: Mat4,
    pub view_matrix: Mat4,
    pub proj_matrix: Mat4,
    pub view_dirty: bool,
    pub proj_dirty: bool,
}

/// The state a fresh camera starts in: fov pi/2, near 0.1, far 1024, identity
/// rotation, translation `pos`, both caches dirty.
pub open spec fn spec_new(pos: Vec3, aspect_ratio: Fx) -> Camera {
    Camera {
        fov: spec_quarter_turn(),
        near: Fx { raw: NEAR_RAW },
        far: Fx { raw: FAR_RAW },
        aspect_ratio,
        transform: spec_with_col3(spec_identity(), pos.x, pos.y, pos.z, Fx { raw: FX_ONE }),
        view_matrix: spec_identity(),
        proj_matrix: spec_identity(),
        view_dirty: true,
        proj_dirty: true,
    }
}

/// What `set_fov` does to the state.
pub open spec fn spec_set_fov(c: Camera, fov: Angle) -> Camera {
    Camera { fov, proj_dirty: true, ..c }
}

/// What `set_aspect_ratio` does to the state.
pub open spec fn spec_set_aspect_ratio(c: Camera, aspect_ratio: Fx) -> Camera {
    Camera { aspect_ratio, proj_dirty: true, ..c }
}

/// What `set_pos` does to the state: the translation column is overwritten
/// with (`pos`, 1); the rotation block is untouched.
pub open spec fn spec_set_pos(c: Camera, pos: Vec3) -> Camera {
    Camera {
        transform: spec_with_col3(c.transform, pos.x, pos.y, pos.z, Fx { raw: FX_ONE }),
        view_dirty: true,
        ..c
    }
}

/// The transform after translating by `d` in the camera's local frame: the
/// transpose of the orthonormal rotation block (its inverse) is applied to
/// `d`, and the result is added to the translation column.
pub open spec fn spec_translated_transform(t: Mat4, d: Vec3) -> Mat4 {
    let p0 = fx_dot3_spec(
        d.x.raw as int,
        t.m00.raw as int,
        d.y.raw as int,
        t.m10.raw as int,
        d.z.raw as int,
        t.m20.raw as int,
    );
    let p1 = fx_dot3_spec(
        d.x.raw as int,
        t.m01.raw as int,
        d.y.raw as int,
        t.m11.raw as int,
        d.z.raw as int,
        t.m21.raw as int,
    );
    let p2 = fx_dot3_spec(
        d.x.raw as int,
        t.m02.raw as int,
        d.y.raw as int,
        t.m12.raw as int,
        d.z.raw as int,
        t.m22.raw as int,
    );
    Mat4 {
        m03: fx_of(fx_add_spec(t.m03.raw as int, p0)),
        m13: fx_of(fx_add_spec(t.m13.raw as int, p1)),
        m23: fx_of(fx_add_spec(t.m23.raw as int, p2)),
        ..t
    }
}

/// What `translate` does to the state.
pub open spec fn spec_translate(c: Camera, d: Vec3) -> Camera {
    Camera { transform: spec_translated_transform(c.transform, d), view_dirty: true, ..c }
}

/// What `set_abs_rotation` does to the state: the rotation block is replaced
/// by pitch-about-X times yaw-about-Y; the translation column is preserved.
pub open spec fn spec_set_abs_rotation(c: Camera, pitch: Angle, yaw: Angle) -> Camera {
    let rot = spec_mat_mul(spec_rot_x(pitch.sin, pitch.cos), spec_rot_y(yaw.sin, yaw.cos));
    Camera {
        transform: spec_with_col3(
            rot,
            c.transform.m03,
            c.transform.m13,
            c.transform.m23,
            c.transform.m33,
        ),
        view_dirty: true,
        ..c
    }
}

/// What `rotate` does to the state: the pitch and yaw rotations are
/// post-multiplied onto the current transform, accumulating a rotation about
/// the camera's own axes.
pub open spec fn spec_rotate(c: Camera, pitch: Angle, yaw: Angle) -> Camera {
    Camera {
        transform: spec_mat_mul(
            spec_mat_mul(c.transform, spec_rot_x(pitch.sin, pitch.cos)),
            spec_rot_y(yaw.sin, yaw.cos),
        ),
        view_dirty: true,
        ..c
    }
}

/// The focal scale y = 1/tan(fov/2), computed as (1 + cos fov)/sin fov.
pub open spec fn spec_focal(fov: Angle) -> int {
    fx_div_spec(fx_add_spec(FX_ONE as int, fov.cos.raw as int), fov.sin.raw as int)
}

/// The perspective projection matrix: diagonal (y/aspect, y, a, 0), b in the
/// last column, -1 at row 3 column 2, with a = (far+near)/(near-far) and
/// b = 2*far*near/(near-far).
pub open spec fn spec_projection(fov: Angle, aspect_ratio: Fx, near: Fx, far: Fx) -> Mat4 {
    let y = spec_focal(fov);
    let x = fx_div_spec(y, aspect_ratio.raw as int);
    let nf = fx_sub_spec(near.raw as int, far.raw as int);
    let a = fx_div_spec(fx_add_spec(far.raw as int, near.raw as int), nf);
    let b = fx_div_spec(
        fx_mul_spec(fx_mul_spec(FX_TWO as int, far.raw as int), near.raw as int),
        nf,
    );
    Mat4 {
        m00: fx_of(x),
        m01: Fx { raw: 0 },
        m02: Fx { raw: 0 },
        m03: Fx { raw: 0 },
        m10: Fx { raw: 0 },
        m11: fx_of(y),
        m12: Fx { raw: 0 },
        m13: Fx { raw: 0 },
        m20: Fx { raw: 0 },
        m21: Fx { raw: 0 },
        m22: fx_of(a),
        m23: fx_of(b),
        m30: Fx { raw: 0 },
        m31: Fx { raw: 0 },
        m32: Fx { raw: FX_NEG_ONE },
        m33: Fx { raw: 0 },
    }
}

/// The view matrix of a pose: the inverse of `t` restricted to camera use.
/// The rotation block is orthonormal, so its inverse is its transpose; the
/// last column re-expresses the negated camera position in the camera's own
/// frame, p_i = -dot(column 3, column i).
pub open spec fn spec_view(t: Mat4) -> Mat4 {
    let p0 = fx_of(
        fx_neg_spec(
            fx_dot4_spec(
                t.m03.raw as int,
                t.m00.raw as int,
                t.m13.raw as int,
                t.m10.raw as int,
                t.m23.raw as int,
                t.m20.raw as int,
                t.m33.raw as int,
                t.m30.raw as int,
            ),
        ),
    );
    let p1 = fx_of(
        fx_neg_spec(
            fx_dot4_spec(
                t.m03.raw as int,
                t.m01.raw as int,
                t.m13.raw as int,
                t.m11.raw as int,
                t.m23.raw as int,
                t.m21.raw as int,
                t.m33.raw as int,
                t.m31.raw as int,
            ),
        ),
    );
    let p2 = fx_of(
        fx_neg_spec(
            fx_dot4_spec(
                t.m03.raw as int,
                t.m02.raw as int,
                t.m13.raw as int,
                t.m12.raw as int,
                t.m23.raw as int,
                t.m22.raw as int,
                t.m33.raw as int,
                t.m32.raw as int,
            ),
        ),
    );
    Mat4 {
        m00: t.m00,
        m01: t.m10,
        m02: t.m20,
        m03: p0,
        m10: t.m01,
        m11: t.m11,
        m12: t.m21,
        m13: p1,
        m20: t.m02,
        m21: t.m12,
        m22: t.m22,
        m23: p2,
        m30: Fx { raw: 0 },
        m31: Fx { raw: 0 },
        m32: Fx { raw: 0 },
        m33: Fx { raw: FX_ONE },
    }
}

/// What the projection query returns: the cache when clean, the recomputed
/// matrix when dirty.
pub open spec fn spec_proj_result(c: Camera) -> Mat4 {
    if c.proj_dirty {
        spec_projection(c.fov, c.aspect_ratio, c.near, c.far)
    } else {
        c.proj_matrix
    }
}

/// The state after the projection query: the result cached, the flag clean.
pub open spec fn spec_after_proj(c: Camera) -> Camera {
    Camera { proj_matrix: spec_proj_result(c), proj_dirty: false, ..c }
}

/// What the view query returns: the cache when clean, the recomputed matrix
/// when dirty.
pub open spec fn spec_view_result(c: Camera) -> Mat4 {
    if c.view_dirty {
        spec_view(c.transform)
    } else {
        c.view_matrix
    }
}

/// The state after the view query: the result cached, the flag clean.
pub open spec fn spec_after_view(c: Camera) -> Camera {
    Camera { view_matrix: spec_view_result(c), view_dirty: false, ..c }
}

impl Camera {
    /// A camera at world position `pos` with the given aspect ratio: fov
    /// pi/2, near 0.1, far 1024, identity rotation, both caches dirty.
    pub fn new(pos: Vec3, aspect_ratio: Fx) -> (r: Camera)
        ensures
            r == spec_new(pos, aspect_ratio),
    {
        let identity = Mat4::identity();
        let transform = Mat4 { m03: pos.x, m13: pos.y, m23: pos.z, m33: Fx { raw: FX_ONE }, ..identity };
        Camera {
            fov: Angle::quarter_turn(),
            near: Fx { raw: NEAR_RAW },
            far: Fx { raw: FAR_RAW },
            aspect_ratio,
            transform,
            view_matrix: identity,
            proj_matrix: identity,
            view_dirty: true,
            proj_dirty: true,
        }
    }

    /// The current field of view.
    pub fn fov(&self) -> (r: Angle)
        ensures
            r == self.fov,
    {
        self.fov
    }

    /// Set the field of view; marks the projection cache dirty.
    pub fn set_fov(&mut self, fov: Angle)
        ensures
            *final(self) == spec_set_fov(*old(self), fov),
    {
        self.proj_dirty = true;
        self.fov = fov;
    }

    /// Set the aspect ratio; marks the projection cache dirty.
    pub fn set_aspect_ratio(&mut self, aspect_ratio: Fx)
        ensures
            *final(self) == spec_set_aspect_ratio(*old(self), aspect_ratio),
    {
        self.proj_dirty = true;
        self.aspect_ratio = aspect_ratio;
    }

    /// Overwrite the translation column with (`pos`, 1), leaving the rotation
    /// untouched; marks the view cache dirty.
    pub fn set_pos(&mut self, pos: &Vec3)
        ensures
            *final(self) == spec_set_pos(*old(self), *pos),
    {
        self.view_dirty = true;
        self.transform = Mat4 {
            m03: pos.x,
            m13: pos.y,
            m23: pos.z,
            m33: Fx { raw: FX_ONE },
            ..self.transform
        };
    }

    /// Translate by `diff`, taken in the camera's local frame: the transpose
    /// of the orthonormal rotation block converts it, and the converted delta
    /// is added to the translation column. Marks the view cache dirty.
    pub fn translate(&mut self, diff: &Vec3)
        ensures
            *final(self) == spec_translate(*old(self), *diff),
    {
        self.view_dirty = true;
        let t = self.transform;
        let p0 = fx_dot3(diff.x, t.m00, diff.y, t.m10, diff.z, t.m20);
        let p1 = fx_dot3(diff.x, t.m01, diff.y, t.m11, diff.z, t.m21);
        let p2 = fx_dot3(diff.x, t.m02, diff.y, t.m12, diff.z, t.m22);
        self.transform = Mat4 {
            m03: fx_add(t.m03, p0),
            m13: fx_add(t.m13, p1),
            m23: fx_add(t.m23, p2),
            ..t
        };
    }

    /// Replace the rotation block with pitch-about-X times yaw-about-Y (the
    /// yaw applies first to incoming vectors), preserving the translation
    /// column; marks the view cache dirty.
    pub fn set_abs_rotation(&mut self, pitch: Angle, yaw: Angle)
        ensures
            *final(self) == spec_set_abs_rotation(*old(self), pitch, yaw),
    {
        self.view_dirty = true;
        let rx = rot_x(pitch.sin, pitch.cos);
        let ry = rot_y(yaw.sin, yaw.cos);
        let rot = mat_mul(&rx, &ry);
        self.transform = Mat4 {
            m03: self.transform.m03,
            m13: self.transform.m13,
            m23: self.transform.m23,
            m33: self.transform.m33,
            ..rot
        };
    }

    /// Post-multiply the current transform by the pitch and yaw rotations,
    /// accumulating rotation about the camera's own axes; marks the view
    /// cache dirty.
    pub fn rotate(&mut self, pitch: Angle, yaw: Angle)
        ensures
            *final(self) == spec_rotate(*old(self), pitch, yaw),
    {
        self.view_dirty = true;
        let rx = rot_x(pitch.sin, pitch.cos);
        let ry = rot_y(yaw.sin, yaw.cos);
        let turned = mat_mul(&self.transform, &rx);
        self.transform = mat_mul(&turned, &ry);
    }

    /// The projection matrix, recomputed only if a fov or aspect mutation
    /// occurred since it was last computed. The divisors of the projection
    /// formula must be nonzero: a fov in (0, pi) has a positive sine, and the
    /// aspect ratio is positive for any real viewport.
    pub fn projection_matrix(&mut self) -> (r: Mat4)
        requires
            old(self).fov.sin.raw != 0,
            old(self).aspect_ratio.raw != 0,
            old(self).near.raw != old(self).far.raw,
        ensures
            *final(self) == spec_after_proj(*old(self)),
            r == spec_proj_result(*old(self)),
    {
        if self.proj_dirty {
            self.proj_dirty = false;
            let y = fx_div(fx_add(Fx::one(), self.fov.cos), self.fov.sin);
            let x = fx_div(y, self.aspect_ratio);
            let nf = fx_sub(self.near, self.far);
            let a = fx_div(fx_add(self.far, self.near), nf);
            let b = fx_div(fx_mul(fx_mul(Fx { raw: FX_TWO }, self.far), self.near), nf);
            self.proj_matrix = Mat4 {
                m00: x,
                m01: Fx { raw: 0 },
                m02: Fx { raw: 0 },
                m03: Fx { raw: 0 },
                m10: Fx { raw: 0 },
                m11: y,
                m12: Fx { raw: 0 },
                m13: Fx { raw: 0 },
                m20: Fx { raw: 0 },
                m21: Fx { raw: 0 },
                m22: a,
                m23: b,
                m30: Fx { raw: 0 },
                m31: Fx { raw: 0 },
                m32: Fx { raw: FX_NEG_ONE },
                m33: Fx { raw: 0 },
            };
        }
        self.proj_matrix
    }

    /// The view matrix, recomputed only if a pose mutation occurred since it
    /// was last computed: the world-to-camera transform, built by the
    /// transpose trick rather than a general inverse.
    pub fn view_matrix(&mut self) -> (r: Mat4)
        ensures
            *final(self) == spec_after_view(*old(self)),
            r == spec_view_result(*old(self)),
    {
        if self.view_dirty {
            self.view_dirty = false;
            let t = self.transform;
            let p0 = fx_neg(fx_dot4(t.m03, t.m00, t.m13, t.m10, t.m23, t.m20, t.m33, t.m30));
            let p1 = fx_neg(fx_dot4(t.m03, t.m01, t.m13, t.m11, t.m23, t.m21, t.m33, t.m31));
            let p2 = fx_neg(fx_dot4(t.m03, t.m02, t.m13, t.m12, t.m23, t.m22, t.m33, t.m32));
            self.view_matrix = Mat4 {
                m00: t.m00,
                m01: t.m10,
                m02: t.m20,
                m03: p0,
                m10: t.m01,
                m11: t.m11,
                m12: t.m21,
                m13: p1,
                m20: t.m02,
                m21: t.m12,
                m22: t.m22,
                m23: p2,
                m30: Fx { raw: 0 },
                m31: Fx { raw: 0 },
                m32: Fx { raw: 0 },
                m33: Fx { raw: FX_ONE },
            };
        }
        self.view_matrix
    }
}

/// The rotation block of `t` is the identity and its bottom row is (0,0,0,w).
pub open spec fn has_identity_rotation(t: Mat4) -> bool {
    &&& t.m00.raw == FX_ONE && t.m01.raw == 0 && t.m02.raw == 0
    &&& t.m10.raw == 0 && t.m11.raw == FX_ONE && t.m12.raw == 0
    &&& t.m20.raw == 0 && t.m21.raw == 0 && t.m22.raw == FX_ONE
    &&& t.m30.raw == 0 && t.m31.raw == 0 && t.m32.raw == 0
}

/// The view matrix of a pure translation: the identity, with the negated
/// translation column of `t` as its last column.
pub open spec fn spec_translation_view(t: Mat4) -> Mat4 {
    Mat4 {
        m03: fx_of(fx_neg_spec(t.m03.raw as int)),
        m13: fx_of(fx_neg_spec(t.m13.raw as int)),
        m23: fx_of(fx_neg_spec(t.m23.raw as int)),
        ..spec_identity()
    }
}

/// Between mutations the projection query is deterministic and idempotent:
/// querying again right after a query returns the same matrix (the cache-hit
/// path) and leaves the state exactly as the first query left it.
pub proof fn lemma_projection_idempotent(c: Camera)
    ensures
        spec_proj_result(spec_after_proj(c)) == spec_proj_result(c),
        spec_after_proj(spec_after_proj(c)) == spec_after_proj(c),
{
}

/// Between mutations the view query is deterministic and idempotent:
/// querying again right after a query returns the same matrix (the cache-hit
/// path) and leaves the state exactly as the first query left it.
pub proof fn lemma_view_idempotent(c: Camera)
    ensures
        spec_view_result(spec_after_view(c)) == spec_view_result(c),
        spec_after_view(spec_after_view(c)) == spec_after_view(c),
{
}

/// `set_fov` invalidates exactly the projection matrix: the view cache, its
/// flag and the view result are untouched, and the cached projection value
/// itself stays in place until the query recomputes it.
pub proof fn lemma_set_fov_invalidates_projection_only(c: Camera, fov: Angle)
    ensures
        spec_set_fov(c, fov).proj_dirty,
        spec_set_fov(c, fov).proj_matrix == c.proj_matrix,
        spec_set_fov(c, fov).view_dirty == c.view_dirty,
        spec_set_fov(c, fov).view_matrix == c.view_matrix,
        spec_view_result(spec_set_fov(c, fov)) == spec_view_result(c),
{
}

/// `set_aspect_ratio` invalidates exactly the projection matrix: the view
/// cache, its flag and the view result are untouched, and the cached
/// projection value itself stays in place until the query recomputes it.
pub proof fn lemma_set_aspect_ratio_invalidates_projection_only(c: Camera, aspect_ratio: Fx)
    ensures
        spec_set_aspect_ratio(c, aspect_ratio).proj_dirty,
        spec_set_aspect_ratio(c, aspect_ratio).proj_matrix == c.proj_matrix,
        spec_set_aspect_ratio(c, aspect_ratio).view_dirty == c.view_dirty,
        spec_set_aspect_ratio(c, aspect_ratio).view_matrix == c.view_matrix,
        spec_view_result(spec_set_aspect_ratio(c, aspect_ratio)) == spec_view_result(c),
{
}

/// `set_pos` invalidates exactly the view matrix: the projection cache, its
/// flag, and the projection result are untouched, and the cached view value
/// itself stays in place until the query recomputes it.
pub proof fn lemma_set_pos_invalidates_view_only(c: Camera, pos: Vec3)
    ensures
        spec_set_pos(c, pos).view_dirty,
        spec_set_pos(c, pos).view_matrix == c.view_matrix,
        spec_set_pos(c, pos).proj_dirty == c.proj_dirty,
        spec_set_pos(c, pos).proj_matrix == c.proj_matrix,
        spec_proj_result(spec_set_pos(c, pos)) == spec_proj_result(c),
{
}

/// `translate` invalidates exactly the view matrix: the projection cache, its
/// flag, and the projection result are untouched, and the cached view value
/// itself stays in place until the query recomputes it.
pub proof fn lemma_translate_invalidates_view_only(c: Camera, d: Vec3)
    ensures
        spec_translate(c, d).view_dirty,
        spec_translate(c, d).view_matrix == c.view_matrix,
        spec_translate(c, d).proj_dirty == c.proj_dirty,
        spec_translate(c, d).proj_matrix == c.proj_matrix,
        spec_proj_result(spec_translate(c, d)) == spec_proj_result(c),
{
}

/// `set_abs_rotation` invalidates exactly the view matrix: the projection
/// cache, its flag, and the projection result are untouched, and the cached
/// view value itself stays in place until the query recomputes it.
pub proof fn lemma_set_abs_rotation_invalidates_view_only(c: Camera, pitch: Angle, yaw: Angle)
    ensures
        spec_set_abs_rotation(c, pitch, yaw).view_dirty,
        spec_set_abs_rotation(c, pitch, yaw).view_matrix == c.view_matrix,
        spec_set_abs_rotation(c, pitch, yaw).proj_dirty == c.proj_dirty,
        spec_set_abs_rotation(c, pitch, yaw).proj_matrix == c.proj_matrix,
        spec_proj_result(spec_set_abs_rotation(c, pitch, yaw)) == spec_proj_result(c),
{
}

/// `rotate` invalidates exactly the view matrix: the projection cache, its
/// flag, and the projection result are untouched, and the cached view value
/// itself stays in place until the query recomputes it.
pub proof fn lemma_rotate_invalidates_view_only(c: Camera, pitch: Angle, yaw: Angle)
    ensures
        spec_rotate(c, pitch, yaw).view_dirty,
        spec_rotate(c, pitch, yaw).view_matrix == c.view_matrix,
        spec_rotate(c, pitch, yaw).proj_dirty == c.proj_dirty,
        spec_rotate(c, pitch, yaw).proj_matrix == c.proj_matrix,
        spec_proj_result(spec_rotate(c, pitch, yaw)) == spec_proj_result(c),
{
}

/// An incremental rotation moves no translation: the last column of the
/// transform, the camera's world position, is exactly preserved by `rotate`,
/// because the rotation factors carry (0,0,0,1) as their own last column.
pub proof fn lemma_rotate_preserves_translation(c: Camera, pitch: Angle, yaw: Angle)
    ensures
        spec_rotate(c, pitch, yaw).transform.m03 == c.transform.m03,
        spec_rotate(c, pitch, yaw).transform.m13 == c.transform.m13,
        spec_rotate(c, pitch, yaw).transform.m23 == c.transform.m23,
        spec_rotate(c, pitch, yaw).transform.m33 == c.transform.m33,
{
    lemma_fx_mul_one(c.transform.m03.raw as int);
    lemma_fx_mul_one(c.transform.m13.raw as int);
    lemma_fx_mul_one(c.transform.m23.raw as int);
    lemma_fx_mul_one(c.transform.m33.raw as int);
    lemma_fx_mul_zero(c.transform.m00.raw as int);
    lemma_fx_mul_zero(c.transform.m01.raw as int);
    lemma_fx_mul_zero(c.transform.m02.raw as int);
    lemma_fx_mul_zero(c.transform.m10.raw as int);
    lemma_fx_mul_zero(c.transform.m11.raw as int);
    lemma_fx_mul_zero(c.transform.m12.raw as int);
    lemma_fx_mul_zero(c.transform.m20.raw as int);
    lemma_fx_mul_zero(c.transform.m21.raw as int);
    lemma_fx_mul_zero(c.transform.m22.raw as int);
    lemma_fx_mul_zero(c.transform.m30.raw as int);
    lemma_fx_mul_zero(c.transform.m31.raw as int);
    lemma_fx_mul_zero(c.transform.m32.raw as int);
}

/// The view matrix of a pose whose rotation block is the identity is the
/// pure-translation view: the identity with the negated translation column.
pub proof fn lemma_view_of_identity_rotation(t: Mat4)
    requires
        has_identity_rotation(t),
    ensures
        spec_view(t) == spec_translation_view(t),
{
    lemma_fx_mul_one(t.m03.raw as int);
    lemma_fx_mul_one(t.m13.raw as int);
    lemma_fx_mul_one(t.m23.raw as int);
    lemma_fx_mul_zero(t.m03.raw as int);
    lemma_fx_mul_zero(t.m13.raw as int);
    lemma_fx_mul_zero(t.m23.raw as int);
    lemma_fx_mul_zero(t.m33.raw as int);
}

/// An absolute rotation to pitch 0, yaw 0 followed by the view query yields
/// the pure-translation view matrix: identity rotation block (its transpose
/// is the identity), negated translation in the last column.
pub proof fn lemma_abs_rotation_zero_view(c: Camera)
    ensures
        spec_view_result(spec_set_abs_rotation(c, spec_angle_zero(), spec_angle_zero()))
            == spec_translation_view(c.transform),
{
    let z = spec_angle_zero();
    lemma_fx_mul_one(FX_ONE as int);
    assert(spec_mat_mul(spec_rot_x(z.sin, z.cos), spec_rot_y(z.sin, z.cos)) == spec_identity());
    let c2 = spec_set_abs_rotation(c, z, z);
    assert(has_identity_rotation(c2.transform));
    lemma_view_of_identity_rotation(c2.transform);
}

/// Under an identity rotation block, translating by `d` is the same mutation
/// as setting the position to the current position plus `d` (fixed-point
/// saturating addition, component by component).
pub proof fn lemma_translate_equals_set_pos_under_identity(c: Camera, d: Vec3)
    requires
        has_identity_rotation(c.transform),
        c.transform.m33.raw == FX_ONE,
    ensures
        spec_translate(c, d) == spec_set_pos(
            c,
            Vec3 {
                x: fx_of(fx_add_spec(c.transform.m03.raw as int, d.x.raw as int)),
                y: fx_of(fx_add_spec(c.transform.m13.raw as int, d.y.raw as int)),
                z: fx_of(fx_add_spec(c.transform.m23.raw as int, d.z.raw as int)),
            },
        ),
{
    lemma_fx_mul_one(d.x.raw as int);
    lemma_fx_mul_one(d.y.raw as int);
    lemma_fx_mul_one(d.z.raw as int);
    lemma_fx_mul_zero(d.x.raw as int);
    lemma_fx_mul_zero(d.y.raw as int);
    lemma_fx_mul_zero(d.z.raw as int);
}

/// A resize changes only the projection's x scale: for a fixed fov the y
/// scale is identical under any two aspect ratios, and every entry other
/// than the one at row 0, column 0 is identical as well.
pub proof fn lemma_aspect_changes_only_x(fov: Angle, a1: Fx, a2: Fx, near: Fx, far: Fx)
    ensures
        spec_projection(fov, a1, near, far).m11 == spec_projection(fov, a2, near, far).m11,
        spec_projection(fov, a1, near, far) == (Mat4 {
            m00: spec_projection(fov, a1, near, far).m00,
            ..spec_projection(fov, a2, near, far)
        }),
{
}

} // verus!
