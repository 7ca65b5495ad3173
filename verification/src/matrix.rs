//! Fixed-size 4x4 matrices and 3-component vectors over fixed-point scalars.
//!
//! Matrices are row-major: `mRC` is the entry in row `R`, column `C`. The
//! camera keeps its pose in such a matrix (rotation in the upper-left 3x3
//! block, translation in the last column, bottom row 0,0,0,1) and derives its
//! view and projection matrices in the same layout, ready for uniform upload.

use crate::fixed::{
    fx_add_spec, fx_mul, fx_mul_spec, fx_neg, fx_neg_spec, fx_add, sat_i64, Fx, FX_ONE,
};
use vstd::prelude::*;

verus! {

/// A 3-component vector of fixed-point scalars.
#[derive(Clone, Copy, Debug, PartialEq, Eq, Structural)]
pub struct Vec3 {
    pub x: Fx,
    pub y: Fx,
    pub z: Fx,
}

/// A row-major 4x4 matrix of fixed-point scalars.
#[derive(Clone, Copy, Debug, PartialEq, Eq, Structural)]
pub struct Mat4 {
    pub m00: Fx,
    pub m01: Fx,
    pub m02: Fx,
    pub m03: Fx,
    pub m10: Fx,
    pub m11: Fx,
    pub m12: Fx,
    pub m13: Fx,
    pub m20: Fx,
    pub m21: Fx,
    pub m22: Fx,
    pub m23: Fx,
    pub m30: Fx,
    pub m31: Fx,
    pub m32: Fx,
    pub m33: Fx,
}

/// An `Fx` holding a mathematical integer, clamped into the `i64` range.
pub open spec fn fx_of(v: int) -> Fx {
    Fx { raw: sat_i64(v) as i64 }
}

/// The raw value of the entry in row `r`, column `c` (each in 0..4).
pub open spec fn ent(m: Mat4, r: int, c: int) -> int {
    if r == 0 {
        if c == 0 {
            m.m00.raw as int
        } else if c == 1 {
            m.m01.raw as int
        } else if c == 2 {
            m.m02.raw as int
        } else {
            m.m03.raw as int
        }
    } else if r == 1 {
        if c == 0 {
            m.m10.raw as int
        } else if c == 1 {
            m.m11.raw as int
        } else if c == 2 {
            m.m12.raw as int
        } else {
            m.m13.raw as int
        }
    } else if r == 2 {
        if c == 0 {
            m.m20.raw as int
        } else if c == 1 {
            m.m21.raw as int
        } else if c == 2 {
            m.m22.raw as int
        } else {
            m.m23.raw as int
        }
    } else {
        if c == 0 {
            m.m30.raw as int
        } else if c == 1 {
            m.m31.raw as int
        } else if c == 2 {
            m.m32.raw as int
        } else {
            m.m33.raw as int
        }
    }
}

/// Fixed-point dot product of two 4-component tuples, summed left to right.
pub open spec fn fx_dot4_spec(
    a0: int,
    b0: int,
    a1: int,
    b1: int,
    a2: int,
    b2: int,
    a3: int,
    b3: int,
) -> int {
    fx_add_spec(
        fx_add_spec(fx_add_spec(fx_mul_spec(a0, b0), fx_mul_spec(a1, b1)), fx_mul_spec(a2, b2)),
        fx_mul_spec(a3, b3),
    )
}

/// Fixed-point dot product of two 3-component tuples, summed left to right.
pub open spec fn fx_dot3_spec(a0: int, b0: int, a1: int, b1: int, a2: int, b2: int) -> int {
    fx_add_spec(fx_add_spec(fx_mul_spec(a0, b0), fx_mul_spec(a1, b1)), fx_mul_spec(a2, b2))
}

/// The entry of a matrix product: row `r` of `a` against column `c` of `b`.
pub open spec fn mul_entry(a: Mat4, b: Mat4, r: int, c: int) -> Fx {
    fx_of(
        fx_dot4_spec(
            ent(a, r, 0),
            ent(b, 0, c),
            ent(a, r, 1),
            ent(b, 1, c),
            ent(a, r, 2),
            ent(b, 2, c),
            ent(a, r, 3),
            ent(b, 3, c),
        ),
    )
}

/// What matrix multiplication returns.
pub open spec fn spec_mat_mul(a: Mat4, b: Mat4) -> Mat4 {
    Mat4 {
        m00: mul_entry(a, b, 0, 0),
        m01: mul_entry(a, b, 0, 1),
        m02: mul_entry(a, b, 0, 2),
        m03: mul_entry(a, b, 0, 3),
        m10: mul_entry(a, b, 1, 0),
        m11: mul_entry(a, b, 1, 1),
        m12: mul_entry(a, b, 1, 2),
        m13: mul_entry(a, b, 1, 3),
        m20: mul_entry(a, b, 2, 0),
        m21: mul_entry(a, b, 2, 1),
        m22: mul_entry(a, b, 2, 2),
        m23: mul_entry(a, b, 2, 3),
        m30: mul_entry(a, b, 3, 0),
        m31: mul_entry(a, b, 3, 1),
        m32: mul_entry(a, b, 3, 2),
        m33: mul_entry(a, b, 3, 3),
    }
}

/// What transposition returns.
pub open spec fn spec_transpose(m: Mat4) -> Mat4 {
    Mat4 {
        m00: m.m00,
        m01: m.m10,
        m02: m.m20,
        m03: m.m30,
        m10: m.m01,
        m11: m.m11,
        m12: m.m21,
        m13: m.m31,
        m20: m.m02,
        m21: m.m12,
        m22: m.m22,
        m23: m.m32,
        m30: m.m03,
        m31: m.m13,
        m32: m.m23,
        m33: m.m33,
    }
}

/// The identity matrix.
pub open spec fn spec_identity() -> Mat4 {
    Mat4 {
        m00: Fx { raw: FX_ONE },
        m01: Fx { raw: 0 },
        m02: Fx { raw: 0 },
        m03: Fx { raw: 0 },
        m10: Fx { raw: 0 },
        m11: Fx { raw: FX_ONE },
        m12: Fx { raw: 0 },
        m13: Fx { raw: 0 },
        m20: Fx { raw: 0 },
        m21: Fx { raw: 0 },
        m22: Fx { raw: FX_ONE },
        m23: Fx { raw: 0 },
        m30: Fx { raw: 0 },
        m31: Fx { raw: 0 },
        m32: Fx { raw: 0 },
        m33: Fx { raw: FX_ONE },
    }
}

/// A rotation about the X axis, built from the sine and cosine of its angle:
/// rows (1,0,0,0), (0,c,-s,0), (0,s,c,0), (0,0,0,1).
pub open spec fn spec_rot_x(s: Fx, c: Fx) -> Mat4 {
    Mat4 {
        m00: Fx { raw: FX_ONE },
        m01: Fx { raw: 0 },
        m02: Fx { raw: 0 },
        m03: Fx { raw: 0 },
        m10: Fx { raw: 0 },
        m11: c,
        m12: fx_of(fx_neg_spec(s.raw as int)),
        m13: Fx { raw: 0 },
        m20: Fx { raw: 0 },
        m21: s,
        m22: c,
        m23: Fx { raw: 0 },
        m30: Fx { raw: 0 },
        m31: Fx { raw: 0 },
        m32: Fx { raw: 0 },
        m33: Fx { raw: FX_ONE },
    }
}

/// A rotation about the Y axis, built from the sine and cosine of its angle:
/// rows (c,0,s,0), (0,1,0,0), (-s,0,c,0), (0,0,0,1).
pub open spec fn spec_rot_y(s: Fx, c: Fx) -> Mat4 {
    Mat4 {
        m00: c,
        m01: Fx { raw: 0 },
        m02: s,
        m03: Fx { raw: 0 },
        m10: Fx { raw: 0 },
        m11: Fx { raw: FX_ONE },
        m12: Fx { raw: 0 },
        m13: Fx { raw: 0 },
        m20: fx_of(fx_neg_spec(s.raw as int)),
        m21: Fx { raw: 0 },
        m22: c,
        m23: Fx { raw: 0 },
        m30: Fx { raw: 0 },
        m31: Fx { raw: 0 },
        m32: Fx { raw: 0 },
        m33: Fx { raw: FX_ONE },
    }
}

/// A rotation about the Z axis, built from the sine and cosine of its angle:
/// rows (c,-s,0,0), (s,c,0,0), (0,0,1,0), (0,0,0,1).
pub open spec fn spec_rot_z(s: Fx, c: Fx) -> Mat4 {
    Mat4 {
        m00: c,
        m01: fx_of(fx_neg_spec(s.raw as int)),
        m02: Fx { raw: 0 },
        m03: Fx { raw: 0 },
        m10: s,
        m11: c,
        m12: Fx { raw: 0 },
        m13: Fx { raw: 0 },
        m20: Fx { raw: 0 },
        m21: Fx { raw: 0 },
        m22: Fx { raw: FX_ONE },
        m23: Fx { raw: 0 },
        m30: Fx { raw: 0 },
        m31: Fx { raw: 0 },
        m32: Fx { raw: 0 },
        m33: Fx { raw: FX_ONE },
    }
}

/// A matrix whose last column was replaced by (`x`, `y`, `z`, `w`).
pub open spec fn spec_with_col3(m: Mat4, x: Fx, y: Fx, z: Fx, w: Fx) -> Mat4 {
    Mat4 { m03: x, m13: y, m23: z, m33: w, ..m }
}

/// Fixed-point dot product of two 4-component tuples.
pub fn fx_dot4(a0: Fx, b0: Fx, a1: Fx, b1: Fx, a2: Fx, b2: Fx, a3: Fx, b3: Fx) -> (r: Fx)
    ensures
        r.raw as int == fx_dot4_spec(
            a0.raw as int,
            b0.raw as int,
            a1.raw as int,
            b1.raw as int,
            a2.raw as int,
            b2.raw as int,
            a3.raw as int,
            b3.raw as int,
        ),
{
    fx_add(fx_add(fx_add(fx_mul(a0, b0), fx_mul(a1, b1)), fx_mul(a2, b2)), fx_mul(a3, b3))
}

/// Fixed-point dot product of two 3-component tuples.
pub fn fx_dot3(a0: Fx, b0: Fx, a1: Fx, b1: Fx, a2: Fx, b2: Fx) -> (r: Fx)
    ensures
        r.raw as int == fx_dot3_spec(
            a0.raw as int,
            b0.raw as int,
            a1.raw as int,
            b1.raw as int,
            a2.raw as int,
            b2.raw as int,
        ),
{
    fx_add(fx_add(fx_mul(a0, b0), fx_mul(a1, b1)), fx_mul(a2, b2))
}

impl Mat4 {
    /// The identity matrix.
    pub fn identity() -> (r: Mat4)
        ensures
            r == spec_identity(),
    {
        Mat4 {
            m00: Fx { raw: FX_ONE },
            m01: Fx { raw: 0 },
            m02: Fx { raw: 0 },
            m03: Fx { raw: 0 },
            m10: Fx { raw: 0 },
            m11: Fx { raw: FX_ONE },
            m12: Fx { raw: 0 },
            m13: Fx { raw: 0 },
            m20: Fx { raw: 0 },
            m21: Fx { raw: 0 },
            m22: Fx { raw: FX_ONE },
            m23: Fx { raw: 0 },
            m30: Fx { raw: 0 },
            m31: Fx { raw: 0 },
            m32: Fx { raw: 0 },
            m33: Fx { raw: FX_ONE },
        }
    }
}

/// Matrix product `a * b` (row-major, row of `a` against column of `b`).
pub fn mat_mul(a: &Mat4, b: &Mat4) -> (r: Mat4)
    ensures
        r == spec_mat_mul(*a, *b),
{
    Mat4 {
        m00: fx_dot4(a.m00, b.m00, a.m01, b.m10, a.m02, b.m20, a.m03, b.m30),
        m01: fx_dot4(a.m00, b.m01, a.m01, b.m11, a.m02, b.m21, a.m03, b.m31),
        m02: fx_dot4(a.m00, b.m02, a.m01, b.m12, a.m02, b.m22, a.m03, b.m32),
        m03: fx_dot4(a.m00, b.m03, a.m01, b.m13, a.m02, b.m23, a.m03, b.m33),
        m10: fx_dot4(a.m10, b.m00, a.m11, b.m10, a.m12, b.m20, a.m13, b.m30),
        m11: fx_dot4(a.m10, b.m01, a.m11, b.m11, a.m12, b.m21, a.m13, b.m31),
        m12: fx_dot4(a.m10, b.m02, a.m11, b.m12, a.m12, b.m22, a.m13, b.m32),
        m13: fx_dot4(a.m10, b.m03, a.m11, b.m13, a.m12, b.m23, a.m13, b.m33),
        m20: fx_dot4(a.m20, b.m00, a.m21, b.m10, a.m22, b.m20, a.m23, b.m30),
        m21: fx_dot4(a.m20, b.m01, a.m21, b.m11, a.m22, b.m21, a.m23, b.m31),
        m22: fx_dot4(a.m20, b.m02, a.m21, b.m12, a.m22, b.m22, a.m23, b.m32),
        m23: fx_dot4(a.m20, b.m03, a.m21, b.m13, a.m22, b.m23, a.m23, b.m33),
        m30: fx_dot4(a.m30, b.m00, a.m31, b.m10, a.m32, b.m20, a.m33, b.m30),
        m31: fx_dot4(a.m30, b.m01, a.m31, b.m11, a.m32, b.m21, a.m33, b.m31),
        m32: fx_dot4(a.m30, b.m02, a.m31, b.m12, a.m32, b.m22, a.m33, b.m32),
        m33: fx_dot4(a.m30, b.m03, a.m31, b.m13, a.m32, b.m23, a.m33, b.m33),
    }
}

/// The transpose: rows become columns.
pub fn transpose(m: &Mat4) -> (r: Mat4)
    ensures
        r == spec_transpose(*m),
{
    Mat4 {
        m00: m.m00,
        m01: m.m10,
        m02: m.m20,
        m03: m.m30,
        m10: m.m01,
        m11: m.m11,
        m12: m.m21,
        m13: m.m31,
        m20: m.m02,
        m21: m.m12,
        m22: m.m22,
        m23: m.m32,
        m30: m.m03,
        m31: m.m13,
        m32: m.m23,
        m33: m.m33,
    }
}

/// The rotation about the X axis with the given sine and cosine.
pub fn rot_x(s: Fx, c: Fx) -> (r: Mat4)
    ensures
        r == spec_rot_x(s, c),
{
    Mat4 {
        m00: Fx { raw: FX_ONE },
        m01: Fx { raw: 0 },
        m02: Fx { raw: 0 },
        m03: Fx { raw: 0 },
        m10: Fx { raw: 0 },
        m11: c,
        m12: fx_neg(s),
        m13: Fx { raw: 0 },
        m20: Fx { raw: 0 },
        m21: s,
        m22: c,
        m23: Fx { raw: 0 },
        m30: Fx { raw: 0 },
        m31: Fx { raw: 0 },
        m32: Fx { raw: 0 },
        m33: Fx { raw: FX_ONE },
    }
}

/// The rotation about the Y axis with the given sine and cosine.
pub fn rot_y(s: Fx, c: Fx) -> (r: Mat4)
    ensures
        r == spec_rot_y(s, c),
{
    Mat4 {
        m00: c,
        m01: Fx { raw: 0 },
        m02: s,
        m03: Fx { raw: 0 },
        m10: Fx { raw: 0 },
        m11: Fx { raw: FX_ONE },
        m12: Fx { raw: 0 },
        m13: Fx { raw: 0 },
        m20: fx_neg(s),
        m21: Fx { raw: 0 },
        m22: c,
        m23: Fx { raw: 0 },
        m30: Fx { raw: 0 },
        m31: Fx { raw: 0 },
        m32: Fx { raw: 0 },
        m33: Fx { raw: FX_ONE },
    }
}

/// The rotation about the Z axis with the given sine and cosine.
pub fn rot_z(s: Fx, c: Fx) -> (r: Mat4)
    ensures
        r == spec_rot_z(s, c),
{
    Mat4 {
        m00: c,
        m01: fx_neg(s),
        m02: Fx { raw: 0 },
        m03: Fx { raw: 0 },
        m10: s,
        m11: c,
        m12: Fx { raw: 0 },
        m13: Fx { raw: 0 },
        m20: Fx { raw: 0 },
        m21: Fx { raw: 0 },
        m22: Fx { raw: FX_ONE },
        m23: Fx { raw: 0 },
        m30: Fx { raw: 0 },
        m31: Fx { raw: 0 },
        m32: Fx { raw: 0 },
        m33: Fx { raw: FX_ONE },
    }
}

} // verus!
