//! The transform stage: 4x4 fixed-point matrices, the fixed camera and
//! projection, the time-dependent model rotation, and their composition
//! into one combined transform applied to every vertex each frame.
//!
//! Matrices act on column vectors, so a model-space point is transformed
//! model-first by `projection * view * model`.

use crate::clip::{Clip4, SClip};
use crate::fx::{
    fx_mul, fx_mul_s, lemma_fx_mul_bound, lemma_fx_mul_bound_fp, FP,
};
use crate::geometry::vertex_s;
use vstd::arithmetic::div_mod::lemma_div_multiples_vanish;
use vstd::prelude::*;

verus! {

/// A 4x4 matrix of 16.16 fixed-point entries, row major: `mRC` is the
/// entry in row `R`, column `C`.
pub struct Mat {
    pub m00: i64,
    pub m01: i64,
    pub m02: i64,
    pub m03: i64,
    pub m10: i64,
    pub m11: i64,
    pub m12: i64,
    pub m13: i64,
    pub m20: i64,
    pub m21: i64,
    pub m22: i64,
    pub m23: i64,
    pub m30: i64,
    pub m31: i64,
    pub m32: i64,
    pub m33: i64,
}

/// The mathematical value of a matrix.
pub ghost struct SMat {
    pub m00: int,
    pub m01: int,
    pub m02: int,
    pub m03: int,
    pub m10: int,
    pub m11: int,
    pub m12: int,
    pub m13: int,
    pub m20: int,
    pub m21: int,
    pub m22: int,
    pub m23: int,
    pub m30: int,
    pub m31: int,
    pub m32: int,
    pub m33: int,
}

impl Mat {
    /// The mathematical value of this matrix.
    pub open spec fn s(self) -> SMat {
        SMat {
            m00: self.m00 as int,
            m01: self.m01 as int,
            m02: self.m02 as int,
            m03: self.m03 as int,
            m10: self.m10 as int,
            m11: self.m11 as int,
            m12: self.m12 as int,
            m13: self.m13 as int,
            m20: self.m20 as int,
            m21: self.m21 as int,
            m22: self.m22 as int,
            m23: self.m23 as int,
            m30: self.m30 as int,
            m31: self.m31 as int,
            m32: self.m32 as int,
            m33: self.m33 as int,
        }
    }
}

/// Every entry of the matrix has magnitude at most `b`.
pub open spec fn mat_in(m: SMat, b: int) -> bool {
    &&& -b <= m.m00 <= b
    &&& -b <= m.m01 <= b
    &&& -b <= m.m02 <= b
    &&& -b <= m.m03 <= b
    &&& -b <= m.m10 <= b
    &&& -b <= m.m11 <= b
    &&& -b <= m.m12 <= b
    &&& -b <= m.m13 <= b
    &&& -b <= m.m20 <= b
    &&& -b <= m.m21 <= b
    &&& -b <= m.m22 <= b
    &&& -b <= m.m23 <= b
    &&& -b <= m.m30 <= b
    &&& -b <= m.m31 <= b
    &&& -b <= m.m32 <= b
    &&& -b <= m.m33 <= b
}

/// A fixed-point dot product of one matrix row with one column.
pub open spec fn dot4_s(a0: int, a1: int, a2: int, a3: int, b0: int, b1: int, b2: int, b3: int) -> int {
    fx_mul_s(a0, b0) + fx_mul_s(a1, b1) + fx_mul_s(a2, b2) + fx_mul_s(a3, b3)
}

/// The fixed-point matrix product `a * b`.
pub open spec fn mat_mul_s(a: SMat, b: SMat) -> SMat {
    SMat {
        m00: dot4_s(a.m00, a.m01, a.m02, a.m03, b.m00, b.m10, b.m20, b.m30),
        m01: dot4_s(a.m00, a.m01, a.m02, a.m03, b.m01, b.m11, b.m21, b.m31),
        m02: dot4_s(a.m00, a.m01, a.m02, a.m03, b.m02, b.m12, b.m22, b.m32),
        m03: dot4_s(a.m00, a.m01, a.m02, a.m03, b.m03, b.m13, b.m23, b.m33),
        m10: dot4_s(a.m10, a.m11, a.m12, a.m13, b.m00, b.m10, b.m20, b.m30),
        m11: dot4_s(a.m10, a.m11, a.m12, a.m13, b.m01, b.m11, b.m21, b.m31),
        m12: dot4_s(a.m10, a.m11, a.m12, a.m13, b.m02, b.m12, b.m22, b.m32),
        m13: dot4_s(a.m10, a.m11, a.m12, a.m13, b.m03, b.m13, b.m23, b.m33),
        m20: dot4_s(a.m20, a.m21, a.m22, a.m23, b.m00, b.m10, b.m20, b.m30),
        m21: dot4_s(a.m20, a.m21, a.m22, a.m23, b.m01, b.m11, b.m21, b.m31),
        m22: dot4_s(a.m20, a.m21, a.m22, a.m23, b.m02, b.m12, b.m22, b.m32),
        m23: dot4_s(a.m20, a.m21, a.m22, a.m23, b.m03, b.m13, b.m23, b.m33),
        m30: dot4_s(a.m30, a.m31, a.m32, a.m33, b.m00, b.m10, b.m20, b.m30),
        m31: dot4_s(a.m30, a.m31, a.m32, a.m33, b.m01, b.m11, b.m21, b.m31),
        m32: dot4_s(a.m30, a.m31, a.m32, a.m33, b.m02, b.m12, b.m22, b.m32),
        m33: dot4_s(a.m30, a.m31, a.m32, a.m33, b.m03, b.m13, b.m23, b.m33),
    }
}

/// The model matrix: a pure rotation about the vertical (Y) axis, given
/// the sine and cosine of the rotation angle in fixed point.
pub open spec fn model_s(s: int, c: int) -> SMat {
    SMat {
        m00: c,
        m01: 0,
        m02: s,
        m03: 0,
        m10: 0,
        m11: FP as int,
        m12: 0,
        m13: 0,
        m20: -s,
        m21: 0,
        m22: c,
        m23: 0,
        m30: 0,
        m31: 0,
        m32: 0,
        m33: FP as int,
    }
}

/// The view matrix: a camera at (0, 0, 2) looking toward (0, 0, -1)
/// with up-vector (0, 1, 0).  The basis is already axis-aligned, so the
/// matrix reduces to a translation of -2 along Z.
pub open spec fn view_s() -> SMat {
    SMat {
        m00: FP as int,
        m01: 0,
        m02: 0,
        m03: 0,
        m10: 0,
        m11: FP as int,
        m12: 0,
        m13: 0,
        m20: 0,
        m21: 0,
        m22: FP as int,
        m23: -2 * (FP as int),
        m30: 0,
        m31: 0,
        m32: 0,
        m33: FP as int,
    }
}

/// Focal scale over aspect ratio: with a 90 degree vertical field of
/// view the focal scale is 1/tan(45 degrees) = 1, and the aspect ratio
/// is 800/600, so this is 0.75 in fixed point.
pub const PROJ_XX: i64 = 49152;

/// The focal scale itself: 1.0 in fixed point.
pub const PROJ_YY: i64 = 65536;

/// far / (near - far) = 100 / (0.1 - 100) = -1000/999, truncated toward
/// zero in fixed point: -(65536 * 1000 / 999).
pub const PROJ_ZZ: i64 = -65601;

/// near * far / (near - far) = -10/99.9 = -100/999, truncated toward
/// zero in fixed point: -(65536 * 100 / 999).
pub const PROJ_ZW: i64 = -6560;

/// The projection matrix: a right-handed perspective projection with a
/// 90 degree vertical field of view, aspect ratio 800/600, near plane
/// 0.1 and far plane 100.  Row 3 copies `-z` into `w`.
pub open spec fn proj_s() -> SMat {
    SMat {
        m00: PROJ_XX as int,
        m01: 0,
        m02: 0,
        m03: 0,
        m10: 0,
        m11: PROJ_YY as int,
        m12: 0,
        m13: 0,
        m20: 0,
        m21: 0,
        m22: PROJ_ZZ as int,
        m23: PROJ_ZW as int,
        m30: 0,
        m31: 0,
        m32: -(FP as int),
        m33: 0,
    }
}

/// The combined transform for one frame: projection * view * model.
pub open spec fn mvp_s(s: int, c: int) -> SMat {
    mat_mul_s(proj_s(), mat_mul_s(view_s(), model_s(s, c)))
}

/// The combined transform applied to the model-space point (x, y, z, 1).
pub open spec fn xform_s(m: SMat, x: int, y: int, z: int) -> SClip {
    SClip {
        x: dot4_s(m.m00, m.m01, m.m02, m.m03, x, y, z, FP as int),
        y: dot4_s(m.m10, m.m11, m.m12, m.m13, x, y, z, FP as int),
        z: dot4_s(m.m20, m.m21, m.m22, m.m23, x, y, z, FP as int),
        w: dot4_s(m.m30, m.m31, m.m32, m.m33, x, y, z, FP as int),
    }
}

/// The clip-space image of vertex `vi` under the combined transform.
pub open spec fn clip_of_vertex_s(m: SMat, vi: int) -> SClip {
    xform_s(m, vertex_s(vi).0, vertex_s(vi).1, vertex_s(vi).2)
}

/// A row-times-column dot product of bounded entries is bounded by four
/// times the scaled product of the bounds.
pub proof fn lemma_dot4_bound(
    a0: int, a1: int, a2: int, a3: int,
    b0: int, b1: int, b2: int, b3: int,
    ba: int, bb: int,
)
    requires
        -ba <= a0 <= ba,
        -ba <= a1 <= ba,
        -ba <= a2 <= ba,
        -ba <= a3 <= ba,
        -bb <= b0 <= bb,
        -bb <= b1 <= bb,
        -bb <= b2 <= bb,
        -bb <= b3 <= bb,
        0 <= ba,
        0 <= bb,
    ensures
        -4 * ((ba * bb) / (FP as int)) <= dot4_s(a0, a1, a2, a3, b0, b1, b2, b3) <= 4 * ((ba * bb)
            / (FP as int)),
{
    lemma_fx_mul_bound(a0, b0, ba, bb);
    lemma_fx_mul_bound(a1, b1, ba, bb);
    lemma_fx_mul_bound(a2, b2, ba, bb);
    lemma_fx_mul_bound(a3, b3, ba, bb);
}

/// A product of bounded matrices is bounded by four times the scaled
/// product of the bounds.
pub proof fn lemma_mat_mul_in(a: SMat, b: SMat, ba: int, bb: int)
    requires
        mat_in(a, ba),
        mat_in(b, bb),
        0 <= ba,
        0 <= bb,
    ensures
        mat_in(mat_mul_s(a, b), 4 * ((ba * bb) / (FP as int))),
{
    lemma_dot4_bound(a.m00, a.m01, a.m02, a.m03, b.m00, b.m10, b.m20, b.m30, ba, bb);
    lemma_dot4_bound(a.m00, a.m01, a.m02, a.m03, b.m01, b.m11, b.m21, b.m31, ba, bb);
    lemma_dot4_bound(a.m00, a.m01, a.m02, a.m03, b.m02, b.m12, b.m22, b.m32, ba, bb);
    lemma_dot4_bound(a.m00, a.m01, a.m02, a.m03, b.m03, b.m13, b.m23, b.m33, ba, bb);
    lemma_dot4_bound(a.m10, a.m11, a.m12, a.m13, b.m00, b.m10, b.m20, b.m30, ba, bb);
    lemma_dot4_bound(a.m10, a.m11, a.m12, a.m13, b.m01, b.m11, b.m21, b.m31, ba, bb);
    lemma_dot4_bound(a.m10, a.m11, a.m12, a.m13, b.m02, b.m12, b.m22, b.m32, ba, bb);
    lemma_dot4_bound(a.m10, a.m11, a.m12, a.m13, b.m03, b.m13, b.m23, b.m33, ba, bb);
    lemma_dot4_bound(a.m20, a.m21, a.m22, a.m23, b.m00, b.m10, b.m20, b.m30, ba, bb);
    lemma_dot4_bound(a.m20, a.m21, a.m22, a.m23, b.m01, b.m11, b.m21, b.m31, ba, bb);
    lemma_dot4_bound(a.m20, a.m21, a.m22, a.m23, b.m02, b.m12, b.m22, b.m32, ba, bb);
    lemma_dot4_bound(a.m20, a.m21, a.m22, a.m23, b.m03, b.m13, b.m23, b.m33, ba, bb);
    lemma_dot4_bound(a.m30, a.m31, a.m32, a.m33, b.m00, b.m10, b.m20, b.m30, ba, bb);
    lemma_dot4_bound(a.m30, a.m31, a.m32, a.m33, b.m01, b.m11, b.m21, b.m31, ba, bb);
    lemma_dot4_bound(a.m30, a.m31, a.m32, a.m33, b.m02, b.m12, b.m22, b.m32, ba, bb);
    lemma_dot4_bound(a.m30, a.m31, a.m32, a.m33, b.m03, b.m13, b.m23, b.m33, ba, bb);
}

/// Multiplies two fixed-point matrices.
pub fn mat_mul(a: &Mat, b: &Mat) -> (r: Mat)
    requires
        mat_in(a.s(), 0x100_0000),
        mat_in(b.s(), 0x100_0000),
    ensures
        r.s() == mat_mul_s(a.s(), b.s()),
{
    let e00: i64 = fx_mul(a.m00, b.m00) + fx_mul(a.m01, b.m10) + fx_mul(a.m02, b.m20) + fx_mul(
        a.m03,
        b.m30,
    );
    let e01: i64 = fx_mul(a.m00, b.m01) + fx_mul(a.m01, b.m11) + fx_mul(a.m02, b.m21) + fx_mul(
        a.m03,
        b.m31,
    );
    let e02: i64 = fx_mul(a.m00, b.m02) + fx_mul(a.m01, b.m12) + fx_mul(a.m02, b.m22) + fx_mul(
        a.m03,
        b.m32,
    );
    let e03: i64 = fx_mul(a.m00, b.m03) + fx_mul(a.m01, b.m13) + fx_mul(a.m02, b.m23) + fx_mul(
        a.m03,
        b.m33,
    );
    let e10: i64 = fx_mul(a.m10, b.m00) + fx_mul(a.m11, b.m10) + fx_mul(a.m12, b.m20) + fx_mul(
        a.m13,
        b.m30,
    );
    let e11: i64 = fx_mul(a.m10, b.m01) + fx_mul(a.m11, b.m11) + fx_mul(a.m12, b.m21) + fx_mul(
        a.m13,
        b.m31,
    );
    let e12: i64 = fx_mul(a.m10, b.m02) + fx_mul(a.m11, b.m12) + fx_mul(a.m12, b.m22) + fx_mul(
        a.m13,
        b.m32,
    );
    let e13: i64 = fx_mul(a.m10, b.m03) + fx_mul(a.m11, b.m13) + fx_mul(a.m12, b.m23) + fx_mul(
        a.m13,
        b.m33,
    );
    let e20: i64 = fx_mul(a.m20, b.m00) + fx_mul(a.m21, b.m10) + fx_mul(a.m22, b.m20) + fx_mul(
        a.m23,
        b.m30,
    );
    let e21: i64 = fx_mul(a.m20, b.m01) + fx_mul(a.m21, b.m11) + fx_mul(a.m22, b.m21) + fx_mul(
        a.m23,
        b.m31,
    );
    let e22: i64 = fx_mul(a.m20, b.m02) + fx_mul(a.m21, b.m12) + fx_mul(a.m22, b.m22) + fx_mul(
        a.m23,
        b.m32,
    );
    let e23: i64 = fx_mul(a.m20, b.m03) + fx_mul(a.m21, b.m13) + fx_mul(a.m22, b.m23) + fx_mul(
        a.m23,
        b.m33,
    );
    let e30: i64 = fx_mul(a.m30, b.m00) + fx_mul(a.m31, b.m10) + fx_mul(a.m32, b.m20) + fx_mul(
        a.m33,
        b.m30,
    );
    let e31: i64 = fx_mul(a.m30, b.m01) + fx_mul(a.m31, b.m11) + fx_mul(a.m32, b.m21) + fx_mul(
        a.m33,
        b.m31,
    );
    let e32: i64 = fx_mul(a.m30, b.m02) + fx_mul(a.m31, b.m12) + fx_mul(a.m32, b.m22) + fx_mul(
        a.m33,
        b.m32,
    );
    let e33: i64 = fx_mul(a.m30, b.m03) + fx_mul(a.m31, b.m13) + fx_mul(a.m32, b.m23) + fx_mul(
        a.m33,
        b.m33,
    );
    Mat {
        m00: e00,
        m01: e01,
        m02: e02,
        m03: e03,
        m10: e10,
        m11: e11,
        m12: e12,
        m13: e13,
        m20: e20,
        m21: e21,
        m22: e22,
        m23: e23,
        m30: e30,
        m31: e31,
        m32: e32,
        m33: e33,
    }
}

/// Builds the model matrix from the sine and cosine of the rotation
/// angle, each at most one fixed-point unit in magnitude.
pub fn model_mat(s: i64, c: i64) -> (m: Mat)
    requires
        -FP <= s <= FP,
        -FP <= c <= FP,
    ensures
        m.s() == model_s(s as int, c as int),
        mat_in(m.s(), FP as int),
{
    Mat {
        m00: c,
        m01: 0,
        m02: s,
        m03: 0,
        m10: 0,
        m11: FP,
        m12: 0,
        m13: 0,
        m20: -s,
        m21: 0,
        m22: c,
        m23: 0,
        m30: 0,
        m31: 0,
        m32: 0,
        m33: FP,
    }
}

/// Builds the fixed view matrix.
pub fn view_mat() -> (m: Mat)
    ensures
        m.s() == view_s(),
        mat_in(m.s(), 2 * (FP as int)),
{
    Mat {
        m00: FP,
        m01: 0,
        m02: 0,
        m03: 0,
        m10: 0,
        m11: FP,
        m12: 0,
        m13: 0,
        m20: 0,
        m21: 0,
        m22: FP,
        m23: -131072,
        m30: 0,
        m31: 0,
        m32: 0,
        m33: FP,
    }
}

/// Builds the fixed projection matrix.
pub fn proj_mat() -> (m: Mat)
    ensures
        m.s() == proj_s(),
        mat_in(m.s(), 2 * (FP as int)),
{
    Mat {
        m00: PROJ_XX,
        m01: 0,
        m02: 0,
        m03: 0,
        m10: 0,
        m11: PROJ_YY,
        m12: 0,
        m13: 0,
        m20: 0,
        m21: 0,
        m22: PROJ_ZZ,
        m23: PROJ_ZW,
        m30: 0,
        m31: 0,
        m32: -FP,
        m33: 0,
    }
}

/// Builds the combined transform for one frame from the sine and cosine
/// of the model rotation angle: projection * view * model.
pub fn mvp_mat(s: i64, c: i64) -> (m: Mat)
    requires
        -FP <= s <= FP,
        -FP <= c <= FP,
    ensures
        m.s() == mvp_s(s as int, c as int),
        mat_in(m.s(), 0x40_0000),
{
    let model = model_mat(s, c);
    let view = view_mat();
    let proj = proj_mat();
    proof {
        lemma_mat_mul_in(view_s(), model_s(s as int, c as int), 2 * (FP as int), FP as int);
        assert((2 * (FP as int) * (FP as int)) / (FP as int) == 2 * (FP as int)) by {
            lemma_div_multiples_vanish(2 * (FP as int), FP as int);
            assert(2 * (FP as int) * (FP as int) == (FP as int) * (2 * (FP as int)))
                by (nonlinear_arith);
        }
    }
    let vm = mat_mul(&view, &model);
    proof {
        lemma_mat_mul_in(proj_s(), vm.s(), 2 * (FP as int), 8 * (FP as int));
        assert((2 * (FP as int) * (8 * (FP as int))) / (FP as int) == 16 * (FP as int)) by {
            lemma_div_multiples_vanish(16 * (FP as int), FP as int);
            assert(2 * (FP as int) * (8 * (FP as int)) == (FP as int) * (16 * (FP as int)))
                by (nonlinear_arith);
        }
    }
    let r = mat_mul(&proj, &vm);
    r
}

/// Applies the combined transform to a model-space vertex, giving its
/// homogeneous clip-space image.
pub fn transform_vertex(m: &Mat, v: (i64, i64, i64)) -> (cv: Clip4)
    requires
        mat_in(m.s(), 0x40_0000),
        -FP <= v.0 <= FP,
        -FP <= v.1 <= FP,
        -FP <= v.2 <= FP,
    ensures
        cv.s() == xform_s(m.s(), v.0 as int, v.1 as int, v.2 as int),
        -0x100_0000 <= cv.x <= 0x100_0000,
        -0x100_0000 <= cv.y <= 0x100_0000,
        -0x100_0000 <= cv.z <= 0x100_0000,
        -0x100_0000 <= cv.w <= 0x100_0000,
{
    proof {
        lemma_fx_mul_bound_fp(m.m00 as int, v.0 as int, 0x40_0000);
        lemma_fx_mul_bound_fp(m.m01 as int, v.1 as int, 0x40_0000);
        lemma_fx_mul_bound_fp(m.m02 as int, v.2 as int, 0x40_0000);
        lemma_fx_mul_bound_fp(m.m03 as int, FP as int, 0x40_0000);
        lemma_fx_mul_bound_fp(m.m10 as int, v.0 as int, 0x40_0000);
        lemma_fx_mul_bound_fp(m.m11 as int, v.1 as int, 0x40_0000);
        lemma_fx_mul_bound_fp(m.m12 as int, v.2 as int, 0x40_0000);
        lemma_fx_mul_bound_fp(m.m13 as int, FP as int, 0x40_0000);
        lemma_fx_mul_bound_fp(m.m20 as int, v.0 as int, 0x40_0000);
        lemma_fx_mul_bound_fp(m.m21 as int, v.1 as int, 0x40_0000);
        lemma_fx_mul_bound_fp(m.m22 as int, v.2 as int, 0x40_0000);
        lemma_fx_mul_bound_fp(m.m23 as int, FP as int, 0x40_0000);
        lemma_fx_mul_bound_fp(m.m30 as int, v.0 as int, 0x40_0000);
        lemma_fx_mul_bound_fp(m.m31 as int, v.1 as int, 0x40_0000);
        lemma_fx_mul_bound_fp(m.m32 as int, v.2 as int, 0x40_0000);
        lemma_fx_mul_bound_fp(m.m33 as int, FP as int, 0x40_0000);
    }
    let cx: i64 = fx_mul(m.m00, v.0) + fx_mul(m.m01, v.1) + fx_mul(m.m02, v.2) + fx_mul(m.m03, FP);
    let cy: i64 = fx_mul(m.m10, v.0) + fx_mul(m.m11, v.1) + fx_mul(m.m12, v.2) + fx_mul(m.m13, FP);
    let cz: i64 = fx_mul(m.m20, v.0) + fx_mul(m.m21, v.1) + fx_mul(m.m22, v.2) + fx_mul(m.m23, FP);
    let cw: i64 = fx_mul(m.m30, v.0) + fx_mul(m.m31, v.1) + fx_mul(m.m32, v.2) + fx_mul(m.m33, FP);
    Clip4 { x: cx, y: cy, z: cz, w: cw }
}

} // verus!
