//! The clip stage: a homogeneous clip-space point and its visibility
//! test.  A point passes only if `w` is strictly positive and each of
//! `x`, `y`, `z` lies within `[-w, w]`; a point that fails is behind
//! the camera or outside the view frustum.

use vstd::prelude::*;

verus! {

/// A homogeneous clip-space point in 16.16 fixed point.
pub struct Clip4 {
    pub x: i64,
    pub y: i64,
    pub z: i64,
    pub w: i64,
}

/// The mathematical value of a clip-space point.
pub ghost struct SClip {
    pub x: int,
    pub y: int,
    pub z: int,
    pub w: int,
}

impl Clip4 {
    /// The mathematical value of this point.
    pub open spec fn s(self) -> SClip {
        SClip { x: self.x as int, y: self.y as int, z: self.z as int, w: self.w as int }
    }
}

/// The visibility test: true exactly when `w > 0` and all three of
/// `|x|`, `|y|`, `|z|` are at most `w`.
pub open spec fn clip_ok_s(v: SClip) -> bool {
    &&& v.w > 0
    &&& -v.w <= v.x <= v.w
    &&& -v.w <= v.y <= v.w
    &&& -v.w <= v.z <= v.w
}

/// Decides visibility of one clip-space point.  The result is true if
/// and only if `w > 0` and every axis passes its `|coordinate| <= w`
/// test; any failing axis, or a nonpositive `w`, rejects the point.
pub fn clip_check(v: &Clip4) -> (r: bool)
    ensures
        r == clip_ok_s(v.s()),
{
    if v.w <= 0 {
        return false;
    }
    let w = v.w;
    -w <= v.x && v.x <= w && -w <= v.y && v.y <= w && -w <= v.z && v.z <= w
}

} // verus!
