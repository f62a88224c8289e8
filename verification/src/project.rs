//! The projection stage: perspective divide from clip space to
//! normalized device coordinates, then the viewport mapping to pixel
//! coordinates.  Screen positions stay in 16.16 fixed point; the
//! rasterizer rounds them to whole pixels sample by sample.

use crate::clip::{clip_ok_s, Clip4, SClip};
use crate::fx::{fx_div, fx_div_s, lemma_fx_div_unit, FP};
use vstd::prelude::*;

verus! {

/// Half the target's width in pixels.
pub const HALF_W: i64 = 400;

/// Half the target's height in pixels.
pub const HALF_H: i64 = 300;

/// A screen-space point: pixel coordinates in 16.16 fixed point, with
/// the depth carried along unused.
pub struct ScreenPos {
    pub x: i64,
    pub y: i64,
    pub z: i64,
}

/// The mathematical value of a screen-space point.
pub ghost struct SScreen {
    pub x: int,
    pub y: int,
    pub z: int,
}

impl ScreenPos {
    /// The mathematical value of this point.
    pub open spec fn s(self) -> SScreen {
        SScreen { x: self.x as int, y: self.y as int, z: self.z as int }
    }
}

/// The viewport mapping on a normalized-device-coordinate point:
/// `screen_x = (x + 1) * 0.5 * width` and `screen_y = (1 - y) * 0.5 *
/// height` (Y flips because pixel rows grow downward), depth kept.
pub open spec fn ndc_to_screen_s(x: int, y: int, z: int) -> SScreen {
    SScreen { x: (x + FP as int) * (HALF_W as int), y: ((FP as int) - y) * (HALF_H as int), z: z }
}

/// Perspective divide and viewport mapping of one clip-space point.
pub open spec fn screen_of_clip_s(v: SClip) -> SScreen {
    ndc_to_screen_s(fx_div_s(v.x, v.w), fx_div_s(v.y, v.w), fx_div_s(v.z, v.w))
}

/// Maps a normalized-device-coordinate point to screen space.  On the
/// visible range, one fixed-point unit per axis, the result lies inside
/// the target: x in [0, 800], y in [0, 600], in fixed-point pixels.
pub fn ndc_to_screen(x: i64, y: i64, z: i64) -> (p: ScreenPos)
    requires
        -FP <= x <= FP,
        -FP <= y <= FP,
    ensures
        p.s() == ndc_to_screen_s(x as int, y as int, z as int),
        0 <= p.x <= 800 * FP,
        0 <= p.y <= 600 * FP,
{
    ScreenPos { x: (x + FP) * HALF_W, y: (FP - y) * HALF_H, z }
}

/// Projects one accepted clip-space vertex to screen space: divide each
/// coordinate by `w`, then apply the viewport mapping.  The clip test
/// guarantees `w > 0` and `|x|, |y|, |z| <= w`, so the divide is exact
/// integer arithmetic and the result lands inside the target.
pub fn project_vertex(v: &Clip4) -> (p: ScreenPos)
    requires
        clip_ok_s(v.s()),
        v.w <= 0x100_0000,
    ensures
        p.s() == screen_of_clip_s(v.s()),
        0 <= p.x <= 800 * FP,
        0 <= p.y <= 600 * FP,
{
    proof {
        lemma_fx_div_unit(v.x as int, v.w as int);
        lemma_fx_div_unit(v.y as int, v.w as int);
        lemma_fx_div_unit(v.z as int, v.w as int);
    }
    let nx = fx_div(v.x, v.w);
    let ny = fx_div(v.y, v.w);
    let nz = fx_div(v.z, v.w);
    ndc_to_screen(nx, ny, nz)
}

} // verus!
