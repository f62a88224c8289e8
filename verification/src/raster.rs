//! The rasterizer: a fixed 800x600 pixel buffer and thick-line drawing.
//!
//! A line is walked in `steps + 1` samples, where `steps` is the larger
//! coordinate delta in whole pixels; at each sample the current position
//! is rounded to the nearest pixel and a square block of side
//! `thickness` (clamped to the buffer) is stamped in the foreground
//! color.  Writes overwrite; there is no blending.

use crate::fx::{
    abs_s, div_t, div_trunc, fx_round, fx_round_s, lemma_div_t_bound, lemma_mul_abs_bound, FP,
};
use vstd::prelude::*;

verus! {

/// The target's width in pixels.
pub const WIDTH: usize = 800;

/// The target's height in pixels.
pub const HEIGHT: usize = 600;

/// How many pixels the buffer holds: width times height.
pub const PIXEL_COUNT: usize = 480000;

/// The foreground (stroke) color, packed 0xRRGGBB.
pub const GREEN: u32 = 0x00ff00;

/// The background color.
pub const BLACK: u32 = 0;

/// The flat row-major index of the pixel in row `r`, column `c`.
pub open spec fn pix_idx(r: int, c: int) -> int {
    r * 800 + c
}

/// `v` forced into the closed interval `[lo, hi]`.
pub open spec fn clamp_s(v: int, lo: int, hi: int) -> int {
    if v < lo {
        lo
    } else if v > hi {
        hi
    } else {
        v
    }
}

/// Whether pixel (row `r`, column `c`) lies in the square block of
/// half-side `half` around center column `cx`, row `cy`, the block
/// clamped to the buffer bounds.  An out-of-range center is clamped,
/// not skipped, so strokes near an edge are clipped to the edge.
pub open spec fn rect_covers(cx: int, cy: int, half: int, r: int, c: int) -> bool {
    &&& clamp_s(cy - half, 0, 599) <= r <= clamp_s(cy + half, 0, 599)
    &&& clamp_s(cx - half, 0, 799) <= c <= clamp_s(cx + half, 0, 799)
}

/// The larger of two integers.
pub open spec fn max2_s(a: int, b: int) -> int {
    if a >= b {
        a
    } else {
        b
    }
}

/// How many whole-pixel steps the line walk takes: the larger of the
/// two coordinate deltas, in whole pixels, truncated.
pub open spec fn steps_s(ax: int, ay: int, bx: int, by: int) -> int {
    div_t(max2_s(abs_s(bx - ax), abs_s(by - ay)), FP as int)
}

/// The per-sample X increment: the X delta split over the steps.
pub open spec fn inc_x_s(ax: int, ay: int, bx: int, by: int) -> int {
    div_t(bx - ax, steps_s(ax, ay, bx, by))
}

/// The per-sample Y increment.
pub open spec fn inc_y_s(ax: int, ay: int, bx: int, by: int) -> int {
    div_t(by - ay, steps_s(ax, ay, bx, by))
}

/// The fixed-point X position of sample `k` of the walk.
pub open spec fn sample_x_s(ax: int, ay: int, bx: int, by: int, k: int) -> int {
    ax + k * inc_x_s(ax, ay, bx, by)
}

/// The fixed-point Y position of sample `k` of the walk.
pub open spec fn sample_y_s(ax: int, ay: int, bx: int, by: int, k: int) -> int {
    ay + k * inc_y_s(ax, ay, bx, by)
}

/// The pixel column sample `k` rounds to.
pub open spec fn sample_cx_s(ax: int, ay: int, bx: int, by: int, k: int) -> int {
    fx_round_s(sample_x_s(ax, ay, bx, by, k))
}

/// The pixel row sample `k` rounds to.
pub open spec fn sample_cy_s(ax: int, ay: int, bx: int, by: int, k: int) -> int {
    fx_round_s(sample_y_s(ax, ay, bx, by, k))
}

/// Whether pixel (row `r`, column `c`) is touched when a line of the
/// given thickness is drawn from `(ax, ay)` to `(bx, by)`: some sample's
/// stamped block covers it.  A zero-step walk (coincident endpoints
/// rounding to the same pixel distance) touches nothing.
pub open spec fn line_covers(
    ax: int,
    ay: int,
    bx: int,
    by: int,
    t: int,
    r: int,
    c: int,
) -> bool {
    &&& steps_s(ax, ay, bx, by) >= 1
    &&& exists|k: int|
        0 <= k <= steps_s(ax, ay, bx, by) && #[trigger] rect_covers(
            sample_cx_s(ax, ay, bx, by, k),
            sample_cy_s(ax, ay, bx, by, k),
            t / 2,
            r,
            c,
        )
}

/// How drawing one line changes a buffer: every pixel the line covers
/// turns the foreground color and every other pixel keeps its value.
pub open spec fn line_painted(
    pre: Seq<u32>,
    post: Seq<u32>,
    ax: int,
    ay: int,
    bx: int,
    by: int,
    t: int,
) -> bool {
    &&& post.len() == pre.len()
    &&& forall|r: int, c: int|
        0 <= r < 600 && 0 <= c < 800 ==> post[#[trigger] pix_idx(r, c)] == (if line_covers(
            ax,
            ay,
            bx,
            by,
            t,
            r,
            c,
        ) {
            GREEN
        } else {
            pre[pix_idx(r, c)]
        })
}

/// Drawing the same line twice leaves the buffer exactly as drawing it
/// once: every covered pixel is already the foreground color, and every
/// other pixel is untouched, so the second pass changes nothing.
pub proof fn lemma_draw_line_idempotent(
    b0: Seq<u32>,
    b1: Seq<u32>,
    b2: Seq<u32>,
    ax: int,
    ay: int,
    bx: int,
    by: int,
    t: int,
)
    requires
        b0.len() == PIXEL_COUNT,
        line_painted(b0, b1, ax, ay, bx, by, t),
        line_painted(b1, b2, ax, ay, bx, by, t),
    ensures
        b2 == b1,
{
    assert forall|i: int| 0 <= i < b1.len() implies b2[i] == b1[i] by {
        let r = i / 800;
        let c = i % 800;
        vstd::arithmetic::div_mod::lemma_fundamental_div_mod(i, 800);
        vstd::arithmetic::div_mod::lemma_mod_bound(i, 800);
        vstd::arithmetic::div_mod::lemma_div_pos_is_pos(i, 800);
        vstd::arithmetic::div_mod::lemma_div_is_ordered(i, 479999, 800);
        assert(i == pix_idx(r, c));
        assert(b2[pix_idx(r, c)] == b1[pix_idx(r, c)]);
    }
    assert(b2 =~= b1);
}

/// The thickness law for one sample: a stamp of thickness `t` whose
/// center has at least `t / 2` pixels of room on every side covers
/// exactly the square of side `2 * (t / 2) + 1` around the center;
/// nearer an edge the covered block is the same square clamped to the
/// buffer, per `rect_covers`.
pub proof fn lemma_stamp_block(cx: int, cy: int, t: int)
    requires
        1 <= t,
        t / 2 <= cx <= 799 - t / 2,
        t / 2 <= cy <= 599 - t / 2,
    ensures
        forall|r: int, c: int|
            #[trigger] rect_covers(cx, cy, t / 2, r, c) <==> (cy - t / 2 <= r <= cy + t / 2 && cx
                - t / 2 <= c <= cx + t / 2),
        (cx + t / 2) - (cx - t / 2) + 1 == 2 * (t / 2) + 1,
        (cy + t / 2) - (cy - t / 2) + 1 == 2 * (t / 2) + 1,
{
}

/// The pixel buffer: one packed 24-bit color per pixel, row major,
/// exactly width times height entries.
pub struct FrameBuf {
    px: Vec<u32>,
}

impl View for FrameBuf {
    type V = Seq<u32>;

    closed spec fn view(&self) -> Seq<u32> {
        self.px@
    }
}

/// `v` forced into the closed interval `[lo, hi]`.
fn clamp64(v: i64, lo: i64, hi: i64) -> (r: i64)
    requires
        lo <= hi,
    ensures
        r == clamp_s(v as int, lo as int, hi as int),
        lo <= r <= hi,
{
    if v < lo {
        lo
    } else if v > hi {
        hi
    } else {
        v
    }
}

impl FrameBuf {
    /// The buffer's size invariant: exactly one entry per pixel.
    pub open spec fn wf(self) -> bool {
        self@.len() == PIXEL_COUNT
    }

    /// A fresh buffer, every pixel the background color.
    pub fn new() -> (f: FrameBuf)
        ensures
            f.wf(),
            forall|i: int| 0 <= i < f@.len() ==> f@[i] == BLACK,
    {
        let mut px: Vec<u32> = Vec::new();
        while px.len() < PIXEL_COUNT
            invariant
                px@.len() <= PIXEL_COUNT,
                forall|i: int| 0 <= i < px@.len() ==> px@[i] == BLACK,
            decreases PIXEL_COUNT - px@.len(),
        {
            px.push(BLACK);
        }
        FrameBuf { px }
    }

    /// Reads the pixel in column `x`, row `y`.
    pub fn pixel(&self, x: usize, y: usize) -> (p: u32)
        requires
            self.wf(),
            x < WIDTH,
            y < HEIGHT,
        ensures
            p == self@[pix_idx(y as int, x as int)],
    {
        self.px[y * WIDTH + x]
    }

    /// Borrows the whole buffer, for handing to a display surface.
    pub fn pixels(&self) -> (r: &Vec<u32>)
        ensures
            r@ == self@,
    {
        &self.px
    }

    /// Overwrites every pixel with the background color.
    pub fn clear(&mut self)
        requires
            old(self).wf(),
        ensures
            final(self).wf(),
            forall|i: int| 0 <= i < final(self)@.len() ==> final(self)@[i] == BLACK,
    {
        let mut i: usize = 0;
        while i < PIXEL_COUNT
            invariant
                self.wf(),
                0 <= i <= PIXEL_COUNT,
                forall|j: int| 0 <= j < i ==> self@[j] == BLACK,
            decreases PIXEL_COUNT - i,
        {
            self.px[i] = BLACK;
            i = i + 1;
        }
    }

    /// Stamps one square block of the foreground color: the block of
    /// half-side `half` around the given center, clamped to the buffer.
    fn stamp(&mut self, cx: i64, cy: i64, half: i64)
        requires
            old(self).wf(),
            0 <= half <= 0x1_0000_0000,
            -0x1000_0000_0000_0000 <= cx <= 0x1000_0000_0000_0000,
            -0x1000_0000_0000_0000 <= cy <= 0x1000_0000_0000_0000,
        ensures
            final(self).wf(),
            forall|r: int, c: int|
                0 <= r < 600 && 0 <= c < 800 ==> final(self)@[#[trigger] pix_idx(r, c)] == (
                if rect_covers(cx as int, cy as int, half as int, r, c) {
                    GREEN
                } else {
                    old(self)@[pix_idx(r, c)]
                }),
    {
        let min_x = clamp64(cx - half, 0, 799);
        let max_x = clamp64(cx + half, 0, 799);
        let min_y = clamp64(cy - half, 0, 599);
        let max_y = clamp64(cy + half, 0, 599);
        let x0 = min_x as usize;
        let x1 = max_x as usize;
        let y0 = min_y as usize;
        let y1 = max_y as usize;
        let mut py: usize = y0;
        while py <= y1
            invariant
                self.wf(),
                y0 <= py <= y1 + 1,
                y0 as int == min_y as int && y1 as int == max_y as int,
                x0 as int == min_x as int && x1 as int == max_x as int,
                min_y == clamp_s(cy - half, 0, 599),
                max_y == clamp_s(cy + half, 0, 599),
                min_x == clamp_s(cx - half, 0, 799),
                max_x == clamp_s(cx + half, 0, 799),
                0 <= y0 && y1 < 600 && 0 <= x0 && x1 < 800,
                x0 <= x1 && y0 <= y1,
                forall|r: int, c: int|
                    0 <= r < 600 && 0 <= c < 800 ==> self@[#[trigger] pix_idx(r, c)] == (
                    if y0 <= r < py && x0 <= c <= x1 {
                        GREEN
                    } else {
                        old(self)@[pix_idx(r, c)]
                    }),
            decreases y1 + 1 - py,
        {
            let mut pxc: usize = x0;
            while pxc <= x1
                invariant
                    self.wf(),
                    y0 <= py <= y1,
                    x0 <= pxc <= x1 + 1,
                    0 <= y0 && y1 < 600 && 0 <= x0 && x1 < 800,
                    forall|r: int, c: int|
                        0 <= r < 600 && 0 <= c < 800 ==> self@[#[trigger] pix_idx(r, c)] == (
                        if (y0 <= r < py && x0 <= c <= x1) || (r == py && x0 <= c < pxc) {
                            GREEN
                        } else {
                            old(self)@[pix_idx(r, c)]
                        }),
                decreases x1 + 1 - pxc,
            {
                let idx: usize = py * WIDTH + pxc;
                self.px[idx] = GREEN;
                proof {
                    assert(idx as int == pix_idx(py as int, pxc as int));
                }
                pxc = pxc + 1;
            }
            py = py + 1;
        }
        proof {
            assert forall|r: int, c: int| 0 <= r < 600 && 0 <= c < 800 implies self@[#[trigger] pix_idx(
                r,
                c,
            )] == (if rect_covers(cx as int, cy as int, half as int, r, c) {
                GREEN
            } else {
                old(self)@[pix_idx(r, c)]
            }) by {
                assert(rect_covers(cx as int, cy as int, half as int, r, c) <==> (y0 <= r <= y1
                    && x0 <= c <= x1));
            }
        }
    }

    /// Draws a line of the given thickness from `(ax, ay)` to
    /// `(bx, by)`, both in fixed-point pixel coordinates: the walk takes
    /// `steps + 1` samples and stamps a clamped square block at each.
    /// Coincident endpoints take zero steps and write nothing.
    pub fn draw_line(&mut self, ax: i64, ay: i64, bx: i64, by: i64, thickness: i64)
        requires
            old(self).wf(),
            -0x8000_0000 <= ax <= 0x8000_0000,
            -0x8000_0000 <= ay <= 0x8000_0000,
            -0x8000_0000 <= bx <= 0x8000_0000,
            -0x8000_0000 <= by <= 0x8000_0000,
            1 <= thickness <= 0x1_0000_0000,
        ensures
            final(self).wf(),
            line_painted(
                old(self)@,
                final(self)@,
                ax as int,
                ay as int,
                bx as int,
                by as int,
                thickness as int,
            ),
            ax == bx && ay == by ==> final(self)@ == old(self)@,
    {
        let ghost axi = ax as int;
        let ghost ayi = ay as int;
        let ghost bxi = bx as int;
        let ghost byi = by as int;
        let dx: i64 = bx - ax;
        let dy: i64 = by - ay;
        let adx: i64 = if dx < 0 {
            -dx
        } else {
            dx
        };
        let ady: i64 = if dy < 0 {
            -dy
        } else {
            dy
        };
        let m: i64 = if adx >= ady {
            adx
        } else {
            ady
        };
        let steps: i64 = div_trunc(m, FP);
        proof {
            lemma_div_t_bound(m as int, FP as int, 0x2_0000_0000);
            assert(steps == steps_s(axi, ayi, bxi, byi));
            assert(0x2_0000_0000int / 0x10000 == 0x20000) by {
                vstd::arithmetic::div_mod::lemma_div_multiples_vanish(0x20000, 0x10000);
                assert(0x2_0000_0000int == 0x10000 * 0x20000) by (nonlinear_arith);
            }
        }
        if steps == 0 {
            return;
        }
        let x_inc: i64 = div_trunc(dx, steps);
        let y_inc: i64 = div_trunc(dy, steps);
        let half: i64 = div_trunc(thickness, 2);
        let ghost t = thickness as int;
        let mut x: i64 = ax;
        let mut y: i64 = ay;
        let mut k: i64 = 0;
        proof {
            assert(x_inc == inc_x_s(axi, ayi, bxi, byi));
            assert(y_inc == inc_y_s(axi, ayi, bxi, byi));
            assert(half == t / 2);
        }
        while k <= steps
            invariant
                self.wf(),
                self@.len() == old(self)@.len(),
                -0x8000_0000 <= ax <= 0x8000_0000,
                -0x8000_0000 <= ay <= 0x8000_0000,
                axi == ax as int && ayi == ay as int && bxi == bx as int && byi == by as int,
                1 <= steps <= 0x20000,
                steps == steps_s(axi, ayi, bxi, byi),
                x_inc == inc_x_s(axi, ayi, bxi, byi),
                y_inc == inc_y_s(axi, ayi, bxi, byi),
                -0x1_0000_0000 <= x_inc <= 0x1_0000_0000,
                -0x1_0000_0000 <= y_inc <= 0x1_0000_0000,
                half == t / 2,
                0 <= half <= 0x1_0000_0000,
                0 <= k <= steps + 1,
                x == sample_x_s(axi, ayi, bxi, byi, k as int),
                y == sample_y_s(axi, ayi, bxi, byi, k as int),
                forall|r: int, c: int|
                    0 <= r < 600 && 0 <= c < 800 ==> self@[#[trigger] pix_idx(r, c)] == (
                    if exists|k2: int|
                        0 <= k2 < k && #[trigger] rect_covers(
                            sample_cx_s(axi, ayi, bxi, byi, k2),
                            sample_cy_s(axi, ayi, bxi, byi, k2),
                            t / 2,
                            r,
                            c,
                        ) {
                        GREEN
                    } else {
                        old(self)@[pix_idx(r, c)]
                    }),
            decreases steps + 1 - k,
        {
            proof {
                lemma_mul_abs_bound(k as int, x_inc as int, 0x20000, 0x1_0000_0000);
                lemma_mul_abs_bound(k as int, y_inc as int, 0x20000, 0x1_0000_0000);
                lemma_mul_abs_bound(k as int + 1, x_inc as int, 0x20001, 0x1_0000_0000);
                lemma_mul_abs_bound(k as int + 1, y_inc as int, 0x20001, 0x1_0000_0000);
                assert((k as int + 1) * (x_inc as int) == k as int * (x_inc as int) + x_inc as int)
                    by (nonlinear_arith);
                assert((k as int + 1) * (y_inc as int) == k as int * (y_inc as int) + y_inc as int)
                    by (nonlinear_arith);
            }
            let cx = fx_round(x);
            let cy = fx_round(y);
            let ghost pre = self@;
            self.stamp(cx, cy, half);
            proof {
                assert(cx == sample_cx_s(axi, ayi, bxi, byi, k as int));
                assert(cy == sample_cy_s(axi, ayi, bxi, byi, k as int));
                assert forall|r: int, c: int| 0 <= r < 600 && 0 <= c < 800 implies self@[#[trigger] pix_idx(
                    r,
                    c,
                )] == (if exists|k2: int|
                    0 <= k2 < k + 1 && #[trigger] rect_covers(
                        sample_cx_s(axi, ayi, bxi, byi, k2),
                        sample_cy_s(axi, ayi, bxi, byi, k2),
                        t / 2,
                        r,
                        c,
                    ) {
                    GREEN
                } else {
                    old(self)@[pix_idx(r, c)]
                }) by {
                    if rect_covers(
                        sample_cx_s(axi, ayi, bxi, byi, k as int),
                        sample_cy_s(axi, ayi, bxi, byi, k as int),
                        t / 2,
                        r,
                        c,
                    ) {
                        assert(exists|k2: int|
                            0 <= k2 < k + 1 && #[trigger] rect_covers(
                                sample_cx_s(axi, ayi, bxi, byi, k2),
                                sample_cy_s(axi, ayi, bxi, byi, k2),
                                t / 2,
                                r,
                                c,
                            ));
                    }
                }
            }
            x = x + x_inc;
            y = y + y_inc;
            k = k + 1;
        }
        proof {
            assert forall|r: int, c: int| 0 <= r < 600 && 0 <= c < 800 implies self@[#[trigger] pix_idx(
                r,
                c,
            )] == (if line_covers(axi, ayi, bxi, byi, t, r, c) {
                GREEN
            } else {
                old(self)@[pix_idx(r, c)]
            }) by {
                if line_covers(axi, ayi, bxi, byi, t, r, c) {
                    let k2 = choose|k2: int|
                        0 <= k2 <= steps_s(axi, ayi, bxi, byi) && #[trigger] rect_covers(
                            sample_cx_s(axi, ayi, bxi, byi, k2),
                            sample_cy_s(axi, ayi, bxi, byi, k2),
                            t / 2,
                            r,
                            c,
                        );
                    assert(0 <= k2 < k);
                }
            }
        }
    }
}

} // verus!
