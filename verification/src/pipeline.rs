//! The frame driver: one whole frame, triangle by triangle.
//!
//! Per frame: clear the buffer, build the combined transform from the
//! model rotation, and for each triangle either skip it (some vertex
//! fails the clip test) or project its three vertices and draw its
//! three edges as thick lines.  Shared edges are deliberately drawn
//! once per owning triangle; overdraw is harmless with opaque strokes.

use crate::clip::{clip_check, clip_ok_s};
use crate::fx::FP;
use crate::geometry::{tri, tri_s, vertex, TRI_COUNT};
use crate::project::{project_vertex, screen_of_clip_s, SScreen};
use crate::raster::{line_covers, pix_idx, FrameBuf, BLACK, GREEN};
use crate::transform::{
    clip_of_vertex_s, mat_in, mvp_mat, mvp_s, transform_vertex, Mat, SMat,
};
use vstd::prelude::*;

verus! {

/// The stroke thickness every edge is drawn with, in pixels.
pub const EDGE_THICKNESS: i64 = 2;

/// Whether triangle `t` is visible under the combined transform `m`:
/// all three of its vertices pass the clip test.
pub open spec fn tri_visible_s(m: SMat, t: int) -> bool {
    &&& clip_ok_s(clip_of_vertex_s(m, tri_s(t).0))
    &&& clip_ok_s(clip_of_vertex_s(m, tri_s(t).1))
    &&& clip_ok_s(clip_of_vertex_s(m, tri_s(t).2))
}

/// A triangle is visible exactly when all three of its vertices pass
/// their individual clip checks, so one failing vertex discards the
/// whole triangle: no partial clipping, no edge splitting.
pub proof fn lemma_triangle_visibility(m: SMat, t: int)
    ensures
        tri_visible_s(m, t) <==> (clip_ok_s(clip_of_vertex_s(m, tri_s(t).0)) && clip_ok_s(
            clip_of_vertex_s(m, tri_s(t).1),
        ) && clip_ok_s(clip_of_vertex_s(m, tri_s(t).2))),
{
}

/// The screen image of vertex `vi` under the combined transform `m`.
pub open spec fn screen_vert_s(m: SMat, vi: int) -> SScreen {
    screen_of_clip_s(clip_of_vertex_s(m, vi))
}

/// Whether the drawn edge from vertex `a` to vertex `b` covers pixel
/// (row `r`, column `c`).
pub open spec fn edge_covers_s(m: SMat, a: int, b: int, r: int, c: int) -> bool {
    line_covers(
        screen_vert_s(m, a).x,
        screen_vert_s(m, a).y,
        screen_vert_s(m, b).x,
        screen_vert_s(m, b).y,
        EDGE_THICKNESS as int,
        r,
        c,
    )
}

/// Whether triangle `t` is visible and one of its three drawn edges
/// covers pixel (row `r`, column `c`).
pub open spec fn tri_covers_s(m: SMat, t: int, r: int, c: int) -> bool {
    &&& tri_visible_s(m, t)
    &&& (edge_covers_s(m, tri_s(t).0, tri_s(t).1, r, c) || edge_covers_s(
        m,
        tri_s(t).1,
        tri_s(t).2,
        r,
        c,
    ) || edge_covers_s(m, tri_s(t).2, tri_s(t).0, r, c))
}

/// Whether any triangle's wireframe covers pixel (row `r`, column `cl`)
/// in the frame drawn for model rotation sine `s` and cosine `c`.
pub open spec fn frame_covers_s(s: int, c: int, r: int, cl: int) -> bool {
    exists|t: int| 0 <= t < 12 && #[trigger] tri_covers_s(mvp_s(s, c), t, r, cl)
}

/// Decides visibility of one triangle under the combined transform:
/// precisely the conjunction of its three vertices' clip checks.
pub fn triangle_visible(m: &Mat, t: usize) -> (r: bool)
    requires
        mat_in(m.s(), 0x40_0000),
        t < TRI_COUNT,
    ensures
        r == tri_visible_s(m.s(), t as int),
{
    let idx = tri(t);
    let cv0 = transform_vertex(m, vertex(idx.0));
    let cv1 = transform_vertex(m, vertex(idx.1));
    let cv2 = transform_vertex(m, vertex(idx.2));
    clip_check(&cv0) && clip_check(&cv1) && clip_check(&cv2)
}

/// Renders one frame for a model rotation whose sine and cosine are
/// `s` and `c` in fixed point: clears the buffer to the background,
/// then draws the wireframe of every visible triangle.  Every pixel is
/// pinned: the foreground color exactly where some visible triangle's
/// edge covers it, the background color everywhere else.
pub fn render_frame(frame: &mut FrameBuf, s: i64, c: i64)
    requires
        old(frame).wf(),
        -FP <= s <= FP,
        -FP <= c <= FP,
    ensures
        final(frame).wf(),
        forall|r: int, cl: int|
            0 <= r < 600 && 0 <= cl < 800 ==> final(frame)@[#[trigger] pix_idx(r, cl)] == (
            if frame_covers_s(s as int, c as int, r, cl) {
                GREEN
            } else {
                BLACK
            }),
{
    frame.clear();
    let mvp = mvp_mat(s, c);
    let ghost ms = mvp.s();
    let mut t: usize = 0;
    while t < 12
        invariant
            frame.wf(),
            mat_in(mvp.s(), 0x40_0000),
            ms == mvp.s(),
            ms == mvp_s(s as int, c as int),
            0 <= t <= 12,
            forall|r: int, cl: int|
                0 <= r < 600 && 0 <= cl < 800 ==> frame@[#[trigger] pix_idx(r, cl)] == (
                if exists|t2: int| 0 <= t2 < t && #[trigger] tri_covers_s(ms, t2, r, cl) {
                    GREEN
                } else {
                    BLACK
                }),
        decreases 12 - t,
    {
        let ghost ti = t as int;
        let idx = tri(t);
        let cv0 = transform_vertex(&mvp, vertex(idx.0));
        let cv1 = transform_vertex(&mvp, vertex(idx.1));
        let cv2 = transform_vertex(&mvp, vertex(idx.2));
        proof {
            assert(cv0.s() == clip_of_vertex_s(ms, tri_s(ti).0));
            assert(cv1.s() == clip_of_vertex_s(ms, tri_s(ti).1));
            assert(cv2.s() == clip_of_vertex_s(ms, tri_s(ti).2));
        }
        let vis = clip_check(&cv0) && clip_check(&cv1) && clip_check(&cv2);
        if vis {
            let p0 = project_vertex(&cv0);
            let p1 = project_vertex(&cv1);
            let p2 = project_vertex(&cv2);
            proof {
                assert(p0.s() == screen_vert_s(ms, tri_s(ti).0));
                assert(p1.s() == screen_vert_s(ms, tri_s(ti).1));
                assert(p2.s() == screen_vert_s(ms, tri_s(ti).2));
            }
            let ghost b0 = frame@;
            frame.draw_line(p0.x, p0.y, p1.x, p1.y, EDGE_THICKNESS);
            let ghost b1 = frame@;
            frame.draw_line(p1.x, p1.y, p2.x, p2.y, EDGE_THICKNESS);
            let ghost b2 = frame@;
            frame.draw_line(p2.x, p2.y, p0.x, p0.y, EDGE_THICKNESS);
            proof {
                assert forall|r: int, cl: int| 0 <= r < 600 && 0 <= cl < 800 implies frame@[#[trigger] pix_idx(
                    r,
                    cl,
                )] == (if exists|t2: int| 0 <= t2 < ti + 1 && #[trigger] tri_covers_s(ms, t2, r, cl) {
                    GREEN
                } else {
                    BLACK
                }) by {
                    let e01 = edge_covers_s(ms, tri_s(ti).0, tri_s(ti).1, r, cl);
                    let e12 = edge_covers_s(ms, tri_s(ti).1, tri_s(ti).2, r, cl);
                    let e20 = edge_covers_s(ms, tri_s(ti).2, tri_s(ti).0, r, cl);
                    assert(frame@[pix_idx(r, cl)] == (if e20 {
                        GREEN
                    } else {
                        b2[pix_idx(r, cl)]
                    }));
                    assert(b2[pix_idx(r, cl)] == (if e12 {
                        GREEN
                    } else {
                        b1[pix_idx(r, cl)]
                    }));
                    assert(b1[pix_idx(r, cl)] == (if e01 {
                        GREEN
                    } else {
                        b0[pix_idx(r, cl)]
                    }));
                    if e01 || e12 || e20 {
                        assert(tri_covers_s(ms, ti, r, cl));
                        assert(exists|t2: int|
                            0 <= t2 < ti + 1 && #[trigger] tri_covers_s(ms, t2, r, cl));
                        assert(frame@[pix_idx(r, cl)] == GREEN);
                    } else {
                        assert(frame@[pix_idx(r, cl)] == b0[pix_idx(r, cl)]);
                        assert((exists|t2: int|
                            0 <= t2 < ti + 1 && #[trigger] tri_covers_s(ms, t2, r, cl)) <==> (
                        exists|t2: int| 0 <= t2 < ti && #[trigger] tri_covers_s(ms, t2, r, cl)))
                            by {
                            if exists|t2: int|
                                0 <= t2 < ti + 1 && #[trigger] tri_covers_s(ms, t2, r, cl) {
                                let t2 = choose|t2: int|
                                    0 <= t2 < ti + 1 && #[trigger] tri_covers_s(ms, t2, r, cl);
                                assert(t2 != ti);
                            }
                        }
                    }
                }
            }
        } else {
            proof {
                assert(!tri_visible_s(ms, ti));
                assert forall|r: int, cl: int| 0 <= r < 600 && 0 <= cl < 800 implies frame@[#[trigger] pix_idx(
                    r,
                    cl,
                )] == (if exists|t2: int| 0 <= t2 < ti + 1 && #[trigger] tri_covers_s(ms, t2, r, cl) {
                    GREEN
                } else {
                    BLACK
                }) by {
                    assert((exists|t2: int|
                        0 <= t2 < ti + 1 && #[trigger] tri_covers_s(ms, t2, r, cl)) <==> (exists|
                        t2: int,
                    | 0 <= t2 < ti && #[trigger] tri_covers_s(ms, t2, r, cl))) by {
                        if exists|t2: int|
                            0 <= t2 < ti + 1 && #[trigger] tri_covers_s(ms, t2, r, cl) {
                            let t2 = choose|t2: int|
                                0 <= t2 < ti + 1 && #[trigger] tri_covers_s(ms, t2, r, cl);
                            assert(t2 != ti);
                        }
                    }
                }
            }
        }
        t = t + 1;
    }
}

} // verus!
