use wirecube::fx::FP;
use wirecube::geometry::vertex;
use wirecube::pipeline::{render_frame, triangle_visible};
use wirecube::raster::{FrameBuf, BLACK, GREEN};
use wirecube::transform::{mvp_mat, transform_vertex, Mat};
use wirecube::clip::clip_check;

#[test]
fn golden_frame_at_time_zero() {
    // With total time 0 the model matrix is the identity; the corner
    // (-0.5, -0.5, -0.5) must land on pixel (340, 360), derived by hand
    // from the stated camera and projection.
    let mut f = FrameBuf::new();
    render_frame(&mut f, 0, FP);
    assert_eq!(f.pixel(340, 360), GREEN);
    // The opposite corners of the projected silhouette are hit too.
    assert_eq!(f.pixel(460, 240), GREEN);
    assert_eq!(f.pixel(500, 200), GREEN);
    assert_eq!(f.pixel(300, 400), GREEN);
    // Far from the cube the background shows.
    assert_eq!(f.pixel(0, 0), BLACK);
    assert_eq!(f.pixel(799, 599), BLACK);
    assert_eq!(f.pixel(400, 50), BLACK);
}

#[test]
fn all_triangles_visible_at_rest() {
    let m = mvp_mat(0, FP);
    for t in 0..12usize {
        assert!(triangle_visible(&m, t), "triangle {} at rest", t);
    }
}

#[test]
fn one_failing_vertex_discards_the_triangle() {
    // A transform that copies x into w: vertices on the cube's negative
    // x side get w < 0 and fail the clip test, while the positive side
    // passes.  Triangle 0 holds vertices of both kinds, so it is
    // invisible even though two of its vertices pass individually.
    let m = Mat {
        m00: FP, m01: 0, m02: 0, m03: 0,
        m10: 0, m11: FP, m12: 0, m13: 0,
        m20: 0, m21: 0, m22: FP, m23: 0,
        m30: FP, m31: 0, m32: 0, m33: 0,
    };
    let cv0 = transform_vertex(&m, vertex(0));
    let cv1 = transform_vertex(&m, vertex(1));
    assert!(!clip_check(&cv0));
    assert!(clip_check(&cv1));
    assert!(!triangle_visible(&m, 0));
    // Triangle 6 lies entirely on the positive x side and survives.
    assert!(triangle_visible(&m, 6));
}

#[test]
fn rendering_twice_gives_the_same_frame() {
    // The driver clears before drawing, so a frame is a function of the
    // rotation alone.
    let mut a = FrameBuf::new();
    let mut b = FrameBuf::new();
    render_frame(&mut a, 32768, 56756);
    render_frame(&mut b, 32768, 56756);
    assert_eq!(a.pixels(), b.pixels());
    // And rendering a different rotation changes the picture.
    render_frame(&mut b, -32768, 56756);
    assert_ne!(a.pixels(), b.pixels());
}
