use wirecube::clip::{clip_check, Clip4};
use wirecube::fx::FP;

fn pt(x: i64, y: i64, z: i64, w: i64) -> Clip4 {
    Clip4 { x, y, z, w }
}

#[test]
fn rejects_nonpositive_w() {
    assert!(!clip_check(&pt(0, 0, 0, 0)));
    assert!(!clip_check(&pt(0, 0, 0, -5)));
    assert!(!clip_check(&pt(100, 100, 100, -100)));
}

#[test]
fn rejects_each_axis_independently() {
    let w = FP;
    assert!(!clip_check(&pt(FP + 1, 0, 0, w)));
    assert!(!clip_check(&pt(-(FP + 1), 0, 0, w)));
    assert!(!clip_check(&pt(0, FP + 1, 0, w)));
    assert!(!clip_check(&pt(0, -(FP + 1), 0, w)));
    assert!(!clip_check(&pt(0, 0, FP + 1, w)));
    assert!(!clip_check(&pt(0, 0, -(FP + 1), w)));
}

#[test]
fn accepts_points_within_all_bounds() {
    assert!(clip_check(&pt(0, 0, 0, 1)));
    assert!(clip_check(&pt(FP, FP, FP, FP)));
    assert!(clip_check(&pt(-FP, -FP, -FP, FP)));
    assert!(clip_check(&pt(100, -200, 300, 400)));
}
