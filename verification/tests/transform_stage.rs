use wirecube::clip::clip_check;
use wirecube::fx::{fx_round, FP};
use wirecube::geometry::vertex;
use wirecube::project::project_vertex;
use wirecube::transform::{mvp_mat, transform_vertex, Mat};

#[test]
fn combined_transform_at_rest_matches_hand_computation() {
    // sine 0, cosine 1: the model matrix is the identity, so the
    // combined transform is projection * view.
    let m: Mat = mvp_mat(0, FP);
    assert_eq!(m.m00, 49152);
    assert_eq!(m.m01, 0);
    assert_eq!(m.m02, 0);
    assert_eq!(m.m03, 0);
    assert_eq!(m.m10, 0);
    assert_eq!(m.m11, 65536);
    assert_eq!(m.m12, 0);
    assert_eq!(m.m13, 0);
    assert_eq!(m.m20, 0);
    assert_eq!(m.m21, 0);
    assert_eq!(m.m22, -65601);
    assert_eq!(m.m23, 124642);
    assert_eq!(m.m30, 0);
    assert_eq!(m.m31, 0);
    assert_eq!(m.m32, -65536);
    assert_eq!(m.m33, 131072);
}

#[test]
fn all_eight_vertices_at_rest_hit_known_pixels() {
    // With no rotation and the fixed camera, each cube vertex lands on
    // a hand-computed pixel.
    let expected: [(i64, i64); 8] = [
        (340, 360),
        (460, 360),
        (460, 240),
        (340, 240),
        (300, 400),
        (500, 400),
        (500, 200),
        (300, 200),
    ];
    let m = mvp_mat(0, FP);
    for i in 0..8usize {
        let cv = transform_vertex(&m, vertex(i));
        assert!(clip_check(&cv), "vertex {} should be visible at rest", i);
        let p = project_vertex(&cv);
        assert_eq!(fx_round(p.x), expected[i].0, "x of vertex {}", i);
        assert_eq!(fx_round(p.y), expected[i].1, "y of vertex {}", i);
    }
}

#[test]
fn clip_space_values_of_front_corner() {
    // The corner (-0.5, -0.5, -0.5): the view puts it 2.5 in front of
    // the camera, so w is 2.5 in fixed point.
    let m = mvp_mat(0, FP);
    let cv = transform_vertex(&m, vertex(0));
    assert_eq!(cv.x, -24576);
    assert_eq!(cv.y, -32768);
    assert_eq!(cv.z, 157442);
    assert_eq!(cv.w, 163840);
}
