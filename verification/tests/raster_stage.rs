use wirecube::fx::FP;
use wirecube::raster::{FrameBuf, BLACK, GREEN, HEIGHT, WIDTH};

#[test]
fn fresh_buffer_is_black() {
    let f = FrameBuf::new();
    assert_eq!(f.pixels().len(), WIDTH * HEIGHT);
    assert!(f.pixels().iter().all(|&p| p == BLACK));
}

#[test]
fn degenerate_line_writes_nothing() {
    // Two identical endpoints take zero steps: no pixel changes.
    let mut f = FrameBuf::new();
    f.draw_line(100 * FP, 100 * FP, 100 * FP, 100 * FP, 3);
    assert!(f.pixels().iter().all(|&p| p == BLACK));
}

#[test]
fn drawing_twice_equals_drawing_once() {
    // Opaque overwrite: repeating a line leaves the buffer unchanged.
    let mut f = FrameBuf::new();
    f.draw_line(10 * FP, 20 * FP, 30 * FP, 25 * FP, 3);
    let once: Vec<u32> = f.pixels().clone();
    f.draw_line(10 * FP, 20 * FP, 30 * FP, 25 * FP, 3);
    assert_eq!(&once, f.pixels());
}

#[test]
fn thickness_stamps_square_blocks() {
    // A one-step horizontal line with thickness 5 stamps 5x5 blocks at
    // columns 50 and 51, row 50: block half-side 2 on every side.
    let mut f = FrameBuf::new();
    f.draw_line(50 * FP, 50 * FP, 51 * FP, 50 * FP, 5);
    for r in 48..=52usize {
        for c in 48..=53usize {
            assert_eq!(f.pixel(c, r), GREEN, "inside block at ({}, {})", c, r);
        }
    }
    // One pixel beyond the block on each side stays background.
    for r in 48..=52usize {
        assert_eq!(f.pixel(47, r), BLACK);
        assert_eq!(f.pixel(54, r), BLACK);
    }
    for c in 48..=53usize {
        assert_eq!(f.pixel(c, 47), BLACK);
        assert_eq!(f.pixel(c, 53), BLACK);
    }
}

#[test]
fn blocks_clamp_at_the_buffer_edge() {
    // A line hugging the top-left corner: stamp centers at columns 0,
    // 1, 2 of row 0 with thickness 3 would reach column -1 and row -1,
    // and are clamped to the edge instead of skipped.
    let mut f = FrameBuf::new();
    f.draw_line(0, 0, 2 * FP, 0, 3);
    for r in 0..=1usize {
        for c in 0..=3usize {
            assert_eq!(f.pixel(c, r), GREEN, "clamped block at ({}, {})", c, r);
        }
    }
    assert_eq!(f.pixel(4, 0), BLACK);
    assert_eq!(f.pixel(0, 2), BLACK);
}

#[test]
fn clear_resets_every_pixel() {
    let mut f = FrameBuf::new();
    f.draw_line(10 * FP, 10 * FP, 200 * FP, 150 * FP, 4);
    assert!(f.pixels().iter().any(|&p| p == GREEN));
    f.clear();
    assert!(f.pixels().iter().all(|&p| p == BLACK));
}
