//! Tests of the per-frame pipeline, the lattice and the animation angle.

use lattice_render::frame::{
    lattice_coord, render_frame, transform_point, Angle, PixelRect, LATTICE_POINTS,
};
use lattice_render::rat::Rat;

fn rat(num: i128, den: i128) -> Rat {
    Rat::new(num, den)
}

#[test]
fn lattice_spans_minus_one_to_one() {
    let first = lattice_coord(0);
    assert_eq!((first.num, first.den), (-7, 7));
    let mid = lattice_coord(7);
    assert_eq!((mid.num, mid.den), (0, 7));
    let last = lattice_coord(14);
    assert_eq!((last.num, last.den), (7, 7));
}

#[test]
fn end_to_end_corner_point() {
    // Lattice point (-1, -1, -1) at theta = 0 on a 1200 x 800 canvas:
    // rotate -> (0, -1, 0), translate -> (0, -1, 3),
    // project with r = 800/1200 -> (0, -1/3),
    // to_screen -> (600, 800/3), corner -> (599, 265), size 2 x 2.
    let zero = rat(0, 1);
    let r = transform_point(0, 0, 0, &zero, &zero, &zero, 1200, 800);
    assert_eq!(r, Some(PixelRect { x: 599, y: 265, w: 2, h: 2 }));
}

#[test]
fn end_to_end_center_point() {
    // The lattice center (0, 0, 0) lands on the canvas center; the
    // square corner is one pixel up and left of (600, 400).
    let zero = rat(0, 1);
    let r = transform_point(7, 7, 7, &zero, &zero, &zero, 1200, 800);
    assert_eq!(r, Some(PixelRect { x: 599, y: 399, w: 2, h: 2 }));
}

#[test]
fn depth_zero_point_is_not_drawn() {
    // With theta = 1 (floor 1) and tan value 3, the point at indices
    // (0, ., 14) has rotated depth -3; translation brings it to exactly
    // 0, where the perspective divide has no value.
    let th = rat(1, 1);
    let s = rat(841, 1000);
    let t = rat(3, 1);
    let r = transform_point(0, 3, 14, &th, &s, &t, 1200, 800);
    assert_eq!(r, None);
    // A neighboring depth index projects fine.
    let r = transform_point(0, 3, 13, &th, &s, &t, 1200, 800);
    assert!(r.is_some());
}

#[test]
fn frame_covers_whole_lattice_in_order() {
    let zero = rat(0, 1);
    let out = render_frame(&zero, &zero, &zero, 1200, 800);
    assert_eq!(out.len(), LATTICE_POINTS as usize);
    // Entry 0 is lattice indices (0, 0, 0), entry 1687 is (7, 7, 7).
    assert_eq!(out[0], Some(PixelRect { x: 599, y: 265, w: 2, h: 2 }));
    assert_eq!(out[1687], Some(PixelRect { x: 599, y: 399, w: 2, h: 2 }));
    // At theta = 0 every depth is exactly 3: every point is drawn.
    assert!(out.iter().all(|c| c.is_some()));
}

#[test]
fn frame_follows_canvas_size() {
    // On a square canvas the aspect ratio is 1; the center point's
    // square sits at the center of the 500 x 500 canvas.
    let zero = rat(0, 1);
    let out = render_frame(&zero, &zero, &zero, 500, 500);
    assert_eq!(out[1687], Some(PixelRect { x: 249, y: 249, w: 2, h: 2 }));
}

#[test]
fn angle_starts_at_zero_and_advances_by_step() {
    let mut a = Angle::new();
    assert_eq!(a.steps, 0);
    a.advance();
    a.advance();
    a.advance();
    assert_eq!(a.steps, 3);
    let th = a.to_rat();
    // After three frames the angle is exactly 3/200 = 0.015.
    assert_eq!((th.num, th.den), (3, 200));
}

#[test]
fn angle_cap_detects_large_counts() {
    let a = Angle::new();
    assert!(a.within_cap());
    let big = Angle { steps: 1 << 40 };
    assert!(!big.within_cap());
}
