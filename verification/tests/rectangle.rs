use trajectory2d::rectangle::{contains_verdict, ordered_corners};
use trajectory2d::vec2::Vec2;

fn bits(p: (f32, f32)) -> Vec2 {
    Vec2 { x: p.0.to_bits(), y: p.1.to_bits() }
}

fn floats(v: Vec2) -> (f32, f32) {
    (f32::from_bits(v.x), f32::from_bits(v.y))
}

struct Rectangle {
    min: (f32, f32),
    max: (f32, f32),
}

/// Axis-aligned box from two arbitrary corners: the floating-point
/// comparisons feed the library's verified corner normalization.
fn rectangle(corner_a: (f32, f32), corner_b: (f32, f32)) -> Rectangle {
    let (min, max) = ordered_corners(
        bits(corner_a),
        bits(corner_b),
        corner_a.0 < corner_b.0,
        corner_a.1 < corner_b.1,
    );
    Rectangle { min: floats(min), max: floats(max) }
}

fn contains(r: &Rectangle, pos: (f32, f32)) -> bool {
    contains_verdict(
        r.min.0 <= pos.0,
        r.max.0 >= pos.0,
        r.min.1 <= pos.1,
        r.max.1 >= pos.1,
    )
}

/// Per-axis gap between two boxes, each axis the maximum of the two signed
/// gaps and zero; the reported distance is the Euclidean length of the gap
/// vector, so overlapping boxes are at distance zero.
fn distance(a: &Rectangle, b: &Rectangle) -> f32 {
    let gap = |lo_minus_hi: f32, other: f32| f32::max(f32::max(lo_minus_hi, other), 0.0);
    let x = gap(b.min.0 - a.max.0, a.min.0 - b.max.0);
    let y = gap(b.min.1 - a.max.1, a.min.1 - b.max.1);
    (x * x + y * y).sqrt()
}

#[test]
fn corners_are_normalized_per_axis() {
    let r = rectangle((4.0, -1.0), (-2.0, 3.0));
    assert_eq!(r.min, (-2.0, -1.0));
    assert_eq!(r.max, (4.0, 3.0));
    // the same box whichever corner comes first
    let swapped = rectangle((-2.0, 3.0), (4.0, -1.0));
    assert_eq!(swapped.min, r.min);
    assert_eq!(swapped.max, r.max);
}

#[test]
fn rectangle_contains_its_own_corners() {
    let r = rectangle((4.0, -1.0), (-2.0, 3.0));
    assert!(contains(&r, r.min));
    assert!(contains(&r, r.max));
    assert!(contains(&r, (0.0, 0.0)));
    assert!(!contains(&r, (5.0, 0.0)));
    assert!(!contains(&r, (0.0, -1.5)));
}

#[test]
fn overlapping_rectangles_are_at_distance_zero() {
    let a = rectangle((0.0, 0.0), (4.0, 4.0));
    let b = rectangle((2.0, 1.0), (6.0, 5.0));
    assert_eq!(distance(&a, &b), 0.0);
    assert_eq!(distance(&b, &a), 0.0);
}

#[test]
fn separated_rectangles_report_the_gap() {
    let a = rectangle((0.0, 0.0), (1.0, 1.0));
    let right = rectangle((4.0, 0.0), (5.0, 1.0));
    assert_eq!(distance(&a, &right), 3.0);
    let diagonal = rectangle((4.0, 5.0), (6.0, 7.0));
    assert_eq!(distance(&a, &diagonal), 5.0);
    let touching = rectangle((1.0, 0.0), (2.0, 1.0));
    assert_eq!(distance(&a, &touching), 0.0);
}
