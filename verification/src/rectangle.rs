use vstd::prelude::*;

use crate::vec2::Vec2;

verus! {

/// Normalize two arbitrary corners into the `min`/`max` pair of an
/// axis-aligned box, given the outcome of comparing them on each axis:
/// `a_x_below` says `a`'s first coordinate compares below `b`'s, and
/// `a_y_below` the same for the second. Each axis is sorted on its own, so
/// the resulting corners need not be the inputs.
pub fn ordered_corners(corner_a: Vec2, corner_b: Vec2, a_x_below: bool, a_y_below: bool) -> (r: (
    Vec2,
    Vec2,
))
    ensures
        r.0.x == if a_x_below { corner_a.x } else { corner_b.x },
        r.1.x == if a_x_below { corner_b.x } else { corner_a.x },
        r.0.y == if a_y_below { corner_a.y } else { corner_b.y },
        r.1.y == if a_y_below { corner_b.y } else { corner_a.y },
{
    let (min_x, max_x) = if a_x_below {
        (corner_a.x, corner_b.x)
    } else {
        (corner_b.x, corner_a.x)
    };
    let (min_y, max_y) = if a_y_below {
        (corner_a.y, corner_b.y)
    } else {
        (corner_b.y, corner_a.y)
    };
    (Vec2 { x: min_x, y: min_y }, Vec2 { x: max_x, y: max_y })
}

/// The inclusive containment verdict of an axis-aligned box: a point is
/// inside exactly when it passes all four bounds tests, each of which
/// admits the bound itself — so a box contains its own corners.
pub fn contains_verdict(
    min_x_le: bool,
    x_le_max: bool,
    min_y_le: bool,
    y_le_max: bool,
) -> (r: bool)
    ensures
        r == (min_x_le && x_le_max && min_y_le && y_le_max),
{
    min_x_le && x_le_max && min_y_le && y_le_max
}

} // verus!
