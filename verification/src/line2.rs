use vstd::prelude::*;

verus! {

/// The extent of a directed line along its `start -> end` direction:
/// a full line (unbounded both ways), a ray (parametric position `>= 0`),
/// or a bounded segment (parametric position in `[0, 1]`).
#[derive(Clone, Copy, Debug, PartialEq, Eq, Structural)]
pub enum LineType {
    Line,
    Ray,
    LineSegment,
}

/// Whether a parametric position is inside the extent of a line of the given
/// kind, given the two comparisons against the extent's bounds.
pub open spec fn position_valid_spec(line_type: LineType, non_negative: bool, at_most_one: bool) -> bool {
    match line_type {
        LineType::Line => true,
        LineType::Ray => non_negative,
        LineType::LineSegment => non_negative && at_most_one,
    }
}

/// Clip a parametric position against a line's extent. `non_negative` and
/// `at_most_one` are the outcomes of comparing the position against `0` and
/// `1`; a full line accepts every position, a ray demands `position >= 0`,
/// a segment demands `position` in `[0, 1]`.
pub fn parametric_position_valid(line_type: LineType, non_negative: bool, at_most_one: bool) -> (r: bool)
    ensures
        r == position_valid_spec(line_type, non_negative, at_most_one),
{
    match line_type {
        LineType::Line => true,
        LineType::Ray => non_negative,
        LineType::LineSegment => non_negative && at_most_one,
    }
}

/// The intersection verdict for a pair of lines: a hit is reported exactly
/// when the lines are not (near-)parallel and the common point's parametric
/// position lies inside both lines' extents. In particular, lines judged
/// parallel never report an intersection.
pub fn intersection_reported(parallel: bool, valid_on_self: bool, valid_on_other: bool) -> (r: bool)
    ensures
        r == (!parallel && valid_on_self && valid_on_other),
        parallel ==> !r,
{
    !parallel && valid_on_self && valid_on_other
}

} // verus!
