//! Verified kernel of a 2D polyline ("trajectory") geometry library.
//!
//! Coordinates are carried as IEEE 754 binary32 bit patterns (`u32`), which
//! keeps the data model and every structural decision — segment indexing,
//! closest-point selection and canonicalization, the arc-length stepping
//! state machine, tangent-source selection, intersection clipping policy —
//! inside verified code. The surrounding application performs the real
//! arithmetic on the bit patterns and feeds the results back in as plain
//! values.

pub mod closest_point;
pub mod line2;
pub mod rectangle;
pub mod segments;
pub mod step_runner;
pub mod tangent;
pub mod track;
pub mod vec2;
