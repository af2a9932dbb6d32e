use vstd::prelude::*;

use crate::vec2::Vec2;

verus! {

/// Bit pattern of positive infinity in binary32: the initial "no distance
/// seen yet" value of the closest-point scan. Every finite non-negative
/// distance compares below it, and every NaN pattern above it, so a NaN
/// distance never wins the scan.
pub const INFINITY_BITS: u32 = 0x7F80_0000;

/// Bit pattern of `1.0` in binary32: a clamped parametric position equal to
/// this marks a projection that landed exactly on a segment's far node.
pub const ONE_BITS: u32 = 0x3F80_0000;

/// The projection of a query point onto one polyline segment: the projected
/// point, the clamped parametric position `t` along the segment, and the
/// distance from the query to the projected point. `t` and `distance` are
/// binary32 bit patterns; distances of non-negative numbers (and the scan's
/// infinity sentinel) order by unsigned comparison of their patterns.
#[derive(Clone, Copy, Debug, PartialEq, Eq, Structural)]
pub struct SegmentProjection {
    pub point: Vec2,
    pub t: u32,
    pub distance: u32,
}

/// The smallest distance among the first `n` projections, starting from the
/// infinity sentinel.
pub open spec fn selected_min(s: Seq<SegmentProjection>, n: int) -> u32
    decreases n,
{
    if n <= 0 {
        INFINITY_BITS
    } else if s[n - 1].distance < selected_min(s, n - 1) {
        s[n - 1].distance
    } else {
        selected_min(s, n - 1)
    }
}

/// The index the scan of the first `n` projections settles on: the first
/// index attaining the minimum distance, and none at all while nothing has
/// beaten the infinity sentinel. Later projections only take over when
/// strictly closer, so exact ties keep the earlier segment.
pub open spec fn selected_index(s: Seq<SegmentProjection>, n: int) -> Option<int>
    decreases n,
{
    if n <= 0 {
        None
    } else if s[n - 1].distance < selected_min(s, n - 1) {
        Some(n - 1)
    } else {
        selected_index(s, n - 1)
    }
}

proof fn lemma_selected_prefix(s: Seq<SegmentProjection>, n: int)
    requires
        0 <= n <= s.len(),
    ensures
        selected_min(s, n) <= INFINITY_BITS,
        (match selected_index(s, n) {
            Some(i) => 0 <= i < n && s[i].distance == selected_min(s, n) && s[i].distance
                < INFINITY_BITS && (forall|j: int|
                0 <= j < n ==> s[i].distance <= s[j].distance) && (forall|j: int|
                0 <= j < i ==> s[i].distance < s[j].distance),
            None => selected_min(s, n) == INFINITY_BITS && (forall|j: int|
                0 <= j < n ==> s[j].distance >= INFINITY_BITS),
        }),
    decreases n,
{
    if n > 0 {
        lemma_selected_prefix(s, n - 1);
    }
}

/// The scan of the closest-point search returns the first minimum. Whenever
/// it selects a segment, that segment's projection distance is at most the
/// distance of every other segment's projection, every earlier segment is
/// strictly farther (ties break to the lowest segment index), and the
/// distance is below the infinity sentinel; when it selects none, no
/// projection came below the sentinel.
pub proof fn lemma_selected_index_is_first_minimum(s: Seq<SegmentProjection>)
    ensures
        (match selected_index(s, s.len() as int) {
            Some(i) => 0 <= i < s.len() && s[i].distance < INFINITY_BITS && (forall|j: int|
                0 <= j < s.len() ==> s[i].distance <= s[j].distance) && (forall|j: int|
                0 <= j < i ==> s[i].distance < s[j].distance),
            None => forall|j: int| 0 <= j < s.len() ==> s[j].distance >= INFINITY_BITS,
        }),
{
    lemma_selected_prefix(s, s.len() as int);
}

/// The full closest-point answer over the scanned projections: the winning
/// projection, canonicalized so that a projection landing exactly on a
/// segment's far node (`t` equal to `1.0`'s pattern) is addressed as the
/// following segment's start at `t = 0`. When no projection beat the
/// sentinel, the answer falls back to the polyline's first node at segment
/// `0`, `t = 0`.
pub open spec fn canonical_result_spec(s: Seq<SegmentProjection>, first_node_pos: Vec2) -> (
    Vec2,
    usize,
    u32,
) {
    match selected_index(s, s.len() as int) {
        Some(i) => if s[i].t == ONE_BITS {
            (s[i].point, (i + 1) as usize, 0u32)
        } else {
            (s[i].point, i as usize, s[i].t)
        },
        None => (first_node_pos, 0usize, 0u32),
    }
}

/// The closest point on a polyline to a query position, with the winning
/// segment index and the parametric portion on it.
///
/// The caller supplies one projection per segment, in segment-scan order
/// (`projections[k]` belongs to the segment from node `k` to node `k + 1`),
/// together with the node count, the first node's position (the scan's
/// fallback) and the first node's position in the query's coordinate frame
/// (the whole answer when the polyline has a single node). An empty
/// polyline has no closest point; otherwise the answer is the canonical
/// first-minimum projection, its segment index is always a valid node
/// index, and its portion is never exactly `1.0`.
pub fn closest_point_to_pos_with_portion_and_index(
    node_count: usize,
    first_node_pos: Vec2,
    first_node_converted: Vec2,
    projections: &Vec<SegmentProjection>,
) -> (r: Option<(Vec2, usize, u32)>)
    requires
        node_count >= 2 ==> projections@.len() == node_count - 1,
    ensures
        (r is Some) <==> node_count > 0,
        node_count == 1 ==> r == Some((first_node_converted, 0usize, 0u32)),
        node_count >= 2 ==> r == Some(canonical_result_spec(projections@, first_node_pos)),
        r matches Some((p, i, t)) ==> i < node_count && t != ONE_BITS,
{
    if node_count == 0 {
        return None;
    }
    if node_count == 1 {
        return Some((first_node_converted, 0, 0));
    }
    let mut min_distance: u32 = INFINITY_BITS;
    let mut closest_point: Vec2 = first_node_pos;
    let mut closest_point_t: u32 = 0;
    let mut closest_point_i: usize = 0;
    let mut k: usize = 0;
    while k < projections.len()
        invariant
            node_count >= 2,
            projections@.len() == node_count - 1,
            k <= projections@.len(),
            min_distance == selected_min(projections@, k as int),
            (match selected_index(projections@, k as int) {
                Some(i) => 0 <= i < k && closest_point == projections@[i].point && closest_point_t
                    == projections@[i].t && closest_point_i == i && min_distance
                    == projections@[i].distance,
                None => min_distance == INFINITY_BITS && closest_point == first_node_pos
                    && closest_point_t == 0 && closest_point_i == 0,
            }),
        decreases projections@.len() - k,
    {
        let candidate = projections[k];
        if candidate.distance < min_distance {
            min_distance = candidate.distance;
            closest_point = candidate.point;
            closest_point_t = candidate.t;
            closest_point_i = k;
        }
        k = k + 1;
    }
    if closest_point_t == ONE_BITS {
        Some((closest_point, closest_point_i + 1, 0))
    } else {
        Some((closest_point, closest_point_i, closest_point_t))
    }
}

} // verus!

