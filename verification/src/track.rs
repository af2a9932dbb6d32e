use vstd::prelude::*;

verus! {

/// The smaller of two mathematical integers.
pub open spec fn min_int(a: int, b: int) -> int {
    if a <= b {
        a
    } else {
        b
    }
}

/// The segment indices that make up the partial track from node `start` to
/// node `end` of a polyline with `segment_count` segments: the indices in
/// `[start, end)`, clipped to the segments that exist. The caller sums the
/// Euclidean lengths of exactly these segments; `start > end` is an invalid
/// argument and is excluded outright rather than clipped.
pub fn track_segment_indices(start: usize, end: usize, segment_count: usize) -> (r: Vec<usize>)
    requires
        start <= end,
    ensures
        r@.len() == min_int(end as int, segment_count as int) - min_int(
            start as int,
            segment_count as int,
        ),
        forall|k: int| 0 <= k < r@.len() ==> r@[k] == start + k,
{
    let mut indices: Vec<usize> = Vec::new();
    let upper: usize = if end <= segment_count {
        end
    } else {
        segment_count
    };
    if start >= upper {
        return indices;
    }
    let mut i: usize = start;
    while i < upper
        invariant
            start <= i <= upper,
            upper == min_int(end as int, segment_count as int),
            start < upper,
            indices@.len() == i - start,
            forall|k: int| 0 <= k < indices@.len() ==> indices@[k] == start + k,
        decreases upper - i,
    {
        indices.push(i);
        i = i + 1;
    }
    indices
}

} // verus!
