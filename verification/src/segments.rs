use vstd::prelude::*;

verus! {

/// Number of consecutive-node segments of a polyline with `node_count`
/// nodes: one per adjacent node pair, none for an empty or single-node
/// polyline.
pub open spec fn segment_count(node_count: int) -> int {
    if node_count <= 1 {
        0
    } else {
        node_count - 1
    }
}

/// Forward-only cursor over the consecutive-node segments of a polyline,
/// yielding the node index pair `(i, i + 1)` of each segment in order.
#[derive(Clone, Copy, Debug, PartialEq, Eq, Structural)]
pub struct LineSegmentIter {
    pub segment_id: usize,
}

impl LineSegmentIter {
    pub fn new() -> (r: LineSegmentIter)
        ensures
            r.segment_id == 0,
    {
        LineSegmentIter { segment_id: 0 }
    }

    /// Advance the cursor by one segment of a polyline with `node_count`
    /// nodes. Yields the node index pair of the current segment while both
    /// endpoints exist, and nothing from then on; the cursor moves forward
    /// either way.
    pub fn next(&mut self, node_count: usize) -> (r: Option<(usize, usize)>)
        requires
            old(self).segment_id < usize::MAX,
        ensures
            final(self).segment_id == old(self).segment_id + 1,
            old(self).segment_id + 1 < node_count
                ==> r == Some((old(self).segment_id, (old(self).segment_id + 1) as usize)),
            old(self).segment_id + 1 >= node_count ==> r is None,
    {
        let id = self.segment_id;
        self.segment_id = id + 1;
        if id < node_count && id + 1 < node_count {
            Some((id, id + 1))
        } else {
            None
        }
    }
}

/// The node index pairs of every segment of a polyline with `node_count`
/// nodes, in scan order: `(0, 1), (1, 2), ...`. This is the order in which
/// all per-segment queries (closest point, intersections, lengths) visit
/// the polyline.
pub fn segment_index_pairs(node_count: usize) -> (r: Vec<(usize, usize)>)
    ensures
        r@.len() == segment_count(node_count as int),
        forall|k: int| 0 <= k < r@.len() ==> r@[k] == (k as usize, (k + 1) as usize),
{
    let mut pairs: Vec<(usize, usize)> = Vec::new();
    if node_count <= 1 {
        return pairs;
    }
    let mut i: usize = 0;
    while i + 1 < node_count
        invariant
            node_count >= 2,
            i < node_count,
            pairs@.len() == i,
            forall|k: int| 0 <= k < i ==> pairs@[k] == (k as usize, (k + 1) as usize),
        decreases node_count - i,
    {
        pairs.push((i, i + 1));
        i = i + 1;
    }
    pairs
}

} // verus!
