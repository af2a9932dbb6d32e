use vstd::prelude::*;

use crate::segments::segment_count;

verus! {

/// Which adjacent segment direction vectors feed the smoothed tangent at a
/// node: the first node takes its outgoing segment alone, the last node its
/// incoming segment alone, and every interior node the miter-style bisector
/// of the two. Fields are segment indices.
#[derive(Clone, Copy, Debug, PartialEq, Eq, Structural)]
pub enum TangentSource {
    Outgoing { segment: usize },
    Bisector { incoming: usize, outgoing: usize },
    Incoming { segment: usize },
}

/// The tangent source of node `node_index` in a polyline of `node_count`
/// nodes. A node with neither an incoming nor an outgoing segment (a
/// polyline of at most one node) has no tangent at all.
pub open spec fn tangent_source_spec(node_index: int, node_count: int) -> Option<TangentSource> {
    if node_count < 2 {
        None
    } else if node_index == 0 {
        Some(TangentSource::Outgoing { segment: 0 })
    } else if node_index < node_count - 1 {
        Some(
            TangentSource::Bisector {
                incoming: (node_index - 1) as usize,
                outgoing: node_index as usize,
            },
        )
    } else {
        Some(TangentSource::Incoming { segment: (node_index - 1) as usize })
    }
}

/// Select the segments whose directions make up the tangent line anchored at
/// node `node_index`. The chosen segment indices always exist: they are
/// below the polyline's segment count.
pub fn tangent_source(node_index: usize, node_count: usize) -> (r: Option<TangentSource>)
    requires
        node_index < node_count,
    ensures
        r == tangent_source_spec(node_index as int, node_count as int),
        r is Some ==> node_count >= 2,
        (match r {
            Some(TangentSource::Outgoing { segment }) => segment < segment_count(node_count as int),
            Some(TangentSource::Bisector { incoming, outgoing }) => incoming
                < segment_count(node_count as int) && outgoing < segment_count(node_count as int),
            Some(TangentSource::Incoming { segment }) => segment < segment_count(node_count as int),
            None => true,
        }),
{
    if node_count < 2 {
        None
    } else if node_index == 0 {
        Some(TangentSource::Outgoing { segment: 0 })
    } else if node_index < node_count - 1 {
        Some(TangentSource::Bisector { incoming: node_index - 1, outgoing: node_index })
    } else {
        Some(TangentSource::Incoming { segment: node_index - 1 })
    }
}

} // verus!
