use vstd::prelude::*;

use crate::vec2::Vec2;

verus! {

/// A location on a polyline while walking it in fixed arc-length
/// increments: parametric offset `t` (a binary32 bit pattern in `[0, 1)`)
/// between node `index_0` and node `index_0 + 1`. The derived position is
/// `pos_0 * (1 - t) + pos_1 * t`.
#[derive(Clone, Copy, Debug, PartialEq, Eq, Structural)]
pub struct Step {
    pub pos_0: Vec2,
    pub index_0: usize,
    pub pos_1: Vec2,
    pub t: u32,
}

/// A step is anchored on a polyline when its node indices exist and its
/// cached endpoint positions are those nodes' positions.
pub open spec fn step_on_nodes(step: Step, nodes: Seq<Vec2>) -> bool {
    &&& step.index_0 + 1 < nodes.len()
    &&& step.pos_0 == nodes[step.index_0 as int]
    &&& step.pos_1 == nodes[step.index_0 + 1]
}

impl Step {
    /// Get the step's index 0.
    pub fn index_0(&self) -> (r: usize)
        ensures
            r == self.index_0,
    {
        self.index_0
    }

    /// Get the step's index 1, the node the step is moving towards.
    pub fn index_1(&self) -> (r: usize)
        requires
            self.index_0 < usize::MAX,
        ensures
            r == self.index_0 + 1,
    {
        self.index_0 + 1
    }

    /// Get the step's pos 0.
    pub fn pos_0(&self) -> (r: Vec2)
        ensures
            r == self.pos_0,
    {
        self.pos_0
    }

    /// Get the step's pos 1.
    pub fn pos_1(&self) -> (r: Vec2)
        ensures
            r == self.pos_1,
    {
        self.pos_1
    }

    /// Get the step's t.
    pub fn t(&self) -> (r: u32)
        ensures
            r == self.t,
    {
        self.t
    }
}

/// The first step of a walk: anchored on the leading segment at `t = 0`.
/// A polyline with fewer than two nodes cannot be walked at all.
pub open spec fn initial_step_spec(nodes: Seq<Vec2>) -> Option<Step> {
    if nodes.len() >= 2 {
        Some(Step { pos_0: nodes[0], index_0: 0usize, pos_1: nodes[1], t: 0u32 })
    } else {
        None
    }
}

/// The step one segment further along the polyline, at `t = 0`; `None` when
/// the next segment would need a node past the end, which exhausts the walk.
pub open spec fn next_segment_step_spec(nodes: Seq<Vec2>, current: Step) -> Option<Step> {
    if current.index_0 + 2 < nodes.len() {
        Some(
            Step {
                pos_0: nodes[current.index_0 + 1],
                index_0: (current.index_0 + 1) as usize,
                pos_1: nodes[current.index_0 + 2],
                t: 0u32,
            },
        )
    } else {
        None
    }
}

/// Produce the first step of a walk over `nodes`, on the segment from node
/// `0` to node `1` at offset `0`.
pub fn initial_step(nodes: &Vec<Vec2>) -> (r: Option<Step>)
    ensures
        r == initial_step_spec(nodes@),
        r matches Some(step) ==> step_on_nodes(step, nodes@) && step.index_0 == 0 && step.t == 0,
        r is None <==> nodes@.len() < 2,
{
    if nodes.len() >= 2 {
        Some(Step { pos_0: nodes[0], index_0: 0, pos_1: nodes[1], t: 0 })
    } else {
        None
    }
}

/// Move a step to the start of the following segment, resetting the
/// parametric offset to `0`. Exhausts (returns `None`) exactly when the
/// following segment's far node does not exist; the walk over a polyline
/// therefore ends at its last segment and never addresses a node out of
/// bounds.
pub fn advance_to_next_segment(nodes: &Vec<Vec2>, current: &Step) -> (r: Option<Step>)
    ensures
        r == next_segment_step_spec(nodes@, *current),
        r matches Some(step) ==> step_on_nodes(step, nodes@) && step.index_0 == current.index_0 + 1
            && step.t == 0,
        r is None <==> current.index_0 + 2 >= nodes@.len(),
{
    let n = nodes.len();
    if n >= 3 && current.index_0 <= n - 3 {
        Some(
            Step {
                pos_0: nodes[current.index_0 + 1],
                index_0: current.index_0 + 1,
                pos_1: nodes[current.index_0 + 2],
                t: 0,
            },
        )
    } else {
        None
    }
}

/// The step a walk sits on after `k` whole-segment advances from the
/// initial step: the composition of `initial_step_spec` with `k`
/// applications of `next_segment_step_spec`.
pub open spec fn advanced_step_spec(nodes: Seq<Vec2>, k: nat) -> Option<Step>
    decreases k,
{
    if k == 0 {
        initial_step_spec(nodes)
    } else {
        match advanced_step_spec(nodes, (k - 1) as nat) {
            Some(step) => next_segment_step_spec(nodes, step),
            None => None,
        }
    }
}

/// A walk visits the segments in order and never past the end: after `k`
/// whole-segment advances the cursor sits at the start of segment `k`,
/// anchored on nodes that exist, and such a step exists exactly while the
/// polyline still has a node beyond segment `k`. Once the walk has
/// exhausted, every further advance is exhausted too.
pub proof fn lemma_walk_visits_segments_in_order(nodes: Seq<Vec2>, k: nat)
    requires
        nodes.len() <= usize::MAX,
    ensures
        (advanced_step_spec(nodes, k) matches Some(step) ==> step.index_0 == k && step.t == 0
            && step_on_nodes(step, nodes)),
        (advanced_step_spec(nodes, k) is Some) <==> k + 2 <= nodes.len(),
    decreases k,
{
    if k > 0 {
        lemma_walk_visits_segments_in_order(nodes, (k - 1) as nat);
    }
}

/// The same step with a new parametric offset: how a walk records progress
/// inside one segment without changing which segment it is on.
pub fn step_with_portion(current: &Step, t: u32) -> (r: Step)
    ensures
        r.index_0 == current.index_0,
        r.pos_0 == current.pos_0,
        r.pos_1 == current.pos_1,
        r.t == t,
{
    Step { t, ..*current }
}

} // verus!
