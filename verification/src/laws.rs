//! Frame-wide laws of the layout state, stated and proved over the spatial
//! model that the allocation contracts use.

use vstd::prelude::*;
use crate::geom::{rect_contains, rect_wf, Rect};
use crate::state::{
    bottom_panel_aligned, bottom_panel_step, central_panel_step, left_panel_aligned,
    left_panel_step, right_panel_aligned, right_panel_step, top_panel_aligned, top_panel_step,
    SpaceModel,
};

verus! {

/// The edge a directional panel docks to.
#[derive(Clone, Copy, PartialEq, Eq, Structural, Debug)]
pub enum Side {
    Left,
    Right,
    Top,
    Bottom,
}

/// The alignment test the corresponding allocation method applies.
pub open spec fn dir_aligned(s: SpaceModel, side: Side, p: Rect) -> bool {
    match side {
        Side::Left => left_panel_aligned(s, p),
        Side::Right => right_panel_aligned(s, p),
        Side::Top => top_panel_aligned(s, p),
        Side::Bottom => bottom_panel_aligned(s, p),
    }
}

/// The effect the corresponding allocation method has on the spatial state.
pub open spec fn dir_step(s: SpaceModel, side: Side, p: Rect) -> SpaceModel {
    match side {
        Side::Left => left_panel_step(s, p),
        Side::Right => right_panel_step(s, p),
        Side::Top => top_panel_step(s, p),
        Side::Bottom => bottom_panel_step(s, p),
    }
}

/// Apply a sequence of directional allocations, front to back.
pub open spec fn apply_allocs(s: SpaceModel, allocs: Seq<(Side, Rect)>) -> SpaceModel
    decreases allocs.len(),
{
    if allocs.len() == 0 {
        s
    } else {
        apply_allocs(dir_step(s, allocs[0].0, allocs[0].1), allocs.drop_first())
    }
}

/// A directional allocation is exact when the panel's anchored corner equals
/// the corresponding corner of the available rectangle exactly — not merely
/// within the tolerance — the panel has non-negative thickness, and its far
/// edge stays inside the available rectangle.
pub open spec fn dir_exact(s: SpaceModel, side: Side, p: Rect) -> bool {
    s.available is Some && {
        let a = s.available->Some_0;
        match side {
            Side::Left => p.min == a.min && p.min.x <= p.max.x && p.max.x <= a.max.x,
            Side::Right => p.max == a.max && a.min.x <= p.min.x && p.min.x <= p.max.x,
            Side::Top => p.min == a.min && p.min.y <= p.max.y && p.max.y <= a.max.y,
            Side::Bottom => p.max == a.max && a.min.y <= p.min.y && p.min.y <= p.max.y,
        }
    }
}

/// Every allocation of the sequence is exact in the state it finds.
pub open spec fn all_exact(s: SpaceModel, allocs: Seq<(Side, Rect)>) -> bool
    decreases allocs.len(),
{
    allocs.len() == 0 || (dir_exact(s, allocs[0].0, allocs[0].1) && all_exact(
        dir_step(s, allocs[0].0, allocs[0].1),
        allocs.drop_first(),
    ))
}

/// The thickness a panel claims on its edge: its width for a left or right
/// panel, its height for a top or bottom panel.
pub open spec fn thickness(side: Side, p: Rect) -> int {
    match side {
        Side::Left => p.max.x - p.min.x,
        Side::Right => p.max.x - p.min.x,
        Side::Top => p.max.y - p.min.y,
        Side::Bottom => p.max.y - p.min.y,
    }
}

/// The total thickness a sequence of allocations claims on one edge.
pub open spec fn total_thickness(allocs: Seq<(Side, Rect)>, side: Side) -> int
    decreases allocs.len(),
{
    if allocs.len() == 0 {
        0
    } else {
        (if allocs[0].0 == side {
            thickness(side, allocs[0].1)
        } else {
            0
        }) + total_thickness(allocs.drop_first(), side)
    }
}

/// An exactly aligned panel also passes the tolerance check that the
/// allocation methods apply, so it is accepted.
pub proof fn lemma_exact_is_aligned(s: SpaceModel, side: Side, p: Rect)
    requires
        dir_exact(s, side, p),
    ensures
        dir_aligned(s, side, p),
{
}

/// After any sequence of exact directional allocations, the available
/// rectangle equals the starting rectangle shrunk on each edge by the total
/// thickness claimed on that edge; it never gains negative extent, never
/// grows, and the unused rectangle tracks it identically throughout.
pub proof fn lemma_directional_allocations(s: SpaceModel, allocs: Seq<(Side, Rect)>)
    requires
        s.available is Some,
        rect_wf(s.available->Some_0),
        s.unused == s.available,
        all_exact(s, allocs),
    ensures
        ({
            let a0 = s.available->Some_0;
            let res = apply_allocs(s, allocs);
            &&& res.available is Some
            &&& res.unused == res.available
            &&& total_thickness(allocs, Side::Left) >= 0
            &&& total_thickness(allocs, Side::Right) >= 0
            &&& total_thickness(allocs, Side::Top) >= 0
            &&& total_thickness(allocs, Side::Bottom) >= 0
            &&& res.available->Some_0.min.x == a0.min.x + total_thickness(allocs, Side::Left)
            &&& res.available->Some_0.min.y == a0.min.y + total_thickness(allocs, Side::Top)
            &&& res.available->Some_0.max.x == a0.max.x - total_thickness(allocs, Side::Right)
            &&& res.available->Some_0.max.y == a0.max.y - total_thickness(allocs, Side::Bottom)
            &&& rect_wf(res.available->Some_0)
            &&& rect_contains(a0, res.available->Some_0)
        }),
    decreases allocs.len(),
{
    if allocs.len() != 0 {
        let side = allocs[0].0;
        let p = allocs[0].1;
        lemma_directional_allocations(dir_step(s, side, p), allocs.drop_first());
    }
}

/// Directional allocations on two different edges commute as transformers of
/// the spatial state: the final available, unused and claimed rectangles do
/// not depend on the order.
pub proof fn lemma_directional_commute(s: SpaceModel, side1: Side, p1: Rect, side2: Side, p2: Rect)
    requires
        side1 != side2,
    ensures
        dir_step(dir_step(s, side1, p1), side2, p2) == dir_step(dir_step(s, side2, p2), side1, p1),
{
}

/// A left panel followed by a right panel, both of positive width and not
/// overlapping, leaves strictly less available space than either allocation
/// alone.
pub proof fn lemma_left_then_right_strictly_smaller(s: SpaceModel, pl: Rect, pr: Rect)
    requires
        dir_exact(s, Side::Left, pl),
        dir_exact(s, Side::Right, pr),
        pl.min.x < pl.max.x,
        pr.min.x < pr.max.x,
        pl.max.x <= pr.min.x,
    ensures
        ({
            let both = right_panel_step(left_panel_step(s, pl), pr).available->Some_0;
            let left_alone = left_panel_step(s, pl).available->Some_0;
            let right_alone = right_panel_step(s, pr).available->Some_0;
            &&& rect_contains(left_alone, both)
            &&& both.max.x < left_alone.max.x
            &&& rect_contains(right_alone, both)
            &&& right_alone.min.x < both.min.x
        }),
{
}

/// A central panel empties the unused rectangle and leaves the available
/// rectangle alone, whatever was allocated before it.
pub proof fn lemma_central_panel(s: SpaceModel, p: Rect)
    ensures
        central_panel_step(s, p).unused is None,
        central_panel_step(s, p).available == s.available,
{
}

} // verus!
