//! The per-frame layout state and its mutators.

use vstd::prelude::*;
use std::collections::HashMap;
use crate::geom::{points_close, rect_union, Pos2, Rect, Vec2};
use crate::access::AccessKitFrameState;

verus! {

/// The state of the currently active tooltip group: the identifier shared by
/// the widgets of the group, the rectangle the tooltip occupies, and how many
/// tooltips the group has shown so far.
#[derive(Clone, Copy, Debug)]
pub struct TooltipFrameState {
    pub common_id: u64,
    pub rect: Rect,
    pub count: usize,
}

/// Which way a range should be aligned inside the viewport once scrolled to.
#[derive(Clone, Copy, PartialEq, Eq, Structural, Debug)]
pub enum Align {
    Min,
    Center,
    Max,
}

/// A request to scroll so that the coordinate range `[range_min, range_max]`
/// along one axis becomes visible, optionally aligned.
#[derive(Clone, Copy, PartialEq, Eq, Structural, Debug)]
pub struct ScrollTarget {
    pub range_min: i64,
    pub range_max: i64,
    pub align: Option<Align>,
}

/// What the input system hands the layout state at the start of a frame:
/// the full screen rectangle and the scroll delta gathered since the
/// previous frame.
#[derive(Clone, Copy, Debug)]
pub struct InputSnapshot {
    pub screen_rect: Rect,
    pub scroll_delta: Vec2,
}

/// Returned when a directional panel's anchored corner does not coincide,
/// within the edge tolerance, with the corresponding corner of the current
/// available rectangle — or when no frame has begun, so there is no
/// available rectangle to coincide with.
#[derive(Clone, Copy, PartialEq, Eq, Structural, Debug)]
pub enum LayoutError {
    PanelMismatch,
}

/// The spatial bookkeeping of one frame, as the contracts see it.
///
/// `available` is `None` until a frame begins. For `unused`, `None` is the
/// collapsed (empty) rectangle left behind by a central panel; for `panels`,
/// `None` is the union of no panel rectangles at all.
pub ghost struct SpaceModel {
    pub available: Option<Rect>,
    pub unused: Option<Rect>,
    pub panels: Option<Rect>,
}

/// The spatial state right after a frame begins on the given screen
/// rectangle: everything available, nothing yet claimed.
pub open spec fn fresh_space(screen: Rect) -> SpaceModel {
    SpaceModel { available: Some(screen), unused: Some(screen), panels: None }
}

/// The union of the panel rectangles so far, grown by one more.
pub open spec fn add_panel(panels: Option<Rect>, p: Rect) -> Option<Rect> {
    match panels {
        None => Some(p),
        Some(q) => Some(rect_union(q, p)),
    }
}

/// Move the left edge of the rectangle, if there is one, to `x`.
pub open spec fn with_min_x(o: Option<Rect>, x: i64) -> Option<Rect> {
    match o {
        None => None,
        Some(r) => Some(Rect { min: Pos2 { x, y: r.min.y }, max: r.max }),
    }
}

/// Move the right edge of the rectangle, if there is one, to `x`.
pub open spec fn with_max_x(o: Option<Rect>, x: i64) -> Option<Rect> {
    match o {
        None => None,
        Some(r) => Some(Rect { min: r.min, max: Pos2 { x, y: r.max.y } }),
    }
}

/// Move the top edge of the rectangle, if there is one, to `y`.
pub open spec fn with_min_y(o: Option<Rect>, y: i64) -> Option<Rect> {
    match o {
        None => None,
        Some(r) => Some(Rect { min: Pos2 { x: r.min.x, y }, max: r.max }),
    }
}

/// Move the bottom edge of the rectangle, if there is one, to `y`.
pub open spec fn with_max_y(o: Option<Rect>, y: i64) -> Option<Rect> {
    match o {
        None => None,
        Some(r) => Some(Rect { min: r.min, max: Pos2 { x: r.max.x, y } }),
    }
}

/// A left panel lines up: its top-left corner coincides, within tolerance,
/// with the top-left corner of the available rectangle.
pub open spec fn left_panel_aligned(s: SpaceModel, p: Rect) -> bool {
    s.available is Some && points_close(p.min, s.available->Some_0.min)
}

/// A right panel lines up: its bottom-right corner coincides, within
/// tolerance, with the bottom-right corner of the available rectangle.
pub open spec fn right_panel_aligned(s: SpaceModel, p: Rect) -> bool {
    s.available is Some && points_close(p.max, s.available->Some_0.max)
}

/// A top panel lines up exactly like a left panel: at the top-left corner.
pub open spec fn top_panel_aligned(s: SpaceModel, p: Rect) -> bool {
    s.available is Some && points_close(p.min, s.available->Some_0.min)
}

/// A bottom panel lines up exactly like a right panel: at the bottom-right
/// corner.
pub open spec fn bottom_panel_aligned(s: SpaceModel, p: Rect) -> bool {
    s.available is Some && points_close(p.max, s.available->Some_0.max)
}

/// Effect of a left panel: the left edge of the available and unused
/// rectangles moves inward to the panel's right edge, and the panel joins
/// the union of claimed space.
pub open spec fn left_panel_step(s: SpaceModel, p: Rect) -> SpaceModel {
    SpaceModel {
        available: with_min_x(s.available, p.max.x),
        unused: with_min_x(s.unused, p.max.x),
        panels: add_panel(s.panels, p),
    }
}

/// Effect of a right panel: the right edge moves inward to the panel's left
/// edge.
pub open spec fn right_panel_step(s: SpaceModel, p: Rect) -> SpaceModel {
    SpaceModel {
        available: with_max_x(s.available, p.min.x),
        unused: with_max_x(s.unused, p.min.x),
        panels: add_panel(s.panels, p),
    }
}

/// Effect of a top panel: the top edge moves inward to the panel's bottom
/// edge.
pub open spec fn top_panel_step(s: SpaceModel, p: Rect) -> SpaceModel {
    SpaceModel {
        available: with_min_y(s.available, p.max.y),
        unused: with_min_y(s.unused, p.max.y),
        panels: add_panel(s.panels, p),
    }
}

/// Effect of a bottom panel: the bottom edge moves inward to the panel's top
/// edge.
pub open spec fn bottom_panel_step(s: SpaceModel, p: Rect) -> SpaceModel {
    SpaceModel {
        available: with_max_y(s.available, p.min.y),
        unused: with_max_y(s.unused, p.min.y),
        panels: add_panel(s.panels, p),
    }
}

/// Effect of a central panel: it consumes all remaining unused space, joins
/// the union of claimed space, and leaves the available rectangle alone.
pub open spec fn central_panel_step(s: SpaceModel, p: Rect) -> SpaceModel {
    SpaceModel { available: s.available, unused: None, panels: add_panel(s.panels, p) }
}

/// Layout bookkeeping for one frame of an immediate-mode UI.
///
/// Reset by `begin_frame`, mutated by the panel containers through the
/// five allocation methods, and read by widget-placement code.
pub struct FrameState {
    /// Which rectangle each widget identifier occupies this frame, for
    /// overlap diagnostics. Cleared at every frame start.
    pub used_ids: HashMap<u64, Rect>,
    /// Screen space not yet claimed by any panel; `None` until the first
    /// frame begins. Only shrinks within a frame.
    pub available_rect: Option<Rect>,
    /// Screen space claimed by neither a directional panel nor the central
    /// panel; collapses to `None` once a central panel is allocated.
    pub unused_rect: Option<Rect>,
    /// Union of the rectangles of all panels allocated so far this frame;
    /// `None` while no panel has been allocated.
    pub used_by_panels: Option<Rect>,
    /// The currently active tooltip group, at most one per frame.
    pub tooltip_state: Option<TooltipFrameState>,
    /// Scroll delta carried in verbatim from this frame's input snapshot.
    pub scroll_delta: Vec2,
    /// Pending request to scroll horizontally; last writer wins.
    pub scroll_target_x: Option<ScrollTarget>,
    /// Pending request to scroll vertically; last writer wins.
    pub scroll_target_y: Option<ScrollTarget>,
    /// State of the optional accessibility-tree collaborator.
    pub accesskit_state: Option<AccessKitFrameState>,
    /// Widget identifiers to highlight during this frame, copied at frame
    /// start from the previous frame's `highlight_next_frame`.
    pub highlight_this_frame: Vec<u64>,
    /// Widget identifiers that widget code wants highlighted on the next
    /// frame. Never cleared by `begin_frame`; callers manage it.
    pub highlight_next_frame: Vec<u64>,
}

/// Everything outside the three tracked rectangles is the same in `a` and
/// `b`.
pub open spec fn same_frame_but_space(a: FrameState, b: FrameState) -> bool {
    &&& a.used_ids == b.used_ids
    &&& a.tooltip_state == b.tooltip_state
    &&& a.scroll_delta == b.scroll_delta
    &&& a.scroll_target_x == b.scroll_target_x
    &&& a.scroll_target_y == b.scroll_target_y
    &&& a.accesskit_state == b.accesskit_state
    &&& a.highlight_this_frame == b.highlight_this_frame
    &&& a.highlight_next_frame == b.highlight_next_frame
}

/// Everything outside the next-frame highlight set is the same in `a` and
/// `b`.
pub open spec fn same_frame_but_highlight_next(a: FrameState, b: FrameState) -> bool {
    &&& a.used_ids == b.used_ids
    &&& a.available_rect == b.available_rect
    &&& a.unused_rect == b.unused_rect
    &&& a.used_by_panels == b.used_by_panels
    &&& a.tooltip_state == b.tooltip_state
    &&& a.scroll_delta == b.scroll_delta
    &&& a.scroll_target_x == b.scroll_target_x
    &&& a.scroll_target_y == b.scroll_target_y
    &&& a.accesskit_state == b.accesskit_state
    &&& a.highlight_this_frame == b.highlight_this_frame
}

/// Copy a vector of identifiers element for element.
fn copy_ids(src: &Vec<u64>) -> (r: Vec<u64>)
    ensures
        r@ == src@,
{
    let mut r: Vec<u64> = Vec::new();
    let mut i: usize = 0;
    while i < src.len()
        invariant
            i <= src.len(),
            r@ == src@.subrange(0, i as int),
        decreases src.len() - i,
    {
        r.push(src[i]);
        i += 1;
    }
    proof {
        assert(r@ =~= src@);
    }
    r
}

impl FrameState {
    /// The spatial part of the state, as one value.
    pub open spec fn space(&self) -> SpaceModel {
        SpaceModel {
            available: self.available_rect,
            unused: self.unused_rect,
            panels: self.used_by_panels,
        }
    }

    /// A frame has begun, so the available rectangle may be read.
    pub open spec fn begun(&self) -> bool {
        self.available_rect is Some
    }
}

impl Default for FrameState {
    /// The state before any frame has begun: no rectangle is initialized,
    /// every collection is empty, nothing is pending.
    fn default() -> (s: FrameState)
        ensures
            !s.begun(),
            s.available_rect is None,
            s.unused_rect is None,
            s.used_by_panels is None,
            s.used_ids@ == Map::<u64, Rect>::empty(),
            s.tooltip_state is None,
            s.scroll_delta == (Vec2 { x: 0, y: 0 }),
            s.scroll_target_x is None,
            s.scroll_target_y is None,
            s.accesskit_state is None,
            s.highlight_this_frame@ == Seq::<u64>::empty(),
            s.highlight_next_frame@ == Seq::<u64>::empty(),
    {
        FrameState {
            used_ids: HashMap::new(),
            available_rect: None,
            unused_rect: None,
            used_by_panels: None,
            tooltip_state: None,
            scroll_delta: Vec2 { x: 0, y: 0 },
            scroll_target_x: None,
            scroll_target_y: None,
            accesskit_state: None,
            highlight_this_frame: Vec::new(),
            highlight_next_frame: Vec::new(),
        }
    }
}

impl FrameState {
    /// Start a new frame on the given input snapshot.
    ///
    /// This is the only operation that resets frame state: both rectangles
    /// are set to the screen rectangle, the panel union, tooltip, scroll
    /// targets and accessibility state are cleared, the scroll delta is
    /// carried in from the snapshot, and the this-frame highlight set is
    /// replaced by a verbatim copy of the next-frame set — which itself is
    /// deliberately not cleared.
    pub fn begin_frame(&mut self, input: &InputSnapshot)
        ensures
            final(self).space() == fresh_space(input.screen_rect),
            final(self).begun(),
            final(self).used_ids@ == Map::<u64, Rect>::empty(),
            final(self).tooltip_state is None,
            final(self).scroll_delta == input.scroll_delta,
            final(self).scroll_target_x is None,
            final(self).scroll_target_y is None,
            final(self).accesskit_state is None,
            final(self).highlight_this_frame@ == old(self).highlight_next_frame@,
            final(self).highlight_next_frame@ == old(self).highlight_next_frame@,
    {
        self.used_ids.clear();
        self.available_rect = Some(input.screen_rect);
        self.unused_rect = Some(input.screen_rect);
        self.used_by_panels = None;
        self.tooltip_state = None;
        self.scroll_delta = input.scroll_delta;
        self.scroll_target_x = None;
        self.scroll_target_y = None;
        self.accesskit_state = None;
        self.highlight_this_frame = copy_ids(&self.highlight_next_frame);
    }

    /// The screen space still open to new panels and widgets.
    ///
    /// Reading it before any frame has begun is a usage error, kept out by
    /// the precondition; `try_available_rect` is the checked form.
    pub fn available_rect(&self) -> (r: Rect)
        requires
            self.begun(),
        ensures
            Some(r) == self.available_rect,
    {
        self.available_rect.unwrap()
    }

    /// The available rectangle, or `None` when no frame has begun yet.
    pub fn try_available_rect(&self) -> (r: Option<Rect>)
        ensures
            r == self.available_rect,
            r is Some <==> self.begun(),
    {
        self.available_rect
    }

    /// Claim `panel_rect` for a panel docked to the left edge.
    ///
    /// Succeeds exactly when the panel's top-left corner coincides, within
    /// the edge tolerance, with the top-left corner of the current available
    /// rectangle; a mismatch means panels were allocated out of outside-in
    /// order, and leaves the state untouched.
    pub fn allocate_left_panel(&mut self, panel_rect: Rect) -> (r: Result<(), LayoutError>)
        ensures
            r is Ok <==> left_panel_aligned(old(self).space(), panel_rect),
            r is Ok ==> final(self).space() == left_panel_step(old(self).space(), panel_rect),
            r is Ok ==> same_frame_but_space(*old(self), *final(self)),
            r is Err ==> *final(self) == *old(self) && r == Err::<(), LayoutError>(
                LayoutError::PanelMismatch,
            ),
    {
        match self.available_rect {
            None => Err(LayoutError::PanelMismatch),
            Some(avail) => {
                if panel_rect.min.close_to(avail.min) {
                    self.available_rect = Some(
                        Rect { min: Pos2 { x: panel_rect.max.x, y: avail.min.y }, max: avail.max },
                    );
                    if let Some(u) = self.unused_rect {
                        self.unused_rect = Some(
                            Rect { min: Pos2 { x: panel_rect.max.x, y: u.min.y }, max: u.max },
                        );
                    }
                    self.used_by_panels = Some(
                        match self.used_by_panels {
                            None => panel_rect,
                            Some(q) => q.union(panel_rect),
                        },
                    );
                    Ok(())
                } else {
                    Err(LayoutError::PanelMismatch)
                }
            },
        }
    }

    /// Claim `panel_rect` for a panel docked to the right edge.
    ///
    /// Succeeds exactly when the panel's bottom-right corner coincides,
    /// within the edge tolerance, with the bottom-right corner of the
    /// current available rectangle; a mismatch leaves the state untouched.
    pub fn allocate_right_panel(&mut self, panel_rect: Rect) -> (r: Result<(), LayoutError>)
        ensures
            r is Ok <==> right_panel_aligned(old(self).space(), panel_rect),
            r is Ok ==> final(self).space() == right_panel_step(old(self).space(), panel_rect),
            r is Ok ==> same_frame_but_space(*old(self), *final(self)),
            r is Err ==> *final(self) == *old(self) && r == Err::<(), LayoutError>(
                LayoutError::PanelMismatch,
            ),
    {
        match self.available_rect {
            None => Err(LayoutError::PanelMismatch),
            Some(avail) => {
                if panel_rect.max.close_to(avail.max) {
                    self.available_rect = Some(
                        Rect { min: avail.min, max: Pos2 { x: panel_rect.min.x, y: avail.max.y } },
                    );
                    if let Some(u) = self.unused_rect {
                        self.unused_rect = Some(
                            Rect { min: u.min, max: Pos2 { x: panel_rect.min.x, y: u.max.y } },
                        );
                    }
                    self.used_by_panels = Some(
                        match self.used_by_panels {
                            None => panel_rect,
                            Some(q) => q.union(panel_rect),
                        },
                    );
                    Ok(())
                } else {
                    Err(LayoutError::PanelMismatch)
                }
            },
        }
    }

    /// Claim `panel_rect` for a panel docked to the top edge.
    ///
    /// Succeeds exactly when the panel's top-left corner coincides, within
    /// the edge tolerance, with the top-left corner of the current available
    /// rectangle; a mismatch leaves the state untouched.
    pub fn allocate_top_panel(&mut self, panel_rect: Rect) -> (r: Result<(), LayoutError>)
        ensures
            r is Ok <==> top_panel_aligned(old(self).space(), panel_rect),
            r is Ok ==> final(self).space() == top_panel_step(old(self).space(), panel_rect),
            r is Ok ==> same_frame_but_space(*old(self), *final(self)),
            r is Err ==> *final(self) == *old(self) && r == Err::<(), LayoutError>(
                LayoutError::PanelMismatch,
            ),
    {
        match self.available_rect {
            None => Err(LayoutError::PanelMismatch),
            Some(avail) => {
                if panel_rect.min.close_to(avail.min) {
                    self.available_rect = Some(
                        Rect { min: Pos2 { x: avail.min.x, y: panel_rect.max.y }, max: avail.max },
                    );
                    if let Some(u) = self.unused_rect {
                        self.unused_rect = Some(
                            Rect { min: Pos2 { x: u.min.x, y: panel_rect.max.y }, max: u.max },
                        );
                    }
                    self.used_by_panels = Some(
                        match self.used_by_panels {
                            None => panel_rect,
                            Some(q) => q.union(panel_rect),
                        },
                    );
                    Ok(())
                } else {
                    Err(LayoutError::PanelMismatch)
                }
            },
        }
    }

    /// Claim `panel_rect` for a panel docked to the bottom edge.
    ///
    /// Succeeds exactly when the panel's bottom-right corner coincides,
    /// within the edge tolerance, with the bottom-right corner of the
    /// current available rectangle; a mismatch leaves the state untouched.
    pub fn allocate_bottom_panel(&mut self, panel_rect: Rect) -> (r: Result<(), LayoutError>)
        ensures
            r is Ok <==> bottom_panel_aligned(old(self).space(), panel_rect),
            r is Ok ==> final(self).space() == bottom_panel_step(old(self).space(), panel_rect),
            r is Ok ==> same_frame_but_space(*old(self), *final(self)),
            r is Err ==> *final(self) == *old(self) && r == Err::<(), LayoutError>(
                LayoutError::PanelMismatch,
            ),
    {
        match self.available_rect {
            None => Err(LayoutError::PanelMismatch),
            Some(avail) => {
                if panel_rect.max.close_to(avail.max) {
                    self.available_rect = Some(
                        Rect { min: avail.min, max: Pos2 { x: avail.max.x, y: panel_rect.min.y } },
                    );
                    if let Some(u) = self.unused_rect {
                        self.unused_rect = Some(
                            Rect { min: u.min, max: Pos2 { x: u.max.x, y: panel_rect.min.y } },
                        );
                    }
                    self.used_by_panels = Some(
                        match self.used_by_panels {
                            None => panel_rect,
                            Some(q) => q.union(panel_rect),
                        },
                    );
                    Ok(())
                } else {
                    Err(LayoutError::PanelMismatch)
                }
            },
        }
    }

    /// Claim `panel_rect` for the central panel.
    ///
    /// The central panel by definition consumes all remaining unused space,
    /// so the unused rectangle collapses to empty whatever was allocated
    /// before; the available rectangle is left alone, since the central
    /// panel is the last allocator of a frame.
    pub fn allocate_central_panel(&mut self, panel_rect: Rect)
        ensures
            final(self).space() == central_panel_step(old(self).space(), panel_rect),
            same_frame_but_space(*old(self), *final(self)),
    {
        self.unused_rect = None;
        self.used_by_panels = Some(
            match self.used_by_panels {
                None => panel_rect,
                Some(q) => q.union(panel_rect),
            },
        );
    }

    /// Ask for `id` to be highlighted on the following frame.
    pub fn request_highlight(&mut self, id: u64)
        ensures
            final(self).highlight_next_frame@ == old(self).highlight_next_frame@.push(id),
            same_frame_but_highlight_next(*old(self), *final(self)),
    {
        self.highlight_next_frame.push(id);
    }
}

} // verus!
