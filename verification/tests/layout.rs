use std::collections::HashMap;

use frame_layout::state::{FrameState, InputSnapshot, LayoutError, ScrollTarget, TooltipFrameState};
use frame_layout::AccessKitFrameState;
use frame_layout::{Pos2, Rect, Vec2};

fn rect(min_x: i64, min_y: i64, max_x: i64, max_y: i64) -> Rect {
    Rect { min: Pos2 { x: min_x, y: min_y }, max: Pos2 { x: max_x, y: max_y } }
}

fn screen() -> Rect {
    // 100 by 80 units, in coordinate steps of a hundredth of a unit.
    rect(0, 0, 10000, 8000)
}

fn snapshot(delta_x: i64, delta_y: i64) -> InputSnapshot {
    InputSnapshot { screen_rect: screen(), scroll_delta: Vec2 { x: delta_x, y: delta_y } }
}

fn begun_state() -> FrameState {
    let mut fs = FrameState::default();
    fs.begin_frame(&snapshot(0, 0));
    fs
}

#[test]
fn default_state_has_no_frame() {
    let fs = FrameState::default();
    assert_eq!(fs.try_available_rect(), None);
    assert_eq!(fs.unused_rect, None);
    assert_eq!(fs.used_by_panels, None);
    assert!(fs.used_ids.is_empty());
    assert!(fs.tooltip_state.is_none());
    assert_eq!(fs.scroll_delta, Vec2 { x: 0, y: 0 });
    assert!(fs.scroll_target_x.is_none());
    assert!(fs.scroll_target_y.is_none());
    assert!(fs.accesskit_state.is_none());
    assert!(fs.highlight_this_frame.is_empty());
    assert!(fs.highlight_next_frame.is_empty());
}

#[test]
fn begin_frame_fills_both_rects_and_empties_panels() {
    let fs = begun_state();
    assert_eq!(fs.available_rect(), screen());
    assert_eq!(fs.try_available_rect(), Some(screen()));
    assert_eq!(fs.unused_rect, Some(screen()));
    assert_eq!(fs.used_by_panels, None);
}

#[test]
fn begin_frame_clears_per_frame_bookkeeping() {
    let mut fs = begun_state();
    fs.used_ids.insert(3, rect(0, 0, 100, 100));
    fs.tooltip_state = Some(TooltipFrameState { common_id: 9, rect: rect(0, 0, 50, 50), count: 2 });
    let mut nodes = HashMap::new();
    nodes.insert(3u64, accesskit::Node::new(accesskit::Role::Button));
    fs.accesskit_state = Some(AccessKitFrameState { nodes, parent_stack: vec![1, 2] });
    fs.begin_frame(&snapshot(0, 0));
    assert!(fs.used_ids.is_empty());
    assert!(fs.tooltip_state.is_none());
    assert!(fs.accesskit_state.is_none());
}

#[test]
fn directional_allocations_shrink_by_each_thickness() {
    let mut fs = begun_state();
    fs.allocate_left_panel(rect(0, 0, 2000, 8000)).unwrap();
    fs.allocate_top_panel(rect(2000, 0, 10000, 1000)).unwrap();
    fs.allocate_right_panel(rect(8500, 1000, 10000, 8000)).unwrap();
    fs.allocate_bottom_panel(rect(2000, 7500, 8500, 8000)).unwrap();
    assert_eq!(fs.available_rect(), rect(2000, 1000, 8500, 7500));
    assert_eq!(fs.unused_rect, Some(rect(2000, 1000, 8500, 7500)));
    assert_eq!(fs.used_by_panels, Some(screen()));
}

#[test]
fn left_then_right_shrinks_more_than_either_alone() {
    let mut left_only = begun_state();
    left_only.allocate_left_panel(rect(0, 0, 2000, 8000)).unwrap();

    let mut right_only = begun_state();
    right_only.allocate_right_panel(rect(8500, 0, 10000, 8000)).unwrap();

    let mut both = begun_state();
    both.allocate_left_panel(rect(0, 0, 2000, 8000)).unwrap();
    both.allocate_right_panel(rect(8500, 0, 10000, 8000)).unwrap();

    let b = both.available_rect();
    let l = left_only.available_rect();
    let r = right_only.available_rect();
    assert_eq!(b, rect(2000, 0, 8500, 8000));
    assert!(b.max.x < l.max.x && b.min.x == l.min.x);
    assert!(b.min.x > r.min.x && b.max.x == r.max.x);
}

#[test]
fn directional_allocations_commute_across_edges() {
    let mut left_right = begun_state();
    left_right.allocate_left_panel(rect(0, 0, 2000, 8000)).unwrap();
    left_right.allocate_right_panel(rect(8500, 0, 10000, 8000)).unwrap();

    let mut right_left = begun_state();
    right_left.allocate_right_panel(rect(8500, 0, 10000, 8000)).unwrap();
    right_left.allocate_left_panel(rect(0, 0, 2000, 8000)).unwrap();

    assert_eq!(left_right.available_rect(), right_left.available_rect());
    assert_eq!(left_right.unused_rect, right_left.unused_rect);
    assert_eq!(left_right.used_by_panels, right_left.used_by_panels);
}

#[test]
fn central_panel_collapses_unused_and_keeps_available() {
    let mut fs = begun_state();
    fs.allocate_left_panel(rect(0, 0, 2000, 8000)).unwrap();
    let before = fs.available_rect();
    fs.allocate_central_panel(rect(2000, 0, 10000, 8000));
    assert_eq!(fs.unused_rect, None);
    assert_eq!(fs.available_rect(), before);
    assert_eq!(fs.used_by_panels, Some(screen()));
}

#[test]
fn central_panel_collapses_unused_with_no_prior_panels() {
    let mut fs = begun_state();
    fs.allocate_central_panel(rect(0, 0, 10000, 8000));
    assert_eq!(fs.unused_rect, None);
    assert_eq!(fs.available_rect(), screen());
}

#[test]
fn panel_mismatch_within_tolerance_passes_and_outside_fails() {
    // The tolerance is a tenth of a unit: 10 coordinate steps. An offset of
    // 9 steps (0.09 units) is accepted, one of 11 steps (0.11 units) is not.
    let mut fs = begun_state();
    assert_eq!(fs.allocate_left_panel(rect(9, 0, 2000, 8000)), Ok(()));

    let mut fs = begun_state();
    assert_eq!(
        fs.allocate_left_panel(rect(11, 0, 2000, 8000)),
        Err(LayoutError::PanelMismatch)
    );

    // The check is strict: a distance of exactly one tolerance fails.
    let mut fs = begun_state();
    assert_eq!(
        fs.allocate_left_panel(rect(10, 0, 2000, 8000)),
        Err(LayoutError::PanelMismatch)
    );

    // Both coordinates of the anchored corner count: 8 steps off on each
    // axis is a squared distance of 128, past the squared tolerance of 100.
    let mut fs = begun_state();
    assert_eq!(
        fs.allocate_left_panel(rect(8, 8, 2000, 8000)),
        Err(LayoutError::PanelMismatch)
    );

    let mut fs = begun_state();
    assert_eq!(fs.allocate_right_panel(rect(8500, 9, 10000, 8009)), Ok(()));
    let mut fs = begun_state();
    assert_eq!(
        fs.allocate_right_panel(rect(8500, 0, 10000, 8011)),
        Err(LayoutError::PanelMismatch)
    );

    let mut fs = begun_state();
    assert_eq!(fs.allocate_top_panel(rect(0, 9, 10000, 1000)), Ok(()));
    let mut fs = begun_state();
    assert_eq!(
        fs.allocate_top_panel(rect(0, 11, 10000, 1000)),
        Err(LayoutError::PanelMismatch)
    );

    let mut fs = begun_state();
    assert_eq!(fs.allocate_bottom_panel(rect(0, 7500, 9991, 8000)), Ok(()));
    let mut fs = begun_state();
    assert_eq!(
        fs.allocate_bottom_panel(rect(0, 7500, 9989, 7989)),
        Err(LayoutError::PanelMismatch)
    );
}

#[test]
fn mismatched_panel_leaves_state_untouched() {
    let mut fs = begun_state();
    fs.allocate_left_panel(rect(0, 0, 2000, 8000)).unwrap();
    let available = fs.available_rect();
    let unused = fs.unused_rect;
    let panels = fs.used_by_panels;
    // A second "outermost" left panel no longer lines up.
    assert_eq!(
        fs.allocate_left_panel(rect(0, 0, 1000, 8000)),
        Err(LayoutError::PanelMismatch)
    );
    assert_eq!(fs.available_rect(), available);
    assert_eq!(fs.unused_rect, unused);
    assert_eq!(fs.used_by_panels, panels);
}

#[test]
fn allocation_before_any_frame_is_a_mismatch() {
    let mut fs = FrameState::default();
    assert_eq!(
        fs.allocate_left_panel(rect(0, 0, 2000, 8000)),
        Err(LayoutError::PanelMismatch)
    );
    assert_eq!(
        fs.allocate_bottom_panel(rect(0, 7500, 10000, 8000)),
        Err(LayoutError::PanelMismatch)
    );
}

#[test]
fn highlight_requests_carry_to_the_next_frame_and_are_not_cleared() {
    let mut fs = begun_state();
    fs.request_highlight(7);
    fs.request_highlight(42);
    assert!(fs.highlight_this_frame.is_empty());

    fs.begin_frame(&snapshot(0, 0));
    assert_eq!(fs.highlight_this_frame, vec![7, 42]);
    assert_eq!(fs.highlight_next_frame, vec![7, 42]);

    // Without explicit removal the requests accumulate across frames.
    fs.request_highlight(99);
    fs.begin_frame(&snapshot(0, 0));
    assert_eq!(fs.highlight_this_frame, vec![7, 42, 99]);
    assert_eq!(fs.highlight_next_frame, vec![7, 42, 99]);
}

#[test]
fn scroll_state_is_reset_at_frame_start() {
    let mut fs = begun_state();
    fs.scroll_target_x = Some(ScrollTarget { range_min: 100, range_max: 200, align: None });
    fs.scroll_target_y = Some(ScrollTarget { range_min: 0, range_max: 50, align: None });
    fs.scroll_delta = Vec2 { x: 33, y: -44 };
    fs.begin_frame(&snapshot(0, 0));
    assert!(fs.scroll_target_x.is_none());
    assert!(fs.scroll_target_y.is_none());
    assert_eq!(fs.scroll_delta, Vec2 { x: 0, y: 0 });
}

#[test]
fn scroll_delta_is_carried_in_from_the_snapshot() {
    let mut fs = begun_state();
    fs.begin_frame(&snapshot(5, -7));
    assert_eq!(fs.scroll_delta, Vec2 { x: 5, y: -7 });
}

#[test]
fn rect_union_is_the_bounding_box() {
    let a = rect(0, 0, 100, 100);
    let b = rect(50, -20, 300, 80);
    assert_eq!(a.union(b), rect(0, -20, 300, 100));
    assert_eq!(b.union(a), rect(0, -20, 300, 100));
}

#[test]
fn close_to_is_a_strict_euclidean_disc() {
    let origin = Pos2 { x: 0, y: 0 };
    assert!(origin.close_to(Pos2 { x: 9, y: 0 }));
    assert!(!origin.close_to(Pos2 { x: 11, y: 0 }));
    assert!(!origin.close_to(Pos2 { x: 10, y: 0 }));
    assert!(origin.close_to(Pos2 { x: 7, y: 7 }));
    assert!(!origin.close_to(Pos2 { x: 8, y: 8 }));
    assert!(origin.close_to(Pos2 { x: -9, y: 0 }));
}
