//! Per-frame layout bookkeeping for an immediate-mode GUI runtime.
//!
//! For a single rendering frame this crate tracks which part of the screen is
//! still available to new widgets, how much of it dock-style panels have
//! claimed, transient tooltip state, pending scroll requests, and the
//! widget-highlight flags that carry over from one frame to the next.

pub mod access;
pub mod geom;
pub mod laws;
pub mod state;

pub use access::AccessKitFrameState;
pub use geom::{Pos2, Rect, Vec2};
pub use state::{
    Align, FrameState, InputSnapshot, LayoutError, ScrollTarget, TooltipFrameState,
};
