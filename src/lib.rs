//! Keeps a follower window attached to another on-screen window: an
//! interactive picker selects the target, and a polling tracker keeps the
//! follower's position and minimize state in step with it.
//!
//! Everything here is pure decision logic over plain values. The host
//! application performs the native window queries, hands their results in,
//! and carries out the actions that come back.
mod geometry;
mod anchor;
mod tracker;
mod picker;
pub mod laws;

pub use geometry::{Point, Offset, WindowHandle, offset_of, shift};
pub use anchor::{AnchorState, Link, Model, Shared, set_anchor, clear_anchor, start_window_picker, CANCELLED,
    OWN_WINDOW, TARGET_UNREADABLE};
pub use tracker::{Action, FollowerView, TargetView, Observation, Tracker, tick};
pub use picker::{Candidate, Phase, Picker, PickerInput, PickerStep, is_visible_toplevel};
