//! Visibility control for a quick-access window: a single window that a
//! global shortcut shows and hides, that hides itself when it loses focus
//! once a protection delay after showing has passed, and that is resized
//! when the monitor it sits on changes resolution.
//!
//! The library holds the decisions. The host (window system, event channel,
//! hotkey subsystem) is driven by the caller, which performs the host calls
//! that the planning functions return.

mod clock;
pub mod controller;
pub mod orchestrator;
pub mod shortcuts;
pub mod sizing;

pub use controller::{WindowController, DEFAULT_BLUR_HIDE_DELAY_MS};
pub use orchestrator::{
    plan_focus_gained, plan_focus_lost, plan_hide, plan_resize, plan_show, plan_toggle,
    plan_window_moved, FrontendEvent, HostCall,
};
pub use shortcuts::{toggle_shortcut, ShortcutRegistration};
pub use sizing::{calculate_window_size, MAX_WINDOW_WIDTH, MIN_WINDOW_WIDTH, WINDOW_HEIGHT};
