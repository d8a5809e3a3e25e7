use vstd::prelude::*;

use crate::controller::{
    blur_expired, resize_needed, shown_at, ControllerView, WindowController,
};
use crate::sizing::{calculate_window_size, window_size};

verus! {

/// An event sent to the front end of the main window.
#[derive(Clone, Copy, Debug, PartialEq, Eq, Structural)]
pub enum FrontendEvent {
    /// After a show: the front end focuses its input field.
    ActivateInput,
    /// After the window gained focus: the front end focuses its search field.
    FocusSearchInput,
    /// After a hide.
    WindowHidden,
}

/// Name of the event on the front-end channel.
pub open spec fn event_name(e: FrontendEvent) -> Seq<char> {
    match e {
        FrontendEvent::ActivateInput => "activate-input"@,
        FrontendEvent::FocusSearchInput => "focus-search-input"@,
        FrontendEvent::WindowHidden => "window-hidden"@,
    }
}

impl FrontendEvent {
    /// Name of the event on the front-end channel.
    pub fn name(&self) -> (r: &'static str)
        ensures
            r@ == event_name(*self),
    {
        match self {
            FrontendEvent::ActivateInput => "activate-input",
            FrontendEvent::FocusSearchInput => "focus-search-input",
            FrontendEvent::WindowHidden => "window-hidden",
        }
    }
}

/// A primitive operation on the host window, or an event for its front end.
/// Each is best-effort: the caller performs them in order and goes on where
/// one fails.
#[derive(Clone, Copy, Debug, PartialEq, Eq, Structural)]
pub enum HostCall {
    Show,
    Center,
    Unminimize,
    SetFocus,
    Hide,
    Resize { width: u32, height: u32 },
    Emit(FrontendEvent),
}

/// Whether the window is visible after `calls`, from `visible`: the last
/// show or hide decides.
pub open spec fn visible_after(visible: bool, calls: Seq<HostCall>) -> bool
    decreases calls.len(),
{
    if calls.len() == 0 {
        visible
    } else {
        let before = visible_after(visible, calls.drop_last());
        match calls.last() {
            HostCall::Show => true,
            HostCall::Hide => false,
            _ => before,
        }
    }
}

/// Showing: show, center, unminimize, focus, then tell the front end to
/// focus its input.
pub open spec fn show_calls() -> Seq<HostCall> {
    seq![
        HostCall::Show,
        HostCall::Center,
        HostCall::Unminimize,
        HostCall::SetFocus,
        HostCall::Emit(FrontendEvent::ActivateInput),
    ]
}

/// Hiding: hide, then tell the front end.
pub open spec fn hide_calls() -> Seq<HostCall> {
    seq![HostCall::Hide, HostCall::Emit(FrontendEvent::WindowHidden)]
}

/// A hotkey press hides a visible window and shows a hidden one.
pub open spec fn toggle_calls(visible: bool) -> Seq<HostCall> {
    if visible {
        hide_calls()
    } else {
        show_calls()
    }
}

/// A resize to the size for `monitor`, where a monitor resolution is known
/// and differs from the last one seen.
pub open spec fn resize_calls(last: Option<(u32, u32)>, monitor: Option<(u32, u32)>) -> Seq<
    HostCall,
> {
    match monitor {
        Some(m) => if resize_needed(last, m) {
            let size = window_size(m.0, m.1);
            seq![HostCall::Resize { width: size.0 as u32, height: size.1 as u32 }]
        } else {
            seq![]
        },
        None => seq![],
    }
}

/// The last monitor resolution seen after a resize check on `monitor`.
pub open spec fn monitor_after(last: Option<(u32, u32)>, monitor: Option<(u32, u32)>) -> Option<
    (u32, u32),
> {
    match monitor {
        Some(m) => Some(m),
        None => last,
    }
}

/// A focus loss hides a visible window once the protection delay after the
/// last show has passed.
pub open spec fn focus_lost_calls(
    visible: bool,
    last_show_ms: u64,
    now_ms: u64,
    delay_ms: u64,
) -> Seq<HostCall> {
    if visible && blur_expired(last_show_ms, now_ms, delay_ms) {
        hide_calls()
    } else {
        seq![]
    }
}

/// A focus gain resizes where the monitor changed, then tells the front end
/// to focus its search field.
pub open spec fn focus_gained_calls(last: Option<(u32, u32)>, monitor: Option<(u32, u32)>) -> Seq<
    HostCall,
> {
    resize_calls(last, monitor).push(HostCall::Emit(FrontendEvent::FocusSearchInput))
}

/// The calls that show the window at `now_ms`, which is recorded as the time
/// of the last show.
pub fn plan_show(ctrl: &mut WindowController, now_ms: u64) -> (r: Vec<HostCall>)
    ensures
        r@ == show_calls(),
        final(ctrl)@ == (ControllerView {
            last_show_ms: shown_at(old(ctrl)@.last_show_ms, now_ms),
            ..old(ctrl)@
        }),
{
    let mut calls: Vec<HostCall> = Vec::new();
    calls.push(HostCall::Show);
    calls.push(HostCall::Center);
    calls.push(HostCall::Unminimize);
    calls.push(HostCall::SetFocus);
    calls.push(HostCall::Emit(FrontendEvent::ActivateInput));
    ctrl.mark_shown_at(now_ms);
    assert(calls@ =~= show_calls());
    calls
}

/// The calls that hide the window.
pub fn plan_hide() -> (r: Vec<HostCall>)
    ensures
        r@ == hide_calls(),
{
    let mut calls: Vec<HostCall> = Vec::new();
    calls.push(HostCall::Hide);
    calls.push(HostCall::Emit(FrontendEvent::WindowHidden));
    assert(calls@ =~= hide_calls());
    calls
}

/// The calls for a hotkey press at `now_ms`, given whether the host reports
/// the window visible: a visible window is hidden, a hidden one is shown
/// (and the show recorded).
pub fn plan_toggle(ctrl: &mut WindowController, visible: bool, now_ms: u64) -> (r: Vec<HostCall>)
    ensures
        r@ == toggle_calls(visible),
        visible_after(visible, r@) == !visible,
        final(ctrl)@ == if visible {
            old(ctrl)@
        } else {
            ControllerView { last_show_ms: shown_at(old(ctrl)@.last_show_ms, now_ms), ..old(ctrl)@ }
        },
{
    proof {
        lemma_toggle_flips(visible);
    }
    if visible {
        plan_hide()
    } else {
        plan_show(ctrl, now_ms)
    }
}

/// The resize, if any, for the monitor resolution that the host reports
/// (`None` where it could not tell): only where it differs from the last one
/// seen, which the controller then records.
pub fn plan_resize(ctrl: &mut WindowController, monitor: Option<(u32, u32)>) -> (r: Vec<
    HostCall,
>)
    ensures
        r@ == resize_calls(old(ctrl)@.last_monitor_size, monitor),
        final(ctrl)@ == (ControllerView {
            last_monitor_size: monitor_after(old(ctrl)@.last_monitor_size, monitor),
            ..old(ctrl)@
        }),
{
    let mut calls: Vec<HostCall> = Vec::new();
    match monitor {
        Some(m) => {
            if ctrl.needs_resize(m) {
                let size = calculate_window_size(m.0, m.1);
                calls.push(HostCall::Resize { width: size.0, height: size.1 });
            }
        },
        None => {},
    }
    assert(calls@ =~= resize_calls(old(ctrl)@.last_monitor_size, monitor));
    calls
}

/// The calls for a focus loss at `now_ms`, given whether the host reports
/// the window visible: a hide once more than `delay_ms` milliseconds have
/// passed since the last show, nothing inside that protection window. The
/// controller records the loss of focus.
pub fn plan_focus_lost(ctrl: &mut WindowController, visible: bool, now_ms: u64, delay_ms: u64) -> (r:
    Vec<HostCall>)
    ensures
        r@ == focus_lost_calls(visible, old(ctrl)@.last_show_ms, now_ms, delay_ms),
        final(ctrl)@ == (ControllerView { focused: false, ..old(ctrl)@ }),
{
    ctrl.set_focused(false);
    if visible && ctrl.should_hide_on_blur_at(now_ms, delay_ms) {
        plan_hide()
    } else {
        Vec::new()
    }
}

/// The calls for a focus gain: a resize where the monitor changed (see
/// `plan_resize`), then the event that lets the front end focus its search
/// field. The controller records the focus.
pub fn plan_focus_gained(ctrl: &mut WindowController, monitor: Option<(u32, u32)>) -> (r: Vec<
    HostCall,
>)
    ensures
        r@ == focus_gained_calls(old(ctrl)@.last_monitor_size, monitor),
        final(ctrl)@ == (ControllerView {
            focused: true,
            last_monitor_size: monitor_after(old(ctrl)@.last_monitor_size, monitor),
            ..old(ctrl)@
        }),
{
    ctrl.set_focused(true);
    let mut calls = plan_resize(ctrl, monitor);
    calls.push(HostCall::Emit(FrontendEvent::FocusSearchInput));
    calls
}

/// The calls for a move of the window: a resize where the monitor changed
/// (see `plan_resize`).
pub fn plan_window_moved(ctrl: &mut WindowController, monitor: Option<(u32, u32)>) -> (r: Vec<
    HostCall,
>)
    ensures
        r@ == resize_calls(old(ctrl)@.last_monitor_size, monitor),
        final(ctrl)@ == (ControllerView {
            last_monitor_size: monitor_after(old(ctrl)@.last_monitor_size, monitor),
            ..old(ctrl)@
        }),
{
    plan_resize(ctrl, monitor)
}

/// A hotkey press turns the window's visibility over: a visible window is
/// hidden and a hidden one shown.
pub proof fn lemma_toggle_flips(visible: bool)
    ensures
        visible_after(visible, toggle_calls(visible)) == !visible,
{
    reveal_with_fuel(visible_after, 6);
}

/// Hotkey presses alternate: from a hidden window, one press shows it, a
/// second hides it, a third shows it again; two presses in a row leave the
/// visibility as it was.
pub proof fn lemma_toggle_alternates(visible: bool)
    ensures
        visible_after(visible_after(visible, toggle_calls(visible)), toggle_calls(
            visible_after(visible, toggle_calls(visible)),
        )) == visible,
        ({
            let s1 = visible_after(false, toggle_calls(false));
            let s2 = visible_after(s1, toggle_calls(s1));
            let s3 = visible_after(s2, toggle_calls(s2));
            s1 && !s2 && s3
        }),
{
    lemma_toggle_flips(visible);
    lemma_toggle_flips(!visible);
    lemma_toggle_flips(false);
    lemma_toggle_flips(true);
}

} // verus!
