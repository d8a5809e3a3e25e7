use sparknova::{
    plan_focus_gained, plan_focus_lost, plan_hide, plan_resize, plan_show, plan_toggle,
    plan_window_moved, FrontendEvent, HostCall, WindowController,
};

fn show_sequence() -> Vec<HostCall> {
    vec![
        HostCall::Show,
        HostCall::Center,
        HostCall::Unminimize,
        HostCall::SetFocus,
        HostCall::Emit(FrontendEvent::ActivateInput),
    ]
}

fn hide_sequence() -> Vec<HostCall> {
    vec![HostCall::Hide, HostCall::Emit(FrontendEvent::WindowHidden)]
}

fn visible_after(mut visible: bool, calls: &[HostCall]) -> bool {
    for c in calls {
        match c {
            HostCall::Show => visible = true,
            HostCall::Hide => visible = false,
            _ => {}
        }
    }
    visible
}

#[test]
fn hotkey_while_hidden_shows_in_order_and_marks_shown() {
    let mut c = WindowController::new();
    c.set_last_show_time_for_test(0);
    let calls = plan_toggle(&mut c, false, 12_345);
    assert_eq!(calls, show_sequence());
    assert_eq!(c.last_show_time(), 12_345);
    let activations = calls
        .iter()
        .filter(|x| **x == HostCall::Emit(FrontendEvent::ActivateInput))
        .count();
    assert_eq!(activations, 1);
}

#[test]
fn hotkey_while_visible_hides_and_keeps_show_time() {
    let mut c = WindowController::new();
    c.set_last_show_time_for_test(100);
    let calls = plan_toggle(&mut c, true, 9_000);
    assert_eq!(calls, hide_sequence());
    assert_eq!(c.last_show_time(), 100);
}

#[test]
fn three_toggles_from_hidden_end_visible() {
    let mut c = WindowController::new();
    let mut visible = false;
    let mut seen = Vec::new();
    for t in [1_000u64, 2_000, 3_000] {
        let calls = plan_toggle(&mut c, visible, t);
        visible = visible_after(visible, &calls);
        seen.push(visible);
    }
    assert_eq!(seen, vec![true, false, true]);
}

#[test]
fn focus_lost_inside_protection_window_does_not_hide() {
    let mut c = WindowController::new();
    let _ = plan_show(&mut c, 5_000);
    let calls = plan_focus_lost(&mut c, true, 5_100, 800);
    assert!(calls.is_empty());
    assert!(!c.is_focused());
}

#[test]
fn focus_lost_after_protection_window_hides_once() {
    let mut c = WindowController::new();
    let _ = plan_show(&mut c, 5_000);
    let calls = plan_focus_lost(&mut c, true, 6_000, 800);
    let hides = calls.iter().filter(|x| **x == HostCall::Hide).count();
    assert_eq!(hides, 1);
    assert_eq!(calls, hide_sequence());
}

#[test]
fn focus_lost_at_exactly_the_delay_does_not_hide() {
    let mut c = WindowController::new();
    let _ = plan_show(&mut c, 5_000);
    assert!(plan_focus_lost(&mut c, true, 5_800, 800).is_empty());
}

#[test]
fn focus_lost_while_hidden_does_nothing() {
    let mut c = WindowController::new();
    c.set_last_show_time_for_test(0);
    assert!(plan_focus_lost(&mut c, false, 100_000, 800).is_empty());
}

#[test]
fn hide_plan_hides_and_notifies() {
    assert_eq!(plan_hide(), hide_sequence());
}

#[test]
fn resize_only_on_new_resolution() {
    let mut c = WindowController::new();
    assert_eq!(
        plan_resize(&mut c, Some((1920, 1080))),
        vec![HostCall::Resize { width: 960, height: 80 }]
    );
    assert!(plan_resize(&mut c, Some((1920, 1080))).is_empty());
    assert_eq!(
        plan_resize(&mut c, Some((800, 600))),
        vec![HostCall::Resize { width: 600, height: 80 }]
    );
}

#[test]
fn resize_without_monitor_does_nothing() {
    let mut c = WindowController::new();
    assert!(plan_resize(&mut c, None).is_empty());
    assert!(c.needs_resize((1920, 1080)));
}

#[test]
fn focus_gained_resizes_then_asks_front_end_to_focus() {
    let mut c = WindowController::new();
    let calls = plan_focus_gained(&mut c, Some((1280, 720)));
    assert_eq!(
        calls,
        vec![
            HostCall::Resize { width: 960, height: 80 },
            HostCall::Emit(FrontendEvent::FocusSearchInput),
        ]
    );
    assert!(c.is_focused());
    let again = plan_focus_gained(&mut c, Some((1280, 720)));
    assert_eq!(again, vec![HostCall::Emit(FrontendEvent::FocusSearchInput)]);
}

#[test]
fn window_moved_resizes_on_new_monitor_only() {
    let mut c = WindowController::new();
    assert_eq!(
        plan_window_moved(&mut c, Some((400, 300))),
        vec![HostCall::Resize { width: 400, height: 80 }]
    );
    assert!(plan_window_moved(&mut c, Some((400, 300))).is_empty());
    assert!(!c.is_focused());
}

#[test]
fn event_names() {
    assert_eq!(FrontendEvent::ActivateInput.name(), "activate-input");
    assert_eq!(FrontendEvent::FocusSearchInput.name(), "focus-search-input");
    assert_eq!(FrontendEvent::WindowHidden.name(), "window-hidden");
}
