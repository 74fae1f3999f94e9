use mhdm::controls::{restart_simulation, toggle_pause, SimControls};
use mhdm::events::{render_outcome, window_event, AppAction, PointerButton, WindowInput};

fn running() -> SimControls {
    SimControls::new()
}

#[test]
fn new_controls_run_without_restart() {
    assert_eq!(running(), SimControls { paused: false, restart_pending: false });
}

#[test]
fn toggle_pause_twice_restores() {
    let mut c = running();
    toggle_pause(&mut c);
    assert!(c.paused);
    assert!(!c.restart_pending);
    toggle_pause(&mut c);
    assert_eq!(c, running());
}

#[test]
fn restart_is_taken_once() {
    let mut c = running();
    restart_simulation(&mut c);
    assert!(c.restart_pending);
    assert!(c.take_restart());
    assert!(!c.take_restart());
    assert!(!c.paused);
}

#[test]
fn close_and_escape_exit() {
    let mut c = running();
    assert_eq!(window_event(WindowInput::CloseRequested, false, &mut c), vec![AppAction::Exit]);
    assert_eq!(window_event(WindowInput::EscapePressed, true, &mut c), vec![AppAction::Exit]);
    assert_eq!(c, running());
}

#[test]
fn resize_needs_state() {
    let mut c = running();
    let r = WindowInput::Resized { width: 640, height: 480 };
    assert_eq!(window_event(r, false, &mut c), vec![]);
    assert_eq!(
        window_event(r, true, &mut c),
        vec![AppAction::Resize { width: 640, height: 480 }]
    );
}

#[test]
fn redraw_without_state_asks_again() {
    let mut c = running();
    restart_simulation(&mut c);
    assert_eq!(
        window_event(WindowInput::RedrawRequested, false, &mut c),
        vec![AppAction::RequestRedraw]
    );
    assert!(c.restart_pending);
}

#[test]
fn redraw_resets_once_then_renders() {
    let mut c = running();
    toggle_pause(&mut c);
    restart_simulation(&mut c);
    assert_eq!(
        window_event(WindowInput::RedrawRequested, true, &mut c),
        vec![AppAction::Reset, AppAction::Render { paused: true }]
    );
    assert_eq!(
        window_event(WindowInput::RedrawRequested, true, &mut c),
        vec![AppAction::Render { paused: true }]
    );
}

#[test]
fn mouse_buttons_map_to_indices() {
    let mut c = running();
    let l = WindowInput::MouseInput { button: PointerButton::Left, pressed: true };
    let r = WindowInput::MouseInput { button: PointerButton::Right, pressed: false };
    let o = WindowInput::MouseInput { button: PointerButton::Other, pressed: true };
    assert_eq!(window_event(l, true, &mut c), vec![AppAction::MouseClick { button: 0, pressed: true }]);
    assert_eq!(window_event(r, true, &mut c), vec![AppAction::MouseClick { button: 1, pressed: false }]);
    assert_eq!(window_event(o, true, &mut c), vec![]);
    assert_eq!(window_event(l, false, &mut c), vec![]);
}

#[test]
fn cursor_and_other_events() {
    let mut c = running();
    assert_eq!(window_event(WindowInput::CursorMoved, true, &mut c), vec![AppAction::UpdateCursor]);
    assert_eq!(window_event(WindowInput::CursorMoved, false, &mut c), vec![]);
    assert_eq!(window_event(WindowInput::Other, true, &mut c), vec![]);
}

#[test]
fn render_outcome_redraws_or_reports() {
    assert_eq!(render_outcome(true), AppAction::RequestRedraw);
    assert_eq!(render_outcome(false), AppAction::ReportError);
}
