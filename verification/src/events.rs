use vstd::prelude::*;

use crate::controls::{restart_requested, restart_taken, SimControls};

verus! {

/// A mouse button, as far as the simulation tells them apart.
#[derive(Clone, Copy, Debug, PartialEq, Eq, Structural)]
pub enum PointerButton {
    Left,
    Right,
    Other,
}

/// A window event, as far as the simulation reacts to it. The cursor's position is
/// left with the caller, which stores it when told to.
#[derive(Clone, Copy, Debug, PartialEq, Eq, Structural)]
pub enum WindowInput {
    CloseRequested,
    Resized { width: u32, height: u32 },
    RedrawRequested,
    EscapePressed,
    CursorMoved,
    MouseInput { button: PointerButton, pressed: bool },
    Other,
}

/// What the event loop is to do, in order, in answer to an event.
#[derive(Clone, Copy, Debug, PartialEq, Eq, Structural)]
pub enum AppAction {
    /// Leave the event loop.
    Exit,
    /// Resize the simulation's surface.
    Resize { width: u32, height: u32 },
    /// Put the simulation back in its initial state.
    Reset,
    /// Render a frame, advancing the simulation unless it is paused.
    Render { paused: bool },
    /// Ask the window for another redraw.
    RequestRedraw,
    /// Store the cursor position that came with the event.
    UpdateCursor,
    /// Record that mouse button `button` (0 left, 1 right) is pressed or released.
    MouseClick { button: u32, pressed: bool },
    /// Report that rendering a frame failed.
    ReportError,
}

/// The actions that answer `input`, given whether the simulation's state exists yet
/// and the switches `c` as they stand before the event.
pub open spec fn window_actions(input: WindowInput, has_state: bool, c: SimControls) -> Seq<
    AppAction,
> {
    match input {
        WindowInput::CloseRequested => seq![AppAction::Exit],
        WindowInput::EscapePressed => seq![AppAction::Exit],
        WindowInput::Resized { width, height } => if has_state {
            seq![AppAction::Resize { width, height }]
        } else {
            seq![]
        },
        WindowInput::RedrawRequested => if !has_state {
            seq![AppAction::RequestRedraw]
        } else if c.restart_pending {
            seq![AppAction::Reset, AppAction::Render { paused: c.paused }]
        } else {
            seq![AppAction::Render { paused: c.paused }]
        },
        WindowInput::CursorMoved => if has_state {
            seq![AppAction::UpdateCursor]
        } else {
            seq![]
        },
        WindowInput::MouseInput { button, pressed } => if !has_state {
            seq![]
        } else {
            match button {
                PointerButton::Left => seq![AppAction::MouseClick { button: 0, pressed }],
                PointerButton::Right => seq![AppAction::MouseClick { button: 1, pressed }],
                PointerButton::Other => seq![],
            }
        },
        WindowInput::Other => seq![],
    }
}

/// The switches after `input`: a redraw with the state in place takes up a pending
/// restart; nothing else changes them.
pub open spec fn window_controls(input: WindowInput, has_state: bool, c: SimControls) -> SimControls {
    if input == WindowInput::RedrawRequested && has_state {
        restart_taken(c)
    } else {
        c
    }
}

/// Decides how the event loop answers a window event.
pub fn window_event(input: WindowInput, has_state: bool, controls: &mut SimControls) -> (actions:
    Vec<AppAction>)
    ensures
        actions@ == window_actions(input, has_state, *old(controls)),
        *final(controls) == window_controls(input, has_state, *old(controls)),
        final(controls).paused == old(controls).paused,
        input != WindowInput::RedrawRequested ==> *final(controls) == *old(controls),
        input matches WindowInput::MouseInput { button, pressed } ==> (has_state && button
            != PointerButton::Other ==> actions@ == seq![
            AppAction::MouseClick {
                button: if button == PointerButton::Left {
                    0
                } else {
                    1
                },
                pressed,
            },
        ]),
{
    let mut actions: Vec<AppAction> = Vec::new();
    match input {
        WindowInput::CloseRequested => {
            actions.push(AppAction::Exit);
        },
        WindowInput::EscapePressed => {
            actions.push(AppAction::Exit);
        },
        WindowInput::Resized { width, height } => {
            if has_state {
                actions.push(AppAction::Resize { width, height });
            }
        },
        WindowInput::RedrawRequested => {
            if has_state {
                if controls.take_restart() {
                    actions.push(AppAction::Reset);
                }
                actions.push(AppAction::Render { paused: controls.paused });
            } else {
                actions.push(AppAction::RequestRedraw);
            }
        },
        WindowInput::CursorMoved => {
            if has_state {
                actions.push(AppAction::UpdateCursor);
            }
        },
        WindowInput::MouseInput { button, pressed } => {
            if has_state {
                match button {
                    PointerButton::Left => {
                        actions.push(AppAction::MouseClick { button: 0, pressed });
                    },
                    PointerButton::Right => {
                        actions.push(AppAction::MouseClick { button: 1, pressed });
                    },
                    PointerButton::Other => {},
                }
            }
        },
        WindowInput::Other => {},
    }
    proof {
        assert(actions@ =~= window_actions(input, has_state, *old(controls)));
    }
    actions
}

/// What follows a rendered frame: another redraw when it succeeded, a report when
/// it failed.
pub fn render_outcome(succeeded: bool) -> (action: AppAction)
    ensures
        action == (if succeeded {
            AppAction::RequestRedraw
        } else {
            AppAction::ReportError
        }),
{
    if succeeded {
        AppAction::RequestRedraw
    } else {
        AppAction::ReportError
    }
}

/// A restart that is asked for before a redraw resets the simulation once: the
/// redraw that takes it up resets and then renders, and the next redraw only renders.
pub proof fn lemma_restart_resets_once(c: SimControls)
    ensures
        window_actions(WindowInput::RedrawRequested, true, restart_requested(c))
            == seq![AppAction::Reset, AppAction::Render { paused: c.paused }],
        window_actions(
            WindowInput::RedrawRequested,
            true,
            window_controls(
                WindowInput::RedrawRequested,
                true,
                restart_requested(c),
            ),
        ) == seq![AppAction::Render { paused: c.paused }],
{
}

/// Closing the window or pressing Escape always ends the event loop, and nothing else
/// is done for it.
pub proof fn lemma_close_exits(has_state: bool, c: SimControls)
    ensures
        window_actions(WindowInput::CloseRequested, has_state, c) == seq![AppAction::Exit],
        window_actions(WindowInput::EscapePressed, has_state, c) == seq![AppAction::Exit],
        window_controls(WindowInput::CloseRequested, has_state, c) == c,
        window_controls(WindowInput::EscapePressed, has_state, c) == c,
{
}


/// No window event pauses or resumes the simulation, and only a redraw with the state
/// in place touches the switches at all: there it clears a pending restart and
/// nothing else.
pub proof fn lemma_events_keep_pause(input: WindowInput, has_state: bool, c: SimControls)
    ensures
        window_controls(input, has_state, c).paused == c.paused,
        input != WindowInput::RedrawRequested ==> window_controls(input, has_state, c) == c,
        !has_state ==> window_controls(input, has_state, c) == c,
        window_controls(input, has_state, c).restart_pending ==> c.restart_pending,
{
}

/// Every press and every release of the left or right mouse button reaches the
/// simulation as a click on button 0 or 1 with the same pressed state; other buttons
/// are ignored.
pub proof fn lemma_mouse_buttons_forwarded(pressed: bool, c: SimControls)
    ensures
        window_actions(
            WindowInput::MouseInput { button: PointerButton::Left, pressed },
            true,
            c,
        ) == seq![AppAction::MouseClick { button: 0, pressed }],
        window_actions(
            WindowInput::MouseInput { button: PointerButton::Right, pressed },
            true,
            c,
        ) == seq![AppAction::MouseClick { button: 1, pressed }],
        window_actions(
            WindowInput::MouseInput { button: PointerButton::Other, pressed },
            true,
            c,
        ).len() == 0,
{
}

/// A redraw with the state in place always ends in one render under the current
/// pause switch, preceded by a reset exactly when a restart was pending; before the
/// state exists it only asks for another redraw.
pub proof fn lemma_redraw_renders(c: SimControls)
    ensures
        ({
            let a = window_actions(WindowInput::RedrawRequested, true, c);
            &&& a.len() >= 1
            &&& a.last() == AppAction::Render { paused: c.paused }
            &&& a.contains(AppAction::Reset) <==> c.restart_pending
            &&& a.len() == (if c.restart_pending {
                2int
            } else {
                1int
            })
        }),
        window_actions(WindowInput::RedrawRequested, false, c) == seq![AppAction::RequestRedraw],
{
    let a = window_actions(WindowInput::RedrawRequested, true, c);
    if c.restart_pending {
        assert(a[0] == AppAction::Reset);
    } else {
        assert(a.len() == 1);
        assert(!a.contains(AppAction::Reset)) by {
            if a.contains(AppAction::Reset) {
                let k = choose|k: int| 0 <= k < a.len() && a[k] == AppAction::Reset;
                assert(a[k] == a[0]);
            }
        }
    }
}

/// A resize reaches the simulation with exactly the size the window reported, once
/// the state exists; before that, only closing, Escape and redraws are answered.
pub proof fn lemma_resize_forwarded(width: u32, height: u32, input: WindowInput, c: SimControls)
    ensures
        window_actions(WindowInput::Resized { width, height }, true, c) == seq![
            AppAction::Resize { width, height },
        ],
        window_actions(input, false, c).len() > 0 ==> input == WindowInput::CloseRequested
            || input == WindowInput::EscapePressed || input == WindowInput::RedrawRequested,
{
}

} // verus!
