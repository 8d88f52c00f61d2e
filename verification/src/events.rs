//! The event model and the classifier.
//!
//! A window event is a discrete notification addressed to one window: a close
//! request, a key press or release, a resize, and so on.  The classifier
//! inspects a single event and sets the control-flow flag to `Exit` if and
//! only if the event is a termination signal: a close request, or a press
//! (not a release) of the Escape key.  Every other event leaves the flag
//! unchanged.

use vstd::prelude::*;

verus! {

/// What the run loop should do once the current event is handled: keep
/// waiting for events, or stop dispatching and let the process exit.
#[derive(Clone, Copy, Debug, PartialEq, Eq, Structural)]
pub enum ControlFlow {
    Continue,
    Exit,
}

/// Whether a key was pushed down or let go.
#[derive(Clone, Copy, Debug, PartialEq, Eq, Structural)]
pub enum ElementState {
    Pressed,
    Released,
}

/// The logical identity of a key, as reported by the platform's keyboard
/// layout.  Only `Escape` matters to the classifier; a handful of other keys
/// are named so that callers can describe ordinary input, and `Other` stands
/// for every remaining key.  The platform does not always resolve a key to a
/// logical identity, which is why events carry an `Option<KeyCode>`.
#[derive(Clone, Copy, Debug, PartialEq, Eq, Structural)]
pub enum KeyCode {
    Escape,
    Space,
    Return,
    Tab,
    Other,
}

/// One notification from the windowing system about a single window.
#[derive(Clone, Copy, Debug)]
pub enum WindowEvent {
    /// The user asked the window to close (for example, clicked the close
    /// button).
    CloseRequested,
    /// A key changed state while the window had keyboard focus.
    KeyboardInput { state: ElementState, key_code: Option<KeyCode> },
    /// The window was resized to the given physical size in pixels.
    Resized { width: u32, height: u32 },
    /// The window gained or lost focus.
    Focused { focused: bool },
    /// Any notification the classifier has no interest in.
    Other,
}

/// Whether one event is a termination signal: a close request, or a press of
/// the Escape key.  A release of Escape is not.
pub open spec fn is_exit_event(event: WindowEvent) -> bool {
    match event {
        WindowEvent::CloseRequested => true,
        WindowEvent::KeyboardInput { state, key_code } => {
            state == ElementState::Pressed && key_code == Some(KeyCode::Escape)
        },
        _ => false,
    }
}

/// The flag after one event is classified: `Exit` on a termination signal,
/// otherwise whatever the flag already was.
pub open spec fn classify(event: WindowEvent, flow: ControlFlow) -> ControlFlow {
    if is_exit_event(event) {
        ControlFlow::Exit
    } else {
        flow
    }
}

/// Handles one window event: sets the control-flow flag to `Exit` if and only
/// if the event is a close request or a press of Escape; leaves the flag
/// unchanged on every other event.  Total over its input: no error case.
pub fn handle_window_event(event: &WindowEvent, control_flow: &mut ControlFlow)
    ensures
        *final(control_flow) == classify(*event, *old(control_flow)),
{
    match event {
        WindowEvent::CloseRequested => {
            *control_flow = ControlFlow::Exit;
        },
        WindowEvent::KeyboardInput {
            state: ElementState::Pressed,
            key_code: Some(KeyCode::Escape),
        } => {
            *control_flow = ControlFlow::Exit;
        },
        _ => {},
    }
}

/// Every close request drives the flag to `Exit`, whatever it held before.
pub proof fn lemma_close_request_exits(flow: ControlFlow)
    ensures
        classify(WindowEvent::CloseRequested, flow) == ControlFlow::Exit,
{
}

/// Every press of Escape drives the flag to `Exit`; a release of Escape
/// leaves it unchanged.
pub proof fn lemma_escape_press_exits(flow: ControlFlow)
    ensures
        classify(
            (WindowEvent::KeyboardInput {
                state: ElementState::Pressed,
                key_code: Some(KeyCode::Escape),
            }),
            flow,
        ) == ControlFlow::Exit,
        classify(
            (WindowEvent::KeyboardInput {
                state: ElementState::Released,
                key_code: Some(KeyCode::Escape),
            }),
            flow,
        ) == flow,
{
}

/// An event that is no termination signal leaves the flag exactly as it was.
pub proof fn lemma_non_exit_event_keeps_flag(event: WindowEvent, flow: ControlFlow)
    requires
        !is_exit_event(event),
    ensures
        classify(event, flow) == flow,
{
}

/// Classifying the same event twice settles on the first answer: there is no
/// oscillation back from `Exit`.
pub proof fn lemma_classify_idempotent(event: WindowEvent, flow: ControlFlow)
    ensures
        classify(event, classify(event, flow)) == classify(event, flow),
{
}

/// Once the flag holds `Exit`, no event resets it: `Exit` is absorbing.
pub proof fn lemma_exit_is_latched(event: WindowEvent)
    ensures
        classify(event, ControlFlow::Exit) == ControlFlow::Exit,
{
}

} // verus!
