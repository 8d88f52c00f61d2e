//! The dispatch step of the run loop.
//!
//! The platform hands the loop a stream of system events.  Only window events
//! addressed to the one window the program opened are forwarded to the
//! classifier; events for any other window, and non-window notifications, are
//! ignored.  After each event the loop reads the control-flow flag and stops
//! at the first `Exit`.

use vstd::prelude::*;

use crate::events::{classify, handle_window_event, ControlFlow, WindowEvent};

verus! {

/// The platform's identifier for one window.  Two windows are the same
/// exactly when their identifiers are equal.
#[derive(Clone, Copy, Debug, PartialEq, Eq, Structural)]
pub struct WindowId(pub u64);

/// One notification from the platform's event loop.  Window events name the
/// window they belong to; everything else (device input, timing, lifecycle
/// notifications) is summarised as `Other`, which the loop ignores.
#[derive(Clone, Copy, Debug)]
pub enum SystemEvent {
    WindowEvent { window_id: WindowId, event: WindowEvent },
    Other,
}

/// The flag after one system event: a window event for the target window is
/// classified; a window event for any other window, and every non-window
/// event, leaves the flag unchanged.
pub open spec fn dispatch(event: SystemEvent, target: WindowId, flow: ControlFlow) -> ControlFlow {
    match event {
        SystemEvent::WindowEvent { window_id, event: window_event } => {
            if window_id == target {
                classify(window_event, flow)
            } else {
                flow
            }
        },
        SystemEvent::Other => flow,
    }
}

/// The flag after a whole sequence of system events, dispatched in order.
pub open spec fn dispatch_seq(
    events: Seq<SystemEvent>,
    target: WindowId,
    flow: ControlFlow,
) -> ControlFlow
    decreases events.len(),
{
    if events.len() == 0 {
        flow
    } else {
        dispatch(events.last(), target, dispatch_seq(events.drop_last(), target, flow))
    }
}

/// Performs one dispatch step: forwards the event to the classifier exactly
/// when it is a window event belonging to the target window, and otherwise
/// leaves the flag untouched.
pub fn dispatch_system_event(
    system_event: &SystemEvent,
    target: WindowId,
    control_flow: &mut ControlFlow,
)
    ensures
        *final(control_flow) == dispatch(*system_event, target, *old(control_flow)),
{
    match system_event {
        SystemEvent::WindowEvent { window_id, event } => {
            if *window_id == target {
                handle_window_event(event, control_flow);
            }
        },
        SystemEvent::Other => {},
    }
}

/// Dispatches events in order until the flag first reads `Exit`, as the run
/// loop does, and returns how many events were dispatched.  The final flag is
/// the result of dispatching exactly that prefix; the flag still read
/// `Continue` before each dispatched event; and the loop stopped early only
/// because the flag reached `Exit`.
pub fn run_events(
    events: &Vec<SystemEvent>,
    target: WindowId,
    control_flow: &mut ControlFlow,
) -> (n: usize)
    ensures
        n <= events@.len(),
        *final(control_flow) == dispatch_seq(
            events@.subrange(0, n as int),
            target,
            *old(control_flow),
        ),
        forall|i: int|
            0 <= i < n ==> dispatch_seq(events@.subrange(0, i), target, *old(control_flow))
                == ControlFlow::Continue,
        n < events@.len() ==> *final(control_flow) == ControlFlow::Exit,
{
    let mut i: usize = 0;
    while i < events.len() && *control_flow == ControlFlow::Continue
        invariant
            i <= events@.len(),
            *control_flow == dispatch_seq(events@.subrange(0, i as int), target, *old(control_flow)),
            forall|j: int|
                0 <= j < i ==> dispatch_seq(events@.subrange(0, j), target, *old(control_flow))
                    == ControlFlow::Continue,
        decreases events@.len() - i,
    {
        let ghost j: int = i as int;
        dispatch_system_event(&events[i], target, control_flow);
        i = i + 1;
        proof {
            assert(events@.subrange(0, j + 1).drop_last() =~= events@.subrange(0, j));
            assert(events@.subrange(0, j + 1).last() == events@[j]);
        }
    }
    i
}

/// A window event that belongs to a window other than the target never
/// reaches the classifier: the flag comes through unchanged.
pub proof fn lemma_foreign_window_ignored(
    window_event: WindowEvent,
    window_id: WindowId,
    target: WindowId,
    flow: ControlFlow,
)
    requires
        window_id != target,
    ensures
        dispatch((SystemEvent::WindowEvent { window_id, event: window_event }), target, flow)
            == flow,
{
}

/// Once the flag holds `Exit`, no sequence of further events moves it: the
/// loop never resumes after a termination signal.
pub proof fn lemma_exit_stays_exit(events: Seq<SystemEvent>, target: WindowId)
    ensures
        dispatch_seq(events, target, ControlFlow::Exit) == ControlFlow::Exit,
    decreases events.len(),
{
    if events.len() > 0 {
        lemma_exit_stays_exit(events.drop_last(), target);
    }
}

} // verus!
