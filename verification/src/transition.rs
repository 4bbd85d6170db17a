//! What one input event does to a button.

use vstd::prelude::*;
use crate::event::{Capture, Event};
use crate::status::{current_status, status_of, State, Status};

verus! {

/// One event as the button meets it.
#[derive(Clone, Copy, PartialEq, Eq, Debug, Structural)]
pub struct Input {
    pub event: Event,
    /// The pointer is over the button's bounds.
    pub over: bool,
    /// The content was offered the event first and consumed it.
    pub child_captured: bool,
}

/// What an event leaves behind and asks of the host.
#[derive(Clone, Copy, PartialEq, Eq, Debug, Structural)]
pub struct Transition {
    /// The pressed flag after the event.
    pub is_pressed: bool,
    /// The status settled for painting, after the event.
    pub status: Option<Status>,
    pub capture: Capture,
    /// The handler's message is to be published.
    pub publish: bool,
    /// The host is to paint again on the next frame.
    pub redraw: bool,
}

/// The pressed flag after an event. A press over a button with a handler
/// sets it, a release on a button with a handler and a lost touch clear it;
/// nothing else touches it, and nothing at all when the content consumed
/// the event.
pub open spec fn pressed_after(has_handler: bool, was_pressed: bool, input: Input) -> bool {
    if input.child_captured {
        was_pressed
    } else {
        match input.event {
            Event::Pressed => was_pressed || (has_handler && input.over),
            Event::Released => was_pressed && !has_handler,
            Event::Lost => false,
            _ => was_pressed,
        }
    }
}

/// Whether an event is consumed: when the content consumed it, on a press
/// over a button with a handler, and on every release and lost touch.
pub open spec fn captures(has_handler: bool, input: Input) -> bool {
    input.child_captured || match input.event {
        Event::Pressed => has_handler && input.over,
        Event::Released | Event::Lost => true,
        _ => false,
    }
}

/// Whether an event publishes the handler's message: only a release over
/// the button that ends a press, on a button with a handler.
pub open spec fn publishes(has_handler: bool, was_pressed: bool, input: Input) -> bool {
    !input.child_captured && input.event == Event::Released && has_handler && was_pressed
        && input.over
}

/// The status settled for painting after an event: a frame boundary settles
/// the status of the moment, anything else leaves what was settled.
pub open spec fn settled_after(
    has_handler: bool,
    was_pressed: bool,
    settled: Option<Status>,
    input: Input,
) -> Option<Status> {
    if !input.child_captured && input.event == Event::RedrawRequested {
        Some(status_of(has_handler, was_pressed, input.over))
    } else {
        settled
    }
}

/// Whether an event asks for another frame: when it is no frame boundary
/// and the status of the moment, after the event, is not the settled one.
/// With nothing settled yet there is nothing to differ from.
pub open spec fn requests_redraw(
    has_handler: bool,
    was_pressed: bool,
    settled: Option<Status>,
    input: Input,
) -> bool {
    &&& !input.child_captured
    &&& input.event != Event::RedrawRequested
    &&& settled matches Some(s)
    &&& s != status_of(has_handler, pressed_after(has_handler, was_pressed, input), input.over)
}

/// All of the above for one event.
pub open spec fn transition_of(
    has_handler: bool,
    was_pressed: bool,
    settled: Option<Status>,
    input: Input,
) -> Transition {
    Transition {
        is_pressed: pressed_after(has_handler, was_pressed, input),
        status: settled_after(has_handler, was_pressed, settled, input),
        capture: if captures(has_handler, input) {
            Capture::Captured
        } else {
            Capture::Ignored
        },
        publish: publishes(has_handler, was_pressed, input),
        redraw: requests_redraw(has_handler, was_pressed, settled, input),
    }
}

/// Decides what one event does, given whether a handler is set, the pressed
/// flag and the status settled so far.
pub fn transition(has_handler: bool, state: State, settled: Option<Status>, input: Input) -> (t:
    Transition)
    ensures
        t == transition_of(has_handler, state.is_pressed, settled, input),
{
    if input.child_captured {
        return Transition {
            is_pressed: state.is_pressed,
            status: settled,
            capture: Capture::Captured,
            publish: false,
            redraw: false,
        };
    }
    let mut next = state;
    let mut capture = Capture::Ignored;
    let mut publish = false;
    match input.event {
        Event::Pressed => {
            if has_handler && input.over {
                next.is_pressed = true;
                capture = Capture::Captured;
            }
        },
        Event::Released => {
            if has_handler && state.is_pressed {
                next.is_pressed = false;
                publish = input.over;
            }
            capture = Capture::Captured;
        },
        Event::Lost => {
            next.is_pressed = false;
            capture = Capture::Captured;
        },
        Event::RedrawRequested | Event::Other => {},
    }
    let current = current_status(has_handler, next, input.over);
    let mut status = settled;
    let mut redraw = false;
    match input.event {
        Event::RedrawRequested => {
            status = Some(current);
        },
        _ => {
            redraw = match settled {
                Some(s) => s != current,
                None => false,
            };
        },
    }
    Transition { is_pressed: next.is_pressed, status, capture, publish, redraw }
}

} // verus!
