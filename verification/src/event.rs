//! The input events the button tells apart.

use vstd::prelude::*;

verus! {

/// One input event, reduced to what the button's rules read from it.
#[derive(Clone, Copy, PartialEq, Eq, Debug, Structural)]
pub enum Event {
    /// The primary pointer button went down, or a finger touched the surface.
    Pressed,
    /// The primary pointer button came up, or a finger was lifted.
    Released,
    /// A touch was cancelled before it was lifted.
    Lost,
    /// The host is about to paint a frame.
    RedrawRequested,
    /// Anything else.
    Other,
}

/// A button of a pointing device.
#[derive(Clone, Copy, PartialEq, Eq, Debug, Structural)]
pub enum Button {
    Left,
    Right,
    Middle,
    Back,
    Forward,
    Other(u16),
}

/// An event as a host reports it, before the button's rules sort it.
#[derive(Clone, Copy, PartialEq, Eq, Debug, Structural)]
pub enum Source {
    /// A button of the pointing device went down.
    ButtonPressed(Button),
    /// A button of the pointing device came up.
    ButtonReleased(Button),
    /// A finger touched the surface.
    FingerPressed,
    /// A finger was lifted.
    FingerLifted,
    /// A touch was cancelled.
    FingerLost,
    /// The host is about to paint a frame.
    RedrawRequested,
    /// Anything else: keys, pointer movement, other window events.
    Other,
}

/// The event that a host's report comes to. Of the pointing device only the
/// left button counts; a finger counts as that button.
pub open spec fn event_of(source: Source) -> Event {
    match source {
        Source::ButtonPressed(Button::Left) | Source::FingerPressed => Event::Pressed,
        Source::ButtonReleased(Button::Left) | Source::FingerLifted => Event::Released,
        Source::FingerLost => Event::Lost,
        Source::RedrawRequested => Event::RedrawRequested,
        _ => Event::Other,
    }
}

/// Sorts a host's report into the events the button tells apart.
pub fn classify(source: Source) -> (event: Event)
    ensures
        event == event_of(source),
{
    match source {
        Source::ButtonPressed(button) => match button {
            Button::Left => Event::Pressed,
            _ => Event::Other,
        },
        Source::ButtonReleased(button) => match button {
            Button::Left => Event::Released,
            _ => Event::Other,
        },
        Source::FingerPressed => Event::Pressed,
        Source::FingerLifted => Event::Released,
        Source::FingerLost => Event::Lost,
        Source::RedrawRequested => Event::RedrawRequested,
        Source::Other => Event::Other,
    }
}

/// Whether an event was consumed.
#[derive(Clone, Copy, PartialEq, Eq, Debug, Structural)]
pub enum Capture {
    /// Siblings and ancestors may still process the event.
    Ignored,
    /// The event was consumed.
    Captured,
}

} // verus!
