//! Interaction status and the one flag that outlives a frame.

use vstd::prelude::*;

verus! {

/// What the button currently looks and behaves like.
#[derive(Clone, Copy, PartialEq, Eq, Debug, Structural)]
pub enum Status {
    /// A handler is set; the pointer is elsewhere and nothing is held.
    Active,
    /// A handler is set and the pointer rests over the button.
    Hovered,
    /// A handler is set and a press that began on the button is still held.
    Pressed,
    /// No handler is set.
    Disabled,
}

/// The state kept for a button between frames: whether a press that began
/// over it has not yet been released or lost.
#[derive(Clone, Copy, PartialEq, Eq, Debug, Structural)]
pub struct State {
    pub is_pressed: bool,
}

impl Default for State {
    /// A fresh button is not pressed.
    fn default() -> (state: Self)
        ensures
            !state.is_pressed,
    {
        State { is_pressed: false }
    }
}

/// The status that belongs to a handler's presence, the pressed flag and the
/// pointer being over the button.
pub open spec fn status_of(has_handler: bool, is_pressed: bool, over: bool) -> Status {
    if !has_handler {
        Status::Disabled
    } else if is_pressed {
        Status::Pressed
    } else if over {
        Status::Hovered
    } else {
        Status::Active
    }
}

/// Computes the status from the three facts it depends on.
pub fn current_status(has_handler: bool, state: State, over: bool) -> (status: Status)
    ensures
        status == status_of(has_handler, state.is_pressed, over),
{
    if has_handler {
        if state.is_pressed {
            Status::Pressed
        } else if over {
            Status::Hovered
        } else {
            Status::Active
        }
    } else {
        Status::Disabled
    }
}

} // verus!
