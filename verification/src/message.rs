//! The messages of the sample application.

use vstd::prelude::*;

verus! {

/// What the sample application's button publishes.
#[derive(Clone, Copy, PartialEq, Eq, Debug, Structural)]
pub enum Message {
    /// The button was clicked.
    ButtonPressed,
}

} // verus!
