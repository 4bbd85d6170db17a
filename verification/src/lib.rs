//! A retro-styled push button, described independently of any rendering host.
//!
//! The crate holds the button's rules: how its interaction status follows from
//! the pressed flag, the pointer and the presence of a click handler, how each
//! input event changes the pressed flag and what it publishes, and which
//! primitives each status is painted with. Lengths are whole units and colours
//! are eight-bit channels, so every rule is stated over integers.

pub mod event;
pub mod status;
pub mod on_press;
pub mod geometry;
pub mod style;
pub mod host;
pub mod transition;
pub mod button;
pub mod laws;

pub mod message;
