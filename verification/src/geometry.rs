//! Sizing policies and insets, in whole units.

use vstd::prelude::*;

verus! {

/// How much room a dimension asks for.
#[derive(Clone, Copy, PartialEq, Eq, Debug, Structural)]
pub enum Length {
    /// Take all the room there is.
    Fill,
    /// Take a share of the room, weighed against the siblings' shares.
    FillPortion(u16),
    /// Take only what the content needs.
    Shrink,
    /// Take exactly this many units.
    Fixed(u32),
}

impl Length {
    /// The policy without its amounts: anything that fills becomes `Fill`,
    /// anything else `Shrink`.
    pub open spec fn spec_fluid(self) -> Length {
        match self {
            Length::Fill | Length::FillPortion(_) => Length::Fill,
            Length::Shrink | Length::Fixed(_) => Length::Shrink,
        }
    }

    /// Returns the fluid form of the policy.
    pub fn fluid(&self) -> (fluid: Length)
        ensures
            fluid == self.spec_fluid(),
    {
        match self {
            Length::Fill => Length::Fill,
            Length::FillPortion(_) => Length::Fill,
            Length::Shrink => Length::Shrink,
            Length::Fixed(_) => Length::Shrink,
        }
    }
}

/// A policy for each axis.
#[derive(Clone, Copy, PartialEq, Eq, Debug, Structural)]
pub struct Size {
    pub width: Length,
    pub height: Length,
}

/// Room left free on each side of the content.
#[derive(Clone, Copy, PartialEq, Eq, Debug, Structural)]
pub struct Padding {
    pub top: u16,
    pub right: u16,
    pub bottom: u16,
    pub left: u16,
}

/// The inset of a button that was given none: 6 units above and below,
/// 20 units left and right.
pub open spec fn spec_default_padding() -> Padding {
    Padding { top: 6, right: 20, bottom: 6, left: 20 }
}

/// Returns the inset of a button that was given none.
#[verifier::when_used_as_spec(spec_default_padding)]
pub fn default_padding() -> (padding: Padding)
    ensures
        padding == spec_default_padding(),
{
    Padding { top: 6, right: 20, bottom: 6, left: 20 }
}

} // verus!
