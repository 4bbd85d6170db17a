//! What the host toolkit computes on its own values: whether its cursor is
//! over a rectangle, and where two rectangles overlap.

use vstd::prelude::*;

verus! {

/// The toolkit's cursor: a position, or none while the pointer is away.
#[verifier::external_type_specification]
#[verifier::external_body]
pub struct ExCursor(iced::mouse::Cursor);

/// The toolkit's axis-aligned rectangle.
#[verifier::external_type_specification]
#[verifier::external_body]
#[verifier::reject_recursive_types(T)]
pub struct ExRectangle<T>(iced::Rectangle<T>);

/// Whether the toolkit finds `cursor` over `bounds`: what
/// `iced::mouse::Cursor::is_over` answers for the two.
pub uninterp spec fn cursor_over(cursor: iced::mouse::Cursor, bounds: iced::Rectangle) -> bool;

/// The part that two rectangles share, if they share any: what
/// `iced::Rectangle::intersection` answers for the two.
pub uninterp spec fn overlap(first: iced::Rectangle, second: iced::Rectangle) -> Option<
    iced::Rectangle,
>;

/// Calls `iced::mouse::Cursor::is_over`. The toolkit compares the cursor's
/// position, if it has one, with the rectangle's edges; the answer depends
/// on the two arguments alone, and that is all the contract claims of it.
#[verifier::external_body]
pub(crate) fn is_over(cursor: iced::mouse::Cursor, bounds: iced::Rectangle) -> (over: bool)
    ensures
        over == cursor_over(cursor, bounds),
{
    cursor.is_over(bounds)
}

/// Calls `iced::Rectangle::intersection`. The toolkit computes the shared
/// part from the edges of the two rectangles and answers `None` where it
/// has no width or no height; the answer depends on the two arguments
/// alone, and that is all the contract claims of it.
#[verifier::external_body]
pub(crate) fn intersection(first: &iced::Rectangle, second: &iced::Rectangle) -> (shared: Option<
    iced::Rectangle,
>)
    ensures
        shared == overlap(*first, *second),
{
    first.intersection(second)
}

/// The viewport that clipping the content to `bounds` leaves of `viewport`:
/// what the two share, or all of `viewport` where they share nothing.
pub open spec fn clipped_to(bounds: iced::Rectangle, viewport: iced::Rectangle) -> iced::Rectangle {
    match overlap(bounds, viewport) {
        Some(shared) => shared,
        None => viewport,
    }
}

/// The viewport to paint the content in: `viewport` clipped to `bounds`
/// when `clip` is set, `viewport` as it is otherwise.
pub fn content_viewport(clip: bool, bounds: &iced::Rectangle, viewport: &iced::Rectangle) -> (within:
    iced::Rectangle)
    ensures
        within == if clip {
            clipped_to(*bounds, *viewport)
        } else {
            *viewport
        },
{
    if clip {
        match intersection(bounds, viewport) {
            Some(shared) => shared,
            None => *viewport,
        }
    } else {
        *viewport
    }
}

} // verus!
