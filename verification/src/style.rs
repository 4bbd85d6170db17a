//! What a button is painted with, by status.
//!
//! Colour channels run from 0 to 255, insets are tenths of a unit and
//! gradient offsets are hundredths of the painted height.

use vstd::prelude::*;
use crate::status::Status;

verus! {

/// An opaque colour.
#[derive(Clone, Copy, PartialEq, Eq, Debug, Structural)]
pub struct Rgb {
    pub r: u8,
    pub g: u8,
    pub b: u8,
}

/// One stop of a gradient: a colour and where it sits, in hundredths.
#[derive(Clone, Copy, PartialEq, Eq, Debug, Structural)]
pub struct ColorStop {
    pub offset: u8,
    pub color: Rgb,
}

/// A vertical linear gradient of four stops.
#[derive(Clone, Copy, PartialEq, Eq, Debug, Structural)]
pub struct Gradient {
    pub top: ColorStop,
    pub upper: ColorStop,
    pub lower: ColorStop,
    pub bottom: ColorStop,
}

/// What a quad is filled with.
#[derive(Clone, Copy, PartialEq, Eq, Debug, Structural)]
pub enum Fill {
    Solid(Rgb),
    Linear(Gradient),
}

/// The quad that covers the whole button.
#[derive(Clone, Copy, PartialEq, Eq, Debug, Structural)]
pub struct OuterQuad {
    pub border_color: Rgb,
    /// Border width, in units.
    pub border_width: u8,
    /// Corner radius, in units.
    pub radius: u8,
    pub fill: Rgb,
}

/// The quad laid over the outer one, moved right and down by the offsets
/// and narrower and shorter than the button by `shrink`.
#[derive(Clone, Copy, PartialEq, Eq, Debug, Structural)]
pub struct InnerQuad {
    /// Distance from the button's left edge, in tenths of a unit.
    pub offset_x: u8,
    /// Distance from the button's top edge, in tenths of a unit.
    pub offset_y: u8,
    /// What the quad is narrower and shorter by, in tenths of a unit.
    pub shrink: u8,
    /// Corner radius, in units.
    pub radius: u8,
    pub fill: Fill,
}

/// All that is painted for a button, in painting order: the outer quad, the
/// inner quad, then the content, clipped to the button's bounds or not.
#[derive(Clone, Copy, PartialEq, Eq, Debug, Structural)]
pub struct DrawPlan {
    pub outer: OuterQuad,
    pub inner: InnerQuad,
    pub clip_content: bool,
}

pub open spec fn rgb(r: u8, g: u8, b: u8) -> Rgb {
    Rgb { r, g, b }
}

/// The stops of every gradient sit at 0, 49, 50 and 100 hundredths: an
/// abrupt change of shade at the middle.
pub open spec fn glass(top: Rgb, upper: Rgb, lower: Rgb, bottom: Rgb) -> Gradient {
    Gradient {
        top: ColorStop { offset: 0, color: top },
        upper: ColorStop { offset: 49, color: upper },
        lower: ColorStop { offset: 50, color: lower },
        bottom: ColorStop { offset: 100, color: bottom },
    }
}

/// The border colour of each status. A button whose status was never
/// settled is painted as an active one.
pub open spec fn border_color_of(status: Option<Status>) -> Rgb {
    match status {
        Some(Status::Hovered) => rgb(72, 135, 182),
        Some(Status::Pressed) => rgb(109, 145, 171),
        Some(Status::Disabled) => rgb(173, 178, 181),
        _ => rgb(107, 107, 107),
    }
}

/// The outer quad's fill: its own shade while pressed, white otherwise.
pub open spec fn outer_fill_of(status: Option<Status>) -> Rgb {
    if status == Some(Status::Pressed) {
        rgb(109, 145, 171)
    } else {
        rgb(255, 255, 255)
    }
}

/// The inner quad's fill of each status.
pub open spec fn inner_fill_of(status: Option<Status>) -> Fill {
    match status {
        Some(Status::Hovered) => Fill::Linear(
            glass(rgb(169, 219, 246), rgb(190, 230, 253), rgb(220, 241, 252), rgb(240, 249, 253)),
        ),
        Some(Status::Pressed) => Fill::Linear(
            glass(rgb(108, 182, 221), rgb(146, 205, 237), rgb(196, 229, 246), rgb(215, 232, 242)),
        ),
        Some(Status::Disabled) => Fill::Solid(rgb(244, 244, 244)),
        _ => Fill::Linear(
            glass(rgb(208, 208, 208), rgb(220, 220, 220), rgb(234, 234, 234), rgb(242, 242, 242)),
        ),
    }
}

/// The outer quad of each status: a border of 1 unit, corners of 4.
pub open spec fn outer_quad_of(status: Option<Status>) -> OuterQuad {
    OuterQuad {
        border_color: border_color_of(status),
        border_width: 1,
        radius: 4,
        fill: outer_fill_of(status),
    }
}

/// The inner quad of each status: 2 units in from every side, corners of 3;
/// while pressed it sits 2.5 units from the left and 2.3 from the top.
pub open spec fn inner_quad_of(status: Option<Status>) -> InnerQuad {
    InnerQuad {
        offset_x: if status == Some(Status::Pressed) { 25 } else { 20 },
        offset_y: if status == Some(Status::Pressed) { 23 } else { 20 },
        shrink: 40,
        radius: 3,
        fill: inner_fill_of(status),
    }
}

/// The whole plan for a status and a clip flag.
pub open spec fn draw_plan_of(status: Option<Status>, clip: bool) -> DrawPlan {
    DrawPlan { outer: outer_quad_of(status), inner: inner_quad_of(status), clip_content: clip }
}

/// A gradient whose stops are in order and span the whole height.
pub open spec fn well_formed_gradient(g: Gradient) -> bool {
    &&& g.top.offset == 0
    &&& g.top.offset <= g.upper.offset
    &&& g.upper.offset <= g.lower.offset
    &&& g.lower.offset <= g.bottom.offset
    &&& g.bottom.offset == 100
}

/// The inner quad stays inside the outer one however large the button is:
/// it starts no further in than it is shrunk by in all.
pub open spec fn inner_within_outer(q: InnerQuad) -> bool {
    q.offset_x <= q.shrink && q.offset_y <= q.shrink
}

fn color(r: u8, g: u8, b: u8) -> (c: Rgb)
    ensures
        c == rgb(r, g, b),
{
    Rgb { r, g, b }
}

fn glass_gradient(top: Rgb, upper: Rgb, lower: Rgb, bottom: Rgb) -> (g: Gradient)
    ensures
        g == glass(top, upper, lower, bottom),
        well_formed_gradient(g),
{
    Gradient {
        top: ColorStop { offset: 0, color: top },
        upper: ColorStop { offset: 49, color: upper },
        lower: ColorStop { offset: 50, color: lower },
        bottom: ColorStop { offset: 100, color: bottom },
    }
}

/// The outer quad for a status.
pub fn outer_quad(status: Option<Status>) -> (quad: OuterQuad)
    ensures
        quad == outer_quad_of(status),
{
    let pressed_shade = color(109, 145, 171);
    let (border_color, fill) = match status {
        Some(Status::Hovered) => (color(72, 135, 182), color(255, 255, 255)),
        Some(Status::Pressed) => (pressed_shade, pressed_shade),
        Some(Status::Disabled) => (color(173, 178, 181), color(255, 255, 255)),
        Some(Status::Active) | None => (color(107, 107, 107), color(255, 255, 255)),
    };
    OuterQuad { border_color, border_width: 1, radius: 4, fill }
}

/// The inner quad for a status.
pub fn inner_quad(status: Option<Status>) -> (quad: InnerQuad)
    ensures
        quad == inner_quad_of(status),
        inner_within_outer(quad),
        quad.fill matches Fill::Linear(g) ==> well_formed_gradient(g),
{
    let (offset_x, offset_y, fill): (u8, u8, Fill) = match status {
        Some(Status::Hovered) => (
            20,
            20,
            Fill::Linear(
                glass_gradient(
                    color(169, 219, 246),
                    color(190, 230, 253),
                    color(220, 241, 252),
                    color(240, 249, 253),
                ),
            ),
        ),
        Some(Status::Pressed) => (
            25,
            23,
            Fill::Linear(
                glass_gradient(
                    color(108, 182, 221),
                    color(146, 205, 237),
                    color(196, 229, 246),
                    color(215, 232, 242),
                ),
            ),
        ),
        Some(Status::Disabled) => (20, 20, Fill::Solid(color(244, 244, 244))),
        Some(Status::Active) | None => (
            20,
            20,
            Fill::Linear(
                glass_gradient(
                    color(208, 208, 208),
                    color(220, 220, 220),
                    color(234, 234, 234),
                    color(242, 242, 242),
                ),
            ),
        ),
    };
    InnerQuad { offset_x, offset_y, shrink: 40, radius: 3, fill }
}

/// Everything to paint for a status and a clip flag.
pub fn draw_plan(status: Option<Status>, clip: bool) -> (plan: DrawPlan)
    ensures
        plan == draw_plan_of(status, clip),
{
    DrawPlan { outer: outer_quad(status), inner: inner_quad(status), clip_content: clip }
}

} // verus!
