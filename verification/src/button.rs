//! The button's descriptor: what a view builds anew for every frame.

use vstd::prelude::*;
use crate::event::{classify, event_of, Capture, Source};
use crate::host::{cursor_over, is_over};
use crate::geometry::{default_padding, spec_default_padding, Length, Padding, Size};
use crate::on_press::OnPress;
use crate::status::{current_status, status_of, State, Status};
use crate::style::{draw_plan, draw_plan_of, DrawPlan};
use crate::transition::{transition, transition_of, Input};

verus! {

/// A push button around some content. The content itself stays with the
/// host; the descriptor holds what the button's rules read.
pub struct AeroButton<Message, F> {
    pub on_press: Option<OnPress<Message, F>>,
    pub width: Length,
    pub height: Length,
    pub padding: Padding,
    pub clip: bool,
    /// The status settled at the last frame boundary, if there was one.
    pub status: Option<Status>,
}

/// What handling one event comes to.
pub struct Outcome<Message> {
    pub capture: Capture,
    /// The message to hand to the application, if the event was a click.
    pub published: Option<Message>,
    /// The host is to paint again on the next frame.
    pub redraw_requested: bool,
}

impl<Message: Clone, F: Fn() -> Message> AeroButton<Message, F> {
    /// A handler is set.
    pub open spec fn has_handler(&self) -> bool {
        self.on_press is Some
    }

    /// The handler, if one is set, may be asked for its message.
    pub open spec fn handler_callable(&self) -> bool {
        self.on_press matches Some(handler) ==> handler.callable()
    }

    /// The button as it is first built around content with the given size
    /// hint: no handler, the hint's fluid policies, the default inset, no
    /// clipping, no status yet.
    pub open spec fn fresh(size_hint: Size) -> Self {
        AeroButton {
            on_press: None,
            width: size_hint.width.spec_fluid(),
            height: size_hint.height.spec_fluid(),
            padding: spec_default_padding(),
            clip: false,
            status: None,
        }
    }

    /// Builds a button around content with the given size hint.
    pub fn new(size_hint: Size) -> (button: Self)
        ensures
            button == Self::fresh(size_hint),
    {
        AeroButton {
            on_press: None,
            width: size_hint.width.fluid(),
            height: size_hint.height.fluid(),
            padding: default_padding(),
            clip: false,
            status: None,
        }
    }

    /// Sets the width policy.
    pub fn width(self, width: Length) -> (button: Self)
        ensures
            button == (AeroButton { width, ..self }),
    {
        let mut button = self;
        button.width = width;
        button
    }

    /// Sets the height policy.
    pub fn height(self, height: Length) -> (button: Self)
        ensures
            button == (AeroButton { height, ..self }),
    {
        let mut button = self;
        button.height = height;
        button
    }

    /// Sets the inset.
    pub fn padding(self, padding: Padding) -> (button: Self)
        ensures
            button == (AeroButton { padding, ..self }),
    {
        let mut button = self;
        button.padding = padding;
        button
    }

    /// Sets a fixed message as the handler.
    pub fn on_press(self, on_press: Message) -> (button: Self)
        ensures
            button == (AeroButton { on_press: Some(OnPress::Direct(on_press)), ..self }),
    {
        let mut button = self;
        button.on_press = Some(OnPress::Direct(on_press));
        button
    }

    /// Sets a producer, asked at click time, as the handler.
    pub fn on_press_with(self, on_press: F) -> (button: Self)
        ensures
            button == (AeroButton { on_press: Some(OnPress::Closure(on_press)), ..self }),
    {
        let mut button = self;
        button.on_press = Some(OnPress::Closure(on_press));
        button
    }

    /// Sets a fixed message as the handler, or removes the handler.
    pub fn on_press_maybe(self, on_press: Option<Message>) -> (button: Self)
        ensures
            button == (AeroButton {
                on_press: match on_press {
                    Some(message) => Some(OnPress::Direct(message)),
                    None => None,
                },
                ..self
            }),
    {
        let mut button = self;
        button.on_press = match on_press {
            Some(message) => Some(OnPress::Direct(message)),
            None => None,
        };
        button
    }

    /// Sets whether the content is clipped to the button's bounds.
    pub fn clip(self, clip: bool) -> (button: Self)
        ensures
            button == (AeroButton { clip, ..self }),
    {
        let mut button = self;
        button.clip = clip;
        button
    }

    /// The state a button starts with: not pressed.
    pub fn state(&self) -> (state: State)
        ensures
            state == (State { is_pressed: false }),
    {
        State { is_pressed: false }
    }

    /// The button's own size hint: it never asks for more than its content
    /// needs, whatever width and height were set.
    pub fn size(&self) -> (size: Size)
        ensures
            size == (Size { width: Length::Shrink, height: Length::Shrink }),
    {
        Size { width: Length::Shrink, height: Length::Shrink }
    }

    /// The status of the moment.
    pub fn current_status(&self, state: State, over: bool) -> (status: Status)
        ensures
            status == status_of(self.has_handler(), state.is_pressed, over),
    {
        current_status(self.on_press.is_some(), state, over)
    }

    /// What to paint: the plan of the settled status. A button that has
    /// settled none yet is painted as an active one.
    pub fn draw(&self) -> (plan: DrawPlan)
        ensures
            plan == draw_plan_of(self.status, self.clip),
    {
        draw_plan(self.status, self.clip)
    }

    /// What handling `input` owes: the button unchanged but for the settled
    /// status, the pressed flag, the capture and the redraw request as the
    /// transition has them, and a message exactly when the transition
    /// publishes, which is then one that the handler yields.
    pub open spec fn handled(
        before: Self,
        was_pressed: bool,
        input: Input,
        after: Self,
        is_pressed: bool,
        out: Outcome<Message>,
    ) -> bool {
        let t = transition_of(before.has_handler(), was_pressed, before.status, input);
        &&& after == (AeroButton { status: t.status, ..before })
        &&& is_pressed == t.is_pressed
        &&& out.capture == t.capture
        &&& out.redraw_requested == t.redraw
        &&& out.published is Some <==> t.publish
        &&& out.published matches Some(message) ==> before.on_press matches Some(handler)
            && handler.yields(message)
    }

    /// Handles one event: updates the pressed flag and the settled status,
    /// and says whether the event was consumed, which message to publish and
    /// whether to paint again.
    pub fn on_event(&mut self, state: &mut State, input: Input) -> (out: Outcome<Message>)
        requires
            old(self).handler_callable(),
        ensures
            Self::handled(
                *old(self),
                old(state).is_pressed,
                input,
                *final(self),
                final(state).is_pressed,
                out,
            ),
    {
        let t = transition(self.on_press.is_some(), *state, self.status, input);
        let published = if t.publish {
            match &self.on_press {
                Some(handler) => Some(handler.get()),
                None => None,
            }
        } else {
            None
        };
        state.is_pressed = t.is_pressed;
        self.status = t.status;
        Outcome { capture: t.capture, published, redraw_requested: t.redraw }
    }

    /// Handles one event as a host reports it: sorts the report, asks the
    /// host's cursor whether it is over `bounds`, and handles the event so
    /// described.
    pub fn on_event_at(
        &mut self,
        state: &mut State,
        child_captured: bool,
        source: Source,
        cursor: iced::mouse::Cursor,
        bounds: iced::Rectangle,
    ) -> (out: Outcome<Message>)
        requires
            old(self).handler_callable(),
        ensures
            Self::handled(
                *old(self),
                old(state).is_pressed,
                (Input {
                    event: event_of(source),
                    over: cursor_over(cursor, bounds),
                    child_captured,
                }),
                *final(self),
                final(state).is_pressed,
                out,
            ),
    {
        let input = Input {
            event: classify(source),
            over: is_over(cursor, bounds),
            child_captured,
        };
        self.on_event(state, input)
    }

    /// The status of the moment, for a host's cursor and the button's bounds.
    pub fn status_at(&self, state: State, cursor: iced::mouse::Cursor, bounds: iced::Rectangle) -> (status:
        Status)
        ensures
            status == status_of(self.has_handler(), state.is_pressed, cursor_over(cursor, bounds)),
    {
        current_status(self.on_press.is_some(), state, is_over(cursor, bounds))
    }
}

/// A button around content with the given size hint.
pub fn aero_button<Message: Clone, F: Fn() -> Message>(size_hint: Size) -> (button: AeroButton<
    Message,
    F,
>)
    ensures
        button == AeroButton::<Message, F>::fresh(size_hint),
{
    AeroButton::new(size_hint)
}

} // verus!
