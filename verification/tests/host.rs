use iced::mouse::Cursor;
use iced::{Point, Rectangle};
use iced_aero::button::AeroButton;
use iced_aero::event::{classify, Button, Capture, Event, Source};
use iced_aero::geometry::{Length, Size};
use iced_aero::host::content_viewport;
use iced_aero::message::Message;
use iced_aero::status::{State, Status};

type Plain = AeroButton<Message, fn() -> Message>;

fn clickable() -> Plain {
    Plain::new(Size { width: Length::Shrink, height: Length::Shrink }).on_press(Message::ButtonPressed)
}

fn bounds() -> Rectangle {
    Rectangle { x: 10.0, y: 20.0, width: 100.0, height: 30.0 }
}

fn at(x: f32, y: f32) -> Cursor {
    Cursor::Available(Point::new(x, y))
}

#[test]
fn only_the_left_button_and_fingers_count() {
    assert_eq!(classify(Source::ButtonPressed(Button::Left)), Event::Pressed);
    assert_eq!(classify(Source::ButtonReleased(Button::Left)), Event::Released);
    assert_eq!(classify(Source::FingerPressed), Event::Pressed);
    assert_eq!(classify(Source::FingerLifted), Event::Released);
    assert_eq!(classify(Source::FingerLost), Event::Lost);
    assert_eq!(classify(Source::RedrawRequested), Event::RedrawRequested);
    assert_eq!(classify(Source::Other), Event::Other);
    for button in [Button::Right, Button::Middle, Button::Back, Button::Forward, Button::Other(7)] {
        assert_eq!(classify(Source::ButtonPressed(button)), Event::Other);
        assert_eq!(classify(Source::ButtonReleased(button)), Event::Other);
    }
}

#[test]
fn status_follows_the_cursor() {
    let button = clickable();
    let idle = State { is_pressed: false };
    assert_eq!(button.status_at(idle, at(50.0, 30.0), bounds()), Status::Hovered);
    assert_eq!(button.status_at(idle, at(10.0, 20.0), bounds()), Status::Hovered);
    assert_eq!(button.status_at(idle, at(110.0, 30.0), bounds()), Status::Active);
    assert_eq!(button.status_at(idle, at(50.0, 50.0), bounds()), Status::Active);
    assert_eq!(button.status_at(idle, at(5.0, 30.0), bounds()), Status::Active);
    assert_eq!(button.status_at(idle, Cursor::Unavailable, bounds()), Status::Active);
    let held = State { is_pressed: true };
    assert_eq!(button.status_at(held, Cursor::Unavailable, bounds()), Status::Pressed);
}

#[test]
fn click_with_the_cursor_over_the_bounds_publishes() {
    let mut button = clickable();
    let mut state = State::default();
    let inside = at(60.0, 35.0);

    let out = button.on_event_at(&mut state, false, Source::ButtonPressed(Button::Left), inside, bounds());
    assert_eq!(out.capture, Capture::Captured);
    assert!(state.is_pressed);
    assert!(out.published.is_none());

    let out = button.on_event_at(&mut state, false, Source::ButtonReleased(Button::Left), inside, bounds());
    assert_eq!(out.capture, Capture::Captured);
    assert_eq!(out.published, Some(Message::ButtonPressed));
    assert!(!state.is_pressed);
}

#[test]
fn press_with_the_cursor_elsewhere_is_ignored() {
    let mut button = clickable();
    let mut state = State::default();
    let out = button.on_event_at(&mut state, false, Source::ButtonPressed(Button::Left), at(0.0, 0.0), bounds());
    assert_eq!(out.capture, Capture::Ignored);
    assert!(!state.is_pressed);

    let out = button.on_event_at(&mut state, false, Source::FingerPressed, Cursor::Unavailable, bounds());
    assert_eq!(out.capture, Capture::Ignored);
    assert!(!state.is_pressed);
}

#[test]
fn drag_out_and_release_publishes_nothing() {
    let mut button = clickable();
    let mut state = State::default();
    button.on_event_at(&mut state, false, Source::FingerPressed, at(60.0, 35.0), bounds());
    assert!(state.is_pressed);
    let out = button.on_event_at(&mut state, false, Source::Other, at(300.0, 35.0), bounds());
    assert_eq!(out.capture, Capture::Ignored);
    assert!(state.is_pressed);
    let out = button.on_event_at(&mut state, false, Source::FingerLifted, at(300.0, 35.0), bounds());
    assert_eq!(out.capture, Capture::Captured);
    assert!(out.published.is_none());
    assert!(!state.is_pressed);
}

#[test]
fn other_buttons_do_not_press() {
    let mut button = clickable();
    let mut state = State::default();
    let out = button.on_event_at(&mut state, false, Source::ButtonPressed(Button::Right), at(60.0, 35.0), bounds());
    assert_eq!(out.capture, Capture::Ignored);
    assert!(!state.is_pressed);
}

#[test]
fn content_that_consumed_the_event_shields_the_button() {
    let mut button = clickable();
    let mut state = State::default();
    let out = button.on_event_at(&mut state, true, Source::ButtonPressed(Button::Left), at(60.0, 35.0), bounds());
    assert_eq!(out.capture, Capture::Captured);
    assert!(!state.is_pressed);
    assert!(out.published.is_none());
}

#[test]
fn clipping_keeps_what_bounds_and_viewport_share() {
    let viewport = Rectangle { x: 0.0, y: 0.0, width: 50.0, height: 40.0 };
    let within = content_viewport(true, &bounds(), &viewport);
    assert_eq!(within, Rectangle { x: 10.0, y: 20.0, width: 40.0, height: 20.0 });
}

#[test]
fn clipping_to_bounds_off_the_viewport_keeps_the_viewport() {
    let viewport = Rectangle { x: 200.0, y: 200.0, width: 50.0, height: 40.0 };
    assert_eq!(content_viewport(true, &bounds(), &viewport), viewport);
}

#[test]
fn without_clipping_the_viewport_stays() {
    let viewport = Rectangle { x: 0.0, y: 0.0, width: 50.0, height: 40.0 };
    assert_eq!(content_viewport(false, &bounds(), &viewport), viewport);
    let far = Rectangle { x: 200.0, y: 200.0, width: 50.0, height: 40.0 };
    assert_eq!(content_viewport(false, &bounds(), &far), far);
}
