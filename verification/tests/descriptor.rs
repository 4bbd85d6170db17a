use iced_aero::button::AeroButton;
use iced_aero::geometry::{default_padding, Length, Padding, Size};
use iced_aero::message::Message;
use iced_aero::on_press::OnPress;
use iced_aero::status::{State, Status};
use iced_aero::style::{
    draw_plan, inner_quad, outer_quad, ColorStop, DrawPlan, Fill, Gradient, InnerQuad, OuterQuad,
    Rgb,
};

type Plain = AeroButton<Message, fn() -> Message>;

fn rgb(r: u8, g: u8, b: u8) -> Rgb {
    Rgb { r, g, b }
}

fn glass(colors: [Rgb; 4]) -> Fill {
    Fill::Linear(Gradient {
        top: ColorStop { offset: 0, color: colors[0] },
        upper: ColorStop { offset: 49, color: colors[1] },
        lower: ColorStop { offset: 50, color: colors[2] },
        bottom: ColorStop { offset: 100, color: colors[3] },
    })
}

#[test]
fn new_button_has_defaults() {
    let button = Plain::new(Size { width: Length::Fixed(80), height: Length::FillPortion(3) });
    assert!(button.on_press.is_none());
    assert_eq!(button.width, Length::Shrink);
    assert_eq!(button.height, Length::Fill);
    assert_eq!(button.padding, Padding { top: 6, right: 20, bottom: 6, left: 20 });
    assert_eq!(button.padding, default_padding());
    assert!(!button.clip);
    assert_eq!(button.status, None);
}

#[test]
fn fluid_keeps_only_whether_the_policy_fills() {
    assert_eq!(Length::Fill.fluid(), Length::Fill);
    assert_eq!(Length::FillPortion(2).fluid(), Length::Fill);
    assert_eq!(Length::Shrink.fluid(), Length::Shrink);
    assert_eq!(Length::Fixed(120).fluid(), Length::Shrink);
}

#[test]
fn builders_set_one_field_each() {
    let hint = Size { width: Length::Shrink, height: Length::Shrink };
    let button = Plain::new(hint)
        .width(Length::Fill)
        .height(Length::Fixed(32))
        .padding(Padding { top: 1, right: 2, bottom: 3, left: 4 })
        .clip(true);
    assert_eq!(button.width, Length::Fill);
    assert_eq!(button.height, Length::Fixed(32));
    assert_eq!(button.padding, Padding { top: 1, right: 2, bottom: 3, left: 4 });
    assert!(button.clip);
    assert!(button.on_press.is_none());
    assert_eq!(button.status, None);
}

#[test]
fn handler_builders() {
    let hint = Size { width: Length::Shrink, height: Length::Shrink };
    let button = Plain::new(hint).on_press(Message::ButtonPressed);
    assert!(matches!(button.on_press, Some(OnPress::Direct(Message::ButtonPressed))));

    let button = Plain::new(hint).on_press_maybe(Some(Message::ButtonPressed));
    assert!(matches!(button.on_press, Some(OnPress::Direct(Message::ButtonPressed))));

    let button = Plain::new(hint).on_press(Message::ButtonPressed).on_press_maybe(None);
    assert!(button.on_press.is_none());

    let producer: fn() -> Message = || Message::ButtonPressed;
    let button = Plain::new(hint).on_press_with(producer);
    assert!(matches!(button.on_press, Some(OnPress::Closure(_))));
}

#[test]
fn own_size_hint_is_shrink_whatever_was_set() {
    let hint = Size { width: Length::Fill, height: Length::Fill };
    let button = Plain::new(hint).width(Length::Fill).height(Length::Fixed(10));
    assert_eq!(button.size(), Size { width: Length::Shrink, height: Length::Shrink });
}

#[test]
fn initial_state_is_not_pressed() {
    let hint = Size { width: Length::Shrink, height: Length::Shrink };
    assert_eq!(Plain::new(hint).state(), State { is_pressed: false });
    assert_eq!(State::default(), State { is_pressed: false });
}

#[test]
fn outer_quad_by_status() {
    let white = rgb(255, 255, 255);
    assert_eq!(
        outer_quad(Some(Status::Hovered)),
        OuterQuad { border_color: rgb(72, 135, 182), border_width: 1, radius: 4, fill: white }
    );
    assert_eq!(
        outer_quad(Some(Status::Pressed)),
        OuterQuad {
            border_color: rgb(109, 145, 171),
            border_width: 1,
            radius: 4,
            fill: rgb(109, 145, 171),
        }
    );
    assert_eq!(
        outer_quad(Some(Status::Disabled)),
        OuterQuad { border_color: rgb(173, 178, 181), border_width: 1, radius: 4, fill: white }
    );
    assert_eq!(
        outer_quad(Some(Status::Active)),
        OuterQuad { border_color: rgb(107, 107, 107), border_width: 1, radius: 4, fill: white }
    );
}

#[test]
fn inner_quad_by_status() {
    assert_eq!(
        inner_quad(Some(Status::Hovered)),
        InnerQuad {
            offset_x: 20,
            offset_y: 20,
            shrink: 40,
            radius: 3,
            fill: glass([
                rgb(169, 219, 246),
                rgb(190, 230, 253),
                rgb(220, 241, 252),
                rgb(240, 249, 253),
            ]),
        }
    );
    assert_eq!(
        inner_quad(Some(Status::Pressed)),
        InnerQuad {
            offset_x: 25,
            offset_y: 23,
            shrink: 40,
            radius: 3,
            fill: glass([
                rgb(108, 182, 221),
                rgb(146, 205, 237),
                rgb(196, 229, 246),
                rgb(215, 232, 242),
            ]),
        }
    );
    assert_eq!(
        inner_quad(Some(Status::Disabled)),
        InnerQuad {
            offset_x: 20,
            offset_y: 20,
            shrink: 40,
            radius: 3,
            fill: Fill::Solid(rgb(244, 244, 244)),
        }
    );
    assert_eq!(
        inner_quad(Some(Status::Active)),
        InnerQuad {
            offset_x: 20,
            offset_y: 20,
            shrink: 40,
            radius: 3,
            fill: glass([
                rgb(208, 208, 208),
                rgb(220, 220, 220),
                rgb(234, 234, 234),
                rgb(242, 242, 242),
            ]),
        }
    );
}

#[test]
fn drawing_before_any_event_paints_an_active_button() {
    let hint = Size { width: Length::Shrink, height: Length::Shrink };
    let button = Plain::new(hint).on_press(Message::ButtonPressed);
    assert_eq!(button.status, None);
    assert_eq!(button.draw(), draw_plan(Some(Status::Active), false));
    assert_eq!(outer_quad(None), outer_quad(Some(Status::Active)));
    assert_eq!(inner_quad(None), inner_quad(Some(Status::Active)));
}

#[test]
fn draw_is_the_same_for_the_same_status() {
    for status in [Status::Active, Status::Hovered, Status::Pressed, Status::Disabled] {
        for clip in [false, true] {
            let first: DrawPlan = draw_plan(Some(status), clip);
            let second: DrawPlan = draw_plan(Some(status), clip);
            assert_eq!(first, second);
            assert_eq!(first.clip_content, clip);
            assert_eq!(first.outer, outer_quad(Some(status)));
            assert_eq!(first.inner, inner_quad(Some(status)));
        }
    }
}

#[test]
fn draw_uses_the_settled_status_and_clip_flag() {
    let hint = Size { width: Length::Shrink, height: Length::Shrink };
    let mut button = Plain::new(hint).on_press(Message::ButtonPressed).clip(true);
    button.status = Some(Status::Pressed);
    let plan = button.draw();
    assert!(plan.clip_content);
    assert_eq!(plan.outer.fill, rgb(109, 145, 171));
    assert_eq!(plan.inner.offset_x, 25);
    assert_eq!(plan.inner.offset_y, 23);
}

#[test]
fn statuses_differ_in_border_and_fill() {
    let all = [Status::Active, Status::Hovered, Status::Pressed, Status::Disabled];
    for a in all {
        for b in all {
            if a != b {
                assert_ne!(outer_quad(Some(a)).border_color, outer_quad(Some(b)).border_color);
                assert_ne!(inner_quad(Some(a)).fill, inner_quad(Some(b)).fill);
            }
        }
    }
}
