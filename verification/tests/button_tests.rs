use muilib::button::title_origin;
use muilib::{
    point2, Bounds, ButtonEventKind, ButtonState, ButtonStateStyle, ButtonStyle, LineWidth,
    MouseButton, Scalar,
};

fn s(value: i32) -> Scalar {
    Scalar::from_int(value)
}

fn style(font_size: i32, fill: u32) -> ButtonStateStyle<u32> {
    ButtonStateStyle {
        line_width: LineWidth::Uniform(s(1)),
        font_size: s(font_size),
        text: 0xffffff,
        fill,
        line: 0,
    }
}

#[test]
fn every_state_has_its_style() {
    let styles = ButtonStyle {
        idle_style: style(10, 1),
        hovered_style: style(11, 2),
        clicked_style: style(12, 3),
    };
    assert_eq!(styles.style_for(ButtonState::Idle), style(10, 1));
    assert_eq!(styles.style_for(ButtonState::Hovered), style(11, 2));
    assert_eq!(styles.style_for(ButtonState::Clicked), style(12, 3));
}

#[test]
fn title_sits_in_the_middle() {
    let bounding_box = Bounds::from_scalars(s(10), s(20), s(100), s(30));
    // Six glyphs five wide and ten high: 30 by 10.
    let origin = title_origin(bounding_box, 6, Scalar::half(), s(10));
    assert_eq!(origin, point2(s(45), s(30)));
    // A title that is wider than the box begins before it.
    let origin = title_origin(bounding_box, 30, Scalar::half(), s(10));
    assert_eq!(origin, point2(s(-15), s(30)));
}

#[test]
fn button_events_name_their_button() {
    let down = ButtonEventKind::ButtonDown { button: MouseButton::Left };
    assert_ne!(down, ButtonEventKind::ButtonDown { button: MouseButton::Right });
    assert_ne!(
        ButtonEventKind::ButtonUp { button: MouseButton::Left, inside: true },
        ButtonEventKind::ButtonUp { button: MouseButton::Left, inside: false }
    );
    assert_ne!(ButtonEventKind::HoveringStart, ButtonEventKind::HoveringFinish);
}
