//! The states and styles of buttons.
use vstd::prelude::*;
use crate::bounds::{Bounds, Point2, RectSize};
use crate::event_router::MouseButton;
use crate::line_width::LineWidth;
use crate::scalar::Scalar;

verus! {

#[derive(Clone, Copy, Debug, PartialEq, Eq, Structural)]
pub enum ButtonState {
    Idle,
    Hovered,
    Clicked,
}

/// How a button looks in one of its states. The type of the colors is left to
/// the renderer.
#[derive(Clone, Copy, Debug, PartialEq, Eq)]
pub struct ButtonStateStyle<Color: Copy> {
    pub line_width: LineWidth,
    pub font_size: Scalar,
    pub text: Color,
    pub fill: Color,
    pub line: Color,
}

/// Button style for all `ButtonState`s.
#[derive(Clone, Copy, Debug, PartialEq, Eq)]
pub struct ButtonStyle<Color: Copy> {
    pub idle_style: ButtonStateStyle<Color>,
    pub hovered_style: ButtonStateStyle<Color>,
    pub clicked_style: ButtonStateStyle<Color>,
}

impl<Color: Copy> ButtonStyle<Color> {
    pub open spec fn style_for_spec(&self, state: ButtonState) -> ButtonStateStyle<Color> {
        match state {
            ButtonState::Idle => self.idle_style,
            ButtonState::Hovered => self.hovered_style,
            ButtonState::Clicked => self.clicked_style,
        }
    }

    /// The style of a button in the given state.
    #[verifier::when_used_as_spec(style_for_spec)]
    pub fn style_for(&self, state: ButtonState) -> (style: ButtonStateStyle<Color>)
        ensures
            style == self.style_for_spec(state),
    {
        match state {
            ButtonState::Idle => self.idle_style,
            ButtonState::Hovered => self.hovered_style,
            ButtonState::Clicked => self.clicked_style,
        }
    }
}

#[derive(Clone, Copy, Debug, PartialEq, Eq)]
pub enum ButtonEventKind {
    HoveringStart,
    HoveringFinish,
    ButtonDown { button: MouseButton },
    ButtonUp { button: MouseButton, inside: bool },
}

/// Where a title of `title_len` glyphs begins so that it sits in the middle of
/// `bounding_box`, as a single line in glyphs of height `font_size` whose width
/// is `glyph_relative_width` times their height.
pub open spec fn title_origin_spec(
    bounding_box: Bounds<Scalar>,
    title_len: usize,
    glyph_relative_width: Scalar,
    font_size: Scalar,
) -> Point2<Scalar> {
    let text_width = glyph_relative_width.mul_spec(font_size).times_spec(title_len);
    Point2 {
        x: bounding_box.origin.x.add_spec(
            (Scalar { raw: crate::scalar::HALF_RAW }).mul_spec(
                bounding_box.size.width.sub_spec(text_width),
            ),
        ),
        y: bounding_box.origin.y.add_spec(
            (Scalar { raw: crate::scalar::HALF_RAW }).mul_spec(
                bounding_box.size.height.sub_spec(font_size),
            ),
        ),
    }
}

#[verifier::when_used_as_spec(title_origin_spec)]
pub fn title_origin(
    bounding_box: Bounds<Scalar>,
    title_len: usize,
    glyph_relative_width: Scalar,
    font_size: Scalar,
) -> (origin: Point2<Scalar>)
    ensures
        origin == title_origin_spec(bounding_box, title_len, glyph_relative_width, font_size),
{
    let text_height = font_size;
    let text_width = glyph_relative_width.mul(text_height).times(title_len);
    let top_padding = Scalar::half().mul(bounding_box.size.height.sub(text_height));
    let left_padding = Scalar::half().mul(bounding_box.size.width.sub(text_width));
    Point2 {
        x: bounding_box.x_min().add(left_padding),
        y: bounding_box.y_min().add(top_padding),
    }
}

} // verus!
