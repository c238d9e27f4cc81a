//! Core of a small user-interface toolkit: geometry, the two-phase layout
//! protocol with its containers, and the routing of mouse events.
//!
//! All lengths and coordinates are fixed-point [`Scalar`]s.
pub mod axis;
pub mod bounds;
pub mod button;
pub mod event_router;
pub mod font;
pub mod image_view;
pub mod layout;
pub mod line_width;
pub mod scalar;
pub mod stack;
pub mod stack_laws;
pub mod stack_view;
pub mod text;
pub mod util_views;
pub mod utils;
pub mod view;
pub mod zstack;
pub mod zstack_laws;

pub use crate::axis::Axis;
pub use crate::bounds::{point2, vec2, Bounds, Point2, RectSize, Vector2};
pub use crate::button::{ButtonEventKind, ButtonState, ButtonStateStyle, ButtonStyle};
pub use crate::event_router::{
    Delivery,
    ElementState,
    EventRouter,
    EventRouterDispatch,
    Listener,
    ListenerHandle,
    ListenerState,
    MouseButton,
    MouseEvent,
    MouseEventKind,
    MouseEventListener,
    WindowEvent,
};
pub use crate::font::{Font, FontMetaJson};
pub use crate::image_view::ImageView;
pub use crate::layout::{Container, LayoutPass, Spacer, Stack, StackBuilder, Subview};
pub use crate::line_width::LineWidth;
pub use crate::scalar::Scalar;
pub use crate::stack::{StackAlignment, StackLayout, StackPaddingType};
pub use crate::stack_view::{StackView, ZStackView};
pub use crate::text::TextView;
pub use crate::util_views::{
    ContainerLayout,
    ContainerPadding,
    ContainerView,
    SpacerView,
    SpreadAxis,
    SpreadView,
    ViewExt,
};
pub use crate::view::View;
pub use crate::zstack::ZStackLayout;
