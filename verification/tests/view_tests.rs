use muilib::{
    Axis, Bounds, ContainerPadding, ContainerView, ImageView, RectSize, Scalar, SpacerView, SpreadAxis,
    SpreadView, StackAlignment, StackPaddingType, StackView, View, ViewExt, ZStackView,
};

fn s(value: i32) -> Scalar {
    Scalar::from_int(value)
}

fn size(width: i32, height: i32) -> RectSize<Scalar> {
    RectSize::new(s(width), s(height))
}

fn rect(x: i32, y: i32, width: i32, height: i32) -> Bounds<Scalar> {
    Bounds::from_scalars(s(x), s(y), s(width), s(height))
}

/// A view that remembers what it was asked and told.
#[derive(Debug, Clone, PartialEq)]
struct Probe {
    preferred: RectSize<Scalar>,
    measured: usize,
    placed: Option<Bounds<Scalar>>,
}

impl Probe {
    fn new(width: i32, height: i32) -> Self {
        Probe { preferred: size(width, height), measured: 0, placed: None }
    }
}

impl View for Probe {
    fn preferred_size(&mut self) -> RectSize<Scalar> {
        self.measured += 1;
        self.preferred
    }

    fn apply_bounds(&mut self, bounds: Bounds<Scalar>) {
        self.placed = Some(bounds);
    }
}

#[test]
fn spacer_prefers_its_size_and_takes_any_bounds() {
    let mut spacer = SpacerView::new(size(3, 4));
    assert_eq!(spacer.preferred_size(), size(3, 4));
    spacer.apply_bounds(rect(0, 0, 1, 1));
    assert_eq!(spacer.size(), size(3, 4));
    spacer.set_size(size(5, 6));
    assert_eq!(spacer.preferred_size(), size(5, 6));
    *spacer.size_mut() = size(7, 8);
    assert_eq!(spacer.size(), size(7, 8));
    assert_eq!(spacer.with_size(size(1, 2)).size(), size(1, 2));
    let d: SpacerView = Default::default();
    assert_eq!(d.size(), size(0, 0));
}

#[test]
fn spread_view_asks_for_infinity_along_its_axis() {
    let mut h = SpreadView::horizontal(Probe::new(3, 4));
    assert_eq!(h.preferred_size(), RectSize::new(Scalar::infinity(), s(4)));
    let mut v = SpreadView::vertical(Probe::new(3, 4));
    assert_eq!(v.preferred_size(), RectSize::new(s(3), Scalar::infinity()));
    let mut b = SpreadView::both(Probe::new(3, 4));
    assert_eq!(b.preferred_size(), RectSize::new(Scalar::infinity(), Scalar::infinity()));
    assert_eq!(b.subview().measured, 1);
    assert_eq!(SpreadAxis::Both.spread(size(1, 2)), b.preferred_size());
}

#[test]
fn spread_view_hands_its_bounds_on() {
    let mut view = SpreadView::new(SpreadAxis::Horizontal, Probe::new(3, 4));
    view.apply_bounds(rect(1, 2, 30, 40));
    assert_eq!(view.subview().placed, Some(rect(1, 2, 30, 40)));
}

#[test]
fn spread_view_gives_access_to_axis_and_subview() {
    let mut view = SpreadView::new(SpreadAxis::Horizontal, Probe::new(3, 4));
    assert_eq!(view.axis(), SpreadAxis::Horizontal);
    view.set_axis(SpreadAxis::Vertical);
    assert_eq!(view.axis(), SpreadAxis::Vertical);
    *view.axis_mut() = SpreadAxis::Both;
    assert_eq!(view.axis(), SpreadAxis::Both);
    view.subview_mut().preferred = size(9, 9);
    assert_eq!(view.subview().preferred, size(9, 9));
    let view = view.with_axis(SpreadAxis::Horizontal);
    assert_eq!(view.axis(), SpreadAxis::Horizontal);
    assert_eq!(view.into_subview().preferred, size(9, 9));
}

#[test]
fn views_wrap_themselves() {
    let mut spread = Probe::new(3, 4).into_spread_view(SpreadAxis::Vertical);
    assert_eq!(spread.preferred_size(), RectSize::new(s(3), Scalar::infinity()));
    let mut container = Probe::new(3, 4).into_container_view();
    assert_eq!(container.preferred_size(), size(3, 4));
    let mut boxed = Probe::new(3, 4).into_box_dyn_view();
    assert_eq!(boxed.preferred_size(), size(3, 4));
    boxed.apply_bounds(rect(0, 0, 1, 1));
}

#[test]
fn container_view_measures_and_places_its_subview() {
    let mut view = ContainerView::new(Probe::new(10, 20))
        .with_padding_left(ContainerPadding::Fixed(s(2)))
        .with_padding_right(ContainerPadding::Fixed(s(3)))
        .with_padding_top(ContainerPadding::Fixed(s(1)))
        .with_padding_bottom(ContainerPadding::Fixed(s(4)));
    assert_eq!(view.subview_size, None);
    assert_eq!(view.preferred_size(), size(15, 25));
    assert_eq!(view.subview_size, Some(size(10, 20)));
    view.apply_bounds(rect(100, 200, 15, 25));
    assert_eq!(view.subview().placed, Some(rect(102, 201, 10, 20)));
    assert_eq!(view.subview().measured, 1);
}

#[test]
fn container_view_measures_late_when_it_must() {
    let mut view = ContainerView::new(Probe::new(10, 20)).with_padding(ContainerPadding::Spread);
    view.apply_bounds(rect(0, 0, 30, 50));
    assert_eq!(view.subview().measured, 1);
    assert_eq!(view.subview().placed, Some(rect(10, 15, 10, 20)));
    assert_eq!(view.subview_size, None);
}

#[test]
fn container_view_places_by_the_size_it_last_measured() {
    let mut view = ContainerView::new(Probe::new(10, 20));
    assert_eq!(view.preferred_size(), size(10, 20));
    view.subview_mut().preferred = size(1, 1);
    view.apply_bounds(rect(0, 0, 30, 50));
    assert_eq!(view.subview().placed, Some(rect(0, 0, 10, 20)));
}

#[test]
fn container_view_properties() {
    let mut view = ContainerView::new(Probe::new(1, 1));
    view.set_padding(ContainerPadding::Spread);
    assert_eq!(view.padding_left(), ContainerPadding::Spread);
    assert_eq!(view.padding_right(), ContainerPadding::Spread);
    assert_eq!(view.padding_top(), ContainerPadding::Spread);
    assert_eq!(view.padding_bottom(), ContainerPadding::Spread);
    view.set_padding_left(ContainerPadding::Fixed(s(1)));
    view.set_padding_right(ContainerPadding::Fixed(s(2)));
    view.set_padding_top(ContainerPadding::Fixed(s(3)));
    view.set_padding_bottom(ContainerPadding::Fixed(s(4)));
    assert_eq!(view.padding_left(), ContainerPadding::Fixed(s(1)));
    assert_eq!(view.padding_right(), ContainerPadding::Fixed(s(2)));
    assert_eq!(view.padding_top(), ContainerPadding::Fixed(s(3)));
    assert_eq!(view.padding_bottom(), ContainerPadding::Fixed(s(4)));
    *view.padding_left_mut() = ContainerPadding::Spread;
    *view.padding_right_mut() = ContainerPadding::Spread;
    *view.padding_top_mut() = ContainerPadding::Spread;
    *view.padding_bottom_mut() = ContainerPadding::Spread;
    assert_eq!(view.layout.padding_left, ContainerPadding::Spread);
    assert_eq!(view.layout.padding_bottom, ContainerPadding::Spread);
    assert_eq!(view.spread_ratio_horizontal(), Scalar::half());
    assert_eq!(view.spread_ratio_vertical(), Scalar::half());
    view.set_spread_ratio_horizontal(s(0));
    view.set_spread_ratio_vertical(s(1));
    assert_eq!(view.spread_ratio_horizontal(), s(0));
    assert_eq!(view.spread_ratio_vertical(), s(1));
    *view.spread_ratio_horizontal_mut() = s(1);
    *view.spread_ratio_vertical_mut() = s(0);
    let view = view
        .with_spread_ratio_horizontal(Scalar::half())
        .with_spread_ratio_vertical(Scalar::half());
    assert_eq!(view.spread_ratio_horizontal(), Scalar::half());
    assert_eq!(view.spread_ratio_vertical(), Scalar::half());
}

#[test]
fn stack_view_measures_every_subview() {
    let mut view = StackView::horizontal(vec![Probe::new(10, 5), Probe::new(20, 8)])
        .with_fixed_padding(Some(s(2)));
    assert_eq!(view.preferred_size(), size(32, 8));
    assert_eq!(view.subview_sizes, vec![size(10, 5), size(20, 8)]);
    assert_eq!(view.size, size(32, 8));
    assert_eq!(view.subview_length_alpha_total, s(30));
    assert_eq!(view.subviews[0].measured, 1);
    assert_eq!(view.subviews[1].measured, 1);
    // Measuring again gives the same answer.
    assert_eq!(view.preferred_size(), size(32, 8));
    assert_eq!(view.subview_sizes.len(), 2);
}

#[test]
fn stack_view_places_every_subview() {
    let mut view = StackView::vertical(vec![Probe::new(10, 5), Probe::new(20, 8)])
        .with_alignment(StackAlignment::Trailing)
        .with_padding_type(StackPaddingType::Omnipadded)
        .with_fixed_padding(Some(s(1)));
    assert_eq!(view.preferred_size(), size(20, 16));
    view.apply_bounds(rect(0, 0, 20, 16));
    assert_eq!(view.subviews[0].placed, Some(rect(10, 1, 10, 5)));
    assert_eq!(view.subviews[1].placed, Some(rect(0, 7, 20, 8)));
}

#[test]
fn stack_view_leaves_new_subviews_without_a_place() {
    let mut view = StackView::new(Axis::Horizontal, vec![Probe::new(10, 5), Probe::new(20, 8)]);
    assert_eq!(view.preferred_size(), size(30, 8));
    view.subviews.push(Probe::new(30, 3));
    view.apply_bounds(rect(0, 0, 30, 8));
    assert!(view.subviews[0].placed.is_some());
    assert!(view.subviews[1].placed.is_some());
    assert_eq!(view.subviews[2].placed, None);
    assert_eq!(view.subviews[2].measured, 0);
}

#[test]
fn stack_view_that_was_never_measured_places_nothing() {
    let mut view = StackView::horizontal(vec![Probe::new(10, 5)]);
    view.apply_bounds(rect(0, 0, 30, 8));
    assert_eq!(view.subviews[0].placed, None);
}

#[test]
fn stack_view_that_lost_subviews_places_the_rest_as_measured() {
    let mut view = StackView::horizontal(vec![Probe::new(10, 5), Probe::new(20, 8)])
        .with_alignment(StackAlignment::Leading);
    assert_eq!(view.preferred_size(), size(30, 8));
    view.subviews.pop();
    view.apply_bounds(rect(0, 0, 40, 8));
    // The padding is still shared as if both were there.
    assert_eq!(view.subviews[0].placed, Some(rect(0, 0, 10, 5)));
    assert_eq!(view.subview_sizes.len(), 2);
}

#[test]
fn stack_view_properties() {
    let mut view = StackView::horizontal(Vec::<Probe>::new());
    assert_eq!(view.axis(), Axis::Horizontal);
    assert_eq!(view.alignment(), StackAlignment::Center);
    assert_eq!(view.padding_type(), StackPaddingType::Interpadded);
    assert_eq!(view.fixed_padding(), None);
    view.set_axis(Axis::Vertical);
    view.set_alignment(StackAlignment::Leading);
    view.set_padding_type(StackPaddingType::Omnipadded);
    view.set_fixed_padding(Some(s(3)));
    assert_eq!(view.axis(), Axis::Vertical);
    assert_eq!(view.alignment(), StackAlignment::Leading);
    assert_eq!(view.padding_type(), StackPaddingType::Omnipadded);
    assert_eq!(view.fixed_padding(), Some(s(3)));
    *view.axis_mut() = Axis::Horizontal;
    *view.alignment_mut() = StackAlignment::Trailing;
    *view.padding_type_mut() = StackPaddingType::Interpadded;
    *view.fixed_padding_mut() = None;
    let view = view.with_axis(Axis::Vertical);
    assert_eq!(view.axis(), Axis::Vertical);
    assert_eq!(view.alignment(), StackAlignment::Trailing);
    assert_eq!(view.padding_type(), StackPaddingType::Interpadded);
    assert_eq!(view.fixed_padding(), None);
}

#[test]
fn zstack_view_measures_and_places() {
    let mut view = ZStackView::new(vec![Probe::new(10, 20), Probe::new(30, 5)])
        .with_alignment_horizontal(StackAlignment::Trailing)
        .with_alignment_vertical(StackAlignment::Leading);
    assert_eq!(view.size, None);
    assert_eq!(view.preferred_size(), size(30, 20));
    assert_eq!(view.size, Some(size(30, 20)));
    view.apply_bounds(rect(0, 0, 40, 40));
    assert_eq!(view.subviews[0].placed, Some(rect(30, 0, 10, 20)));
    assert_eq!(view.subviews[1].placed, Some(rect(10, 0, 30, 5)));
}

#[test]
fn zstack_view_measures_late_when_it_must() {
    let mut view = ZStackView::new(vec![Probe::new(10, 20), Probe::new(30, 5)]);
    view.apply_bounds(rect(0, 0, 30, 20));
    assert_eq!(view.size, Some(size(30, 20)));
    assert_eq!(view.subviews[0].measured, 1);
    assert_eq!(view.subviews[0].placed, Some(rect(10, 0, 10, 20)));
}

#[test]
fn zstack_view_leaves_new_subviews_without_a_place() {
    let mut view = ZStackView::new(vec![Probe::new(10, 20)]);
    assert_eq!(view.preferred_size(), size(10, 20));
    view.subviews.push(Probe::new(30, 5));
    view.apply_bounds(rect(0, 0, 30, 20));
    assert!(view.subviews[0].placed.is_some());
    assert_eq!(view.subviews[1].placed, None);
}

#[test]
fn zstack_view_properties() {
    let mut view = ZStackView::new(Vec::<Probe>::new());
    assert_eq!(view.alignment_horizontal(), StackAlignment::Center);
    assert_eq!(view.alignment_vertical(), StackAlignment::Center);
    view.set_alignment_horizontal(StackAlignment::Leading);
    view.set_alignment_vertical(StackAlignment::Trailing);
    assert_eq!(view.alignment_horizontal(), StackAlignment::Leading);
    assert_eq!(view.alignment_vertical(), StackAlignment::Trailing);
    *view.alignment_horizontal_mut() = StackAlignment::Center;
    *view.alignment_vertical_mut() = StackAlignment::Center;
    assert_eq!(view.layout, muilib::ZStackLayout::new());
}

#[test]
fn stacks_nest() {
    let inner = StackView::vertical(vec![Probe::new(10, 5), Probe::new(20, 8)])
        .with_alignment(StackAlignment::Leading)
        .with_fixed_padding(Some(s(0)));
    let other = StackView::vertical(vec![Probe::new(5, 5)])
        .with_alignment(StackAlignment::Leading);
    let mut outer = StackView::horizontal(vec![inner, other])
        .with_alignment(StackAlignment::Leading)
        .with_fixed_padding(Some(s(1)));
    assert_eq!(outer.preferred_size(), size(26, 13));
    outer.apply_bounds(rect(0, 0, 26, 13));
    assert_eq!(outer.subviews[0].subviews[0].placed, Some(rect(0, 0, 10, 5)));
    assert_eq!(outer.subviews[0].subviews[1].placed, Some(rect(0, 5, 20, 8)));
    assert_eq!(outer.subviews[1].subviews[0].placed, Some(rect(21, 0, 5, 5)));
}

#[test]
fn boxed_views_of_different_kinds_share_a_stack() {
    let subviews: Vec<Box<dyn View>> = vec![
        Box::new(Probe::new(10, 5)),
        Box::new(SpacerView::new(size(4, 4))),
        Box::new(SpreadView::horizontal(SpacerView::new(size(1, 6)))),
    ];
    let mut view = StackView::horizontal(subviews);
    assert_eq!(view.preferred_size(), RectSize::new(Scalar::infinity(), s(6)));
    view.apply_bounds(rect(0, 0, 50, 6));
}

#[test]
fn image_view_prefers_its_size_and_notes_its_place() {
    let mut view = ImageView::new(size(3, 4));
    assert_eq!(view.preferred_size(), size(3, 4));
    assert!(!view.bounds_updated);
    view.apply_bounds(rect(1, 2, 3, 4));
    assert_eq!(view.bounds, rect(1, 2, 3, 4));
    assert!(view.bounds_updated);
    view.set_size(size(5, 6));
    assert_eq!(view.size(), size(5, 6));
    *view.size_mut() = size(7, 8);
    assert_eq!(view.with_size(size(9, 9)).preferred_size(), size(9, 9));
    assert_eq!(view.size(), size(7, 8));
}

#[test]
fn wrapping_views_stand_for_their_subview() {
    let mut spread = SpreadView::horizontal(Probe::new(3, 4));
    assert_eq!(spread.preferred, size(3, 4));
    spread.measured = 7;
    assert_eq!(spread.subview().measured, 7);
    let by_ref: &Probe = spread.as_ref();
    assert_eq!(by_ref.measured, 7);
    let by_mut: &mut Probe = spread.as_mut();
    by_mut.measured = 8;
    assert_eq!(spread.subview().measured, 8);
    let mut container = ContainerView::new(Probe::new(3, 4));
    assert_eq!(container.preferred, size(3, 4));
    container.measured = 7;
    let by_ref: &Probe = container.as_ref();
    assert_eq!(by_ref.measured, 7);
    let by_mut: &mut Probe = container.as_mut();
    by_mut.measured = 8;
    assert_eq!(container.subview().measured, 8);
}

#[test]
fn references_to_views_are_views() {
    let mut a = Probe::new(10, 5);
    let mut b = Probe::new(20, 8);
    {
        let mut by_reference: &mut Probe = &mut a;
        assert_eq!(View::preferred_size(&mut by_reference), size(10, 5));
        View::apply_bounds(&mut by_reference, rect(1, 2, 3, 4));
    }
    assert_eq!(a.measured, 1);
    assert_eq!(a.placed, Some(rect(1, 2, 3, 4)));
    {
        let subviews: Vec<&mut dyn View> = vec![&mut a, &mut b];
        let mut stack = StackView::horizontal(subviews).with_alignment(StackAlignment::Leading);
        assert_eq!(stack.preferred_size(), size(30, 8));
        stack.apply_bounds(rect(0, 0, 40, 8));
    }
    assert_eq!(a.placed, Some(rect(0, 0, 10, 5)));
    assert_eq!(b.placed, Some(rect(20, 0, 20, 8)));
}
