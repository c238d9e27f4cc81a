use muilib::{point2, vec2, Axis, Bounds, Point2, RectSize, Scalar, Vector2};

fn s(value: i32) -> Scalar {
    Scalar::from_int(value)
}

fn rect(x: i32, y: i32, width: i32, height: i32) -> Bounds<Scalar> {
    Bounds::from_scalars(s(x), s(y), s(width), s(height))
}

#[test]
fn bounds_are_made_of_origin_and_size() {
    let b = Bounds::new(point2(s(1), s(2)), RectSize::new(s(3), s(4)));
    assert_eq!(b, rect(1, 2, 3, 4));
    assert_eq!(b.x_min(), s(1));
    assert_eq!(b.y_min(), s(2));
    assert_eq!(b.width(), s(3));
    assert_eq!(b.height(), s(4));
    assert_eq!(b.x_max(), s(4));
    assert_eq!(b.y_max(), s(6));
    assert_eq!(b.x_max_(), s(4));
    assert_eq!(b.y_max_(), s(6));
    assert_eq!(b.xy_min(), Point2::new(s(1), s(2)));
    assert_eq!(b.xy_max(), Point2::new(s(4), s(6)));
}

#[test]
fn bounds_work_with_other_scalar_types() {
    let b: Bounds<u32> = Bounds::from_scalars(1, 2, 3, 4);
    assert_eq!(b.x_min(), 1);
    assert_eq!(b.height(), 4);
    assert_eq!(b.with_size(RectSize::new(7, 8)).width(), 7);
    assert_eq!(b.with_origin(point2(9, 9)).y_min(), 9);
    assert_eq!(b.size.as_vec(), vec2(3, 4));
}

#[test]
fn default_bounds_are_empty_at_the_origin() {
    let b: Bounds<Scalar> = Default::default();
    assert_eq!(b, rect(0, 0, 0, 0));
    let size: RectSize<Scalar> = Default::default();
    assert_eq!(size, RectSize::new(s(0), s(0)));
}

#[test]
fn contains_includes_all_four_edges() {
    let b = rect(0, 0, 10, 10);
    assert!(b.contains(point2(s(5), s(5))));
    assert!(b.contains(point2(s(0), s(0))));
    assert!(b.contains(point2(s(10), s(10))));
    assert!(b.contains(point2(s(0), s(10))));
    assert!(b.contains(point2(s(10), s(0))));
    assert!(!b.contains(point2(Scalar::from_raw(-1), s(5))));
    assert!(!b.contains(point2(Scalar::from_raw(10 * 65536 + 1), s(5))));
    assert!(!b.contains(point2(s(5), Scalar::from_raw(-1))));
    assert!(!b.contains(point2(s(5), Scalar::from_raw(10 * 65536 + 1))));
    assert!(!b.contains(point2(s(20), s(20))));
}

#[test]
fn inset_shrinks_and_stops_at_zero() {
    assert_eq!(rect(0, 0, 10, 10).with_inset(s(2)), rect(2, 2, 6, 6));
    assert_eq!(rect(0, 0, 10, 3).with_inset(s(2)), rect(2, 2, 6, 0));
    assert_eq!(rect(1, 1, 2, 2).with_inset(s(5)), rect(6, 6, 0, 0));
}

#[test]
fn padding_shrinks_below_zero() {
    assert_eq!(rect(0, 0, 10, 10).with_padding(s(2)), rect(2, 2, 6, 6));
    assert_eq!(rect(0, 0, 10, 3).with_padding(s(2)), rect(2, 2, 6, -1));
}

#[test]
fn sizes_compare_per_axis() {
    let a = RectSize::new(s(1), s(8));
    let b = RectSize::new(s(5), s(2));
    assert_eq!(a.min(b), RectSize::new(s(1), s(2)));
    assert_eq!(a.max(b), RectSize::new(s(5), s(8)));
    assert_eq!(a.scaled(s(2), Scalar::half()), RectSize::new(s(2), s(4)));
}

#[test]
fn points_move_and_scale() {
    let p = point2(s(6), s(9));
    assert_eq!(p.translated(vec2(s(1), s(-2))), point2(s(7), s(7)));
    assert_eq!(p.scaled_down(s(3)), point2(s(2), s(3)));
}

#[test]
fn horizontal_axis_takes_x_and_width_first() {
    let axis = Axis::Horizontal;
    assert_eq!(Point2::new_on_axis(axis, 1, 2), Point2::new(1, 2));
    assert_eq!(Vector2::new_on_axis(axis, 1, 2), Vector2::new(1, 2));
    assert_eq!(RectSize::new_on_axis(axis, 1, 2), RectSize::new(1, 2));
    assert_eq!(Point2::new(1, 2).a(axis), 1);
    assert_eq!(Point2::new(1, 2).b(axis), 2);
    assert_eq!(Vector2::new(1, 2).a(axis), 1);
    assert_eq!(Vector2::new(1, 2).b(axis), 2);
    assert_eq!(RectSize::new(1, 2).alpha(axis), 1);
    assert_eq!(RectSize::new(1, 2).beta(axis), 2);
    let b = rect(1, 2, 3, 4);
    assert_eq!(b.a_min(axis), s(1));
    assert_eq!(b.b_min(axis), s(2));
    assert_eq!(b.alpha(axis), s(3));
    assert_eq!(b.beta(axis), s(4));
    assert_eq!(b.a_max(axis), s(4));
    assert_eq!(b.b_max(axis), s(6));
}

#[test]
fn vertical_axis_takes_y_and_height_first() {
    let axis = Axis::Vertical;
    assert_eq!(Point2::new_on_axis(axis, 1, 2), Point2::new(2, 1));
    assert_eq!(Vector2::new_on_axis(axis, 1, 2), Vector2::new(2, 1));
    assert_eq!(RectSize::new_on_axis(axis, 1, 2), RectSize::new(2, 1));
    assert_eq!(Point2::new(1, 2).a(axis), 2);
    assert_eq!(Point2::new(1, 2).b(axis), 1);
    assert_eq!(Vector2::new(1, 2).a(axis), 2);
    assert_eq!(Vector2::new(1, 2).b(axis), 1);
    assert_eq!(RectSize::new(1, 2).alpha(axis), 2);
    assert_eq!(RectSize::new(1, 2).beta(axis), 1);
    let b = rect(1, 2, 3, 4);
    assert_eq!(b.a_min(axis), s(2));
    assert_eq!(b.b_min(axis), s(1));
    assert_eq!(b.alpha(axis), s(4));
    assert_eq!(b.beta(axis), s(3));
    assert_eq!(b.a_max(axis), s(6));
    assert_eq!(b.b_max(axis), s(4));
}

#[test]
fn axis_references_reach_the_right_field() {
    let mut p = Point2::new(1, 2);
    *p.a_mut(Axis::Vertical) = 7;
    *p.b_mut(Axis::Vertical) = 8;
    assert_eq!(p, Point2::new(8, 7));
    let mut v = Vector2::new(1, 2);
    *v.a_mut(Axis::Horizontal) = 7;
    *v.b_mut(Axis::Horizontal) = 8;
    assert_eq!(v, Vector2::new(7, 8));
    let mut size = RectSize::new(1, 2);
    *size.alpha_mut(Axis::Vertical) = 7;
    *size.beta_mut(Axis::Vertical) = 8;
    assert_eq!(size, RectSize::new(8, 7));
}

#[test]
fn scaling_on_axis_scales_alpha_and_beta() {
    let size = RectSize::new(s(4), s(6));
    assert_eq!(
        size.scaled_on_axis(Axis::Horizontal, Scalar::half(), s(2)),
        RectSize::new(s(2), s(12))
    );
    assert_eq!(
        size.scaled_on_axis(Axis::Vertical, Scalar::half(), s(2)),
        RectSize::new(s(8), s(3))
    );
}
