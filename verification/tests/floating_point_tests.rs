//! The layouts computed once more in floating point, to see that the fixed-point
//! results agree with them up to rounding.
use muilib::util_views::axis_placement;
use muilib::{
    Axis, Bounds, ContainerPadding, RectSize, Scalar, StackAlignment, StackLayout,
    StackPaddingType, ZStackLayout,
};

const TOLERANCE: f64 = 0.01;

fn scalar(value: f64) -> Scalar {
    Scalar::from_raw((value * 65536.0).round() as i64)
}

fn float(value: Scalar) -> f64 {
    value.raw() as f64 / 65536.0
}

fn close(a: f64, b: f64) -> bool {
    (a - b).abs() < TOLERANCE
}

fn sizes() -> Vec<Vec<(f64, f64)>> {
    vec![
        vec![(10.0, 5.0)],
        vec![(10.0, 5.0), (20.5, 8.25), (30.0, 3.0)],
        vec![(0.0, 0.0), (7.75, 100.0), (3.2, 1.1), (12.0, 9.0), (1.0, 1.0)],
        vec![(33.3, 2.0), (33.3, 2.0), (33.4, 2.0)],
    ]
}

#[test]
fn stack_agrees_with_floating_point() {
    let paddings = [None, Some(0.0), Some(2.5), Some(10.0)];
    let types = [StackPaddingType::Interpadded, StackPaddingType::Omnipadded];
    let ratios = [0.0, 0.5, 1.0, 0.3];
    for subviews in sizes() {
        for fixed_padding in paddings {
            for padding_type in types {
                for ratio in ratios {
                    for width in [1.0, 17.0, 60.0, 64.5, 100.0, 333.3] {
                        let layout = StackLayout {
                            axis: Axis::Horizontal,
                            alignment: StackAlignment::Ratio(scalar(ratio)),
                            padding_type,
                            fixed_padding: fixed_padding.map(scalar),
                        };
                        let wanted: Vec<RectSize<Scalar>> = subviews
                            .iter()
                            .map(|(w, h)| RectSize::new(scalar(*w), scalar(*h)))
                            .collect();
                        let bounds =
                            Bounds::from_scalars(scalar(3.0), scalar(4.0), scalar(width), scalar(10.0));
                        let placed = layout.arrange(&wanted, bounds);

                        let n = subviews.len();
                        let n_paddings = match padding_type {
                            StackPaddingType::Interpadded => n.saturating_sub(1),
                            StackPaddingType::Omnipadded => n + 1,
                        } as f64;
                        let alpha_sum: f64 = subviews.iter().map(|(w, _)| *w).sum();
                        let preferred = alpha_sum + n_paddings * fixed_padding.unwrap_or(0.0);
                        let squeeze =
                            if preferred == 0.0 { 1.0 } else { (width / preferred).min(1.0) };
                        let padding = match fixed_padding {
                            Some(padding) => padding * squeeze,
                            None if n_paddings == 0.0 => 0.0,
                            None => ((width - alpha_sum) / n_paddings).max(0.0),
                        };
                        let mut offset = 0.0;
                        for (i, (w, h)) in subviews.iter().enumerate() {
                            if i != 0 || padding_type == StackPaddingType::Omnipadded {
                                offset += padding;
                            }
                            let extent = (w * squeeze).min(width - offset);
                            let beta = h.min(10.0);
                            let offset_b = ratio * (10.0 - beta);
                            assert!(close(float(placed[i].origin.x), 3.0 + offset));
                            assert!(close(float(placed[i].origin.y), 4.0 + offset_b));
                            assert!(close(float(placed[i].size.width), extent));
                            assert!(close(float(placed[i].size.height), beta));
                            offset += extent;
                        }
                        let measured = layout.preferred_size(&wanted);
                        assert!(close(float(measured.width), preferred));
                    }
                }
            }
        }
    }
}

#[test]
fn zstack_agrees_with_floating_point() {
    for subviews in sizes() {
        for (ratio_h, ratio_v) in [(0.0, 1.0), (0.5, 0.5), (0.25, 0.75)] {
            for (width, height) in [(1.0, 1.0), (20.0, 50.0), (34.0, 100.0), (500.0, 5.0)] {
                let layout = ZStackLayout {
                    alignment_horizontal: StackAlignment::Ratio(scalar(ratio_h)),
                    alignment_vertical: StackAlignment::Ratio(scalar(ratio_v)),
                };
                let wanted: Vec<RectSize<Scalar>> =
                    subviews.iter().map(|(w, h)| RectSize::new(scalar(*w), scalar(*h))).collect();
                let bounds =
                    Bounds::from_scalars(scalar(-3.0), scalar(4.0), scalar(width), scalar(height));
                let placed = layout.arrange(&wanted, bounds);
                let preferred_w = subviews.iter().fold(0.0f64, |m, (w, _)| m.max(*w));
                let preferred_h = subviews.iter().fold(0.0f64, |m, (_, h)| m.max(*h));
                let squeeze_h = if preferred_w == 0.0 { 1.0 } else { (width / preferred_w).min(1.0) };
                let squeeze_v =
                    if preferred_h == 0.0 { 1.0 } else { (height / preferred_h).min(1.0) };
                for (i, (w, h)) in subviews.iter().enumerate() {
                    let (w, h) = (w * squeeze_h, h * squeeze_v);
                    assert!(close(float(placed[i].size.width), w));
                    assert!(close(float(placed[i].size.height), h));
                    assert!(close(float(placed[i].origin.x), -3.0 + ratio_h * (width - w)));
                    assert!(close(float(placed[i].origin.y), 4.0 + ratio_v * (height - h)));
                }
            }
        }
    }
}

fn resolve(padding: ContainerPadding, view_length: f64) -> Option<f64> {
    match padding {
        ContainerPadding::Fixed(fixed) => Some(float(fixed)),
        ContainerPadding::RatioOfViewSize(ratio) => Some(float(ratio) * view_length),
        ContainerPadding::Spread => None,
    }
}

#[test]
fn container_agrees_with_floating_point() {
    let edges = [
        ContainerPadding::Fixed(scalar(0.0)),
        ContainerPadding::Fixed(scalar(4.5)),
        ContainerPadding::RatioOfViewSize(scalar(0.25)),
        ContainerPadding::Spread,
    ];
    for leading in edges {
        for trailing in edges {
            for ratio in [0.0, 0.5, 0.8] {
                for requested in [0.0, 10.0, 55.5] {
                    for available in [0.0, 8.0, 20.0, 64.0, 200.0] {
                        let (position, length) = axis_placement(
                            leading,
                            trailing,
                            scalar(ratio),
                            scalar(requested),
                            scalar(7.0),
                            scalar(available),
                        );
                        let own = |edge| resolve(edge, requested).unwrap_or(0.0);
                        let clamped =
                            requested.min((available - own(leading) - own(trailing)).max(0.0));
                        let remaining = (available - clamped).max(0.0);
                        let (before, behind) =
                            match (resolve(leading, clamped), resolve(trailing, clamped)) {
                                (None, None) => (ratio * remaining, (1.0 - ratio) * remaining),
                                (Some(l), None) => (l, remaining - l),
                                (None, Some(t)) => (remaining - t, t),
                                (Some(l), Some(t)) => (l, t),
                            };
                        let padded = before + clamped + behind;
                        let squeeze = if padded == 0.0 { 1.0 } else { (available / padded).min(1.0) };
                        let start = 7.0 + before;
                        let mut expected = clamped * squeeze;
                        if start + expected > 7.0 + available {
                            expected = (7.0 + available - start).max(0.0);
                        }
                        assert!(close(float(position), start));
                        assert!(close(float(length), expected));
                    }
                }
            }
        }
    }
}
