//! Small views: a spacer, a view that asks for all the space it can get, and a
//! box that pads its subview on four edges.
use vstd::prelude::*;
use crate::bounds::{Bounds, Point2, RectSize};
use crate::scalar::Scalar;
use crate::stack::{squeeze, squeeze_factor};

verus! {

/// An empty view for just leaving a bit of space empty.
#[derive(Clone, Copy, Debug, PartialEq, Eq)]
pub struct SpacerView {
    size: RectSize<Scalar>,
}

impl Default for SpacerView {
    fn default() -> (spacer: Self)
        ensures
            spacer.size_spec().width.raw == 0,
            spacer.size_spec().height.raw == 0,
    {
        SpacerView { size: RectSize { width: Scalar::zero(), height: Scalar::zero() } }
    }
}

impl SpacerView {
    pub closed spec fn size_spec(&self) -> RectSize<Scalar> {
        self.size
    }

    pub fn new(size: RectSize<Scalar>) -> (spacer: Self)
        ensures
            spacer.size_spec() == size,
    {
        SpacerView { size }
    }

    #[verifier::when_used_as_spec(size_spec)]
    pub fn size(&self) -> (size: RectSize<Scalar>)
        ensures
            size == self.size_spec(),
    {
        self.size
    }

    pub fn size_mut(&mut self) -> (size: &mut RectSize<Scalar>)
        ensures
            *size == old(self).size_spec(),
            final(self).size_spec() == *final(size),
    {
        &mut self.size
    }

    pub fn set_size(&mut self, size: RectSize<Scalar>)
        ensures
            final(self).size_spec() == size,
    {
        self.size = size;
    }

    pub fn with_size(self, size: RectSize<Scalar>) -> (spacer: Self)
        ensures
            spacer.size_spec() == size,
    {
        SpacerView { size }
    }
}

impl crate::view::View for SpacerView {
    fn preferred_size(&mut self) -> (size: RectSize<Scalar>)
        ensures
            size == old(self).size_spec(),
            *final(self) == *old(self),
    {
        self.size
    }

    fn apply_bounds(&mut self, bounds: Bounds<Scalar>)
        ensures
            *final(self) == *old(self),
    {
    }
}

#[derive(Clone, Copy, Debug, PartialEq, Eq, Structural)]
pub enum SpreadAxis {
    Horizontal,
    Vertical,
    Both,
}

impl SpreadAxis {
    /// `size` with the lengths along this axis replaced by infinity.
    pub open spec fn spread_spec(self, size: RectSize<Scalar>) -> RectSize<Scalar> {
        match self {
            SpreadAxis::Horizontal => RectSize {
                width: Scalar { raw: crate::scalar::INFINITY_RAW },
                height: size.height,
            },
            SpreadAxis::Vertical => RectSize {
                width: size.width,
                height: Scalar { raw: crate::scalar::INFINITY_RAW },
            },
            SpreadAxis::Both => RectSize {
                width: Scalar { raw: crate::scalar::INFINITY_RAW },
                height: Scalar { raw: crate::scalar::INFINITY_RAW },
            },
        }
    }

    /// The preferred size of a view that spreads along this axis and whose
    /// subview prefers `size`.
    #[verifier::when_used_as_spec(spread_spec)]
    pub fn spread(self, size: RectSize<Scalar>) -> (spread: RectSize<Scalar>)
        ensures
            spread == self.spread_spec(size),
    {
        match self {
            SpreadAxis::Horizontal => RectSize::new(Scalar::infinity(), size.height),
            SpreadAxis::Vertical => RectSize::new(size.width, Scalar::infinity()),
            SpreadAxis::Both => RectSize::new(Scalar::infinity(), Scalar::infinity()),
        }
    }
}

/// Makes the view take as much space as possible in one axis.
#[derive(Clone, Copy, Debug, PartialEq, Eq)]
pub struct SpreadView<Subview> {
    pub axis: SpreadAxis,
    pub subview: Subview,
}

impl<Subview> SpreadView<Subview> {
    pub fn new(axis: SpreadAxis, subview: Subview) -> (view: Self)
        ensures
            view == (SpreadView { axis, subview }),
    {
        SpreadView { axis, subview }
    }

    pub fn horizontal(subview: Subview) -> (view: Self)
        ensures
            view == (SpreadView { axis: SpreadAxis::Horizontal, subview }),
    {
        Self::new(SpreadAxis::Horizontal, subview)
    }

    pub fn vertical(subview: Subview) -> (view: Self)
        ensures
            view == (SpreadView { axis: SpreadAxis::Vertical, subview }),
    {
        Self::new(SpreadAxis::Vertical, subview)
    }

    pub fn both(subview: Subview) -> (view: Self)
        ensures
            view == (SpreadView { axis: SpreadAxis::Both, subview }),
    {
        Self::new(SpreadAxis::Both, subview)
    }

    pub fn axis(&self) -> (axis: SpreadAxis)
        ensures
            axis == self.axis,
    {
        self.axis
    }

    pub fn axis_mut(&mut self) -> (axis: &mut SpreadAxis)
        ensures
            *axis == old(self).axis,
            *final(self) == (SpreadView { axis: *final(axis), subview: old(self).subview }),
    {
        &mut self.axis
    }

    pub fn set_axis(&mut self, axis: SpreadAxis)
        ensures
            *final(self) == (SpreadView { axis, subview: old(self).subview }),
    {
        self.axis = axis;
    }

    pub fn with_axis(self, axis: SpreadAxis) -> (view: Self)
        ensures
            view == (SpreadView { axis, subview: self.subview }),
    {
        SpreadView { axis, subview: self.subview }
    }

    pub fn into_subview(self) -> (subview: Subview)
        ensures
            subview == self.subview,
    {
        self.subview
    }

    pub fn subview(&self) -> (subview: &Subview)
        ensures
            *subview == self.subview,
    {
        &self.subview
    }

    pub fn subview_mut(&mut self) -> (subview: &mut Subview)
        ensures
            *subview == old(self).subview,
            *final(self) == (SpreadView { axis: old(self).axis, subview: *final(subview) }),
    {
        &mut self.subview
    }
}

impl<Subview> std::ops::Deref for SpreadView<Subview> {
    type Target = Subview;

    fn deref(&self) -> (subview: &Subview)
        ensures
            *subview == self.subview,
    {
        &self.subview
    }
}

impl<Subview> std::ops::DerefMut for SpreadView<Subview> {
    fn deref_mut(&mut self) -> (subview: &mut Subview)
        ensures
            *subview == old(self).subview,
            *final(self) == (SpreadView { axis: old(self).axis, subview: *final(subview) }),
    {
        &mut self.subview
    }
}

impl<Subview> AsRef<Subview> for SpreadView<Subview> {
    fn as_ref(&self) -> (subview: &Subview)
        ensures
            *subview == self.subview,
    {
        &self.subview
    }
}

impl<Subview> AsMut<Subview> for SpreadView<Subview> {
    fn as_mut(&mut self) -> (subview: &mut Subview)
        ensures
            *subview == old(self).subview,
            *final(self) == (SpreadView { axis: old(self).axis, subview: *final(subview) }),
    {
        &mut self.subview
    }
}

impl<Subview: crate::view::View> crate::view::View for SpreadView<Subview> {
    /// Measures the subview and replaces its lengths along the axis by infinity.
    fn preferred_size(&mut self) -> (size: RectSize<Scalar>)
        ensures
            final(self).axis == old(self).axis,
            exists|subview: &mut Subview, subview_size: RectSize<Scalar>|
                {
                    &&& *subview == old(self).subview
                    &&& *final(subview) == final(self).subview
                    &&& #[trigger] call_ensures(Subview::preferred_size, (subview,), subview_size)
                    &&& size == old(self).axis.spread_spec(subview_size)
                },
    {
        let subview_size = self.subview.preferred_size();
        self.axis.spread(subview_size)
    }

    /// Hands `bounds` on to the subview.
    fn apply_bounds(&mut self, bounds: Bounds<Scalar>)
        ensures
            final(self).axis == old(self).axis,
            exists|subview: &mut Subview|
                {
                    &&& *subview == old(self).subview
                    &&& *final(subview) == final(self).subview
                    &&& #[trigger] call_ensures(Subview::apply_bounds, (subview, bounds), ())
                },
    {
        self.subview.apply_bounds(bounds)
    }
}

/// The policy of one edge of a container.
#[derive(Clone, Copy, Debug, PartialEq, Eq)]
pub enum ContainerPadding {
    /// Fixed padding.
    Fixed(Scalar),
    /// As ratio of the view's size on that axis.
    RatioOfViewSize(Scalar),
    /// Take the rest of the remaining space.
    ///
    /// If both edges of an axis are `Spread`, the spread ratio of that axis says
    /// which share of the remaining space lies before the view; the rest lies
    /// behind it. With a spread ratio of one half the view is centered.
    Spread,
}

impl Default for ContainerPadding {
    fn default() -> (padding: Self)
        ensures
            padding == ContainerPadding::Fixed(Scalar { raw: 0 }),
    {
        ContainerPadding::Fixed(Scalar::zero())
    }
}

impl ContainerPadding {
    pub open spec fn as_fixed_spec(&self) -> Option<Scalar> {
        match self {
            ContainerPadding::Fixed(v) => Some(*v),
            _ => None,
        }
    }

    /// The padding that this edge asks for of its own beside a view of length
    /// `view_length`: nothing where it spreads.
    pub open spec fn own_length_spec(self, view_length: Scalar) -> Scalar {
        match self {
            ContainerPadding::Fixed(fixed) => fixed,
            ContainerPadding::RatioOfViewSize(ratio) => ratio.mul_spec(view_length),
            ContainerPadding::Spread => Scalar { raw: 0 },
        }
    }

    #[verifier::when_used_as_spec(as_fixed_spec)]
    pub fn as_fixed(&self) -> (fixed: Option<Scalar>)
        ensures
            fixed == self.as_fixed_spec(),
    {
        match self {
            ContainerPadding::Fixed(v) => Some(*v),
            _ => None,
        }
    }

    #[verifier::when_used_as_spec(own_length_spec)]
    pub fn own_length(self, view_length: Scalar) -> (length: Scalar)
        ensures
            length == self.own_length_spec(view_length),
    {
        match self {
            ContainerPadding::Fixed(fixed) => fixed,
            ContainerPadding::RatioOfViewSize(ratio) => ratio.mul(view_length),
            ContainerPadding::Spread => Scalar::zero(),
        }
    }
}

/// The paddings before and behind a view of length `view_length`, where the free
/// space that the view leaves is `remaining_length`.
///
/// An edge that does not spread gets what it asks for. A single spreading edge
/// gets what the other edge leaves of the free space. Two spreading edges share
/// the free space: `spread_ratio` of it lies before the view, the rest behind it.
pub open spec fn padding_spec(
    padding_leading: ContainerPadding,
    padding_trailing: ContainerPadding,
    spread_ratio: Scalar,
    view_length: Scalar,
    remaining_length: Scalar,
) -> (Scalar, Scalar) {
    match (padding_leading, padding_trailing) {
        (ContainerPadding::Spread, ContainerPadding::Spread) => (
            spread_ratio.mul_spec(remaining_length),
            (Scalar { raw: crate::scalar::ONE_RAW }).sub_spec(spread_ratio).mul_spec(remaining_length),
        ),
        (leading, ContainerPadding::Spread) => (
            leading.own_length_spec(view_length),
            remaining_length.sub_spec(leading.own_length_spec(view_length)),
        ),
        (ContainerPadding::Spread, trailing) => (
            remaining_length.sub_spec(trailing.own_length_spec(view_length)),
            trailing.own_length_spec(view_length),
        ),
        (leading, trailing) => (
            leading.own_length_spec(view_length),
            trailing.own_length_spec(view_length),
        ),
    }
}

#[verifier::when_used_as_spec(padding_spec)]
pub fn padding(
    padding_leading: ContainerPadding,
    padding_trailing: ContainerPadding,
    spread_ratio: Scalar,
    view_length: Scalar,
    remaining_length: Scalar,
) -> (paddings: (Scalar, Scalar))
    ensures
        paddings == padding_spec(
            padding_leading,
            padding_trailing,
            spread_ratio,
            view_length,
            remaining_length,
        ),
{
    match (padding_leading, padding_trailing) {
        (ContainerPadding::Spread, ContainerPadding::Spread) => (
            spread_ratio.mul(remaining_length),
            Scalar::one().sub(spread_ratio).mul(remaining_length),
        ),
        (leading, ContainerPadding::Spread) => {
            let padding_leading = leading.own_length(view_length);
            (padding_leading, remaining_length.sub(padding_leading))
        },
        (ContainerPadding::Spread, trailing) => {
            let padding_trailing = trailing.own_length(view_length);
            (remaining_length.sub(padding_trailing), padding_trailing)
        },
        (leading, trailing) => (leading.own_length(view_length), trailing.own_length(view_length)),
    }
}

/// The preferred length of a container along one axis: what the two edges ask
/// for of their own, and the length of the view between them.
pub open spec fn padded_length_spec(
    padding_leading: ContainerPadding,
    padding_trailing: ContainerPadding,
    view_length: Scalar,
) -> Scalar {
    padding_leading.own_length_spec(view_length).add_spec(view_length).add_spec(
        padding_trailing.own_length_spec(view_length),
    )
}

/// The length that the view of a container gets along one axis, before any
/// squeeze: the length it asks for, but no more than what the edges that do not
/// spread leave of `available`, and that never below zero.
pub open spec fn clamped_length_spec(
    padding_leading: ContainerPadding,
    padding_trailing: ContainerPadding,
    requested: Scalar,
    available: Scalar,
) -> Scalar {
    requested.min_spec(
        available.sub_spec(padding_leading.own_length_spec(requested)).sub_spec(
            padding_trailing.own_length_spec(requested),
        ).max_spec(Scalar { raw: 0 }),
    )
}

/// The place of the view of a container along one axis, as the coordinate of
/// its near edge and its length.
///
/// The view gets its clamped length. The paddings are resolved against the free
/// space that this length leaves. Where paddings and view together still exceed
/// `available`, the length shrinks by the factor `available / total`. The view
/// starts behind the leading padding, and in the end its length is cut, at zero
/// at least, so that its far edge does not lie behind that of the container,
/// which starts at `start`.
pub open spec fn axis_placement_spec(
    padding_leading: ContainerPadding,
    padding_trailing: ContainerPadding,
    spread_ratio: Scalar,
    requested: Scalar,
    start: Scalar,
    available: Scalar,
) -> (Scalar, Scalar) {
    let length = clamped_length_spec(padding_leading, padding_trailing, requested, available);
    let paddings = padding_spec(
        padding_leading,
        padding_trailing,
        spread_ratio,
        length,
        available.sub_spec(length).max_spec(Scalar { raw: 0 }),
    );
    let padded = paddings.0.add_spec(length).add_spec(paddings.1);
    let squeeze = squeeze_factor(available, padded);
    let squeezed = length.mul_spec(squeeze);
    let position = start.add_spec(paddings.0);
    let far = start.add_spec(available);
    if position.add_spec(squeezed).raw > far.raw {
        (position, far.sub_spec(position).max_spec(Scalar { raw: 0 }))
    } else {
        (position, squeezed)
    }
}

#[verifier::when_used_as_spec(axis_placement_spec)]
pub fn axis_placement(
    padding_leading: ContainerPadding,
    padding_trailing: ContainerPadding,
    spread_ratio: Scalar,
    requested: Scalar,
    start: Scalar,
    available: Scalar,
) -> (placement: (Scalar, Scalar))
    ensures
        placement == axis_placement_spec(
            padding_leading,
            padding_trailing,
            spread_ratio,
            requested,
            start,
            available,
        ),
{
    let max_length = available.sub(padding_leading.own_length(requested)).sub(
        padding_trailing.own_length(requested),
    ).max(Scalar::zero());
    let length = requested.min(max_length);
    let (padding_leading, padding_trailing) = padding(
        padding_leading,
        padding_trailing,
        spread_ratio,
        length,
        available.sub(length).max(Scalar::zero()),
    );
    let padded = padding_leading.add(length).add(padding_trailing);
    let squeeze = squeeze(available, padded);
    let squeezed = length.mul(squeeze);
    let position = start.add(padding_leading);
    let far = start.add(available);
    if far.lt(position.add(squeezed)) {
        (position, far.sub(position).max(Scalar::zero()))
    } else {
        (position, squeezed)
    }
}

/// The policies of a container: one for each edge, and for each axis the share
/// of the free space that lies before the view where both edges spread.
#[derive(Clone, Copy, Debug, PartialEq, Eq)]
pub struct ContainerLayout {
    pub padding_left: ContainerPadding,
    pub padding_right: ContainerPadding,
    pub padding_top: ContainerPadding,
    pub padding_bottom: ContainerPadding,
    pub spread_ratio_horizontal: Scalar,
    pub spread_ratio_vertical: Scalar,
}

impl ContainerLayout {
    pub open spec fn preferred_size_spec(self, subview_size: RectSize<Scalar>) -> RectSize<Scalar> {
        RectSize {
            width: padded_length_spec(self.padding_left, self.padding_right, subview_size.width),
            height: padded_length_spec(self.padding_top, self.padding_bottom, subview_size.height),
        }
    }

    pub open spec fn subview_bounds_spec(self, requested_size: RectSize<Scalar>, bounds: Bounds<Scalar>) -> Bounds<
        Scalar,
    > {
        let horizontal = axis_placement_spec(
            self.padding_left,
            self.padding_right,
            self.spread_ratio_horizontal,
            requested_size.width,
            bounds.origin.x,
            bounds.size.width,
        );
        let vertical = axis_placement_spec(
            self.padding_top,
            self.padding_bottom,
            self.spread_ratio_vertical,
            requested_size.height,
            bounds.origin.y,
            bounds.size.height,
        );
        Bounds {
            origin: Point2 { x: horizontal.0, y: vertical.0 },
            size: RectSize { width: horizontal.1, height: vertical.1 },
        }
    }

    /// The policies of a new container: no padding, and a spread ratio of one
    /// half on both axes.
    pub open spec fn initial() -> Self {
        ContainerLayout {
            padding_left: ContainerPadding::Fixed(Scalar { raw: 0 }),
            padding_right: ContainerPadding::Fixed(Scalar { raw: 0 }),
            padding_top: ContainerPadding::Fixed(Scalar { raw: 0 }),
            padding_bottom: ContainerPadding::Fixed(Scalar { raw: 0 }),
            spread_ratio_horizontal: Scalar { raw: crate::scalar::HALF_RAW },
            spread_ratio_vertical: Scalar { raw: crate::scalar::HALF_RAW },
        }
    }

    #[verifier::when_used_as_spec(initial)]
    pub fn new() -> (layout: Self)
        ensures
            layout == Self::initial(),
    {
        ContainerLayout {
            padding_left: ContainerPadding::Fixed(Scalar::zero()),
            padding_right: ContainerPadding::Fixed(Scalar::zero()),
            padding_top: ContainerPadding::Fixed(Scalar::zero()),
            padding_bottom: ContainerPadding::Fixed(Scalar::zero()),
            spread_ratio_horizontal: Scalar::half(),
            spread_ratio_vertical: Scalar::half(),
        }
    }

    /// The preferred size of a container whose subview prefers `subview_size`:
    /// on each axis the length of the subview and what the two edges ask for of
    /// their own. An edge that spreads asks for nothing.
    #[verifier::when_used_as_spec(preferred_size_spec)]
    pub fn preferred_size(self, subview_size: RectSize<Scalar>) -> (size: RectSize<Scalar>)
        ensures
            size == self.preferred_size_spec(subview_size),
    {
        RectSize {
            width: self.padding_left.own_length(subview_size.width).add(subview_size.width).add(
                self.padding_right.own_length(subview_size.width),
            ),
            height: self.padding_top.own_length(subview_size.height).add(subview_size.height).add(
                self.padding_bottom.own_length(subview_size.height),
            ),
        }
    }

    /// The place within `bounds` of a subview that prefers `requested_size`.
    #[verifier::when_used_as_spec(subview_bounds_spec)]
    pub fn subview_bounds(self, requested_size: RectSize<Scalar>, bounds: Bounds<Scalar>) -> (placed:
        Bounds<Scalar>)
        ensures
            placed == self.subview_bounds_spec(requested_size, bounds),
    {
        let (x, width) = axis_placement(
            self.padding_left,
            self.padding_right,
            self.spread_ratio_horizontal,
            requested_size.width,
            bounds.x_min(),
            bounds.width(),
        );
        let (y, height) = axis_placement(
            self.padding_top,
            self.padding_bottom,
            self.spread_ratio_vertical,
            requested_size.height,
            bounds.y_min(),
            bounds.height(),
        );
        Bounds::from_scalars(x, y, width, height)
    }
}

/// A box around one subview with a padding policy for each of its four edges.
pub struct ContainerView<Subview> {
    pub subview: Subview,
    pub layout: ContainerLayout,
    /// What the subview preferred when it was last measured.
    pub subview_size: Option<RectSize<Scalar>>,
}

impl<Subview> ContainerView<Subview> {
    /// A container without padding whose subview is not measured yet.
    pub fn new(subview: Subview) -> (view: Self)
        ensures
            view.subview == subview,
            view.layout == ContainerLayout::new(),
            view.subview_size is None,
    {
        ContainerView { subview, layout: ContainerLayout::new(), subview_size: None }
    }

    pub fn subview(&self) -> (subview: &Subview)
        ensures
            *subview == self.subview,
    {
        &self.subview
    }

    pub fn subview_mut(&mut self) -> (subview: &mut Subview)
        ensures
            *subview == old(self).subview,
            *final(self) == (ContainerView { subview: *final(subview), ..*old(self) }),
    {
        &mut self.subview
    }

    /// The container with the same policy on all four edges.
    pub open spec fn with_padding_spec(self, padding: ContainerPadding) -> Self {
        ContainerView {
            layout: ContainerLayout {
                padding_left: padding,
                padding_right: padding,
                padding_top: padding,
                padding_bottom: padding,
                ..self.layout
            },
            ..self
        }
    }

    pub fn set_padding(&mut self, padding: ContainerPadding)
        ensures
            *final(self) == old(self).with_padding_spec(padding),
    {
        self.set_padding_left(padding);
        self.set_padding_right(padding);
        self.set_padding_top(padding);
        self.set_padding_bottom(padding);
    }

    #[verifier::when_used_as_spec(with_padding_spec)]
    pub fn with_padding(self, padding: ContainerPadding) -> (view: Self)
        ensures
            view == self.with_padding_spec(padding),
    {
        let mut view = self;
        view.set_padding(padding);
        view
    }

    pub open spec fn with_padding_left_spec(self, value: ContainerPadding) -> Self {
        ContainerView { layout: ContainerLayout { padding_left: value, ..self.layout }, ..self }
    }

    pub fn padding_left(&self) -> (value: ContainerPadding)
        ensures
            value == self.layout.padding_left,
    {
        self.layout.padding_left
    }

    pub fn padding_left_mut(&mut self) -> (value: &mut ContainerPadding)
        ensures
            *value == old(self).layout.padding_left,
            *final(self) == old(self).with_padding_left_spec(*final(value)),
    {
        &mut self.layout.padding_left
    }

    pub fn set_padding_left(&mut self, value: ContainerPadding)
        ensures
            *final(self) == old(self).with_padding_left_spec(value),
    {
        self.layout.padding_left = value;
    }

    #[verifier::when_used_as_spec(with_padding_left_spec)]
    pub fn with_padding_left(self, value: ContainerPadding) -> (view: Self)
        ensures
            view == self.with_padding_left_spec(value),
    {
        let mut view = self;
        view.layout.padding_left = value;
        view
    }

    pub open spec fn with_padding_right_spec(self, value: ContainerPadding) -> Self {
        ContainerView { layout: ContainerLayout { padding_right: value, ..self.layout }, ..self }
    }

    pub fn padding_right(&self) -> (value: ContainerPadding)
        ensures
            value == self.layout.padding_right,
    {
        self.layout.padding_right
    }

    pub fn padding_right_mut(&mut self) -> (value: &mut ContainerPadding)
        ensures
            *value == old(self).layout.padding_right,
            *final(self) == old(self).with_padding_right_spec(*final(value)),
    {
        &mut self.layout.padding_right
    }

    pub fn set_padding_right(&mut self, value: ContainerPadding)
        ensures
            *final(self) == old(self).with_padding_right_spec(value),
    {
        self.layout.padding_right = value;
    }

    #[verifier::when_used_as_spec(with_padding_right_spec)]
    pub fn with_padding_right(self, value: ContainerPadding) -> (view: Self)
        ensures
            view == self.with_padding_right_spec(value),
    {
        let mut view = self;
        view.layout.padding_right = value;
        view
    }

    pub open spec fn with_padding_top_spec(self, value: ContainerPadding) -> Self {
        ContainerView { layout: ContainerLayout { padding_top: value, ..self.layout }, ..self }
    }

    pub fn padding_top(&self) -> (value: ContainerPadding)
        ensures
            value == self.layout.padding_top,
    {
        self.layout.padding_top
    }

    pub fn padding_top_mut(&mut self) -> (value: &mut ContainerPadding)
        ensures
            *value == old(self).layout.padding_top,
            *final(self) == old(self).with_padding_top_spec(*final(value)),
    {
        &mut self.layout.padding_top
    }

    pub fn set_padding_top(&mut self, value: ContainerPadding)
        ensures
            *final(self) == old(self).with_padding_top_spec(value),
    {
        self.layout.padding_top = value;
    }

    #[verifier::when_used_as_spec(with_padding_top_spec)]
    pub fn with_padding_top(self, value: ContainerPadding) -> (view: Self)
        ensures
            view == self.with_padding_top_spec(value),
    {
        let mut view = self;
        view.layout.padding_top = value;
        view
    }

    pub open spec fn with_padding_bottom_spec(self, value: ContainerPadding) -> Self {
        ContainerView { layout: ContainerLayout { padding_bottom: value, ..self.layout }, ..self }
    }

    pub fn padding_bottom(&self) -> (value: ContainerPadding)
        ensures
            value == self.layout.padding_bottom,
    {
        self.layout.padding_bottom
    }

    pub fn padding_bottom_mut(&mut self) -> (value: &mut ContainerPadding)
        ensures
            *value == old(self).layout.padding_bottom,
            *final(self) == old(self).with_padding_bottom_spec(*final(value)),
    {
        &mut self.layout.padding_bottom
    }

    pub fn set_padding_bottom(&mut self, value: ContainerPadding)
        ensures
            *final(self) == old(self).with_padding_bottom_spec(value),
    {
        self.layout.padding_bottom = value;
    }

    #[verifier::when_used_as_spec(with_padding_bottom_spec)]
    pub fn with_padding_bottom(self, value: ContainerPadding) -> (view: Self)
        ensures
            view == self.with_padding_bottom_spec(value),
    {
        let mut view = self;
        view.layout.padding_bottom = value;
        view
    }

    pub open spec fn with_spread_ratio_horizontal_spec(self, value: Scalar) -> Self {
        ContainerView { layout: ContainerLayout { spread_ratio_horizontal: value, ..self.layout }, ..self }
    }

    pub fn spread_ratio_horizontal(&self) -> (value: Scalar)
        ensures
            value == self.layout.spread_ratio_horizontal,
    {
        self.layout.spread_ratio_horizontal
    }

    pub fn spread_ratio_horizontal_mut(&mut self) -> (value: &mut Scalar)
        ensures
            *value == old(self).layout.spread_ratio_horizontal,
            *final(self) == old(self).with_spread_ratio_horizontal_spec(*final(value)),
    {
        &mut self.layout.spread_ratio_horizontal
    }

    pub fn set_spread_ratio_horizontal(&mut self, value: Scalar)
        ensures
            *final(self) == old(self).with_spread_ratio_horizontal_spec(value),
    {
        self.layout.spread_ratio_horizontal = value;
    }

    #[verifier::when_used_as_spec(with_spread_ratio_horizontal_spec)]
    pub fn with_spread_ratio_horizontal(self, value: Scalar) -> (view: Self)
        ensures
            view == self.with_spread_ratio_horizontal_spec(value),
    {
        let mut view = self;
        view.layout.spread_ratio_horizontal = value;
        view
    }

    pub open spec fn with_spread_ratio_vertical_spec(self, value: Scalar) -> Self {
        ContainerView { layout: ContainerLayout { spread_ratio_vertical: value, ..self.layout }, ..self }
    }

    pub fn spread_ratio_vertical(&self) -> (value: Scalar)
        ensures
            value == self.layout.spread_ratio_vertical,
    {
        self.layout.spread_ratio_vertical
    }

    pub fn spread_ratio_vertical_mut(&mut self) -> (value: &mut Scalar)
        ensures
            *value == old(self).layout.spread_ratio_vertical,
            *final(self) == old(self).with_spread_ratio_vertical_spec(*final(value)),
    {
        &mut self.layout.spread_ratio_vertical
    }

    pub fn set_spread_ratio_vertical(&mut self, value: Scalar)
        ensures
            *final(self) == old(self).with_spread_ratio_vertical_spec(value),
    {
        self.layout.spread_ratio_vertical = value;
    }

    #[verifier::when_used_as_spec(with_spread_ratio_vertical_spec)]
    pub fn with_spread_ratio_vertical(self, value: Scalar) -> (view: Self)
        ensures
            view == self.with_spread_ratio_vertical_spec(value),
    {
        let mut view = self;
        view.layout.spread_ratio_vertical = value;
        view
    }
}

impl<Subview> std::ops::Deref for ContainerView<Subview> {
    type Target = Subview;

    fn deref(&self) -> (subview: &Subview)
        ensures
            *subview == self.subview,
    {
        &self.subview
    }
}

impl<Subview> AsRef<Subview> for ContainerView<Subview> {
    fn as_ref(&self) -> (subview: &Subview)
        ensures
            *subview == self.subview,
    {
        &self.subview
    }
}

impl<Subview> AsMut<Subview> for ContainerView<Subview> {
    fn as_mut(&mut self) -> (subview: &mut Subview)
        ensures
            *subview == old(self).subview,
            *final(self) == (ContainerView { subview: *final(subview), ..*old(self) }),
    {
        &mut self.subview
    }
}

impl<Subview> std::ops::DerefMut for ContainerView<Subview> {
    fn deref_mut(&mut self) -> (subview: &mut Subview)
        ensures
            *subview == old(self).subview,
            *final(self) == (ContainerView { subview: *final(subview), ..*old(self) }),
    {
        &mut self.subview
    }
}

impl<Subview: crate::view::View> crate::view::View for ContainerView<Subview> {
    /// Measures the subview, keeps its answer, and adds what the edges ask for.
    fn preferred_size(&mut self) -> (size: RectSize<Scalar>)
        ensures
            final(self).layout == old(self).layout,
            exists|subview: &mut Subview, subview_size: RectSize<Scalar>|
                {
                    &&& *subview == old(self).subview
                    &&& *final(subview) == final(self).subview
                    &&& #[trigger] call_ensures(Subview::preferred_size, (subview,), subview_size)
                    &&& final(self).subview_size == Some(subview_size)
                    &&& size == old(self).layout.preferred_size_spec(subview_size)
                },
    {
        let subview_size = self.subview.preferred_size();
        self.subview_size = Some(subview_size);
        self.layout.preferred_size(subview_size)
    }

    /// Places the subview within `bounds` by the size it last preferred; a
    /// subview that was never measured is measured now.
    fn apply_bounds(&mut self, bounds: Bounds<Scalar>)
        ensures
            final(self).layout == old(self).layout,
            final(self).subview_size == old(self).subview_size,
            old(self).subview_size matches Some(requested_size) ==> exists|subview: &mut Subview|
                {
                    &&& *subview == old(self).subview
                    &&& *final(subview) == final(self).subview
                    &&& #[trigger] call_ensures(
                        Subview::apply_bounds,
                        (subview, old(self).layout.subview_bounds_spec(requested_size, bounds)),
                        (),
                    )
                },
            old(self).subview_size is None ==> exists|
                measured: &mut Subview,
                requested_size: RectSize<Scalar>,
                placed: &mut Subview,
            |
                {
                    &&& *measured == old(self).subview
                    &&& #[trigger] call_ensures(Subview::preferred_size, (measured,), requested_size)
                    &&& *placed == *final(measured)
                    &&& *final(placed) == final(self).subview
                    &&& #[trigger] call_ensures(
                        Subview::apply_bounds,
                        (placed, old(self).layout.subview_bounds_spec(requested_size, bounds)),
                        (),
                    )
                },
    {
        let requested_size = match self.subview_size {
            Some(size) => size,
            None => self.subview.preferred_size(),
        };
        let subview_bounds = self.layout.subview_bounds(requested_size, bounds);
        self.subview.apply_bounds(subview_bounds);
    }
}

/// Wraps any view into one of the views of this module.
pub trait ViewExt: crate::view::View + Sized {
    fn into_box_dyn_view<'a>(self) -> Box<dyn crate::view::View + 'a> where Self: 'a {
        Box::new(self)
    }

    fn into_spread_view(self, axis: SpreadAxis) -> (view: SpreadView<Self>)
        ensures
            view == (SpreadView { axis, subview: self }),
    {
        SpreadView::new(axis, self)
    }

    fn into_container_view(self) -> (view: ContainerView<Self>)
        ensures
            view.subview == self,
            view.layout == ContainerLayout::initial(),
            view.subview_size is None,
    {
        ContainerView::new(self)
    }
}

impl<T: crate::view::View> ViewExt for T {

}

} // verus!
