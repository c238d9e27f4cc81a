//! Stacks that own their subviews.
use vstd::prelude::*;
use crate::axis::Axis;
use crate::bounds::{Bounds, RectSize};
use crate::scalar::Scalar;
use crate::stack::{StackAlignment, StackLayout, StackPaddingType};
use crate::zstack::ZStackLayout;

verus! {

/// Lays its subviews out one after the other along an axis.
pub struct StackView<V> {
    pub layout: StackLayout,
    pub subviews: Vec<V>,
    /// What the subviews preferred when they were last measured, in their order.
    pub subview_sizes: Vec<RectSize<Scalar>>,
    /// The preferred size of the stack when it was last measured.
    pub size: RectSize<Scalar>,
    /// The sum of the lengths of the subviews along the axis when they were last measured.
    pub subview_length_alpha_total: Scalar,
}

impl<V> StackView<V> {
    /// Whether the stack has a subview at place `i`.
    pub open spec fn has_subview(&self, i: int) -> bool {
        0 <= i < self.subviews@.len()
    }

    /// Whether the stack has a subview at place `i` that it has measured.
    pub open spec fn has_measured_subview(&self, i: int) -> bool {
        0 <= i < self.subviews@.len() && i < self.subview_sizes@.len()
    }

    /// A stack along `axis` with the policies of a new stack, not measured yet.
    pub fn new(axis: Axis, subviews: Vec<V>) -> (view: Self)
        ensures
            view.layout == StackLayout::initial(axis),
            view.subviews == subviews,
            view.subview_sizes@.len() == 0,
            view.size == (RectSize { width: Scalar { raw: 0 }, height: Scalar { raw: 0 } }),
            view.subview_length_alpha_total.raw == 0,
    {
        StackView {
            layout: StackLayout::new(axis),
            subviews,
            subview_sizes: Vec::new(),
            size: RectSize::new(Scalar::zero(), Scalar::zero()),
            subview_length_alpha_total: Scalar::zero(),
        }
    }

    pub fn horizontal(subviews: Vec<V>) -> (view: Self)
        ensures
            view.layout == StackLayout::initial(Axis::Horizontal),
            view.subviews == subviews,
            view.subview_sizes@.len() == 0,
    {
        Self::new(Axis::Horizontal, subviews)
    }

    pub fn vertical(subviews: Vec<V>) -> (view: Self)
        ensures
            view.layout == StackLayout::initial(Axis::Vertical),
            view.subviews == subviews,
            view.subview_sizes@.len() == 0,
    {
        Self::new(Axis::Vertical, subviews)
    }

    pub open spec fn with_axis_spec(self, value: Axis) -> Self {
        StackView { layout: StackLayout { axis: value, ..self.layout }, ..self }
    }

    pub fn axis(&self) -> (value: Axis)
        ensures
            value == self.layout.axis,
    {
        self.layout.axis
    }

    pub fn axis_mut(&mut self) -> (value: &mut Axis)
        ensures
            *value == old(self).layout.axis,
            *final(self) == old(self).with_axis_spec(*final(value)),
    {
        &mut self.layout.axis
    }

    pub fn set_axis(&mut self, value: Axis)
        ensures
            *final(self) == old(self).with_axis_spec(value),
    {
        self.layout.axis = value;
    }

    #[verifier::when_used_as_spec(with_axis_spec)]
    pub fn with_axis(self, value: Axis) -> (view: Self)
        ensures
            view == self.with_axis_spec(value),
    {
        let mut view = self;
        view.layout.axis = value;
        view
    }

    pub open spec fn with_alignment_spec(self, value: StackAlignment) -> Self {
        StackView { layout: StackLayout { alignment: value, ..self.layout }, ..self }
    }

    pub fn alignment(&self) -> (value: StackAlignment)
        ensures
            value == self.layout.alignment,
    {
        self.layout.alignment
    }

    pub fn alignment_mut(&mut self) -> (value: &mut StackAlignment)
        ensures
            *value == old(self).layout.alignment,
            *final(self) == old(self).with_alignment_spec(*final(value)),
    {
        &mut self.layout.alignment
    }

    pub fn set_alignment(&mut self, value: StackAlignment)
        ensures
            *final(self) == old(self).with_alignment_spec(value),
    {
        self.layout.alignment = value;
    }

    #[verifier::when_used_as_spec(with_alignment_spec)]
    pub fn with_alignment(self, value: StackAlignment) -> (view: Self)
        ensures
            view == self.with_alignment_spec(value),
    {
        let mut view = self;
        view.layout.alignment = value;
        view
    }

    pub open spec fn with_padding_type_spec(self, value: StackPaddingType) -> Self {
        StackView { layout: StackLayout { padding_type: value, ..self.layout }, ..self }
    }

    pub fn padding_type(&self) -> (value: StackPaddingType)
        ensures
            value == self.layout.padding_type,
    {
        self.layout.padding_type
    }

    pub fn padding_type_mut(&mut self) -> (value: &mut StackPaddingType)
        ensures
            *value == old(self).layout.padding_type,
            *final(self) == old(self).with_padding_type_spec(*final(value)),
    {
        &mut self.layout.padding_type
    }

    pub fn set_padding_type(&mut self, value: StackPaddingType)
        ensures
            *final(self) == old(self).with_padding_type_spec(value),
    {
        self.layout.padding_type = value;
    }

    #[verifier::when_used_as_spec(with_padding_type_spec)]
    pub fn with_padding_type(self, value: StackPaddingType) -> (view: Self)
        ensures
            view == self.with_padding_type_spec(value),
    {
        let mut view = self;
        view.layout.padding_type = value;
        view
    }

    pub open spec fn with_fixed_padding_spec(self, value: Option<Scalar>) -> Self {
        StackView { layout: StackLayout { fixed_padding: value, ..self.layout }, ..self }
    }

    pub fn fixed_padding(&self) -> (value: Option<Scalar>)
        ensures
            value == self.layout.fixed_padding,
    {
        self.layout.fixed_padding
    }

    pub fn fixed_padding_mut(&mut self) -> (value: &mut Option<Scalar>)
        ensures
            *value == old(self).layout.fixed_padding,
            *final(self) == old(self).with_fixed_padding_spec(*final(value)),
    {
        &mut self.layout.fixed_padding
    }

    pub fn set_fixed_padding(&mut self, value: Option<Scalar>)
        ensures
            *final(self) == old(self).with_fixed_padding_spec(value),
    {
        self.layout.fixed_padding = value;
    }

    #[verifier::when_used_as_spec(with_fixed_padding_spec)]
    pub fn with_fixed_padding(self, value: Option<Scalar>) -> (view: Self)
        ensures
            view == self.with_fixed_padding_spec(value),
    {
        let mut view = self;
        view.layout.fixed_padding = value;
        view
    }
}

impl<V: crate::view::View> crate::view::View for StackView<V> {
    /// Measures every subview, keeps the answers, and returns the preferred size
    /// of the stack for them.
    fn preferred_size(&mut self) -> (size: RectSize<Scalar>)
        ensures
            final(self).layout == old(self).layout,
            final(self).subviews@.len() == old(self).subviews@.len(),
            final(self).subview_sizes@.len() == old(self).subviews@.len(),
            forall|i: int| #[trigger]
                old(self).has_subview(i) ==> exists|subview: &mut V|
                    {
                        &&& *subview == old(self).subviews@[i]
                        &&& *final(subview) == final(self).subviews@[i]
                        &&& #[trigger] call_ensures(
                            V::preferred_size,
                            (subview,),
                            final(self).subview_sizes@[i],
                        )
                    },
            size == old(self).layout.preferred_size_spec(final(self).subview_sizes@),
            final(self).size == size,
            final(self).subview_length_alpha_total == crate::stack::alpha_sum(
                final(self).subview_sizes@,
                old(self).layout.axis,
            ),
    {
        self.subview_sizes.clear();
        let n = self.subviews.len();
        let mut i: usize = 0;
        while i < n
            invariant
                i <= n,
                n == self.subviews@.len(),
                n == old(self).subviews@.len(),
                self.subview_sizes@.len() == i,
                self.layout == old(self).layout,
                forall|j: int| #[trigger]
                    old(self).has_subview(j) && j < i ==> exists|subview: &mut V|
                        {
                            &&& *subview == old(self).subviews@[j]
                            &&& *final(subview) == self.subviews@[j]
                            &&& #[trigger] call_ensures(
                                V::preferred_size,
                                (subview,),
                                self.subview_sizes@[j],
                            )
                        },
                forall|j: int| i <= j < n ==> self.subviews@[j] == old(self).subviews@[j],
            decreases n - i,
        {
            let ghost subviews = self.subviews@;
            let ghost sizes = self.subview_sizes@;
            let subview_size = self.subviews[i].preferred_size();
            self.subview_sizes.push(subview_size);
            assert forall|j: int| #[trigger] old(self).has_subview(j) && j < i + 1 implies exists|
                subview: &mut V,
            |
                {
                    &&& *subview == old(self).subviews@[j]
                    &&& *final(subview) == self.subviews@[j]
                    &&& #[trigger] call_ensures(V::preferred_size, (subview,), self.subview_sizes@[j])
                } by {
                if j < i {
                    assert(self.subviews@[j] == subviews[j]);
                    assert(self.subview_sizes@[j] == sizes[j]);
                } else {
                    assert(subviews[i as int] == old(self).subviews@[i as int]);
                    assert(self.subview_sizes@[i as int] == subview_size);
                }
            }
            i += 1;
        }
        self.subview_length_alpha_total = self.layout.alpha_sum(&self.subview_sizes);
        self.size = self.layout.preferred_size(&self.subview_sizes);
        self.size
    }

    /// Places the subviews within `bounds` by the sizes they last preferred.
    /// Subviews that have come since then are left without a place.
    fn apply_bounds(&mut self, bounds: Bounds<Scalar>)
        ensures
            final(self).layout == old(self).layout,
            final(self).subviews@.len() == old(self).subviews@.len(),
            final(self).subview_sizes == old(self).subview_sizes,
            final(self).size == old(self).size,
            final(self).subview_length_alpha_total == old(self).subview_length_alpha_total,
            forall|i: int| #[trigger]
                old(self).has_measured_subview(i) ==> exists|subview: &mut V|
                    {
                        &&& *subview == old(self).subviews@[i]
                        &&& *final(subview) == final(self).subviews@[i]
                        &&& #[trigger] call_ensures(
                            V::apply_bounds,
                            (
                                subview,
                                old(self).layout.subview_bounds(
                                    old(self).subview_sizes@,
                                    bounds,
                                    i as nat,
                                ),
                            ),
                            (),
                        )
                    },
            forall|i: int|
                old(self).subview_sizes@.len() <= i < old(self).subviews@.len()
                    ==> final(self).subviews@[i] == old(self).subviews@[i],
    {
        let placed = self.layout.arrange(&self.subview_sizes, bounds);
        let n = self.subviews.len();
        let mut i: usize = 0;
        while i < n && i < placed.len()
            invariant
                i <= n,
                i <= placed@.len(),
                n == self.subviews@.len(),
                n == old(self).subviews@.len(),
                placed@ == old(self).layout.arrangement(old(self).subview_sizes@, bounds),
                self.layout == old(self).layout,
                self.subview_sizes == old(self).subview_sizes,
                self.size == old(self).size,
                self.subview_length_alpha_total == old(self).subview_length_alpha_total,
                forall|j: int| #[trigger]
                    old(self).has_measured_subview(j) && j < i ==> exists|subview: &mut V|
                        {
                            &&& *subview == old(self).subviews@[j]
                            &&& *final(subview) == self.subviews@[j]
                            &&& #[trigger] call_ensures(
                                V::apply_bounds,
                                (
                                    subview,
                                    old(self).layout.subview_bounds(
                                        old(self).subview_sizes@,
                                        bounds,
                                        j as nat,
                                    ),
                                ),
                                (),
                            )
                        },
                forall|j: int| i <= j < n ==> self.subviews@[j] == old(self).subviews@[j],
            decreases n - i,
        {
            let ghost subviews = self.subviews@;
            self.subviews[i].apply_bounds(placed[i]);
            assert forall|j: int| #[trigger]
                old(self).has_measured_subview(j) && j < i + 1 implies exists|subview: &mut V|
                {
                    &&& *subview == old(self).subviews@[j]
                    &&& *final(subview) == self.subviews@[j]
                    &&& #[trigger] call_ensures(
                        V::apply_bounds,
                        (
                            subview,
                            old(self).layout.subview_bounds(
                                old(self).subview_sizes@,
                                bounds,
                                j as nat,
                            ),
                        ),
                        (),
                    )
                } by {
                if j < i {
                    assert(self.subviews@[j] == subviews[j]);
                } else {
                    assert(subviews[i as int] == old(self).subviews@[i as int]);
                    assert(placed@[i as int] == old(self).layout.subview_bounds(
                        old(self).subview_sizes@,
                        bounds,
                        i as nat,
                    ));
                }
            }
            i += 1;
        }
    }
}

/// Lays its subviews out on top of each other.
pub struct ZStackView<V> {
    pub layout: ZStackLayout,
    pub subviews: Vec<V>,
    /// What the subviews preferred when they were last measured, in their order.
    pub subview_sizes: Vec<RectSize<Scalar>>,
    /// The preferred size of the stack when it was last measured.
    pub size: Option<RectSize<Scalar>>,
}

impl<V> ZStackView<V> {
    /// Whether the stack has a subview at place `i`.
    pub open spec fn has_subview(&self, i: int) -> bool {
        0 <= i < self.subviews@.len()
    }

    /// Whether the stack has a subview at place `i` that it has measured.
    pub open spec fn has_measured_subview(&self, i: int) -> bool {
        0 <= i < self.subviews@.len() && i < self.subview_sizes@.len()
    }

    /// A z-stack that centers its subviews, not measured yet.
    pub fn new(subviews: Vec<V>) -> (view: Self)
        ensures
            view.layout == ZStackLayout::initial(),
            view.subviews == subviews,
            view.subview_sizes@.len() == 0,
            view.size is None,
    {
        ZStackView { layout: ZStackLayout::new(), subviews, subview_sizes: Vec::new(), size: None }
    }

    pub open spec fn with_alignment_horizontal_spec(self, value: StackAlignment) -> Self {
        ZStackView { layout: ZStackLayout { alignment_horizontal: value, ..self.layout }, ..self }
    }

    pub fn alignment_horizontal(&self) -> (value: StackAlignment)
        ensures
            value == self.layout.alignment_horizontal,
    {
        self.layout.alignment_horizontal
    }

    pub fn alignment_horizontal_mut(&mut self) -> (value: &mut StackAlignment)
        ensures
            *value == old(self).layout.alignment_horizontal,
            *final(self) == old(self).with_alignment_horizontal_spec(*final(value)),
    {
        &mut self.layout.alignment_horizontal
    }

    pub fn set_alignment_horizontal(&mut self, value: StackAlignment)
        ensures
            *final(self) == old(self).with_alignment_horizontal_spec(value),
    {
        self.layout.alignment_horizontal = value;
    }

    #[verifier::when_used_as_spec(with_alignment_horizontal_spec)]
    pub fn with_alignment_horizontal(self, value: StackAlignment) -> (view: Self)
        ensures
            view == self.with_alignment_horizontal_spec(value),
    {
        let mut view = self;
        view.layout.alignment_horizontal = value;
        view
    }

    pub open spec fn with_alignment_vertical_spec(self, value: StackAlignment) -> Self {
        ZStackView { layout: ZStackLayout { alignment_vertical: value, ..self.layout }, ..self }
    }

    pub fn alignment_vertical(&self) -> (value: StackAlignment)
        ensures
            value == self.layout.alignment_vertical,
    {
        self.layout.alignment_vertical
    }

    pub fn alignment_vertical_mut(&mut self) -> (value: &mut StackAlignment)
        ensures
            *value == old(self).layout.alignment_vertical,
            *final(self) == old(self).with_alignment_vertical_spec(*final(value)),
    {
        &mut self.layout.alignment_vertical
    }

    pub fn set_alignment_vertical(&mut self, value: StackAlignment)
        ensures
            *final(self) == old(self).with_alignment_vertical_spec(value),
    {
        self.layout.alignment_vertical = value;
    }

    #[verifier::when_used_as_spec(with_alignment_vertical_spec)]
    pub fn with_alignment_vertical(self, value: StackAlignment) -> (view: Self)
        ensures
            view == self.with_alignment_vertical_spec(value),
    {
        let mut view = self;
        view.layout.alignment_vertical = value;
        view
    }
}

impl<V: crate::view::View> crate::view::View for ZStackView<V> {
    /// Measures every subview, keeps the answers, and returns the greatest
    /// width and the greatest height among them.
    fn preferred_size(&mut self) -> (size: RectSize<Scalar>)
        ensures
            final(self).layout == old(self).layout,
            final(self).subviews@.len() == old(self).subviews@.len(),
            final(self).subview_sizes@.len() == old(self).subviews@.len(),
            forall|i: int| #[trigger]
                old(self).has_subview(i) ==> exists|subview: &mut V|
                    {
                        &&& *subview == old(self).subviews@[i]
                        &&& *final(subview) == final(self).subviews@[i]
                        &&& #[trigger] call_ensures(
                            V::preferred_size,
                            (subview,),
                            final(self).subview_sizes@[i],
                        )
                    },
            size == crate::zstack::size_max(final(self).subview_sizes@),
            final(self).size == Some(size),
    {
        self.subview_sizes.clear();
        let n = self.subviews.len();
        let mut i: usize = 0;
        while i < n
            invariant
                i <= n,
                n == self.subviews@.len(),
                n == old(self).subviews@.len(),
                self.subview_sizes@.len() == i,
                self.layout == old(self).layout,
                forall|j: int| #[trigger]
                    old(self).has_subview(j) && j < i ==> exists|subview: &mut V|
                        {
                            &&& *subview == old(self).subviews@[j]
                            &&& *final(subview) == self.subviews@[j]
                            &&& #[trigger] call_ensures(
                                V::preferred_size,
                                (subview,),
                                self.subview_sizes@[j],
                            )
                        },
                forall|j: int| i <= j < n ==> self.subviews@[j] == old(self).subviews@[j],
            decreases n - i,
        {
            let ghost subviews = self.subviews@;
            let ghost sizes = self.subview_sizes@;
            let subview_size = self.subviews[i].preferred_size();
            self.subview_sizes.push(subview_size);
            assert forall|j: int| #[trigger] old(self).has_subview(j) && j < i + 1 implies exists|
                subview: &mut V,
            |
                {
                    &&& *subview == old(self).subviews@[j]
                    &&& *final(subview) == self.subviews@[j]
                    &&& #[trigger] call_ensures(V::preferred_size, (subview,), self.subview_sizes@[j])
                } by {
                if j < i {
                    assert(self.subviews@[j] == subviews[j]);
                    assert(self.subview_sizes@[j] == sizes[j]);
                } else {
                    assert(subviews[i as int] == old(self).subviews@[i as int]);
                    assert(self.subview_sizes@[i as int] == subview_size);
                }
            }
            i += 1;
        }
        let size = self.layout.preferred_size(&self.subview_sizes);
        self.size = Some(size);
        size
    }

    /// Places the subviews within `bounds` by the sizes they last preferred; a
    /// stack that was never measured is measured first. Subviews that have come
    /// since the last measuring are left without a place.
    fn apply_bounds(&mut self, bounds: Bounds<Scalar>)
        ensures
            final(self).layout == old(self).layout,
            final(self).subviews@.len() == old(self).subviews@.len(),
            old(self).size is Some ==> {
                &&& final(self).subview_sizes == old(self).subview_sizes
                &&& final(self).size == old(self).size
                &&& forall|i: int| #[trigger]
                    old(self).has_measured_subview(i) ==> exists|subview: &mut V|
                        {
                            &&& *subview == old(self).subviews@[i]
                            &&& *final(subview) == final(self).subviews@[i]
                            &&& #[trigger] call_ensures(
                                V::apply_bounds,
                                (
                                    subview,
                                    old(self).layout.subview_bounds(
                                        old(self).subview_sizes@,
                                        bounds,
                                        i,
                                    ),
                                ),
                                (),
                            )
                        }
                &&& forall|i: int|
                    old(self).subview_sizes@.len() <= i < old(self).subviews@.len()
                        ==> final(self).subviews@[i] == old(self).subviews@[i]
            },
            old(self).size is None ==> {
                &&& final(self).subview_sizes@.len() == old(self).subviews@.len()
                &&& final(self).size == Some(crate::zstack::size_max(final(self).subview_sizes@))
                &&& forall|i: int| #[trigger]
                    old(self).has_subview(i) ==> exists|measured: &mut V, placed: &mut V|
                        {
                            &&& *measured == old(self).subviews@[i]
                            &&& #[trigger] call_ensures(
                                V::preferred_size,
                                (measured,),
                                final(self).subview_sizes@[i],
                            )
                            &&& *placed == *final(measured)
                            &&& *final(placed) == final(self).subviews@[i]
                            &&& #[trigger] call_ensures(
                                V::apply_bounds,
                                (
                                    placed,
                                    old(self).layout.subview_bounds(
                                        final(self).subview_sizes@,
                                        bounds,
                                        i,
                                    ),
                                ),
                                (),
                            )
                        }
            },
    {
        if self.size.is_none() {
            self.preferred_size();
        }
        let ghost measured = self.subviews@;
        let placed = self.layout.arrange(&self.subview_sizes, bounds);
        let n = self.subviews.len();
        let ghost sizes = self.subview_sizes;
        let ghost size = self.size;
        let mut i: usize = 0;
        while i < n && i < placed.len()
            invariant
                i <= n,
                i <= placed@.len(),
                n == self.subviews@.len(),
                n == measured.len(),
                n == old(self).subviews@.len(),
                placed@ == old(self).layout.arrangement(sizes@, bounds),
                self.layout == old(self).layout,
                self.subview_sizes == sizes,
                self.size == size,
                forall|j: int| #[trigger]
                    old(self).has_subview(j) && j < i ==> exists|subview: &mut V|
                        {
                            &&& *subview == measured[j]
                            &&& *final(subview) == self.subviews@[j]
                            &&& #[trigger] call_ensures(
                                V::apply_bounds,
                                (subview, old(self).layout.subview_bounds(sizes@, bounds, j)),
                                (),
                            )
                        },
                forall|j: int| i <= j < n ==> self.subviews@[j] == measured[j],
            decreases n - i,
        {
            let ghost subviews = self.subviews@;
            self.subviews[i].apply_bounds(placed[i]);
            assert forall|j: int| #[trigger] old(self).has_subview(j) && j < i + 1 implies exists|
                subview: &mut V,
            |
                {
                    &&& *subview == measured[j]
                    &&& *final(subview) == self.subviews@[j]
                    &&& #[trigger] call_ensures(
                        V::apply_bounds,
                        (subview, old(self).layout.subview_bounds(sizes@, bounds, j)),
                        (),
                    )
                } by {
                if j < i {
                    assert(self.subviews@[j] == subviews[j]);
                } else {
                    assert(subviews[i as int] == measured[i as int]);
                    assert(placed@[i as int] == old(self).layout.subview_bounds(
                        sizes@,
                        bounds,
                        i as int,
                    ));
                }
            }
            i += 1;
        }
        proof {
            if old(self).size is Some {
                assert forall|j: int| #[trigger] old(self).has_measured_subview(j) implies exists|
                    subview: &mut V,
                |
                    {
                        &&& *subview == old(self).subviews@[j]
                        &&& *final(subview) == self.subviews@[j]
                        &&& #[trigger] call_ensures(
                            V::apply_bounds,
                            (
                                subview,
                                old(self).layout.subview_bounds(
                                    old(self).subview_sizes@,
                                    bounds,
                                    j,
                                ),
                            ),
                            (),
                        )
                    } by {
                    assert(old(self).has_subview(j) && j < i);
                    assert(measured[j] == old(self).subviews@[j]);
                }
            } else {
                assert forall|j: int| #[trigger] old(self).has_subview(j) implies exists|
                    first: &mut V,
                    second: &mut V,
                |
                    {
                        &&& *first == old(self).subviews@[j]
                        &&& #[trigger] call_ensures(
                            V::preferred_size,
                            (first,),
                            self.subview_sizes@[j],
                        )
                        &&& *second == *final(first)
                        &&& *final(second) == self.subviews@[j]
                        &&& #[trigger] call_ensures(
                            V::apply_bounds,
                            (
                                second,
                                old(self).layout.subview_bounds(self.subview_sizes@, bounds, j),
                            ),
                            (),
                        )
                    } by {
                    assert(old(self).has_subview(j) && j < i);
                }
            }
        }
    }
}

} // verus!
