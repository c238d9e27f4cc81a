//! Layout nodes that live for one frame.
//!
//! A [`LayoutPass`] owns an arena. The nodes that it hands out borrow the views
//! of the application, are measured as they are built, and go away with the pass.
use vstd::prelude::*;
use crate::axis::Axis;
use crate::bounds::{Bounds, RectSize};
use crate::scalar::Scalar;
use crate::stack::{lemma_folds_ignore_what_follows, StackAlignment, StackLayout, StackPaddingType};
use crate::util_views::{ContainerLayout, ContainerPadding};

verus! {

/// `bumpalo::Bump`, an arena. It is carried through unread.
#[verifier::external_type_specification]
#[verifier::external_body]
pub struct ExBump<const MIN_ALIGN: usize>(bumpalo::Bump<MIN_ALIGN>);

/// `bumpalo::collections::Vec`, a vector whose items lie in an arena. What it
/// holds is known by [`subview_sizes`] and [`subview_views`] alone.
#[verifier::external_type_specification]
#[verifier::external_body]
#[verifier::reject_recursive_types(T)]
pub struct ExBumpVec<'bump, T>(bumpalo::collections::Vec<'bump, T>);

/// A subview of a stack, with what it preferred when it was put there.
pub struct Subview<'views> {
    pub preferred_size: RectSize<Scalar>,
    pub view: &'views mut (dyn crate::view::View + 'views),
}

/// The preferred sizes of the subviews that an arena vector holds, in their
/// order. The views themselves are not described.
pub uninterp spec fn subview_sizes(subviews: bumpalo::collections::Vec<'_, Subview<'_>>) -> Seq<
    RectSize<Scalar>,
>;

/// The references to the views of the subviews that an arena vector holds, in
/// their order.
pub uninterp spec fn subview_views(subviews: bumpalo::collections::Vec<'_, Subview<'_>>) -> Seq<
    &'static mut (dyn crate::view::View + 'static),
>;

/// `bumpalo::Bump::new`: a new arena. Nothing is claimed of it.
#[verifier::external_body]
fn arena_new() -> bumpalo::Bump {
    bumpalo::Bump::new()
}

/// `bumpalo::Bump::alloc`: moves `value` into the arena and hands out the only
/// reference to it.
#[verifier::external_body]
fn arena_alloc<'a, T>(arena: &'a bumpalo::Bump, value: T) -> (slot: &'a mut T)
    ensures
        *slot == value,
{
    arena.alloc(value)
}

/// `bumpalo::collections::Vec::new_in`: a vector in the arena that holds nothing.
#[verifier::external_body]
fn subviews_new<'pass, 'views>(arena: &'pass bumpalo::Bump) -> (subviews: bumpalo::collections::Vec<
    'pass,
    Subview<'views>,
>)
    ensures
        subview_sizes(subviews) == Seq::<RectSize<Scalar>>::empty(),
        subview_views(subviews).len() == 0,
{
    bumpalo::collections::Vec::new_in(arena)
}

/// `bumpalo::collections::Vec::push`: puts one more subview behind those that
/// the vector holds, which stay as they are. Of the view that is put there, only
/// that there is one is said.
#[verifier::external_body]
fn subviews_push<'pass, 'views, V: crate::view::View + 'views>(
    subviews: &mut bumpalo::collections::Vec<'pass, Subview<'views>>,
    preferred_size: RectSize<Scalar>,
    view: &'views mut V,
)
    ensures
        subview_sizes(*final(subviews)) == subview_sizes(*old(subviews)).push(preferred_size),
        subview_views(*final(subviews)).len() == subview_views(*old(subviews)).len() + 1,
        subview_views(*final(subviews)).drop_last() == subview_views(*old(subviews)),
{
    subviews.push(Subview { preferred_size, view })
}

/// `bumpalo::collections::Vec::len`: the number of subviews that the vector holds.
#[verifier::external_body]
fn subviews_len<'pass, 'views>(subviews: &bumpalo::collections::Vec<'pass, Subview<'views>>) -> (n:
    usize)
    ensures
        n == subview_sizes(*subviews).len(),
        n == subview_views(*subviews).len(),
{
    subviews.len()
}

/// `Index::index` of `bumpalo::collections::Vec`: a look at subview `i`, of which
/// the preferred size is handed out.
#[verifier::external_body]
fn subviews_size_at<'pass, 'views>(
    subviews: &bumpalo::collections::Vec<'pass, Subview<'views>>,
    i: usize,
) -> (preferred_size: RectSize<Scalar>)
    requires
        i < subview_sizes(*subviews).len(),
    ensures
        preferred_size == subview_sizes(*subviews)[i as int],
{
    subviews[i].preferred_size
}

/// `IndexMut::index_mut` of `bumpalo::collections::Vec`: the only reference to
/// subview `i`, with the size and the view that the vector holds there. What the
/// vector holds in the end differs from what it held in the one place, by what
/// the reference is used for.
#[verifier::external_body]
fn subviews_at<'a, 'pass, 'views>(
    subviews: &'a mut bumpalo::collections::Vec<'pass, Subview<'views>>,
    i: usize,
) -> (subview: &'a mut Subview<'views>)
    requires
        i < subview_sizes(*old(subviews)).len(),
    ensures
        subview.preferred_size == subview_sizes(*old(subviews))[i as int],
        subview.view == subview_views(*old(subviews))[i as int],
        subview_sizes(*final(subviews)) == subview_sizes(*old(subviews)).update(
            i as int,
            final(subview).preferred_size,
        ),
        subview_views(*final(subviews)).len() == subview_views(*old(subviews)).len(),
        subview_views(*final(subviews))[i as int] == final(subview).view,
        forall|j: int|
            0 <= j < subview_views(*old(subviews)).len() && j != i ==> #[trigger] subview_views(
                *final(subviews),
            )[j] == subview_views(*old(subviews))[j],
{
    &mut subviews[i]
}

/// An empty view for just leaving a bit of space empty.
pub struct Spacer {
    size: RectSize<Scalar>,
}

impl Spacer {
    pub closed spec fn size(&self) -> RectSize<Scalar> {
        self.size
    }

    pub fn new(size: RectSize<Scalar>) -> (spacer: Self)
        ensures
            spacer.size() == size,
    {
        Spacer { size }
    }
}

impl crate::view::View for Spacer {
    fn preferred_size(&mut self) -> (size: RectSize<Scalar>)
        ensures
            size == old(self).size(),
            final(self).size() == old(self).size(),
    {
        self.size
    }

    fn apply_bounds(&mut self, bounds: Bounds<Scalar>)
        ensures
            final(self).size() == old(self).size(),
    {
    }
}

/// A stack of borrowed subviews. Each subview is measured when it is put on the
/// stack.
pub struct Stack<'pass, 'views> {
    layout: StackLayout,
    subviews: bumpalo::collections::Vec<'pass, Subview<'views>>,
    /// Sum of the lengths of the subviews along the axis.
    alpha_sum: Scalar,
    /// Greatest length of a subview across the axis.
    beta_max: Scalar,
}

impl<'pass, 'views> Stack<'pass, 'views> {
    /// What the subviews preferred when they were put on the stack, in their order.
    pub closed spec fn sizes(&self) -> Seq<RectSize<Scalar>> {
        subview_sizes(self.subviews)
    }

    /// The references to the views of the subviews, in their order.
    pub closed spec fn views(&self) -> Seq<&'static mut (dyn crate::view::View + 'static)> {
        subview_views(self.subviews)
    }

    /// Whether the stack has a subview at place `i`.
    pub open spec fn has_subview(&self, i: int) -> bool {
        0 <= i < self.sizes().len()
    }

    /// The policies of the stack.
    pub closed spec fn layout(&self) -> StackLayout {
        self.layout
    }

    /// The stack has the sum and the maximum of its subviews at hand.
    pub closed spec fn wf(&self) -> bool {
        &&& self.alpha_sum == crate::stack::alpha_sum(self.sizes(), self.layout.axis)
        &&& self.beta_max == crate::stack::beta_max(self.sizes(), self.layout.axis)
    }

    /// A stack along `axis` without subviews, with the policies of a new stack.
    pub fn new(bump: &'pass bumpalo::Bump, axis: Axis) -> (stack: Self)
        ensures
            stack.wf(),
            stack.layout() == StackLayout::initial(axis),
            stack.sizes().len() == 0,
            stack.views().len() == 0,
    {
        Stack {
            layout: StackLayout::new(axis),
            subviews: subviews_new(bump),
            alpha_sum: Scalar::zero(),
            beta_max: Scalar::zero(),
        }
    }

    /// Measures `subview` and puts it behind the subviews of the stack.
    pub fn subview<V: crate::view::View + 'views>(&mut self, subview: &'views mut V)
        requires
            old(self).wf(),
        ensures
            final(self).wf(),
            final(self).layout() == old(self).layout(),
            final(self).sizes().len() == old(self).sizes().len() + 1,
            final(self).sizes().drop_last() == old(self).sizes(),
            final(self).views().len() == old(self).views().len() + 1,
            final(self).views().drop_last() == old(self).views(),
            exists|measured: &mut V|
                {
                    &&& *measured == *old(subview)
                    &&& #[trigger] call_ensures(
                        V::preferred_size,
                        (measured,),
                        final(self).sizes().last(),
                    )
                },
    {
        let subview_size = subview.preferred_size();
        let subview_beta = subview_size.beta(self.layout.axis);
        self.beta_max = self.beta_max.max(subview_beta);
        self.alpha_sum = self.alpha_sum.add(subview_size.alpha(self.layout.axis));
        subviews_push(&mut self.subviews, subview_size, subview);
        proof {
            lemma_folds_ignore_what_follows(
                old(self).sizes(),
                self.sizes(),
                self.layout.axis,
                old(self).sizes().len(),
            );
            assert(self.sizes().drop_last() =~= old(self).sizes());
            assert(self.sizes().last() == subview_size);
        }
    }

    pub fn set_alignment(&mut self, alignment: StackAlignment)
        requires
            old(self).wf(),
        ensures
            final(self).wf(),
            final(self).layout() == (StackLayout { alignment, ..old(self).layout() }),
            final(self).sizes() == old(self).sizes(),
            final(self).views() == old(self).views(),
    {
        self.layout.alignment = alignment;
    }

    pub fn set_padding_type(&mut self, padding_type: StackPaddingType)
        requires
            old(self).wf(),
        ensures
            final(self).wf(),
            final(self).layout() == (StackLayout { padding_type, ..old(self).layout() }),
            final(self).sizes() == old(self).sizes(),
            final(self).views() == old(self).views(),
    {
        self.layout.padding_type = padding_type;
    }

    pub fn set_fixed_padding(&mut self, fixed_padding: Option<Scalar>)
        requires
            old(self).wf(),
        ensures
            final(self).wf(),
            final(self).layout() == (StackLayout { fixed_padding, ..old(self).layout() }),
            final(self).sizes() == old(self).sizes(),
            final(self).views() == old(self).views(),
    {
        self.layout.fixed_padding = fixed_padding;
    }

    /// Number of paddings among `n_subviews` subviews.
    pub fn n_paddings(n_subviews: usize, padding_type: StackPaddingType) -> (n: usize)
        ensures
            n == (StackLayout { padding_type, ..StackLayout::initial(Axis::Horizontal) }).n_paddings_spec(
                n_subviews,
            ),
    {
        let mut layout = StackLayout::new(Axis::Horizontal);
        layout.padding_type = padding_type;
        layout.n_paddings(n_subviews)
    }

    /// Number of subviews.
    pub fn len(&self) -> (n: usize)
        ensures
            n == self.sizes().len(),
    {
        subviews_len(&self.subviews)
    }

    /// What subview `i` preferred when it was put on the stack.
    pub fn subview_size(&self, i: usize) -> (size: Option<RectSize<Scalar>>)
        ensures
            size == (if i < self.sizes().len() {
                Some(self.sizes()[i as int])
            } else {
                None
            }),
    {
        if i < subviews_len(&self.subviews) {
            Some(subviews_size_at(&self.subviews, i))
        } else {
            None
        }
    }

    /// The places that the subviews get within `bounds`, in their order.
    pub fn arrange(&self, bounds: Bounds<Scalar>) -> (placed: Vec<Bounds<Scalar>>)
        ensures
            placed@ == self.layout().arrangement(self.sizes(), bounds),
    {
        let n = subviews_len(&self.subviews);
        let mut sizes: Vec<RectSize<Scalar>> = Vec::new();
        let mut i: usize = 0;
        while i < n
            invariant
                i <= n,
                n == self.sizes().len(),
                sizes@.len() == i,
                forall|j: int| 0 <= j < i ==> sizes@[j] == self.sizes()[j],
            decreases n - i,
        {
            sizes.push(subviews_size_at(&self.subviews, i));
            i += 1;
        }
        assert(sizes@ =~= self.sizes());
        self.layout.arrange(&sizes, bounds)
    }
}

impl<'pass, 'views> crate::view::View for Stack<'pass, 'views> {
    /// The preferred size of the stack for the subviews as they were measured.
    /// Nothing is measured anew, so that asking twice gives the same answer.
    fn preferred_size(&mut self) -> (size: RectSize<Scalar>)
        ensures
            final(self).sizes() == old(self).sizes(),
            final(self).views() == old(self).views(),
            final(self).layout() == old(self).layout(),
            final(self).wf() == old(self).wf(),
            old(self).wf() ==> size == old(self).layout().preferred_size_spec(old(self).sizes()),
    {
        self.layout.preferred_size_from(self.alpha_sum, self.beta_max, subviews_len(&self.subviews))
    }

    /// Gives every subview its place within `bounds`: the view of subview `i` is
    /// handed the place that the arrangement has for it.
    fn apply_bounds(&mut self, bounds: Bounds<Scalar>)
        ensures
            final(self).sizes() == old(self).sizes(),
            final(self).layout() == old(self).layout(),
            final(self).wf() == old(self).wf(),
            final(self).views().len() == old(self).views().len(),
            forall|i: int| #[trigger]
                old(self).has_subview(i) ==> exists|
                    view: &mut &'views mut (dyn crate::view::View + 'views),
                |
                    {
                        &&& *view == old(self).views()[i]
                        &&& *final(view) == final(self).views()[i]
                        &&& #[trigger] call_ensures(
                            <&mut (dyn crate::view::View + 'views) as crate::view::View>::apply_bounds,
                            (
                                view,
                                old(self).layout().subview_bounds(
                                    old(self).sizes(),
                                    bounds,
                                    i as nat,
                                ),
                            ),
                            (),
                        )
                    },
    {
        let placed = self.arrange(bounds);
        let n = subviews_len(&self.subviews);
        let mut i: usize = 0;
        while i < n
            invariant
                i <= n,
                n == self.sizes().len(),
                n == self.views().len(),
                n == old(self).views().len(),
                n == placed@.len(),
                placed@ == old(self).layout().arrangement(old(self).sizes(), bounds),
                self.sizes() == old(self).sizes(),
                self.layout == old(self).layout,
                self.alpha_sum == old(self).alpha_sum,
                self.beta_max == old(self).beta_max,
                forall|j: int| #[trigger]
                    old(self).has_subview(j) && j < i ==> exists|
                        view: &mut &'views mut (dyn crate::view::View + 'views),
                    |
                        {
                            &&& *view == old(self).views()[j]
                            &&& *final(view) == self.views()[j]
                            &&& #[trigger] call_ensures(
                                <&mut (dyn crate::view::View + 'views) as crate::view::View>::apply_bounds,
                                (
                                    view,
                                    old(self).layout().subview_bounds(
                                        old(self).sizes(),
                                        bounds,
                                        j as nat,
                                    ),
                                ),
                                (),
                            )
                        },
                forall|j: int| i <= j < n ==> self.views()[j] == old(self).views()[j],
            decreases n - i,
        {
            let ghost views = self.views();
            let subview = subviews_at(&mut self.subviews, i);
            crate::view::View::apply_bounds(&mut subview.view, placed[i]);
            assert forall|j: int| #[trigger] old(self).has_subview(j) && j < i + 1 implies exists|
                view: &mut &'views mut (dyn crate::view::View + 'views),
            |
                {
                    &&& *view == old(self).views()[j]
                    &&& *final(view) == self.views()[j]
                    &&& #[trigger] call_ensures(
                        <&mut (dyn crate::view::View + 'views) as crate::view::View>::apply_bounds,
                        (
                            view,
                            old(self).layout().subview_bounds(old(self).sizes(), bounds, j as nat),
                        ),
                        (),
                    )
                } by {
                if j < i {
                    assert(self.views()[j] == views[j]);
                } else {
                    assert(views[i as int] == old(self).views()[i as int]);
                    assert(placed@[i as int] == old(self).layout().subview_bounds(
                        old(self).sizes(),
                        bounds,
                        i as nat,
                    ));
                }
            }
            i += 1;
        }
    }
}

pub struct StackBuilder<'pass, 'views> {
    stack: Stack<'pass, 'views>,
}

impl<'pass, 'views> StackBuilder<'pass, 'views> {
    /// The stack as it is built so far.
    pub closed spec fn stack(&self) -> Stack<'pass, 'views> {
        self.stack
    }

    pub fn new(bump: &'pass bumpalo::Bump, axis: Axis) -> (builder: Self)
        ensures
            builder.stack().wf(),
            builder.stack().layout() == StackLayout::initial(axis),
            builder.stack().sizes().len() == 0,
            builder.stack().views().len() == 0,
    {
        StackBuilder { stack: Stack::new(bump, axis) }
    }

    /// Measures `subview` and puts it behind the subviews of the stack.
    pub fn subview<V: crate::view::View + 'views>(&mut self, subview: &'views mut V)
        requires
            old(self).stack().wf(),
        ensures
            final(self).stack().wf(),
            final(self).stack().layout() == old(self).stack().layout(),
            final(self).stack().sizes().len() == old(self).stack().sizes().len() + 1,
            final(self).stack().sizes().drop_last() == old(self).stack().sizes(),
            final(self).stack().views().len() == old(self).stack().views().len() + 1,
            final(self).stack().views().drop_last() == old(self).stack().views(),
            exists|measured: &mut V|
                {
                    &&& *measured == *old(subview)
                    &&& #[trigger] call_ensures(
                        V::preferred_size,
                        (measured,),
                        final(self).stack().sizes().last(),
                    )
                },
    {
        self.stack.subview(subview);
    }

    pub fn set_alignment(&mut self, alignment: StackAlignment)
        requires
            old(self).stack().wf(),
        ensures
            final(self).stack().wf(),
            final(self).stack().layout() == (StackLayout { alignment, ..old(self).stack().layout() }),
            final(self).stack().sizes() == old(self).stack().sizes(),
            final(self).stack().views() == old(self).stack().views(),
    {
        self.stack.set_alignment(alignment);
    }

    pub fn set_padding_type(&mut self, padding_type: StackPaddingType)
        requires
            old(self).stack().wf(),
        ensures
            final(self).stack().wf(),
            final(self).stack().layout() == (StackLayout {
                padding_type,
                ..old(self).stack().layout()
            }),
            final(self).stack().sizes() == old(self).stack().sizes(),
            final(self).stack().views() == old(self).stack().views(),
    {
        self.stack.set_padding_type(padding_type);
    }

    pub fn set_fixed_padding(&mut self, fixed_padding: Option<Scalar>)
        requires
            old(self).stack().wf(),
        ensures
            final(self).stack().wf(),
            final(self).stack().layout() == (StackLayout {
                fixed_padding,
                ..old(self).stack().layout()
            }),
            final(self).stack().sizes() == old(self).stack().sizes(),
            final(self).stack().views() == old(self).stack().views(),
    {
        self.stack.set_fixed_padding(fixed_padding);
    }

    pub fn finish(self) -> (stack: Stack<'pass, 'views>)
        ensures
            stack == self.stack(),
    {
        self.stack
    }
}

/// A box around one borrowed subview with a padding policy for each of its four
/// edges.
pub struct Container<'view, Subview: ?Sized> {
    pub subview: &'view mut Subview,
    pub layout: ContainerLayout,
    /// What the subview preferred when it was last measured.
    pub subview_size: Option<RectSize<Scalar>>,
}

impl<'view, Subview: crate::view::View + ?Sized> Container<'view, Subview> {
    /// A container without padding whose subview is not measured yet.
    pub fn new(subview: &'view mut Subview) -> (container: Self)
        ensures
            container.layout == ContainerLayout::initial(),
            container.subview_size is None,
    {
        Container { subview, layout: ContainerLayout::new(), subview_size: None }
    }

    pub fn set_padding_left(&mut self, padding: ContainerPadding)
        ensures
            final(self).layout == (ContainerLayout { padding_left: padding, ..old(self).layout }),
            final(self).subview_size == old(self).subview_size,
    {
        self.layout.padding_left = padding;
    }

    pub fn set_padding_right(&mut self, padding: ContainerPadding)
        ensures
            final(self).layout == (ContainerLayout { padding_right: padding, ..old(self).layout }),
            final(self).subview_size == old(self).subview_size,
    {
        self.layout.padding_right = padding;
    }

    pub fn set_padding_top(&mut self, padding: ContainerPadding)
        ensures
            final(self).layout == (ContainerLayout { padding_top: padding, ..old(self).layout }),
            final(self).subview_size == old(self).subview_size,
    {
        self.layout.padding_top = padding;
    }

    pub fn set_padding_bottom(&mut self, padding: ContainerPadding)
        ensures
            final(self).layout == (ContainerLayout { padding_bottom: padding, ..old(self).layout }),
            final(self).subview_size == old(self).subview_size,
    {
        self.layout.padding_bottom = padding;
    }

    /// Gives all four edges the same policy.
    pub fn set_padding(&mut self, padding: ContainerPadding)
        ensures
            final(self).layout == (ContainerLayout {
                padding_left: padding,
                padding_right: padding,
                padding_top: padding,
                padding_bottom: padding,
                ..old(self).layout
            }),
            final(self).subview_size == old(self).subview_size,
    {
        self.layout.padding_left = padding;
        self.layout.padding_right = padding;
        self.layout.padding_top = padding;
        self.layout.padding_bottom = padding;
    }

    pub fn set_spread_ratio_horizontal(&mut self, ratio: Scalar)
        ensures
            final(self).layout == (ContainerLayout {
                spread_ratio_horizontal: ratio,
                ..old(self).layout
            }),
            final(self).subview_size == old(self).subview_size,
    {
        self.layout.spread_ratio_horizontal = ratio;
    }

    pub fn set_spread_ratio_vertical(&mut self, ratio: Scalar)
        ensures
            final(self).layout == (ContainerLayout {
                spread_ratio_vertical: ratio,
                ..old(self).layout
            }),
            final(self).subview_size == old(self).subview_size,
    {
        self.layout.spread_ratio_vertical = ratio;
    }
}

impl<'view, Subview: crate::view::View + ?Sized> crate::view::View for Container<'view, Subview> {
    /// Measures the subview, keeps its answer, and adds what the edges ask for.
    fn preferred_size(&mut self) -> (size: RectSize<Scalar>)
        ensures
            final(self).layout == old(self).layout,
            exists|subview: &mut Subview, subview_size: RectSize<Scalar>|
                {
                    &&& &*subview == &*old(self).subview
                    &&& &*final(subview) == &*final(self).subview
                    &&& #[trigger] call_ensures(Subview::preferred_size, (subview,), subview_size)
                    &&& final(self).subview_size == Some(subview_size)
                    &&& size == old(self).layout.preferred_size_spec(subview_size)
                },
    {
        let subview_size = self.subview.preferred_size();
        self.subview_size = Some(subview_size);
        self.layout.preferred_size(subview_size)
    }

    /// Places the subview within `bounds` by the size it last preferred; a
    /// subview that was never measured is measured now.
    fn apply_bounds(&mut self, bounds: Bounds<Scalar>)
        ensures
            final(self).layout == old(self).layout,
            final(self).subview_size == old(self).subview_size,
            old(self).subview_size matches Some(requested_size) ==> exists|subview: &mut Subview|
                {
                    &&& &*subview == &*old(self).subview
                    &&& &*final(subview) == &*final(self).subview
                    &&& #[trigger] call_ensures(
                        Subview::apply_bounds,
                        (subview, old(self).layout.subview_bounds_spec(requested_size, bounds)),
                        (),
                    )
                },
            old(self).subview_size is None ==> exists|
                measured: &mut Subview,
                requested_size: RectSize<Scalar>,
                placed: &mut Subview,
            |
                {
                    &&& &*measured == &*old(self).subview
                    &&& #[trigger] call_ensures(Subview::preferred_size, (measured,), requested_size)
                    &&& &*placed == &*final(measured)
                    &&& &*final(placed) == &*final(self).subview
                    &&& #[trigger] call_ensures(
                        Subview::apply_bounds,
                        (placed, old(self).layout.subview_bounds_spec(requested_size, bounds)),
                        (),
                    )
                },
    {
        let requested_size = match self.subview_size {
            Some(size) => size,
            None => self.subview.preferred_size(),
        };
        let subview_bounds = self.layout.subview_bounds(requested_size, bounds);
        self.subview.apply_bounds(subview_bounds);
    }
}

/// One pass of layout. Its arena holds the nodes that it hands out; they go away
/// with the pass, and the views that they borrow are free again.
pub struct LayoutPass {
    bumpalo: bumpalo::Bump,
}

impl Default for LayoutPass {
    fn default() -> Self {
        Self::new()
    }
}

impl LayoutPass {
    pub fn new() -> Self {
        LayoutPass { bumpalo: arena_new() }
    }

    /// A container around `subview`, without padding and not measured yet.
    pub fn container<'pass, 'view, Subview: crate::view::View + ?Sized>(
        &'pass self,
        subview: &'view mut Subview,
    ) -> (container: &'pass mut Container<'view, Subview>)
        ensures
            container.layout == ContainerLayout::initial(),
            container.subview_size is None,
    {
        arena_alloc(&self.bumpalo, Container::new(subview))
    }

    /// A builder for a stack along `axis` whose subviews will lie in the arena of
    /// the pass.
    pub fn stack_builder<'pass, 'views>(&'pass self, axis: Axis) -> (builder: StackBuilder<
        'pass,
        'views,
    >)
        ensures
            builder.stack().wf(),
            builder.stack().layout() == StackLayout::initial(axis),
            builder.stack().sizes().len() == 0,
            builder.stack().views().len() == 0,
    {
        StackBuilder::new(&self.bumpalo, axis)
    }

    /// Moves the stack that `builder` has built into the arena of the pass.
    pub fn finish_stack<'pass, 'views>(&'pass self, builder: StackBuilder<'pass, 'views>) -> (stack:
        &'pass mut Stack<'pass, 'views>)
        ensures
            *stack == builder.stack(),
    {
        arena_alloc(&self.bumpalo, builder.finish())
    }

    /// A stack along `axis`, of the subviews and with the policies that `build`
    /// gives it.
    pub fn stack<'pass, 'views, F: FnOnce(&mut StackBuilder<'pass, 'views>)>(
        &'pass self,
        axis: Axis,
        build: F,
    ) -> (stack: &'pass mut Stack<'pass, 'views>)
        requires
            forall|builder: &mut StackBuilder<'pass, 'views>|
                builder.stack().wf() && builder.stack().layout() == StackLayout::initial(axis)
                    && builder.stack().sizes().len() == 0 ==> call_requires(build, (builder,)),
        ensures
            exists|builder: &mut StackBuilder<'pass, 'views>|
                {
                    &&& builder.stack().wf()
                    &&& builder.stack().layout() == StackLayout::initial(axis)
                    &&& builder.stack().sizes().len() == 0
                    &&& #[trigger] call_ensures(build, (builder,), ())
                    &&& *stack == final(builder).stack()
                },
    {
        let mut builder = self.stack_builder(axis);
        build(&mut builder);
        self.finish_stack(builder)
    }

    /// A stack from top to bottom.
    pub fn vstack<'pass, 'views, F: FnOnce(&mut StackBuilder<'pass, 'views>)>(
        &'pass self,
        build: F,
    ) -> (stack: &'pass mut Stack<'pass, 'views>)
        requires
            forall|builder: &mut StackBuilder<'pass, 'views>|
                builder.stack().wf() && builder.stack().layout() == StackLayout::initial(
                    Axis::Vertical,
                ) && builder.stack().sizes().len() == 0 ==> call_requires(build, (builder,)),
        ensures
            exists|builder: &mut StackBuilder<'pass, 'views>|
                {
                    &&& builder.stack().wf()
                    &&& builder.stack().layout() == StackLayout::initial(Axis::Vertical)
                    &&& builder.stack().sizes().len() == 0
                    &&& #[trigger] call_ensures(build, (builder,), ())
                    &&& *stack == final(builder).stack()
                },
    {
        self.stack(Axis::Vertical, build)
    }

    /// A stack from left to right.
    pub fn hstack<'pass, 'views, F: FnOnce(&mut StackBuilder<'pass, 'views>)>(
        &'pass self,
        build: F,
    ) -> (stack: &'pass mut Stack<'pass, 'views>)
        requires
            forall|builder: &mut StackBuilder<'pass, 'views>|
                builder.stack().wf() && builder.stack().layout() == StackLayout::initial(
                    Axis::Horizontal,
                ) && builder.stack().sizes().len() == 0 ==> call_requires(build, (builder,)),
        ensures
            exists|builder: &mut StackBuilder<'pass, 'views>|
                {
                    &&& builder.stack().wf()
                    &&& builder.stack().layout() == StackLayout::initial(Axis::Horizontal)
                    &&& builder.stack().sizes().len() == 0
                    &&& #[trigger] call_ensures(build, (builder,), ())
                    &&& *stack == final(builder).stack()
                },
    {
        self.stack(Axis::Horizontal, build)
    }
}

} // verus!
