//! Distribution of subviews along one axis.
//!
//! A [`StackLayout`] holds the policies of a stack and computes, from the preferred
//! sizes of the subviews alone, the preferred size of the stack and the place of
//! every subview within given bounds.
use vstd::prelude::*;
use crate::axis::Axis;
use crate::bounds::{Bounds, Point2, RectSize, Vector2};
use crate::scalar::Scalar;

verus! {

#[derive(Clone, Copy, Debug, PartialEq, Eq, Structural)]
pub enum StackPaddingType {
    /// Pad only between the subviews.
    Interpadded,
    /// Pad between the subviews, before the first subview, and after the last subview.
    Omnipadded,
}

/// Where a subview sits across the axis of its stack.
#[derive(Clone, Copy, Debug, PartialEq, Eq)]
pub enum StackAlignment {
    Center,
    Leading,
    Trailing,
    /// The share of the free space that lies before the subview.
    Ratio(Scalar),
}

impl Default for StackAlignment {
    fn default() -> (alignment: Self)
        ensures
            alignment == StackAlignment::Center,
    {
        StackAlignment::Center
    }
}

impl StackAlignment {
    pub open spec fn ratio_spec(self) -> Scalar {
        match self {
            StackAlignment::Center => Scalar { raw: crate::scalar::HALF_RAW },
            StackAlignment::Leading => Scalar { raw: 0 },
            StackAlignment::Trailing => Scalar { raw: crate::scalar::ONE_RAW },
            StackAlignment::Ratio(ratio) => ratio,
        }
    }

    /// The share of the free space that lies before the subview: none when
    /// leading, a half when centered, all of it when trailing.
    #[verifier::when_used_as_spec(ratio_spec)]
    pub fn ratio(self) -> (ratio: Scalar)
        ensures
            ratio == self.ratio_spec(),
    {
        match self {
            StackAlignment::Center => Scalar::half(),
            StackAlignment::Leading => Scalar::zero(),
            StackAlignment::Trailing => Scalar::one(),
            StackAlignment::Ratio(ratio) => ratio,
        }
    }
}

/// The factor by which lengths shrink where `available` falls short of
/// `preferred`, and one where it does not: `min(1, available / preferred)`.
pub open spec fn squeeze_factor(available: Scalar, preferred: Scalar) -> Scalar {
    (Scalar { raw: crate::scalar::ONE_RAW }).min_spec(available.div_spec(preferred))
}

#[verifier::when_used_as_spec(squeeze_factor)]
pub fn squeeze(available: Scalar, preferred: Scalar) -> (factor: Scalar)
    ensures
        factor == squeeze_factor(available, preferred),
{
    Scalar::one().min(available.div(preferred))
}

/// The sum of the lengths of the first `n` of `sizes` along `axis`.
pub open spec fn alpha_sum_upto(sizes: Seq<RectSize<Scalar>>, axis: Axis, n: nat) -> Scalar
    decreases n,
{
    if n == 0 {
        Scalar { raw: 0 }
    } else {
        alpha_sum_upto(sizes, axis, (n - 1) as nat).add_spec(sizes[n - 1].alpha_spec(axis))
    }
}

/// The sum of the lengths of `sizes` along `axis`.
pub open spec fn alpha_sum(sizes: Seq<RectSize<Scalar>>, axis: Axis) -> Scalar {
    alpha_sum_upto(sizes, axis, sizes.len())
}

/// The greatest of the lengths of the first `n` of `sizes` across `axis`, and
/// zero at least.
pub open spec fn beta_max_upto(sizes: Seq<RectSize<Scalar>>, axis: Axis, n: nat) -> Scalar
    decreases n,
{
    if n == 0 {
        Scalar { raw: 0 }
    } else {
        beta_max_upto(sizes, axis, (n - 1) as nat).max_spec(sizes[n - 1].beta_spec(axis))
    }
}

/// The greatest of the lengths of `sizes` across `axis`, and zero at least.
pub open spec fn beta_max(sizes: Seq<RectSize<Scalar>>, axis: Axis) -> Scalar {
    beta_max_upto(sizes, axis, sizes.len())
}

/// The policies of a stack.
#[derive(Clone, Copy, Debug, PartialEq, Eq)]
pub struct StackLayout {
    pub axis: Axis,
    pub alignment: StackAlignment,
    pub padding_type: StackPaddingType,
    /// The padding between subviews; `None` spreads the free space evenly.
    pub fixed_padding: Option<Scalar>,
}

impl StackLayout {
    /// Number of paddings among `n_subviews` subviews.
    pub open spec fn n_paddings_spec(self, n_subviews: usize) -> usize {
        match self.padding_type {
            StackPaddingType::Interpadded => if n_subviews == 0 {
                0
            } else {
                (n_subviews - 1) as usize
            },
            StackPaddingType::Omnipadded => if n_subviews == usize::MAX {
                usize::MAX
            } else {
                (n_subviews + 1) as usize
            },
        }
    }

    /// The fixed padding, or zero where the padding is flexible.
    pub open spec fn measured_padding(self) -> Scalar {
        match self.fixed_padding {
            Some(padding) => padding,
            None => Scalar { raw: 0 },
        }
    }

    /// The preferred length along the axis: the lengths of the subviews and the
    /// fixed paddings added up.
    pub open spec fn preferred_alpha(self, sizes: Seq<RectSize<Scalar>>) -> Scalar {
        alpha_sum(sizes, self.axis).add_spec(
            self.measured_padding().times_spec(self.n_paddings_spec(sizes.len() as usize)),
        )
    }

    pub open spec fn preferred_size_spec(self, sizes: Seq<RectSize<Scalar>>) -> RectSize<Scalar> {
        RectSize::on_axis(self.axis, self.preferred_alpha(sizes), beta_max(sizes, self.axis))
    }

    /// The factor by which lengths along the axis shrink where `available` falls
    /// short of the preferred length; one otherwise.
    pub open spec fn squeeze_spec(self, sizes: Seq<RectSize<Scalar>>, available: Scalar) -> Scalar {
        squeeze_factor(available, self.preferred_alpha(sizes))
    }

    /// The padding in effect within `available`: the fixed padding shrunk like
    /// the subviews, or an even share of what the subviews leave free.
    pub open spec fn padding_spec(self, sizes: Seq<RectSize<Scalar>>, available: Scalar) -> Scalar {
        match self.fixed_padding {
            Some(padding) => padding.mul_spec(self.squeeze_spec(sizes, available)),
            None => available.sub_spec(alpha_sum(sizes, self.axis)).split_spec(
                self.n_paddings_spec(sizes.len() as usize),
            ).max_spec(Scalar { raw: 0 }),
        }
    }

    /// The padding that precedes subview `i`.
    pub open spec fn leading_padding(self, sizes: Seq<RectSize<Scalar>>, available: Scalar, i: int) -> Scalar {
        if i != 0 || self.padding_type == StackPaddingType::Omnipadded {
            self.padding_spec(sizes, available)
        } else {
            Scalar { raw: 0 }
        }
    }

    /// The length along the axis that subview `i` gets when it starts at
    /// `offset`: its preferred length shrunk by the squeeze factor, but no more
    /// than what is left of `available` behind `offset`.
    pub open spec fn extent_at(
        self,
        sizes: Seq<RectSize<Scalar>>,
        available: Scalar,
        i: int,
        offset: Scalar,
    ) -> Scalar {
        sizes[i].alpha_spec(self.axis).mul_spec(self.squeeze_spec(sizes, available)).min_spec(
            available.sub_spec(offset),
        )
    }

    /// The distance along the axis from the start of the bounds to subview `i`.
    pub open spec fn offset_of(self, sizes: Seq<RectSize<Scalar>>, available: Scalar, i: nat) -> Scalar
        decreases i,
    {
        if i == 0 {
            self.leading_padding(sizes, available, 0)
        } else {
            let before = self.offset_of(sizes, available, (i - 1) as nat);
            before.add_spec(self.extent_at(sizes, available, i - 1, before)).add_spec(
                self.leading_padding(sizes, available, i as int),
            )
        }
    }

    /// The length along the axis that subview `i` gets.
    pub open spec fn extent_of(self, sizes: Seq<RectSize<Scalar>>, available: Scalar, i: nat) -> Scalar {
        self.extent_at(sizes, available, i as int, self.offset_of(sizes, available, i))
    }

    /// The place of subview `i` within `bounds`.
    pub open spec fn subview_bounds(
        self,
        sizes: Seq<RectSize<Scalar>>,
        bounds: Bounds<Scalar>,
        i: nat,
    ) -> Bounds<Scalar> {
        let available = bounds.size.alpha_spec(self.axis);
        let offset = self.offset_of(sizes, available, i);
        let beta = sizes[i as int].beta_spec(self.axis).min_spec(bounds.size.beta_spec(self.axis));
        let offset_b = self.alignment.ratio_spec().mul_spec(
            bounds.size.beta_spec(self.axis).sub_spec(beta),
        );
        Bounds {
            origin: bounds.origin.translated_spec(Vector2::on_axis(self.axis, offset, offset_b)),
            size: RectSize::on_axis(self.axis, self.extent_of(sizes, available, i), beta),
        }
    }

    /// The places of all subviews within `bounds`, in their order.
    pub open spec fn arrangement(self, sizes: Seq<RectSize<Scalar>>, bounds: Bounds<Scalar>) -> Seq<
        Bounds<Scalar>,
    > {
        Seq::new(sizes.len(), |i: int| self.subview_bounds(sizes, bounds, i as nat))
    }

    /// The policies of a new stack: centered, padded between the subviews only,
    /// with flexible padding.
    pub open spec fn initial(axis: Axis) -> Self {
        StackLayout {
            axis,
            alignment: StackAlignment::Center,
            padding_type: StackPaddingType::Interpadded,
            fixed_padding: None,
        }
    }

    #[verifier::when_used_as_spec(initial)]
    pub fn new(axis: Axis) -> (layout: Self)
        ensures
            layout == Self::initial(axis),
    {
        StackLayout {
            axis,
            alignment: StackAlignment::Center,
            padding_type: StackPaddingType::Interpadded,
            fixed_padding: None,
        }
    }

    #[verifier::when_used_as_spec(n_paddings_spec)]
    pub fn n_paddings(self, n_subviews: usize) -> (n: usize)
        ensures
            n == self.n_paddings_spec(n_subviews),
    {
        match self.padding_type {
            StackPaddingType::Interpadded => if n_subviews == 0 {
                0
            } else {
                n_subviews - 1
            },
            StackPaddingType::Omnipadded => if n_subviews == usize::MAX {
                usize::MAX
            } else {
                n_subviews + 1
            },
        }
    }

    /// Adds up the lengths of `sizes` along the axis.
    pub fn alpha_sum(self, sizes: &Vec<RectSize<Scalar>>) -> (sum: Scalar)
        ensures
            sum == alpha_sum(sizes@, self.axis),
    {
        let mut sum = Scalar::zero();
        let mut i: usize = 0;
        while i < sizes.len()
            invariant
                i <= sizes.len(),
                sum == alpha_sum_upto(sizes@, self.axis, i as nat),
            decreases sizes.len() - i,
        {
            sum = sum.add(sizes[i].alpha(self.axis));
            i += 1;
        }
        sum
    }

    /// Finds the greatest of the lengths of `sizes` across the axis.
    pub fn beta_max(self, sizes: &Vec<RectSize<Scalar>>) -> (max: Scalar)
        ensures
            max == beta_max(sizes@, self.axis),
    {
        let mut max = Scalar::zero();
        let mut i: usize = 0;
        while i < sizes.len()
            invariant
                i <= sizes.len(),
                max == beta_max_upto(sizes@, self.axis, i as nat),
            decreases sizes.len() - i,
        {
            max = max.max(sizes[i].beta(self.axis));
            i += 1;
        }
        max
    }

    /// The preferred size of a stack whose subviews prefer `sizes`: along the
    /// axis the sum of their lengths and of the fixed paddings, across it the
    /// greatest of their lengths.
    pub fn preferred_size(self, sizes: &Vec<RectSize<Scalar>>) -> (size: RectSize<Scalar>)
        ensures
            size == self.preferred_size_spec(sizes@),
    {
        self.preferred_size_from(self.alpha_sum(sizes), self.beta_max(sizes), sizes.len())
    }

    /// The preferred size of a stack of `n_subviews` subviews, from the sum of
    /// their lengths along the axis and the greatest of their lengths across it.
    pub fn preferred_size_from(self, alpha_sum: Scalar, beta_max: Scalar, n_subviews: usize) -> (size:
        RectSize<Scalar>)
        ensures
            size == RectSize::on_axis(
                self.axis,
                alpha_sum.add_spec(
                    self.measured_padding().times_spec(self.n_paddings_spec(n_subviews)),
                ),
                beta_max,
            ),
    {
        let padding = match self.fixed_padding {
            Some(padding) => padding,
            None => Scalar::zero(),
        };
        RectSize::new_on_axis(
            self.axis,
            alpha_sum.add(padding.times(self.n_paddings(n_subviews))),
            beta_max,
        )
    }

    /// Places the subviews, which prefer `sizes`, within `bounds`.
    pub fn arrange(self, sizes: &Vec<RectSize<Scalar>>, bounds: Bounds<Scalar>) -> (placed: Vec<
        Bounds<Scalar>,
    >)
        ensures
            placed@ == self.arrangement(sizes@, bounds),
    {
        let n = sizes.len();
        let available = bounds.alpha(self.axis);
        let across = bounds.beta(self.axis);
        let sum = self.alpha_sum(sizes);
        let n_paddings = self.n_paddings(n);
        let preferred = self.preferred_size_from(sum, Scalar::zero(), n).alpha(self.axis);
        let squeeze = squeeze(available, preferred);
        let padding = match self.fixed_padding {
            Some(padding) => padding.mul(squeeze),
            None => available.sub(sum).split(n_paddings).max(Scalar::zero()),
        };
        let ratio = self.alignment.ratio();
        let mut placed: Vec<Bounds<Scalar>> = Vec::new();
        let mut offset = Scalar::zero();
        let mut i: usize = 0;
        while i < n
            invariant
                i <= n,
                n == sizes@.len(),
                available == bounds.size.alpha_spec(self.axis),
                across == bounds.size.beta_spec(self.axis),
                squeeze == self.squeeze_spec(sizes@, available),
                padding == self.padding_spec(sizes@, available),
                ratio == self.alignment.ratio_spec(),
                placed@.len() == i,
                forall|j: int| 0 <= j < i ==> placed@[j] == self.subview_bounds(sizes@, bounds, j as nat),
                i == 0 ==> offset.raw == 0,
                i > 0 ==> offset == self.offset_of(sizes@, available, (i - 1) as nat).add_spec(
                    self.extent_of(sizes@, available, (i - 1) as nat),
                ),
            decreases n - i,
        {
            if i != 0 || self.padding_type == StackPaddingType::Omnipadded {
                offset = offset.add(padding);
            }
            assert(offset == self.offset_of(sizes@, available, i as nat));
            let requested = sizes[i];
            let extent = requested.alpha(self.axis).mul(squeeze).min(available.sub(offset));
            let beta = requested.beta(self.axis).min(across);
            let offset_b = ratio.mul(across.sub(beta));
            placed.push(
                Bounds::new(
                    bounds.origin.translated(Vector2::new_on_axis(self.axis, offset, offset_b)),
                    RectSize::new_on_axis(self.axis, extent, beta),
                ),
            );
            offset = offset.add(extent);
            i += 1;
        }
        placed
    }
}

/// The sum and the maximum over the first `n` sizes do not depend on what
/// follows them.
pub proof fn lemma_folds_ignore_what_follows(
    sizes: Seq<RectSize<Scalar>>,
    longer: Seq<RectSize<Scalar>>,
    axis: Axis,
    n: nat,
)
    requires
        n <= sizes.len() <= longer.len(),
        forall|i: int| 0 <= i < n ==> sizes[i] == longer[i],
    ensures
        alpha_sum_upto(sizes, axis, n) == alpha_sum_upto(longer, axis, n),
        beta_max_upto(sizes, axis, n) == beta_max_upto(longer, axis, n),
    decreases n,
{
    if n > 0 {
        lemma_folds_ignore_what_follows(sizes, longer, axis, (n - 1) as nat);
    }
}

} // verus!
