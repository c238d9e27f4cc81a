//! Placing subviews on top of each other.
use vstd::prelude::*;
use crate::bounds::{Bounds, RectSize, Vector2};
use crate::scalar::Scalar;
use crate::stack::{squeeze, squeeze_factor, StackAlignment};

verus! {

/// The greatest width and the greatest height among the first `n` of `sizes`,
/// each zero at least.
pub open spec fn size_max_upto(sizes: Seq<RectSize<Scalar>>, n: nat) -> RectSize<Scalar>
    decreases n,
{
    if n == 0 {
        RectSize { width: Scalar { raw: 0 }, height: Scalar { raw: 0 } }
    } else {
        size_max_upto(sizes, (n - 1) as nat).max_spec(sizes[n - 1])
    }
}

/// The greatest width and the greatest height among `sizes`, each zero at least.
pub open spec fn size_max(sizes: Seq<RectSize<Scalar>>) -> RectSize<Scalar> {
    size_max_upto(sizes, sizes.len())
}

/// The length that a subview of preferred length `requested` gets where the stack
/// prefers `preferred` and has `available`: shrunk by the factor
/// `min(1, available / preferred)`, and the whole of `available` where the subview
/// asks for more than that.
pub open spec fn fitted_length(requested: Scalar, preferred: Scalar, available: Scalar) -> Scalar {
    requested.mul_spec(squeeze_factor(available, preferred)).min_spec(available)
}

/// The policies of a z-stack: where each subview sits within the bounds,
/// horizontally and vertically.
#[derive(Clone, Copy, Debug, PartialEq, Eq)]
pub struct ZStackLayout {
    pub alignment_horizontal: StackAlignment,
    pub alignment_vertical: StackAlignment,
}

impl ZStackLayout {
    /// The place within `bounds` of a subview that prefers `requested`, in a
    /// z-stack that prefers `preferred`.
    pub open spec fn place(
        self,
        requested: RectSize<Scalar>,
        preferred: RectSize<Scalar>,
        bounds: Bounds<Scalar>,
    ) -> Bounds<Scalar> {
        let size = RectSize {
            width: fitted_length(requested.width, preferred.width, bounds.size.width),
            height: fitted_length(requested.height, preferred.height, bounds.size.height),
        };
        Bounds {
            origin: bounds.origin.translated_spec(
                Vector2 {
                    x: bounds.size.width.sub_spec(size.width).mul_spec(
                        self.alignment_horizontal.ratio_spec(),
                    ),
                    y: bounds.size.height.sub_spec(size.height).mul_spec(
                        self.alignment_vertical.ratio_spec(),
                    ),
                },
            ),
            size,
        }
    }

    /// The place of subview `i` within `bounds`.
    pub open spec fn subview_bounds(self, sizes: Seq<RectSize<Scalar>>, bounds: Bounds<Scalar>, i: int) -> Bounds<
        Scalar,
    > {
        self.place(sizes[i], size_max(sizes), bounds)
    }

    /// The places of all subviews within `bounds`, in their order.
    pub open spec fn arrangement(self, sizes: Seq<RectSize<Scalar>>, bounds: Bounds<Scalar>) -> Seq<
        Bounds<Scalar>,
    > {
        Seq::new(sizes.len(), |i: int| self.subview_bounds(sizes, bounds, i))
    }

    /// The policies of a new z-stack: centered both ways.
    pub open spec fn initial() -> Self {
        ZStackLayout {
            alignment_horizontal: StackAlignment::Center,
            alignment_vertical: StackAlignment::Center,
        }
    }

    #[verifier::when_used_as_spec(initial)]
    pub fn new() -> (layout: Self)
        ensures
            layout == Self::initial(),
    {
        ZStackLayout {
            alignment_horizontal: StackAlignment::Center,
            alignment_vertical: StackAlignment::Center,
        }
    }

    /// The preferred size of a z-stack whose subviews prefer `sizes`: the
    /// greatest width and the greatest height among them.
    pub fn preferred_size(self, sizes: &Vec<RectSize<Scalar>>) -> (size: RectSize<Scalar>)
        ensures
            size == size_max(sizes@),
    {
        let mut size = RectSize::new(Scalar::zero(), Scalar::zero());
        let mut i: usize = 0;
        while i < sizes.len()
            invariant
                i <= sizes.len(),
                size == size_max_upto(sizes@, i as nat),
            decreases sizes.len() - i,
        {
            size = size.max(sizes[i]);
            i += 1;
        }
        size
    }

    /// Places one subview, which prefers `requested`, within `bounds`.
    pub fn place_subview(
        self,
        requested: RectSize<Scalar>,
        preferred: RectSize<Scalar>,
        bounds: Bounds<Scalar>,
    ) -> (placed: Bounds<Scalar>)
        ensures
            placed == self.place(requested, preferred, bounds),
    {
        let squeeze_horizontal = squeeze(bounds.width(), preferred.width);
        let squeeze_vertical = squeeze(bounds.height(), preferred.height);
        let size = requested.scaled(squeeze_horizontal, squeeze_vertical).min(bounds.size);
        let padding = Vector2::new(
            bounds.width().sub(size.width).mul(self.alignment_horizontal.ratio()),
            bounds.height().sub(size.height).mul(self.alignment_vertical.ratio()),
        );
        Bounds::new(bounds.origin.translated(padding), size)
    }

    /// Places the subviews, which prefer `sizes`, within `bounds`.
    pub fn arrange(self, sizes: &Vec<RectSize<Scalar>>, bounds: Bounds<Scalar>) -> (placed: Vec<
        Bounds<Scalar>,
    >)
        ensures
            placed@ == self.arrangement(sizes@, bounds),
    {
        let preferred = self.preferred_size(sizes);
        let mut placed: Vec<Bounds<Scalar>> = Vec::new();
        let mut i: usize = 0;
        while i < sizes.len()
            invariant
                i <= sizes.len(),
                preferred == size_max(sizes@),
                placed@.len() == i,
                forall|j: int| 0 <= j < i ==> placed@[j] == self.subview_bounds(sizes@, bounds, j),
            decreases sizes.len() - i,
        {
            placed.push(self.place_subview(sizes[i], preferred, bounds));
            i += 1;
        }
        placed
    }
}

} // verus!
