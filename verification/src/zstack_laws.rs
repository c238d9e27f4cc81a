//! What holds of every z-stack.
use vstd::prelude::*;
use crate::bounds::{Bounds, RectSize};
use crate::scalar::{lemma_div_non_negative, lemma_mul_by_fraction, Scalar, ONE_RAW};
use crate::zstack::{fitted_length, size_max, size_max_upto, ZStackLayout};

verus! {

proof fn lemma_size_max_upto(sizes: Seq<RectSize<Scalar>>, n: nat)
    requires
        n <= sizes.len(),
    ensures
        0 <= size_max_upto(sizes, n).width.raw,
        0 <= size_max_upto(sizes, n).height.raw,
        forall|i: int|
            0 <= i < n ==> (#[trigger] sizes[i]).width.raw <= size_max_upto(sizes, n).width.raw
                && sizes[i].height.raw <= size_max_upto(sizes, n).height.raw,
        size_max_upto(sizes, n).width.raw == 0 || exists|i: int|
            0 <= i < n && (#[trigger] sizes[i]).width == size_max_upto(sizes, n).width,
        size_max_upto(sizes, n).height.raw == 0 || exists|i: int|
            0 <= i < n && (#[trigger] sizes[i]).height == size_max_upto(sizes, n).height,
    decreases n,
{
    if n > 0 {
        let m = (n - 1) as nat;
        lemma_size_max_upto(sizes, m);
        let front = size_max_upto(sizes, m);
        let all = size_max_upto(sizes, n);
        if all.width == sizes[m as int].width {
        } else if all.width.raw != 0 {
            let i = choose|i: int| 0 <= i < m && (#[trigger] sizes[i]).width == front.width;
            assert(sizes[i].width == all.width);
        }
        if all.height == sizes[m as int].height {
        } else if all.height.raw != 0 {
            let i = choose|i: int| 0 <= i < m && (#[trigger] sizes[i]).height == front.height;
            assert(sizes[i].height == all.height);
        }
    }
}

/// The preferred size of a z-stack is, on each axis, the greatest length among
/// its subviews: no smaller than that of any subview, and that of one of them,
/// or zero where there is no subview or none with a positive length.
pub proof fn lemma_size_max_is_the_maximum(sizes: Seq<RectSize<Scalar>>)
    ensures
        0 <= size_max(sizes).width.raw,
        0 <= size_max(sizes).height.raw,
        forall|i: int|
            0 <= i < sizes.len() ==> (#[trigger] sizes[i]).width.raw <= size_max(sizes).width.raw
                && sizes[i].height.raw <= size_max(sizes).height.raw,
        size_max(sizes).width.raw == 0 || exists|i: int|
            0 <= i < sizes.len() && (#[trigger] sizes[i]).width == size_max(sizes).width,
        size_max(sizes).height.raw == 0 || exists|i: int|
            0 <= i < sizes.len() && (#[trigger] sizes[i]).height == size_max(sizes).height,
{
    lemma_size_max_upto(sizes, sizes.len());
}

/// The length that a subview gets is neither negative nor more than what is
/// available.
pub proof fn lemma_fitted_length_within(requested: Scalar, preferred: Scalar, available: Scalar)
    requires
        requested.raw >= 0,
        preferred.raw >= 0,
        available.raw >= 0,
    ensures
        0 <= fitted_length(requested, preferred, available).raw <= available.raw,
{
    let squeeze = crate::stack::squeeze_factor(available, preferred);
    lemma_div_non_negative(available, preferred);
    lemma_mul_by_fraction(requested, squeeze);
}

/// Every subview of a z-stack is placed within the bounds of the stack: it
/// starts no earlier and ends no later, on both axes. This holds where no
/// length is negative and each alignment ratio lies between zero and one.
pub proof fn lemma_subview_within_bounds(
    layout: ZStackLayout,
    sizes: Seq<RectSize<Scalar>>,
    bounds: Bounds<Scalar>,
    i: int,
)
    requires
        0 <= i < sizes.len(),
        forall|j: int| 0 <= j < sizes.len() ==> (#[trigger] sizes[j]).non_negative(),
        bounds.size.non_negative(),
        0 <= layout.alignment_horizontal.ratio_spec().raw <= ONE_RAW,
        0 <= layout.alignment_vertical.ratio_spec().raw <= ONE_RAW,
    ensures
        layout.subview_bounds(sizes, bounds, i).within(bounds),
{
    let preferred = size_max(sizes);
    lemma_size_max_is_the_maximum(sizes);
    assert(sizes[i].non_negative());
    lemma_fitted_length_within(sizes[i].width, preferred.width, bounds.size.width);
    lemma_fitted_length_within(sizes[i].height, preferred.height, bounds.size.height);
    let width = fitted_length(sizes[i].width, preferred.width, bounds.size.width);
    let height = fitted_length(sizes[i].height, preferred.height, bounds.size.height);
    lemma_mul_by_fraction(bounds.size.width.sub_spec(width), layout.alignment_horizontal.ratio_spec());
    lemma_mul_by_fraction(bounds.size.height.sub_spec(height), layout.alignment_vertical.ratio_spec());
}

/// Where the bounds of a z-stack are no smaller than its preferred size, a
/// subview with finite lengths gets the size it prefers.
pub proof fn lemma_roomy_bounds_keep_sizes(
    layout: ZStackLayout,
    sizes: Seq<RectSize<Scalar>>,
    bounds: Bounds<Scalar>,
    i: int,
)
    requires
        0 <= i < sizes.len(),
        forall|j: int| 0 <= j < sizes.len() ==> (#[trigger] sizes[j]).non_negative(),
        size_max(sizes).width.raw <= bounds.size.width.raw,
        size_max(sizes).height.raw <= bounds.size.height.raw,
    ensures
        layout.subview_bounds(sizes, bounds, i).size == sizes[i],
{
    let preferred = size_max(sizes);
    lemma_size_max_is_the_maximum(sizes);
    assert(sizes[i].non_negative());
    crate::stack_laws::lemma_roomy_squeeze_is_one(bounds.size.width, preferred.width);
    crate::stack_laws::lemma_roomy_squeeze_is_one(bounds.size.height, preferred.height);
    crate::scalar::lemma_mul_by_one(sizes[i].width);
    crate::scalar::lemma_mul_by_one(sizes[i].height);
}

/// Measuring anew changes nothing where the subviews answer as before: the
/// preferred size of a z-stack depends on the sizes that its subviews prefer,
/// and on nothing else.
pub proof fn lemma_same_answers_same_preferred_size(
    sizes: Seq<RectSize<Scalar>>,
    again: Seq<RectSize<Scalar>>,
    n: nat,
)
    requires
        n <= sizes.len(),
        n <= again.len(),
        forall|i: int| 0 <= i < n ==> sizes[i] == again[i],
    ensures
        size_max_upto(sizes, n) == size_max_upto(again, n),
    decreases n,
{
    if n > 0 {
        lemma_same_answers_same_preferred_size(sizes, again, (n - 1) as nat);
    }
}

} // verus!
