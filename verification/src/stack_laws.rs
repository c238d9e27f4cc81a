//! What holds of every stack.
use vstd::prelude::*;
use crate::axis::Axis;
use crate::bounds::RectSize;
use crate::scalar::{
    lemma_div_is_monotone,
    lemma_mul_by_one,
    lemma_mul_is_monotone,
    lemma_quotient_within,
    saturate,
    Scalar,
    INFINITY_RAW,
    ONE_RAW,
};
use crate::stack::{
    alpha_sum,
    alpha_sum_upto,
    beta_max,
    beta_max_upto,
    squeeze_factor,
    StackLayout,
    StackPaddingType,
};

verus! {

/// The sum of the raw lengths of the first `n` of `sizes` along `axis`, as an
/// integer without bound.
pub open spec fn raw_alpha_sum(sizes: Seq<RectSize<Scalar>>, axis: Axis, n: nat) -> int
    decreases n,
{
    if n == 0 {
        0
    } else {
        raw_alpha_sum(sizes, axis, (n - 1) as nat) + sizes[n - 1].alpha_spec(axis).raw
    }
}

/// The sum of the raw lengths that the first `n` subviews get along the axis.
pub open spec fn raw_extent_sum(
    layout: StackLayout,
    sizes: Seq<RectSize<Scalar>>,
    available: Scalar,
    n: nat,
) -> int
    decreases n,
{
    if n == 0 {
        0
    } else {
        raw_extent_sum(layout, sizes, available, (n - 1) as nat) + layout.extent_of(
            sizes,
            available,
            (n - 1) as nat,
        ).raw
    }
}

/// The sum of the raw lengths of the first `n` of `sizes` along `axis`, each
/// multiplied by `factor`.
pub open spec fn raw_scaled_sum(sizes: Seq<RectSize<Scalar>>, axis: Axis, factor: Scalar, n: nat) -> int
    decreases n,
{
    if n == 0 {
        0
    } else {
        raw_scaled_sum(sizes, axis, factor, (n - 1) as nat) + sizes[n - 1].alpha_spec(axis).mul_spec(
            factor,
        ).raw
    }
}

/// No length along `axis` is negative.
pub open spec fn alphas_non_negative(sizes: Seq<RectSize<Scalar>>, axis: Axis) -> bool {
    forall|i: int| 0 <= i < sizes.len() ==> (#[trigger] sizes[i]).alpha_spec(axis).raw >= 0
}

/// The subviews can be measured without reaching infinity: no length along the
/// axis and no padding is negative, and the padding and the preferred length of
/// the stack are finite.
pub open spec fn measurable(layout: StackLayout, sizes: Seq<RectSize<Scalar>>) -> bool {
    &&& sizes.len() <= usize::MAX
    &&& alphas_non_negative(sizes, layout.axis)
    &&& 0 <= layout.measured_padding().raw < INFINITY_RAW
    &&& !layout.preferred_alpha(sizes).is_infinite_spec()
}

/// Number of paddings that lie before subview `i`.
pub open spec fn paddings_before(layout: StackLayout, i: nat) -> int {
    match layout.padding_type {
        StackPaddingType::Interpadded => i as int,
        StackPaddingType::Omnipadded => i as int + 1,
    }
}

proof fn lemma_product_grows(a: int, b: int, c: int)
    by (nonlinear_arith)
    requires
        a <= b,
        0 <= c,
    ensures
        a * c <= b * c,
        c * a <= c * b,
{
}

proof fn lemma_scaled_down(x: int, s: int)
    by (nonlinear_arith)
    requires
        0 <= x,
        0 <= s,
    ensures
        0 <= (x * s) / 0x1_0000,
        ((x * s) / 0x1_0000) * 0x1_0000 <= x * s,
{
}

proof fn lemma_ratio_floor(a: int, p: int)
    by (nonlinear_arith)
    requires
        0 <= a,
        0 < p,
    ensures
        0 <= (a * 0x1_0000) / p,
        ((a * 0x1_0000) / p) * p <= a * 0x1_0000,
        (a * 0x1_0000) / p >= 0x1_0000 ==> p <= a,
{
}

proof fn lemma_share_floor(d: int, k: int)
    by (nonlinear_arith)
    requires
        0 < k,
    ensures
        (d / k) * k <= d,
        d < (d / k) * k + k,
        d >= 0 ==> d / k >= 0,
        d < 0 ==> d / k < 0,
{
}

/// Where no length is negative, the sum of the lengths is their exact sum, or
/// infinity where that is out of reach.
pub proof fn lemma_alpha_sum_is_exact(sizes: Seq<RectSize<Scalar>>, axis: Axis, n: nat)
    requires
        n <= sizes.len(),
        alphas_non_negative(sizes, axis),
    ensures
        0 <= raw_alpha_sum(sizes, axis, n),
        alpha_sum_upto(sizes, axis, n).raw == saturate(raw_alpha_sum(sizes, axis, n)),
    decreases n,
{
    if n > 0 {
        lemma_alpha_sum_is_exact(sizes, axis, (n - 1) as nat);
        assert(sizes[n - 1].alpha_spec(axis).raw >= 0);
    }
}

proof fn lemma_raw_alpha_sum_grows(sizes: Seq<RectSize<Scalar>>, axis: Axis, n: nat, m: nat)
    requires
        n <= m <= sizes.len(),
        alphas_non_negative(sizes, axis),
    ensures
        0 <= raw_alpha_sum(sizes, axis, n) <= raw_alpha_sum(sizes, axis, m),
    decreases m,
{
    lemma_alpha_sum_is_exact(sizes, axis, n);
    if n < m {
        lemma_raw_alpha_sum_grows(sizes, axis, n, (m - 1) as nat);
        assert(sizes[m - 1].alpha_spec(axis).raw >= 0);
    }
}

/// The preferred length of a stack along its axis is the sum of the lengths of
/// its subviews plus the fixed padding times the number of paddings, or
/// infinity where that is out of reach. This holds where no length and no
/// padding is negative.
pub proof fn lemma_preferred_alpha_adds_up(layout: StackLayout, sizes: Seq<RectSize<Scalar>>)
    requires
        sizes.len() <= usize::MAX,
        alphas_non_negative(sizes, layout.axis),
        layout.measured_padding().raw >= 0,
    ensures
        layout.preferred_size_spec(sizes).alpha_spec(layout.axis).raw == saturate(
            raw_alpha_sum(sizes, layout.axis, sizes.len()) + layout.n_paddings_spec(
                sizes.len() as usize,
            ) * layout.measured_padding().raw,
        ),
{
    lemma_alpha_sum_is_exact(sizes, layout.axis, sizes.len());
    let k = layout.n_paddings_spec(sizes.len() as usize) as int;
    let p = layout.measured_padding().raw as int;
    assert(0 <= k * p) by (nonlinear_arith)
        requires
            0 <= k,
            0 <= p,
    ;
    assert(p * k == k * p) by (nonlinear_arith);
    if p == INFINITY_RAW && k > 0 {
        assert(k * p >= p) by (nonlinear_arith)
            requires
                k >= 1,
                p >= 0,
        ;
    }
}

/// Where there is room for the preferred length, nothing shrinks: the squeeze
/// factor is one.
pub proof fn lemma_roomy_squeeze_is_one(available: Scalar, preferred: Scalar)
    requires
        0 <= preferred.raw <= available.raw,
    ensures
        squeeze_factor(available, preferred).raw == ONE_RAW,
{
    if preferred.raw > 0 && available.raw != INFINITY_RAW && preferred.raw != INFINITY_RAW {
        let (a, p, one) = (available.raw as int, preferred.raw as int, ONE_RAW as int);
        assert((a * one) / p >= one) by (nonlinear_arith)
            requires
                0 < p <= a,
                one == 0x1_0000,
        ;
    }
}

/// The squeeze factor lies between zero and one, and the preferred length
/// shrunk by it fits into what is available.
proof fn lemma_squeeze_budget(available: Scalar, preferred: Scalar)
    requires
        0 <= available.raw < INFINITY_RAW,
        0 <= preferred.raw < INFINITY_RAW,
    ensures
        0 <= squeeze_factor(available, preferred).raw <= ONE_RAW,
        preferred.raw * squeeze_factor(available, preferred).raw <= available.raw * ONE_RAW,
{
    let (a, p) = (available.raw as int, preferred.raw as int);
    let s = squeeze_factor(available, preferred).raw as int;
    if p > 0 {
        lemma_ratio_floor(a, p);
        let q = (a * 0x1_0000) / p;
        if q >= 0x1_0000 {
            assert(s == 0x1_0000);
            lemma_product_grows(p, a, 0x1_0000);
        } else {
            assert(s == q);
            assert(p * q == q * p) by (nonlinear_arith);
        }
    } else {
        assert(p * s == 0) by (nonlinear_arith)
            requires
                p == 0,
        ;
        assert(0 <= a * 0x1_0000);
    }
}

/// The paddings in effect and the shrunk lengths of the subviews fit together
/// into what is available.
proof fn lemma_padding_budget(layout: StackLayout, sizes: Seq<RectSize<Scalar>>, available: Scalar)
    requires
        measurable(layout, sizes),
        0 <= available.raw < INFINITY_RAW,
    ensures
        0 <= layout.padding_spec(sizes, available).raw < INFINITY_RAW,
        0 <= layout.squeeze_spec(sizes, available).raw <= ONE_RAW,
        0 <= raw_alpha_sum(sizes, layout.axis, sizes.len()) < INFINITY_RAW,
        raw_alpha_sum(sizes, layout.axis, sizes.len()) * layout.squeeze_spec(sizes, available).raw
            + layout.n_paddings_spec(sizes.len() as usize) * layout.padding_spec(
            sizes,
            available,
        ).raw * ONE_RAW <= available.raw * ONE_RAW,
{
    let sum = raw_alpha_sum(sizes, layout.axis, sizes.len());
    let k = layout.n_paddings_spec(sizes.len() as usize) as int;
    let p = layout.measured_padding().raw as int;
    let a = available.raw as int;
    let preferred = layout.preferred_alpha(sizes);
    let s = layout.squeeze_spec(sizes, available).raw as int;
    let pad = layout.padding_spec(sizes, available).raw as int;
    lemma_alpha_sum_is_exact(sizes, layout.axis, sizes.len());
    lemma_preferred_alpha_adds_up(layout, sizes);
    assert(0 <= k * p) by (nonlinear_arith)
        requires
            0 <= k,
            0 <= p,
    ;
    assert(preferred.raw == sum + k * p);
    lemma_squeeze_budget(available, preferred);
    match layout.fixed_padding {
        Some(padding) => {
            lemma_scaled_down(p, s);
            assert((p * s) / 0x1_0000 <= p) by (nonlinear_arith)
                requires
                    0 <= p,
                    0 <= s <= 0x1_0000,
            ;
            assert(pad == (p * s) / 0x1_0000);
            lemma_product_grows(pad * 0x1_0000, p * s, k);
            assert((sum + k * p) * s <= a * 0x1_0000);
            assert(sum * s + k * pad * 0x1_0000 <= a * 0x1_0000) by (nonlinear_arith)
                requires
                    k * (pad * 0x1_0000) <= k * (p * s),
                    (sum + k * p) * s <= a * 0x1_0000,
            ;
        },
        None => {
            assert(p == 0);
            assert(k * p == 0) by (nonlinear_arith)
                requires
                    p == 0,
            ;
            assert(alpha_sum(sizes, layout.axis).raw == sum);
            let d = a - sum;
            assert(preferred.raw == sum);
            assert(sum * s <= a * 0x1_0000);
            if k > 0 {
                lemma_share_floor(d, k);
                lemma_quotient_within(d, k);
                if d >= 0 {
                    lemma_roomy_squeeze_is_one(available, preferred);
                    assert(pad == d / k);
                    assert(sum * s + k * pad * 0x1_0000 <= a * 0x1_0000) by (nonlinear_arith)
                        requires
                            (d / k) * k <= d,
                            pad == d / k,
                            d == a - sum,
                            s == 0x1_0000,
                    ;
                } else {
                    assert(pad == 0);
                    assert(k * pad * 0x1_0000 == 0) by (nonlinear_arith)
                        requires
                            pad == 0,
                    ;
                }
            } else {
                assert(pad == 0);
                assert(k * pad * 0x1_0000 == 0) by (nonlinear_arith)
                    requires
                        pad == 0,
                ;
            }
        },
    }
    let one = ONE_RAW as int;
    assert(sum * s + k * pad * one <= a * one) by (nonlinear_arith)
        requires
            sum * s + k * pad * 0x1_0000 <= a * 0x1_0000,
            one == 0x1_0000,
    ;
}

proof fn lemma_scaled_sum_bound(sizes: Seq<RectSize<Scalar>>, axis: Axis, factor: Scalar, n: nat)
    requires
        n <= sizes.len(),
        alphas_non_negative(sizes, axis),
        0 <= factor.raw <= ONE_RAW,
        raw_alpha_sum(sizes, axis, sizes.len()) < INFINITY_RAW,
    ensures
        0 <= raw_scaled_sum(sizes, axis, factor, n),
        raw_scaled_sum(sizes, axis, factor, n) * ONE_RAW <= raw_alpha_sum(sizes, axis, n) * factor.raw,
    decreases n,
{
    if n > 0 {
        let m = (n - 1) as nat;
        lemma_scaled_sum_bound(sizes, axis, factor, m);
        lemma_raw_alpha_sum_grows(sizes, axis, n, sizes.len());
        lemma_raw_alpha_sum_grows(sizes, axis, m, n);
        let x = sizes[m as int].alpha_spec(axis).raw as int;
        let f = factor.raw as int;
        assert(0 <= x < INFINITY_RAW);
        lemma_scaled_down(x, f);
        assert((x * f) / 0x1_0000 <= x) by (nonlinear_arith)
            requires
                0 <= x,
                0 <= f <= 0x1_0000,
        ;
        let t = sizes[m as int].alpha_spec(axis).mul_spec(factor).raw as int;
        assert(t == (x * f) / 0x1_0000);
        let before = raw_scaled_sum(sizes, axis, factor, m);
        let total = raw_alpha_sum(sizes, axis, m);
        assert((before + t) * 0x1_0000 <= (total + x) * f) by (nonlinear_arith)
            requires
                before * 0x1_0000 <= total * f,
                t * 0x1_0000 <= x * f,
        ;
    }
}

/// Where the subviews can be measured and the available length is finite, no
/// subview is cut short by what is left: each gets its preferred length
/// shrunk by the squeeze factor, and each starts behind the shrunk lengths of
/// the subviews before it and the paddings before it.
pub proof fn lemma_arrangement_in_closed_form(
    layout: StackLayout,
    sizes: Seq<RectSize<Scalar>>,
    available: Scalar,
    i: nat,
)
    requires
        measurable(layout, sizes),
        0 <= available.raw < INFINITY_RAW,
        i < sizes.len(),
    ensures
        layout.offset_of(sizes, available, i).raw == raw_scaled_sum(
            sizes,
            layout.axis,
            layout.squeeze_spec(sizes, available),
            i,
        ) + paddings_before(layout, i) * layout.padding_spec(sizes, available).raw,
        layout.extent_of(sizes, available, i) == sizes[i as int].alpha_spec(layout.axis).mul_spec(
            layout.squeeze_spec(sizes, available),
        ),
        0 <= layout.offset_of(sizes, available, i).raw,
        0 <= layout.extent_of(sizes, available, i).raw,
        layout.offset_of(sizes, available, i).raw + layout.extent_of(sizes, available, i).raw
            <= available.raw,
    decreases i,
{
    let squeeze = layout.squeeze_spec(sizes, available);
    let s = squeeze.raw as int;
    let pad = layout.padding_spec(sizes, available).raw as int;
    let k = layout.n_paddings_spec(sizes.len() as usize) as int;
    let sum = raw_alpha_sum(sizes, layout.axis, sizes.len());
    let a = available.raw as int;
    let before = paddings_before(layout, i);
    lemma_padding_budget(layout, sizes, available);
    lemma_scaled_sum_bound(sizes, layout.axis, squeeze, i);
    lemma_scaled_sum_bound(sizes, layout.axis, squeeze, i + 1);
    lemma_raw_alpha_sum_grows(sizes, layout.axis, i + 1, sizes.len());
    let scaled = raw_scaled_sum(sizes, layout.axis, squeeze, i);
    let scaled_next = raw_scaled_sum(sizes, layout.axis, squeeze, i + 1);
    let partial = raw_alpha_sum(sizes, layout.axis, i + 1);
    assert(0 <= before <= k);
    // What lies before the end of subview `i` fits into the available length.
    assert(scaled_next + before * pad <= a) by {
        lemma_product_grows(partial, sum, s);
        lemma_product_grows(before, k, pad * 0x1_0000);
        assert(before * (pad * 0x1_0000) == before * pad * 0x1_0000) by (nonlinear_arith);
        assert(k * (pad * 0x1_0000) == k * pad * 0x1_0000) by (nonlinear_arith);
        assert((scaled_next + before * pad) * 0x1_0000 == scaled_next * 0x1_0000 + before * pad
            * 0x1_0000) by (nonlinear_arith);
    }
    assert(0 <= before * pad) by (nonlinear_arith)
        requires
            0 <= before,
            0 <= pad,
    ;
    let requested = sizes[i as int].alpha_spec(layout.axis);
    assert(scaled_next == scaled + requested.mul_spec(squeeze).raw);
    assert(requested.raw >= 0);
    lemma_mul_is_monotone(Scalar { raw: 0 }, Scalar { raw: 0 }, requested, squeeze);
    assert(0 <= requested.mul_spec(squeeze).raw);
    if i == 0 {
        assert(layout.offset_of(sizes, available, 0).raw == before * pad) by {
            assert(before * pad == (if before == 1 {
                pad
            } else {
                0
            })) by (nonlinear_arith)
                requires
                    before == 0 || before == 1,
            ;
        }
    } else {
        let j = (i - 1) as nat;
        lemma_arrangement_in_closed_form(layout, sizes, available, j);
        assert(paddings_before(layout, i) == paddings_before(layout, j) + 1);
        assert((paddings_before(layout, j) + 1) * pad == paddings_before(layout, j) * pad + pad)
            by (nonlinear_arith);
    }
}

/// The subviews come one behind the other: where the subviews can be measured
/// and the available length is finite, a later subview starts no earlier than
/// an earlier one.
pub proof fn lemma_offsets_do_not_decrease(
    layout: StackLayout,
    sizes: Seq<RectSize<Scalar>>,
    available: Scalar,
    i: nat,
    j: nat,
)
    requires
        measurable(layout, sizes),
        0 <= available.raw < INFINITY_RAW,
        i <= j < sizes.len(),
    ensures
        layout.offset_of(sizes, available, i).raw <= layout.offset_of(sizes, available, j).raw,
    decreases j - i,
{
    if i < j {
        let m = (j - 1) as nat;
        lemma_offsets_do_not_decrease(layout, sizes, available, i, m);
        lemma_arrangement_in_closed_form(layout, sizes, available, m);
        lemma_arrangement_in_closed_form(layout, sizes, available, j);
        lemma_padding_budget(layout, sizes, available);
        let pad = layout.padding_spec(sizes, available).raw as int;
        let before = paddings_before(layout, m);
        assert((before + 1) * pad == before * pad + pad) by (nonlinear_arith);
    }
}

proof fn lemma_roomy_extents(layout: StackLayout, sizes: Seq<RectSize<Scalar>>, available: Scalar, n: nat)
    requires
        measurable(layout, sizes),
        available.raw < INFINITY_RAW,
        layout.preferred_alpha(sizes).raw <= available.raw,
        n <= sizes.len(),
    ensures
        forall|i: nat|
            i < n ==> #[trigger] layout.extent_of(sizes, available, i) == sizes[i as int].alpha_spec(
                layout.axis,
            ),
        raw_extent_sum(layout, sizes, available, n) == raw_alpha_sum(sizes, layout.axis, n),
    decreases n,
{
    lemma_alpha_sum_is_exact(sizes, layout.axis, sizes.len());
    lemma_preferred_alpha_adds_up(layout, sizes);
    if n > 0 {
        let m = (n - 1) as nat;
        lemma_roomy_extents(layout, sizes, available, m);
        lemma_arrangement_in_closed_form(layout, sizes, available, m);
        lemma_roomy_squeeze_is_one(available, layout.preferred_alpha(sizes));
        lemma_mul_by_one(sizes[m as int].alpha_spec(layout.axis));
    }
}

/// Where the available length is no less than the preferred length, every
/// subview gets the length it prefers. The lengths of the subviews and all
/// paddings then add up to the preferred length where the padding is fixed;
/// where it is flexible and there is a padding, they add up to the available
/// length, short of it by less than one raw unit for each padding.
pub proof fn lemma_roomy_bounds_are_filled(
    layout: StackLayout,
    sizes: Seq<RectSize<Scalar>>,
    available: Scalar,
)
    requires
        measurable(layout, sizes),
        available.raw < INFINITY_RAW,
        layout.preferred_alpha(sizes).raw <= available.raw,
    ensures
        forall|i: nat|
            i < sizes.len() ==> #[trigger] layout.extent_of(sizes, available, i)
                == sizes[i as int].alpha_spec(layout.axis),
        layout.fixed_padding is Some ==> raw_extent_sum(layout, sizes, available, sizes.len())
            + layout.n_paddings_spec(sizes.len() as usize) * layout.padding_spec(
            sizes,
            available,
        ).raw == layout.preferred_alpha(sizes).raw,
        layout.fixed_padding is None && layout.n_paddings_spec(sizes.len() as usize) > 0 ==> {
            let filled = raw_extent_sum(layout, sizes, available, sizes.len())
                + layout.n_paddings_spec(sizes.len() as usize) * layout.padding_spec(
                sizes,
                available,
            ).raw;
            available.raw - layout.n_paddings_spec(sizes.len() as usize) < filled <= available.raw
        },
{
    lemma_roomy_extents(layout, sizes, available, sizes.len());
    lemma_alpha_sum_is_exact(sizes, layout.axis, sizes.len());
    lemma_preferred_alpha_adds_up(layout, sizes);
    let preferred = layout.preferred_alpha(sizes);
    let sum = raw_alpha_sum(sizes, layout.axis, sizes.len());
    let k = layout.n_paddings_spec(sizes.len() as usize) as int;
    let p = layout.measured_padding().raw as int;
    let pad = layout.padding_spec(sizes, available).raw as int;
    assert(0 <= k * p) by (nonlinear_arith)
        requires
            0 <= k,
            0 <= p,
    ;
    lemma_roomy_squeeze_is_one(available, preferred);
    match layout.fixed_padding {
        Some(padding) => {
            lemma_mul_by_one(padding);
            assert(pad == p);
        },
        None => {
            assert(k * p == 0) by (nonlinear_arith)
                requires
                    p == 0,
            ;
            if k > 0 {
                let d = available.raw - sum;
                lemma_share_floor(d, k);
                lemma_quotient_within(d, k);
                assert(pad == d / k);
                assert(d - k < k * pad <= d) by (nonlinear_arith)
                    requires
                        (d / k) * k <= d,
                        d < (d / k) * k + k,
                        pad == d / k,
                ;
            }
        },
    }
}

/// Whether subview `i` asks for infinite length along `axis` and none before
/// it does.
pub open spec fn first_unbounded(sizes: Seq<RectSize<Scalar>>, axis: Axis, i: nat) -> bool {
    &&& sizes[i as int].alpha_spec(axis).is_infinite_spec()
    &&& forall|j: int| 0 <= j < i ==> !(#[trigger] sizes[j]).alpha_spec(axis).is_infinite_spec()
}

/// Where the preferred length of the stack is infinite, the first subview that
/// asks for infinite length gets all that is available, and every other
/// subview gets nothing.
pub proof fn lemma_unbounded_arrangement(
    layout: StackLayout,
    sizes: Seq<RectSize<Scalar>>,
    available: Scalar,
    i: nat,
)
    requires
        sizes.len() <= usize::MAX,
        alphas_non_negative(sizes, layout.axis),
        0 <= layout.measured_padding().raw < INFINITY_RAW,
        layout.preferred_alpha(sizes).is_infinite_spec(),
        0 <= available.raw < INFINITY_RAW,
        i < sizes.len(),
    ensures
        layout.extent_of(sizes, available, i).raw == (if first_unbounded(sizes, layout.axis, i) {
            available.raw
        } else {
            0
        }),
        layout.offset_of(sizes, available, i).raw == (if forall|j: int|
            0 <= j < i ==> !(#[trigger] sizes[j]).alpha_spec(layout.axis).is_infinite_spec() {
            0
        } else {
            available.raw
        }),
    decreases i,
{
    let squeeze = layout.squeeze_spec(sizes, available);
    assert(squeeze.raw == 0);
    let pad = layout.padding_spec(sizes, available);
    assert(pad.raw == 0) by {
        match layout.fixed_padding {
            Some(padding) => {
                assert((padding.raw * 0) / (ONE_RAW as int) == 0) by (nonlinear_arith);
            },
            None => {
                let k = layout.n_paddings_spec(sizes.len() as usize) as int;
                assert(alpha_sum(sizes, layout.axis).raw == INFINITY_RAW);
                let d = available.raw - INFINITY_RAW;
                if k > 0 {
                    lemma_share_floor(d, k);
                    lemma_quotient_within(d, k);
                }
            },
        }
    }
    let requested = sizes[i as int].alpha_spec(layout.axis);
    assert(requested.raw >= 0);
    if !requested.is_infinite_spec() {
        assert((requested.raw * 0) / (ONE_RAW as int) == 0) by (nonlinear_arith);
    }
    if i > 0 {
        let m = (i - 1) as nat;
        lemma_unbounded_arrangement(layout, sizes, available, m);
        assert(sizes[m as int].alpha_spec(layout.axis).raw >= 0);
    }
}

/// Shrinking the available length never gives a subview more: with less room,
/// no subview gets a greater length along the axis. This holds where no length
/// and no padding is negative and the padding is finite.
pub proof fn lemma_less_room_gives_no_more(
    layout: StackLayout,
    sizes: Seq<RectSize<Scalar>>,
    smaller: Scalar,
    larger: Scalar,
    i: nat,
)
    requires
        sizes.len() <= usize::MAX,
        alphas_non_negative(sizes, layout.axis),
        0 <= layout.measured_padding().raw < INFINITY_RAW,
        0 <= smaller.raw <= larger.raw < INFINITY_RAW,
        i < sizes.len(),
    ensures
        layout.extent_of(sizes, smaller, i).raw <= layout.extent_of(sizes, larger, i).raw,
{
    let preferred = layout.preferred_alpha(sizes);
    if preferred.is_infinite_spec() {
        lemma_unbounded_arrangement(layout, sizes, smaller, i);
        lemma_unbounded_arrangement(layout, sizes, larger, i);
    } else {
        lemma_arrangement_in_closed_form(layout, sizes, smaller, i);
        lemma_arrangement_in_closed_form(layout, sizes, larger, i);
        lemma_alpha_sum_is_exact(sizes, layout.axis, sizes.len());
        lemma_preferred_alpha_adds_up(layout, sizes);
        let k = layout.n_paddings_spec(sizes.len() as usize) as int;
        let p = layout.measured_padding().raw as int;
        assert(0 <= k * p) by (nonlinear_arith)
            requires
                0 <= k,
                0 <= p,
        ;
        lemma_div_is_monotone(smaller, larger, preferred);
        lemma_squeeze_budget(smaller, preferred);
        lemma_squeeze_budget(larger, preferred);
        let requested = sizes[i as int].alpha_spec(layout.axis);
        assert(requested.raw >= 0);
        lemma_mul_is_monotone(
            requested,
            layout.squeeze_spec(sizes, smaller),
            requested,
            layout.squeeze_spec(sizes, larger),
        );
    }
}

/// The preferred length of a stack across its axis is the greatest such length
/// among its subviews: no smaller than that of any subview, and that of one of
/// them, or zero where there is no subview or none with a positive length.
pub proof fn lemma_beta_max_is_the_maximum(sizes: Seq<RectSize<Scalar>>, axis: Axis, n: nat)
    requires
        n <= sizes.len(),
    ensures
        0 <= beta_max_upto(sizes, axis, n).raw,
        forall|i: int|
            0 <= i < n ==> (#[trigger] sizes[i]).beta_spec(axis).raw <= beta_max_upto(
                sizes,
                axis,
                n,
            ).raw,
        beta_max_upto(sizes, axis, n).raw == 0 || exists|i: int|
            0 <= i < n && (#[trigger] sizes[i]).beta_spec(axis) == beta_max_upto(sizes, axis, n),
    decreases n,
{
    if n > 0 {
        let m = (n - 1) as nat;
        lemma_beta_max_is_the_maximum(sizes, axis, m);
        let front = beta_max_upto(sizes, axis, m);
        let all = beta_max_upto(sizes, axis, n);
        if all == sizes[m as int].beta_spec(axis) {
        } else if all.raw != 0 {
            let i = choose|i: int| 0 <= i < m && (#[trigger] sizes[i]).beta_spec(axis) == front;
            assert(sizes[i].beta_spec(axis) == all);
        }
    }
}

/// Measuring anew changes nothing where the subviews answer as before: the
/// preferred size of a stack depends on its policies and on the sizes that its
/// subviews prefer, and on nothing else.
pub proof fn lemma_same_answers_same_preferred_size(
    layout: StackLayout,
    sizes: Seq<RectSize<Scalar>>,
    again: Seq<RectSize<Scalar>>,
)
    requires
        sizes.len() == again.len(),
        forall|i: int| 0 <= i < sizes.len() ==> sizes[i] == again[i],
    ensures
        layout.preferred_size_spec(sizes) == layout.preferred_size_spec(again),
{
    crate::stack::lemma_folds_ignore_what_follows(sizes, again, layout.axis, sizes.len());
}

} // verus!
