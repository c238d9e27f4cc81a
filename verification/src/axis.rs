//! Axis-generic access to points, vectors, sizes and rectangles.
//!
//! `a` and `alpha` refer to the given axis, `b` and `beta` to the other one: the
//! letters `a` and `b` stand for coordinates, `alpha` and `beta` for lengths. With
//! `Axis::Horizontal`, `a` is `x`, `b` is `y`, `alpha` is the width and `beta` the
//! height; with `Axis::Vertical` it is the other way round.
use vstd::prelude::*;
use crate::bounds::{Bounds, Point2, RectSize, Vector2};
use crate::scalar::Scalar;

verus! {

/// The direction along which a layout distributes its subviews.
#[derive(Clone, Copy, Debug, PartialEq, Eq, Structural)]
pub enum Axis {
    Horizontal,
    Vertical,
}

impl<T: Copy> Point2<T> {
    pub open spec fn on_axis(axis: Axis, a: T, b: T) -> Self {
        match axis {
            Axis::Horizontal => Point2 { x: a, y: b },
            Axis::Vertical => Point2 { x: b, y: a },
        }
    }

    pub open spec fn a_spec(self, axis: Axis) -> T {
        match axis {
            Axis::Horizontal => self.x,
            Axis::Vertical => self.y,
        }
    }

    pub open spec fn b_spec(self, axis: Axis) -> T {
        match axis {
            Axis::Horizontal => self.y,
            Axis::Vertical => self.x,
        }
    }

    #[verifier::when_used_as_spec(on_axis)]
    pub fn new_on_axis(axis: Axis, a: T, b: T) -> (p: Self)
        ensures
            p == Self::on_axis(axis, a, b),
    {
        match axis {
            Axis::Horizontal => Point2 { x: a, y: b },
            Axis::Vertical => Point2 { x: b, y: a },
        }
    }

    #[verifier::when_used_as_spec(a_spec)]
    pub fn a(self, axis: Axis) -> (a: T)
        ensures
            a == self.a_spec(axis),
    {
        match axis {
            Axis::Horizontal => self.x,
            Axis::Vertical => self.y,
        }
    }

    #[verifier::when_used_as_spec(b_spec)]
    pub fn b(self, axis: Axis) -> (b: T)
        ensures
            b == self.b_spec(axis),
    {
        match axis {
            Axis::Horizontal => self.y,
            Axis::Vertical => self.x,
        }
    }

    pub fn a_mut(&mut self, axis: Axis) -> (a: &mut T)
        ensures
            *a == old(self).a_spec(axis),
            *final(self) == Self::on_axis(axis, *final(a), old(self).b_spec(axis)),
    {
        match axis {
            Axis::Horizontal => &mut self.x,
            Axis::Vertical => &mut self.y,
        }
    }

    pub fn b_mut(&mut self, axis: Axis) -> (b: &mut T)
        ensures
            *b == old(self).b_spec(axis),
            *final(self) == Self::on_axis(axis, old(self).a_spec(axis), *final(b)),
    {
        match axis {
            Axis::Horizontal => &mut self.y,
            Axis::Vertical => &mut self.x,
        }
    }
}

impl<T: Copy> Vector2<T> {
    pub open spec fn on_axis(axis: Axis, a: T, b: T) -> Self {
        match axis {
            Axis::Horizontal => Vector2 { x: a, y: b },
            Axis::Vertical => Vector2 { x: b, y: a },
        }
    }

    pub open spec fn a_spec(self, axis: Axis) -> T {
        match axis {
            Axis::Horizontal => self.x,
            Axis::Vertical => self.y,
        }
    }

    pub open spec fn b_spec(self, axis: Axis) -> T {
        match axis {
            Axis::Horizontal => self.y,
            Axis::Vertical => self.x,
        }
    }

    #[verifier::when_used_as_spec(on_axis)]
    pub fn new_on_axis(axis: Axis, a: T, b: T) -> (v: Self)
        ensures
            v == Self::on_axis(axis, a, b),
    {
        match axis {
            Axis::Horizontal => Vector2 { x: a, y: b },
            Axis::Vertical => Vector2 { x: b, y: a },
        }
    }

    #[verifier::when_used_as_spec(a_spec)]
    pub fn a(self, axis: Axis) -> (a: T)
        ensures
            a == self.a_spec(axis),
    {
        match axis {
            Axis::Horizontal => self.x,
            Axis::Vertical => self.y,
        }
    }

    #[verifier::when_used_as_spec(b_spec)]
    pub fn b(self, axis: Axis) -> (b: T)
        ensures
            b == self.b_spec(axis),
    {
        match axis {
            Axis::Horizontal => self.y,
            Axis::Vertical => self.x,
        }
    }

    pub fn a_mut(&mut self, axis: Axis) -> (a: &mut T)
        ensures
            *a == old(self).a_spec(axis),
            *final(self) == Self::on_axis(axis, *final(a), old(self).b_spec(axis)),
    {
        match axis {
            Axis::Horizontal => &mut self.x,
            Axis::Vertical => &mut self.y,
        }
    }

    pub fn b_mut(&mut self, axis: Axis) -> (b: &mut T)
        ensures
            *b == old(self).b_spec(axis),
            *final(self) == Self::on_axis(axis, old(self).a_spec(axis), *final(b)),
    {
        match axis {
            Axis::Horizontal => &mut self.y,
            Axis::Vertical => &mut self.x,
        }
    }
}

impl<T: Copy> RectSize<T> {
    pub open spec fn on_axis(axis: Axis, alpha: T, beta: T) -> Self {
        match axis {
            Axis::Horizontal => RectSize { width: alpha, height: beta },
            Axis::Vertical => RectSize { width: beta, height: alpha },
        }
    }

    pub open spec fn alpha_spec(self, axis: Axis) -> T {
        match axis {
            Axis::Horizontal => self.width,
            Axis::Vertical => self.height,
        }
    }

    pub open spec fn beta_spec(self, axis: Axis) -> T {
        match axis {
            Axis::Horizontal => self.height,
            Axis::Vertical => self.width,
        }
    }

    #[verifier::when_used_as_spec(on_axis)]
    pub fn new_on_axis(axis: Axis, alpha: T, beta: T) -> (size: Self)
        ensures
            size == Self::on_axis(axis, alpha, beta),
    {
        match axis {
            Axis::Horizontal => RectSize { width: alpha, height: beta },
            Axis::Vertical => RectSize { width: beta, height: alpha },
        }
    }

    #[verifier::when_used_as_spec(alpha_spec)]
    pub fn alpha(self, axis: Axis) -> (alpha: T)
        ensures
            alpha == self.alpha_spec(axis),
    {
        match axis {
            Axis::Horizontal => self.width,
            Axis::Vertical => self.height,
        }
    }

    #[verifier::when_used_as_spec(beta_spec)]
    pub fn beta(self, axis: Axis) -> (beta: T)
        ensures
            beta == self.beta_spec(axis),
    {
        match axis {
            Axis::Horizontal => self.height,
            Axis::Vertical => self.width,
        }
    }

    pub fn alpha_mut(&mut self, axis: Axis) -> (alpha: &mut T)
        ensures
            *alpha == old(self).alpha_spec(axis),
            *final(self) == Self::on_axis(axis, *final(alpha), old(self).beta_spec(axis)),
    {
        match axis {
            Axis::Horizontal => &mut self.width,
            Axis::Vertical => &mut self.height,
        }
    }

    pub fn beta_mut(&mut self, axis: Axis) -> (beta: &mut T)
        ensures
            *beta == old(self).beta_spec(axis),
            *final(self) == Self::on_axis(axis, old(self).alpha_spec(axis), *final(beta)),
    {
        match axis {
            Axis::Horizontal => &mut self.height,
            Axis::Vertical => &mut self.width,
        }
    }
}

impl RectSize<Scalar> {
    pub open spec fn scaled_on_axis_spec(self, axis: Axis, scale_a: Scalar, scale_b: Scalar) -> Self {
        Self::on_axis(
            axis,
            self.alpha_spec(axis).mul_spec(scale_a),
            self.beta_spec(axis).mul_spec(scale_b),
        )
    }

    #[verifier::when_used_as_spec(scaled_on_axis_spec)]
    pub fn scaled_on_axis(self, axis: Axis, scale_a: Scalar, scale_b: Scalar) -> (size: Self)
        ensures
            size == self.scaled_on_axis_spec(axis, scale_a, scale_b),
    {
        RectSize::new_on_axis(axis, self.alpha(axis).mul(scale_a), self.beta(axis).mul(scale_b))
    }
}

impl<T: Copy> Bounds<T> {
    pub open spec fn a_min_spec(self, axis: Axis) -> T {
        self.origin.a_spec(axis)
    }

    pub open spec fn b_min_spec(self, axis: Axis) -> T {
        self.origin.b_spec(axis)
    }

    pub open spec fn alpha_spec(self, axis: Axis) -> T {
        self.size.alpha_spec(axis)
    }

    pub open spec fn beta_spec(self, axis: Axis) -> T {
        self.size.beta_spec(axis)
    }

    #[verifier::when_used_as_spec(a_min_spec)]
    pub fn a_min(self, axis: Axis) -> (a: T)
        ensures
            a == self.a_min_spec(axis),
    {
        match axis {
            Axis::Horizontal => self.x_min(),
            Axis::Vertical => self.y_min(),
        }
    }

    #[verifier::when_used_as_spec(b_min_spec)]
    pub fn b_min(self, axis: Axis) -> (b: T)
        ensures
            b == self.b_min_spec(axis),
    {
        match axis {
            Axis::Horizontal => self.y_min(),
            Axis::Vertical => self.x_min(),
        }
    }

    #[verifier::when_used_as_spec(alpha_spec)]
    pub fn alpha(self, axis: Axis) -> (alpha: T)
        ensures
            alpha == self.alpha_spec(axis),
    {
        self.size.alpha(axis)
    }

    #[verifier::when_used_as_spec(beta_spec)]
    pub fn beta(self, axis: Axis) -> (beta: T)
        ensures
            beta == self.beta_spec(axis),
    {
        self.size.beta(axis)
    }
}

impl Bounds<Scalar> {
    pub open spec fn a_max_spec(self, axis: Axis) -> Scalar {
        self.origin.a_spec(axis).add_spec(self.size.alpha_spec(axis))
    }

    pub open spec fn b_max_spec(self, axis: Axis) -> Scalar {
        self.origin.b_spec(axis).add_spec(self.size.beta_spec(axis))
    }

    #[verifier::when_used_as_spec(a_max_spec)]
    pub fn a_max(self, axis: Axis) -> (a: Scalar)
        ensures
            a == self.a_max_spec(axis),
    {
        match axis {
            Axis::Horizontal => self.x_max(),
            Axis::Vertical => self.y_max(),
        }
    }

    #[verifier::when_used_as_spec(b_max_spec)]
    pub fn b_max(self, axis: Axis) -> (b: Scalar)
        ensures
            b == self.b_max_spec(axis),
    {
        match axis {
            Axis::Horizontal => self.y_max(),
            Axis::Vertical => self.x_max(),
        }
    }
}

} // verus!
