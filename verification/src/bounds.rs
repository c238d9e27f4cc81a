//! Points, vectors, sizes and rectangles.
use vstd::prelude::*;
use crate::scalar::Scalar;

verus! {

/// A position in the plane.
#[derive(Clone, Copy, Debug, PartialEq, Eq)]
pub struct Point2<T: Copy> {
    pub x: T,
    pub y: T,
}

/// A displacement in the plane.
#[derive(Clone, Copy, Debug, PartialEq, Eq)]
pub struct Vector2<T: Copy> {
    pub x: T,
    pub y: T,
}

pub fn point2<T: Copy>(x: T, y: T) -> (p: Point2<T>)
    ensures
        p == (Point2 { x, y }),
{
    Point2 { x, y }
}

pub fn vec2<T: Copy>(x: T, y: T) -> (v: Vector2<T>)
    ensures
        v == (Vector2 { x, y }),
{
    Vector2 { x, y }
}

impl<T: Copy> Point2<T> {
    pub fn new(x: T, y: T) -> (p: Self)
        ensures
            p == (Point2 { x, y }),
    {
        Point2 { x, y }
    }
}

impl<T: Copy> Vector2<T> {
    pub fn new(x: T, y: T) -> (v: Self)
        ensures
            v == (Vector2 { x, y }),
    {
        Vector2 { x, y }
    }
}

impl Point2<Scalar> {
    /// The point displaced by `offset`, each coordinate added on its own.
    pub open spec fn translated_spec(self, offset: Vector2<Scalar>) -> Self {
        Point2 { x: self.x.add_spec(offset.x), y: self.y.add_spec(offset.y) }
    }

    #[verifier::when_used_as_spec(translated_spec)]
    pub fn translated(self, offset: Vector2<Scalar>) -> (p: Self)
        ensures
            p == self.translated_spec(offset),
    {
        Point2 { x: self.x.add(offset.x), y: self.y.add(offset.y) }
    }

    /// The point with both coordinates divided by `factor`.
    pub open spec fn scaled_down_spec(self, factor: Scalar) -> Self {
        Point2 { x: self.x.div_spec(factor), y: self.y.div_spec(factor) }
    }

    #[verifier::when_used_as_spec(scaled_down_spec)]
    pub fn scaled_down(self, factor: Scalar) -> (p: Self)
        ensures
            p == self.scaled_down_spec(factor),
    {
        Point2 { x: self.x.div(factor), y: self.y.div(factor) }
    }
}

/// The extent of a rectangle.
#[derive(Clone, Copy, Debug, PartialEq, Eq)]
pub struct RectSize<T: Copy> {
    pub width: T,
    pub height: T,
}

impl<T: Copy> RectSize<T> {
    pub fn new(width: T, height: T) -> (size: Self)
        ensures
            size == (RectSize { width, height }),
    {
        RectSize { width, height }
    }

    pub fn as_vec(self) -> (v: Vector2<T>)
        ensures
            v == (Vector2 { x: self.width, y: self.height }),
    {
        Vector2 { x: self.width, y: self.height }
    }
}

impl Default for RectSize<Scalar> {
    fn default() -> (size: Self)
        ensures
            size.width.raw == 0,
            size.height.raw == 0,
    {
        RectSize { width: Scalar::zero(), height: Scalar::zero() }
    }
}

impl RectSize<Scalar> {
    /// The smaller of the two, width and height each on its own.
    pub open spec fn min_spec(self, other: Self) -> Self {
        RectSize {
            width: self.width.min_spec(other.width),
            height: self.height.min_spec(other.height),
        }
    }

    /// The larger of the two, width and height each on its own.
    pub open spec fn max_spec(self, other: Self) -> Self {
        RectSize {
            width: self.width.max_spec(other.width),
            height: self.height.max_spec(other.height),
        }
    }

    pub open spec fn scaled_spec(self, scale_horizontal: Scalar, scale_vertical: Scalar) -> Self {
        RectSize {
            width: self.width.mul_spec(scale_horizontal),
            height: self.height.mul_spec(scale_vertical),
        }
    }

    /// Neither side is negative.
    pub open spec fn non_negative(self) -> bool {
        self.width.raw >= 0 && self.height.raw >= 0
    }

    /// Neither side is infinite.
    pub open spec fn finite(self) -> bool {
        !self.width.is_infinite_spec() && !self.height.is_infinite_spec()
    }

    #[verifier::when_used_as_spec(min_spec)]
    pub fn min(self, other: Self) -> (size: Self)
        ensures
            size == self.min_spec(other),
    {
        RectSize {
            width: self.width.min(other.width),
            height: self.height.min(other.height),
        }
    }

    #[verifier::when_used_as_spec(max_spec)]
    pub fn max(self, other: Self) -> (size: Self)
        ensures
            size == self.max_spec(other),
    {
        RectSize {
            width: self.width.max(other.width),
            height: self.height.max(other.height),
        }
    }

    #[verifier::when_used_as_spec(scaled_spec)]
    pub fn scaled(self, scale_horizontal: Scalar, scale_vertical: Scalar) -> (size: Self)
        ensures
            size == self.scaled_spec(scale_horizontal, scale_vertical),
    {
        RectSize {
            width: self.width.mul(scale_horizontal),
            height: self.height.mul(scale_vertical),
        }
    }
}

/// An axis-aligned rectangle, given by its corner of least coordinates and its size.
#[derive(Clone, Copy, Debug, PartialEq, Eq)]
pub struct Bounds<T: Copy> {
    pub origin: Point2<T>,
    pub size: RectSize<T>,
}

impl Default for Bounds<Scalar> {
    fn default() -> (bounds: Self)
        ensures
            bounds.origin.x.raw == 0,
            bounds.origin.y.raw == 0,
            bounds.size.width.raw == 0,
            bounds.size.height.raw == 0,
    {
        Bounds {
            origin: Point2 { x: Scalar::zero(), y: Scalar::zero() },
            size: RectSize { width: Scalar::zero(), height: Scalar::zero() },
        }
    }
}

impl<T: Copy> Bounds<T> {
    pub fn new(origin: Point2<T>, size: RectSize<T>) -> (bounds: Self)
        ensures
            bounds == (Bounds { origin, size }),
    {
        Bounds { origin, size }
    }

    pub fn from_scalars(x_min: T, y_min: T, width: T, height: T) -> (bounds: Self)
        ensures
            bounds == (Bounds {
                origin: Point2 { x: x_min, y: y_min },
                size: RectSize { width, height },
            }),
    {
        Bounds { origin: Point2 { x: x_min, y: y_min }, size: RectSize { width, height } }
    }

    pub fn x_min(self) -> (x: T)
        ensures
            x == self.origin.x,
    {
        self.origin.x
    }

    pub fn y_min(self) -> (y: T)
        ensures
            y == self.origin.y,
    {
        self.origin.y
    }

    pub fn width(self) -> (width: T)
        ensures
            width == self.size.width,
    {
        self.size.width
    }

    pub fn height(self) -> (height: T)
        ensures
            height == self.size.height,
    {
        self.size.height
    }

    pub fn with_origin(self, origin: Point2<T>) -> (bounds: Self)
        ensures
            bounds == (Bounds { origin, size: self.size }),
    {
        Bounds { origin, size: self.size }
    }

    pub fn with_size(self, size: RectSize<T>) -> (bounds: Self)
        ensures
            bounds == (Bounds { origin: self.origin, size }),
    {
        Bounds { origin: self.origin, size }
    }
}

impl Bounds<Scalar> {
    pub open spec fn x_max_spec(self) -> Scalar {
        self.origin.x.add_spec(self.size.width)
    }

    pub open spec fn y_max_spec(self) -> Scalar {
        self.origin.y.add_spec(self.size.height)
    }

    /// Whether `point` lies in the rectangle, its four edges included.
    pub open spec fn contains_spec(self, point: Point2<Scalar>) -> bool {
        &&& self.origin.x.raw <= point.x.raw
        &&& point.x.raw <= self.x_max_spec().raw
        &&& self.origin.y.raw <= point.y.raw
        &&& point.y.raw <= self.y_max_spec().raw
    }

    /// The rectangle moved inwards by `padding` on every side; its size may turn negative.
    pub open spec fn with_padding_spec(self, padding: Scalar) -> Self {
        Bounds {
            origin: Point2 {
                x: self.origin.x.add_spec(padding),
                y: self.origin.y.add_spec(padding),
            },
            size: RectSize {
                width: self.size.width.sub_spec(padding).sub_spec(padding),
                height: self.size.height.sub_spec(padding).sub_spec(padding),
            },
        }
    }

    /// The rectangle moved inwards by `padding` on every side; its size stops at zero.
    pub open spec fn with_inset_spec(self, padding: Scalar) -> Self {
        Bounds {
            origin: Point2 {
                x: self.origin.x.add_spec(padding),
                y: self.origin.y.add_spec(padding),
            },
            size: RectSize {
                width: self.size.width.sub_spec(padding).sub_spec(padding).max_spec(
                    Scalar { raw: 0 },
                ),
                height: self.size.height.sub_spec(padding).sub_spec(padding).max_spec(
                    Scalar { raw: 0 },
                ),
            },
        }
    }

    /// The corner of least coordinates lies in `outer`, and so does the opposite corner.
    pub open spec fn within(self, outer: Self) -> bool {
        &&& outer.origin.x.raw <= self.origin.x.raw
        &&& outer.origin.y.raw <= self.origin.y.raw
        &&& self.x_max_spec().raw <= outer.x_max_spec().raw
        &&& self.y_max_spec().raw <= outer.y_max_spec().raw
    }

    #[verifier::when_used_as_spec(x_max_spec)]
    pub fn x_max(self) -> (x: Scalar)
        ensures
            x == self.x_max_spec(),
    {
        self.origin.x.add(self.size.width)
    }

    #[verifier::when_used_as_spec(y_max_spec)]
    pub fn y_max(self) -> (y: Scalar)
        ensures
            y == self.y_max_spec(),
    {
        self.origin.y.add(self.size.height)
    }

    pub fn x_max_(self) -> (x: Scalar)
        ensures
            x == self.x_max_spec(),
    {
        self.x_max()
    }

    pub fn y_max_(self) -> (y: Scalar)
        ensures
            y == self.y_max_spec(),
    {
        self.y_max()
    }

    pub fn xy_max(self) -> (p: Point2<Scalar>)
        ensures
            p == (Point2 { x: self.x_max_spec(), y: self.y_max_spec() }),
    {
        Point2 { x: self.x_max(), y: self.y_max() }
    }

    pub fn xy_min(self) -> (p: Point2<Scalar>)
        ensures
            p == self.origin,
    {
        self.origin
    }

    #[verifier::when_used_as_spec(contains_spec)]
    pub fn contains(self, point: Point2<Scalar>) -> (inside: bool)
        ensures
            inside == self.contains_spec(point),
    {
        self.x_min().le(point.x) && point.x.le(self.x_max()) && self.y_min().le(point.y)
            && point.y.le(self.y_max())
    }

    #[verifier::when_used_as_spec(with_padding_spec)]
    pub fn with_padding(self, padding: Scalar) -> (bounds: Self)
        ensures
            bounds == self.with_padding_spec(padding),
    {
        Bounds::from_scalars(
            self.x_min().add(padding),
            self.y_min().add(padding),
            self.width().sub(padding).sub(padding),
            self.height().sub(padding).sub(padding),
        )
    }

    #[verifier::when_used_as_spec(with_inset_spec)]
    pub fn with_inset(self, padding: Scalar) -> (bounds: Self)
        ensures
            bounds == self.with_inset_spec(padding),
    {
        Bounds::from_scalars(
            self.x_min().add(padding),
            self.y_min().add(padding),
            self.width().sub(padding).sub(padding).max(Scalar::zero()),
            self.height().sub(padding).sub(padding).max(Scalar::zero()),
        )
    }
}

} // verus!
