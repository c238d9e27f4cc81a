//! The part of an image view that concerns layout.
use vstd::prelude::*;
use crate::bounds::{Bounds, Point2, RectSize};
use crate::scalar::Scalar;

verus! {

/// A view that shows an image at a size of its own choosing.
#[derive(Clone, Copy, Debug, PartialEq, Eq)]
pub struct ImageView {
    pub size: RectSize<Scalar>,
    /// Where the view was last placed.
    pub bounds: Bounds<Scalar>,
    /// Whether the view was placed since it was last drawn.
    pub bounds_updated: bool,
}

impl ImageView {
    pub open spec fn with_size_spec(self, size: RectSize<Scalar>) -> Self {
        ImageView { size, ..self }
    }

    /// A view of the given size, which is commonly that of its image, not yet
    /// placed.
    pub fn new(size: RectSize<Scalar>) -> (view: Self)
        ensures
            view.size == size,
            view.bounds == (Bounds {
                origin: Point2 { x: Scalar { raw: 0 }, y: Scalar { raw: 0 } },
                size: RectSize { width: Scalar { raw: 0 }, height: Scalar { raw: 0 } },
            }),
            !view.bounds_updated,
    {
        ImageView {
            size,
            bounds: Bounds {
                origin: Point2 { x: Scalar::zero(), y: Scalar::zero() },
                size: RectSize { width: Scalar::zero(), height: Scalar::zero() },
            },
            bounds_updated: false,
        }
    }

    pub fn size(&self) -> (size: RectSize<Scalar>)
        ensures
            size == self.size,
    {
        self.size
    }

    pub fn size_mut(&mut self) -> (size: &mut RectSize<Scalar>)
        ensures
            *size == old(self).size,
            *final(self) == old(self).with_size_spec(*final(size)),
    {
        &mut self.size
    }

    pub fn set_size(&mut self, size: RectSize<Scalar>)
        ensures
            *final(self) == old(self).with_size_spec(size),
    {
        self.size = size;
    }

    #[verifier::when_used_as_spec(with_size_spec)]
    pub fn with_size(self, size: RectSize<Scalar>) -> (view: Self)
        ensures
            view == self.with_size_spec(size),
    {
        ImageView { size, bounds: self.bounds, bounds_updated: self.bounds_updated }
    }
}

impl crate::view::View for ImageView {
    fn preferred_size(&mut self) -> (size: RectSize<Scalar>)
        ensures
            size == old(self).size,
            *final(self) == *old(self),
    {
        self.size
    }

    /// Takes the place and notes that it has changed.
    fn apply_bounds(&mut self, bounds: Bounds<Scalar>)
        ensures
            *final(self) == (ImageView { bounds, bounds_updated: true, ..*old(self) }),
    {
        self.bounds = bounds;
        self.bounds_updated = true
    }
}

} // verus!
