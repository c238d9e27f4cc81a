//! The two-phase layout protocol.
//!
//! The methods of [`View`] promise nothing: a view is free in what it prefers and
//! in what it does with its place. A container that calls them says in its own
//! contract which call it made. It does so with `call_ensures`: there is a
//! reference to the subview as it was, whose final value is the subview as it is
//! now, and the call with the stated arguments can have ended with them.
use vstd::prelude::*;
use crate::bounds::{Bounds, RectSize};
use crate::scalar::Scalar;

verus! {

/// A node of the layout tree. In every layout pass `preferred_size` is called
/// first, bottom-up, and `apply_bounds` after it, top-down.
pub trait View {
    /// The size that the view would like to have, measured anew. An infinite
    /// length says that the view wants as much space as it can get.
    fn preferred_size(&mut self) -> RectSize<Scalar>;

    /// Gives the view its place. The size may be smaller than the preferred one.
    fn apply_bounds(&mut self, bounds: Bounds<Scalar>);
}

impl<V: View + ?Sized> View for Box<V> {
    /// Measures the view in the box.
    fn preferred_size(&mut self) -> (size: RectSize<Scalar>)
        ensures
            exists|view: &mut V|
                {
                    &&& &*view == &**old(self)
                    &&& &*final(view) == &**final(self)
                    &&& #[trigger] call_ensures(V::preferred_size, (view,), size)
                },
    {
        let view: &mut V = &mut **self;
        view.preferred_size()
    }

    /// Gives the view in the box its place.
    fn apply_bounds(&mut self, bounds: Bounds<Scalar>)
        ensures
            exists|view: &mut V|
                {
                    &&& &*view == &**old(self)
                    &&& &*final(view) == &**final(self)
                    &&& #[trigger] call_ensures(V::apply_bounds, (view, bounds), ())
                },
    {
        let view: &mut V = &mut **self;
        view.apply_bounds(bounds)
    }
}

impl<'a, V: View + ?Sized> View for &'a mut V {
    /// Measures the view behind the reference.
    fn preferred_size(&mut self) -> (size: RectSize<Scalar>)
        ensures
            exists|view: &mut V|
                {
                    &&& &*view == &**old(self)
                    &&& &*final(view) == &**final(self)
                    &&& #[trigger] call_ensures(V::preferred_size, (view,), size)
                },
    {
        let view: &mut V = &mut **self;
        view.preferred_size()
    }

    /// Gives the view behind the reference its place.
    fn apply_bounds(&mut self, bounds: Bounds<Scalar>)
        ensures
            exists|view: &mut V|
                {
                    &&& &*view == &**old(self)
                    &&& &*final(view) == &**final(self)
                    &&& #[trigger] call_ensures(V::apply_bounds, (view, bounds), ())
                },
    {
        let view: &mut V = &mut **self;
        view.apply_bounds(bounds)
    }
}

} // verus!
