//! Small helpers.
use vstd::prelude::*;

verus! {

/// The default value of a type: what `T::default()` gives.
pub fn the_default<T: Default>() -> (value: T)
    ensures
        call_ensures(T::default, (), value),
{
    Default::default()
}

} // verus!
