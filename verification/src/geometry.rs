//! Plain geometric containers, generic over the unit they measure in.
use vstd::prelude::*;

verus! {

/// A width and a height.
#[derive(Clone, Copy, Debug, Default)]
pub struct Size<T> {
    pub width: T,
    pub height: T,
}

/// One value for each corner of a rectangle.
#[derive(Clone, Copy, Debug, Default)]
pub struct Corners<T> {
    pub top_left: T,
    pub top_right: T,
    pub bottom_right: T,
    pub bottom_left: T,
}

impl<T> Corners<T> {
    /// Whether all four corners hold `value`.
    pub open spec fn is_all(self, value: T) -> bool {
        &&& self.top_left == value
        &&& self.top_right == value
        &&& self.bottom_right == value
        &&& self.bottom_left == value
    }
}

impl<T: Copy> Corners<T> {
    /// The same value for all four corners.
    pub fn all(value: T) -> (r: Self)
        ensures
            r.is_all(value),
    {
        Corners { top_left: value, top_right: value, bottom_right: value, bottom_left: value }
    }
}

} // verus!
