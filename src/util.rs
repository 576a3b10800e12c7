use vstd::prelude::*;

verus! {

/// An axis-aligned rectangle given by its top-left corner and its size.
pub struct Rectangle<T> {
    pub x: T,
    pub y: T,
    pub w: T,
    pub h: T,
}

impl<T: Copy> Rectangle<T> {
    pub fn new(x: T, y: T, w: T, h: T) -> (r: Self)
        ensures
            r.x == x,
            r.y == y,
            r.w == w,
            r.h == h,
    {
        Self { x, y, w, h }
    }

    /// The four fields as a tuple `(x, y, w, h)`.
    pub fn unpack(&self) -> (r: (T, T, T, T))
        ensures
            r == (self.x, self.y, self.w, self.h),
    {
        (self.x, self.y, self.w, self.h)
    }
}

} // verus!
