//! The size of the drawable area, as the host window reports it.

use vstd::prelude::*;

verus! {

/// Width and height of the drawable area in pixels.
///
/// Every pair is a value of this type, a zero dimension included: the host may
/// report one while a window is minimised. [`ViewportSize::has_area`] tells
/// whether an aspect ratio can be formed from it.
#[derive(Clone, Copy, Debug, PartialEq, Eq, Structural)]
pub struct ViewportSize {
    pub width: u32,
    pub height: u32,
}

impl ViewportSize {
    /// Both dimensions are positive, so `height / width` is a finite, positive ratio.
    pub open spec fn has_area(self) -> bool {
        self.width > 0 && self.height > 0
    }

    pub fn new(width: u32, height: u32) -> (size: ViewportSize)
        ensures
            size.width == width,
            size.height == height,
    {
        ViewportSize { width, height }
    }

    /// The aspect ratio of the projection as a fraction. It is height over
    /// width, not width over height.
    pub open spec fn aspect(self) -> (int, int) {
        (self.height as int, self.width as int)
    }

    /// The numerator and the denominator of the aspect ratio.
    pub fn aspect_terms(&self) -> (terms: (u32, u32))
        ensures
            terms.0 == self.aspect().0,
            terms.1 == self.aspect().1,
            terms.0 == self.height,
            terms.1 == self.width,
            self.has_area() ==> terms.0 > 0 && terms.1 > 0,
    {
        (self.height, self.width)
    }

    /// Whether a projection can be computed for this size.
    pub fn is_drawable(&self) -> (drawable: bool)
        ensures
            drawable == self.has_area(),
    {
        self.width > 0 && self.height > 0
    }
}

} // verus!
