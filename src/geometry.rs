//! Rectangles as the windowing subsystem reports them, and the sizes and
//! positions read off them.
use vstd::prelude::*;

verus! {

/// A rectangle in screen or client coordinates; `right` and `bottom` are
/// exclusive.
#[derive(Clone, Copy, Debug, PartialEq, Eq, Structural)]
pub struct Rect {
    pub left: i32,
    pub top: i32,
    pub right: i32,
    pub bottom: i32,
}

impl Rect {
    /// Horizontal extent.
    pub open spec fn width(self) -> int {
        self.right - self.left
    }

    /// Vertical extent.
    pub open spec fn height(self) -> int {
        self.bottom - self.top
    }

    /// Both extents can be held in an `i32`.
    pub open spec fn extents_fit(self) -> bool {
        i32::MIN <= self.width() <= i32::MAX && i32::MIN <= self.height() <= i32::MAX
    }

    /// `[width, height]` of the rectangle.
    pub fn size(&self) -> (r: [i32; 2])
        requires
            self.extents_fit(),
        ensures
            r[0] == self.width(),
            r[1] == self.height(),
    {
        [self.right - self.left, self.bottom - self.top]
    }

    /// `[x, y]` of the rectangle's top-left corner.
    pub fn position(&self) -> (r: [i32; 2])
        ensures
            r[0] == self.left,
            r[1] == self.top,
    {
        [self.left, self.top]
    }

    /// The rectangle with its top-left corner at the origin and extent
    /// `[width, height]`: the client area that a window should end up with.
    pub fn from_size(size: [i32; 2]) -> (r: Rect)
        ensures
            r == (Rect { left: 0, top: 0, right: size[0], bottom: size[1] }),
    {
        Rect { left: 0, top: 0, right: size[0], bottom: size[1] }
    }
}

/// A rectangle built from a size has exactly that size again.
pub proof fn lemma_from_size_round_trip(size: [i32; 2])
    ensures
        (Rect { left: 0, top: 0, right: size[0], bottom: size[1] }).extents_fit(),
        (Rect { left: 0, top: 0, right: size[0], bottom: size[1] }).width() == size[0],
        (Rect { left: 0, top: 0, right: size[0], bottom: size[1] }).height() == size[1],
{
}

} // verus!
