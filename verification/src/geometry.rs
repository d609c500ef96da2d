//! Rectangles of cells.

use vstd::prelude::*;

verus! {

/// A rectangle of cells: the top-left corner and the extent.
#[derive(Clone, Copy, Debug, PartialEq, Eq, Structural)]
pub struct Rect {
    pub x: u16,
    pub y: u16,
    pub width: u16,
    pub height: u16,
}

impl Rect {
    /// The column just past the right edge.
    pub open spec fn right(self) -> int {
        self.x + self.width
    }

    /// The row just past the bottom edge.
    pub open spec fn bottom(self) -> int {
        self.y + self.height
    }

    /// No cell lies in the rectangle.
    pub open spec fn is_empty(self) -> bool {
        self.width == 0 || self.height == 0
    }

    /// Every cell of the rectangle has coordinates that a `u16` can hold.
    pub open spec fn on_screen(self) -> bool {
        self.right() <= u16::MAX && self.bottom() <= u16::MAX
    }

    /// `other` lies within `self`, edges included.
    pub open spec fn contains(self, other: Rect) -> bool {
        &&& self.x <= other.x
        &&& self.y <= other.y
        &&& other.right() <= self.right()
        &&& other.bottom() <= self.bottom()
    }

    /// The rectangle with no cells at the origin.
    pub open spec fn zero() -> Rect {
        Rect { x: 0, y: 0, width: 0, height: 0 }
    }

    pub fn new(x: u16, y: u16, width: u16, height: u16) -> (r: Rect)
        ensures
            r == (Rect { x, y, width, height }),
    {
        Rect { x, y, width, height }
    }

    /// Whether no cell lies in the rectangle.
    pub fn has_no_cells(&self) -> (b: bool)
        ensures
            b == self.is_empty(),
    {
        self.width == 0 || self.height == 0
    }

    /// Whether every cell has coordinates that a `u16` can hold.
    pub fn fits_screen(&self) -> (b: bool)
        ensures
            b == self.on_screen(),
    {
        self.width <= u16::MAX - self.x && self.height <= u16::MAX - self.y
    }

    /// Whether `other` lies within `self`.
    pub fn encloses(&self, other: &Rect) -> (b: bool)
        ensures
            b == self.contains(*other),
    {
        self.x <= other.x && self.y <= other.y
            && other.x as u32 + other.width as u32 <= self.x as u32 + self.width as u32
            && other.y as u32 + other.height as u32 <= self.y as u32 + self.height as u32
    }
}

impl Default for Rect {
    fn default() -> (r: Rect)
        ensures
            r == Rect::zero(),
    {
        Rect { x: 0, y: 0, width: 0, height: 0 }
    }
}

} // verus!
