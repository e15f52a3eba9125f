//! Positions, sizes and rectangular regions on the terminal grid.

use vstd::prelude::*;

verus! {

/// A cell of the terminal grid: column `x`, row `y`.
#[derive(Copy, Clone, Debug, PartialEq, Eq, Structural, Hash)]
pub struct Position {
    pub x: u16,
    pub y: u16,
}

/// A width and a height, in cells.
#[derive(Copy, Clone, Debug, PartialEq, Eq, Structural, Hash)]
pub struct Size {
    pub width: u16,
    pub height: u16,
}

/// An axis-aligned region of the grid: the columns `x .. x + width` of the
/// rows `y .. y + height`.
#[derive(Copy, Clone, Debug, PartialEq, Eq, Structural, Hash)]
pub struct Rect {
    pub x: u16,
    pub y: u16,
    pub width: u16,
    pub height: u16,
}

impl Position {
    pub fn new(x: u16, y: u16) -> (p: Position)
        ensures
            p == (Position { x, y }),
    {
        Position { x, y }
    }
}

impl Size {
    pub fn new(width: u16, height: u16) -> (s: Size)
        ensures
            s == (Size { width, height }),
    {
        Size { width, height }
    }
}

impl Rect {
    pub fn new(x: u16, y: u16, width: u16, height: u16) -> (r: Rect)
        ensures
            r == (Rect { x, y, width, height }),
    {
        Rect { x, y, width, height }
    }

    /// The first column to the right of the region.
    pub open spec fn right(self) -> int {
        self.x + self.width
    }

    /// The first row below the region.
    pub open spec fn bottom(self) -> int {
        self.y + self.height
    }

    /// Whether the region ends on the grid: its last column and row have
    /// numbers that a position can hold.
    pub open spec fn on_grid(self) -> bool {
        self.right() <= u16::MAX && self.bottom() <= u16::MAX
    }

    /// Whether `position` is one of the region's cells.
    pub open spec fn spec_contains(self, position: Position) -> bool {
        &&& self.x <= position.x < self.right()
        &&& self.y <= position.y < self.bottom()
    }

    /// Whether every cell of the region is a cell of `outer`.
    pub open spec fn within(self, outer: Rect) -> bool {
        &&& outer.x <= self.x
        &&& self.right() <= outer.right()
        &&& outer.y <= self.y
        &&& self.bottom() <= outer.bottom()
    }

    /// Whether `position` is one of the region's cells. A region without
    /// width or without height contains nothing.
    #[verifier::when_used_as_spec(spec_contains)]
    pub fn contains(self, position: Position) -> (inside: bool)
        ensures
            inside == self.spec_contains(position),
    {
        let right: u32 = self.x as u32 + self.width as u32;
        let bottom: u32 = self.y as u32 + self.height as u32;
        let column: u32 = position.x as u32;
        let row: u32 = position.y as u32;
        position.x >= self.x && column < right && position.y >= self.y && row < bottom
    }

    /// Whether the region lies inside `outer` with margins that differ by
    /// at most one cell between left and right, and between top and bottom.
    pub open spec fn spec_is_centered_in(self, outer: Rect) -> bool {
        &&& self.within(outer)
        &&& -1 <= (self.x - outer.x) - (outer.right() - self.right()) <= 1
        &&& -1 <= (self.y - outer.y) - (outer.bottom() - self.bottom()) <= 1
    }

    /// Whether the region lies inside `outer` and in its middle, up to the
    /// one cell by which the margins on opposite sides must differ when the
    /// space left over is odd.
    #[verifier::when_used_as_spec(spec_is_centered_in)]
    pub fn is_centered_in(self, outer: Rect) -> (centered: bool)
        ensures
            centered == self.spec_is_centered_in(outer),
    {
        let right: u32 = self.x as u32 + self.width as u32;
        let bottom: u32 = self.y as u32 + self.height as u32;
        let outer_right: u32 = outer.x as u32 + outer.width as u32;
        let outer_bottom: u32 = outer.y as u32 + outer.height as u32;
        if self.x < outer.x || right > outer_right || self.y < outer.y || bottom > outer_bottom {
            return false;
        }
        let left_margin: u32 = (self.x - outer.x) as u32;
        let right_margin: u32 = outer_right - right;
        let top_margin: u32 = (self.y - outer.y) as u32;
        let bottom_margin: u32 = outer_bottom - bottom;
        left_margin <= right_margin + 1 && right_margin <= left_margin + 1 && top_margin
            <= bottom_margin + 1 && bottom_margin <= top_margin + 1
    }

    /// The region's size.
    pub open spec fn spec_as_size(self) -> Size {
        Size { width: self.width, height: self.height }
    }

    /// The region's size.
    #[verifier::when_used_as_spec(spec_as_size)]
    pub fn as_size(self) -> (s: Size)
        ensures
            s == self.spec_as_size(),
    {
        Size { width: self.width, height: self.height }
    }
}

} // verus!
