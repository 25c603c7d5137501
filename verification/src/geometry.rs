//! Rectangles on the terminal screen.

use vstd::prelude::*;

verus! {

/// A rectangle of terminal cells: left column, top row, width and height.
#[derive(Debug, Clone, Copy, PartialEq, Eq, Structural)]
pub struct Area {
    pub x: u16,
    pub y: u16,
    pub width: u16,
    pub height: u16,
}

/// Saturating `u16` addition.
pub open spec fn sat_add(a: u16, b: u16) -> u16 {
    if a + b > u16::MAX { u16::MAX } else { (a + b) as u16 }
}

/// Saturating `u16` subtraction.
pub open spec fn sat_sub(a: u16, b: u16) -> u16 {
    if a < b { 0 } else { (a - b) as u16 }
}

impl Area {
    /// The column just right of the area (saturating).
    pub open spec fn right_spec(self) -> u16 {
        sat_add(self.x, self.width)
    }

    /// The row just below the area (saturating).
    pub open spec fn bottom_spec(self) -> u16 {
        sat_add(self.y, self.height)
    }

    /// Whether the cell at `(col, row)` lies inside the area.
    pub open spec fn contains_spec(self, col: u16, row: u16) -> bool {
        &&& self.x <= col
        &&& col < self.right_spec()
        &&& self.y <= row
        &&& row < self.bottom_spec()
    }

    /// The empty area at the origin.
    pub open spec fn empty_spec() -> Area {
        Area { x: 0, y: 0, width: 0, height: 0 }
    }

    /// The empty area at the origin.
    pub fn empty() -> (r: Area)
        ensures
            r == Area::empty_spec(),
    {
        Area { x: 0, y: 0, width: 0, height: 0 }
    }

    /// The column just right of the area, saturating at `u16::MAX`.
    pub fn right(&self) -> (r: u16)
        ensures
            r == self.right_spec(),
    {
        self.x.saturating_add(self.width)
    }

    /// The row just below the area, saturating at `u16::MAX`.
    pub fn bottom(&self) -> (r: u16)
        ensures
            r == self.bottom_spec(),
    {
        self.y.saturating_add(self.height)
    }

    /// Whether the cell at `(col, row)` lies inside the area.
    pub fn contains(&self, col: u16, row: u16) -> (r: bool)
        ensures
            r == self.contains_spec(col, row),
    {
        col >= self.x && col < self.right() && row >= self.y && row < self.bottom()
    }
}

/// The size that `ratatui::layout::Rect::new` gives a rectangle of
/// `width * height` cells beyond `u16::MAX`: it shrinks it in floating point,
/// keeping the aspect ratio.
pub uninterp spec fn clipped_size(width: u16, height: u16) -> (u16, u16);

/// The size that `Rect::new` gives a rectangle asked for with this size.
pub open spec fn rect_size(width: u16, height: u16) -> (u16, u16) {
    if width * height <= u16::MAX as int {
        (width, height)
    } else {
        clipped_size(width, height)
    }
}

/// Builds an area by `ratatui::layout::Rect::new`.
///
/// The outside function keeps `x` and `y`, and keeps the size wherever
/// `width * height` fits in `u16`; beyond that it shrinks the size by a
/// floating-point computation (keeping the aspect ratio within the area
/// `u16::MAX`), whose result is only named here, and which never grows
/// either side.
#[verifier::external_body]
pub fn rect_new(x: u16, y: u16, width: u16, height: u16) -> (r: Area)
    ensures
        r.x == x,
        r.y == y,
        width * height <= u16::MAX ==> r.width == width && r.height == height,
        width * height > u16::MAX ==> (r.width, r.height) == clipped_size(width, height),
        r.width <= width,
        r.height <= height,
{
    let r = ratatui::layout::Rect::new(x, y, width, height);
    Area { x: r.x, y: r.y, width: r.width, height: r.height }
}

/// An area with its z-index, as the focus handling sees it.
#[derive(Debug, Clone, Copy, PartialEq, Eq, Structural)]
pub struct ZArea {
    pub z: u16,
    pub area: Area,
}

} // verus!
