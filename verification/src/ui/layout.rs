//! Rectangles of terminal cells, and the arithmetic of laying them out.
//! Sums stop at the largest coordinate and differences at zero.

use vstd::prelude::*;

verus! {

/// The largest coordinate or extent of a terminal.
pub open spec fn limit() -> int {
    u16::MAX as int
}

/// `a + b`, stopped at the largest coordinate.
pub open spec fn sat_add(a: int, b: int) -> int {
    if a + b > limit() {
        limit()
    } else {
        a + b
    }
}

/// `a - b`, stopped at zero.
pub open spec fn sat_sub(a: int, b: int) -> int {
    if a < b {
        0
    } else {
        a - b
    }
}

/// The smaller of two numbers.
pub open spec fn least(a: int, b: int) -> int {
    if a <= b {
        a
    } else {
        b
    }
}

/// The larger of two numbers.
pub open spec fn most(a: int, b: int) -> int {
    if a >= b {
        a
    } else {
        b
    }
}

/// The smaller of two extents.
pub fn min_u16(a: u16, b: u16) -> (r: u16)
    ensures
        r == least(a as int, b as int),
{
    if a <= b {
        a
    } else {
        b
    }
}

/// The larger of two extents.
pub fn max_u16(a: u16, b: u16) -> (r: u16)
    ensures
        r == most(a as int, b as int),
{
    if a >= b {
        a
    } else {
        b
    }
}

/// A count as an extent, stopped at the largest extent.
pub fn clamp_u16(n: usize) -> (r: u16)
    ensures
        r == least(n as int, limit()),
{
    if n > 0xffff {
        0xffff
    } else {
        n as u16
    }
}

/// A rectangle of terminal cells: the column and row of its upper left
/// corner, and its extent.
#[derive(Debug, Clone, Copy, PartialEq, Eq, Structural)]
pub struct Rect {
    pub x: u16,
    pub y: u16,
    pub width: u16,
    pub height: u16,
}

impl Rect {
    pub fn new(x: u16, y: u16, width: u16, height: u16) -> (r: Rect)
        ensures
            r == (Rect { x, y, width, height }),
    {
        Rect { x, y, width, height }
    }

    /// The rectangle of at most `width` by `height` cells that is centred
    /// within `outer`.
    pub open spec fn spec_centered(width: u16, height: u16, outer: Rect) -> Rect {
        Rect {
            x: sat_add(outer.x as int, sat_sub(outer.width as int, width as int) / 2) as u16,
            y: sat_add(outer.y as int, sat_sub(outer.height as int, height as int) / 2) as u16,
            width: least(width as int, outer.width as int) as u16,
            height: least(height as int, outer.height as int) as u16,
        }
    }

    /// The rectangle within `self` that leaves out `dx` columns on either
    /// side and `dy` rows above and below.
    pub open spec fn spec_inset(self, dx: u16, dy: u16) -> Rect {
        Rect {
            x: sat_add(self.x as int, dx as int) as u16,
            y: sat_add(self.y as int, dy as int) as u16,
            width: sat_sub(self.width as int, 2 * dx) as u16,
            height: sat_sub(self.height as int, 2 * dy) as u16,
        }
    }

    /// The rectangle within `self` that leaves out `dx` columns on either
    /// side and `dy` rows above and below.
    pub fn inset(self, dx: u16, dy: u16) -> (r: Rect)
        requires
            2 * dx <= u16::MAX,
            2 * dy <= u16::MAX,
        ensures
            r == self.spec_inset(dx, dy),
    {
        Rect {
            x: self.x.saturating_add(dx),
            y: self.y.saturating_add(dy),
            width: self.width.saturating_sub(2 * dx),
            height: self.height.saturating_sub(2 * dy),
        }
    }

    /// The same rectangle, no wider than `width`.
    pub fn narrowed(self, width: u16) -> (r: Rect)
        ensures
            r == (Rect { width: least(width as int, self.width as int) as u16, ..self }),
    {
        Rect { x: self.x, y: self.y, width: min_u16(width, self.width), height: self.height }
    }
}

/// The rectangle of at most `width` by `height` cells that is centred
/// within `outer`.
pub fn centered_rect(width: u16, height: u16, outer: Rect) -> (r: Rect)
    ensures
        r == Rect::spec_centered(width, height, outer),
        r.width <= outer.width,
        r.height <= outer.height,
        outer.x <= r.x,
        outer.y <= r.y,
{
    let x = outer.x.saturating_add(outer.width.saturating_sub(width) / 2);
    let y = outer.y.saturating_add(outer.height.saturating_sub(height) / 2);
    Rect { x, y, width: min_u16(width, outer.width), height: min_u16(height, outer.height) }
}

/// A centred rectangle lies within the outer one, as long as the outer one
/// lies within the terminal's coordinates.
pub proof fn lemma_centered_within(width: u16, height: u16, outer: Rect)
    requires
        outer.x + outer.width <= limit(),
        outer.y + outer.height <= limit(),
    ensures
        ({
            let r = Rect::spec_centered(width, height, outer);
            &&& outer.x <= r.x
            &&& r.x + r.width <= outer.x + outer.width
            &&& outer.y <= r.y
            &&& r.y + r.height <= outer.y + outer.height
        }),
{
}

} // verus!
