//! Rectangles of character cells on the terminal surface.

use vstd::prelude::*;

verus! {

/// The largest coordinate of the surface.
pub const MAX_COORD: u16 = 0xffff;

/// A rectangle of character cells: its top-left corner and its size.
#[derive(Clone, Copy, Debug, PartialEq, Eq, Hash, Structural)]
pub struct Rect {
    pub x: u16,
    pub y: u16,
    pub width: u16,
    pub height: u16,
}

pub open spec fn min_int(a: int, b: int) -> int {
    if a <= b { a } else { b }
}

impl Rect {
    /// The right and bottom edges stay within the coordinate range.
    pub open spec fn wf(self) -> bool {
        self.x + self.width <= MAX_COORD && self.y + self.height <= MAX_COORD
    }

    /// `inner` lies entirely within `self`.
    pub open spec fn contains_rect(self, inner: Rect) -> bool {
        &&& self.x <= inner.x
        &&& inner.x + inner.width <= self.x + self.width
        &&& self.y <= inner.y
        &&& inner.y + inner.height <= self.y + self.height
    }

    /// A rectangle at `(x, y)`, its size clamped so that its right and
    /// bottom edges stay within the coordinate range.
    pub fn new(x: u16, y: u16, width: u16, height: u16) -> (r: Rect)
        ensures
            r.wf(),
            r.x == x,
            r.y == y,
            r.width == min_int(width as int, MAX_COORD - x),
            r.height == min_int(height as int, MAX_COORD - y),
    {
        let max_width = MAX_COORD - x;
        let max_height = MAX_COORD - y;
        let width = if width > max_width { max_width } else { width };
        let height = if height > max_height { max_height } else { height };
        Rect { x, y, width, height }
    }
}

/// The rectangle of at most `width` by `height` cells centred in `r`: its
/// size is clipped to `r`, and the space left over is split evenly, the
/// odd cell going to the right and bottom.
pub open spec fn centered_in(width: int, height: int, r: Rect) -> (int, int, int, int) {
    let w = min_int(width, r.width as int);
    let h = min_int(height, r.height as int);
    (r.x + (r.width - w) / 2, r.y + (r.height - h) / 2, w, h)
}

/// Places a rectangle of a fixed size in the middle of `r`.
pub fn centered_rect_absolute(width: u16, height: u16, r: Rect) -> (c: Rect)
    requires
        r.wf(),
    ensures
        (c.x as int, c.y as int, c.width as int, c.height as int) == centered_in(
            width as int,
            height as int,
            r,
        ),
        c.wf(),
        r.contains_rect(c),
{
    let w = if width < r.width { width } else { r.width };
    let h = if height < r.height { height } else { r.height };
    Rect { x: r.x + (r.width - w) / 2, y: r.y + (r.height - h) / 2, width: w, height: h }
}

} // verus!
