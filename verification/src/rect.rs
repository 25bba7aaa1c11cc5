//! Axis-aligned rectangles in screen coordinates, origin at the top left.

use vstd::prelude::*;

verus! {

/// The mathematical rectangle that a [`Rect`] stands for: the same four
/// numbers, free of machine limits.
pub struct Region {
    pub x: int,
    pub y: int,
    pub w: int,
    pub h: int,
}

impl Region {
    /// Inclusive on all four edges.
    pub open spec fn contains_point(self, px: int, py: int) -> bool {
        &&& self.x <= px <= self.x + self.w
        &&& self.y <= py <= self.y + self.h
    }

    /// Widens the rectangle by `dx` on the left and on the right and by `dy`
    /// at the bottom only; the top edge stays.
    pub open spec fn adjust_for_border(self, dx: int, dy: int) -> Region {
        Region { x: self.x - dx, y: self.y, w: self.w + 2 * dx, h: self.h + dy }
    }

    /// All four numbers fit a machine rectangle.
    pub open spec fn representable(self) -> bool {
        &&& i32::MIN <= self.x <= i32::MAX
        &&& i32::MIN <= self.y <= i32::MAX
        &&& i32::MIN <= self.w <= i32::MAX
        &&& i32::MIN <= self.h <= i32::MAX
    }

    /// Neither extent is negative.
    pub open spec fn normalized(self) -> bool {
        self.w >= 0 && self.h >= 0
    }

    /// The interiors share no point.
    pub open spec fn disjoint(self, other: Region) -> bool {
        ||| self.x + self.w <= other.x
        ||| other.x + other.w <= self.x
        ||| self.y + self.h <= other.y
        ||| other.y + other.h <= self.y
    }

    /// `self` lies inside `outer`, edges included.
    pub open spec fn within(self, outer: Region) -> bool {
        &&& outer.x <= self.x
        &&& self.x + self.w <= outer.x + outer.w
        &&& outer.y <= self.y
        &&& self.y + self.h <= outer.y + outer.h
    }
}

/// x and y are relative to the top left of the screen.
#[derive(Debug, Clone, Copy, PartialEq, Eq, Structural)]
pub struct Rect {
    /// Left edge.
    pub x: i32,
    /// Top edge.
    pub y: i32,
    /// Width; may be negative while a computation is under way.
    pub w: i32,
    /// Height; may be negative while a computation is under way.
    pub h: i32,
}

/// A rectangle as the window system gives it: by its four edges.
#[derive(Debug, Clone, Copy, PartialEq, Eq, Structural)]
pub struct Edges {
    pub left: i32,
    pub top: i32,
    pub right: i32,
    pub bottom: i32,
}

impl Edges {
    /// The rectangle between the edges.
    pub open spec fn region(self) -> Region {
        Region {
            x: self.left as int,
            y: self.top as int,
            w: self.right - self.left,
            h: self.bottom - self.top,
        }
    }
}

impl View for Rect {
    type V = Region;

    open spec fn view(&self) -> Region {
        Region { x: self.x as int, y: self.y as int, w: self.w as int, h: self.h as int }
    }
}

/// The machine rectangle of a region that fits the coordinate range.
pub open spec fn rect_of(region: Region) -> Rect {
    Rect { x: region.x as i32, y: region.y as i32, w: region.w as i32, h: region.h as i32 }
}

/// The mathematical rectangle behind an optional machine rectangle.
pub open spec fn region_of(rect: Option<Rect>) -> Option<Region> {
    match rect {
        Some(r) => Some(r@),
        None => None,
    }
}

impl Rect {
    /// Determines if a point is inside of the rectangle, edges included.
    pub fn contains_point(self, point: (i32, i32)) -> (inside: bool)
        ensures
            inside == self@.contains_point(point.0 as int, point.1 as int),
    {
        let px: i64 = point.0 as i64;
        let py: i64 = point.1 as i64;
        let left: i64 = self.x as i64;
        let top: i64 = self.y as i64;
        px >= left && px <= left + self.w as i64 && py >= top && py <= top + self.h as i64
    }

    /// The edges of the rectangle.
    pub open spec fn spec_edges(self) -> (int, int, int, int) {
        (self.x as int, self.y as int, self.x + self.w, self.y + self.h)
    }

    /// The rectangle between the edges, or `None` where its width or height
    /// does not fit the coordinate range.
    pub fn from_edges(edges: Edges) -> (rect: Option<Rect>)
        ensures
            match rect {
                Some(r) => r@ == edges.region(),
                None => !edges.region().representable(),
            },
    {
        let w: i64 = edges.right as i64 - edges.left as i64;
        let h: i64 = edges.bottom as i64 - edges.top as i64;
        if w < i32::MIN as i64 || w > i32::MAX as i64 || h < i32::MIN as i64 || h > i32::MAX as i64 {
            None
        } else {
            Some(Rect { x: edges.left, y: edges.top, w: w as i32, h: h as i32 })
        }
    }

    /// The edges of the rectangle, or `None` where the right or the bottom
    /// edge does not fit the coordinate range.
    pub fn edges(&self) -> (edges: Option<Edges>)
        ensures
            match edges {
                Some(e) => (e.left as int, e.top as int, e.right as int, e.bottom as int)
                    == self.spec_edges(),
                None => {
                    let (_, _, right, bottom) = self.spec_edges();
                    right < i32::MIN || right > i32::MAX || bottom < i32::MIN || bottom > i32::MAX
                },
            },
    {
        let right: i64 = self.x as i64 + self.w as i64;
        let bottom: i64 = self.y as i64 + self.h as i64;
        if right < i32::MIN as i64 || right > i32::MAX as i64 || bottom < i32::MIN as i64 || bottom
            > i32::MAX as i64 {
            None
        } else {
            Some(Edges { left: self.x, top: self.y, right: right as i32, bottom: bottom as i32 })
        }
    }

    /// Creates a new `Rect` with all values of zero.
    pub fn zero() -> (r: Rect)
        ensures
            r == (Rect { x: 0, y: 0, w: 0, h: 0 }),
    {
        Rect { x: 0, y: 0, w: 0, h: 0 }
    }

    /// Whether [`Rect::adjust_for_border`] can be applied without leaving the
    /// range of the coordinates.
    pub fn border_fits(&self, border: (i32, i32)) -> (fits: bool)
        ensures
            fits == self@.adjust_for_border(border.0 as int, border.1 as int).representable(),
    {
        let x: i64 = self.x as i64 - border.0 as i64;
        let w: i64 = self.w as i64 + 2 * (border.0 as i64);
        let h: i64 = self.h as i64 + border.1 as i64;
        i32::MIN as i64 <= x && x <= i32::MAX as i64 && i32::MIN as i64 <= w && w <= i32::MAX as i64
            && i32::MIN as i64 <= h && h <= i32::MAX as i64
    }

    /// Adjusts the rectangle for a window border of `border.0` pixels on
    /// either side and `border.1` pixels below.
    pub fn adjust_for_border(&mut self, border: (i32, i32))
        requires
            old(self)@.adjust_for_border(border.0 as int, border.1 as int).representable(),
        ensures
            final(self)@ == old(self)@.adjust_for_border(border.0 as int, border.1 as int),
    {
        let w: i64 = self.w as i64 + 2 * (border.0 as i64);
        self.x = self.x - border.0;
        self.w = w as i32;
        self.h = self.h + border.1;
    }
}

} // verus!
