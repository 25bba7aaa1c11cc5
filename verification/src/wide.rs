//! Geometry in numbers wide enough that no intermediate result leaves
//! their range, whatever the work area and however large the matrix.

use vstd::prelude::*;

use crate::model::div_toward_zero;
use crate::rect::{Rect, Region};

verus! {

/// Integer division that rounds toward zero.
pub(crate) fn divide(n: i128, d: i128) -> (q: i128)
    requires
        d > 0,
        n > i128::MIN,
    ensures
        q == div_toward_zero(n as int, d as int),
{
    if n >= 0 {
        n / d
    } else {
        -((-n) / d)
    }
}

/// A rectangle in numbers wide enough for every intermediate result.
#[derive(Clone, Copy)]
pub(crate) struct Wide {
    pub x: i128,
    pub y: i128,
    pub w: i128,
    pub h: i128,
}

/// Bound of the numbers of a zone.
pub(crate) open spec fn zone_bound() -> int {
    0x10_0000_0000_0000_0000_0000_0000
}

impl Wide {
    pub(crate) open spec fn region(self) -> Region {
        Region { x: self.x as int, y: self.y as int, w: self.w as int, h: self.h as int }
    }

    pub(crate) open spec fn bounded(self) -> bool {
        &&& -zone_bound() <= self.x <= zone_bound()
        &&& -zone_bound() <= self.y <= zone_bound()
        &&& -zone_bound() <= self.w <= zone_bound()
        &&& -zone_bound() <= self.h <= zone_bound()
    }

    /// Within a bound that leaves room to widen a span by a border.
    pub(crate) open spec fn wider(self) -> bool {
        &&& -4 * zone_bound() <= self.x <= 4 * zone_bound()
        &&& -4 * zone_bound() <= self.y <= 4 * zone_bound()
        &&& -4 * zone_bound() <= self.w <= 4 * zone_bound()
        &&& -4 * zone_bound() <= self.h <= 4 * zone_bound()
    }

    /// From the top left corner of `self` to the bottom right corner of `to`.
    pub(crate) fn corner_to_corner(self, to: Wide) -> (span: Wide)
        requires
            self.bounded(),
            to.bounded(),
        ensures
            span.region() == crate::model::corner_to_corner(self.region(), to.region()),
            span.wider(),
    {
        Wide { x: self.x, y: self.y, w: (to.x + to.w) - self.x, h: (to.y + to.h) - self.y }
    }

    pub(crate) fn representable(self) -> (fits: bool)
        ensures
            fits == self.region().representable(),
    {
        let lo: i128 = i32::MIN as i128;
        let hi: i128 = i32::MAX as i128;
        lo <= self.x && self.x <= hi && lo <= self.y && self.y <= hi && lo <= self.w && self.w
            <= hi && lo <= self.h && self.h <= hi
    }

    pub(crate) fn narrow(self) -> (rect: Rect)
        requires
            self.region().representable(),
        ensures
            rect@ == self.region(),
    {
        Rect { x: self.x as i32, y: self.y as i32, w: self.w as i32, h: self.h as i32 }
    }
}

/// Extent of each of `count` zones along an axis of the given extent.
pub(crate) fn zone_extent(extent: i32, count: usize, zone_margins: u8, border_margins: u8) -> (each:
    i128)
    requires
        count >= 1,
    ensures
        each == div_toward_zero(
            extent - 2 * border_margins - (count - 1) * zone_margins,
            count as int,
        ),
        -0x1_0000_0000 <= each <= 0x1_0000_0000,
{
    let n: i128 = count as i128;
    let gap: i128 = zone_margins as i128;
    assert(0 <= (n - 1) * gap <= 255 * n) by (nonlinear_arith)
        requires
            1 <= n,
            0 <= gap <= 255,
    ;
    let free: i128 = extent as i128 - 2 * (border_margins as i128) - (n - 1) * gap;
    let each = divide(free, n);
    proof {
        let d: int = n as int;
        if free >= 0 {
            let f: int = free as int;
            assert(0 <= f / d <= f) by (nonlinear_arith)
                requires
                    f >= 0,
                    d >= 1,
            ;
        } else {
            let m: int = -free;
            let n: int = d;
            let q: int = m / n;
            assert(0 <= q && q * n <= m) by (nonlinear_arith)
                requires
                    m >= 0,
                    n >= 1,
                    q == m / n,
            ;
            assert(q <= 0x8000_0000 + 510 + 255) by (nonlinear_arith)
                requires
                    q * n <= m,
                    m <= 0x8000_0000 + 510 + 255 * n,
                    n >= 1,
                    q >= 0,
            ;
        }
    }
    each
}

/// Where the zone with the given index starts along an axis.
pub(crate) fn zone_start(
    index: usize,
    each: i128,
    zone_margins: u8,
    border_margins: u8,
    origin: i32,
) -> (at: i128)
    requires
        -0x1_0000_0000 <= each <= 0x1_0000_0000,
    ensures
        at == index * each + border_margins + index * zone_margins + origin,
        -zone_bound() <= at <= zone_bound(),
{
    let i: i128 = index as i128;
    let stride: i128 = each + zone_margins as i128;
    assert(-0x1_0000_0000_0000_0000 * 0x2_0000_0000 <= i * stride <= 0x1_0000_0000_0000_0000
        * 0x2_0000_0000 && i * stride == i * each + i * zone_margins) by (nonlinear_arith)
        requires
            0 <= i <= 0x1_0000_0000_0000_0000,
            -0x2_0000_0000 <= stride <= 0x2_0000_0000,
            stride == each + zone_margins,
    ;
    i * stride + border_margins as i128 + origin as i128
}

/// Where the tile with the given index starts along an axis of the picker.
pub(crate) fn tile_start(index: usize, size: u32, grid_margins: u8) -> (at: i128)
    ensures
        at == index * size + (index + 1) * grid_margins,
        0 <= at <= zone_bound(),
{
    let i: i128 = index as i128;
    let s: i128 = size as i128;
    let gap: i128 = grid_margins as i128;
    assert(0 <= i * s <= 0x1_0000_0000_0000_0000 * 0x1_0000_0000) by (nonlinear_arith)
        requires
            0 <= i <= 0x1_0000_0000_0000_0000,
            0 <= s <= 0x1_0000_0000,
    ;
    assert(0 <= (i + 1) * gap <= 0x1_0000_0000_0000_0001 * 0x100) by (nonlinear_arith)
        requires
            0 <= i + 1 <= 0x1_0000_0000_0000_0001,
            0 <= gap <= 0x100,
    ;
    i * s + (i + 1) * gap
}

} // verus!
