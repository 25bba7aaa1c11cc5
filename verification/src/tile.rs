//! One cell of the zone picker.

use vstd::prelude::*;

verus! {

/// Width of a picker tile in pixels.
pub const TILE_WIDTH: u32 = 48;

/// Height of a picker tile in pixels.
pub const TILE_HEIGHT: u32 = 48;

/// Fill of a selected tile, as 0x00BBGGRR.
pub const SELECTED_FILL: u32 = 0x0080_4D00;

/// Fill of a hovered tile, as 0x00BBGGRR.
pub const HOVERED_FILL: u32 = 0x0094_6400;

/// Fill of a tile that is neither selected nor hovered, as 0x00BBGGRR.
pub const PLAIN_FILL: u32 = 0x00B2_B2B2;

/// Colour of the frame around every tile, as 0x00BBGGRR.
pub const FRAME_COLOR: u32 = 0;

/// A tile carries nothing but its two flags; its identity is its place in the
/// matrix.
#[derive(Debug, Clone, Copy, PartialEq, Eq, Structural)]
pub struct Tile {
    pub selected: bool,
    pub hovered: bool,
}

impl Tile {
    /// The tile with both flags down.
    pub open spec fn blank() -> Tile {
        Tile { selected: false, hovered: false }
    }

    /// Selected wins over hovered, hovered over plain.
    pub open spec fn spec_fill_color(self) -> u32 {
        if self.selected {
            SELECTED_FILL
        } else if self.hovered {
            HOVERED_FILL
        } else {
            PLAIN_FILL
        }
    }

    /// The colour this tile is filled with.
    pub fn fill_color(self) -> (color: u32)
        ensures
            color == self.spec_fill_color(),
    {
        if self.selected {
            SELECTED_FILL
        } else if self.hovered {
            HOVERED_FILL
        } else {
            PLAIN_FILL
        }
    }
}

impl Default for Tile {
    fn default() -> (tile: Tile)
        ensures
            tile == Tile::blank(),
    {
        Tile { selected: false, hovered: false }
    }
}

} // verus!
