//! The mathematical model of the grid: what a grid is, where its zones and
//! tiles lie, and what each operation makes of it. Everything here is
//! specification; the executable grid is proved against it.

use vstd::prelude::*;

use crate::grid::{TilePaint, DEFAULT_COLUMNS, DEFAULT_GRID_MARGINS, DEFAULT_ROWS};
use crate::rect::{rect_of, Rect, Region};
use crate::tile::{Tile, FRAME_COLOR, TILE_HEIGHT, TILE_WIDTH};
use crate::window::Window;

verus! {

/// Integer division that rounds toward zero, for a positive divisor.
pub open spec fn div_toward_zero(n: int, d: int) -> int {
    if n >= 0 {
        n / d
    } else {
        -((-n) / d)
    }
}

/// The greatest index below `n` at which `hit` holds, if there is one.
pub open spec fn last_below(n: int, hit: spec_fn(int) -> bool) -> Option<int>
    decreases n,
{
    if n <= 0 {
        None
    } else if hit(n - 1) {
        Some(n - 1)
    } else {
        last_below(n - 1, hit)
    }
}

/// `last_below` looks at the values of the predicate only.
pub proof fn lemma_last_below_same(n: int, f: spec_fn(int) -> bool, g: spec_fn(int) -> bool)
    requires
        forall|i: int| 0 <= i < n ==> #[trigger] f(i) == g(i),
    ensures
        last_below(n, f) == last_below(n, g),
    decreases n,
{
    if n > 0 {
        lemma_last_below_same(n - 1, f, g);
    }
}

/// What `last_below` finds lies below the bound.
pub proof fn lemma_last_below_in_range(n: int, hit: spec_fn(int) -> bool)
    ensures
        last_below(n, hit) matches Some(i) ==> 0 <= i < n && hit(i),
    decreases n,
{
    if n > 0 {
        lemma_last_below_in_range(n - 1, hit);
    }
}

/// The rectangle from the top left corner of `from` to the bottom right
/// corner of `to`.
pub open spec fn corner_to_corner(from: Region, to: Region) -> Region {
    Region { x: from.x, y: from.y, w: (to.x + to.w) - from.x, h: (to.y + to.h) - from.y }
}

/// A matrix of tiles is sound when it has at least one row and one column
/// and every row is as long as the first.
pub open spec fn matrix_wf(tiles: Seq<Seq<Tile>>) -> bool {
    &&& tiles.len() >= 1
    &&& tiles[0].len() >= 1
    &&& forall|r: int| 0 <= r < tiles.len() ==> (#[trigger] tiles[r]).len() == tiles[0].len()
}

/// The matrix with one more row of blank tiles at the bottom.
pub open spec fn with_row_added(tiles: Seq<Seq<Tile>>) -> Seq<Seq<Tile>> {
    tiles.push(Seq::new(tiles[0].len(), |c: int| Tile::blank()))
}

/// The matrix without its last row; a matrix of one row stays as it is.
pub open spec fn with_row_removed(tiles: Seq<Seq<Tile>>) -> Seq<Seq<Tile>> {
    if tiles.len() > 1 {
        tiles.drop_last()
    } else {
        tiles
    }
}

/// The matrix with one more blank tile at the end of every row.
pub open spec fn with_column_added(tiles: Seq<Seq<Tile>>) -> Seq<Seq<Tile>> {
    Seq::new(tiles.len(), |r: int| tiles[r].push(Tile::blank()))
}

/// The matrix without the last tile of every row; a matrix of one column
/// stays as it is.
pub open spec fn with_column_removed(tiles: Seq<Seq<Tile>>) -> Seq<Seq<Tile>> {
    if tiles[0].len() > 1 {
        Seq::new(tiles.len(), |r: int| tiles[r].drop_last())
    } else {
        tiles
    }
}

/// The matrix in which a tile is hovered exactly where `mark` holds.
pub open spec fn hovered_where(tiles: Seq<Seq<Tile>>, mark: spec_fn(int, int) -> bool) -> Seq<
    Seq<Tile>,
> {
    Seq::new(
        tiles.len(),
        |r: int|
            Seq::new(
                tiles[r].len(),
                |c: int| Tile { selected: tiles[r][c].selected, hovered: mark(r, c) },
            ),
    )
}

/// The matrix in which a tile is selected exactly where `mark` holds.
pub open spec fn selected_where(tiles: Seq<Seq<Tile>>, mark: spec_fn(int, int) -> bool) -> Seq<
    Seq<Tile>,
> {
    Seq::new(
        tiles.len(),
        |r: int|
            Seq::new(
                tiles[r].len(),
                |c: int| Tile { selected: mark(r, c), hovered: tiles[r][c].hovered },
            ),
    )
}

/// The matrix with every hover flag down.
pub open spec fn without_hover(tiles: Seq<Seq<Tile>>) -> Seq<Seq<Tile>> {
    hovered_where(tiles, |r: int, c: int| false)
}

/// The matrix with every selection flag down.
pub open spec fn without_selection(tiles: Seq<Seq<Tile>>) -> Seq<Seq<Tile>> {
    selected_where(tiles, |r: int, c: int| false)
}

/// The matrix with both flags of every tile down.
pub open spec fn all_blank(tiles: Seq<Seq<Tile>>) -> Seq<Seq<Tile>> {
    without_selection(without_hover(tiles))
}

/// What a grid is, as plain mathematical data.
pub struct GridView {
    pub shift_down: bool,
    pub control_down: bool,
    pub cursor_down: bool,
    pub selected_tile: Option<(usize, usize)>,
    pub hovered_tile: Option<(usize, usize)>,
    pub active_window: Option<Window>,
    pub grid_window: Option<Window>,
    pub previous_resize: Option<(Window, Rect)>,
    pub quick_resize: bool,
    /// Space between picker tiles.
    pub grid_margins: int,
    /// Space between zones.
    pub zone_margins: int,
    /// Space between the zones and the edge of the work area.
    pub border_margins: int,
    /// Row by row, from the top.
    pub tiles: Seq<Seq<Tile>>,
}

impl GridView {
    /// A new grid of two rows and two columns with the given margins:
    /// nothing held, selected, hovered or remembered, every tile blank.
    pub open spec fn fresh(zone_margins: int, border_margins: int) -> GridView {
        GridView {
            shift_down: false,
            control_down: false,
            cursor_down: false,
            selected_tile: None,
            hovered_tile: None,
            active_window: None,
            grid_window: None,
            previous_resize: None,
            quick_resize: false,
            grid_margins: DEFAULT_GRID_MARGINS as int,
            zone_margins,
            border_margins,
            tiles: Seq::new(
                DEFAULT_ROWS as nat,
                |r: int| Seq::new(DEFAULT_COLUMNS as nat, |c: int| Tile::blank()),
            ),
        }
    }

    /// The grid that replaces this one when the configuration, the monitor
    /// or the profile changes: a new one, to which the active window, the
    /// last placement and the quick mode are carried over.
    pub open spec fn rebuilt(self, zone_margins: int, border_margins: int) -> GridView {
        GridView {
            active_window: self.active_window,
            previous_resize: self.previous_resize,
            quick_resize: self.quick_resize,
            ..GridView::fresh(zone_margins, border_margins)
        }
    }

    /// Number of rows of the matrix.
    pub open spec fn rows(self) -> int {
        self.tiles.len() as int
    }

    /// Number of columns of the matrix.
    pub open spec fn columns(self) -> int {
        self.tiles[0].len() as int
    }

    /// The invariant of every grid: a sound matrix and margins of one byte.
    pub open spec fn wf(self) -> bool {
        &&& matrix_wf(self.tiles)
        &&& 0 <= self.grid_margins <= u8::MAX
        &&& 0 <= self.zone_margins <= u8::MAX
        &&& 0 <= self.border_margins <= u8::MAX
    }

    /// Whether there is a tile at this row and column.
    pub open spec fn in_matrix(self, tile: (usize, usize)) -> bool {
        tile.0 < self.rows() && tile.1 < self.columns()
    }

    /// The selected and the hovered tile, where there is one, lie inside the
    /// matrix.
    pub open spec fn marks_in_matrix(self) -> bool {
        &&& self.selected_tile matches Some(t) ==> self.in_matrix(t)
        &&& self.hovered_tile matches Some(t) ==> self.in_matrix(t)
    }

    // ----- zones: the work area divided -----

    /// Width that is left for the zones once both border margins and the
    /// margins between the columns are taken off.
    pub open spec fn free_width(self, work_area: Region) -> int {
        work_area.w - 2 * self.border_margins - (self.columns() - 1) * self.zone_margins
    }

    /// Height that is left for the zones.
    pub open spec fn free_height(self, work_area: Region) -> int {
        work_area.h - 2 * self.border_margins - (self.rows() - 1) * self.zone_margins
    }

    /// Every zone is this wide; what the division leaves over stays unused.
    pub open spec fn zone_width(self, work_area: Region) -> int {
        div_toward_zero(self.free_width(work_area), self.columns())
    }

    /// Every zone is this high; what the division leaves over stays unused.
    pub open spec fn zone_height(self, work_area: Region) -> int {
        div_toward_zero(self.free_height(work_area), self.rows())
    }

    /// Left edge of the zones of a column.
    pub open spec fn zone_x(self, column: int, work_area: Region) -> int {
        column * self.zone_width(work_area) + self.border_margins + column * self.zone_margins
            + work_area.x
    }

    /// Top edge of the zones of a row.
    pub open spec fn zone_y(self, row: int, work_area: Region) -> int {
        row * self.zone_height(work_area) + self.border_margins + row * self.zone_margins
            + work_area.y
    }

    /// The part of the work area that the zone at `row`, `column` covers.
    pub open spec fn zone_area(self, row: int, column: int, work_area: Region) -> Region {
        Region {
            x: self.zone_x(column, work_area),
            y: self.zone_y(row, work_area),
            w: self.zone_width(work_area),
            h: self.zone_height(work_area),
        }
    }

    /// The work area without its border margins.
    pub open spec fn zone_bounds(self, work_area: Region) -> Region {
        Region {
            x: work_area.x + self.border_margins,
            y: work_area.y + self.border_margins,
            w: work_area.w - 2 * self.border_margins,
            h: work_area.h - 2 * self.border_margins,
        }
    }

    /// From the first zone to the last: all that the zones cover together.
    pub open spec fn max_area(self, work_area: Region) -> Region {
        corner_to_corner(
            self.zone_area(0, 0, work_area),
            self.zone_area(self.rows() - 1, self.columns() - 1, work_area),
        )
    }

    /// Every rectangle that the grid can hand out for this work area fits the
    /// coordinate range: each zone, and each rectangle spanned by two zones.
    pub open spec fn zones_fit(self, work_area: Region) -> bool {
        let first = self.zone_area(0, 0, work_area);
        let last = self.zone_area(self.rows() - 1, self.columns() - 1, work_area);
        &&& first.representable()
        &&& last.representable()
        &&& corner_to_corner(first, last).representable()
        &&& corner_to_corner(last, first).representable()
    }

    // ----- tiles: the picker window -----

    /// Left edge of the tiles of a column, in the picker window.
    pub open spec fn tile_x(self, column: int) -> int {
        column * TILE_WIDTH + (column + 1) * self.grid_margins
    }

    /// Top edge of the tiles of a row, in the picker window.
    pub open spec fn tile_y(self, row: int) -> int {
        row * TILE_HEIGHT + (row + 1) * self.grid_margins
    }

    /// Where the tile at `row`, `column` lies in the picker window.
    pub open spec fn tile_area(self, row: int, column: int) -> Region {
        Region {
            x: self.tile_x(column),
            y: self.tile_y(row),
            w: TILE_WIDTH as int,
            h: TILE_HEIGHT as int,
        }
    }

    /// Width and height of the picker window.
    pub open spec fn dimensions(self) -> (int, int) {
        (
            self.columns() * TILE_WIDTH + (self.columns() + 1) * self.grid_margins,
            self.rows() * TILE_HEIGHT + (self.rows() + 1) * self.grid_margins,
        )
    }

    /// The picker window, centred on the work area.
    pub open spec fn centered(self, work_area: Region) -> Region {
        let (width, height) = self.dimensions();
        Region {
            x: div_toward_zero(work_area.w, 2) - width / 2 + work_area.x,
            y: div_toward_zero(work_area.h, 2) - height / 2 + work_area.y,
            w: width,
            h: height,
        }
    }

    /// What is drawn for the tile at `row`, `column`.
    pub open spec fn paint(self, row: int, column: int) -> TilePaint {
        TilePaint {
            area: rect_of(self.tile_area(row, column)),
            fill: self.tiles[row][column].spec_fill_color(),
            frame: FRAME_COLOR,
        }
    }

    /// What is drawn for the picker: every tile, row by row from the top,
    /// each row from the left.
    pub open spec fn paint_list(self) -> Seq<TilePaint> {
        Seq::new(
            (self.rows() * self.columns()) as nat,
            |i: int| self.paint(i / self.columns(), i % self.columns()),
        )
    }

    /// The whole of the picker window, in its own coordinates.
    pub open spec fn picker_face(self) -> Region {
        Region { x: 0, y: 0, w: self.dimensions().0, h: self.dimensions().1 }
    }

    /// Whether the tiles of a column reach over the horizontal position.
    pub open spec fn column_hit(self, column: int, px: int) -> bool {
        self.tile_x(column) <= px <= self.tile_x(column) + TILE_WIDTH
    }

    /// Whether the tiles of a row reach over the vertical position.
    pub open spec fn row_hit(self, row: int, py: int) -> bool {
        self.tile_y(row) <= py <= self.tile_y(row) + TILE_HEIGHT
    }

    /// Whether the point lies on the tile at `row`, `column`, edges included.
    pub open spec fn hit(self, row: int, column: int, px: int, py: int) -> bool {
        self.tile_area(row, column).contains_point(px, py)
    }

    /// The tile under the point. Where tiles touch and the point lies on
    /// their common edge, the one furthest down and then furthest right.
    pub open spec fn pointed_tile(self, px: int, py: int) -> Option<(usize, usize)> {
        match (
            last_below(self.rows(), |r: int| self.row_hit(r, py)),
            last_below(self.columns(), |c: int| self.column_hit(c, px)),
        ) {
            (Some(r), Some(c)) => Some((r as usize, c as usize)),
            _ => None,
        }
    }

    // ----- spans: from the selected tile to the hovered one -----

    /// A span is being drawn: shift or the mouse button is held, and there is
    /// a selected and a hovered tile.
    pub open spec fn span_active(self) -> bool {
        &&& self.shift_down || self.cursor_down
        &&& self.selected_tile is Some
        &&& self.hovered_tile is Some
    }

    /// The tile whose zone gives the span from `selected` to `hovered` its
    /// top left corner.
    pub open spec fn span_from(
        self,
        selected: (usize, usize),
        hovered: (usize, usize),
        work_area: Region,
    ) -> (usize, usize) {
        let s = self.zone_area(selected.0 as int, selected.1 as int, work_area);
        let h = self.zone_area(hovered.0 as int, hovered.1 as int, work_area);
        if h.x < s.x && h.y > s.y {
            (selected.0, hovered.1)
        } else if h.y < s.y && h.x > s.x {
            (hovered.0, selected.1)
        } else if h.x > s.x || h.y > s.y {
            selected
        } else {
            hovered
        }
    }

    /// The tile whose zone gives the span its bottom right corner.
    pub open spec fn span_to(
        self,
        selected: (usize, usize),
        hovered: (usize, usize),
        work_area: Region,
    ) -> (usize, usize) {
        let s = self.zone_area(selected.0 as int, selected.1 as int, work_area);
        let h = self.zone_area(hovered.0 as int, hovered.1 as int, work_area);
        if h.x < s.x && h.y > s.y {
            (hovered.0, selected.1)
        } else if h.y < s.y && h.x > s.x {
            (selected.0, hovered.1)
        } else if h.x > s.x || h.y > s.y {
            hovered
        } else {
            selected
        }
    }

    /// The rectangle that the zones from `selected` to `hovered` cover.
    pub open spec fn span_between(
        self,
        selected: (usize, usize),
        hovered: (usize, usize),
        work_area: Region,
    ) -> Region {
        let from = self.span_from(selected, hovered, work_area);
        let to = self.span_to(selected, hovered, work_area);
        corner_to_corner(
            self.zone_area(from.0 as int, from.1 as int, work_area),
            self.zone_area(to.0 as int, to.1 as int, work_area),
        )
    }

    /// Whether the tile at `row`, `column` belongs to the span from
    /// `selected` to `hovered`.
    pub open spec fn in_span(
        self,
        row: int,
        column: int,
        selected: (usize, usize),
        hovered: (usize, usize),
        work_area: Region,
    ) -> bool {
        let from = self.span_from(selected, hovered, work_area);
        let to = self.span_to(selected, hovered, work_area);
        from.0 <= row <= to.0 && from.1 <= column <= to.1
    }

    /// The rectangle of the span that is being drawn, if one is.
    pub open spec fn span_rect(self, work_area: Region) -> Option<Region> {
        if self.span_active() {
            Some(self.span_between(self.selected_tile->0, self.hovered_tile->0, work_area))
        } else {
            None
        }
    }

    /// The matrix with the tiles of the span that is being drawn marked as
    /// hovered; unchanged if no span is being drawn.
    pub open spec fn span_marked(self, work_area: Region) -> Seq<Seq<Tile>> {
        if self.span_active() {
            hovered_where(
                self.tiles,
                |r: int, c: int|
                    self.tiles[r][c].hovered || self.in_span(
                        r,
                        c,
                        self.selected_tile->0,
                        self.hovered_tile->0,
                        work_area,
                    ),
            )
        } else {
            self.tiles
        }
    }

    /// The span that is being drawn, else the zone of the selected tile, else
    /// nothing.
    pub open spec fn selected_area(self, work_area: Region) -> Option<Region> {
        if self.span_active() {
            self.span_rect(work_area)
        } else {
            match self.selected_tile {
                Some(t) => Some(self.zone_area(t.0 as int, t.1 as int, work_area)),
                None => None,
            }
        }
    }

    /// The rectangles that moving the pointer to `px`, `py` computes fit the
    /// coordinate range: the zone under the pointer, and the span that is
    /// then being drawn.
    pub open spec fn highlight_fits(self, px: int, py: int, work_area: Region) -> bool {
        &&& self.pointed_tile(px, py) matches Some(t) ==> self.zone_area(
            t.0 as int,
            t.1 as int,
            work_area,
        ).representable()
        &&& self.pointed_at(px, py).span_rect(work_area) matches Some(r) ==> r.representable()
    }

    // ----- placement: where a window goes -----

    /// The largest rectangle a window is sent to: everything the zones cover,
    /// widened by the window's invisible border.
    pub open spec fn maximized_area(self, border: (int, int), work_area: Region) -> Region {
        self.max_area(work_area).adjust_for_border(border.0, border.1)
    }

    /// Where a press of the maximize key sends a window that stands at
    /// `current`: back to the remembered rectangle if it already fills the
    /// largest one and something is remembered, else to the largest one.
    pub open spec fn maximize_target(
        self,
        current: Region,
        border: (int, int),
        work_area: Region,
    ) -> Region {
        let largest = self.maximized_area(border, work_area);
        match self.previous_resize {
            Some((_, previous)) => if current == largest {
                previous@
            } else {
                largest
            },
            None => largest,
        }
    }

    /// The grid after a press of the maximize key on `window`, which stood at
    /// `current`: the rectangle from before the move is remembered.
    pub open spec fn maximized(self, window: Window, current: Rect) -> GridView {
        GridView { previous_resize: Some((window, current)), ..self }
    }

    /// The zone or span that is selected and the window to place there, if
    /// there are both.
    pub open spec fn pending(self, work_area: Region) -> Option<(Window, Region)> {
        match (self.selected_area(work_area), self.active_window) {
            (Some(area), Some(window)) => Some((window, area)),
            _ => None,
        }
    }

    /// Whether the last placement put `window` at exactly `area`.
    pub open spec fn remembers(self, window: Window, area: Region) -> bool {
        self.previous_resize matches Some((w, r)) && w == window && r@ == area
    }

    /// The grid after the mouse button has come up: the button is no longer
    /// held, and where there was something to place the selection is gone.
    pub open spec fn released(self, work_area: Region) -> GridView {
        GridView {
            cursor_down: false,
            tiles: if self.pending(work_area) is Some {
                without_selection(self.tiles)
            } else {
                self.tiles
            },
            ..self
        }
    }

    /// The grid after `window` has been placed at `target`.
    pub open spec fn committed(self, window: Window, target: Rect) -> GridView {
        GridView { previous_resize: Some((window, target)), ..self }
    }

    // ----- what the operations make of a grid -----

    /// The grid once the pointer stands at `px`, `py`, before any span is
    /// marked: exactly the tiles under the pointer are hovered, and the
    /// hovered tile is the one under the pointer if there is one.
    pub open spec fn pointed_at(self, px: int, py: int) -> GridView {
        GridView {
            hovered_tile: match self.pointed_tile(px, py) {
                Some(t) => Some(t),
                None => self.hovered_tile,
            },
            tiles: hovered_where(self.tiles, |r: int, c: int| self.hit(r, c, px, py)),
            ..self
        }
    }

    /// The grid after the pointer has moved to `px`, `py`.
    pub open spec fn highlighted(self, px: int, py: int, work_area: Region) -> GridView {
        let pointed = self.pointed_at(px, py);
        GridView { tiles: pointed.span_marked(work_area), ..pointed }
    }

    /// The rectangle to preview after the pointer has moved to `px`, `py`:
    /// nothing if no tile looks different from before; else the span that is
    /// being drawn, else the zone under the pointer.
    pub open spec fn highlight_rect(self, px: int, py: int, work_area: Region) -> Option<Region> {
        let pointed = self.pointed_at(px, py);
        if self.highlighted(px, py, work_area).tiles == self.tiles {
            None
        } else if pointed.span_active() {
            pointed.span_rect(work_area)
        } else {
            match self.pointed_tile(px, py) {
                Some(t) => Some(self.zone_area(t.0 as int, t.1 as int, work_area)),
                None => None,
            }
        }
    }

    /// Selection is locked while shift or the mouse button is held.
    pub open spec fn selection_locked(self) -> bool {
        self.cursor_down || self.shift_down
    }

    /// The grid after a click at `px`, `py`.
    pub open spec fn selected_at(self, px: int, py: int) -> GridView {
        if self.selection_locked() {
            self
        } else {
            GridView {
                selected_tile: match self.pointed_tile(px, py) {
                    Some(t) => Some(t),
                    None => self.selected_tile,
                },
                tiles: selected_where(self.tiles, |r: int, c: int| self.hit(r, c, px, py)),
                ..self
            }
        }
    }

    /// The grid after another window has come to the foreground: that window
    /// is the active one now, unless it is the picker itself or is active
    /// already.
    pub open spec fn foreground_changed(self, window: Window) -> GridView {
        if self.grid_window != Some(window) && self.active_window != Some(window) {
            GridView { active_window: Some(window), ..self }
        } else {
            self
        }
    }

    /// The grid when the picker closes: the keys, the marks, the picker's
    /// window and the quick mode are forgotten, every tile is blank. The
    /// active window and the last placement stay.
    pub open spec fn reset(self) -> GridView {
        GridView {
            shift_down: false,
            control_down: false,
            cursor_down: false,
            selected_tile: None,
            hovered_tile: None,
            grid_window: None,
            quick_resize: false,
            tiles: all_blank(self.tiles),
            ..self
        }
    }
}

} // verus!
