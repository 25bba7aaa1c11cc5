//! The grid: the tile matrix of the zone picker with its selection and hover
//! state, and the geometry of the zones it stands for.

use vstd::prelude::*;

use crate::matrix::{
    blank_row, copy_tiles, last_marked, matrix_of, pop_column, push_column, remark, same_tiles,
    Axis,
};
use crate::model::{
    all_blank, lemma_last_below_same, with_column_added, with_column_removed, with_row_added,
    with_row_removed, without_hover, without_selection, GridView,
};
use crate::rect::{region_of, Rect};
use crate::tile::{Tile, FRAME_COLOR, TILE_HEIGHT, TILE_WIDTH};
use crate::wide::{divide, tile_start, zone_bound, zone_extent, zone_start, Wide};
use crate::window::Window;

verus! {

/// Rows of a new grid.
pub const DEFAULT_ROWS: usize = 2;

/// Columns of a new grid.
pub const DEFAULT_COLUMNS: usize = 2;

/// Space between the tiles of the picker, in pixels.
pub const DEFAULT_GRID_MARGINS: u8 = 3;

/// Space between zones, in pixels, where no configuration says otherwise.
pub const DEFAULT_ZONE_MARGINS: u8 = 10;

/// Space between the zones and the edge of the work area, in pixels, where no
/// configuration says otherwise.
pub const DEFAULT_BORDER_MARGINS: u8 = 10;

/// The grid!
#[derive(Debug)]
pub struct Grid {
    /// is the Shift key down
    pub shift_down: bool,
    /// is the Control key down
    pub control_down: bool,
    /// is the mouse down
    pub cursor_down: bool,
    /// The selected tile
    pub selected_tile: Option<(usize, usize)>,
    /// The tile the mouse is hovering over
    pub hovered_tile: Option<(usize, usize)>,
    /// The active window
    pub active_window: Option<Window>,
    /// The grid's window that the grid will be drawn on
    pub grid_window: Option<Window>,
    /// The last resize operation
    pub previous_resize: Option<(Window, Rect)>,
    /// is quick resize being used
    pub quick_resize: bool,
    /// Space between the tiles of the picker
    pub grid_margins: u8,
    /// Space between zones
    pub zone_margins: u8,
    /// Space between the zones and the edge of the work area
    pub border_margins: u8,
    /// The tiles, row by row; every row has the same length and there is at
    /// least one tile
    pub tiles: Vec<Vec<Tile>>,
}

impl View for Grid {
    type V = GridView;

    open spec fn view(&self) -> GridView {
        GridView {
            shift_down: self.shift_down,
            control_down: self.control_down,
            cursor_down: self.cursor_down,
            selected_tile: self.selected_tile,
            hovered_tile: self.hovered_tile,
            active_window: self.active_window,
            grid_window: self.grid_window,
            previous_resize: self.previous_resize,
            quick_resize: self.quick_resize,
            grid_margins: self.grid_margins as int,
            zone_margins: self.zone_margins as int,
            border_margins: self.border_margins as int,
            tiles: matrix_of(self.tiles),
        }
    }
}

/// What is drawn for one tile: where, and in which colour it is filled.
#[derive(Debug, Clone, Copy, PartialEq, Eq, Structural)]
pub struct TilePaint {
    /// Where the tile lies in the picker window.
    pub area: Rect,
    /// The fill, as 0x00BBGGRR.
    pub fill: u32,
    /// The colour of the frame, as 0x00BBGGRR.
    pub frame: u32,
}

impl Grid {
    /// A grid of two rows and two columns with the given space between zones
    /// and around them, and nothing selected, hovered or remembered.
    pub fn with_margins(zone_margins: u8, border_margins: u8) -> (grid: Grid)
        ensures
            grid@.wf(),
            grid@ == GridView::fresh(zone_margins as int, border_margins as int),
    {
        let mut tiles: Vec<Vec<Tile>> = Vec::new();
        let mut r: usize = 0;
        while r < DEFAULT_ROWS
            invariant
                r <= DEFAULT_ROWS,
                tiles@.len() == r,
                forall|i: int|
                    0 <= i < r ==> (#[trigger] tiles@[i])@ == Seq::new(
                        DEFAULT_COLUMNS as nat,
                        |c: int| Tile::blank(),
                    ),
            decreases DEFAULT_ROWS - r,
        {
            tiles.push(blank_row(DEFAULT_COLUMNS));
            r += 1;
        }
        let grid = Grid {
            shift_down: false,
            control_down: false,
            cursor_down: false,
            selected_tile: None,
            hovered_tile: None,
            active_window: None,
            grid_window: None,
            previous_resize: None,
            quick_resize: false,
            grid_margins: DEFAULT_GRID_MARGINS,
            zone_margins,
            border_margins,
            tiles,
        };
        assert(matrix_of(grid.tiles) =~= Seq::new(
            DEFAULT_ROWS as nat,
            |r: int| Seq::new(DEFAULT_COLUMNS as nat, |c: int| Tile::blank()),
        ));
        grid
    }

    /// The grid that replaces this one when the configuration, the monitor or
    /// the profile changes: new margins and a fresh matrix, with the active
    /// window, the last placement and the quick mode carried over.
    pub fn rebuilt(&self, zone_margins: u8, border_margins: u8) -> (grid: Grid)
        ensures
            grid@.wf(),
            grid@ == self@.rebuilt(zone_margins as int, border_margins as int),
    {
        let mut grid = Grid::with_margins(zone_margins, border_margins);
        grid.active_window = self.active_window;
        grid.previous_resize = self.previous_resize;
        grid.quick_resize = self.quick_resize;
        grid
    }

    /// Whether the grid is sound: the matrix has at least one row and one
    /// column, and every row is as long as the first.
    pub fn is_well_formed(&self) -> (sound: bool)
        ensures
            sound == self@.wf(),
    {
        let rows = self.tiles.len();
        if rows == 0 {
            return false;
        }
        let columns = self.tiles[0].len();
        assert(matrix_of(self.tiles)[0] == self.tiles@[0]@);
        if columns == 0 {
            return false;
        }
        let mut r: usize = 0;
        while r < rows
            invariant
                r <= rows,
                rows == self.tiles@.len(),
                columns == self.tiles@[0]@.len(),
                forall|i: int| 0 <= i < r ==> (#[trigger] self.tiles@[i])@.len() == columns,
            decreases rows - r,
        {
            if self.tiles[r].len() != columns {
                assert(matrix_of(self.tiles)[r as int] == self.tiles@[r as int]@);
                return false;
            }
            r += 1;
        }
        assert forall|i: int| 0 <= i < matrix_of(self.tiles).len() implies (#[trigger] matrix_of(
            self.tiles,
        )[i]).len() == matrix_of(self.tiles)[0].len() by {
            assert(self.tiles@[i]@.len() == columns);
        }
        true
    }

    /// Number of rows of the tile matrix.
    pub fn rows(&self) -> (rows: usize)
        ensures
            rows == self@.rows(),
    {
        self.tiles.len()
    }

    /// Number of columns of the tile matrix.
    pub fn columns(&self) -> (columns: usize)
        requires
            self@.wf(),
        ensures
            columns == self@.columns(),
    {
        self.tiles[0].len()
    }

    /// The tile at `row`, `column`.
    pub fn tile(&self, row: usize, column: usize) -> (tile: Tile)
        requires
            self@.wf(),
            self@.in_matrix((row, column)),
        ensures
            tile == self@.tiles[row as int][column as int],
    {
        assert(matrix_of(self.tiles)[row as int] == self.tiles@[row as int]@);
        self.tiles[row][column]
    }

    /// Adds a row to the grid
    pub fn add_row(&mut self)
        requires
            old(self)@.wf(),
        ensures
            final(self)@.wf(),
            final(self)@ == (GridView { tiles: with_row_added(old(self)@.tiles), ..old(self)@ }),
    {
        let columns = self.columns();
        self.tiles.push(blank_row(columns));
        assert(matrix_of(self.tiles) =~= with_row_added(matrix_of(old(self).tiles)));
    }

    /// Adds a column to the grid
    pub fn add_column(&mut self)
        requires
            old(self)@.wf(),
        ensures
            final(self)@.wf(),
            final(self)@ == (GridView { tiles: with_column_added(old(self)@.tiles), ..old(self)@ }),
    {
        push_column(&mut self.tiles);
    }

    /// Removes a row from the grid; the last row stays.
    pub fn remove_row(&mut self)
        requires
            old(self)@.wf(),
        ensures
            final(self)@.wf(),
            final(self)@ == (GridView { tiles: with_row_removed(old(self)@.tiles), ..old(self)@ }),
    {
        if self.rows() > 1 {
            self.tiles.pop();
            assert(matrix_of(self.tiles) =~= with_row_removed(matrix_of(old(self).tiles)));
        }
    }

    /// Removes a column from the grid; the last column stays.
    pub fn remove_column(&mut self)
        requires
            old(self)@.wf(),
        ensures
            final(self)@.wf(),
            final(self)@ == (GridView { tiles: with_column_removed(old(self)@.tiles), ..old(self)@ }),
    {
        if self.columns() > 1 {
            assert forall|i: int| 0 <= i < self.tiles@.len() implies (#[trigger] self.tiles@[i])@.len()
                > 0 by {
                assert(matrix_of(self.tiles)[i].len() == matrix_of(self.tiles)[0].len());
            }
            pop_column(&mut self.tiles);
        }
    }

    // ----- geometry -----

    pub(crate) fn zone_wide(&self, row: usize, column: usize, work_area: Rect) -> (zone: Wide)
        requires
            self@.wf(),
        ensures
            zone.region() == self@.zone_area(row as int, column as int, work_area@),
            zone.bounded(),
    {
        let rows = self.rows();
        let columns = self.columns();
        let w = zone_extent(work_area.w, columns, self.zone_margins, self.border_margins);
        let h = zone_extent(work_area.h, rows, self.zone_margins, self.border_margins);
        let x = zone_start(column, w, self.zone_margins, self.border_margins, work_area.x);
        let y = zone_start(row, h, self.zone_margins, self.border_margins, work_area.y);
        Wide { x, y, w, h }
    }

    /// The part of the work area that the zone at `row`, `column` covers.
    pub fn zone_area(&self, row: usize, column: usize, work_area: Rect) -> (zone: Rect)
        requires
            self@.wf(),
            self@.zone_area(row as int, column as int, work_area@).representable(),
        ensures
            zone@ == self@.zone_area(row as int, column as int, work_area@),
    {
        self.zone_wide(row, column, work_area).narrow()
    }

    pub(crate) fn max_wide(&self, work_area: Rect) -> (area: Wide)
        requires
            self@.wf(),
        ensures
            area.region() == self@.max_area(work_area@),
            area.wider(),
    {
        let first = self.zone_wide(0, 0, work_area);
        let last = self.zone_wide(self.rows() - 1, self.columns() - 1, work_area);
        first.corner_to_corner(last)
    }

    /// From the first zone to the last: the whole work area in terms of
    /// zones.
    pub fn get_max_area(&self, work_area: Rect) -> (area: Rect)
        requires
            self@.wf(),
            self@.max_area(work_area@).representable(),
        ensures
            area@ == self@.max_area(work_area@),
    {
        self.max_wide(work_area).narrow()
    }

    /// Whether every rectangle that the grid can hand out for this work area
    /// fits the coordinate range.
    pub fn zones_fit(&self, work_area: Rect) -> (fit: bool)
        requires
            self@.wf(),
        ensures
            fit == self@.zones_fit(work_area@),
    {
        let first = self.zone_wide(0, 0, work_area);
        let last = self.zone_wide(self.rows() - 1, self.columns() - 1, work_area);
        first.representable() && last.representable() && first.corner_to_corner(
            last,
        ).representable() && last.corner_to_corner(first).representable()
    }

    /// Where the tile at `row`, `column` lies in the picker window.
    pub fn tile_area(&self, row: usize, column: usize) -> (area: Rect)
        requires
            self@.tile_area(row as int, column as int).representable(),
        ensures
            area@ == self@.tile_area(row as int, column as int),
    {
        let x = tile_start(column, TILE_WIDTH, self.grid_margins);
        let y = tile_start(row, TILE_HEIGHT, self.grid_margins);
        Rect { x: x as i32, y: y as i32, w: TILE_WIDTH as i32, h: TILE_HEIGHT as i32 }
    }

    fn dimensions_wide(&self) -> (size: (i128, i128))
        requires
            self@.wf(),
        ensures
            size.0 == self@.dimensions().0,
            size.1 == self@.dimensions().1,
            0 <= size.0 <= zone_bound(),
            0 <= size.1 <= zone_bound(),
    {
        let columns = self.columns();
        let rows = self.rows();
        let width = tile_start(columns, TILE_WIDTH, self.grid_margins);
        let height = tile_start(rows, TILE_HEIGHT, self.grid_margins);
        (width, height)
    }

    /// Get the dimensions of the grid window
    pub fn dimensions(&self) -> (size: (u32, u32))
        requires
            self@.wf(),
            self@.dimensions().0 <= u32::MAX,
            self@.dimensions().1 <= u32::MAX,
        ensures
            size.0 == self@.dimensions().0,
            size.1 == self@.dimensions().1,
    {
        let (width, height) = self.dimensions_wide();
        (width as u32, height as u32)
    }

    fn centered_wide(&self, work_area: Rect) -> (area: Wide)
        requires
            self@.wf(),
        ensures
            area.region() == self@.centered(work_area@),
    {
        let (width, height) = self.dimensions_wide();
        let x = divide(work_area.w as i128, 2) - width / 2 + work_area.x as i128;
        let y = divide(work_area.h as i128, 2) - height / 2 + work_area.y as i128;
        Wide { x, y, w: width, h: height }
    }

    /// Whether the picker window, in its own coordinates, fits the
    /// coordinate range.
    pub fn face_fits(&self) -> (fits: bool)
        requires
            self@.wf(),
        ensures
            fits == self@.picker_face().representable(),
    {
        let (width, height) = self.dimensions_wide();
        width <= i32::MAX as i128 && height <= i32::MAX as i128
    }

    /// The whole of the picker window, in its own coordinates.
    pub fn picker_face(&self) -> (face: Rect)
        requires
            self@.wf(),
            self@.picker_face().representable(),
        ensures
            face@ == self@.picker_face(),
            face == crate::rect::rect_of(self@.picker_face()),
    {
        let (width, height) = self.dimensions_wide();
        Rect { x: 0, y: 0, w: width as i32, h: height as i32 }
    }

    /// Whether the picker window, centred on this work area, fits the
    /// coordinate range.
    pub fn picker_fits(&self, work_area: Rect) -> (fits: bool)
        requires
            self@.wf(),
        ensures
            fits == self@.centered(work_area@).representable(),
    {
        self.centered_wide(work_area).representable()
    }

    /// The picker window, centred on the work area.
    pub fn centered_rect(&self, work_area: Rect) -> (area: Rect)
        requires
            self@.wf(),
            self@.centered(work_area@).representable(),
        ensures
            area@ == self@.centered(work_area@),
            area == crate::rect::rect_of(self@.centered(work_area@)),
    {
        self.centered_wide(work_area).narrow()
    }

    /// Recenters the grid window after a new row or column is added: says
    /// which window to move and where to.
    pub fn reposition(&self, work_area: Rect) -> (target: (Window, Rect))
        requires
            self@.wf(),
            self@.grid_window is Some,
            self@.centered(work_area@).representable(),
        ensures
            Some(target.0) == self@.grid_window,
            target.1@ == self@.centered(work_area@),
            target.1 == crate::rect::rect_of(self@.centered(work_area@)),
    {
        let rect = self.centered_wide(work_area).narrow();
        match self.grid_window {
            Some(window) => (window, rect),
            None => (Window::null(), rect),
        }
    }

    // ----- marks -----

    /// Unhighlights all tiles
    pub fn unhighlight_all_tiles(&mut self)
        ensures
            final(self)@ == (GridView { tiles: without_hover(old(self)@.tiles), ..old(self)@ }),
            old(self)@.wf() ==> final(self)@.wf(),
    {
        remark(&mut self.tiles, Axis::Never, Axis::Never, false, false);
        assert(matrix_of(self.tiles) =~~= without_hover(matrix_of(old(self).tiles)));
    }

    /// Unselects all tiles
    pub fn unselect_all_tiles(&mut self)
        ensures
            final(self)@ == (GridView { tiles: without_selection(old(self)@.tiles), ..old(self)@ }),
            old(self)@.wf() ==> final(self)@.wf(),
    {
        remark(&mut self.tiles, Axis::Never, Axis::Never, true, false);
        assert(matrix_of(self.tiles) =~~= without_selection(matrix_of(old(self).tiles)));
    }

    /// Resets the grid
    pub fn reset(&mut self)
        ensures
            final(self)@ == old(self)@.reset(),
            old(self)@.wf() ==> final(self)@.wf(),
    {
        self.shift_down = false;
        self.control_down = false;
        self.cursor_down = false;
        self.selected_tile = None;
        self.hovered_tile = None;
        self.grid_window = None;
        self.quick_resize = false;
        remark(&mut self.tiles, Axis::Never, Axis::Never, false, false);
        remark(&mut self.tiles, Axis::Never, Axis::Never, true, false);
        assert(matrix_of(self.tiles) =~~= all_blank(matrix_of(old(self).tiles)));
    }

    /// Another window has come to the foreground: it becomes the active
    /// window, unless it is the picker itself or is active already.
    pub fn foreground_changed(&mut self, window: Window)
        ensures
            final(self)@ == old(self)@.foreground_changed(window),
            old(self)@.wf() ==> final(self)@.wf(),
    {
        let is_picker = match self.grid_window {
            Some(w) => w == window,
            None => false,
        };
        let is_active = match self.active_window {
            Some(w) => w == window,
            None => false,
        };
        if !is_picker && !is_active {
            self.active_window = Some(window);
        }
    }

    /// The tile under the point, if there is one.
    fn pointed_tile(&self, point: (i32, i32)) -> (tile: Option<(usize, usize)>)
        requires
            self@.wf(),
        ensures
            tile == self@.pointed_tile(point.0 as int, point.1 as int),
    {
        let row_axis = Axis::Hit { margins: self.grid_margins, size: TILE_HEIGHT, at: point.1 };
        let column_axis = Axis::Hit { margins: self.grid_margins, size: TILE_WIDTH, at: point.0 };
        let row = last_marked(self.rows(), row_axis);
        let column = last_marked(self.columns(), column_axis);
        proof {
            let g = self@;
            lemma_last_below_same(
                g.rows(),
                |i: int| row_axis.holds(i),
                |r: int| g.row_hit(r, point.1 as int),
            );
            lemma_last_below_same(
                g.columns(),
                |i: int| column_axis.holds(i),
                |c: int| g.column_hit(c, point.0 as int),
            );
        }
        match (row, column) {
            (Some(r), Some(c)) => Some((r, c)),
            _ => None,
        }
    }

    /// Selects a tile
    pub fn select_tile(&mut self, point: (i32, i32)) -> (changed: bool)
        requires
            old(self)@.wf(),
        ensures
            final(self)@ == old(self)@.selected_at(point.0 as int, point.1 as int),
            changed == (final(self)@.selected_tile != old(self)@.selected_tile),
            final(self)@.wf(),
    {
        if self.cursor_down || self.shift_down {
            return false;
        }
        let previously_selected = self.selected_tile;
        let row_axis = Axis::Hit { margins: self.grid_margins, size: TILE_HEIGHT, at: point.1 };
        let column_axis = Axis::Hit { margins: self.grid_margins, size: TILE_WIDTH, at: point.0 };
        let pointed = self.pointed_tile(point);
        remark(&mut self.tiles, row_axis, column_axis, true, false);
        if let Some(tile) = pointed {
            self.selected_tile = Some(tile);
        }
        assert(matrix_of(self.tiles) =~~= old(self)@.selected_at(
            point.0 as int,
            point.1 as int,
        ).tiles);
        self.selected_tile != previously_selected
    }

    /// The two tiles whose zones give the span from `selected` to `hovered`
    /// its corners, and the rectangle between those corners.
    pub(crate) fn span(
        &self,
        selected: (usize, usize),
        hovered: (usize, usize),
        work_area: Rect,
    ) -> (span: ((usize, usize), (usize, usize), Wide))
        requires
            self@.wf(),
        ensures
            span.0 == self@.span_from(selected, hovered, work_area@),
            span.1 == self@.span_to(selected, hovered, work_area@),
            span.2.region() == self@.span_between(selected, hovered, work_area@),
    {
        let selected_zone = self.zone_wide(selected.0, selected.1, work_area);
        let hovered_zone = self.zone_wide(hovered.0, hovered.1, work_area);
        let from_tile;
        let to_tile;
        if hovered_zone.x < selected_zone.x && hovered_zone.y > selected_zone.y {
            from_tile = (selected.0, hovered.1);
            to_tile = (hovered.0, selected.1);
        } else if hovered_zone.y < selected_zone.y && hovered_zone.x > selected_zone.x {
            from_tile = (hovered.0, selected.1);
            to_tile = (selected.0, hovered.1);
        } else if hovered_zone.x > selected_zone.x || hovered_zone.y > selected_zone.y {
            from_tile = selected;
            to_tile = hovered;
        } else {
            from_tile = hovered;
            to_tile = selected;
        }
        let from_zone = self.zone_wide(from_tile.0, from_tile.1, work_area);
        let to_zone = self.zone_wide(to_tile.0, to_tile.1, work_area);
        (from_tile, to_tile, from_zone.corner_to_corner(to_zone))
    }

    /// The rectangle of the span that is being drawn from the selected tile
    /// to the hovered one, if shift or the mouse button is held and both
    /// tiles are there. With `highlight`, the tiles of the span are marked as
    /// hovered.
    pub fn shift_hover_and_calc_rect(&mut self, highlight: bool, work_area: Rect) -> (rect: Option<
        Rect,
    >)
        requires
            old(self)@.wf(),
            old(self)@.span_rect(work_area@) matches Some(r) ==> r.representable(),
        ensures
            region_of(rect) == old(self)@.span_rect(work_area@),
            final(self)@ == if highlight {
                GridView { tiles: old(self)@.span_marked(work_area@), ..old(self)@ }
            } else {
                old(self)@
            },
            final(self)@.wf(),
    {
        if self.shift_down || self.cursor_down {
            if let Some(selected_tile) = self.selected_tile {
                if let Some(hovered_tile) = self.hovered_tile {
                    let (from_tile, to_tile, hovered_rect) = self.span(
                        selected_tile,
                        hovered_tile,
                        work_area,
                    );
                    if highlight {
                        remark(
                            &mut self.tiles,
                            Axis::Between { lo: from_tile.0, hi: to_tile.0 },
                            Axis::Between { lo: from_tile.1, hi: to_tile.1 },
                            false,
                            true,
                        );
                        assert(matrix_of(self.tiles) =~~= old(self)@.span_marked(work_area@));
                    }
                    return Some(hovered_rect.narrow());
                }
            }
        }
        None
    }

    /// Moves the hover to the tiles under the point. Returns the rectangle
    /// to preview, or `None` if no tile looks different from before.
    pub fn highlight_tiles(&mut self, point: (i32, i32), work_area: Rect) -> (rect: Option<Rect>)
        requires
            old(self)@.wf(),
            old(self)@.highlight_fits(point.0 as int, point.1 as int, work_area@),
        ensures
            final(self)@ == old(self)@.highlighted(point.0 as int, point.1 as int, work_area@),
            region_of(rect) == old(self)@.highlight_rect(
                point.0 as int,
                point.1 as int,
                work_area@,
            ),
            final(self)@.wf(),
    {
        let tiles_before = copy_tiles(&self.tiles);
        let mut hovered_rect: Option<Rect> = None;
        let row_axis = Axis::Hit { margins: self.grid_margins, size: TILE_HEIGHT, at: point.1 };
        let column_axis = Axis::Hit { margins: self.grid_margins, size: TILE_WIDTH, at: point.0 };
        let pointed = self.pointed_tile(point);
        remark(&mut self.tiles, row_axis, column_axis, false, false);
        if let Some(tile) = pointed {
            self.hovered_tile = Some(tile);
            hovered_rect = Some(self.zone_wide(tile.0, tile.1, work_area).narrow());
        }
        assert(matrix_of(self.tiles) =~~= old(self)@.pointed_at(
            point.0 as int,
            point.1 as int,
        ).tiles);
        assert(self@ == old(self)@.pointed_at(point.0 as int, point.1 as int));
        if let Some(rect) = self.shift_hover_and_calc_rect(true, work_area) {
            hovered_rect = Some(rect);
        }
        if same_tiles(&tiles_before, &self.tiles) {
            None
        } else {
            hovered_rect
        }
    }

    /// Gets the selected area
    pub fn selected_area(&mut self, work_area: Rect) -> (area: Option<Rect>)
        requires
            old(self)@.wf(),
            old(self)@.selected_area(work_area@) matches Some(r) ==> r.representable(),
        ensures
            region_of(area) == old(self)@.selected_area(work_area@),
            final(self)@ == old(self)@,
    {
        if let Some(shift_rect) = self.shift_hover_and_calc_rect(false, work_area) {
            return Some(shift_rect);
        }
        if let Some(selected_tile) = self.selected_tile {
            Some(self.zone_wide(selected_tile.0, selected_tile.1, work_area).narrow())
        } else {
            None
        }
    }
    /// Draws the grid: says for every tile, row by row, where it lies in the
    /// picker window and in which colour it is filled.
    pub fn draw(&self) -> (paints: Vec<TilePaint>)
        requires
            self@.wf(),
            self@.picker_face().representable(),
        ensures
            paints@ == self@.paint_list(),
    {
        let rows = self.rows();
        let columns = self.columns();
        let mut paints: Vec<TilePaint> = Vec::new();
        let mut row: usize = 0;
        while row < rows
            invariant
                self@.wf(),
                self@.picker_face().representable(),
                rows == self@.rows(),
                columns == self@.columns(),
                row <= rows,
                paints@.len() == row * columns,
                forall|i: int|
                    0 <= i < paints@.len() ==> #[trigger] paints@[i] == self@.paint(
                        i / (columns as int),
                        i % (columns as int),
                    ),
            decreases rows - row,
        {
            let mut column: usize = 0;
            while column < columns
                invariant
                    self@.wf(),
                    self@.picker_face().representable(),
                    rows == self@.rows(),
                    columns == self@.columns(),
                    row < rows,
                    column <= columns,
                    paints@.len() == row * columns + column,
                    forall|i: int|
                        0 <= i < paints@.len() ==> #[trigger] paints@[i] == self@.paint(
                            i / (columns as int),
                            i % (columns as int),
                        ),
                decreases columns - column,
            {
                proof {
                    let r = row as int;
                    let c = column as int;
                    let n = columns as int;
                    let m = rows as int;
                    let g = self@.grid_margins;
                    assert(c * 48 + (c + 1) * g + 48 <= n * 48 + (n + 1) * g) by (nonlinear_arith)
                        requires
                            0 <= c < n,
                            g >= 0,
                    ;
                    assert(r * 48 + (r + 1) * g + 48 <= m * 48 + (m + 1) * g) by (nonlinear_arith)
                        requires
                            0 <= r < m,
                            g >= 0,
                    ;
                    assert(c * 48 + (c + 1) * g >= 0 && r * 48 + (r + 1) * g >= 0)
                        by (nonlinear_arith)
                        requires
                            0 <= c,
                            0 <= r,
                            g >= 0,
                    ;
                    assert((r * n + c) / n == r && (r * n + c) % n == c) by {
                        vstd::arithmetic::div_mod::lemma_fundamental_div_mod_converse(
                            r * n + c,
                            n,
                            r,
                            c,
                        );
                        assert(r * n == n * r) by (nonlinear_arith);
                    }
                    assert(matrix_of(self.tiles)[r] == self.tiles@[r]@);
                    assert(matrix_of(self.tiles)[r].len() == matrix_of(self.tiles)[0].len());
                }
                let area = self.tile_area(row, column);
                let fill = self.tiles[row][column].fill_color();
                paints.push(TilePaint { area, fill, frame: FRAME_COLOR });
                column += 1;
            }
            proof {
                assert((row + 1) * columns == row * columns + columns) by (nonlinear_arith);
            }
            row += 1;
        }
        proof {
            assert(paints@.len() == rows * columns);
            assert(paints@ =~= self@.paint_list());
        }
        paints
    }

    /// A copy of the tile matrix, to put back if a change cannot stand.
    pub(crate) fn saved_tiles(&self) -> (saved: Vec<Vec<Tile>>)
        ensures
            matrix_of(saved) == self@.tiles,
    {
        copy_tiles(&self.tiles)
    }

    /// Puts a saved tile matrix back.
    pub(crate) fn restore_tiles(&mut self, saved: Vec<Vec<Tile>>)
        ensures
            final(self)@ == (GridView { tiles: matrix_of(saved), ..old(self)@ }),
    {
        self.tiles = saved;
    }

    /// Whether the rectangles that [`Grid::highlight_tiles`] computes for
    /// this point fit the coordinate range.
    pub fn highlight_fits(&self, point: (i32, i32), work_area: Rect) -> (fits: bool)
        requires
            self@.wf(),
        ensures
            fits == self@.highlight_fits(point.0 as int, point.1 as int, work_area@),
    {
        let pointed = self.pointed_tile(point);
        let zone_fits = match pointed {
            Some(tile) => self.zone_wide(tile.0, tile.1, work_area).representable(),
            None => true,
        };
        let hovered = match pointed {
            Some(tile) => Some(tile),
            None => self.hovered_tile,
        };
        let span_fits = if self.shift_down || self.cursor_down {
            match (self.selected_tile, hovered) {
                (Some(s), Some(h)) => self.span(s, h, work_area).2.representable(),
                _ => true,
            }
        } else {
            true
        };
        zone_fits && span_fits
    }
}

impl Default for Grid {
    /// Two rows, two columns, ten pixels between zones and around them.
    fn default() -> (grid: Grid)
        ensures
            grid@.wf(),
            grid@ == GridView::fresh(DEFAULT_ZONE_MARGINS as int, DEFAULT_BORDER_MARGINS as int),
    {
        Grid::with_margins(DEFAULT_ZONE_MARGINS, DEFAULT_BORDER_MARGINS)
    }
}

} // verus!
