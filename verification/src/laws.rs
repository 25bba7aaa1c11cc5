//! What holds of every grid: properties that relate several operations, each
//! stated over the model and proved.

use vstd::prelude::*;

use crate::event::Event;
use crate::manager::{ManagerView, Surroundings};
use crate::model::{
    lemma_last_below_in_range, lemma_last_below_same, matrix_wf, with_column_added,
    with_column_removed, with_row_added, with_row_removed, GridView,
};
use crate::rect::{Rect, Region};
use crate::tile::Tile;
use crate::window::Window;

verus! {

/// Where the zones have room, that is where the work area is at least as
/// large as the margins taken together, every zone of the matrix has a size
/// that is not negative and lies inside the work area without its border
/// margins.
pub proof fn zone_lies_within_bounds(grid: GridView, work_area: Region, row: int, column: int)
    requires
        grid.wf(),
        grid.free_width(work_area) >= 0,
        grid.free_height(work_area) >= 0,
        0 <= row < grid.rows(),
        0 <= column < grid.columns(),
    ensures
        grid.zone_area(row, column, work_area).normalized(),
        grid.zone_area(row, column, work_area).within(grid.zone_bounds(work_area)),
{
    lemma_axis(
        grid.free_width(work_area),
        grid.columns(),
        grid.zone_margins,
        column,
        grid.columns() - 1,
    );
    lemma_axis(grid.free_height(work_area), grid.rows(), grid.zone_margins, row, grid.rows() - 1);
}

/// No two zones of the matrix overlap.
pub proof fn zones_do_not_overlap(
    grid: GridView,
    work_area: Region,
    first: (int, int),
    second: (int, int),
)
    requires
        grid.wf(),
        0 <= first.0 < grid.rows(),
        0 <= first.1 < grid.columns(),
        0 <= second.0 < grid.rows(),
        0 <= second.1 < grid.columns(),
        first != second,
    ensures
        grid.zone_area(first.0, first.1, work_area).disjoint(
            grid.zone_area(second.0, second.1, work_area),
        ),
{
    let w = grid.zone_width(work_area);
    let h = grid.zone_height(work_area);
    let m = grid.zone_margins;
    if first.1 != second.1 {
        lemma_apart(w, m, first.1, second.1);
    } else {
        lemma_apart(h, m, first.0, second.0);
    }
}

/// Two zones with different indices along an axis lie apart: one ends
/// before the other starts.
proof fn lemma_apart(each: int, margin: int, i: int, j: int)
    requires
        margin >= 0,
        0 <= i,
        0 <= j,
        i != j,
    ensures
        i * each + i * margin + each <= j * each + j * margin || j * each + j * margin + each
            <= i * each + i * margin,
{
    let stride = each + margin;
    assert(i * each + i * margin == i * stride && j * each + j * margin == j * stride)
        by (nonlinear_arith)
        requires
            stride == each + margin,
    ;
    let lo = if i < j { i } else { j };
    let hi = if i < j { j } else { i };
    if stride >= 0 {
        assert(lo * stride + stride <= hi * stride) by (nonlinear_arith)
            requires
                0 <= lo < hi,
                stride >= 0,
        ;
    } else {
        assert(hi * stride - stride <= lo * stride) by (nonlinear_arith)
            requires
                0 <= lo < hi,
                stride < 0,
        ;
    }
}

/// Along one axis with `free >= 0` pixels for `count` zones: the zones are
/// not negative in size, together with their margins they fit, and a zone
/// further along starts no earlier than where an earlier one ends.
proof fn lemma_axis(free: int, count: int, margin: int, i: int, j: int)
    requires
        free >= 0,
        count >= 1,
        margin >= 0,
        0 <= i <= j < count,
    ensures
        ({
            let each = crate::model::div_toward_zero(free, count);
            &&& each >= 0
            &&& i * each + i * margin >= 0
            &&& i * each + each + i * margin <= free + (count - 1) * margin
            &&& i < j ==> i * each + i * margin + each <= j * each + j * margin
        }),
{
    let each = free / count;
    assert(each >= 0 && each * count <= free) by (nonlinear_arith)
        requires
            free >= 0,
            count >= 1,
            each == free / count,
    ;
    assert(i * each + i * margin >= 0) by (nonlinear_arith)
        requires
            i >= 0,
            each >= 0,
            margin >= 0,
    ;
    assert(i * each + each + i * margin <= each * count + (count - 1) * margin)
        by (nonlinear_arith)
        requires
            0 <= i < count,
            each >= 0,
            margin >= 0,
    ;
    if i < j {
        assert(i * each + i * margin + each <= j * each + j * margin) by (nonlinear_arith)
            requires
                0 <= i < j,
                each >= 0,
                margin >= 0,
        ;
    }
}

/// Adding a row and then removing one gives the matrix back.
pub proof fn add_then_remove_row(tiles: Seq<Seq<Tile>>)
    requires
        matrix_wf(tiles),
    ensures
        with_row_removed(with_row_added(tiles)) == tiles,
        matrix_wf(with_row_added(tiles)),
        with_row_added(tiles).len() == tiles.len() + 1,
{
    assert(with_row_added(tiles).drop_last() =~= tiles);
}

/// Adding a column and then removing one gives the matrix back.
pub proof fn add_then_remove_column(tiles: Seq<Seq<Tile>>)
    requires
        matrix_wf(tiles),
    ensures
        with_column_removed(with_column_added(tiles)) == tiles,
        matrix_wf(with_column_added(tiles)),
        with_column_added(tiles)[0].len() == tiles[0].len() + 1,
{
    let added = with_column_added(tiles);
    assert forall|r: int| 0 <= r < tiles.len() implies (#[trigger] added[r]).drop_last()
        == tiles[r] by {
        assert(added[r].drop_last() =~= tiles[r]);
    }
    assert(with_column_removed(added) =~= tiles);
}

/// Removing never goes below one row and one column: on a matrix of one row
/// `with_row_removed` changes nothing, on one of one column
/// `with_column_removed` changes nothing, and what either leaves is sound.
pub proof fn remove_stops_at_one(tiles: Seq<Seq<Tile>>)
    requires
        matrix_wf(tiles),
    ensures
        tiles.len() == 1 ==> with_row_removed(tiles) == tiles,
        tiles[0].len() == 1 ==> with_column_removed(tiles) == tiles,
        matrix_wf(with_row_removed(tiles)),
        matrix_wf(with_column_removed(tiles)),
{
    let fewer = with_column_removed(tiles);
    assert forall|r: int| 0 <= r < fewer.len() implies (#[trigger] fewer[r]).len()
        == fewer[0].len() by {
        assert(tiles[r].len() == tiles[0].len());
    }
}

/// Moving the pointer to where it already is changes nothing: after one move
/// to a point, a second move to the same point over the same work area, with
/// the keys as they were, reports that no tile looks different.
pub proof fn highlight_twice_reports_nothing(grid: GridView, px: int, py: int, work_area: Region)
    requires
        grid.wf(),
    ensures
        grid.highlighted(px, py, work_area).highlight_rect(px, py, work_area) is None,
        grid.highlighted(px, py, work_area).highlighted(px, py, work_area) == grid.highlighted(
            px,
            py,
            work_area,
        ),
{
    let once = grid.highlighted(px, py, work_area);
    let pointed = grid.pointed_at(px, py);
    assert(once.tiles.len() == grid.tiles.len());
    assert(once.tiles[0].len() == grid.tiles[0].len());
    assert(once.pointed_tile(px, py) == grid.pointed_tile(px, py)) by {
        lemma_last_below_same(
            grid.rows(),
            |r: int| once.row_hit(r, py),
            |r: int| grid.row_hit(r, py),
        );
        lemma_last_below_same(
            grid.columns(),
            |c: int| once.column_hit(c, px),
            |c: int| grid.column_hit(c, px),
        );
    }
    assert(once.pointed_at(px, py).tiles =~~= pointed.tiles);
    assert(once.pointed_at(px, py) == pointed);
    let twice = once.highlighted(px, py, work_area);
    assert(twice.tiles =~~= once.tiles);
}

/// A span is the smallest rectangle that holds the zones of both of its
/// tiles, whichever way the one lies from the other.
pub proof fn span_is_bounding_box(
    grid: GridView,
    a: (usize, usize),
    b: (usize, usize),
    work_area: Region,
)
    ensures
        ({
            let first = grid.zone_area(a.0 as int, a.1 as int, work_area);
            let second = grid.zone_area(b.0 as int, b.1 as int, work_area);
            let span = grid.span_between(a, b, work_area);
            &&& span.x == if first.x <= second.x { first.x } else { second.x }
            &&& span.y == if first.y <= second.y { first.y } else { second.y }
            &&& span.x + span.w == (if first.x <= second.x { second.x } else { first.x })
                + grid.zone_width(work_area)
            &&& span.y + span.h == (if first.y <= second.y { second.y } else { first.y })
                + grid.zone_height(work_area)
        }),
{
}

/// Where a zone and the margin behind it take up room, a span marks the
/// block of tiles between its two tiles, rows and columns of both included,
/// whichever way the one lies from the other.
pub proof fn span_marks_the_block(
    grid: GridView,
    a: (usize, usize),
    b: (usize, usize),
    work_area: Region,
    row: int,
    column: int,
)
    requires
        grid.wf(),
        grid.zone_width(work_area) + grid.zone_margins > 0,
        grid.zone_height(work_area) + grid.zone_margins > 0,
    ensures
        grid.in_span(row, column, a, b, work_area) == ({
            &&& (if a.0 <= b.0 { a.0 } else { b.0 }) <= row <= (if a.0 <= b.0 { b.0 } else { a.0 })
            &&& (if a.1 <= b.1 { a.1 } else { b.1 }) <= column <= (if a.1 <= b.1 {
                b.1
            } else {
                a.1
            })
        }),
{
    lemma_in_order(grid.zone_width(work_area), grid.zone_margins, a.1 as int, b.1 as int);
    lemma_in_order(grid.zone_height(work_area), grid.zone_margins, a.0 as int, b.0 as int);
}

/// Where the stride is positive, starts lie in the order of their indices.
proof fn lemma_in_order(each: int, margin: int, i: int, j: int)
    requires
        each + margin > 0,
    ensures
        i < j <==> i * each + i * margin < j * each + j * margin,
        i == j <==> i * each + i * margin == j * each + j * margin,
{
    let stride = each + margin;
    assert(i * each + i * margin == i * stride && j * each + j * margin == j * stride)
        by (nonlinear_arith)
        requires
            stride == each + margin,
    ;
    assert((i < j <==> i * stride < j * stride) && (i == j <==> i * stride == j * stride))
        by (nonlinear_arith)
        requires
            stride > 0,
    ;
}

/// A span does not depend on which of its two tiles was selected and which
/// hovered.
pub proof fn span_is_symmetric(
    grid: GridView,
    a: (usize, usize),
    b: (usize, usize),
    work_area: Region,
)
    ensures
        grid.span_between(a, b, work_area) == grid.span_between(b, a, work_area),
{
}

/// Where the zones have room, a span between two tiles has a size that is
/// not negative, and so has all that the zones cover.
pub proof fn span_is_normalized(
    grid: GridView,
    a: (usize, usize),
    b: (usize, usize),
    work_area: Region,
)
    requires
        grid.wf(),
        grid.free_width(work_area) >= 0,
        grid.free_height(work_area) >= 0,
    ensures
        grid.span_between(a, b, work_area).normalized(),
        grid.max_area(work_area).normalized(),
{
    lemma_axis(grid.free_width(work_area), grid.columns(), grid.zone_margins, 0, 0);
    lemma_axis(grid.free_height(work_area), grid.rows(), grid.zone_margins, 0, 0);
    lemma_between(
        grid.zone_width(work_area),
        grid.zone_margins,
        grid.columns() - 1,
        grid.columns() - 1,
    );
    lemma_between(grid.zone_height(work_area), grid.zone_margins, grid.rows() - 1, grid.rows() - 1);
}

/// Where the zones have room, the span from the first tile to the last is
/// all that the zones cover.
pub proof fn full_span_is_max_area(grid: GridView, work_area: Region)
    requires
        grid.wf(),
        grid.free_width(work_area) >= 0,
        grid.free_height(work_area) >= 0,
        grid.rows() <= usize::MAX,
        grid.columns() <= usize::MAX,
    ensures
        grid.span_between(
            (0, 0),
            ((grid.rows() - 1) as usize, (grid.columns() - 1) as usize),
            work_area,
        ) == grid.max_area(work_area),
{
    lemma_axis(
        grid.free_width(work_area),
        grid.columns(),
        grid.zone_margins,
        0,
        grid.columns() - 1,
    );
    lemma_axis(grid.free_height(work_area), grid.rows(), grid.zone_margins, 0, grid.rows() - 1);
}

/// Two presses of the maximize key bring a window back to where it stood:
/// if the window stands at `start`, goes where the first press sends it, and
/// nothing else is placed in between, the second press sends it to `start`.
pub proof fn maximize_twice_returns(
    grid: GridView,
    window: Window,
    start: Rect,
    moved: Rect,
    border: (int, int),
    work_area: Region,
)
    requires
        moved@ == grid.maximize_target(start@, border, work_area),
    ensures
        grid.maximized(window, start).maximize_target(moved@, border, work_area) == start@,
{
}

/// Closing the picker ends the session and keeps the memory: the picker's
/// windows, the selected and the hovered tile, the held keys and the quick
/// mode are forgotten, every tile is blank; the active window and the last
/// placement stay as they were.
pub proof fn closing_keeps_the_memory(manager: ManagerView, env: Surroundings)
    ensures
        manager.step(Event::CloseWindows, env) matches Ok((after, _)) && {
            &&& after.grid_window is None
            &&& after.preview_window is None
            &&& !after.track_mouse
            &&& after.grid.grid_window is None
            &&& after.grid.selected_tile is None
            &&& after.grid.hovered_tile is None
            &&& !after.grid.quick_resize
            &&& !after.grid.shift_down && !after.grid.control_down && !after.grid.cursor_down
            &&& after.grid.active_window == manager.grid.active_window
            &&& after.grid.previous_resize == manager.grid.previous_resize
            &&& forall|r: int, c: int|
                0 <= r < after.grid.tiles.len() && 0 <= c < after.grid.tiles[r].len()
                    ==> after.grid.tiles[r][c] == Tile::blank()
            &&& after.grid.tiles.len() == manager.grid.tiles.len()
        },
{
}

/// Where [`GridView::zones_fit`] holds, the zone of every tile of the matrix
/// fits the coordinate range, and so do the span between any two of them and
/// the rectangle that the zones cover together.
pub proof fn zones_fit_covers(
    grid: GridView,
    work_area: Region,
    a: (usize, usize),
    b: (usize, usize),
)
    requires
        grid.wf(),
        grid.zones_fit(work_area),
        grid.in_matrix(a),
        grid.in_matrix(b),
    ensures
        grid.zone_area(a.0 as int, a.1 as int, work_area).representable(),
        grid.span_between(a, b, work_area).representable(),
        grid.max_area(work_area).representable(),
{
    let w = grid.zone_width(work_area);
    let h = grid.zone_height(work_area);
    let m = grid.zone_margins;
    lemma_between(w, m, a.1 as int, grid.columns() - 1);
    lemma_between(w, m, b.1 as int, grid.columns() - 1);
    lemma_between(h, m, a.0 as int, grid.rows() - 1);
    lemma_between(h, m, b.0 as int, grid.rows() - 1);
}

/// The tile under a point is a tile of the matrix.
pub proof fn pointed_tile_is_in_matrix(grid: GridView, px: int, py: int)
    requires
        grid.wf(),
        grid.rows() <= usize::MAX,
        grid.columns() <= usize::MAX,
    ensures
        grid.pointed_tile(px, py) matches Some(t) ==> grid.in_matrix(t),
{
    lemma_last_below_in_range(grid.rows(), |r: int| grid.row_hit(r, py));
    lemma_last_below_in_range(grid.columns(), |c: int| grid.column_hit(c, px));
}

/// Where [`GridView::zones_fit`] holds and the selected and the hovered
/// tile lie in the matrix, the pointer can move anywhere and the selection
/// can be asked for: every rectangle that this takes fits the coordinate
/// range.
pub proof fn zones_fit_allows_every_move(grid: GridView, work_area: Region, px: int, py: int)
    requires
        grid.wf(),
        grid.rows() <= usize::MAX,
        grid.columns() <= usize::MAX,
        grid.zones_fit(work_area),
        grid.marks_in_matrix(),
    ensures
        grid.highlight_fits(px, py, work_area),
        grid.selected_area(work_area) matches Some(r) ==> r.representable(),
{
    pointed_tile_is_in_matrix(grid, px, py);
    let moved = grid.pointed_at(px, py);
    if grid.pointed_tile(px, py) is Some {
        let t = grid.pointed_tile(px, py)->0;
        zones_fit_covers(grid, work_area, t, t);
    }
    if moved.span_active() {
        let s = moved.selected_tile->0;
        let h = moved.hovered_tile->0;
        zones_fit_covers(grid, work_area, s, h);
        assert(moved.span_between(s, h, work_area) == grid.span_between(s, h, work_area));
    }
    if grid.selected_tile is Some {
        let s = grid.selected_tile->0;
        zones_fit_covers(grid, work_area, s, s);
        if grid.hovered_tile is Some {
            zones_fit_covers(grid, work_area, s, grid.hovered_tile->0);
        }
    }
}

/// A start `i * each + i * margin` with `0 <= i <= last` lies between the
/// first start, which is zero, and the last one.
proof fn lemma_between(each: int, margin: int, i: int, last: int)
    requires
        0 <= i <= last,
    ensures
        ({
            let at = i * each + i * margin;
            let end = last * each + last * margin;
            (0 <= at <= end) || (end <= at <= 0)
        }),
{
    let stride = each + margin;
    assert(i * each + i * margin == i * stride && last * each + last * margin == last * stride)
        by (nonlinear_arith)
        requires
            stride == each + margin,
    ;
    if stride >= 0 {
        assert(0 <= i * stride <= last * stride) by (nonlinear_arith)
            requires
                0 <= i <= last,
                stride >= 0,
        ;
    } else {
        assert(last * stride <= i * stride <= 0) by (nonlinear_arith)
            requires
                0 <= i <= last,
                stride < 0,
        ;
    }
}

} // verus!
