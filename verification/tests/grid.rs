use wtm::grid::{Grid, TilePaint};
use wtm::rect::Rect;
use wtm::tile::{Tile, HOVERED_FILL, PLAIN_FILL, SELECTED_FILL};
use wtm::window::Window;

fn work_area() -> Rect {
    Rect { x: 0, y: 0, w: 1000, h: 800 }
}

/// Centre of the picker tile at `row`, `column` with the default margins.
fn tile_point(row: i32, column: i32) -> (i32, i32) {
    (column * 48 + (column + 1) * 3 + 24, row * 48 + (row + 1) * 3 + 24)
}

#[test]
fn default_grid_is_two_by_two_and_blank() {
    let grid = Grid::default();
    assert_eq!(grid.rows(), 2);
    assert_eq!(grid.columns(), 2);
    for row in 0..2 {
        for column in 0..2 {
            assert_eq!(grid.tile(row, column), Tile { selected: false, hovered: false });
        }
    }
    assert_eq!(grid.grid_margins, 3);
    assert_eq!(grid.zone_margins, 10);
    assert_eq!(grid.border_margins, 10);
    assert_eq!(grid.selected_tile, None);
    assert_eq!(grid.hovered_tile, None);
    assert_eq!(grid.active_window, None);
    assert_eq!(grid.grid_window, None);
    assert_eq!(grid.previous_resize, None);
    assert!(!grid.quick_resize && !grid.shift_down && !grid.control_down && !grid.cursor_down);
}

#[test]
fn zone_area_of_default_grid() {
    let grid = Grid::default();
    let first = grid.zone_area(0, 0, work_area());
    assert_eq!(first, Rect { x: 10, y: 10, w: 485, h: 385 });
    let last = grid.zone_area(1, 1, work_area());
    assert_eq!(last, Rect { x: 505, y: 405, w: 485, h: 385 });
    assert_eq!(grid.zone_area(0, 1, work_area()), Rect { x: 505, y: 10, w: 485, h: 385 });
    assert_eq!(grid.zone_area(1, 0, work_area()), Rect { x: 10, y: 405, w: 485, h: 385 });
}

#[test]
fn zone_area_follows_the_origin_of_the_work_area() {
    let grid = Grid::default();
    let area = Rect { x: -1920, y: 40, w: 1920, h: 1040 };
    assert_eq!(grid.zone_area(0, 0, area), Rect { x: -1910, y: 50, w: 945, h: 505 });
    assert_eq!(grid.zone_area(1, 1, area), Rect { x: -955, y: 565, w: 945, h: 505 });
}

#[test]
fn zone_area_drops_the_remainder() {
    let mut grid = Grid::with_margins(10, 10);
    grid.add_column();
    // 1000 - 20 - 20 = 960 for three columns; 801 - 20 - 10 = 771 for two rows
    let area = Rect { x: 0, y: 0, w: 1001, h: 801 };
    assert_eq!(grid.zone_area(0, 0, area), Rect { x: 10, y: 10, w: 320, h: 385 });
    assert_eq!(grid.zone_area(1, 2, area), Rect { x: 670, y: 405, w: 320, h: 385 });
}

#[test]
fn zone_width_rounds_toward_zero_when_there_is_no_room() {
    let grid = Grid::with_margins(10, 10);
    // 25 - 20 - 10 = -5 for two columns: -2, not -3
    let area = Rect { x: 0, y: 0, w: 25, h: 800 };
    assert_eq!(grid.zone_area(0, 0, area).w, -2);
    assert_eq!(grid.zone_area(0, 1, area).x, 18);
}

#[test]
fn zones_do_not_overlap_and_stay_inside_the_margins() {
    let mut grid = Grid::with_margins(7, 13);
    grid.add_row();
    grid.add_column();
    grid.add_column();
    let area = Rect { x: 100, y: 50, w: 1333, h: 777 };
    let mut zones = Vec::new();
    for row in 0..grid.rows() {
        for column in 0..grid.columns() {
            let zone = grid.zone_area(row, column, area);
            assert!(zone.w >= 0 && zone.h >= 0);
            assert!(zone.x >= area.x + 13 && zone.y >= area.y + 13);
            assert!(zone.x + zone.w <= area.x + area.w - 13);
            assert!(zone.y + zone.h <= area.y + area.h - 13);
            zones.push(zone);
        }
    }
    for (i, a) in zones.iter().enumerate() {
        for (j, b) in zones.iter().enumerate() {
            if i != j {
                assert!(
                    a.x + a.w <= b.x || b.x + b.w <= a.x || a.y + a.h <= b.y || b.y + b.h <= a.y
                );
            }
        }
    }
}

#[test]
fn zones_fit_tells_when_the_numbers_leave_the_range() {
    let grid = Grid::default();
    assert!(grid.zones_fit(work_area()));
    assert!(!grid.zones_fit(Rect { x: i32::MAX, y: 0, w: 1000, h: 800 }));
    assert!(!grid.zones_fit(Rect { x: 0, y: i32::MAX, w: 1000, h: 800 }));
    assert!(grid.zones_fit(Rect { x: 0, y: i32::MIN, w: 1000, h: 800 }));
}

#[test]
fn tile_area_and_dimensions() {
    let mut grid = Grid::default();
    assert_eq!(grid.tile_area(0, 0), Rect { x: 3, y: 3, w: 48, h: 48 });
    assert_eq!(grid.tile_area(1, 1), Rect { x: 54, y: 54, w: 48, h: 48 });
    assert_eq!(grid.tile_area(2, 3), Rect { x: 156, y: 105, w: 48, h: 48 });
    assert_eq!(grid.dimensions(), (105, 105));
    grid.add_column();
    assert_eq!(grid.dimensions(), (156, 105));
    grid.add_row();
    grid.add_row();
    assert_eq!(grid.dimensions(), (156, 207));
}

#[test]
fn rows_and_columns_follow_the_matrix() {
    let mut grid = Grid::default();
    grid.add_row();
    assert_eq!((grid.rows(), grid.columns()), (3, 2));
    assert_eq!(grid.tiles.len(), 3);
    grid.add_column();
    assert_eq!((grid.rows(), grid.columns()), (3, 3));
    assert!(grid.tiles.iter().all(|row| row.len() == 3));
    grid.remove_row();
    assert_eq!((grid.rows(), grid.columns()), (2, 3));
    grid.remove_column();
    assert_eq!((grid.rows(), grid.columns()), (2, 2));
}

#[test]
fn add_row_then_remove_row_restores_the_matrix() {
    let mut grid = Grid::default();
    grid.select_tile(tile_point(1, 0));
    grid.highlight_tiles(tile_point(0, 1), work_area());
    let before = grid.tiles.clone();
    grid.add_row();
    assert_eq!(grid.tiles[2], vec![Tile { selected: false, hovered: false }; 2]);
    grid.remove_row();
    assert_eq!(grid.tiles, before);
    grid.add_column();
    assert_eq!(grid.tiles[0][2], Tile { selected: false, hovered: false });
    grid.remove_column();
    assert_eq!(grid.tiles, before);
}

#[test]
fn remove_is_a_no_op_at_one_by_one() {
    let mut grid = Grid::default();
    grid.remove_row();
    grid.remove_column();
    assert_eq!((grid.rows(), grid.columns()), (1, 1));
    grid.select_tile(tile_point(0, 0));
    let before = grid.tiles.clone();
    grid.remove_row();
    assert_eq!(grid.tiles, before);
    grid.remove_column();
    assert_eq!(grid.tiles, before);
    grid.remove_row();
    grid.remove_column();
    assert_eq!(grid.tiles, before);
    assert_eq!((grid.rows(), grid.columns()), (1, 1));
}

#[test]
fn structural_change_does_not_move_the_window_by_itself() {
    let mut grid = Grid::default();
    grid.grid_window = Some(Window(9));
    let before = grid.reposition(work_area());
    assert_eq!(before, (Window(9), Rect { x: 448, y: 348, w: 105, h: 105 }));
    grid.add_column();
    let after = grid.reposition(work_area());
    assert_eq!(after, (Window(9), Rect { x: 422, y: 348, w: 156, h: 105 }));
}

#[test]
fn reposition_centres_on_an_offset_work_area() {
    let mut grid = Grid::default();
    grid.grid_window = Some(Window(4));
    let area = Rect { x: 1920, y: 0, w: 1281, h: 1025 };
    // 1281 / 2 = 640, 105 / 2 = 52
    assert_eq!(grid.reposition(area), (Window(4), Rect { x: 2508, y: 460, w: 105, h: 105 }));
    assert_eq!(grid.centered_rect(area), Rect { x: 2508, y: 460, w: 105, h: 105 });
    assert!(grid.picker_fits(area));
    assert!(!grid.picker_fits(Rect { x: i32::MAX, y: 0, w: 1000, h: 0 }));
}

#[test]
fn get_max_area_spans_all_zones() {
    let grid = Grid::default();
    assert_eq!(grid.get_max_area(work_area()), Rect { x: 10, y: 10, w: 980, h: 780 });
}

#[test]
fn select_tile_marks_exactly_one_tile() {
    let mut grid = Grid::default();
    assert!(grid.select_tile(tile_point(0, 1)));
    assert_eq!(grid.selected_tile, Some((0, 1)));
    assert!(grid.tile(0, 1).selected);
    assert!(!grid.tile(0, 0).selected && !grid.tile(1, 0).selected && !grid.tile(1, 1).selected);
    // the same tile again: nothing changes
    assert!(!grid.select_tile(tile_point(0, 1)));
    assert!(grid.select_tile(tile_point(1, 0)));
    assert_eq!(grid.selected_tile, Some((1, 0)));
    assert!(grid.tile(1, 0).selected && !grid.tile(0, 1).selected);
}

#[test]
fn select_tile_outside_every_tile_keeps_the_selected_tile() {
    let mut grid = Grid::default();
    grid.select_tile(tile_point(1, 1));
    // in the margin between the tiles
    assert!(!grid.select_tile((52, 52)));
    assert_eq!(grid.selected_tile, Some((1, 1)));
    assert!(!grid.tile(1, 1).selected);
}

#[test]
fn select_tile_is_locked_while_dragging_or_shifting() {
    let mut grid = Grid::default();
    grid.select_tile(tile_point(0, 0));
    grid.cursor_down = true;
    assert!(!grid.select_tile(tile_point(1, 1)));
    assert_eq!(grid.selected_tile, Some((0, 0)));
    assert!(grid.tile(0, 0).selected && !grid.tile(1, 1).selected);
    grid.cursor_down = false;
    grid.shift_down = true;
    assert!(!grid.select_tile(tile_point(1, 1)));
    assert_eq!(grid.selected_tile, Some((0, 0)));
}

#[test]
fn highlight_tiles_returns_the_zone_under_the_pointer() {
    let mut grid = Grid::default();
    let rect = grid.highlight_tiles(tile_point(1, 0), work_area());
    assert_eq!(rect, Some(Rect { x: 10, y: 405, w: 485, h: 385 }));
    assert_eq!(grid.hovered_tile, Some((1, 0)));
    assert!(grid.tile(1, 0).hovered);
    assert!(!grid.tile(0, 0).hovered && !grid.tile(0, 1).hovered && !grid.tile(1, 1).hovered);
}

#[test]
fn highlight_tiles_twice_at_the_same_point_returns_none() {
    let mut grid = Grid::default();
    assert!(grid.highlight_tiles(tile_point(0, 1), work_area()).is_some());
    assert_eq!(grid.highlight_tiles(tile_point(0, 1), work_area()), None);
    // with a span being drawn as well
    grid.select_tile(tile_point(0, 0));
    grid.shift_down = true;
    assert!(grid.highlight_tiles(tile_point(1, 1), work_area()).is_some());
    assert_eq!(grid.highlight_tiles(tile_point(1, 1), work_area()), None);
}

#[test]
fn highlight_tiles_off_the_tiles_keeps_the_hovered_tile() {
    let mut grid = Grid::default();
    grid.highlight_tiles(tile_point(0, 0), work_area());
    // the hover flag goes, so the tiles changed, but there is nothing to preview
    assert_eq!(grid.highlight_tiles((1, 1), work_area()), None);
    assert_eq!(grid.hovered_tile, Some((0, 0)));
    assert!(!grid.tile(0, 0).hovered);
}

#[test]
fn shift_hover_from_first_to_last_tile_is_the_max_area() {
    let mut grid = Grid::default();
    grid.select_tile(tile_point(0, 0));
    grid.shift_down = true;
    let rect = grid.highlight_tiles(tile_point(1, 1), work_area());
    assert_eq!(rect, Some(grid.get_max_area(work_area())));
    assert_eq!(rect, Some(Rect { x: 10, y: 10, w: 980, h: 780 }));
    for row in 0..2 {
        for column in 0..2 {
            assert!(grid.tile(row, column).hovered);
        }
    }
}

fn span(selected: (i32, i32), hovered: (i32, i32)) -> (Option<Rect>, Vec<Vec<Tile>>) {
    let mut grid = Grid::default();
    grid.add_row();
    grid.add_column();
    grid.select_tile(tile_point(selected.0, selected.1));
    grid.shift_down = true;
    let rect = grid.highlight_tiles(tile_point(hovered.0, hovered.1), Rect {
        x: 0,
        y: 0,
        w: 1920,
        h: 1080,
    });
    (rect, grid.tiles.clone())
}

#[test]
fn span_covers_all_four_directions() {
    // zones are 626 by 346 with a stride of 636 and 356, starting at 10
    let down_right = span((0, 0), (1, 2)).0;
    assert_eq!(down_right, Some(Rect { x: 10, y: 10, w: 1898, h: 702 }));
    let up_left = span((2, 2), (1, 1)).0;
    assert_eq!(up_left, Some(Rect { x: 646, y: 366, w: 1262, h: 702 }));
    let down_left = span((0, 2), (2, 1)).0;
    assert_eq!(down_left, Some(Rect { x: 646, y: 10, w: 1262, h: 1058 }));
    let up_right = span((2, 0), (0, 1)).0;
    assert_eq!(up_right, Some(Rect { x: 10, y: 10, w: 1262, h: 1058 }));
    let same_row = span((1, 2), (1, 0)).0;
    assert_eq!(same_row, Some(Rect { x: 10, y: 366, w: 1898, h: 346 }));
    let same_tile = span((1, 1), (1, 1)).0;
    assert_eq!(same_tile, Some(Rect { x: 646, y: 366, w: 626, h: 346 }));
}

#[test]
fn span_is_the_same_from_either_end() {
    for a in [(0, 0), (0, 2), (1, 1), (2, 0), (2, 2)] {
        for b in [(0, 1), (1, 0), (1, 2), (2, 1), (2, 2)] {
            assert_eq!(span(a, b).0, span(b, a).0);
        }
    }
}

#[test]
fn span_marks_its_tiles_as_hovered() {
    let (_, tiles) = span((0, 2), (1, 1));
    for (row, tiles_of_row) in tiles.iter().enumerate() {
        for (column, tile) in tiles_of_row.iter().enumerate() {
            let inside = row <= 1 && (1..=2).contains(&column);
            assert_eq!(tile.hovered, inside, "tile {row} {column}");
        }
    }
}

#[test]
fn span_needs_shift_or_the_mouse_button() {
    let mut grid = Grid::default();
    grid.select_tile(tile_point(0, 0));
    grid.highlight_tiles(tile_point(1, 1), work_area());
    assert_eq!(grid.shift_hover_and_calc_rect(true, work_area()), None);
    assert!(!grid.tile(0, 0).hovered);
    grid.cursor_down = true;
    assert_eq!(
        grid.shift_hover_and_calc_rect(false, work_area()),
        Some(Rect { x: 10, y: 10, w: 980, h: 780 })
    );
    assert!(!grid.tile(0, 0).hovered);
    assert_eq!(
        grid.shift_hover_and_calc_rect(true, work_area()),
        Some(Rect { x: 10, y: 10, w: 980, h: 780 })
    );
    assert!(grid.tile(0, 0).hovered && grid.tile(0, 1).hovered && grid.tile(1, 0).hovered);
}

#[test]
fn selected_area_prefers_the_span() {
    let mut grid = Grid::default();
    assert_eq!(grid.selected_area(work_area()), None);
    grid.select_tile(tile_point(0, 1));
    assert_eq!(grid.selected_area(work_area()), Some(Rect { x: 505, y: 10, w: 485, h: 385 }));
    grid.highlight_tiles(tile_point(1, 1), work_area());
    assert_eq!(grid.selected_area(work_area()), Some(Rect { x: 505, y: 10, w: 485, h: 385 }));
    grid.shift_down = true;
    let before = grid.tiles.clone();
    assert_eq!(grid.selected_area(work_area()), Some(Rect { x: 505, y: 10, w: 485, h: 780 }));
    assert_eq!(grid.tiles, before);
}

#[test]
fn unhighlight_and_unselect_clear_one_flag_each() {
    let mut grid = Grid::default();
    grid.select_tile(tile_point(0, 0));
    grid.highlight_tiles(tile_point(0, 0), work_area());
    grid.unhighlight_all_tiles();
    assert_eq!(grid.tile(0, 0), Tile { selected: true, hovered: false });
    grid.highlight_tiles(tile_point(0, 0), work_area());
    grid.unselect_all_tiles();
    assert_eq!(grid.tile(0, 0), Tile { selected: false, hovered: true });
    assert_eq!(grid.selected_tile, Some((0, 0)));
}

#[test]
fn reset_keeps_active_window_and_previous_resize() {
    let mut grid = Grid::default();
    grid.add_row();
    grid.select_tile(tile_point(0, 0));
    grid.highlight_tiles(tile_point(1, 1), work_area());
    grid.shift_down = true;
    grid.control_down = true;
    grid.cursor_down = true;
    grid.quick_resize = true;
    grid.grid_window = Some(Window(1));
    grid.active_window = Some(Window(2));
    grid.previous_resize = Some((Window(2), Rect { x: 1, y: 2, w: 3, h: 4 }));
    grid.reset();
    assert!(!grid.shift_down && !grid.control_down && !grid.cursor_down && !grid.quick_resize);
    assert_eq!(grid.selected_tile, None);
    assert_eq!(grid.hovered_tile, None);
    assert_eq!(grid.grid_window, None);
    assert_eq!(grid.active_window, Some(Window(2)));
    assert_eq!(grid.previous_resize, Some((Window(2), Rect { x: 1, y: 2, w: 3, h: 4 })));
    assert_eq!((grid.rows(), grid.columns()), (3, 2));
    assert!(grid.tiles.iter().flatten().all(|t| !t.selected && !t.hovered));
}

#[test]
fn rebuilt_carries_the_transient_state_over() {
    let mut grid = Grid::default();
    grid.add_row();
    grid.select_tile(tile_point(0, 0));
    grid.shift_down = true;
    grid.quick_resize = true;
    grid.grid_window = Some(Window(1));
    grid.active_window = Some(Window(2));
    grid.previous_resize = Some((Window(2), Rect { x: 1, y: 2, w: 3, h: 4 }));
    let next = grid.rebuilt(4, 6);
    assert_eq!((next.rows(), next.columns()), (2, 2));
    assert_eq!((next.grid_margins, next.zone_margins, next.border_margins), (3, 4, 6));
    assert_eq!(next.active_window, Some(Window(2)));
    assert_eq!(next.previous_resize, Some((Window(2), Rect { x: 1, y: 2, w: 3, h: 4 })));
    assert!(next.quick_resize);
    assert_eq!(next.grid_window, None);
    assert_eq!(next.selected_tile, None);
    assert!(!next.shift_down);
    assert!(next.tiles.iter().flatten().all(|t| !t.selected && !t.hovered));
}

#[test]
fn draw_lists_every_tile_with_its_colour() {
    let mut grid = Grid::default();
    grid.select_tile(tile_point(0, 1));
    grid.highlight_tiles(tile_point(0, 1), work_area());
    grid.highlight_tiles(tile_point(1, 0), work_area());
    let paints = grid.draw();
    assert_eq!(
        paints,
        vec![
            TilePaint { area: Rect { x: 3, y: 3, w: 48, h: 48 }, fill: PLAIN_FILL, frame: 0 },
            TilePaint { area: Rect { x: 54, y: 3, w: 48, h: 48 }, fill: SELECTED_FILL, frame: 0 },
            TilePaint { area: Rect { x: 3, y: 54, w: 48, h: 48 }, fill: HOVERED_FILL, frame: 0 },
            TilePaint { area: Rect { x: 54, y: 54, w: 48, h: 48 }, fill: PLAIN_FILL, frame: 0 },
        ]
    );
}

#[test]
fn fill_colour_prefers_selected_over_hovered() {
    assert_eq!(Tile { selected: true, hovered: true }.fill_color(), 0x0080_4D00);
    assert_eq!(Tile { selected: true, hovered: false }.fill_color(), 0x0080_4D00);
    assert_eq!(Tile { selected: false, hovered: true }.fill_color(), 0x0094_6400);
    assert_eq!(Tile { selected: false, hovered: false }.fill_color(), 0x00B2_B2B2);
    assert_eq!(Tile::default(), Tile { selected: false, hovered: false });
}

#[test]
fn touching_tiles_share_their_edge() {
    let mut grid = Grid::default();
    grid.grid_margins = 0;
    // x = 48 lies on the right edge of column 0 and the left edge of column 1
    grid.highlight_tiles((48, 10), work_area());
    assert!(grid.tile(0, 0).hovered && grid.tile(0, 1).hovered);
    assert_eq!(grid.hovered_tile, Some((0, 1)));
    grid.select_tile((48, 48));
    assert!(grid.tiles.iter().flatten().all(|t| t.selected));
    assert_eq!(grid.selected_tile, Some((1, 1)));
}

#[test]
fn foreground_changed_skips_the_picker_and_the_active_window() {
    let mut grid = Grid::default();
    grid.grid_window = Some(Window(1));
    grid.foreground_changed(Window(1));
    assert_eq!(grid.active_window, None);
    grid.foreground_changed(Window(5));
    assert_eq!(grid.active_window, Some(Window(5)));
    grid.foreground_changed(Window(5));
    assert_eq!(grid.active_window, Some(Window(5)));
    grid.foreground_changed(Window(6));
    assert_eq!(grid.active_window, Some(Window(6)));
}

#[test]
fn well_formed_means_a_full_matrix() {
    let mut grid = Grid::default();
    assert!(grid.is_well_formed());
    grid.tiles[1].pop();
    assert!(!grid.is_well_formed());
    grid.tiles.pop();
    assert!(grid.is_well_formed());
    grid.tiles[0].clear();
    assert!(!grid.is_well_formed());
    grid.tiles.clear();
    assert!(!grid.is_well_formed());
}

#[test]
fn picker_face_is_the_whole_window() {
    let mut grid = Grid::default();
    assert!(grid.face_fits());
    assert_eq!(grid.picker_face(), Rect { x: 0, y: 0, w: 105, h: 105 });
    grid.add_column();
    assert_eq!(grid.picker_face(), Rect { x: 0, y: 0, w: 156, h: 105 });
}

#[test]
fn highlight_fits_looks_at_the_zone_under_the_pointer_and_at_the_span() {
    let mut grid = Grid::default();
    let far = Rect { x: i32::MAX - 400, y: 0, w: 1000, h: 800 };
    // the first column fits, the second does not
    assert!(grid.highlight_fits(tile_point(0, 0), far));
    assert!(!grid.highlight_fits(tile_point(0, 1), far));
    assert!(grid.highlight_fits((1, 1), far));
    grid.select_tile(tile_point(0, 0));
    grid.highlight_tiles(tile_point(1, 0), far);
    assert!(grid.highlight_fits(tile_point(1, 0), far));
    grid.shift_down = true;
    // the span from column 0 to column 0 fits, its height is fine too
    assert!(grid.highlight_fits(tile_point(1, 0), far));
    let tall = Rect { x: 0, y: i32::MAX - 300, w: 1000, h: 800 };
    assert!(!grid.highlight_fits(tile_point(1, 0), tall));
}
