use wtm::event::{Action, Event};
use wtm::grid::Grid;
use wtm::input::{
    pointer_position, VK_CONTROL, VK_DOWN, VK_ESCAPE, VK_F1, VK_F2, VK_F3, VK_F4, VK_F5, VK_F6,
    VK_LEFT, VK_RIGHT, VK_SHIFT, VK_UP, WM_KEYDOWN, WM_KEYUP, WM_LBUTTONDOWN, WM_LBUTTONUP,
    WM_MOUSELEAVE, WM_MOUSEMOVE, WM_PAINT,
};
use wtm::manager::DispatchError;
use wtm::rect::Rect;
use wtm::window::Window;

const PICKER: Window = Window(1);

fn work_area() -> Rect {
    Rect { x: 0, y: 0, w: 1000, h: 800 }
}

fn at(x: isize, y: isize) -> isize {
    (y << 16) | x
}

fn tile(row: isize, column: isize) -> isize {
    at(column * 48 + (column + 1) * 3 + 24, row * 48 + (row + 1) * 3 + 24)
}

fn face() -> Action {
    Action::Invalidate { window: PICKER, area: Rect { x: 0, y: 0, w: 105, h: 105 } }
}

fn send(grid: &mut Grid, msg: u32, wparam: i32, lparam: isize) -> Result<Vec<Action>, DispatchError> {
    grid.handle_message(PICKER, msg, wparam as usize, lparam, work_area())
}

fn picker() -> Grid {
    let mut grid = Grid::default();
    grid.grid_window = Some(PICKER);
    grid.active_window = Some(Window(50));
    grid
}

#[test]
fn pointer_position_takes_the_two_low_words() {
    assert_eq!(pointer_position(0), (0, 0));
    assert_eq!(pointer_position(at(27, 78)), (27, 78));
    assert_eq!(pointer_position(0x0123_4567), (0x4567, 0x0123));
    assert_eq!(pointer_position(-1), (0xffff, 0xffff));
    assert_eq!(pointer_position(0x7_0002_0001), (1, 2));
}

#[test]
fn paint_asks_for_the_tiles_to_be_painted() {
    let mut grid = picker();
    assert_eq!(send(&mut grid, WM_PAINT, 0, 0), Ok(vec![Action::Paint(PICKER)]));
}

#[test]
fn escape_closes_the_picker() {
    let mut grid = picker();
    assert_eq!(
        send(&mut grid, WM_KEYDOWN, VK_ESCAPE, 0),
        Ok(vec![Action::Send(Event::CloseWindows)])
    );
}

#[test]
fn control_and_shift_are_noted() {
    let mut grid = picker();
    assert_eq!(send(&mut grid, WM_KEYDOWN, VK_CONTROL, 0), Ok(vec![]));
    assert!(grid.control_down && !grid.shift_down);
    assert_eq!(send(&mut grid, WM_KEYDOWN, VK_SHIFT, 0), Ok(vec![]));
    assert!(grid.control_down && grid.shift_down);
    assert_eq!(send(&mut grid, WM_KEYUP, VK_CONTROL, 0), Ok(vec![]));
    assert!(!grid.control_down && grid.shift_down);
    assert_eq!(send(&mut grid, WM_KEYUP, VK_SHIFT, 0), Ok(vec![]));
    assert!(!grid.control_down && !grid.shift_down);
}

#[test]
fn arrows_need_control() {
    let mut grid = picker();
    for key in [VK_RIGHT, VK_LEFT, VK_UP, VK_DOWN] {
        assert_eq!(send(&mut grid, WM_KEYDOWN, key, 0), Ok(vec![]));
    }
    assert_eq!((grid.rows(), grid.columns()), (2, 2));
}

#[test]
fn control_arrows_resize_the_matrix_and_recentre_the_picker() {
    let mut grid = picker();
    send(&mut grid, WM_KEYDOWN, VK_CONTROL, 0).unwrap();
    let moved = |x, y, w, h| {
        Ok(vec![Action::SetPos { window: PICKER, rect: Rect { x, y, w, h }, insert_after: None }])
    };
    assert_eq!(send(&mut grid, WM_KEYDOWN, VK_RIGHT, 0), moved(422, 348, 156, 105));
    assert_eq!((grid.rows(), grid.columns()), (2, 3));
    assert_eq!(send(&mut grid, WM_KEYDOWN, VK_UP, 0), moved(422, 322, 156, 156));
    assert_eq!((grid.rows(), grid.columns()), (3, 3));
    assert_eq!(send(&mut grid, WM_KEYDOWN, VK_LEFT, 0), moved(448, 322, 105, 156));
    assert_eq!((grid.rows(), grid.columns()), (3, 2));
    assert_eq!(send(&mut grid, WM_KEYDOWN, VK_DOWN, 0), moved(448, 348, 105, 105));
    assert_eq!((grid.rows(), grid.columns()), (2, 2));
    send(&mut grid, WM_KEYDOWN, VK_DOWN, 0).unwrap();
    send(&mut grid, WM_KEYDOWN, VK_LEFT, 0).unwrap();
    // at one by one the matrix stays, the window is still centred
    assert_eq!(send(&mut grid, WM_KEYDOWN, VK_DOWN, 0), moved(473, 373, 54, 54));
    assert_eq!(send(&mut grid, WM_KEYDOWN, VK_LEFT, 0), moved(473, 373, 54, 54));
    assert_eq!((grid.rows(), grid.columns()), (1, 1));
}

#[test]
fn control_arrow_without_a_grid_window_is_turned_down() {
    let mut grid = Grid::default();
    grid.control_down = true;
    assert_eq!(send(&mut grid, WM_KEYDOWN, VK_RIGHT, 0), Err(DispatchError::NoGridWindow));
    assert_eq!(grid.columns(), 2);
}

#[test]
fn control_arrow_that_does_not_fit_leaves_the_grid_as_it_was() {
    let mut grid = picker();
    grid.add_column();
    grid.control_down = true;
    grid.select_tile((129, 27));
    let before = grid.tiles.clone();
    // three columns: 500 - 78 + x fits; two columns: 500 - 52 + x does not
    let far = Rect { x: i32::MAX - 430, y: 0, w: 1000, h: 800 };
    assert!(grid.picker_fits(far));
    assert_eq!(
        grid.handle_message(PICKER, WM_KEYDOWN, VK_LEFT as usize, 0, far),
        Err(DispatchError::Geometry)
    );
    assert_eq!(grid.tiles, before);
    assert_eq!(grid.columns(), 3);
    assert!(grid.tile(0, 2).selected);
}

#[test]
fn function_keys_ask_for_a_profile() {
    let mut grid = picker();
    let names = ["Default", "Profile2", "Profile3", "Profile4", "Profile5", "Profile6"];
    for (key, name) in [VK_F1, VK_F2, VK_F3, VK_F4, VK_F5, VK_F6].into_iter().zip(names) {
        assert_eq!(
            send(&mut grid, WM_KEYUP, key, 0),
            Ok(vec![Action::Send(Event::ProfileChange(name))])
        );
        assert_eq!(send(&mut grid, WM_KEYDOWN, key, 0), Ok(vec![]));
    }
    assert_eq!(send(&mut grid, WM_KEYUP, 0x76, 0), Ok(vec![]));
}

#[test]
fn mouse_move_tracks_highlights_and_repaints() {
    let mut grid = picker();
    assert_eq!(
        send(&mut grid, WM_MOUSEMOVE, 0, tile(0, 1)),
        Ok(vec![
            Action::Send(Event::TrackMouse(PICKER)),
            Action::Send(Event::HighlightZone(Rect { x: 505, y: 10, w: 485, h: 385 })),
            face(),
        ])
    );
    assert!(grid.tile(0, 1).hovered);
    // the same point again: only the tracking is asked for
    assert_eq!(
        send(&mut grid, WM_MOUSEMOVE, 0, tile(0, 1)),
        Ok(vec![Action::Send(Event::TrackMouse(PICKER))])
    );
}

#[test]
fn mouse_move_is_turned_down_when_the_zone_does_not_fit() {
    let mut grid = picker();
    let far = Rect { x: i32::MAX, y: 0, w: 1000, h: 800 };
    assert_eq!(
        grid.handle_message(PICKER, WM_MOUSEMOVE, 0, tile(0, 0), far),
        Err(DispatchError::Geometry)
    );
    assert!(!grid.tile(0, 0).hovered);
    assert_eq!(grid.hovered_tile, None);
    // off the tiles there is no zone to compute
    assert_eq!(
        grid.handle_message(PICKER, WM_MOUSEMOVE, 0, at(1, 1), far),
        Ok(vec![Action::Send(Event::TrackMouse(PICKER))])
    );
}

#[test]
fn button_down_selects_and_holds() {
    let mut grid = picker();
    assert_eq!(send(&mut grid, WM_LBUTTONDOWN, 0, tile(1, 1)), Ok(vec![face()]));
    assert!(grid.cursor_down);
    assert_eq!(grid.selected_tile, Some((1, 1)));
    // while the button is held the selection is locked
    assert_eq!(send(&mut grid, WM_LBUTTONDOWN, 0, tile(0, 0)), Ok(vec![]));
    assert_eq!(grid.selected_tile, Some((1, 1)));
}

#[test]
fn drag_and_release_places_the_active_window() {
    let mut grid = picker();
    send(&mut grid, WM_LBUTTONDOWN, 0, tile(0, 0)).unwrap();
    assert_eq!(
        send(&mut grid, WM_MOUSEMOVE, 0, tile(1, 0)),
        Ok(vec![
            Action::Send(Event::TrackMouse(PICKER)),
            Action::Send(Event::HighlightZone(Rect { x: 10, y: 10, w: 485, h: 780 })),
            face(),
        ])
    );
    assert_eq!(
        send(&mut grid, WM_LBUTTONUP, 0, tile(1, 0)),
        Ok(vec![
            Action::Place { window: Window(50), area: Rect { x: 10, y: 10, w: 485, h: 780 } },
            face(),
        ])
    );
    assert!(!grid.cursor_down);
    assert!(grid.tiles.iter().flatten().all(|t| !t.selected));
}

#[test]
fn release_without_selection_asks_for_nothing() {
    let mut grid = picker();
    grid.cursor_down = true;
    assert_eq!(send(&mut grid, WM_LBUTTONUP, 0, 0), Ok(vec![]));
    assert!(!grid.cursor_down);
}

#[test]
fn release_of_what_is_remembered_only_repaints() {
    let mut grid = picker();
    grid.previous_resize = Some((Window(50), Rect { x: 10, y: 10, w: 485, h: 385 }));
    send(&mut grid, WM_LBUTTONDOWN, 0, tile(0, 0)).unwrap();
    assert_eq!(send(&mut grid, WM_LBUTTONUP, 0, tile(0, 0)), Ok(vec![face()]));
}

#[test]
fn mouse_leave_unhighlights_and_folds_the_preview() {
    let mut grid = picker();
    send(&mut grid, WM_MOUSEMOVE, 0, tile(0, 0)).unwrap();
    assert_eq!(
        send(&mut grid, WM_MOUSELEAVE, 0, 0),
        Ok(vec![
            Action::Send(Event::MouseLeft),
            Action::Send(Event::HighlightZone(Rect { x: 0, y: 0, w: 0, h: 0 })),
            face(),
        ])
    );
    assert!(grid.tiles.iter().flatten().all(|t| !t.hovered));
    assert_eq!(grid.hovered_tile, Some((0, 0)));
}

#[test]
fn other_messages_change_nothing() {
    let mut grid = picker();
    assert_eq!(send(&mut grid, 0x0001, 5, 5), Ok(vec![]));
    assert_eq!(send(&mut grid, WM_KEYDOWN, 0x41, 0), Ok(vec![]));
    assert_eq!((grid.rows(), grid.columns()), (2, 2));
}

#[test]
fn place_moves_the_window_and_closes_in_quick_mode() {
    let mut grid = picker();
    let area = Rect { x: 10, y: 10, w: 485, h: 385 };
    let target = Rect { x: 3, y: 10, w: 499, h: 394 };
    assert_eq!(
        grid.place(Window(50), area, (7, 9)),
        Ok(vec![Action::SetPos { window: Window(50), rect: target, insert_after: None }])
    );
    assert_eq!(grid.previous_resize, Some((Window(50), target)));
    grid.quick_resize = true;
    assert_eq!(
        grid.place(Window(50), area, (7, 9)),
        Ok(vec![
            Action::SetPos { window: Window(50), rect: target, insert_after: None },
            Action::Send(Event::CloseWindows),
        ])
    );
    grid.previous_resize = None;
    assert_eq!(grid.place(Window(50), area, (i32::MAX, 0)), Err(DispatchError::Geometry));
    assert_eq!(grid.previous_resize, None);
}
