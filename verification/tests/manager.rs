use wtm::event::{Action, Event, HotkeyType, LISTENERS};
use wtm::manager::{DispatchError, Surroundings, TilingManager};
use wtm::rect::Rect;
use wtm::tile::Tile;
use wtm::window::Window;

fn env() -> Surroundings {
    Surroundings { foreground: Window(50), work_area: Rect { x: 0, y: 0, w: 1000, h: 800 } }
}

fn open_picker(manager: &mut TilingManager) {
    manager.handle_event(Event::InitializeWindows, env()).unwrap();
    manager.handle_event(Event::GridWindow(Window(1)), env()).unwrap();
    manager.handle_event(Event::PreviewWindow(Window(2)), env()).unwrap();
}

#[test]
fn default_manager_has_no_windows() {
    let manager = TilingManager::default();
    assert_eq!((manager.margin, manager.padding), (10, 10));
    assert_eq!(manager.preview_window, None);
    assert_eq!(manager.grid_window, None);
    assert!(!manager.track_mouse);
    assert_eq!((manager.grid.zone_margins, manager.grid.border_margins), (10, 10));
}

#[test]
fn initialize_windows_rebuilds_the_grid_and_spawns_the_picker() {
    let mut manager = TilingManager::new(4, 6);
    manager.grid.add_row();
    manager.grid.quick_resize = true;
    manager.grid.shift_down = true;
    manager.grid.active_window = Some(Window(9));
    manager.grid.previous_resize = Some((Window(9), Rect { x: 1, y: 2, w: 3, h: 4 }));
    let actions = manager.handle_event(Event::InitializeWindows, env());
    assert_eq!(
        actions,
        Ok(vec![Action::SpawnGridWindow { area: Rect { x: 448, y: 348, w: 105, h: 105 } }])
    );
    assert_eq!((manager.grid.rows(), manager.grid.columns()), (2, 2));
    assert_eq!((manager.grid.zone_margins, manager.grid.border_margins), (4, 6));
    assert!(manager.grid.quick_resize);
    assert!(!manager.grid.shift_down);
    assert_eq!(manager.grid.active_window, Some(Window(9)));
    assert_eq!(manager.grid.previous_resize, Some((Window(9), Rect { x: 1, y: 2, w: 3, h: 4 })));
}

#[test]
fn initialize_windows_is_turned_down_when_the_picker_does_not_fit() {
    let mut manager = TilingManager::default();
    manager.grid.add_row();
    let far = Surroundings {
        foreground: Window(50),
        work_area: Rect { x: i32::MAX, y: 0, w: 1000, h: 800 },
    };
    assert_eq!(manager.handle_event(Event::InitializeWindows, far), Err(DispatchError::Geometry));
    assert_eq!(manager.grid.rows(), 3);
}

#[test]
fn grid_window_records_the_handle_and_the_foreground_window() {
    let mut manager = TilingManager::default();
    let actions = manager.handle_event(Event::GridWindow(Window(1)), env());
    assert_eq!(actions, Ok(vec![Action::SpawnMonitorPoll, Action::SpawnPreviewWindow]));
    assert_eq!(manager.grid_window, Some(Window(1)));
    assert_eq!(manager.grid.grid_window, Some(Window(1)));
    assert_eq!(manager.grid.active_window, Some(Window(50)));
}

#[test]
fn preview_window_shows_the_grid_window() {
    let mut manager = TilingManager::default();
    assert_eq!(
        manager.handle_event(Event::PreviewWindow(Window(2)), env()),
        Err(DispatchError::NoGridWindow)
    );
    assert_eq!(manager.preview_window, None);
    manager.handle_event(Event::GridWindow(Window(1)), env()).unwrap();
    let actions = manager.handle_event(Event::PreviewWindow(Window(2)), env());
    assert_eq!(actions, Ok(vec![Action::SpawnForegroundHook, Action::ShowWindow(Window(1))]));
    assert_eq!(manager.preview_window, Some(Window(2)));
}

#[test]
fn highlight_zone_moves_the_preview_behind_the_grid_window() {
    let mut manager = TilingManager::default();
    let rect = Rect { x: 10, y: 10, w: 485, h: 385 };
    assert_eq!(
        manager.handle_event(Event::HighlightZone(rect), env()),
        Ok(vec![Action::SetPos { window: Window(0), rect, insert_after: Some(Window(0)) }])
    );
    open_picker(&mut manager);
    assert_eq!(
        manager.handle_event(Event::HighlightZone(rect), env()),
        Ok(vec![Action::SetPos { window: Window(2), rect, insert_after: Some(Window(1)) }])
    );
}

#[test]
fn main_hotkey_opens_and_closes_the_picker() {
    let mut manager = TilingManager::default();
    assert_eq!(
        manager.handle_event(Event::HotkeyPressed(HotkeyType::Main), env()),
        Ok(vec![Action::Send(Event::InitializeWindows)])
    );
    manager.handle_event(Event::GridWindow(Window(1)), env()).unwrap();
    // the preview window is still missing
    assert_eq!(
        manager.handle_event(Event::HotkeyPressed(HotkeyType::Main), env()),
        Ok(vec![Action::Send(Event::InitializeWindows)])
    );
    manager.handle_event(Event::PreviewWindow(Window(2)), env()).unwrap();
    assert_eq!(
        manager.handle_event(Event::HotkeyPressed(HotkeyType::Main), env()),
        Ok(vec![Action::Send(Event::CloseWindows)])
    );
}

#[test]
fn quick_resize_hotkey_opens_the_picker_in_quick_mode() {
    let mut manager = TilingManager::default();
    assert_eq!(
        manager.handle_hotkey(HotkeyType::QuickResize, env()),
        Ok(vec![Action::Send(Event::InitializeWindows)])
    );
    assert!(manager.grid.quick_resize);
    // the mode survives the rebuild of the grid
    manager.handle_event(Event::InitializeWindows, env()).unwrap();
    assert!(manager.grid.quick_resize);
}

#[test]
fn maximize_hotkey_measures_the_foreground_window_when_the_picker_is_closed() {
    let mut manager = TilingManager::default();
    assert_eq!(
        manager.handle_event(Event::HotkeyPressed(HotkeyType::Maximize), env()),
        Ok(vec![Action::Measure(Window(50))])
    );
    assert_eq!(manager.grid.active_window, Some(Window(50)));
}

#[test]
fn maximize_hotkey_measures_the_active_window_when_the_picker_is_open() {
    let mut manager = TilingManager::default();
    open_picker(&mut manager);
    manager.handle_event(Event::ActiveWindowChange(Window(77)), env()).unwrap();
    assert_eq!(
        manager.handle_event(Event::HotkeyPressed(HotkeyType::Maximize), env()),
        Ok(vec![Action::Measure(Window(77))])
    );
    manager.grid.active_window = None;
    assert_eq!(
        manager.handle_event(Event::HotkeyPressed(HotkeyType::Maximize), env()),
        Err(DispatchError::NoActiveWindow)
    );
}

#[test]
fn minimize_hotkey_minimizes_the_foreground_window() {
    let mut manager = TilingManager::default();
    assert_eq!(
        manager.handle_hotkey(HotkeyType::Minimize, env()),
        Ok(vec![Action::Minimize(Window(50))])
    );
}

#[test]
fn maximize_step_toggles_between_max_and_start() {
    let mut manager = TilingManager::default();
    let start = Rect { x: 100, y: 100, w: 640, h: 480 };
    let area = env().work_area;
    let first = manager.maximize(Window(50), start, (8, 8), area);
    let max = Rect { x: 2, y: 10, w: 996, h: 788 };
    assert_eq!(first, Ok(Action::SetPos { window: Window(50), rect: max, insert_after: None }));
    let second = manager.maximize(Window(50), max, (8, 8), area);
    assert_eq!(second, Ok(Action::SetPos { window: Window(50), rect: start, insert_after: None }));
    assert_eq!(
        manager.maximize(Window(50), start, (i32::MAX, 0), area),
        Err(DispatchError::Geometry)
    );
    assert_eq!(manager.grid.previous_resize, Some((Window(50), max)));
}

#[test]
fn track_mouse_asks_only_once() {
    let mut manager = TilingManager::default();
    assert_eq!(
        manager.handle_event(Event::TrackMouse(Window(1)), env()),
        Ok(vec![Action::TrackMouseLeave(Window(1))])
    );
    assert!(manager.track_mouse);
    assert_eq!(manager.handle_event(Event::TrackMouse(Window(1)), env()), Ok(vec![]));
    assert_eq!(manager.handle_event(Event::MouseLeft, env()), Ok(vec![]));
    assert!(!manager.track_mouse);
    assert_eq!(
        manager.handle_event(Event::TrackMouse(Window(1)), env()),
        Ok(vec![Action::TrackMouseLeave(Window(1))])
    );
}

#[test]
fn active_window_change_skips_the_picker_itself() {
    let mut manager = TilingManager::default();
    open_picker(&mut manager);
    assert_eq!(manager.handle_event(Event::ActiveWindowChange(Window(1)), env()), Ok(vec![]));
    assert_eq!(manager.grid.active_window, Some(Window(50)));
    manager.handle_event(Event::ActiveWindowChange(Window(60)), env()).unwrap();
    assert_eq!(manager.grid.active_window, Some(Window(60)));
}

#[test]
fn monitor_change_rebuilds_and_recentres() {
    let mut manager = TilingManager::default();
    assert_eq!(
        manager.handle_event(Event::MonitorChange, env()),
        Err(DispatchError::NoGridWindow)
    );
    open_picker(&mut manager);
    manager.grid.add_column();
    manager.grid.previous_resize = Some((Window(50), Rect { x: 1, y: 2, w: 3, h: 4 }));
    let other = Surroundings {
        foreground: Window(50),
        work_area: Rect { x: 1920, y: 0, w: 1280, h: 1024 },
    };
    assert_eq!(
        manager.handle_event(Event::MonitorChange, other),
        Ok(vec![Action::SetPos {
            window: Window(1),
            rect: Rect { x: 2508, y: 460, w: 105, h: 105 },
            insert_after: None
        }])
    );
    assert_eq!(manager.grid.columns(), 2);
    assert_eq!(manager.grid.grid_window, Some(Window(1)));
    assert_eq!(manager.grid.active_window, Some(Window(50)));
    assert_eq!(manager.grid.previous_resize, Some((Window(50), Rect { x: 1, y: 2, w: 3, h: 4 })));
    assert_eq!(
        manager.handle_event(Event::ProfileChange("Profile2"), other),
        Ok(vec![Action::SetPos {
            window: Window(1),
            rect: Rect { x: 2508, y: 460, w: 105, h: 105 },
            insert_after: None
        }])
    );
    let far = Surroundings {
        foreground: Window(50),
        work_area: Rect { x: i32::MAX, y: 0, w: 1000, h: 800 },
    };
    assert_eq!(manager.handle_event(Event::MonitorChange, far), Err(DispatchError::Geometry));
}

#[test]
fn close_windows_clears_the_session_and_keeps_the_memory() {
    let mut manager = TilingManager::default();
    open_picker(&mut manager);
    manager.handle_event(Event::TrackMouse(Window(1)), env()).unwrap();
    manager.grid.select_tile((27, 27));
    manager.grid.highlight_tiles((78, 78), env().work_area);
    manager.grid.quick_resize = true;
    manager.grid.shift_down = true;
    manager.grid.previous_resize = Some((Window(50), Rect { x: 1, y: 2, w: 3, h: 4 }));
    assert_eq!(manager.grid.selected_tile, Some((0, 0)));
    assert_eq!(manager.grid.hovered_tile, Some((1, 1)));

    let actions = manager.handle_event(Event::CloseWindows, env());
    assert_eq!(actions, Ok(vec![Action::SignalClose { copies: 4 }]));
    assert_eq!(LISTENERS, 4);
    assert_eq!(manager.grid.grid_window, None);
    assert_eq!(manager.grid.selected_tile, None);
    assert_eq!(manager.grid.hovered_tile, None);
    assert!(!manager.grid.quick_resize);
    assert!(!manager.grid.shift_down);
    assert_eq!(manager.grid.active_window, Some(Window(50)));
    assert_eq!(manager.grid.previous_resize, Some((Window(50), Rect { x: 1, y: 2, w: 3, h: 4 })));
    assert_eq!(manager.preview_window, None);
    assert_eq!(manager.grid_window, None);
    assert!(!manager.track_mouse);
    assert!(manager.grid.tiles.iter().flatten().all(|t| *t == Tile { selected: false, hovered: false }));
}

#[test]
fn dispatch_errors_say_what_is_missing() {
    assert_eq!(DispatchError::NoGridWindow.message(), "there is no grid window");
    assert_eq!(DispatchError::NoActiveWindow.message(), "there is no active window");
    assert_eq!(
        DispatchError::Geometry.message(),
        "a rectangle does not fit the coordinate range"
    );
}

#[test]
fn relocate_keeps_the_grid_window_in_the_new_grid() {
    let mut manager = TilingManager::default();
    open_picker(&mut manager);
    manager.grid.shift_down = true;
    let actions = manager.relocate(env());
    assert_eq!(
        actions,
        Ok(vec![Action::SetPos {
            window: Window(1),
            rect: Rect { x: 448, y: 348, w: 105, h: 105 },
            insert_after: None
        }])
    );
    assert_eq!(manager.grid.grid_window, Some(Window(1)));
    assert!(!manager.grid.shift_down);
}
