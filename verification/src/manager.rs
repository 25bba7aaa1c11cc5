//! The tiling manager: holds the grid and the handles of the picker's
//! windows, and decides for each event what becomes of them and what the
//! native layer is to do.

use vstd::prelude::*;

use crate::event::{Action, Event, HotkeyType, LISTENERS};
use crate::grid::{Grid, DEFAULT_BORDER_MARGINS, DEFAULT_ZONE_MARGINS};
use crate::model::GridView;
use crate::rect::{rect_of, Rect};
use crate::window::Window;

verus! {

/// What the native layer reads off the desktop just before an event is
/// handled.
#[derive(Debug, Clone, Copy, PartialEq, Eq, Structural)]
pub struct Surroundings {
    /// The window in the foreground.
    pub foreground: Window,
    /// The work area of the active monitor.
    pub work_area: Rect,
}

/// Why an event was turned down. The manager is then as it was before.
#[derive(Debug, Clone, Copy, PartialEq, Eq, Structural)]
pub enum DispatchError {
    /// The event needs the grid window, and there is none.
    NoGridWindow,
    /// The event needs the active window, and there is none.
    NoActiveWindow,
    /// A rectangle that the event asks for does not fit the coordinate
    /// range.
    Geometry,
}

impl DispatchError {
    /// What went wrong, in words.
    pub fn message(&self) -> (text: &'static str)
        ensures
            text == match *self {
                DispatchError::NoGridWindow => "there is no grid window",
                DispatchError::NoActiveWindow => "there is no active window",
                DispatchError::Geometry => "a rectangle does not fit the coordinate range",
            },
    {
        match self {
            DispatchError::NoGridWindow => "there is no grid window",
            DispatchError::NoActiveWindow => "there is no active window",
            DispatchError::Geometry => "a rectangle does not fit the coordinate range",
        }
    }
}

/// The tiling manager.
#[derive(Debug)]
pub struct TilingManager {
    /// The grid of the picker
    pub grid: Grid,
    /// Distance between windows in pixels
    pub margin: u8,
    /// Distance between monitor edge and windows in pixels
    pub padding: u8,
    /// The window that previews the hovered zone
    pub preview_window: Option<Window>,
    /// The window that shows the picker
    pub grid_window: Option<Window>,
    /// Whether the system has been asked to tell when the mouse leaves the
    /// grid window
    pub track_mouse: bool,
}

/// What a tiling manager is, as plain mathematical data.
pub struct ManagerView {
    pub grid: GridView,
    pub margin: u8,
    pub padding: u8,
    pub preview_window: Option<Window>,
    pub grid_window: Option<Window>,
    pub track_mouse: bool,
}

/// The window, or the handle that names none.
pub open spec fn window_or_null(window: Option<Window>) -> Window {
    match window {
        Some(w) => w,
        None => Window(0),
    }
}

impl ManagerView {
    /// The invariant of every manager: a sound grid.
    pub open spec fn wf(self) -> bool {
        self.grid.wf()
    }

    /// Whether the picker is open: both of its windows exist.
    pub open spec fn picker_open(self) -> bool {
        self.preview_window is Some && self.grid_window is Some
    }

    /// The manager with a new grid, to which the active window, the last
    /// placement and the quick mode are carried over.
    pub open spec fn with_grid_rebuilt(self) -> ManagerView {
        ManagerView { grid: self.grid.rebuilt(self.margin as int, self.padding as int), ..self }
    }

    /// What a hotkey makes of the manager and asks of the native layer.
    pub open spec fn hotkey_step(self, hotkey: HotkeyType, env: Surroundings) -> Result<
        (ManagerView, Seq<Action>),
        DispatchError,
    > {
        match hotkey {
            HotkeyType::Main => Ok(
                (
                    self,
                    seq![
                        Action::Send(
                            if self.picker_open() {
                                Event::CloseWindows
                            } else {
                                Event::InitializeWindows
                            },
                        ),
                    ],
                ),
            ),
            HotkeyType::QuickResize => Ok(
                (
                    ManagerView { grid: GridView { quick_resize: true, ..self.grid }, ..self },
                    seq![Action::Send(Event::InitializeWindows)],
                ),
            ),
            HotkeyType::Maximize => if self.grid_window is Some {
                match self.grid.active_window {
                    Some(window) => Ok((self, seq![Action::Measure(window)])),
                    None => Err(DispatchError::NoActiveWindow),
                }
            } else {
                Ok(
                    (
                        ManagerView {
                            grid: GridView { active_window: Some(env.foreground), ..self.grid },
                            ..self
                        },
                        seq![Action::Measure(env.foreground)],
                    ),
                )
            },
            HotkeyType::Minimize => Ok((self, seq![Action::Minimize(env.foreground)])),
        }
    }

    /// What a change of the monitor or of the profile makes of the manager:
    /// the grid is rebuilt and the grid window centred on the work area.
    pub open spec fn relocate_step(self, env: Surroundings) -> Result<
        (ManagerView, Seq<Action>),
        DispatchError,
    > {
        let grid = GridView {
            grid_window: self.grid_window,
            ..self.grid.rebuilt(self.margin as int, self.padding as int)
        };
        match self.grid_window {
            None => Err(DispatchError::NoGridWindow),
            Some(window) => if grid.centered(env.work_area@).representable() {
                Ok(
                    (
                        ManagerView { grid, ..self },
                        seq![
                            Action::SetPos {
                                window,
                                rect: rect_of(grid.centered(env.work_area@)),
                                insert_after: None,
                            },
                        ],
                    ),
                )
            } else {
                Err(DispatchError::Geometry)
            },
        }
    }

    /// What an event makes of the manager and asks of the native layer, or
    /// why the event is turned down.
    pub open spec fn step(self, event: Event, env: Surroundings) -> Result<
        (ManagerView, Seq<Action>),
        DispatchError,
    > {
        match event {
            Event::InitializeWindows => {
                let rebuilt = self.with_grid_rebuilt();
                if rebuilt.grid.centered(env.work_area@).representable() {
                    Ok(
                        (
                            rebuilt,
                            seq![
                                Action::SpawnGridWindow {
                                    area: rect_of(rebuilt.grid.centered(env.work_area@)),
                                },
                            ],
                        ),
                    )
                } else {
                    Err(DispatchError::Geometry)
                }
            },
            Event::GridWindow(window) => Ok(
                (
                    ManagerView {
                        grid_window: Some(window),
                        grid: GridView {
                            grid_window: Some(window),
                            active_window: Some(env.foreground),
                            ..self.grid
                        },
                        ..self
                    },
                    seq![Action::SpawnMonitorPoll, Action::SpawnPreviewWindow],
                ),
            ),
            Event::PreviewWindow(window) => match self.grid_window {
                Some(grid_window) => Ok(
                    (
                        ManagerView { preview_window: Some(window), ..self },
                        seq![Action::SpawnForegroundHook, Action::ShowWindow(grid_window)],
                    ),
                ),
                None => Err(DispatchError::NoGridWindow),
            },
            Event::HighlightZone(rect) => Ok(
                (
                    self,
                    seq![
                        Action::SetPos {
                            window: window_or_null(self.preview_window),
                            rect,
                            insert_after: Some(window_or_null(self.grid_window)),
                        },
                    ],
                ),
            ),
            Event::HotkeyPressed(hotkey) => self.hotkey_step(hotkey, env),
            Event::TrackMouse(window) => if self.track_mouse {
                Ok((self, Seq::empty()))
            } else {
                Ok((ManagerView { track_mouse: true, ..self }, seq![Action::TrackMouseLeave(window)]))
            },
            Event::MouseLeft => Ok((ManagerView { track_mouse: false, ..self }, Seq::empty())),
            Event::ActiveWindowChange(window) => Ok(
                (ManagerView { grid: self.grid.foreground_changed(window), ..self }, Seq::empty()),
            ),
            Event::MonitorChange => self.relocate_step(env),
            Event::ProfileChange(_) => self.relocate_step(env),
            Event::CloseWindows => Ok(
                (
                    ManagerView {
                        preview_window: None,
                        grid_window: None,
                        grid: self.grid.reset(),
                        track_mouse: false,
                        ..self
                    },
                    seq![Action::SignalClose { copies: LISTENERS }],
                ),
            ),
        }
    }

    /// What the measurements of a window make of the manager once the
    /// maximize key has been pressed: the window is sent to its target, and
    /// where it stood is remembered.
    pub open spec fn maximize_step(
        self,
        window: Window,
        current: Rect,
        border: (i32, i32),
        work_area: Rect,
    ) -> Result<(ManagerView, Action), DispatchError> {
        let b = (border.0 as int, border.1 as int);
        if self.grid.maximized_area(b, work_area@).representable() {
            Ok(
                (
                    ManagerView { grid: self.grid.maximized(window, current), ..self },
                    Action::SetPos {
                        window,
                        rect: rect_of(self.grid.maximize_target(current@, b, work_area@)),
                        insert_after: None,
                    },
                ),
            )
        } else {
            Err(DispatchError::Geometry)
        }
    }
}

impl View for TilingManager {
    type V = ManagerView;

    open spec fn view(&self) -> ManagerView {
        ManagerView {
            grid: self.grid@,
            margin: self.margin,
            padding: self.padding,
            preview_window: self.preview_window,
            grid_window: self.grid_window,
            track_mouse: self.track_mouse,
        }
    }
}

impl TilingManager {
    /// A manager with no window open, whose grids leave `margin` pixels
    /// between zones and `padding` pixels around them.
    pub fn new(margin: u8, padding: u8) -> (manager: TilingManager)
        ensures
            manager@.wf(),
            manager@ == (ManagerView {
                grid: GridView::fresh(margin as int, padding as int),
                margin,
                padding,
                preview_window: None,
                grid_window: None,
                track_mouse: false,
            }),
    {
        TilingManager {
            grid: Grid::with_margins(margin, padding),
            margin,
            padding,
            preview_window: None,
            grid_window: None,
            track_mouse: false,
        }
    }

    /// Handles one event to the end: changes the manager and says what the
    /// native layer is to do, in order. An event that cannot be handled is
    /// turned down and leaves the manager as it was.
    pub fn handle_event(&mut self, event: Event, env: Surroundings) -> (outcome: Result<
        Vec<Action>,
        DispatchError,
    >)
        ensures
            match outcome {
                Ok(actions) => old(self)@.step(event, env) == Ok::<
                    (ManagerView, Seq<Action>),
                    DispatchError,
                >((final(self)@, actions@)),
                Err(e) => old(self)@.step(event, env) == Err::<
                    (ManagerView, Seq<Action>),
                    DispatchError,
                >(e) && final(self)@ == old(self)@,
            },
            old(self)@.wf() ==> final(self)@.wf(),
    {
        let mut actions: Vec<Action> = Vec::new();
        match event {
            Event::PreviewWindow(window) => {
                match self.grid_window {
                    Some(grid_window) => {
                        self.preview_window = Some(window);
                        actions.push(Action::SpawnForegroundHook);
                        actions.push(Action::ShowWindow(grid_window));
                        assert(actions@ =~= seq![
                            Action::SpawnForegroundHook,
                            Action::ShowWindow(grid_window),
                        ]);
                    },
                    None => {
                        return Err(DispatchError::NoGridWindow);
                    },
                }
            },
            Event::GridWindow(window) => {
                self.grid_window = Some(window);
                self.grid.grid_window = Some(window);
                self.grid.active_window = Some(env.foreground);
                actions.push(Action::SpawnMonitorPoll);
                actions.push(Action::SpawnPreviewWindow);
                assert(actions@ =~= seq![Action::SpawnMonitorPoll, Action::SpawnPreviewWindow]);
            },
            Event::HighlightZone(rect) => {
                let preview_window = match self.preview_window {
                    Some(w) => w,
                    None => Window::null(),
                };
                let grid_window = match self.grid_window {
                    Some(w) => w,
                    None => Window::null(),
                };
                actions.push(
                    Action::SetPos { window: preview_window, rect, insert_after: Some(grid_window) },
                );
                assert(actions@ =~= seq![
                    Action::SetPos { window: preview_window, rect, insert_after: Some(grid_window) },
                ]);
            },
            Event::HotkeyPressed(hotkey_type) => {
                return self.handle_hotkey(hotkey_type, env);
            },
            Event::TrackMouse(window) => {
                if !self.track_mouse {
                    actions.push(Action::TrackMouseLeave(window));
                    self.track_mouse = true;
                    assert(actions@ =~= seq![Action::TrackMouseLeave(window)]);
                } else {
                    assert(actions@ =~= Seq::empty());
                }
            },
            Event::MouseLeft => {
                self.track_mouse = false;
                assert(actions@ =~= Seq::empty());
            },
            Event::ActiveWindowChange(window) => {
                self.grid.foreground_changed(window);
                assert(actions@ =~= Seq::empty());
            },
            Event::MonitorChange => {
                return self.relocate(env);
            },
            Event::ProfileChange(_) => {
                return self.relocate(env);
            },
            Event::InitializeWindows => {
                let grid = self.grid.rebuilt(self.margin, self.padding);
                if !grid.picker_fits(env.work_area) {
                    return Err(DispatchError::Geometry);
                }
                self.grid = grid;
                let area = self.grid.centered_rect(env.work_area);
                actions.push(Action::SpawnGridWindow { area });
                assert(actions@ =~= seq![Action::SpawnGridWindow { area }]);
            },
            Event::CloseWindows => {
                self.preview_window = None;
                self.grid_window = None;
                actions.push(Action::SignalClose { copies: LISTENERS });
                self.grid.reset();
                self.track_mouse = false;
                assert(actions@ =~= seq![Action::SignalClose { copies: LISTENERS }]);
            },
        }
        Ok(actions)
    }

    /// Handles a hotkey: the main key opens the picker or closes it, the
    /// quick key opens it for one placement, the maximize key asks for the
    /// measurements of the window to maximize, the minimize key minimizes
    /// the window in the foreground.
    pub fn handle_hotkey(&mut self, hotkey: HotkeyType, env: Surroundings) -> (outcome: Result<
        Vec<Action>,
        DispatchError,
    >)
        ensures
            match outcome {
                Ok(actions) => old(self)@.hotkey_step(hotkey, env) == Ok::<
                    (ManagerView, Seq<Action>),
                    DispatchError,
                >((final(self)@, actions@)),
                Err(e) => old(self)@.hotkey_step(hotkey, env) == Err::<
                    (ManagerView, Seq<Action>),
                    DispatchError,
                >(e) && final(self)@ == old(self)@,
            },
            old(self)@.wf() ==> final(self)@.wf(),
    {
        let mut actions: Vec<Action> = Vec::new();
        match hotkey {
            HotkeyType::Main => {
                let event = if self.preview_window.is_some() && self.grid_window.is_some() {
                    Event::CloseWindows
                } else {
                    Event::InitializeWindows
                };
                actions.push(Action::Send(event));
                assert(actions@ =~= seq![Action::Send(event)]);
            },
            HotkeyType::QuickResize => {
                actions.push(Action::Send(Event::InitializeWindows));
                self.grid.quick_resize = true;
                assert(actions@ =~= seq![Action::Send(Event::InitializeWindows)]);
            },
            HotkeyType::Maximize => {
                let window = if self.grid_window.is_some() {
                    match self.grid.active_window {
                        Some(window) => window,
                        None => {
                            return Err(DispatchError::NoActiveWindow);
                        },
                    }
                } else {
                    self.grid.active_window = Some(env.foreground);
                    env.foreground
                };
                actions.push(Action::Measure(window));
                assert(actions@ =~= seq![Action::Measure(window)]);
            },
            HotkeyType::Minimize => {
                actions.push(Action::Minimize(env.foreground));
                assert(actions@ =~= seq![Action::Minimize(env.foreground)]);
            },
        }
        Ok(actions)
    }

    /// The monitor or the profile has changed: the grid is rebuilt and the
    /// grid window centred on the work area.
    pub fn relocate(&mut self, env: Surroundings) -> (outcome: Result<Vec<Action>, DispatchError>)
        ensures
            match outcome {
                Ok(actions) => old(self)@.relocate_step(env) == Ok::<
                    (ManagerView, Seq<Action>),
                    DispatchError,
                >((final(self)@, actions@)),
                Err(e) => old(self)@.relocate_step(env) == Err::<
                    (ManagerView, Seq<Action>),
                    DispatchError,
                >(e) && final(self)@ == old(self)@,
            },
            old(self)@.wf() ==> final(self)@.wf(),
    {
        let window = match self.grid_window {
            Some(window) => window,
            None => {
                return Err(DispatchError::NoGridWindow);
            },
        };
        let mut grid = self.grid.rebuilt(self.margin, self.padding);
        grid.grid_window = self.grid_window;
        if !grid.picker_fits(env.work_area) {
            return Err(DispatchError::Geometry);
        }
        self.grid = grid;
        let target = self.grid.reposition(env.work_area);
        let mut actions: Vec<Action> = Vec::new();
        actions.push(Action::SetPos { window: target.0, rect: target.1, insert_after: None });
        assert(actions@ =~= seq![
            Action::SetPos { window: target.0, rect: target.1, insert_after: None },
        ]);
        Ok(actions)
    }

    /// The second step of the maximize key: given where `window` stood
    /// before it was restored and how wide its invisible border is, says
    /// where the window goes and remembers where it stood.
    pub fn maximize(
        &mut self,
        window: Window,
        current: Rect,
        border: (i32, i32),
        work_area: Rect,
    ) -> (outcome: Result<Action, DispatchError>)
        requires
            old(self)@.wf(),
        ensures
            match outcome {
                Ok(action) => old(self)@.maximize_step(window, current, border, work_area) == Ok::<
                    (ManagerView, Action),
                    DispatchError,
                >((final(self)@, action)),
                Err(e) => old(self)@.maximize_step(window, current, border, work_area) == Err::<
                    (ManagerView, Action),
                    DispatchError,
                >(e) && final(self)@ == old(self)@,
            },
            final(self)@.wf(),
    {
        if !self.grid.maximize_fits(border, work_area) {
            return Err(DispatchError::Geometry);
        }
        let rect = self.grid.maximize(window, current, border, work_area);
        Ok(Action::SetPos { window, rect, insert_after: None })
    }
}

impl Default for TilingManager {
    /// Ten pixels between zones and ten around them.
    fn default() -> (manager: TilingManager)
        ensures
            manager@.wf(),
            manager@ == (ManagerView {
                grid: GridView::fresh(DEFAULT_ZONE_MARGINS as int, DEFAULT_BORDER_MARGINS as int),
                margin: DEFAULT_ZONE_MARGINS,
                padding: DEFAULT_BORDER_MARGINS,
                preview_window: None,
                grid_window: None,
                track_mouse: false,
            }),
    {
        TilingManager::new(DEFAULT_ZONE_MARGINS, DEFAULT_BORDER_MARGINS)
    }
}

} // verus!
