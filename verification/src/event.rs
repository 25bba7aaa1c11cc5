//! What happens around the window manager, and what it asks the native layer
//! to do in return.

use vstd::prelude::*;

use crate::rect::Rect;
use crate::window::Window;

verus! {

/// The commands that a keybind can execute
#[derive(Debug, Clone, Copy, PartialEq, Eq, Structural, Hash)]
pub enum HotkeyType {
    /// Open the grid window and resize as many windows until executed again
    Main,
    /// Quick Resize the current window
    QuickResize,
    /// Maximizes the current window
    Maximize,
    /// Minimizes the current window
    Minimize,
}

/// Everything the dispatch loop reacts to. Each event is handled to the end
/// before the next one is taken.
#[derive(Debug, Clone, Copy, PartialEq)]
pub enum Event {
    /// The preview window has been created
    PreviewWindow(Window),
    /// The grid window has been created
    GridWindow(Window),
    /// Highlight the hovered area over the grid window
    HighlightZone(Rect),
    /// A registered hotkey was pressed
    HotkeyPressed(HotkeyType),
    /// Tracks the mouse over the grid window
    TrackMouse(Window),
    /// The active window changed
    ActiveWindowChange(Window),
    /// A different profile was activated
    ProfileChange(&'static str),
    /// The active monitor changed
    MonitorChange,
    /// Mouse left the Grid window
    MouseLeft,
    /// Draw the grid window
    InitializeWindows,
    /// Close the windows drawn by the window manager
    CloseWindows,
}

/// How many listeners wait for the signal that the picker has closed: the
/// grid window, the preview window, the foreground hook and the monitor
/// poll.
pub const LISTENERS: usize = 4;

/// What the native layer is asked to do. The actions of one reaction are
/// carried out in the order in which they are given.
#[derive(Debug, Clone, Copy, PartialEq)]
pub enum Action {
    /// Create the grid window at `area` and run its message loop until the
    /// close signal comes; report the handle with [`Event::GridWindow`].
    SpawnGridWindow { area: Rect },
    /// Create the preview window and run its message loop until the close
    /// signal comes; report the handle with [`Event::PreviewWindow`].
    SpawnPreviewWindow,
    /// Watch which monitor is active until the close signal comes; report
    /// each change with [`Event::MonitorChange`].
    SpawnMonitorPoll,
    /// Watch which window is in the foreground until the close signal
    /// comes; report each change with [`Event::ActiveWindowChange`].
    SpawnForegroundHook,
    /// Show the window and bring it to the foreground.
    ShowWindow(Window),
    /// Move the window to `rect`, behind `insert_after` in the stacking
    /// order where one is given, without activating it.
    SetPos { window: Window, rect: Rect, insert_after: Option<Window> },
    /// Ask to be told when the mouse leaves the window.
    TrackMouseLeave(Window),
    /// Put the event at the end of the queue.
    Send(Event),
    /// Send the close signal, one copy for each listener.
    SignalClose { copies: usize },
    /// Read the rectangle of the window, restore the window from its
    /// minimized or maximized state, read its invisible border, and hand
    /// all three to the manager's maximize step.
    Measure(Window),
    /// Restore the window, read its invisible border, and hand it with the
    /// window and the area to the grid's commit step.
    Place { window: Window, area: Rect },
    /// Minimize the window.
    Minimize(Window),
    /// Paint the tiles of the grid onto the window.
    Paint(Window),
    /// Mark `area` of the window as stale and have the window painted.
    Invalidate { window: Window, area: Rect },
}

} // verus!
