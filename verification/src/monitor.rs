//! Watching which monitor is active, and which window is in the foreground.

use vstd::prelude::*;

use crate::event::Event;
use crate::window::Window;

verus! {

/// Remembers the monitor that was active at the last poll.
#[derive(Debug)]
pub struct MonitorTracker {
    /// The identity of the monitor seen last.
    pub previous: String,
}

impl MonitorTracker {
    /// Starts from the monitor that is active now.
    pub fn new(current: String) -> (tracker: MonitorTracker)
        ensures
            tracker.previous@ == current@,
    {
        MonitorTracker { previous: current }
    }

    /// Takes the identity of the monitor that is active now. Reports a
    /// change exactly when it differs from the one seen last, and remembers
    /// it.
    pub fn poll(&mut self, current: String) -> (event: Option<Event>)
        ensures
            final(self).previous@ == current@,
            event == if current@ != old(self).previous@ {
                Some(Event::MonitorChange)
            } else {
                None
            },
    {
        if current != self.previous {
            self.previous = current;
            Some(Event::MonitorChange)
        } else {
            None
        }
    }
}

/// What the foreground hook reports when `window` comes to the foreground:
/// the change of the active window, unless the window is the picker itself.
pub fn foreground_event(window: Window, grid_window: Option<Window>) -> (event: Option<Event>)
    ensures
        event == if grid_window == Some(window) {
            None
        } else {
            Some(Event::ActiveWindowChange(window))
        },
{
    let is_picker = match grid_window {
        Some(picker) => picker == window,
        None => false,
    };
    if is_picker {
        None
    } else {
        Some(Event::ActiveWindowChange(window))
    }
}

} // verus!
