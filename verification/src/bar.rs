//! The status bar: what its components show and where, and what the bar
//! does when the window system reports an event.

use vstd::prelude::*;

use crate::error::{WinApiError, WinApiResult};
use crate::font::Font;
use crate::model::div_toward_zero;
use crate::rect::Rect;
use crate::win_event::WinEvent;

verus! {

/// The size of the screen.
#[derive(Debug, Clone, Copy, PartialEq, Eq, Structural)]
pub struct Display {
    pub height: i32,
    pub width: i32,
}

/// How the bar looks.
#[derive(Debug, Clone, Copy)]
pub struct BarConfig {
    pub height: i32,
    pub bg_color: i32,
    pub font_name: &'static str,
    pub font_size: i32,
}

impl Default for BarConfig {
    fn default() -> (config: BarConfig)
        ensures
            config.height == 20,
            config.bg_color == 0x2C2427,
            config.font_name == "Consolas",
            config.font_size == 18,
    {
        BarConfig { height: 20, bg_color: 0x2C2427, font_name: "Consolas", font_size: 18 }
    }
}

/// What a component needs to draw itself.
#[derive(Debug, Clone, Copy, PartialEq, Eq, Structural)]
pub struct DrawData {
    pub display: Display,
    pub bg_color: i32,
    pub font: Font,
}

/// Space between a text and the edge of what it is drawn in, in pixels.
pub const TEXT_PADDING: i32 = 10;

/// The colour of the text of every component, as 0x00BBGGRR.
pub const TEXT_COLOR: u32 = 0x00ff_ffff;

/// The clock in the middle of the bar.
#[derive(Debug, Clone, Copy, PartialEq, Eq, Structural)]
pub struct Clock {}

impl Clock {
    /// Milliseconds between two redraws.
    pub fn interval_millis(&self) -> (millis: u64)
        ensures
            millis == 950,
    {
        950
    }

    /// The reason it gives for a redraw.
    pub fn reason(&self) -> (reason: &'static str)
        ensures
            reason == "Time",
    {
        "Time"
    }

    /// How the time is written.
    pub fn format(&self) -> (format: &'static str)
        ensures
            format == "%T",
    {
        "%T"
    }

    /// Left and right edge of the text: centred on the screen, with
    /// padding on either side.
    pub open spec fn spec_text_span(display_width: int, text_width: int) -> (int, int) {
        (
            div_toward_zero(display_width, 2) - div_toward_zero(text_width, 2) - TEXT_PADDING,
            div_toward_zero(display_width, 2) + div_toward_zero(text_width, 2) + TEXT_PADDING,
        )
    }

    /// Left and right edge of a text of the given width, or `None` where
    /// they do not fit the coordinate range.
    pub fn text_span(&self, data: &DrawData, text_width: i32) -> (span: Option<(i32, i32)>)
        ensures
            match span {
                Some(s) => (s.0 as int, s.1 as int) == Clock::spec_text_span(
                    data.display.width as int,
                    text_width as int,
                ),
                None => {
                    let s = Clock::spec_text_span(data.display.width as int, text_width as int);
                    s.0 < i32::MIN || s.0 > i32::MAX || s.1 < i32::MIN || s.1 > i32::MAX
                },
            },
    {
        let half_screen: i64 = (data.display.width / 2) as i64;
        let half_text: i64 = (text_width / 2) as i64;
        let left = half_screen - half_text - TEXT_PADDING as i64;
        let right = half_screen + half_text + TEXT_PADDING as i64;
        if left < i32::MIN as i64 || left > i32::MAX as i64 || right < i32::MIN as i64 || right
            > i32::MAX as i64 {
            None
        } else {
            Some((left as i32, right as i32))
        }
    }
}

/// The date at the right end of the bar.
#[derive(Debug, Clone, Copy, PartialEq, Eq, Structural)]
pub struct Date {}

impl Date {
    /// Milliseconds between two redraws.
    pub fn interval_millis(&self) -> (millis: u64)
        ensures
            millis == 5000,
    {
        5000
    }

    /// The reason it gives for a redraw.
    pub fn reason(&self) -> (reason: &'static str)
        ensures
            reason == "Date",
    {
        "Date"
    }

    /// How the date is written.
    pub fn format(&self) -> (format: &'static str)
        ensures
            format == "%e %b %Y",
    {
        "%e %b %Y"
    }

    /// Left and right edge of the text: it ends one padding before the
    /// right edge of the bar.
    pub open spec fn spec_text_span(bar_right: int, text_width: int) -> (int, int) {
        (bar_right - TEXT_PADDING - text_width, bar_right - TEXT_PADDING)
    }

    /// Left and right edge of a text of the given width in a bar that ends
    /// at `bar_right`, or `None` where they do not fit the coordinate
    /// range.
    pub fn text_span(&self, bar_right: i32, text_width: i32) -> (span: Option<(i32, i32)>)
        ensures
            match span {
                Some(s) => (s.0 as int, s.1 as int) == Date::spec_text_span(
                    bar_right as int,
                    text_width as int,
                ),
                None => {
                    let s = Date::spec_text_span(bar_right as int, text_width as int);
                    s.0 < i32::MIN || s.0 > i32::MAX || s.1 < i32::MIN || s.1 > i32::MAX
                },
            },
    {
        let right: i64 = bar_right as i64 - TEXT_PADDING as i64;
        let left: i64 = right - text_width as i64;
        if left < i32::MIN as i64 || left > i32::MAX as i64 || right < i32::MIN as i64 || right
            > i32::MAX as i64 {
            None
        } else {
            Some((left as i32, right as i32))
        }
    }
}

/// What the bar can show.
#[derive(Debug, Clone, Copy, PartialEq, Eq, Structural)]
pub enum Component {
    Clock(Clock),
    Date(Date),
}

impl Component {
    /// The reason the component gives for a redraw; no two kinds of
    /// component give the same.
    pub open spec fn spec_reason(self) -> &'static str {
        match self {
            Component::Clock(_) => "Time",
            Component::Date(_) => "Date",
        }
    }

    /// Milliseconds between two redraws.
    pub fn interval_millis(&self) -> (millis: u64)
        ensures
            millis == match *self {
                Component::Clock(_) => 950u64,
                Component::Date(_) => 5000u64,
            },
    {
        match self {
            Component::Clock(clock) => clock.interval_millis(),
            Component::Date(date) => date.interval_millis(),
        }
    }

    /// The reason the component gives for a redraw.
    pub fn reason(&self) -> (reason: &'static str)
        ensures
            reason == self.spec_reason(),
    {
        match self {
            Component::Clock(clock) => clock.reason(),
            Component::Date(date) => date.reason(),
        }
    }

    /// How the component writes what it shows.
    pub fn format(&self) -> (format: &'static str)
        ensures
            format == match *self {
                Component::Clock(_) => "%T",
                Component::Date(_) => "%e %b %Y",
            },
    {
        match self {
            Component::Clock(clock) => clock.format(),
            Component::Date(date) => date.format(),
        }
    }
}

/// The components of a bar. No two of them give the same reason for a
/// redraw, so that a reason names its component.
#[derive(Debug)]
pub struct Components {
    pub list: Vec<Component>,
}

impl Components {
    /// No component is there twice.
    pub open spec fn wf(self) -> bool {
        self.list@.no_duplicates()
    }

    /// No components yet.
    pub fn new() -> (components: Components)
        ensures
            components.wf(),
            components.list@ == Seq::<Component>::empty(),
    {
        Components { list: Vec::new() }
    }

    /// Whether the component is there already.
    pub fn has(&self, component: Component) -> (has: bool)
        ensures
            has == self.list@.contains(component),
    {
        let mut i: usize = 0;
        while i < self.list.len()
            invariant
                i <= self.list@.len(),
                forall|k: int| 0 <= k < i ==> self.list@[k] != component,
            decreases self.list@.len() - i,
        {
            if self.list[i] == component {
                return true;
            }
            i += 1;
        }
        false
    }

    /// Adds a component, unless one that gives the same reason is there
    /// already; then the component comes back.
    pub fn with_component(self, component: Component) -> (outcome: Result<Components, Component>)
        requires
            self.wf(),
        ensures
            match outcome {
                Ok(added) => !self.list@.contains(component) && added.list@ == self.list@.push(
                    component,
                ) && added.wf(),
                Err(refused) => self.list@.contains(component) && refused == component,
            },
    {
        if self.has(component) {
            return Err(component);
        }
        let mut list = self.list;
        list.push(component);
        Ok(Components { list })
    }

    /// The component that gives this reason.
    pub fn for_reason(&self, reason: &str) -> (component: Option<Component>)
        ensures
            match component {
                Some(c) => self.list@.contains(c) && c.spec_reason()@ == reason@,
                None => forall|k: int|
                    0 <= k < self.list@.len() ==> (#[trigger] self.list@[k]).spec_reason()@
                        != reason@,
            },
    {
        let wanted = reason.to_owned();
        let mut i: usize = 0;
        while i < self.list.len()
            invariant
                i <= self.list@.len(),
                wanted@ == reason@,
                forall|k: int|
                    0 <= k < i ==> (#[trigger] self.list@[k]).spec_reason()@ != reason@,
            decreases self.list@.len() - i,
        {
            let given = self.list[i].reason().to_owned();
            if given == wanted {
                return Some(self.list[i]);
            }
            i += 1;
        }
        None
    }
}

/// The window is being created.
pub const WM_CREATE: u32 = 0x0001;

/// The window has to be painted.
pub const WM_PAINT: u32 = 0x000F;

/// The window is being closed.
pub const WM_CLOSE: u32 = 0x0010;

/// The cursor is over the window.
pub const WM_SETCURSOR: u32 = 0x0020;

/// What a message means to the window of the bar.
#[derive(Debug, Clone, Copy, PartialEq, Eq, Structural)]
pub enum BarMessage {
    /// The window is gone: forget it.
    Close,
    /// Show the arrow as the cursor.
    SetCursor,
    /// Load the font.
    Create,
    /// Draw the component that asked for it.
    Paint,
    /// Nothing to the bar.
    Other,
}

impl BarMessage {
    /// What the message `msg` to `window` means to the bar. A request to
    /// paint counts only if there is a window.
    pub fn decode(msg: u32, window_is_null: bool) -> (message: BarMessage)
        ensures
            message == if msg == WM_CLOSE {
                BarMessage::Close
            } else if msg == WM_SETCURSOR {
                BarMessage::SetCursor
            } else if msg == WM_CREATE {
                BarMessage::Create
            } else if !window_is_null && msg == WM_PAINT {
                BarMessage::Paint
            } else {
                BarMessage::Other
            },
    {
        if msg == WM_CLOSE {
            BarMessage::Close
        } else if msg == WM_SETCURSOR {
            BarMessage::SetCursor
        } else if msg == WM_CREATE {
            BarMessage::Create
        } else if !window_is_null && msg == WM_PAINT {
            BarMessage::Paint
        } else {
            BarMessage::Other
        }
    }
}

/// Whether the window in the foreground covers the whole desktop.
pub fn is_fullscreen(foreground: Rect, desktop: Rect) -> (full: bool)
    ensures
        full == (foreground@.x == desktop@.x && foreground@.y == desktop@.y && foreground@.x
            + foreground@.w == desktop@.x + desktop@.w && foreground@.y + foreground@.h
            == desktop@.y + desktop@.h),
{
    foreground.x == desktop.x && foreground.y == desktop.y && foreground.w == desktop.w
        && foreground.h == desktop.h
}

/// What sending the request to paint came back with: zero where the
/// window handled it.
pub fn redraw_result(ret: i32) -> (result: WinApiResult<()>)
    ensures
        result == if ret == 0 {
            Ok::<(), WinApiError>(())
        } else {
            Err::<(), WinApiError>(WinApiError::Code(ret))
        },
{
    if ret == 0 {
        Ok(())
    } else {
        Err(WinApiError::Code(ret))
    }
}

/// What the bar reacts to.
#[derive(Debug, Clone, PartialEq)]
pub enum BarEvent {
    /// A component wants to be drawn anew.
    RedrawAppBar(String),
    /// The window system reported something about a window.
    WinEvent(WinEvent),
}

/// What the bar does in return.
#[derive(Debug, Clone, PartialEq)]
pub enum BarAction {
    /// Paint the component that gave this reason.
    Redraw(String),
    /// Hide the bar.
    Hide,
    /// Show the bar.
    Show,
}

/// Decides what the bar does: a component that asks is drawn anew; when
/// the window system reports an event, the bar hides while a window covers
/// the whole desktop and shows otherwise.
pub fn bar_step(event: BarEvent, fullscreen: bool) -> (action: BarAction)
    ensures
        action == match event {
            BarEvent::RedrawAppBar(reason) => BarAction::Redraw(reason),
            BarEvent::WinEvent(_) => if fullscreen {
                BarAction::Hide
            } else {
                BarAction::Show
            },
        },
{
    match event {
        BarEvent::RedrawAppBar(reason) => BarAction::Redraw(reason),
        BarEvent::WinEvent(_) => {
            if fullscreen {
                BarAction::Hide
            } else {
                BarAction::Show
            }
        },
    }
}

} // verus!
