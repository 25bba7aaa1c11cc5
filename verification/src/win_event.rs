//! Events of the window system that the status bar listens to.

use vstd::prelude::*;

verus! {

/// A window is in the foreground now.
pub const EVENT_SYSTEM_FOREGROUND: u32 = 0x0003;

/// A window has been destroyed.
pub const EVENT_OBJECT_DESTROY: u32 = 0x8001;

/// A window is shown.
pub const EVENT_OBJECT_SHOW: u32 = 0x8002;

/// A window is hidden.
pub const EVENT_OBJECT_HIDE: u32 = 0x8003;

/// The object that an event is about is a window.
pub const OBJID_WINDOW: i32 = 0;

/// What happened to a window.
#[derive(Debug, Clone, Copy, PartialEq, Eq, Structural)]
pub enum WinEventType {
    Destroy,
    Hide,
    Show,
    FocusChange,
}

impl WinEventType {
    /// The kind of event that a code of the window system stands for.
    pub open spec fn of_code(code: u32) -> Option<WinEventType> {
        if code == EVENT_OBJECT_DESTROY {
            Some(WinEventType::Destroy)
        } else if code == EVENT_OBJECT_SHOW {
            Some(WinEventType::Show)
        } else if code == EVENT_SYSTEM_FOREGROUND {
            Some(WinEventType::FocusChange)
        } else if code == EVENT_OBJECT_HIDE {
            Some(WinEventType::Hide)
        } else {
            None
        }
    }

    /// The kind of event that a code of the window system stands for, if it
    /// is one that is listened to.
    pub fn from_u32(v: u32) -> (typ: Option<WinEventType>)
        ensures
            typ == WinEventType::of_code(v),
    {
        if v == EVENT_OBJECT_DESTROY {
            Some(WinEventType::Destroy)
        } else if v == EVENT_OBJECT_SHOW {
            Some(WinEventType::Show)
        } else if v == EVENT_SYSTEM_FOREGROUND {
            Some(WinEventType::FocusChange)
        } else if v == EVENT_OBJECT_HIDE {
            Some(WinEventType::Hide)
        } else {
            None
        }
    }
}

/// What happened, and to which window.
#[derive(Debug, Clone, Copy, PartialEq, Eq, Structural)]
pub struct WinEvent {
    pub typ: WinEventType,
    pub hwnd: i32,
}

impl WinEvent {
    /// The event that the code stands for, about the given window.
    pub fn from_code(code: u32, hwnd: i32) -> (event: Option<WinEvent>)
        ensures
            event == match WinEventType::of_code(code) {
                Some(typ) => Some(WinEvent { typ, hwnd }),
                None => None,
            },
    {
        match WinEventType::from_u32(code) {
            Some(typ) => Some(WinEvent { typ, hwnd }),
            None => None,
        }
    }

    /// What the hook reports of an event of the window system: nothing
    /// unless the event is about a window other than the bar's own and is of
    /// a kind that is listened to.
    pub fn observed(code: u32, hwnd: i32, object_type: i32, own_window: i32) -> (event: Option<
        WinEvent,
    >)
        ensures
            event == if object_type != OBJID_WINDOW || hwnd == own_window {
                None
            } else {
                match WinEventType::of_code(code) {
                    Some(typ) => Some(WinEvent { typ, hwnd }),
                    None => None,
                }
            },
    {
        if object_type != OBJID_WINDOW {
            return None;
        }
        if own_window == hwnd {
            return None;
        }
        WinEvent::from_code(code, hwnd)
    }
}

} // verus!
