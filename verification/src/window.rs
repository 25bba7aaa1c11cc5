//! Window handles as the grid engine sees them: keys that are compared and
//! handed back, never dereferenced.

use vstd::prelude::*;

use crate::rect::Rect;

verus! {

/// An opaque handle of a native window. The operating system owns the window;
/// the handle is only a key for it.
#[derive(Debug, Clone, Copy, PartialEq, Eq, Structural, Hash)]
pub struct Window(pub isize);

impl Window {
    /// The handle that names no window.
    pub fn null() -> (window: Window)
        ensures
            window == Window(0),
    {
        Window(0)
    }

    /// Whether this is the handle that names no window.
    pub fn is_null(self) -> (null: bool)
        ensures
            null == (self.0 == 0),
    {
        self.0 == 0
    }
}

impl Default for Window {
    fn default() -> (window: Window)
        ensures
            window == Window(0),
    {
        Window(0)
    }
}

/// Info about the window
#[derive(Debug, Clone, Copy, PartialEq, Eq, Structural)]
pub struct WindowInfo {
    /// Dimensions of the window
    pub window_rect: Rect,
    /// Dimensions of the client area of the window
    pub client_rect: Rect,
    /// styles
    pub styles: u32,
    /// extended styles
    pub extended_styles: u32,
    /// x borders
    pub x_borders: u32,
    /// y borders
    pub y_borders: u32,
}

impl WindowInfo {
    /// Horizontal part of the invisible border: how far the window's rectangle
    /// reaches beyond the client rectangle in position and in width together.
    pub open spec fn border_x(self) -> int {
        (self.window_rect.x - self.client_rect.x) + (self.window_rect.w - self.client_rect.w)
    }

    /// Vertical part of the invisible border.
    pub open spec fn border_y(self) -> int {
        (self.window_rect.y - self.client_rect.y) + (self.window_rect.h - self.client_rect.h)
    }

    /// Whether both parts of the border fit the coordinate range.
    pub open spec fn border_representable(self) -> bool {
        &&& i32::MIN <= self.border_x() <= i32::MAX
        &&& i32::MIN <= self.border_y() <= i32::MAX
    }

    /// Gets the size of the invisible border of the window, or `None` where
    /// it does not fit the coordinate range.
    pub fn transparent_border(&self) -> (border: Option<(i32, i32)>)
        ensures
            match border {
                Some(b) => self.border_representable() && b.0 == self.border_x() && b.1
                    == self.border_y(),
                None => !self.border_representable(),
            },
    {
        let x: i64 = (self.window_rect.x as i64 - self.client_rect.x as i64) + (
        self.window_rect.w as i64 - self.client_rect.w as i64);
        let y: i64 = (self.window_rect.y as i64 - self.client_rect.y as i64) + (
        self.window_rect.h as i64 - self.client_rect.h as i64);
        if x < i32::MIN as i64 || x > i32::MAX as i64 || y < i32::MIN as i64 || y > i32::MAX as i64 {
            None
        } else {
            Some((x as i32, y as i32))
        }
    }
}

} // verus!
