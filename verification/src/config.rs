//! What the user configures.

use vstd::prelude::*;

use crate::event::HotkeyType;
use crate::grid::{DEFAULT_COLUMNS, DEFAULT_ROWS};

verus! {

/// A keybind
#[derive(Debug, Clone)]
pub struct Keybind {
    /// The sequence of key(s) that need to be pressed in combination to execute a command
    pub hotkey: String,
    /// The command that the keybind should execute
    pub typ: HotkeyType,
}

/// The configuration of the window manager
#[derive(Debug, Clone)]
pub struct Config {
    /// Distance between windows in pixels
    pub margin: u8,
    /// Distance between monitor edge and windows in pixels
    pub padding: u8,
    /// Should the program start automatically
    pub auto_start: bool,
    /// A vector of keybinds
    pub keybinds: Vec<Keybind>,
}

/// The shape of the grid that a monitor had under a profile.
#[derive(Debug, Clone, Copy, PartialEq, Eq, Structural)]
pub struct GridConfig {
    pub rows: usize,
    pub columns: usize,
}

impl Default for GridConfig {
    fn default() -> (config: GridConfig)
        ensures
            config == (GridConfig { rows: DEFAULT_ROWS, columns: DEFAULT_COLUMNS }),
    {
        GridConfig { rows: DEFAULT_ROWS, columns: DEFAULT_COLUMNS }
    }
}

/// Under which monitor and profile the shape of a grid is remembered.
#[derive(Debug, Clone, PartialEq, Eq, Hash)]
pub struct GridConfigKey {
    pub monitor: String,
    pub profile: String,
}

impl GridConfigKey {
    /// The key for a monitor under a profile.
    pub fn new(monitor: String, profile: String) -> (key: GridConfigKey)
        ensures
            key.monitor@ == monitor@,
            key.profile@ == profile@,
    {
        GridConfigKey { monitor, profile }
    }

    /// Whether two keys name the same monitor and the same profile.
    pub fn same(&self, other: &GridConfigKey) -> (same: bool)
        ensures
            same == (self.monitor@ == other.monitor@ && self.profile@ == other.profile@),
    {
        self.monitor == other.monitor && self.profile == other.profile
    }
}

} // verus!
