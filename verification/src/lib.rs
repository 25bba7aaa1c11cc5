//! The rules of a tiling window manager for a desktop of windows, without
//! the desktop: everything here works on plain values, and whoever talks to
//! the window system hands values in and carries answers out.
//!
//! At the centre stands the [`grid::Grid`]: a matrix of tiles that the user
//! picks zones from, and the geometry that divides the work area of a
//! monitor into those zones. [`model`] says what a grid is and what every
//! operation makes of it; [`laws`] holds what follows for all grids.
//! [`placement`] decides where a window goes, [`input`] what the picker
//! makes of a message, and [`manager`] what becomes of an event. What the
//! native layer has to do in return comes back as a list of
//! [`event::Action`]s.
//!
//! Around it: the hot keys of the configuration ([`hotkey`], [`config`],
//! [`keybinding`]), the watchers of monitor and foreground ([`monitor`]),
//! the status bar ([`bar`], [`font`], [`win_event`]), workspaces
//! ([`workspace`], [`work_mode`]) and the results of calls into the window
//! system ([`error`], [`checks`]).

pub mod rect;
pub mod tile;
pub mod window;
pub mod model;
pub mod matrix;
mod wide;
pub mod grid;
pub mod laws;
pub mod placement;
pub mod event;
pub mod manager;
pub mod input;
pub mod monitor;
pub mod hotkey;
pub mod config;
pub mod keybinding;
pub mod work_mode;
pub mod workspace;
pub mod bar;
pub mod font;
pub mod win_event;
pub mod error;
pub mod checks;
