//! What the picker window makes of the messages it receives: keys, the
//! mouse, and requests to paint.

use vstd::prelude::*;

use crate::event::{Action, Event};
use crate::grid::Grid;
use crate::laws::{add_then_remove_column, add_then_remove_row, remove_stops_at_one};
use crate::manager::DispatchError;
use crate::model::{
    with_column_added, with_column_removed, with_row_added, with_row_removed, without_hover,
    GridView,
};
use crate::rect::{rect_of, Rect, Region};
use crate::window::Window;

verus! {

/// The window has to be painted.
pub const WM_PAINT: u32 = 0x000F;

/// A key has gone down.
pub const WM_KEYDOWN: u32 = 0x0100;

/// A key has come up.
pub const WM_KEYUP: u32 = 0x0101;

/// The mouse has moved.
pub const WM_MOUSEMOVE: u32 = 0x0200;

/// The left mouse button has gone down.
pub const WM_LBUTTONDOWN: u32 = 0x0201;

/// The left mouse button has come up.
pub const WM_LBUTTONUP: u32 = 0x0202;

/// The mouse has left the window.
pub const WM_MOUSELEAVE: u32 = 0x02A3;

/// The shift key.
pub const VK_SHIFT: i32 = 0x10;

/// The control key.
pub const VK_CONTROL: i32 = 0x11;

/// The escape key.
pub const VK_ESCAPE: i32 = 0x1B;

/// The left arrow.
pub const VK_LEFT: i32 = 0x25;

/// The up arrow.
pub const VK_UP: i32 = 0x26;

/// The right arrow.
pub const VK_RIGHT: i32 = 0x27;

/// The down arrow.
pub const VK_DOWN: i32 = 0x28;

/// The function key F1.
pub const VK_F1: i32 = 0x70;

/// The function key F2.
pub const VK_F2: i32 = 0x71;

/// The function key F3.
pub const VK_F3: i32 = 0x72;

/// The function key F4.
pub const VK_F4: i32 = 0x73;

/// The function key F5.
pub const VK_F5: i32 = 0x74;

/// The function key F6.
pub const VK_F6: i32 = 0x75;

/// The horizontal position in a mouse message: the low word of its second
/// parameter.
pub open spec fn pointer_x(lparam: isize) -> int {
    ((lparam as u32) & 0xffff) as int
}

/// The vertical position in a mouse message: the high word of the low
/// double word of its second parameter.
pub open spec fn pointer_y(lparam: isize) -> int {
    (((lparam as u32) >> 16) & 0xffff) as int
}

/// The key in a key message: its first parameter, cut to 32 bits.
pub open spec fn key_code(wparam: usize) -> i32 {
    wparam as i32
}

/// The position of the pointer that a mouse message carries.
pub fn pointer_position(lparam: isize) -> (point: (i32, i32))
    ensures
        point.0 == pointer_x(lparam),
        point.1 == pointer_y(lparam),
        0 <= point.0 <= 0xffff,
        0 <= point.1 <= 0xffff,
{
    let l: u32 = #[verifier::truncate]
    (lparam as u32);
    let low: u32 = l & 0xffff;
    let high: u32 = (l >> 16) & 0xffff;
    assert(l & 0xffff <= 0xffff) by (bit_vector);
    assert((l >> 16) & 0xffff <= 0xffff) by (bit_vector);
    (low as i32, high as i32)
}

/// The profile that a function key stands for.
pub open spec fn profile_of(key: i32) -> Option<&'static str> {
    if key == VK_F1 {
        Some("Default")
    } else if key == VK_F2 {
        Some("Profile2")
    } else if key == VK_F3 {
        Some("Profile3")
    } else if key == VK_F4 {
        Some("Profile4")
    } else if key == VK_F5 {
        Some("Profile5")
    } else if key == VK_F6 {
        Some("Profile6")
    } else {
        None
    }
}

/// What a message makes of the grid and asks of the native layer, or why it
/// is turned down.
pub type Step = Result<(GridView, Seq<Action>), DispatchError>;

impl GridView {
    /// The matrix that an arrow key asks for.
    pub open spec fn resized(self, key: i32) -> GridView {
        GridView {
            tiles: if key == VK_RIGHT {
                with_column_added(self.tiles)
            } else if key == VK_LEFT {
                with_column_removed(self.tiles)
            } else if key == VK_UP {
                with_row_added(self.tiles)
            } else if key == VK_DOWN {
                with_row_removed(self.tiles)
            } else {
                self.tiles
            },
            ..self
        }
    }

    /// With control held, an arrow key changes the matrix and the grid
    /// window is centred anew.
    pub open spec fn resize_step(self, key: i32, work_area: Region) -> Step {
        if !self.control_down {
            Ok((self, Seq::empty()))
        } else {
            match self.grid_window {
                None => Err(DispatchError::NoGridWindow),
                Some(window) => {
                    let resized = self.resized(key);
                    if resized.centered(work_area).representable() {
                        Ok(
                            (
                                resized,
                                seq![
                                    Action::SetPos {
                                        window,
                                        rect: rect_of(resized.centered(work_area)),
                                        insert_after: None,
                                    },
                                ],
                            ),
                        )
                    } else {
                        Err(DispatchError::Geometry)
                    }
                },
            }
        }
    }

    /// Escape closes the picker, control and shift are noted, an arrow key
    /// with control held changes the matrix.
    pub open spec fn key_down_step(self, key: i32, work_area: Region) -> Step {
        if key == VK_ESCAPE {
            Ok((self, seq![Action::Send(Event::CloseWindows)]))
        } else if key == VK_CONTROL {
            Ok((GridView { control_down: true, ..self }, Seq::empty()))
        } else if key == VK_SHIFT {
            Ok((GridView { shift_down: true, ..self }, Seq::empty()))
        } else if key == VK_RIGHT || key == VK_LEFT || key == VK_UP || key == VK_DOWN {
            self.resize_step(key, work_area)
        } else {
            Ok((self, Seq::empty()))
        }
    }

    /// Control and shift are noted, a function key asks for its profile.
    pub open spec fn key_up_step(self, key: i32) -> Step {
        if key == VK_CONTROL {
            Ok((GridView { control_down: false, ..self }, Seq::empty()))
        } else if key == VK_SHIFT {
            Ok((GridView { shift_down: false, ..self }, Seq::empty()))
        } else {
            match profile_of(key) {
                Some(name) => Ok((self, seq![Action::Send(Event::ProfileChange(name))])),
                None => Ok((self, Seq::empty())),
            }
        }
    }

    /// The request to paint the whole picker anew, as the last action.
    pub open spec fn and_repaint(self, window: Window, actions: Seq<Action>) -> Seq<Action> {
        actions.push(Action::Invalidate { window, area: rect_of(self.picker_face()) })
    }

    /// The mouse asks to be tracked, the hover follows it, and where a tile
    /// looks different the preview moves and the picker is painted anew.
    pub open spec fn mouse_move_step(self, window: Window, px: int, py: int, work_area: Region) -> Step {
        if !self.highlight_fits(px, py, work_area) || !self.picker_face().representable() {
            Err(DispatchError::Geometry)
        } else {
            let moved = self.highlighted(px, py, work_area);
            let track = seq![Action::Send(Event::TrackMouse(window))];
            match self.highlight_rect(px, py, work_area) {
                Some(area) => Ok(
                    (
                        moved,
                        moved.and_repaint(
                            window,
                            track.push(Action::Send(Event::HighlightZone(rect_of(area)))),
                        ),
                    ),
                ),
                None => Ok((moved, track)),
            }
        }
    }

    /// The tile under the pointer is selected and the button is held; the
    /// picker is painted anew if another tile is selected than before.
    pub open spec fn button_down_step(self, window: Window, px: int, py: int) -> Step {
        if !self.picker_face().representable() {
            Err(DispatchError::Geometry)
        } else {
            let clicked = self.selected_at(px, py);
            let held = GridView { cursor_down: true, ..clicked };
            if clicked.selected_tile != self.selected_tile {
                Ok((held, held.and_repaint(window, Seq::empty())))
            } else {
                Ok((held, Seq::empty()))
            }
        }
    }

    /// The button is released; where a zone or span is selected the picker
    /// is painted anew, after the placement that the release asks for.
    pub open spec fn button_up_step(self, window: Window, work_area: Region) -> Step {
        if !(self.selected_area(work_area) matches Some(r) ==> r.representable())
            || !self.picker_face().representable() {
            Err(DispatchError::Geometry)
        } else {
            let released = self.released(work_area);
            if self.selected_area(work_area) is Some {
                match self.release_request(work_area) {
                    Some((active, area)) => Ok(
                        (
                            released,
                            released.and_repaint(
                                window,
                                seq![Action::Place { window: active, area: rect_of(area) }],
                            ),
                        ),
                    ),
                    None => Ok((released, released.and_repaint(window, Seq::empty()))),
                }
            } else {
                Ok((released, Seq::empty()))
            }
        }
    }

    /// The hover is taken off every tile, the preview is folded away, and
    /// the picker is painted anew.
    pub open spec fn mouse_leave_step(self, window: Window) -> Step {
        if !self.picker_face().representable() {
            Err(DispatchError::Geometry)
        } else {
            let left = GridView { tiles: without_hover(self.tiles), ..self };
            Ok(
                (
                    left,
                    left.and_repaint(
                        window,
                        seq![
                            Action::Send(Event::MouseLeft),
                            Action::Send(Event::HighlightZone(Rect { x: 0, y: 0, w: 0, h: 0 })),
                        ],
                    ),
                ),
            )
        }
    }

    /// What a message to the picker window makes of the grid.
    pub open spec fn message_step(
        self,
        window: Window,
        msg: u32,
        wparam: usize,
        lparam: isize,
        work_area: Region,
    ) -> Step {
        if msg == WM_PAINT {
            Ok((self, seq![Action::Paint(window)]))
        } else if msg == WM_KEYDOWN {
            self.key_down_step(key_code(wparam), work_area)
        } else if msg == WM_KEYUP {
            self.key_up_step(key_code(wparam))
        } else if msg == WM_MOUSEMOVE {
            self.mouse_move_step(window, pointer_x(lparam), pointer_y(lparam), work_area)
        } else if msg == WM_LBUTTONDOWN {
            self.button_down_step(window, pointer_x(lparam), pointer_y(lparam))
        } else if msg == WM_LBUTTONUP {
            self.button_up_step(window, work_area)
        } else if msg == WM_MOUSELEAVE {
            self.mouse_leave_step(window)
        } else {
            Ok((self, Seq::empty()))
        }
    }

    /// What placing `window` at `area` asks of the native layer: the move,
    /// and in quick mode the closing of the picker.
    pub open spec fn place_step(self, window: Window, area: Rect, border: (i32, i32)) -> Result<
        (GridView, Seq<Action>),
        DispatchError,
    > {
        let target = area@.adjust_for_border(border.0 as int, border.1 as int);
        if target.representable() {
            let moved = seq![
                Action::SetPos { window, rect: rect_of(target), insert_after: None },
            ];
            Ok(
                (
                    self.committed(window, rect_of(target)),
                    if self.quick_resize {
                        moved.push(Action::Send(Event::CloseWindows))
                    } else {
                        moved
                    },
                ),
            )
        } else {
            Err(DispatchError::Geometry)
        }
    }
}

/// The profile that a function key stands for.
fn profile_for(key: i32) -> (profile: Option<&'static str>)
    ensures
        profile == profile_of(key),
{
    if key == VK_F1 {
        Some("Default")
    } else if key == VK_F2 {
        Some("Profile2")
    } else if key == VK_F3 {
        Some("Profile3")
    } else if key == VK_F4 {
        Some("Profile4")
    } else if key == VK_F5 {
        Some("Profile5")
    } else if key == VK_F6 {
        Some("Profile6")
    } else {
        None
    }
}

impl Grid {
    /// The request to paint the whole picker anew.
    fn repaint(&self, window: Window) -> (action: Action)
        requires
            self@.wf(),
            self@.picker_face().representable(),
        ensures
            action == (Action::Invalidate { window, area: rect_of(self@.picker_face()) }),
    {
        Action::Invalidate { window, area: self.picker_face() }
    }

    /// With control held, an arrow key adds or removes a row or a column,
    /// and the grid window is centred anew.
    fn handle_resize(&mut self, key: i32, work_area: Rect) -> (outcome: Result<
        Vec<Action>,
        DispatchError,
    >)
        requires
            old(self)@.wf(),
            key == VK_RIGHT || key == VK_LEFT || key == VK_UP || key == VK_DOWN,
        ensures
            match outcome {
                Ok(actions) => old(self)@.resize_step(key, work_area@) == Ok::<
                    (GridView, Seq<Action>),
                    DispatchError,
                >((final(self)@, actions@)),
                Err(e) => old(self)@.resize_step(key, work_area@) == Err::<
                    (GridView, Seq<Action>),
                    DispatchError,
                >(e) && final(self)@ == old(self)@,
            },
            final(self)@.wf(),
    {
        let mut actions: Vec<Action> = Vec::new();
        if !self.control_down {
            assert(actions@ =~= Seq::empty());
            return Ok(actions);
        }
        if self.grid_window.is_none() {
            return Err(DispatchError::NoGridWindow);
        }
        let saved = self.saved_tiles();
        proof {
            add_then_remove_row(old(self)@.tiles);
            add_then_remove_column(old(self)@.tiles);
            remove_stops_at_one(old(self)@.tiles);
        }
        if key == VK_RIGHT {
            self.add_column();
        } else if key == VK_LEFT {
            self.remove_column();
        } else if key == VK_UP {
            self.add_row();
        } else {
            self.remove_row();
        }
        if !self.picker_fits(work_area) {
            self.restore_tiles(saved);
            return Err(DispatchError::Geometry);
        }
        let target = self.reposition(work_area);
        actions.push(Action::SetPos { window: target.0, rect: target.1, insert_after: None });
        assert(actions@ =~= seq![
            Action::SetPos { window: target.0, rect: target.1, insert_after: None },
        ]);
        Ok(actions)
    }

    /// Handles one message to the picker window: changes the grid and says
    /// what the native layer is to do, in order. A message that cannot be
    /// handled is turned down and leaves the grid as it was.
    pub fn handle_message(
        &mut self,
        window: Window,
        msg: u32,
        wparam: usize,
        lparam: isize,
        work_area: Rect,
    ) -> (outcome: Result<Vec<Action>, DispatchError>)
        requires
            old(self)@.wf(),
        ensures
            match outcome {
                Ok(actions) => old(self)@.message_step(window, msg, wparam, lparam, work_area@)
                    == Ok::<(GridView, Seq<Action>), DispatchError>((final(self)@, actions@)),
                Err(e) => old(self)@.message_step(window, msg, wparam, lparam, work_area@) == Err::<
                    (GridView, Seq<Action>),
                    DispatchError,
                >(e) && final(self)@ == old(self)@,
            },
            final(self)@.wf(),
    {
        let mut actions: Vec<Action> = Vec::new();
        if msg == WM_PAINT {
            actions.push(Action::Paint(window));
            assert(actions@ =~= seq![Action::Paint(window)]);
        } else if msg == WM_KEYDOWN {
            let key: i32 = #[verifier::truncate]
            (wparam as i32);
            if key == VK_ESCAPE {
                actions.push(Action::Send(Event::CloseWindows));
                assert(actions@ =~= seq![Action::Send(Event::CloseWindows)]);
            } else if key == VK_CONTROL {
                self.control_down = true;
                assert(actions@ =~= Seq::empty());
            } else if key == VK_SHIFT {
                self.shift_down = true;
                assert(actions@ =~= Seq::empty());
            } else if key == VK_RIGHT || key == VK_LEFT || key == VK_UP || key == VK_DOWN {
                return self.handle_resize(key, work_area);
            } else {
                assert(actions@ =~= Seq::empty());
            }
        } else if msg == WM_KEYUP {
            let key: i32 = #[verifier::truncate]
            (wparam as i32);
            if key == VK_CONTROL {
                self.control_down = false;
                assert(actions@ =~= Seq::empty());
            } else if key == VK_SHIFT {
                self.shift_down = false;
                assert(actions@ =~= Seq::empty());
            } else {
                match profile_for(key) {
                    Some(name) => {
                        actions.push(Action::Send(Event::ProfileChange(name)));
                        assert(actions@ =~= seq![Action::Send(Event::ProfileChange(name))]);
                    },
                    None => {
                        assert(actions@ =~= Seq::empty());
                    },
                }
            }
        } else if msg == WM_MOUSEMOVE {
            let point = pointer_position(lparam);
            if !self.highlight_fits(point, work_area) || !self.face_fits() {
                return Err(DispatchError::Geometry);
            }
            actions.push(Action::Send(Event::TrackMouse(window)));
            if let Some(rect) = self.highlight_tiles(point, work_area) {
                actions.push(Action::Send(Event::HighlightZone(rect)));
                actions.push(self.repaint(window));
                assert(actions@ =~= self@.and_repaint(
                    window,
                    seq![Action::Send(Event::TrackMouse(window))].push(
                        Action::Send(Event::HighlightZone(rect)),
                    ),
                ));
            } else {
                assert(actions@ =~= seq![Action::Send(Event::TrackMouse(window))]);
            }
        } else if msg == WM_LBUTTONDOWN {
            let point = pointer_position(lparam);
            if !self.face_fits() {
                return Err(DispatchError::Geometry);
            }
            let repaint = self.select_tile(point);
            self.cursor_down = true;
            if repaint {
                actions.push(self.repaint(window));
                assert(actions@ =~= self@.and_repaint(window, Seq::empty()));
            } else {
                assert(actions@ =~= Seq::empty());
            }
        } else if msg == WM_LBUTTONUP {
            if !self.selection_fits(work_area) || !self.face_fits() {
                return Err(DispatchError::Geometry);
            }
            let release = self.release(work_area);
            if let Some((active, area)) = release.place {
                actions.push(Action::Place { window: active, area });
            }
            if release.repaint {
                actions.push(self.repaint(window));
                assert(actions@ =~= self@.and_repaint(
                    window,
                    match release.place {
                        Some((active, area)) => seq![Action::Place { window: active, area }],
                        None => Seq::empty(),
                    },
                ));
            } else {
                assert(actions@ =~= Seq::empty());
            }
        } else if msg == WM_MOUSELEAVE {
            if !self.face_fits() {
                return Err(DispatchError::Geometry);
            }
            self.unhighlight_all_tiles();
            actions.push(Action::Send(Event::MouseLeft));
            actions.push(Action::Send(Event::HighlightZone(Rect::zero())));
            actions.push(self.repaint(window));
            assert(actions@ =~= self@.and_repaint(
                window,
                seq![
                    Action::Send(Event::MouseLeft),
                    Action::Send(Event::HighlightZone(Rect { x: 0, y: 0, w: 0, h: 0 })),
                ],
            ));
        } else {
            assert(actions@ =~= Seq::empty());
        }
        Ok(actions)
    }

    /// Places `window` at `area` once its invisible border is known: says
    /// where the window goes, remembers the placement, and in quick mode
    /// asks for the picker to close. Turned down where the widened
    /// rectangle does not fit the coordinate range.
    pub fn place(&mut self, window: Window, area: Rect, border: (i32, i32)) -> (outcome: Result<
        Vec<Action>,
        DispatchError,
    >)
        ensures
            match outcome {
                Ok(actions) => old(self)@.place_step(window, area, border) == Ok::<
                    (GridView, Seq<Action>),
                    DispatchError,
                >((final(self)@, actions@)),
                Err(e) => old(self)@.place_step(window, area, border) == Err::<
                    (GridView, Seq<Action>),
                    DispatchError,
                >(e) && final(self)@ == old(self)@,
            },
    {
        if !area.border_fits(border) {
            return Err(DispatchError::Geometry);
        }
        let placement = self.commit(window, area, border);
        let mut actions: Vec<Action> = Vec::new();
        actions.push(Action::SetPos { window, rect: placement.target, insert_after: None });
        if placement.close {
            actions.push(Action::Send(Event::CloseWindows));
            assert(actions@ =~= seq![
                Action::SetPos { window, rect: placement.target, insert_after: None },
            ].push(Action::Send(Event::CloseWindows)));
        } else {
            assert(actions@ =~= seq![
                Action::SetPos { window, rect: placement.target, insert_after: None },
            ]);
        }
        Ok(actions)
    }
}

} // verus!
