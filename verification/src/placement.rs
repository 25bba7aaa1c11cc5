//! Where a window goes: the maximize key, which toggles between the largest
//! rectangle and the one remembered, and the placement at the selected zone
//! when the mouse button comes up.

use vstd::prelude::*;

use crate::grid::Grid;
use crate::model::GridView;
use crate::rect::{Rect, Region};
use crate::wide::Wide;
use crate::window::Window;

verus! {

/// What the release of the mouse button over the picker asks for.
#[derive(Debug, Clone, Copy, PartialEq, Eq)]
pub struct Release {
    /// Whether the picker has to be painted anew.
    pub repaint: bool,
    /// The window to place and the zone or span to place it at, where the
    /// release asks for a placement.
    pub place: Option<(Window, Rect)>,
}

/// A placement that has been decided.
#[derive(Debug, Clone, Copy, PartialEq, Eq, Structural)]
pub struct Placement {
    /// Where the window goes, its invisible border taken into account.
    pub target: Rect,
    /// Whether the picker closes now.
    pub close: bool,
}

/// The window and rectangle behind an optional placement request.
pub open spec fn request_of(place: Option<(Window, Rect)>) -> Option<(Window, Region)> {
    match place {
        Some((window, area)) => Some((window, area@)),
        None => None,
    }
}

impl GridView {
    /// What the release of the mouse button asks to place: the pending
    /// window and area, unless the last placement put that window exactly
    /// there.
    pub open spec fn release_request(self, work_area: Region) -> Option<(Window, Region)> {
        match self.pending(work_area) {
            Some((window, area)) => if self.remembers(window, area) {
                None
            } else {
                Some((window, area))
            },
            None => None,
        }
    }
}

impl Grid {
    /// The largest rectangle for a window with this border.
    fn maximized_wide(&self, border: (i32, i32), work_area: Rect) -> (area: Wide)
        requires
            self@.wf(),
        ensures
            area.region() == self@.maximized_area(
                (border.0 as int, border.1 as int),
                work_area@,
            ),
    {
        let max = self.max_wide(work_area);
        let dx: i128 = border.0 as i128;
        let dy: i128 = border.1 as i128;
        Wide { x: max.x - dx, y: max.y, w: max.w + 2 * dx, h: max.h + dy }
    }

    /// Whether the largest rectangle for a window with this border fits the
    /// coordinate range.
    pub fn maximize_fits(&self, border: (i32, i32), work_area: Rect) -> (fits: bool)
        requires
            self@.wf(),
        ensures
            fits == self@.maximized_area(
                (border.0 as int, border.1 as int),
                work_area@,
            ).representable(),
    {
        self.maximized_wide(border, work_area).representable()
    }

    /// Decides where a press of the maximize key sends `window`, which stands
    /// at `current` and has the invisible border `border`, and remembers
    /// `current` for the next press.
    pub fn maximize(
        &mut self,
        window: Window,
        current: Rect,
        border: (i32, i32),
        work_area: Rect,
    ) -> (target: Rect)
        requires
            old(self)@.wf(),
            old(self)@.maximized_area(
                (border.0 as int, border.1 as int),
                work_area@,
            ).representable(),
        ensures
            target@ == old(self)@.maximize_target(
                current@,
                (border.0 as int, border.1 as int),
                work_area@,
            ),
            final(self)@ == old(self)@.maximized(window, current),
            final(self)@.wf(),
    {
        let max_rect = self.maximized_wide(border, work_area).narrow();
        let target = match self.previous_resize {
            Some((_, previous_rect)) => {
                if current == max_rect {
                    previous_rect
                } else {
                    max_rect
                }
            },
            None => max_rect,
        };
        self.previous_resize = Some((window, current));
        target
    }

    /// Whether the selected zone or span fits the coordinate range, so that
    /// [`Grid::selected_area`] and [`Grid::release`] can be asked.
    pub fn selection_fits(&self, work_area: Rect) -> (fits: bool)
        requires
            self@.wf(),
        ensures
            fits == (self@.selected_area(work_area@) matches Some(r) ==> r.representable()),
    {
        if self.shift_down || self.cursor_down {
            if let Some(selected_tile) = self.selected_tile {
                if let Some(hovered_tile) = self.hovered_tile {
                    return self.span(selected_tile, hovered_tile, work_area).2.representable();
                }
            }
        }
        match self.selected_tile {
            Some(tile) => self.zone_wide(tile.0, tile.1, work_area).representable(),
            None => true,
        }
    }

    /// The mouse button has come up over the picker: the button is no longer
    /// held; if a zone or span is selected and a window is active, the
    /// selection is taken back, and unless the last placement already put
    /// that window exactly there, its placement is asked for.
    pub fn release(&mut self, work_area: Rect) -> (release: Release)
        requires
            old(self)@.wf(),
            old(self)@.selected_area(work_area@) matches Some(r) ==> r.representable(),
        ensures
            final(self)@ == old(self)@.released(work_area@),
            release.repaint == (old(self)@.selected_area(work_area@) is Some),
            request_of(release.place) == old(self)@.release_request(work_area@),
            final(self)@.wf(),
    {
        let mut place: Option<(Window, Rect)> = None;
        let repaint = if let Some(rect) = self.selected_area(work_area) {
            if let Some(active_window) = self.active_window {
                let remembered = match self.previous_resize {
                    Some((window, previous)) => window == active_window && previous == rect,
                    None => false,
                };
                if !remembered {
                    place = Some((active_window, rect));
                }
                self.unselect_all_tiles();
            }
            true
        } else {
            false
        };
        self.cursor_down = false;
        Release { repaint, place }
    }

    /// Places `window` at `area`, widened by the window's invisible border,
    /// and remembers the placement. Says whether the picker closes now,
    /// which it does in quick mode.
    pub fn commit(&mut self, window: Window, area: Rect, border: (i32, i32)) -> (placement:
        Placement)
        requires
            area@.adjust_for_border(border.0 as int, border.1 as int).representable(),
        ensures
            placement.target@ == area@.adjust_for_border(border.0 as int, border.1 as int),
            placement.close == old(self)@.quick_resize,
            final(self)@ == old(self)@.committed(window, placement.target),
            old(self)@.wf() ==> final(self)@.wf(),
    {
        let mut rect = area;
        rect.adjust_for_border(border);
        self.previous_resize = Some((window, rect));
        Placement { target: rect, close: self.quick_resize }
    }
}

} // verus!
