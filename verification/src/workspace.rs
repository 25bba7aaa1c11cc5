//! Workspaces: ten screens of tiled windows, of which one is shown.

use vstd::prelude::*;

use crate::bar::Display;

verus! {

/// How many workspaces there are; they are numbered from one.
pub const WORKSPACES: i32 = 10;

/// How much room the grids of the workspaces leave free on the screen.
#[derive(Debug, Clone, Copy, PartialEq, Eq, Structural)]
pub struct Spacing {
    /// Space around every window, in pixels
    pub margin: i32,
    /// Space between the windows and the edge of the screen, in pixels
    pub padding: i32,
    /// Height of the bar, where one is shown
    pub app_bar_height: Option<i32>,
}

impl Spacing {
    /// Width that is left for the windows on a screen: the screen without
    /// margin and padding on either side.
    pub open spec fn width_on(self, display: Display) -> int {
        display.width - self.margin * 2 - self.padding * 2
    }

    /// Height that is left for the windows on a screen: the screen without
    /// margin and padding above and below, and without the bar.
    pub open spec fn height_on(self, display: Display) -> int {
        display.height - self.margin * 2 - self.padding * 2 - match self.app_bar_height {
            Some(bar) => bar as int,
            None => 0,
        }
    }

    /// Whether what is left for the windows fits the coordinate range.
    pub open spec fn fits(self, display: Display) -> bool {
        &&& i32::MIN <= self.width_on(display) <= i32::MAX
        &&& i32::MIN <= self.height_on(display) <= i32::MAX
    }
}

/// One of the workspaces.
pub struct Workspace {
    pub id: i32,
    pub visible: bool,
}

impl Workspace {
    /// A workspace that is not shown.
    pub fn new(id: i32) -> (workspace: Workspace)
        ensures
            workspace.id == id,
            workspace.visible == false,
    {
        Workspace { id, visible: false }
    }
}

/// The grid of the windows of one workspace.
pub struct TileGrid {
    pub id: i32,
    pub visible: bool,
    pub focused_window_id: Option<i32>,
    pub taskbar_window: i32,
    pub rows: i32,
    pub columns: i32,
    pub height: i32,
    pub width: i32,
    /// The windows that the grid lays out.
    pub tiles: Vec<i32>,
}

impl TileGrid {
    /// An empty grid that is not shown.
    pub fn new(id: i32) -> (grid: TileGrid)
        ensures
            grid.id == id,
            grid.visible == false,
            grid.focused_window_id is None,
            grid.taskbar_window == 0,
            grid.rows == 0,
            grid.columns == 0,
            grid.height == 0,
            grid.width == 0,
            grid.tiles@ == Seq::<i32>::empty(),
    {
        TileGrid {
            id,
            visible: false,
            focused_window_id: None,
            taskbar_window: 0,
            rows: 0,
            columns: 0,
            height: 0,
            width: 0,
            tiles: Vec::new(),
        }
    }
}

impl TileGrid {
    /// An empty grid as large as the spacing leaves room on the screen, or
    /// `None` where that does not fit the coordinate range.
    pub fn sized(id: i32, display: Display, spacing: Spacing) -> (grid: Option<TileGrid>)
        ensures
            match grid {
                Some(g) => {
                    &&& spacing.fits(display)
                    &&& g.id == id
                    &&& g.width == spacing.width_on(display)
                    &&& g.height == spacing.height_on(display)
                    &&& !g.visible
                    &&& g.focused_window_id is None
                    &&& g.taskbar_window == 0
                    &&& g.rows == 0
                    &&& g.columns == 0
                    &&& g.tiles@ == Seq::<i32>::empty()
                },
                None => !spacing.fits(display),
            },
    {
        let margin: i64 = spacing.margin as i64;
        let padding: i64 = spacing.padding as i64;
        let bar: i64 = match spacing.app_bar_height {
            Some(bar) => bar as i64,
            None => 0,
        };
        let width: i64 = display.width as i64 - margin * 2 - padding * 2;
        let height: i64 = display.height as i64 - margin * 2 - padding * 2 - bar;
        if width < i32::MIN as i64 || width > i32::MAX as i64 || height < i32::MIN as i64
            || height > i32::MAX as i64 {
            return None;
        }
        let mut grid = TileGrid::new(id);
        grid.width = width as i32;
        grid.height = height as i32;
        Some(grid)
    }
}

/// What the native layer does when the workspace changes, in order.
#[derive(Debug, Clone, Copy, PartialEq, Eq, Structural)]
pub enum WorkspaceAction {
    /// Draw the grid of this workspace.
    Draw(i32),
    /// Show the grid of this workspace.
    Show(i32),
    /// Wait, so that the background does not flicker.
    Pause { millis: u64 },
    /// Hide the grid of this workspace.
    Hide(i32),
    /// Have the bar drawn anew.
    RedrawBar,
}

/// How long to wait between showing one workspace and hiding the other.
pub const SWITCH_PAUSE_MILLIS: u64 = 5;

/// A workspace was asked for that does not exist.
#[derive(Debug, Clone, Copy, PartialEq, Eq, Structural)]
pub struct NoSuchWorkspace(pub i32);

/// The index of the first grid from `start` on with the given id.
pub open spec fn index_from(grids: Seq<TileGrid>, id: i32, start: int) -> Option<int>
    decreases grids.len() - start,
{
    if start < 0 || start >= grids.len() {
        None
    } else if grids[start].id == id {
        Some(start)
    } else {
        index_from(grids, id, start + 1)
    }
}

/// The index of the first grid with the given id.
pub open spec fn index_of(grids: Seq<TileGrid>, id: i32) -> Option<int> {
    index_from(grids, id, 0)
}

/// The grids with the visibility of the one at `index` set.
pub open spec fn with_visible(grids: Seq<TileGrid>, index: int, visible: bool) -> Seq<TileGrid> {
    grids.update(index, TileGrid { visible, ..grids[index] })
}

/// The grids of all workspaces and the workspace that is shown.
pub struct Workspaces {
    pub current: i32,
    pub grids: Vec<TileGrid>,
}

impl Workspaces {
    /// The grids of the workspaces one to ten, each as large as the spacing
    /// leaves room on the screen, with the first workspace current; `None`
    /// where the size does not fit the coordinate range.
    pub fn new(display: Display, spacing: Spacing) -> (all: Option<Workspaces>)
        ensures
            match all {
                Some(w) => {
                    &&& spacing.fits(display)
                    &&& w.current == 1
                    &&& w.grids@.len() == WORKSPACES
                    &&& forall|i: int|
                        0 <= i < WORKSPACES ==> {
                            &&& (#[trigger] w.grids@[i]).id == i + 1
                            &&& !w.grids@[i].visible
                            &&& w.grids@[i].width == spacing.width_on(display)
                            &&& w.grids@[i].height == spacing.height_on(display)
                        }
                },
                None => !spacing.fits(display),
            },
    {
        let mut grids: Vec<TileGrid> = Vec::new();
        let mut id: i32 = 1;
        while id <= WORKSPACES
            invariant
                1 <= id <= WORKSPACES + 1,
                grids@.len() == id - 1,
                spacing.fits(display) || id == 1,
                forall|i: int|
                    0 <= i < id - 1 ==> {
                        &&& (#[trigger] grids@[i]).id == i + 1
                        &&& !grids@[i].visible
                        &&& grids@[i].width == spacing.width_on(display)
                        &&& grids@[i].height == spacing.height_on(display)
                    },
            decreases WORKSPACES + 1 - id,
        {
            match TileGrid::sized(id, display, spacing) {
                Some(grid) => grids.push(grid),
                None => {
                    return None;
                },
            }
            id += 1;
        }
        Some(Workspaces { current: 1, grids })
    }

    fn find(&self, id: i32) -> (index: Option<usize>)
        ensures
            match index {
                Some(i) => index_of(self.grids@, id) == Some(i as int) && i < self.grids@.len()
                    && self.grids@[i as int].id == id,
                None => index_of(self.grids@, id) is None,
            },
    {
        let mut i: usize = 0;
        while i < self.grids.len()
            invariant
                i <= self.grids@.len(),
                index_of(self.grids@, id) == index_from(self.grids@, id, i as int),
            decreases self.grids@.len() - i,
        {
            if self.grids[i].id == id {
                return Some(i);
            }
            i += 1;
        }
        None
    }

    /// Shows the workspace `id` in place of the current one: its grid
    /// becomes visible and, unless it is the current one already, is drawn
    /// and shown, and the grid of the workspace that was current is hidden.
    /// Turned down, with nothing changed, if either workspace has no grid.
    pub fn change(&mut self, id: i32) -> (outcome: Result<Vec<WorkspaceAction>, NoSuchWorkspace>)
        ensures
            match outcome {
                Ok(actions) => {
                    &&& index_of(old(self).grids@, id) matches Some(shown)
                    &&& index_of(old(self).grids@, old(self).current) matches Some(hidden)
                    &&& final(self).current == id
                    &&& final(self).grids@ == if old(self).current == id {
                        with_visible(old(self).grids@, shown, true)
                    } else {
                        with_visible(with_visible(old(self).grids@, shown, true), hidden, false)
                    }
                    &&& actions@ == if old(self).current == id {
                        Seq::<WorkspaceAction>::empty()
                    } else {
                        seq![
                            WorkspaceAction::Draw(id),
                            WorkspaceAction::Show(id),
                            WorkspaceAction::Pause { millis: SWITCH_PAUSE_MILLIS },
                            WorkspaceAction::Hide(old(self).current),
                            WorkspaceAction::RedrawBar,
                        ]
                    }
                },
                Err(e) => {
                    &&& *final(self) == *old(self)
                    &&& e == if index_of(old(self).grids@, id) is None {
                        NoSuchWorkspace(id)
                    } else {
                        NoSuchWorkspace(old(self).current)
                    }
                    &&& index_of(old(self).grids@, id) is None || index_of(
                        old(self).grids@,
                        old(self).current,
                    ) is None
                },
            },
    {
        let shown = match self.find(id) {
            Some(i) => i,
            None => {
                return Err(NoSuchWorkspace(id));
            },
        };
        let old_id = self.current;
        let hidden = match self.find(old_id) {
            Some(i) => i,
            None => {
                return Err(NoSuchWorkspace(old_id));
            },
        };
        self.current = id;
        self.grids[shown].visible = true;
        let mut actions: Vec<WorkspaceAction> = Vec::new();
        if old_id == id {
            assert(self.grids@ =~= with_visible(old(self).grids@, shown as int, true));
            return Ok(actions);
        }
        actions.push(WorkspaceAction::Draw(id));
        actions.push(WorkspaceAction::Show(id));
        actions.push(WorkspaceAction::Pause { millis: SWITCH_PAUSE_MILLIS });
        self.grids[hidden].visible = false;
        actions.push(WorkspaceAction::Hide(old_id));
        actions.push(WorkspaceAction::RedrawBar);
        assert(self.grids@ =~= with_visible(
            with_visible(old(self).grids@, shown as int, true),
            hidden as int,
            false,
        ));
        assert(actions@ =~= seq![
            WorkspaceAction::Draw(id),
            WorkspaceAction::Show(id),
            WorkspaceAction::Pause { millis: SWITCH_PAUSE_MILLIS },
            WorkspaceAction::Hide(old_id),
            WorkspaceAction::RedrawBar,
        ]);
        Ok(actions)
    }
}

} // verus!
