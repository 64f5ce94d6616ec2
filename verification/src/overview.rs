//! The 2D focus-navigation grid of the overview screen.
//!
//! A coordinate pair selects one of four named regions through a fixed
//! lookup: column 0 is the full-height history sidebar, row 0 of columns
//! 1 and 2 splits into the request and response panes, and row 1 of
//! columns 1 and 2 is the URL bar spanning both. Directional moves adjust
//! the pair by one with saturating arithmetic; the vertical axis is
//! deliberately inverted (up increases the row) to match the on-screen
//! layout. The selected region is recomputed from the pair on every read,
//! never stored alongside it.

use crate::event::{Key, KeyPress};
use crate::input::TextField;
use vstd::prelude::*;

verus! {

/// The four directions a grid selection can move in.
#[derive(Clone, Copy, Debug)]
pub enum CursorDirection {
    Up,
    Down,
    Left,
    Right,
}

/// The named regions of the overview screen.
#[derive(Clone, Copy, PartialEq, Eq, Structural, Debug)]
pub enum OverviewArea {
    URL,
    History,
    Request,
    Response,
}

/// A cell of the navigation grid; kept within `x <= 2` and `y <= 1`.
#[derive(Clone, Copy, PartialEq, Eq, Structural, Debug)]
pub struct CursorCoord {
    pub x: u16,
    pub y: u16,
}

/// The fixed coordinate-to-region table, exhaustive over the clamped grid:
/// column 0 is History in both rows, row 0 of columns 1 and 2 holds
/// Request and Response, and row 1 of columns 1 and 2 is URL.
pub open spec fn region_of(x: u16, y: u16) -> OverviewArea {
    if x == 0 {
        OverviewArea::History
    } else if x == 1 && y == 0 {
        OverviewArea::Request
    } else if x == 2 && y == 0 {
        OverviewArea::Response
    } else {
        OverviewArea::URL
    }
}

/// Where one directional move takes a grid cell: one step along the
/// relevant axis, saturating at the edges, with up increasing the row and
/// down decreasing it.
pub open spec fn moved_coord(c: CursorCoord, dir: CursorDirection) -> CursorCoord {
    match dir {
        CursorDirection::Right => (CursorCoord {
            x: if c.x < 2 {
                (c.x + 1) as u16
            } else {
                2
            },
            y: c.y,
        }),
        CursorDirection::Left => (CursorCoord {
            x: if c.x > 0 {
                (c.x - 1) as u16
            } else {
                0
            },
            y: c.y,
        }),
        CursorDirection::Up => (CursorCoord {
            x: c.x,
            y: if c.y < 1 {
                (c.y + 1) as u16
            } else {
                1
            },
        }),
        CursorDirection::Down => (CursorCoord {
            x: c.x,
            y: if c.y > 0 {
                (c.y - 1) as u16
            } else {
                0
            },
        }),
    }
}

/// Where one key event takes a grid cell: an arrow press moves the cell
/// one step in its direction, anything else leaves it alone.
pub open spec fn grid_step(c: CursorCoord, ev: KeyPress) -> CursorCoord {
    if ev.pressed {
        match ev.key {
            Key::Right => moved_coord(c, CursorDirection::Right),
            Key::Left => moved_coord(c, CursorDirection::Left),
            Key::Down => moved_coord(c, CursorDirection::Down),
            Key::Up => moved_coord(c, CursorDirection::Up),
            _ => c,
        }
    } else {
        c
    }
}

/// The overview screen's navigation state: the selected grid cell and the
/// URL editor it hosts. The selected region is derived from the cell on
/// demand, never cached.
pub struct Overview {
    pub selection: CursorCoord,
    pub url: TextField,
}

impl Overview {
    /// The selection stays inside the grid: `x` in `[0, 2]`, `y` in `[0, 1]`.
    pub open spec fn wf(&self) -> bool {
        self.selection.x <= 2 && self.selection.y <= 1
    }

    pub fn new() -> (r: Overview)
        ensures
            r.wf(),
            r.selection == (CursorCoord { x: 0, y: 0 }),
            region_of(r.selection.x, r.selection.y) == OverviewArea::History,
            r.url.wf(),
            r.url.text@ == Seq::<char>::empty(),
            r.url.cursor == 0,
    {
        Overview { url: TextField::new("URL"), selection: CursorCoord { x: 0, y: 0 } }
    }

    pub fn move_selection(&mut self, dir: CursorDirection)
        requires
            old(self).wf(),
        ensures
            final(self).wf(),
            final(self).selection == moved_coord(old(self).selection, dir),
            final(self).url == old(self).url,
    {
        match dir {
            CursorDirection::Right => {
                if self.selection.x < 2 {
                    self.selection.x = self.selection.x + 1;
                }
            },
            CursorDirection::Left => {
                if self.selection.x > 0 {
                    self.selection.x = self.selection.x - 1;
                }
            },
            CursorDirection::Up => {
                if self.selection.y < 1 {
                    self.selection.y = self.selection.y + 1;
                }
            },
            CursorDirection::Down => {
                if self.selection.y > 0 {
                    self.selection.y = self.selection.y - 1;
                }
            },
        }
    }

    /// The region the current cell selects, read off the lookup table.
    pub fn selected_region(&self) -> (r: OverviewArea)
        ensures
            r == region_of(self.selection.x, self.selection.y),
    {
        if self.selection.x == 0 {
            OverviewArea::History
        } else if self.selection.x == 1 && self.selection.y == 0 {
            OverviewArea::Request
        } else if self.selection.x == 2 && self.selection.y == 0 {
            OverviewArea::Response
        } else {
            OverviewArea::URL
        }
    }

    /// React to one key event: arrow presses move the selection, all other
    /// events leave the state untouched.
    pub fn handle_key_event(&mut self, ev: KeyPress)
        requires
            old(self).wf(),
        ensures
            final(self).wf(),
            final(self).selection == grid_step(old(self).selection, ev),
            final(self).url == old(self).url,
    {
        if !ev.pressed {
            return;
        }
        match ev.key {
            Key::Right => self.move_selection(CursorDirection::Right),
            Key::Left => self.move_selection(CursorDirection::Left),
            Key::Down => self.move_selection(CursorDirection::Down),
            Key::Up => self.move_selection(CursorDirection::Up),
            _ => {},
        }
    }
}

/// The stored request history; not filled in yet.
pub struct History {}

} // verus!
