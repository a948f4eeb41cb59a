//! One grid of the editor: its cells, its cursor and what else the events
//! say of it.

use crate::types::uievents::{GridLine, GridResize, GridScroll, ModeInfo, ModeInfoView};
use crate::types::window::Window;
use crate::ui::buffer::{GridBuffer, GridView};
use vstd::prelude::*;

verus! {

/// Where the cursor stands and what it covers.
#[derive(Debug, PartialEq, Eq)]
pub struct Cursor {
    pub row: i64,
    pub col: i64,
    /// The text of the cell under the cursor.
    pub text: String,
}

/// Mathematical model of a [`Cursor`].
pub struct CursorView {
    pub row: i64,
    pub col: i64,
    pub text: Seq<char>,
}

impl DeepView for Cursor {
    type V = CursorView;

    open spec fn deep_view(&self) -> CursorView {
        CursorView { row: self.row, col: self.col, text: self.text@ }
    }
}

/// The state of one grid.
pub struct Grid {
    id: i64,
    buffer: GridBuffer,
    cursor: Cursor,
    active: bool,
    external: bool,
    nvim_window: Option<Window>,
    mode_info: Option<ModeInfo>,
}

/// Mathematical model of a [`Grid`].
pub struct GridStateView {
    pub id: i64,
    pub buffer: GridView,
    pub cursor: CursorView,
    /// Whether the cursor is in this grid.
    pub active: bool,
    /// Whether the grid is shown in a window of its own.
    pub external: bool,
    /// The editor's window that the grid shows.
    pub nvim_window: Option<Window>,
    /// The editor's mode, as last told.
    pub mode_info: Option<ModeInfoView>,
}

/// The model of an optional mode.
pub open spec fn mode_view(mode: Option<ModeInfo>) -> Option<ModeInfoView> {
    match mode {
        Some(m) => Some(m.deep_view()),
        None => None,
    }
}

impl View for Grid {
    type V = GridStateView;

    closed spec fn view(&self) -> GridStateView {
        GridStateView {
            id: self.id,
            buffer: self.buffer@,
            cursor: self.cursor.deep_view(),
            active: self.active,
            external: self.external,
            nvim_window: self.nvim_window,
            mode_info: mode_view(self.mode_info),
        }
    }
}

impl GridStateView {
    /// Whether the cursor can go to `row` and `col`: the column is one of
    /// the grid where the row is.
    pub open spec fn can_goto(self, col: i64, row: i64) -> bool {
        0 <= row < self.buffer.height() ==> 0 <= col < self.buffer.width
    }

    /// The state with the cursor at `row` and `col`, over the text of that
    /// cell. A row that the grid has not leaves the cursor where it is.
    pub open spec fn with_cursor_at(self, col: i64, row: i64) -> GridStateView {
        if 0 <= row < self.buffer.height() {
            GridStateView {
                cursor: CursorView {
                    row,
                    col,
                    text: self.buffer.cell(row as int, col as int).text,
                },
                ..self
            }
        } else {
            self
        }
    }

    /// The state once what was put is shown: in the grid that has the
    /// cursor, the cursor covers the text that now stands in its cell, no
    /// text where it stands on none.
    pub open spec fn flushed(self) -> GridStateView {
        if self.active {
            GridStateView {
                cursor: CursorView {
                    text: self.buffer.cell(self.cursor.row as int, self.cursor.col as int).text,
                    ..self.cursor
                },
                ..self
            }
        } else {
            self
        }
    }

    /// The state after a `grid_resize` event. A size below zero, or beyond
    /// what the machine can count, leaves the grid as it is.
    pub open spec fn resized(self, event: GridResize) -> GridStateView {
        if 0 <= event.width <= usize::MAX && 0 <= event.height <= usize::MAX {
            GridStateView {
                buffer: self.buffer.resized(event.width as nat, event.height as nat),
                ..self
            }
        } else {
            self
        }
    }
}

impl Grid {
    /// Whether the grid's state is valid. Every grid that this library hands
    /// out or leaves behind is.
    pub closed spec fn wf(&self) -> bool {
        self.buffer.wf()
    }

    /// The grid `id`, without cells, the cursor in its first cell.
    pub fn new(id: i64) -> (g: Grid)
        ensures
            g.wf(),
            g@ == (GridStateView {
                id,
                buffer: GridView { width: 0, rows: Seq::empty() },
                cursor: CursorView { row: 0, col: 0, text: Seq::empty() },
                active: false,
                external: false,
                nvim_window: None,
                mode_info: None,
            }),
    {
        Grid {
            id,
            buffer: GridBuffer::new(),
            cursor: Cursor { row: 0, col: 0, text: String::new() },
            active: false,
            external: false,
            nvim_window: None,
            mode_info: None,
        }
    }

    /// The numbers of columns and of rows.
    pub fn grid_size(&self) -> (size: (usize, usize))
        ensures
            size.0 == self@.buffer.width,
            size.1 == self@.buffer.height(),
    {
        self.buffer.grid_size()
    }

    pub fn id(&self) -> (id: i64)
        ensures
            id == self@.id,
    {
        self.id
    }

    /// The cells of the grid.
    pub fn buffer(&self) -> (b: &GridBuffer)
        requires
            self.wf(),
        ensures
            b.wf(),
            b@ == self@.buffer,
    {
        &self.buffer
    }

    /// The cursor.
    pub fn cursor(&self) -> (c: &Cursor)
        ensures
            c.deep_view() == self@.cursor,
    {
        &self.cursor
    }

    /// Whether the cursor is in this grid.
    pub fn is_active(&self) -> (r: bool)
        ensures
            r == self@.active,
    {
        self.active
    }

    /// Says whether the cursor is in this grid.
    pub fn set_active(&mut self, active: bool)
        requires
            old(self).wf(),
        ensures
            final(self).wf(),
            final(self)@ == (GridStateView { active, ..old(self)@ }),
    {
        self.active = active;
    }

    /// Takes the grid out of where it is shown. Says whether it was shown in
    /// a window of its own, which is then to be closed.
    pub fn unparent(&mut self) -> (was_external: bool)
        requires
            old(self).wf(),
        ensures
            final(self).wf(),
            was_external == old(self)@.external,
            final(self)@ == (GridStateView { external: false, ..old(self)@ }),
    {
        let was_external = self.external;
        self.external = false;
        was_external
    }

    /// Gives the grid a window of its own. Says whether one is to be opened:
    /// none is where the grid has one already.
    pub fn make_external(&mut self) -> (open: bool)
        requires
            old(self).wf(),
        ensures
            final(self).wf(),
            open == !old(self)@.external,
            final(self)@ == (GridStateView { external: true, ..old(self)@ }),
    {
        let open = !self.external;
        self.external = true;
        open
    }

    /// Says which window of the editor the grid shows.
    pub fn set_nvim_window(&mut self, window: Option<Window>)
        requires
            old(self).wf(),
        ensures
            final(self).wf(),
            final(self)@ == (GridStateView { nvim_window: window, ..old(self)@ }),
    {
        self.nvim_window = window;
    }

    /// The window of the editor that the grid shows.
    pub fn nvim_window(&self) -> (window: Option<Window>)
        ensures
            window == self@.nvim_window,
    {
        self.nvim_window
    }

    /// Takes in a `grid_line` event.
    pub fn put(&mut self, event: GridLine)
        requires
            old(self).wf(),
        ensures
            final(self).wf(),
            final(self)@ == (GridStateView {
                buffer: old(self)@.buffer.put(event.deep_view()),
                ..old(self)@
            }),
    {
        self.buffer.put(&event);
    }

    /// Takes in a `grid_resize` event.
    pub fn resize(&mut self, event: GridResize)
        requires
            old(self).wf(),
        ensures
            final(self).wf(),
            final(self)@ == old(self)@.resized(event),
    {
        match event.size() {
            Some((width, height)) => {
                self.buffer.resize(width, height);
            },
            None => {},
        }
    }

    /// Shows what was put: brings the text under the cursor up to date.
    pub fn flush(&mut self)
        requires
            old(self).wf(),
        ensures
            final(self).wf(),
            final(self)@ == old(self)@.flushed(),
    {
        if self.active {
            self.cursor.text = self.buffer.text_at(self.cursor.row, self.cursor.col);
        }
    }

    /// Blanks every cell.
    pub fn clear(&mut self)
        requires
            old(self).wf(),
        ensures
            final(self).wf(),
            final(self)@ == (GridStateView { buffer: old(self)@.buffer.cleared(), ..old(self)@ }),
    {
        self.buffer.clear();
    }

    /// Whether the cursor can go to `row` and `col`.
    pub fn can_goto(&self, col: i64, row: i64) -> (r: bool)
        requires
            self.wf(),
        ensures
            r == self@.can_goto(col, row),
    {
        let (width, height) = self.buffer.grid_size();
        if row < 0 || row as u64 >= height as u64 {
            true
        } else {
            0 <= col && (col as u64) < width as u64
        }
    }

    /// Moves the cursor to `row` and `col`. A row that the grid has not
    /// leaves the cursor where it is.
    pub fn cursor_goto(&mut self, col: i64, row: i64)
        requires
            old(self).wf(),
            old(self)@.can_goto(col, row),
        ensures
            final(self).wf(),
            final(self)@ == old(self)@.with_cursor_at(col, row),
    {
        let (_, height) = self.buffer.grid_size();
        if row < 0 || row as u64 >= height as u64 {
            return;
        }
        let text = self.buffer.text_at(row, col);
        self.cursor = Cursor { row, col, text };
    }

    /// Takes in a `grid_scroll` event.
    pub fn scroll(&mut self, event: GridScroll)
        requires
            old(self).wf(),
        ensures
            final(self).wf(),
            final(self)@ == (GridStateView {
                buffer: old(self)@.buffer.scrolled(event),
                ..old(self)@
            }),
    {
        self.buffer.scroll(&event);
    }

    /// Takes in the mode that the editor is now in.
    pub fn mode_change(&mut self, mode: &ModeInfo)
        requires
            old(self).wf(),
        ensures
            final(self).wf(),
            final(self)@ == (GridStateView {
                mode_info: Some(mode.deep_view()),
                ..old(self)@
            }),
    {
        self.mode_info = Some(mode.clone());
    }

    /// The editor's mode, as last told.
    pub fn mode_info(&self) -> (mode: &Option<ModeInfo>)
        ensures
            mode_view(*mode) == self@.mode_info,
    {
        &self.mode_info
    }
}

impl Default for Grid {
    fn default() -> (g: Grid)
        ensures
            g.wf(),
            g@.id == 0,
    {
        Grid::new(0)
    }
}

} // verus!
