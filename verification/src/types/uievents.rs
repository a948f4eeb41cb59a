//! The records of the redraw events, one type per kind of event.

pub mod grid_line;
pub mod hl;
pub mod mode;
pub mod popupmenu;
pub mod text;

pub use crate::api::UiOptions;
pub use grid_line::{GridLine, GridLineCell, GridLineCellView, GridLineView};
pub use hl::{HlAttrDefine, HlAttrDefineView};
pub use mode::{CursorShape, ModeInfo, ModeInfoSet, ModeInfoSetView, ModeInfoView};
pub use popupmenu::{PopupmenuItem, PopupmenuItemView, PopupmenuShow, PopupmenuShowView};
pub use text::{
    HlGroupSet, HlGroupSetView, ModeChange, ModeChangeView, OptionSet, OptionSetView, SetIcon,
    SetIconView, SetTitle, SetTitleView,
};

use crate::types::color::Color;
use crate::types::fields::{color_at, fields_of, int_at, ints_at, window_at, Decode, Fields};
use crate::types::window::Window;
use crate::value::{Value, ValueView};
use vstd::prelude::*;

verus! {

/// An occurrence of an event that carries nothing.
#[derive(Clone, Copy, Debug, PartialEq, Eq, Structural)]
pub struct NoFields;

impl DeepView for NoFields {
    type V = NoFields;

    open spec fn deep_view(&self) -> NoFields {
        *self
    }
}

impl Decode for NoFields {
    open spec fn parse(v: ValueView) -> Result<NoFields, nat> {
        Ok(NoFields)
    }

    fn decode(v: &Value) -> (r: Result<NoFields, usize>) {
        Ok(NoFields)
    }
}

/// `default_colors_set`: the colors of text that no highlight colors.
#[derive(Clone, Copy, Debug, PartialEq, Eq, Structural)]
pub struct DefaultColorsSet {
    pub rgb_fg: Color,
    pub rgb_bg: Color,
    pub rgb_sp: Color,
    pub cterm_fg: i64,
    pub cterm_bg: i64,
}

impl DeepView for DefaultColorsSet {
    type V = DefaultColorsSet;

    open spec fn deep_view(&self) -> DefaultColorsSet {
        *self
    }
}

impl Decode for DefaultColorsSet {
    open spec fn parse(v: ValueView) -> Result<DefaultColorsSet, nat> {
        let f = fields_of(v);
        if color_at(f, 0) is None {
            Err(0)
        } else if color_at(f, 1) is None {
            Err(1)
        } else if color_at(f, 2) is None {
            Err(2)
        } else {
            match ints_at(f, 3, 2) {
                Ok(n) => Ok(
                    DefaultColorsSet {
                        rgb_fg: color_at(f, 0)->0,
                        rgb_bg: color_at(f, 1)->0,
                        rgb_sp: color_at(f, 2)->0,
                        cterm_fg: n[0],
                        cterm_bg: n[1],
                    },
                ),
                Err(i) => Err(i),
            }
        }
    }

    fn decode(v: &Value) -> (r: Result<DefaultColorsSet, usize>) {
        let f = Fields::of(v);
        let rgb_fg = match f.color_at(0) {
            Some(c) => c,
            None => {
                return Err(0);
            },
        };
        let rgb_bg = match f.color_at(1) {
            Some(c) => c,
            None => {
                return Err(1);
            },
        };
        let rgb_sp = match f.color_at(2) {
            Some(c) => c,
            None => {
                return Err(2);
            },
        };
        match f.ints_at(3, 2) {
            Ok(n) => Ok(DefaultColorsSet { rgb_fg, rgb_bg, rgb_sp, cterm_fg: n[0], cterm_bg: n[1] }),
            Err(i) => Err(i),
        }
    }
}

/// `grid_resize`: a grid gets a new size; it is made if it was not there.
#[derive(Clone, Copy, Debug, PartialEq, Eq, Structural)]
pub struct GridResize {
    pub grid: i64,
    pub width: i64,
    pub height: i64,
}

impl DeepView for GridResize {
    type V = GridResize;

    open spec fn deep_view(&self) -> GridResize {
        *self
    }
}

impl Decode for GridResize {
    open spec fn parse(v: ValueView) -> Result<GridResize, nat> {
        match ints_at(fields_of(v), 0, 3) {
            Ok(n) => Ok(GridResize { grid: n[0], width: n[1], height: n[2] }),
            Err(i) => Err(i),
        }
    }

    fn decode(v: &Value) -> (r: Result<GridResize, usize>) {
        match Fields::of(v).ints_at(0, 3) {
            Ok(n) => Ok(GridResize { grid: n[0], width: n[1], height: n[2] }),
            Err(i) => Err(i),
        }
    }
}

/// `grid_clear`: a grid is emptied.
#[derive(Clone, Copy, Debug, PartialEq, Eq, Structural)]
pub struct GridClear {
    pub grid: i64,
}

impl DeepView for GridClear {
    type V = GridClear;

    open spec fn deep_view(&self) -> GridClear {
        *self
    }
}

impl Decode for GridClear {
    open spec fn parse(v: ValueView) -> Result<GridClear, nat> {
        match ints_at(fields_of(v), 0, 1) {
            Ok(n) => Ok(GridClear { grid: n[0] }),
            Err(i) => Err(i),
        }
    }

    fn decode(v: &Value) -> (r: Result<GridClear, usize>) {
        match Fields::of(v).ints_at(0, 1) {
            Ok(n) => Ok(GridClear { grid: n[0] }),
            Err(i) => Err(i),
        }
    }
}

/// `grid_destroy`: a grid is gone.
#[derive(Clone, Copy, Debug, PartialEq, Eq, Structural)]
pub struct GridDestroy {
    pub grid: i64,
}

impl DeepView for GridDestroy {
    type V = GridDestroy;

    open spec fn deep_view(&self) -> GridDestroy {
        *self
    }
}

impl Decode for GridDestroy {
    open spec fn parse(v: ValueView) -> Result<GridDestroy, nat> {
        match ints_at(fields_of(v), 0, 1) {
            Ok(n) => Ok(GridDestroy { grid: n[0] }),
            Err(i) => Err(i),
        }
    }

    fn decode(v: &Value) -> (r: Result<GridDestroy, usize>) {
        match Fields::of(v).ints_at(0, 1) {
            Ok(n) => Ok(GridDestroy { grid: n[0] }),
            Err(i) => Err(i),
        }
    }
}

/// `grid_cursor_goto`: the cursor moves to a cell of a grid.
#[derive(Clone, Copy, Debug, PartialEq, Eq, Structural)]
pub struct GridCursorGoto {
    pub grid: i64,
    pub row: i64,
    pub col: i64,
}

impl DeepView for GridCursorGoto {
    type V = GridCursorGoto;

    open spec fn deep_view(&self) -> GridCursorGoto {
        *self
    }
}

impl Decode for GridCursorGoto {
    open spec fn parse(v: ValueView) -> Result<GridCursorGoto, nat> {
        match ints_at(fields_of(v), 0, 3) {
            Ok(n) => Ok(GridCursorGoto { grid: n[0], row: n[1], col: n[2] }),
            Err(i) => Err(i),
        }
    }

    fn decode(v: &Value) -> (r: Result<GridCursorGoto, usize>) {
        match Fields::of(v).ints_at(0, 3) {
            Ok(n) => Ok(GridCursorGoto { grid: n[0], row: n[1], col: n[2] }),
            Err(i) => Err(i),
        }
    }
}

/// `grid_scroll`: a region of a grid scrolls by rows and columns.
#[derive(Clone, Copy, Debug, PartialEq, Eq, Structural)]
pub struct GridScroll {
    pub grid: i64,
    pub top: i64,
    pub bot: i64,
    pub left: i64,
    pub right: i64,
    pub rows: i64,
    pub cols: i64,
}

impl DeepView for GridScroll {
    type V = GridScroll;

    open spec fn deep_view(&self) -> GridScroll {
        *self
    }
}

impl Decode for GridScroll {
    open spec fn parse(v: ValueView) -> Result<GridScroll, nat> {
        match ints_at(fields_of(v), 0, 7) {
            Ok(n) => Ok(
                GridScroll {
                    grid: n[0],
                    top: n[1],
                    bot: n[2],
                    left: n[3],
                    right: n[4],
                    rows: n[5],
                    cols: n[6],
                },
            ),
            Err(i) => Err(i),
        }
    }

    fn decode(v: &Value) -> (r: Result<GridScroll, usize>) {
        match Fields::of(v).ints_at(0, 7) {
            Ok(n) => Ok(
                GridScroll {
                    grid: n[0],
                    top: n[1],
                    bot: n[2],
                    left: n[3],
                    right: n[4],
                    rows: n[5],
                    cols: n[6],
                },
            ),
            Err(i) => Err(i),
        }
    }
}

/// `win_viewport`: which part of its buffer a window shows.
#[derive(Clone, Copy, Debug, PartialEq, Eq, Structural)]
pub struct WinViewport {
    pub grid: i64,
    pub win: Window,
    pub topline: i64,
    pub botline: i64,
    pub curline: i64,
    pub curcol: i64,
}

impl DeepView for WinViewport {
    type V = WinViewport;

    open spec fn deep_view(&self) -> WinViewport {
        *self
    }
}

impl Decode for WinViewport {
    open spec fn parse(v: ValueView) -> Result<WinViewport, nat> {
        let f = fields_of(v);
        if int_at(f, 0) is None {
            Err(0)
        } else if window_at(f, 1) is None {
            Err(1)
        } else {
            match ints_at(f, 2, 4) {
                Ok(n) => Ok(
                    WinViewport {
                        grid: int_at(f, 0)->0,
                        win: window_at(f, 1)->0,
                        topline: n[0],
                        botline: n[1],
                        curline: n[2],
                        curcol: n[3],
                    },
                ),
                Err(i) => Err(i),
            }
        }
    }

    fn decode(v: &Value) -> (r: Result<WinViewport, usize>) {
        let f = Fields::of(v);
        let grid = match f.int_at(0) {
            Some(n) => n,
            None => {
                return Err(0);
            },
        };
        let win = match f.window_at(1) {
            Some(w) => w,
            None => {
                return Err(1);
            },
        };
        match f.ints_at(2, 4) {
            Ok(n) => Ok(
                WinViewport { grid, win, topline: n[0], botline: n[1], curline: n[2], curcol: n[3] },
            ),
            Err(i) => Err(i),
        }
    }
}

/// `popupmenu_select`: an item of the popup menu is selected; -1 for none.
#[derive(Clone, Copy, Debug, PartialEq, Eq, Structural)]
pub struct PopupmenuSelect {
    pub selected: i64,
}

impl DeepView for PopupmenuSelect {
    type V = PopupmenuSelect;

    open spec fn deep_view(&self) -> PopupmenuSelect {
        *self
    }
}

impl Decode for PopupmenuSelect {
    open spec fn parse(v: ValueView) -> Result<PopupmenuSelect, nat> {
        match ints_at(fields_of(v), 0, 1) {
            Ok(n) => Ok(PopupmenuSelect { selected: n[0] }),
            Err(i) => Err(i),
        }
    }

    fn decode(v: &Value) -> (r: Result<PopupmenuSelect, usize>) {
        match Fields::of(v).ints_at(0, 1) {
            Ok(n) => Ok(PopupmenuSelect { selected: n[0] }),
            Err(i) => Err(i),
        }
    }
}

} // verus!
