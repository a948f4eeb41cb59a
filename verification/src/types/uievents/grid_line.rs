//! The event that fills the cells of a grid.

use crate::types::fields::{
    array_at, decode_each, fields_of, int_at, ints_at, parse_each, str_at, Decode, Fields,
};
use crate::value::{Value, ValueView};
use vstd::prelude::*;

verus! {

/// One run of equal cells in a line of a grid.
#[derive(Clone, Debug, PartialEq, Eq)]
pub struct GridLineCell {
    /// What each cell of the run shows.
    pub text: String,
    /// The highlight of the run; where none is given, that of the run before.
    pub hl_id: Option<i64>,
    /// How many cells the run has; one where none is given.
    pub repeat: Option<i64>,
}

/// Mathematical model of a [`GridLineCell`].
pub struct GridLineCellView {
    pub text: Seq<char>,
    pub hl_id: Option<i64>,
    pub repeat: Option<i64>,
}

impl DeepView for GridLineCell {
    type V = GridLineCellView;

    open spec fn deep_view(&self) -> GridLineCellView {
        GridLineCellView { text: self.text@, hl_id: self.hl_id, repeat: self.repeat }
    }
}

impl Decode for GridLineCell {
    open spec fn parse(v: ValueView) -> Result<GridLineCellView, nat> {
        let f = fields_of(v);
        if str_at(f, 0) is None {
            Err(0)
        } else if f.len() > 1 && int_at(f, 1) is None {
            Err(1)
        } else if f.len() > 2 && int_at(f, 2) is None {
            Err(2)
        } else {
            Ok(
                GridLineCellView {
                    text: str_at(f, 0)->0,
                    hl_id: int_at(f, 1),
                    repeat: int_at(f, 2),
                },
            )
        }
    }

    fn decode(v: &Value) -> (r: Result<GridLineCell, usize>) {
        let f = Fields::of(v);
        let text = match f.str_at(0) {
            Some(s) => s,
            None => {
                return Err(0);
            },
        };
        let hl_id = f.int_at(1);
        if f.get(1).is_some() && hl_id.is_none() {
            return Err(1);
        }
        let repeat = f.int_at(2);
        if f.get(2).is_some() && repeat.is_none() {
            return Err(2);
        }
        Ok(GridLineCell { text, hl_id, repeat })
    }
}

/// `grid_line`: part of a line of a grid gets new cells, from a column on.
#[derive(Clone, Debug, PartialEq, Eq)]
pub struct GridLine {
    pub grid: i64,
    pub row: i64,
    pub col_start: i64,
    pub cells: Vec<GridLineCell>,
}

/// Mathematical model of a [`GridLine`].
pub struct GridLineView {
    pub grid: i64,
    pub row: i64,
    pub col_start: i64,
    pub cells: Seq<GridLineCellView>,
}

impl DeepView for GridLine {
    type V = GridLineView;

    open spec fn deep_view(&self) -> GridLineView {
        GridLineView {
            grid: self.grid,
            row: self.row,
            col_start: self.col_start,
            cells: self.cells.deep_view(),
        }
    }
}

impl Decode for GridLine {
    open spec fn parse(v: ValueView) -> Result<GridLineView, nat> {
        let f = fields_of(v);
        match ints_at(f, 0, 3) {
            Err(i) => Err(i),
            Ok(n) => match array_at(f, 3) {
                None => Err(3),
                Some(cells) => match parse_each::<GridLineCell>(cells) {
                    Err(_) => Err(3),
                    Ok(cells) => Ok(
                        GridLineView { grid: n[0], row: n[1], col_start: n[2], cells },
                    ),
                },
            },
        }
    }

    fn decode(v: &Value) -> (r: Result<GridLine, usize>) {
        let f = Fields::of(v);
        let n = match f.ints_at(0, 3) {
            Ok(n) => n,
            Err(i) => {
                return Err(i);
            },
        };
        let raw = match f.array_at(3) {
            Some(raw) => raw,
            None => {
                return Err(3);
            },
        };
        assert(raw.deep_view().skip(0) =~= raw.deep_view());
        match decode_each::<GridLineCell>(raw, 0) {
            Ok(cells) => Ok(GridLine { grid: n[0], row: n[1], col_start: n[2], cells }),
            Err(_) => Err(3),
        }
    }
}

} // verus!
