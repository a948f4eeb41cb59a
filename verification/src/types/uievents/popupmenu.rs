//! The events of the popup menu.

use crate::types::fields::{
    array_at, decode_each, fields_of, ints_at, parse_each, str_at, Decode, Fields,
};
use crate::value::{Value, ValueView};
use vstd::prelude::*;

verus! {

/// One line of the popup menu.
#[derive(Clone, Debug, PartialEq, Eq)]
pub struct PopupmenuItem {
    pub word: String,
    pub kind: String,
    pub menu: String,
    pub info: String,
}

/// Mathematical model of a [`PopupmenuItem`].
pub struct PopupmenuItemView {
    pub word: Seq<char>,
    pub kind: Seq<char>,
    pub menu: Seq<char>,
    pub info: Seq<char>,
}

impl DeepView for PopupmenuItem {
    type V = PopupmenuItemView;

    open spec fn deep_view(&self) -> PopupmenuItemView {
        PopupmenuItemView {
            word: self.word@,
            kind: self.kind@,
            menu: self.menu@,
            info: self.info@,
        }
    }
}

impl Decode for PopupmenuItem {
    open spec fn parse(v: ValueView) -> Result<PopupmenuItemView, nat> {
        let f = fields_of(v);
        if str_at(f, 0) is None {
            Err(0)
        } else if str_at(f, 1) is None {
            Err(1)
        } else if str_at(f, 2) is None {
            Err(2)
        } else if str_at(f, 3) is None {
            Err(3)
        } else {
            Ok(
                PopupmenuItemView {
                    word: str_at(f, 0)->0,
                    kind: str_at(f, 1)->0,
                    menu: str_at(f, 2)->0,
                    info: str_at(f, 3)->0,
                },
            )
        }
    }

    fn decode(v: &Value) -> (r: Result<PopupmenuItem, usize>) {
        let f = Fields::of(v);
        let word = match f.str_at(0) {
            Some(s) => s,
            None => {
                return Err(0);
            },
        };
        let kind = match f.str_at(1) {
            Some(s) => s,
            None => {
                return Err(1);
            },
        };
        let menu = match f.str_at(2) {
            Some(s) => s,
            None => {
                return Err(2);
            },
        };
        let info = match f.str_at(3) {
            Some(s) => s,
            None => {
                return Err(3);
            },
        };
        Ok(PopupmenuItem { word, kind, menu, info })
    }
}

/// `popupmenu_show`: the popup menu opens with these items, anchored at a
/// cell of a grid.
#[derive(Clone, Debug, PartialEq, Eq)]
pub struct PopupmenuShow {
    pub items: Vec<PopupmenuItem>,
    /// The selected item; -1 for none.
    pub selected: i64,
    pub row: i64,
    pub col: i64,
    pub grid: i64,
}

/// Mathematical model of a [`PopupmenuShow`].
pub struct PopupmenuShowView {
    pub items: Seq<PopupmenuItemView>,
    pub selected: i64,
    pub row: i64,
    pub col: i64,
    pub grid: i64,
}

impl DeepView for PopupmenuShow {
    type V = PopupmenuShowView;

    open spec fn deep_view(&self) -> PopupmenuShowView {
        PopupmenuShowView {
            items: self.items.deep_view(),
            selected: self.selected,
            row: self.row,
            col: self.col,
            grid: self.grid,
        }
    }
}

impl Decode for PopupmenuShow {
    open spec fn parse(v: ValueView) -> Result<PopupmenuShowView, nat> {
        let f = fields_of(v);
        match array_at(f, 0) {
            None => Err(0),
            Some(items) => match parse_each::<PopupmenuItem>(items) {
                Err(_) => Err(0),
                Ok(items) => match ints_at(f, 1, 4) {
                    Err(i) => Err(i),
                    Ok(n) => Ok(
                        PopupmenuShowView {
                            items,
                            selected: n[0],
                            row: n[1],
                            col: n[2],
                            grid: n[3],
                        },
                    ),
                },
            },
        }
    }

    fn decode(v: &Value) -> (r: Result<PopupmenuShow, usize>) {
        let f = Fields::of(v);
        let raw = match f.array_at(0) {
            Some(raw) => raw,
            None => {
                return Err(0);
            },
        };
        assert(raw.deep_view().skip(0) =~= raw.deep_view());
        let items = match decode_each::<PopupmenuItem>(raw, 0) {
            Ok(items) => items,
            Err(_) => {
                return Err(0);
            },
        };
        match f.ints_at(1, 4) {
            Ok(n) => Ok(PopupmenuShow { items, selected: n[0], row: n[1], col: n[2], grid: n[3] }),
            Err(i) => Err(i),
        }
    }
}

} // verus!
