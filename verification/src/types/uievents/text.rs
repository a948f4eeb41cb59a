//! Events whose records carry text.

use crate::types::fields::{any_at, fields_of, int_at, str_at, Decode, Fields};
use crate::value::{Value, ValueView};
use vstd::prelude::*;

verus! {

/// `option_set`: a UI option of the editor has a new value.
#[derive(Clone, Debug, PartialEq, Eq)]
pub struct OptionSet {
    pub name: String,
    pub value: Value,
}

/// Mathematical model of an [`OptionSet`].
pub struct OptionSetView {
    pub name: Seq<char>,
    pub value: ValueView,
}

impl DeepView for OptionSet {
    type V = OptionSetView;

    open spec fn deep_view(&self) -> OptionSetView {
        OptionSetView { name: self.name@, value: self.value@ }
    }
}

impl Decode for OptionSet {
    open spec fn parse(v: ValueView) -> Result<OptionSetView, nat> {
        let f = fields_of(v);
        if str_at(f, 0) is None {
            Err(0)
        } else if any_at(f, 1) is None {
            Err(1)
        } else {
            Ok(OptionSetView { name: str_at(f, 0)->0, value: any_at(f, 1)->0 })
        }
    }

    fn decode(v: &Value) -> (r: Result<OptionSet, usize>) {
        let f = Fields::of(v);
        let name = match f.str_at(0) {
            Some(s) => s,
            None => {
                return Err(0);
            },
        };
        let value = match f.get(1) {
            Some(value) => value.clone(),
            None => {
                return Err(1);
            },
        };
        Ok(OptionSet { name, value })
    }
}

/// `hl_group_set`: a highlight group of the editor's own UI maps to a
/// highlight.
#[derive(Clone, Debug, PartialEq, Eq)]
pub struct HlGroupSet {
    pub name: String,
    pub id: i64,
}

/// Mathematical model of an [`HlGroupSet`].
pub struct HlGroupSetView {
    pub name: Seq<char>,
    pub id: i64,
}

impl DeepView for HlGroupSet {
    type V = HlGroupSetView;

    open spec fn deep_view(&self) -> HlGroupSetView {
        HlGroupSetView { name: self.name@, id: self.id }
    }
}

impl Decode for HlGroupSet {
    open spec fn parse(v: ValueView) -> Result<HlGroupSetView, nat> {
        let f = fields_of(v);
        if str_at(f, 0) is None {
            Err(0)
        } else if int_at(f, 1) is None {
            Err(1)
        } else {
            Ok(HlGroupSetView { name: str_at(f, 0)->0, id: int_at(f, 1)->0 })
        }
    }

    fn decode(v: &Value) -> (r: Result<HlGroupSet, usize>) {
        let f = Fields::of(v);
        let name = match f.str_at(0) {
            Some(s) => s,
            None => {
                return Err(0);
            },
        };
        let id = match f.int_at(1) {
            Some(n) => n,
            None => {
                return Err(1);
            },
        };
        Ok(HlGroupSet { name, id })
    }
}

/// `mode_change`: the editor is in another mode.
#[derive(Clone, Debug, PartialEq, Eq)]
pub struct ModeChange {
    pub mode: String,
    /// The place of the mode in the list that `mode_info_set` gave.
    pub mode_idx: i64,
}

/// Mathematical model of a [`ModeChange`].
pub struct ModeChangeView {
    pub mode: Seq<char>,
    pub mode_idx: i64,
}

impl DeepView for ModeChange {
    type V = ModeChangeView;

    open spec fn deep_view(&self) -> ModeChangeView {
        ModeChangeView { mode: self.mode@, mode_idx: self.mode_idx }
    }
}

impl Decode for ModeChange {
    open spec fn parse(v: ValueView) -> Result<ModeChangeView, nat> {
        let f = fields_of(v);
        if str_at(f, 0) is None {
            Err(0)
        } else if int_at(f, 1) is None {
            Err(1)
        } else {
            Ok(ModeChangeView { mode: str_at(f, 0)->0, mode_idx: int_at(f, 1)->0 })
        }
    }

    fn decode(v: &Value) -> (r: Result<ModeChange, usize>) {
        let f = Fields::of(v);
        let mode = match f.str_at(0) {
            Some(s) => s,
            None => {
                return Err(0);
            },
        };
        let mode_idx = match f.int_at(1) {
            Some(n) => n,
            None => {
                return Err(1);
            },
        };
        Ok(ModeChange { mode, mode_idx })
    }
}

/// `set_title`: the title of the window.
#[derive(Clone, Debug, PartialEq, Eq)]
pub struct SetTitle {
    pub title: String,
}

/// Mathematical model of a [`SetTitle`].
pub struct SetTitleView {
    pub title: Seq<char>,
}

impl DeepView for SetTitle {
    type V = SetTitleView;

    open spec fn deep_view(&self) -> SetTitleView {
        SetTitleView { title: self.title@ }
    }
}

impl Decode for SetTitle {
    open spec fn parse(v: ValueView) -> Result<SetTitleView, nat> {
        match str_at(fields_of(v), 0) {
            Some(title) => Ok(SetTitleView { title }),
            None => Err(0),
        }
    }

    fn decode(v: &Value) -> (r: Result<SetTitle, usize>) {
        match Fields::of(v).str_at(0) {
            Some(title) => Ok(SetTitle { title }),
            None => Err(0),
        }
    }
}

/// `set_icon`: the title of the window when it is minimized.
#[derive(Clone, Debug, PartialEq, Eq)]
pub struct SetIcon {
    pub icon: String,
}

/// Mathematical model of a [`SetIcon`].
pub struct SetIconView {
    pub icon: Seq<char>,
}

impl DeepView for SetIcon {
    type V = SetIconView;

    open spec fn deep_view(&self) -> SetIconView {
        SetIconView { icon: self.icon@ }
    }
}

impl Decode for SetIcon {
    open spec fn parse(v: ValueView) -> Result<SetIconView, nat> {
        match str_at(fields_of(v), 0) {
            Some(icon) => Ok(SetIconView { icon }),
            None => Err(0),
        }
    }

    fn decode(v: &Value) -> (r: Result<SetIcon, usize>) {
        match Fields::of(v).str_at(0) {
            Some(icon) => Ok(SetIcon { icon }),
            None => Err(0),
        }
    }
}

} // verus!
