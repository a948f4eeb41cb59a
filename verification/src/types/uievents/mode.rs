//! The events that tell of the editor's modes.

use crate::types::fields::{
    array_at, bool_at, decode_each, fields_of, parse_each, same_text, Decode, Fields,
};
use crate::value::{Value, ValueView};
use vstd::prelude::*;

verus! {

/// The shape of the cursor.
#[derive(Clone, Copy, Debug, PartialEq, Eq, Structural)]
pub enum CursorShape {
    Block,
    Horizontal,
    Vertical,
}

/// The shape that `name` names, if any.
pub open spec fn shape_of(name: Seq<char>) -> Option<CursorShape> {
    if name == "block"@ {
        Some(CursorShape::Block)
    } else if name == "horizontal"@ {
        Some(CursorShape::Horizontal)
    } else if name == "vertical"@ {
        Some(CursorShape::Vertical)
    } else {
        None
    }
}

impl CursorShape {
    /// The shape that `name` names.
    pub fn from_name(name: &str) -> (r: Option<CursorShape>)
        ensures
            r == shape_of(name@),
    {
        if same_text(name, "block") {
            Some(CursorShape::Block)
        } else if same_text(name, "horizontal") {
            Some(CursorShape::Horizontal)
        } else if same_text(name, "vertical") {
            Some(CursorShape::Vertical)
        } else {
            None
        }
    }
}

/// How the cursor looks in one mode of the editor. What the editor does not
/// say is `None`.
#[derive(Debug, PartialEq, Eq)]
pub struct ModeInfo {
    pub cursor_shape: Option<CursorShape>,
    pub cell_percentage: Option<i64>,
    pub blinkwait: Option<i64>,
    pub blinkon: Option<i64>,
    pub blinkoff: Option<i64>,
    pub attr_id: Option<i64>,
    pub attr_id_lm: Option<i64>,
    pub short_name: Option<String>,
    pub name: Option<String>,
}

/// Mathematical model of a [`ModeInfo`].
pub struct ModeInfoView {
    pub cursor_shape: Option<CursorShape>,
    pub cell_percentage: Option<i64>,
    pub blinkwait: Option<i64>,
    pub blinkon: Option<i64>,
    pub blinkoff: Option<i64>,
    pub attr_id: Option<i64>,
    pub attr_id_lm: Option<i64>,
    pub short_name: Option<Seq<char>>,
    pub name: Option<Seq<char>>,
}

/// The model of an optional text.
pub open spec fn text_view(text: Option<String>) -> Option<Seq<char>> {
    match text {
        Some(s) => Some(s@),
        None => None,
    }
}

impl DeepView for ModeInfo {
    type V = ModeInfoView;

    open spec fn deep_view(&self) -> ModeInfoView {
        ModeInfoView {
            cursor_shape: self.cursor_shape,
            cell_percentage: self.cell_percentage,
            blinkwait: self.blinkwait,
            blinkon: self.blinkon,
            blinkoff: self.blinkoff,
            attr_id: self.attr_id,
            attr_id_lm: self.attr_id_lm,
            short_name: text_view(self.short_name),
            name: text_view(self.name),
        }
    }
}

/// A copy of an optional text.
fn clone_text(text: &Option<String>) -> (copy: Option<String>)
    ensures
        text_view(copy) == text_view(*text),
{
    match text {
        Some(s) => Some(s.clone()),
        None => None,
    }
}

impl Clone for ModeInfo {
    fn clone(&self) -> (copy: ModeInfo)
        ensures
            copy.deep_view() == self.deep_view(),
    {
        ModeInfo {
            cursor_shape: self.cursor_shape,
            cell_percentage: self.cell_percentage,
            blinkwait: self.blinkwait,
            blinkon: self.blinkon,
            blinkoff: self.blinkoff,
            attr_id: self.attr_id,
            attr_id_lm: self.attr_id_lm,
            short_name: clone_text(&self.short_name),
            name: clone_text(&self.name),
        }
    }
}

impl ModeInfoView {
    /// A mode of which nothing is said.
    pub open spec fn blank() -> ModeInfoView {
        ModeInfoView {
            cursor_shape: None,
            cell_percentage: None,
            blinkwait: None,
            blinkon: None,
            blinkoff: None,
            attr_id: None,
            attr_id_lm: None,
            short_name: None,
            name: None,
        }
    }

    /// The mode with the property that `key` names set to `value`; the same
    /// mode where `key` names none; nothing where `value` has not the type
    /// of the property.
    pub open spec fn with(self, key: Seq<char>, value: ValueView) -> Option<ModeInfoView> {
        if key == "cursor_shape"@ {
            match value {
                ValueView::Str(name) => match shape_of(name) {
                    Some(shape) => Some(ModeInfoView { cursor_shape: Some(shape), ..self }),
                    None => None,
                },
                _ => None,
            }
        } else if key == "cell_percentage"@ {
            match value.as_i64() {
                Some(n) => Some(ModeInfoView { cell_percentage: Some(n), ..self }),
                None => None,
            }
        } else if key == "blinkwait"@ {
            match value.as_i64() {
                Some(n) => Some(ModeInfoView { blinkwait: Some(n), ..self }),
                None => None,
            }
        } else if key == "blinkon"@ {
            match value.as_i64() {
                Some(n) => Some(ModeInfoView { blinkon: Some(n), ..self }),
                None => None,
            }
        } else if key == "blinkoff"@ {
            match value.as_i64() {
                Some(n) => Some(ModeInfoView { blinkoff: Some(n), ..self }),
                None => None,
            }
        } else if key == "attr_id"@ {
            match value.as_i64() {
                Some(n) => Some(ModeInfoView { attr_id: Some(n), ..self }),
                None => None,
            }
        } else if key == "attr_id_lm"@ {
            match value.as_i64() {
                Some(n) => Some(ModeInfoView { attr_id_lm: Some(n), ..self }),
                None => None,
            }
        } else if key == "short_name"@ {
            match value {
                ValueView::Str(s) => Some(ModeInfoView { short_name: Some(s), ..self }),
                _ => None,
            }
        } else if key == "name"@ {
            match value {
                ValueView::Str(s) => Some(ModeInfoView { name: Some(s), ..self }),
                _ => None,
            }
        } else {
            Some(self)
        }
    }

    /// The mode that the map `pairs` spells: each pair sets the property
    /// that its key names, a later pair over an earlier one. Every key is a
    /// string; keys that name no property are passed over.
    pub open spec fn of(pairs: Seq<(ValueView, ValueView)>) -> Option<ModeInfoView>
        decreases pairs.len(),
    {
        if pairs.len() == 0 {
            Some(ModeInfoView::blank())
        } else {
            match ModeInfoView::of(pairs.drop_last()) {
                None => None,
                Some(mode) => match pairs.last().0 {
                    ValueView::Str(key) => mode.with(key, pairs.last().1),
                    _ => None,
                },
            }
        }
    }
}

/// Once a map spells no mode, no longer map does.
proof fn lemma_mode_fails(pairs: Seq<(ValueView, ValueView)>, upto: int)
    requires
        0 <= upto <= pairs.len(),
        ModeInfoView::of(pairs.take(upto)) is None,
    ensures
        ModeInfoView::of(pairs) is None,
    decreases pairs.len(),
{
    if upto < pairs.len() {
        assert(pairs.drop_last().take(upto) =~= pairs.take(upto));
        lemma_mode_fails(pairs.drop_last(), upto);
    } else {
        assert(pairs.take(upto) =~= pairs);
    }
}

impl ModeInfo {
    /// A mode of which nothing is said.
    pub fn new() -> (mode: ModeInfo)
        ensures
            mode.deep_view() == ModeInfoView::blank(),
    {
        ModeInfo {
            cursor_shape: None,
            cell_percentage: None,
            blinkwait: None,
            blinkon: None,
            blinkoff: None,
            attr_id: None,
            attr_id_lm: None,
            short_name: None,
            name: None,
        }
    }

    /// Sets the property that `key` names, if there is one and `value` has
    /// its type.
    fn set(self, key: &str, value: &Value) -> (r: Option<ModeInfo>)
        ensures
            match self.deep_view().with(key@, value@) {
                Some(mode) => r matches Some(m) && m.deep_view() == mode,
                None => r is None,
            },
    {
        let mut mode = self;
        if same_text(key, "cursor_shape") {
            let shape = match value.as_str() {
                Some(name) => CursorShape::from_name(name),
                None => None,
            };
            if shape.is_none() {
                return None;
            }
            mode.cursor_shape = shape;
        } else if same_text(key, "cell_percentage") {
            let n = value.as_i64();
            if n.is_none() {
                return None;
            }
            mode.cell_percentage = n;
        } else if same_text(key, "blinkwait") {
            let n = value.as_i64();
            if n.is_none() {
                return None;
            }
            mode.blinkwait = n;
        } else if same_text(key, "blinkon") {
            let n = value.as_i64();
            if n.is_none() {
                return None;
            }
            mode.blinkon = n;
        } else if same_text(key, "blinkoff") {
            let n = value.as_i64();
            if n.is_none() {
                return None;
            }
            mode.blinkoff = n;
        } else if same_text(key, "attr_id") {
            let n = value.as_i64();
            if n.is_none() {
                return None;
            }
            mode.attr_id = n;
        } else if same_text(key, "attr_id_lm") {
            let n = value.as_i64();
            if n.is_none() {
                return None;
            }
            mode.attr_id_lm = n;
        } else if same_text(key, "short_name") {
            match value.as_str() {
                Some(s) => {
                    mode.short_name = Some(s.to_owned());
                },
                None => {
                    return None;
                },
            }
        } else if same_text(key, "name") {
            match value.as_str() {
                Some(s) => {
                    mode.name = Some(s.to_owned());
                },
                None => {
                    return None;
                },
            }
        }
        Some(mode)
    }

    /// Reads the mode that the map `pairs` spells.
    pub fn from_pairs(pairs: &Vec<(Value, Value)>) -> (r: Option<ModeInfo>)
        ensures
            match ModeInfoView::of(pairs.deep_view()) {
                Some(mode) => r matches Some(m) && m.deep_view() == mode,
                None => r is None,
            },
    {
        let ghost model = pairs.deep_view();
        let mut mode = ModeInfo::new();
        let mut i: usize = 0;
        while i < pairs.len()
            invariant
                i <= pairs@.len(),
                model == pairs.deep_view(),
                ModeInfoView::of(model.take(i as int)) == Some(mode.deep_view()),
            decreases pairs@.len() - i,
        {
            proof {
                let upto = model.take(i + 1);
                assert(upto.drop_last() =~= model.take(i as int));
                assert(upto.last() == (pairs@[i as int].0@, pairs@[i as int].1@));
            }
            let next = match pairs[i].0.as_str() {
                Some(key) => mode.set(key, &pairs[i].1),
                None => None,
            };
            match next {
                Some(m) => {
                    mode = m;
                },
                None => {
                    proof {
                        lemma_mode_fails(model, i + 1);
                    }
                    return None;
                },
            }
            i = i + 1;
        }
        assert(model.take(i as int) =~= model);
        Some(mode)
    }
}

impl Decode for ModeInfo {
    open spec fn parse(v: ValueView) -> Result<ModeInfoView, nat> {
        match v {
            ValueView::Dict(pairs) => match ModeInfoView::of(pairs) {
                Some(mode) => Ok(mode),
                None => Err(0),
            },
            _ => Err(0),
        }
    }

    fn decode(v: &Value) -> (r: Result<ModeInfo, usize>) {
        match v.as_dict() {
            Some(pairs) => match ModeInfo::from_pairs(pairs) {
                Some(mode) => Ok(mode),
                None => Err(0),
            },
            None => Err(0),
        }
    }
}

/// `mode_info_set`: the list of the editor's modes, and whether the UI is
/// to style the cursor by it.
#[derive(Clone, Debug, PartialEq, Eq)]
pub struct ModeInfoSet {
    pub cursor_style_enabled: bool,
    pub mode_info: Vec<ModeInfo>,
}

/// Mathematical model of a [`ModeInfoSet`].
pub struct ModeInfoSetView {
    pub cursor_style_enabled: bool,
    pub mode_info: Seq<ModeInfoView>,
}

impl DeepView for ModeInfoSet {
    type V = ModeInfoSetView;

    open spec fn deep_view(&self) -> ModeInfoSetView {
        ModeInfoSetView {
            cursor_style_enabled: self.cursor_style_enabled,
            mode_info: self.mode_info.deep_view(),
        }
    }
}

impl Decode for ModeInfoSet {
    open spec fn parse(v: ValueView) -> Result<ModeInfoSetView, nat> {
        let f = fields_of(v);
        match bool_at(f, 0) {
            None => Err(0),
            Some(cursor_style_enabled) => match array_at(f, 1) {
                None => Err(1),
                Some(modes) => match parse_each::<ModeInfo>(modes) {
                    Err(_) => Err(1),
                    Ok(mode_info) => Ok(ModeInfoSetView { cursor_style_enabled, mode_info }),
                },
            },
        }
    }

    fn decode(v: &Value) -> (r: Result<ModeInfoSet, usize>) {
        let f = Fields::of(v);
        let cursor_style_enabled = match f.bool_at(0) {
            Some(b) => b,
            None => {
                return Err(0);
            },
        };
        let raw = match f.array_at(1) {
            Some(raw) => raw,
            None => {
                return Err(1);
            },
        };
        assert(raw.deep_view().skip(0) =~= raw.deep_view());
        match decode_each::<ModeInfo>(raw, 0) {
            Ok(mode_info) => Ok(ModeInfoSet { cursor_style_enabled, mode_info }),
            Err(_) => Err(1),
        }
    }
}

} // verus!
