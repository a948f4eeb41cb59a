//! Colors and highlight attributes.

use crate::types::fields::same_text;
use crate::value::{Value, ValueView};
use vstd::prelude::*;

verus! {

/// A color as the editor sends it: a packed 24-bit RGB value, or the mark
/// that no color is set.
#[derive(Clone, Copy, Debug, PartialEq, Eq, Structural)]
pub enum Color {
    /// No color is set; the default applies.
    Unset,
    /// Red, green and blue, eight bits each, red in the highest.
    Rgb(u32),
}

/// The integer that stands for "no color" on the wire.
pub const UNSET: i64 = -1;

/// The largest packed RGB value.
pub const WHITE: i64 = 0xff_ffff;

/// The color that the integer `n` stands for, if any.
pub open spec fn color_of_int(n: int) -> Option<Color> {
    if n == UNSET {
        Some(Color::Unset)
    } else if 0 <= n <= WHITE {
        Some(Color::Rgb(n as u32))
    } else {
        None
    }
}

/// The color that the value `v` stands for, if any.
pub open spec fn color_of(v: ValueView) -> Option<Color> {
    match v {
        ValueView::Int(n) => color_of_int(n),
        _ => None,
    }
}

impl Color {
    /// The color that `n` stands for: none set for the sentinel -1, the RGB
    /// value for 0 to 0xffffff. No other integer is a color.
    pub fn from_i64(n: i64) -> (r: Option<Color>)
        ensures
            r == color_of_int(n as int),
    {
        if n == UNSET {
            Some(Color::Unset)
        } else if 0 <= n && n <= WHITE {
            Some(Color::Rgb(n as u32))
        } else {
            None
        }
    }

    /// The color that `v` stands for.
    pub fn decode(v: &Value) -> (r: Option<Color>)
        ensures
            r == color_of(v@),
    {
        match v.as_i64() {
            Some(n) => Color::from_i64(n),
            None => None,
        }
    }

    /// The integer that stands for the color on the wire: the sentinel
    /// where none is set, else the packed RGB value.
    pub fn to_i64(&self) -> (n: i64)
        ensures
            *self is Unset ==> n == UNSET,
            self matches Color::Rgb(rgb) ==> n == rgb,
            (self matches Color::Rgb(rgb) ==> rgb <= WHITE) ==> color_of_int(n as int) == Some(
                *self,
            ),
    {
        match self {
            Color::Unset => UNSET,
            Color::Rgb(rgb) => *rgb as i64,
        }
    }

    /// Red, green and blue of a set color.
    pub fn channels(&self) -> (r: Option<(u8, u8, u8)>)
        ensures
            *self is Unset ==> r is None,
            self matches Color::Rgb(rgb) ==> r == Some(
                ((rgb / 0x1_0000 % 0x100) as u8, (rgb / 0x100 % 0x100) as u8, (rgb % 0x100) as u8),
            ),
    {
        match self {
            Color::Unset => None,
            Color::Rgb(rgb) => Some(
                ((*rgb / 0x1_0000 % 0x100) as u8, (*rgb / 0x100 % 0x100) as u8, (*rgb % 0x100) as u8),
            ),
        }
    }
}

/// The attributes of one highlight.
#[derive(Clone, Copy, Debug, PartialEq, Eq, Structural)]
pub struct HlAttr {
    pub foreground: Color,
    pub background: Color,
    pub special: Color,
    pub reverse: bool,
    pub italic: bool,
    pub bold: bool,
    pub strikethrough: bool,
    pub underline: bool,
    pub undercurl: bool,
    pub underdouble: bool,
    pub underdotted: bool,
    pub underdashed: bool,
    pub blend: i64,
}

impl HlAttr {
    /// The attributes of a highlight that sets nothing.
    pub open spec fn plain() -> HlAttr {
        HlAttr {
            foreground: Color::Unset,
            background: Color::Unset,
            special: Color::Unset,
            reverse: false,
            italic: false,
            bold: false,
            strikethrough: false,
            underline: false,
            undercurl: false,
            underdouble: false,
            underdotted: false,
            underdashed: false,
            blend: 0,
        }
    }

    /// The attributes with the one that `key` names set to `value`; the same
    /// attributes where `key` names none; nothing where `value` has not the
    /// type of the attribute.
    pub open spec fn with(self, key: Seq<char>, value: ValueView) -> Option<HlAttr> {
        if key == "foreground"@ {
            match color_of(value) {
                Some(c) => Some(HlAttr { foreground: c, ..self }),
                None => None,
            }
        } else if key == "background"@ {
            match color_of(value) {
                Some(c) => Some(HlAttr { background: c, ..self }),
                None => None,
            }
        } else if key == "special"@ {
            match color_of(value) {
                Some(c) => Some(HlAttr { special: c, ..self }),
                None => None,
            }
        } else if key == "blend"@ {
            match value.as_i64() {
                Some(n) => Some(HlAttr { blend: n, ..self }),
                None => None,
            }
        } else if key == "reverse"@ {
            match value.as_bool() {
                Some(b) => Some(HlAttr { reverse: b, ..self }),
                None => None,
            }
        } else if key == "italic"@ {
            match value.as_bool() {
                Some(b) => Some(HlAttr { italic: b, ..self }),
                None => None,
            }
        } else if key == "bold"@ {
            match value.as_bool() {
                Some(b) => Some(HlAttr { bold: b, ..self }),
                None => None,
            }
        } else if key == "strikethrough"@ {
            match value.as_bool() {
                Some(b) => Some(HlAttr { strikethrough: b, ..self }),
                None => None,
            }
        } else if key == "underline"@ {
            match value.as_bool() {
                Some(b) => Some(HlAttr { underline: b, ..self }),
                None => None,
            }
        } else if key == "undercurl"@ {
            match value.as_bool() {
                Some(b) => Some(HlAttr { undercurl: b, ..self }),
                None => None,
            }
        } else if key == "underdouble"@ {
            match value.as_bool() {
                Some(b) => Some(HlAttr { underdouble: b, ..self }),
                None => None,
            }
        } else if key == "underdotted"@ {
            match value.as_bool() {
                Some(b) => Some(HlAttr { underdotted: b, ..self }),
                None => None,
            }
        } else if key == "underdashed"@ {
            match value.as_bool() {
                Some(b) => Some(HlAttr { underdashed: b, ..self }),
                None => None,
            }
        } else {
            Some(self)
        }
    }

    /// The attributes that the map `pairs` spells: each pair sets the
    /// attribute that its key names, a later pair over an earlier one. Every
    /// key is a string; keys that name no attribute are passed over.
    pub open spec fn of(pairs: Seq<(ValueView, ValueView)>) -> Option<HlAttr>
        decreases pairs.len(),
    {
        if pairs.len() == 0 {
            Some(HlAttr::plain())
        } else {
            match HlAttr::of(pairs.drop_last()) {
                None => None,
                Some(attr) => match pairs.last().0 {
                    ValueView::Str(key) => attr.with(key, pairs.last().1),
                    _ => None,
                },
            }
        }
    }

    /// A highlight that sets nothing.
    pub fn new() -> (attr: HlAttr)
        ensures
            attr == HlAttr::plain(),
    {
        HlAttr {
            foreground: Color::Unset,
            background: Color::Unset,
            special: Color::Unset,
            reverse: false,
            italic: false,
            bold: false,
            strikethrough: false,
            underline: false,
            undercurl: false,
            underdouble: false,
            underdotted: false,
            underdashed: false,
            blend: 0,
        }
    }

    /// Sets the color that `key` names, if `value` is a color.
    fn set_color(self, key: &str, value: &Value) -> (r: Option<HlAttr>)
        requires
            key@ == "foreground"@ || key@ == "background"@ || key@ == "special"@,
        ensures
            r == self.with(key@, value@),
    {
        let color = match Color::decode(value) {
            Some(color) => color,
            None => {
                return None;
            },
        };
        let mut attr = self;
        if same_text(key, "foreground") {
            attr.foreground = color;
        } else if same_text(key, "background") {
            attr.background = color;
        } else {
            attr.special = color;
        }
        Some(attr)
    }

    /// Sets the attribute that `key` names, if there is one and `value` has
    /// its type.
    fn set(self, key: &str, value: &Value) -> (r: Option<HlAttr>)
        ensures
            r == self.with(key@, value@),
    {
        if same_text(key, "foreground") || same_text(key, "background") || same_text(
            key,
            "special",
        ) {
            return self.set_color(key, value);
        }
        let mut attr = self;
        if same_text(key, "blend") {
            match value.as_i64() {
                Some(n) => {
                    attr.blend = n;
                    return Some(attr);
                },
                None => {
                    return None;
                },
            }
        }
        let known = same_text(key, "reverse") || same_text(key, "italic") || same_text(key, "bold")
            || same_text(key, "strikethrough") || same_text(key, "underline") || same_text(
            key,
            "undercurl",
        ) || same_text(key, "underdouble") || same_text(key, "underdotted") || same_text(
            key,
            "underdashed",
        );
        if !known {
            return Some(attr);
        }
        let on = match value.as_bool() {
            Some(on) => on,
            None => {
                return None;
            },
        };
        if same_text(key, "reverse") {
            attr.reverse = on;
        } else if same_text(key, "italic") {
            attr.italic = on;
        } else if same_text(key, "bold") {
            attr.bold = on;
        } else if same_text(key, "strikethrough") {
            attr.strikethrough = on;
        } else if same_text(key, "underline") {
            attr.underline = on;
        } else if same_text(key, "undercurl") {
            attr.undercurl = on;
        } else if same_text(key, "underdouble") {
            attr.underdouble = on;
        } else if same_text(key, "underdotted") {
            attr.underdotted = on;
        } else {
            attr.underdashed = on;
        }
        Some(attr)
    }

    /// Reads the attributes that the map `pairs` spells.
    pub fn decode(pairs: &Vec<(Value, Value)>) -> (r: Option<HlAttr>)
        ensures
            r == HlAttr::of(pairs.deep_view()),
    {
        let ghost model = pairs.deep_view();
        let mut attr = HlAttr::new();
        let mut i: usize = 0;
        while i < pairs.len()
            invariant
                i <= pairs@.len(),
                model == pairs.deep_view(),
                HlAttr::of(model.take(i as int)) == Some(attr),
            decreases pairs@.len() - i,
        {
            proof {
                let upto = model.take(i + 1);
                assert(upto.drop_last() =~= model.take(i as int));
                assert(upto.last() == (pairs@[i as int].0@, pairs@[i as int].1@));
            }
            let next = match pairs[i].0.as_str() {
                Some(key) => attr.set(key, &pairs[i].1),
                None => None,
            };
            match next {
                Some(a) => {
                    attr = a;
                },
                None => {
                    proof {
                        lemma_attr_fails(model, i + 1);
                    }
                    return None;
                },
            }
            i = i + 1;
        }
        assert(model.take(i as int) =~= model);
        Some(attr)
    }
}

/// Once a map spells no attributes, no longer map does.
proof fn lemma_attr_fails(pairs: Seq<(ValueView, ValueView)>, upto: int)
    requires
        0 <= upto <= pairs.len(),
        HlAttr::of(pairs.take(upto)) is None,
    ensures
        HlAttr::of(pairs) is None,
    decreases pairs.len(),
{
    if upto < pairs.len() {
        assert(pairs.drop_last().take(upto) =~= pairs.take(upto));
        lemma_attr_fails(pairs.drop_last(), upto);
    } else {
        assert(pairs.take(upto) =~= pairs);
    }
}

} // verus!
