//! The event that defines a highlight.

use crate::types::color::HlAttr;
use crate::types::fields::{array_at, dict_at, fields_of, int_at, Decode, Fields};
use crate::value::{clone_values, Value, ValueView};
use vstd::prelude::*;

verus! {

/// `hl_attr_define`: a highlight id gets its attributes.
#[derive(Clone, Debug, PartialEq, Eq)]
pub struct HlAttrDefine {
    pub id: i64,
    /// The attributes for a UI that shows RGB colors.
    pub rgb_attrs: HlAttr,
    /// The attributes for a terminal of 256 colors.
    pub cterm_attrs: HlAttr,
    /// How the highlight came about, as the editor sent it.
    pub info: Vec<Value>,
}

/// Mathematical model of an [`HlAttrDefine`].
pub struct HlAttrDefineView {
    pub id: i64,
    pub rgb_attrs: HlAttr,
    pub cterm_attrs: HlAttr,
    pub info: Seq<ValueView>,
}

impl DeepView for HlAttrDefine {
    type V = HlAttrDefineView;

    open spec fn deep_view(&self) -> HlAttrDefineView {
        HlAttrDefineView {
            id: self.id,
            rgb_attrs: self.rgb_attrs,
            cterm_attrs: self.cterm_attrs,
            info: self.info.deep_view(),
        }
    }
}

/// The attributes that the map at place `i` spells, where there is one that
/// spells any.
pub open spec fn attrs_at(fields: Seq<ValueView>, i: int) -> Option<HlAttr> {
    match dict_at(fields, i) {
        Some(pairs) => HlAttr::of(pairs),
        None => None,
    }
}

fn read_attrs(f: &Fields, i: usize) -> (r: Option<HlAttr>)
    ensures
        r == attrs_at(f@, i as int),
{
    match f.dict_at(i) {
        Some(pairs) => HlAttr::decode(pairs),
        None => None,
    }
}

impl Decode for HlAttrDefine {
    open spec fn parse(v: ValueView) -> Result<HlAttrDefineView, nat> {
        let f = fields_of(v);
        if int_at(f, 0) is None {
            Err(0)
        } else if attrs_at(f, 1) is None {
            Err(1)
        } else if attrs_at(f, 2) is None {
            Err(2)
        } else if array_at(f, 3) is None {
            Err(3)
        } else {
            Ok(
                HlAttrDefineView {
                    id: int_at(f, 0)->0,
                    rgb_attrs: attrs_at(f, 1)->0,
                    cterm_attrs: attrs_at(f, 2)->0,
                    info: array_at(f, 3)->0,
                },
            )
        }
    }

    fn decode(v: &Value) -> (r: Result<HlAttrDefine, usize>) {
        let f = Fields::of(v);
        let id = match f.int_at(0) {
            Some(n) => n,
            None => {
                return Err(0);
            },
        };
        let rgb_attrs = match read_attrs(&f, 1) {
            Some(a) => a,
            None => {
                return Err(1);
            },
        };
        let cterm_attrs = match read_attrs(&f, 2) {
            Some(a) => a,
            None => {
                return Err(2);
            },
        };
        let info = match f.array_at(3) {
            Some(raw) => clone_values(raw),
            None => {
                return Err(3);
            },
        };
        Ok(HlAttrDefine { id, rgb_attrs, cterm_attrs, info })
    }
}

} // verus!
