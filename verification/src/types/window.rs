//! Handles of editor objects.

use crate::value::{Value, ValueView};
use crate::wire::decode::decode_value;
use crate::wire::format::parse;
use vstd::prelude::*;

verus! {

/// The extension type under which the editor sends window handles.
pub const WINDOW_EXT: i8 = 1;

/// The handle of an editor window. Handles have no order; they only tell
/// windows apart.
#[derive(Clone, Copy, Debug, PartialEq, Eq, Hash, Structural)]
pub struct Window {
    pub handle: i64,
}

/// The window that the value `v` stands for, if any: an extension value of
/// the window type whose bytes are exactly one msgpack integer, the handle.
pub open spec fn window_of(v: ValueView) -> Option<Window> {
    match v {
        ValueView::Ext(tag, data) => {
            if tag == WINDOW_EXT {
                match parse(data, 0) {
                    Ok((inner, used)) => {
                        if used == data.len() && inner.as_i64() is Some {
                            Some(Window { handle: inner.as_i64()->0 })
                        } else {
                            None
                        }
                    },
                    Err(_) => None,
                }
            } else {
                None
            }
        },
        _ => None,
    }
}

impl Window {
    /// Reads the window that `v` stands for.
    pub fn decode(v: &Value) -> (r: Option<Window>)
        ensures
            r == window_of(v@),
    {
        match v {
            Value::Ext(tag, data) => {
                if *tag != WINDOW_EXT {
                    return None;
                }
                assert(data@.skip(0) =~= data@);
                match decode_value(data.as_slice(), 0, 0) {
                    Ok((inner, used)) => {
                        if used != data.len() {
                            return None;
                        }
                        match inner.as_i64() {
                            Some(handle) => Some(Window { handle }),
                            None => None,
                        }
                    },
                    Err(_) => None,
                }
            },
            _ => None,
        }
    }
}

} // verus!
