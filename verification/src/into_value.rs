//! Plain Rust values as msgpack values.

use crate::value::{lemma_array_view, Value, ValueView};
use vstd::prelude::*;

verus! {

/// A type whose values can be sent as an argument of a call.
pub trait IntoValue: Sized {
    /// The value that stands for `self`.
    spec fn value(self) -> ValueView;

    /// Turns `self` into the value that stands for it.
    fn into_value(self) -> (v: Value)
        ensures
            v@ == self.value(),
    ;
}

impl IntoValue for Value {
    open spec fn value(self) -> ValueView {
        self@
    }

    fn into_value(self) -> (v: Value) {
        self
    }
}

impl IntoValue for bool {
    open spec fn value(self) -> ValueView {
        ValueView::Bool(self)
    }

    fn into_value(self) -> (v: Value) {
        Value::Bool(self)
    }
}

impl IntoValue for i64 {
    open spec fn value(self) -> ValueView {
        ValueView::Int(self as int)
    }

    fn into_value(self) -> (v: Value) {
        Value::from_i64(self)
    }
}

impl IntoValue for u64 {
    open spec fn value(self) -> ValueView {
        ValueView::Int(self as int)
    }

    fn into_value(self) -> (v: Value) {
        Value::UInt(self)
    }
}

impl IntoValue for String {
    open spec fn value(self) -> ValueView {
        ValueView::Str(self@)
    }

    fn into_value(self) -> (v: Value) {
        Value::Str(self)
    }
}

impl<'a> IntoValue for &'a str {
    open spec fn value(self) -> ValueView {
        ValueView::Str(self@)
    }

    fn into_value(self) -> (v: Value) {
        Value::from_str(self)
    }
}

impl IntoValue for Vec<Value> {
    open spec fn value(self) -> ValueView {
        ValueView::Array(self.deep_view())
    }

    fn into_value(self) -> (v: Value) {
        proof {
            lemma_array_view(self);
        }
        Value::Array(self)
    }
}

impl<T: IntoValue> IntoValue for Option<T> {
    open spec fn value(self) -> ValueView {
        match self {
            Some(x) => x.value(),
            None => ValueView::Nil,
        }
    }

    fn into_value(self) -> (v: Value) {
        match self {
            Some(x) => x.into_value(),
            None => Value::Nil,
        }
    }
}

} // verus!
