//! The dynamically typed value carried by every message field, and its
//! mathematical model.

use vstd::prelude::*;
use vstd::slice::slice_to_vec;
use vstd::std_specs::cmp::PartialEqSpecImpl;

verus! {

/// Mathematical model of a [`Value`].
///
/// Integers are unbounded here; a value is representable on the wire only if
/// it is [`encodable`](crate::wire::format::encodable).
pub enum ValueView {
    Nil,
    Bool(bool),
    Int(int),
    /// IEEE-754 single, by its bit pattern.
    F32(u32),
    /// IEEE-754 double, by its bit pattern.
    F64(u64),
    Str(Seq<char>),
    Bin(Seq<u8>),
    Array(Seq<ValueView>),
    Dict(Seq<(ValueView, ValueView)>),
    Ext(i8, Seq<u8>),
}

/// A msgpack value.
///
/// Floating point numbers are held by their bit patterns, so that a value
/// survives the wire bit for bit. `Int` and `UInt` together cover the integer
/// family; both map to [`ValueView::Int`].
///
/// Two values are equal (`==`) when their models are: an integer is the
/// same whether `Int` or `UInt` holds it.
#[derive(Debug, Eq)]
pub enum Value {
    Nil,
    Bool(bool),
    Int(i64),
    UInt(u64),
    F32(u32),
    F64(u64),
    Str(String),
    Bin(Vec<u8>),
    Array(Vec<Value>),
    Dict(Vec<(Value, Value)>),
    Ext(i8, Vec<u8>),
}

/// The model of a value.
pub open spec fn value_view(v: Value) -> ValueView
    decreases v,
{
    match v {
        Value::Nil => ValueView::Nil,
        Value::Bool(b) => ValueView::Bool(b),
        Value::Int(i) => ValueView::Int(i as int),
        Value::UInt(u) => ValueView::Int(u as int),
        Value::F32(bits) => ValueView::F32(bits),
        Value::F64(bits) => ValueView::F64(bits),
        Value::Str(s) => ValueView::Str(s@),
        Value::Bin(b) => ValueView::Bin(b@),
        Value::Array(items) => ValueView::Array(values_view(items@)),
        Value::Dict(pairs) => ValueView::Dict(pairs_view(pairs@)),
        Value::Ext(tag, data) => ValueView::Ext(tag, data@),
    }
}

/// The models of a row of values.
pub open spec fn values_view(items: Seq<Value>) -> Seq<ValueView>
    decreases items,
{
    if items.len() == 0 {
        Seq::empty()
    } else {
        values_view(items.drop_last()).push(value_view(items.last()))
    }
}

/// The models of a row of pairs.
pub open spec fn pairs_view(pairs: Seq<(Value, Value)>) -> Seq<(ValueView, ValueView)>
    decreases pairs,
{
    if pairs.len() == 0 {
        Seq::empty()
    } else {
        pairs_view(pairs.drop_last()).push(
            (value_view(pairs.last().0), value_view(pairs.last().1)),
        )
    }
}

impl DeepView for Value {
    type V = ValueView;

    open spec fn deep_view(&self) -> ValueView {
        value_view(*self)
    }
}

impl View for Value {
    type V = ValueView;

    open spec fn view(&self) -> ValueView {
        value_view(*self)
    }
}

/// The models of a row are the models of its items, place by place.
pub proof fn lemma_values_view(items: Seq<Value>)
    ensures
        values_view(items).len() == items.len(),
        forall|i: int| 0 <= i < items.len() ==> #[trigger] values_view(items)[i] == items[i]@,
    decreases items.len(),
{
    if items.len() > 0 {
        lemma_values_view(items.drop_last());
    }
}

/// The models of a row of pairs are the models of its pairs, place by place.
pub proof fn lemma_pairs_view(pairs: Seq<(Value, Value)>)
    ensures
        pairs_view(pairs).len() == pairs.len(),
        forall|i: int|
            0 <= i < pairs.len() ==> #[trigger] pairs_view(pairs)[i] == (pairs[i].0@, pairs[i].1@),
    decreases pairs.len(),
{
    if pairs.len() > 0 {
        lemma_pairs_view(pairs.drop_last());
    }
}

/// The model of an array is the array of its items' models.
pub proof fn lemma_array_view(items: Vec<Value>)
    ensures
        Value::Array(items)@ == ValueView::Array(items.deep_view()),
        items.deep_view().len() == items@.len(),
        forall|i: int| 0 <= i < items@.len() ==> #[trigger] items.deep_view()[i] == items@[i]@,
{
    lemma_values_view(items@);
    assert(values_view(items@) =~= items.deep_view());
}

/// The model of a map is the sequence of its pairs' models.
pub proof fn lemma_dict_view(pairs: Vec<(Value, Value)>)
    ensures
        Value::Dict(pairs)@ == ValueView::Dict(pairs.deep_view()),
        pairs.deep_view().len() == pairs@.len(),
        forall|i: int|
            0 <= i < pairs@.len() ==> #[trigger] pairs.deep_view()[i] == (
                pairs@[i].0@,
                pairs@[i].1@,
            ),
{
    lemma_pairs_view(pairs@);
    assert(pairs_view(pairs@) =~= pairs.deep_view());
}

impl ValueView {
    /// The integer, if the value is one that fits `i64`.
    pub open spec fn as_i64(self) -> Option<i64> {
        match self {
            ValueView::Int(n) if i64::MIN <= n <= i64::MAX => Some(n as i64),
            _ => None,
        }
    }

    /// The integer, if the value is one that fits `u64`.
    pub open spec fn as_u64(self) -> Option<u64> {
        match self {
            ValueView::Int(n) if 0 <= n <= u64::MAX => Some(n as u64),
            _ => None,
        }
    }

    /// The integer, if the value is one that fits `u32`.
    pub open spec fn as_u32(self) -> Option<u32> {
        match self {
            ValueView::Int(n) if 0 <= n <= u32::MAX => Some(n as u32),
            _ => None,
        }
    }

    pub open spec fn as_bool(self) -> Option<bool> {
        match self {
            ValueView::Bool(b) => Some(b),
            _ => None,
        }
    }

    pub open spec fn as_str(self) -> Option<Seq<char>> {
        match self {
            ValueView::Str(s) => Some(s),
            _ => None,
        }
    }

    pub open spec fn as_array(self) -> Option<Seq<ValueView>> {
        match self {
            ValueView::Array(items) => Some(items),
            _ => None,
        }
    }

    pub open spec fn as_dict(self) -> Option<Seq<(ValueView, ValueView)>> {
        match self {
            ValueView::Dict(pairs) => Some(pairs),
            _ => None,
        }
    }
}

impl Value {
    /// The integer, if the value is one that fits `i64`.
    pub fn as_i64(&self) -> (r: Option<i64>)
        ensures
            r == self@.as_i64(),
    {
        match self {
            Value::Int(i) => Some(*i),
            Value::UInt(u) => if *u <= i64::MAX as u64 {
                Some(*u as i64)
            } else {
                None
            },
            _ => None,
        }
    }

    /// The integer, if the value is one that fits `u64`.
    pub fn as_u64(&self) -> (r: Option<u64>)
        ensures
            r == self@.as_u64(),
    {
        match self {
            Value::Int(i) => if *i >= 0 {
                Some(*i as u64)
            } else {
                None
            },
            Value::UInt(u) => Some(*u),
            _ => None,
        }
    }

    /// The integer, if the value is one that fits `u32`.
    pub fn as_u32(&self) -> (r: Option<u32>)
        ensures
            r == self@.as_u32(),
    {
        match self.as_u64() {
            Some(u) => if u <= u32::MAX as u64 {
                Some(u as u32)
            } else {
                None
            },
            None => None,
        }
    }

    pub fn as_bool(&self) -> (r: Option<bool>)
        ensures
            r == self@.as_bool(),
    {
        match self {
            Value::Bool(b) => Some(*b),
            _ => None,
        }
    }

    pub fn as_str(&self) -> (r: Option<&str>)
        ensures
            r is Some <==> self@ is Str,
            r matches Some(s) ==> self@.as_str() == Some(s@),
    {
        match self {
            Value::Str(s) => Some(s.as_str()),
            _ => None,
        }
    }

    pub fn as_array(&self) -> (r: Option<&Vec<Value>>)
        ensures
            r is Some <==> self@ is Array,
            r matches Some(items) ==> self@.as_array() == Some(items.deep_view()),
    {
        match self {
            Value::Array(items) => {
                proof {
                    lemma_array_view(*items);
                }
                Some(items)
            },
            _ => None,
        }
    }

    pub fn as_dict(&self) -> (r: Option<&Vec<(Value, Value)>>)
        ensures
            r is Some <==> self@ is Dict,
            r matches Some(pairs) ==> self@.as_dict() == Some(pairs.deep_view()),
    {
        match self {
            Value::Dict(pairs) => {
                proof {
                    lemma_dict_view(*pairs);
                }
                Some(pairs)
            },
            _ => None,
        }
    }

    pub fn is_nil(&self) -> (r: bool)
        ensures
            r == (self@ is Nil),
    {
        match self {
            Value::Nil => true,
            _ => false,
        }
    }

    /// The integer `n`, held as `UInt` where it is not negative.
    pub fn from_i64(n: i64) -> (r: Value)
        ensures
            r@ == ValueView::Int(n as int),
            n >= 0 ==> r is UInt,
            n < 0 ==> r is Int,
    {
        if n >= 0 {
            Value::UInt(n as u64)
        } else {
            Value::Int(n)
        }
    }

    /// The string `s`.
    pub fn from_str(s: &str) -> (r: Value)
        ensures
            r@ == ValueView::Str(s@),
    {
        Value::Str(s.to_owned())
    }
}

impl Clone for Value {
    fn clone(&self) -> (r: Value)
        ensures
            r@ == self@,
        decreases self, 0nat,
    {
        match self {
            Value::Nil => Value::Nil,
            Value::Bool(b) => Value::Bool(*b),
            Value::Int(i) => Value::Int(*i),
            Value::UInt(u) => Value::UInt(*u),
            Value::F32(bits) => Value::F32(*bits),
            Value::F64(bits) => Value::F64(*bits),
            Value::Str(s) => Value::Str(s.clone()),
            Value::Bin(data) => Value::Bin(slice_to_vec(data.as_slice())),
            Value::Array(items) => {
                let copy = clone_values(items);
                proof {
                    lemma_array_view(*items);
                    lemma_array_view(copy);
                }
                Value::Array(copy)
            },
            Value::Dict(pairs) => {
                let copy = clone_pairs(pairs);
                proof {
                    lemma_dict_view(*pairs);
                    lemma_dict_view(copy);
                }
                Value::Dict(copy)
            },
            Value::Ext(tag, data) => Value::Ext(*tag, slice_to_vec(data.as_slice())),
        }
    }
}

/// A copy of `items`.
pub fn clone_values(items: &Vec<Value>) -> (r: Vec<Value>)
    ensures
        r.deep_view() == items.deep_view(),
    decreases items, 1nat,
{
    let mut copy: Vec<Value> = Vec::new();
    let mut i: usize = 0;
    while i < items.len()
        invariant
            i <= items@.len(),
            copy@.len() == i,
            forall|j: int| 0 <= j < i ==> (#[trigger] copy@[j])@ == items@[j]@,
        decreases items@.len() - i,
    {
        copy.push(items[i].clone());
        i = i + 1;
    }
    assert(copy.deep_view() =~= items.deep_view());
    copy
}

/// A copy of `pairs`.
pub fn clone_pairs(pairs: &Vec<(Value, Value)>) -> (r: Vec<(Value, Value)>)
    ensures
        r.deep_view() == pairs.deep_view(),
    decreases pairs, 1nat,
{
    let mut copy: Vec<(Value, Value)> = Vec::new();
    let mut i: usize = 0;
    while i < pairs.len()
        invariant
            i <= pairs@.len(),
            copy@.len() == i,
            forall|j: int|
                0 <= j < i ==> (#[trigger] copy@[j]).0@ == pairs@[j].0@ && copy@[j].1@
                    == pairs@[j].1@,
        decreases pairs@.len() - i,
    {
        let key = pairs[i].0.clone();
        let val = pairs[i].1.clone();
        copy.push((key, val));
        i = i + 1;
    }
    assert(copy.deep_view() =~= pairs.deep_view());
    copy
}

/// Whether two byte strings are the same.
fn same_bytes(a: &Vec<u8>, b: &Vec<u8>) -> (r: bool)
    ensures
        r == (a@ == b@),
{
    if a.len() != b.len() {
        return false;
    }
    let mut i: usize = 0;
    while i < a.len()
        invariant
            i <= a@.len() == b@.len(),
            forall|j: int| 0 <= j < i ==> a@[j] == b@[j],
        decreases a@.len() - i,
    {
        if a[i] != b[i] {
            return false;
        }
        i = i + 1;
    }
    assert(a@ =~= b@);
    true
}

/// Whether two values have the same model.
pub fn same_value(a: &Value, b: &Value) -> (r: bool)
    ensures
        r == (a@ == b@),
    decreases a, 0nat,
{
    match a {
        Value::Nil => b.is_nil(),
        Value::Bool(x) => match b {
            Value::Bool(y) => *x == *y,
            _ => false,
        },
        Value::Int(x) => match b {
            Value::Int(y) => *x == *y,
            Value::UInt(y) => *x >= 0 && *x as u64 == *y,
            _ => false,
        },
        Value::UInt(x) => match b {
            Value::Int(y) => *y >= 0 && *y as u64 == *x,
            Value::UInt(y) => *x == *y,
            _ => false,
        },
        Value::F32(x) => match b {
            Value::F32(y) => *x == *y,
            _ => false,
        },
        Value::F64(x) => match b {
            Value::F64(y) => *x == *y,
            _ => false,
        },
        Value::Str(x) => match b {
            Value::Str(y) => *x == *y,
            _ => false,
        },
        Value::Bin(x) => match b {
            Value::Bin(y) => same_bytes(x, y),
            _ => false,
        },
        Value::Array(x) => match b {
            Value::Array(y) => {
                proof {
                    lemma_array_view(*x);
                    lemma_array_view(*y);
                }
                same_values(x, y)
            },
            _ => false,
        },
        Value::Dict(x) => match b {
            Value::Dict(y) => {
                proof {
                    lemma_dict_view(*x);
                    lemma_dict_view(*y);
                }
                same_pairs(x, y)
            },
            _ => false,
        },
        Value::Ext(tag, x) => match b {
            Value::Ext(other, y) => *tag == *other && same_bytes(x, y),
            _ => false,
        },
    }
}

/// Whether two rows of values have the same models.
pub fn same_values(a: &Vec<Value>, b: &Vec<Value>) -> (r: bool)
    ensures
        r == (a.deep_view() == b.deep_view()),
    decreases a, 1nat,
{
    if a.len() != b.len() {
        assert(a.deep_view().len() != b.deep_view().len());
        return false;
    }
    let mut i: usize = 0;
    while i < a.len()
        invariant
            i <= a@.len() == b@.len(),
            forall|j: int| 0 <= j < i ==> a@[j]@ == b@[j]@,
        decreases a@.len() - i,
    {
        if !same_value(&a[i], &b[i]) {
            assert(a.deep_view()[i as int] != b.deep_view()[i as int]);
            return false;
        }
        i = i + 1;
    }
    assert(a.deep_view() =~= b.deep_view());
    true
}

/// Whether two rows of pairs have the same models.
pub fn same_pairs(a: &Vec<(Value, Value)>, b: &Vec<(Value, Value)>) -> (r: bool)
    ensures
        r == (a.deep_view() == b.deep_view()),
    decreases a, 1nat,
{
    if a.len() != b.len() {
        assert(a.deep_view().len() != b.deep_view().len());
        return false;
    }
    let mut i: usize = 0;
    while i < a.len()
        invariant
            i <= a@.len() == b@.len(),
            forall|j: int| 0 <= j < i ==> a@[j].0@ == b@[j].0@ && a@[j].1@ == b@[j].1@,
        decreases a@.len() - i,
    {
        if !same_value(&a[i].0, &b[i].0) || !same_value(&a[i].1, &b[i].1) {
            assert(a.deep_view()[i as int] != b.deep_view()[i as int]);
            return false;
        }
        i = i + 1;
    }
    assert(a.deep_view() =~= b.deep_view());
    true
}

impl PartialEq for Value {
    fn eq(&self, other: &Value) -> (r: bool) {
        same_value(self, other)
    }
}

impl PartialEqSpecImpl for Value {
    open spec fn obeys_eq_spec() -> bool {
        true
    }

    open spec fn eq_spec(&self, other: &Value) -> bool {
        self@ == other@
    }
}

} // verus!
