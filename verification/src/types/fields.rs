//! Reading typed records out of values, field by field.

use crate::types::color::{color_of, Color};
use crate::types::window::{window_of, Window};
use crate::value::{Value, ValueView};
use vstd::prelude::*;
use vstd::utf8::{encode_utf8, encode_utf8_decode_utf8};

verus! {

/// A record that a value can spell.
pub trait Decode: Sized + DeepView {
    /// The record that `v` spells, or else the place of the first field of
    /// `v` that is missing or has not the type that the record asks for.
    spec fn parse(v: ValueView) -> Result<Self::V, nat>;

    /// Reads the record that `v` spells.
    fn decode(v: &Value) -> (r: Result<Self, usize>)
        ensures
            decoded(r, Self::parse(v@)),
    ;
}

/// Whether `r` is the outcome `expected`, the record taken by its model.
pub open spec fn decoded<T: DeepView>(r: Result<T, usize>, expected: Result<T::V, nat>) -> bool {
    match expected {
        Ok(record) => r matches Ok(x) && x.deep_view() == record,
        Err(e) => r matches Err(f) && f == e,
    }
}

/// The records that the values of `items` spell, or else the place of the
/// first value that spells none, with the place of the field that it fails
/// on.
pub open spec fn parse_each<T: Decode>(items: Seq<ValueView>) -> Result<Seq<T::V>, (nat, nat)>
    decreases items.len(),
{
    if items.len() == 0 {
        Ok(Seq::empty())
    } else {
        match parse_each::<T>(items.drop_last()) {
            Err(e) => Err(e),
            Ok(records) => match T::parse(items.last()) {
                Ok(record) => Ok(records.push(record)),
                Err(field) => Err(((items.len() - 1) as nat, field)),
            },
        }
    }
}

/// Once a value spells no record, no longer row does.
pub proof fn lemma_parse_each_fails<T: Decode>(items: Seq<ValueView>, upto: int)
    requires
        0 <= upto <= items.len(),
        parse_each::<T>(items.take(upto)) is Err,
    ensures
        parse_each::<T>(items) == parse_each::<T>(items.take(upto)),
    decreases items.len(),
{
    if upto < items.len() {
        assert(items.drop_last().take(upto) =~= items.take(upto));
        lemma_parse_each_fails::<T>(items.drop_last(), upto);
    } else {
        assert(items.take(upto) =~= items);
    }
}

/// Reads the records that the values of `items` spell, from the one at
/// `from` on. Places in the error count from `from`.
pub fn decode_each<T: Decode>(items: &Vec<Value>, from: usize) -> (r: Result<
    Vec<T>,
    (usize, usize),
>)
    requires
        from <= items@.len(),
    ensures
        match parse_each::<T>(items.deep_view().skip(from as int)) {
            Ok(records) => r matches Ok(out) && out.deep_view() == records,
            Err((at, field)) => r matches Err((i, j)) && i == at && j == field,
        },
{
    let ghost all = items.deep_view().skip(from as int);
    let mut out: Vec<T> = Vec::new();
    let mut i: usize = from;
    assert(all.take(0) =~= Seq::empty());
    assert(out.deep_view() =~= Seq::empty());
    while i < items.len()
        invariant
            from <= i <= items@.len(),
            all == items.deep_view().skip(from as int),
            parse_each::<T>(all.take(i - from)) == Ok::<Seq<T::V>, (nat, nat)>(out.deep_view()),
        decreases items@.len() - i,
    {
        let ghost before = out.deep_view();
        proof {
            let upto = all.take(i - from + 1);
            assert(upto.drop_last() =~= all.take(i - from));
            assert(upto.last() == items@[i as int]@);
        }
        match T::decode(&items[i]) {
            Ok(record) => {
                out.push(record);
                assert(out.deep_view() =~= before.push(record.deep_view()));
            },
            Err(field) => {
                proof {
                    lemma_parse_each_fails::<T>(all, i - from + 1);
                }
                return Err((i - from, field));
            },
        }
        i = i + 1;
    }
    assert(all.take(i - from) =~= all);
    Ok(out)
}

/// Whether two strings are the same text.
pub fn same_text(a: &str, b: &str) -> (r: bool)
    ensures
        r == (a@ == b@),
{
    let x = a.as_bytes();
    let y = b.as_bytes();
    proof {
        encode_utf8_decode_utf8(a@);
        encode_utf8_decode_utf8(b@);
    }
    if x.len() != y.len() {
        return false;
    }
    let mut i: usize = 0;
    while i < x.len()
        invariant
            i <= x@.len() == y@.len(),
            x@ == encode_utf8(a@),
            y@ == encode_utf8(b@),
            forall|j: int| 0 <= j < i ==> x@[j] == y@[j],
        decreases x@.len() - i,
    {
        if x[i] != y[i] {
            return false;
        }
        i = i + 1;
    }
    assert(x@ =~= y@);
    true
}

/// The fields of an occurrence: the items of `v` where it is an array, none
/// where it is not.
pub open spec fn fields_of(v: ValueView) -> Seq<ValueView> {
    match v {
        ValueView::Array(items) => items,
        _ => Seq::empty(),
    }
}

/// The integer at place `i`, where there is one that fits `i64`.
pub open spec fn int_at(fields: Seq<ValueView>, i: int) -> Option<i64> {
    if 0 <= i < fields.len() {
        fields[i].as_i64()
    } else {
        None
    }
}

/// The boolean at place `i`, where there is one.
pub open spec fn bool_at(fields: Seq<ValueView>, i: int) -> Option<bool> {
    if 0 <= i < fields.len() {
        fields[i].as_bool()
    } else {
        None
    }
}

/// The string at place `i`, where there is one.
pub open spec fn str_at(fields: Seq<ValueView>, i: int) -> Option<Seq<char>> {
    if 0 <= i < fields.len() {
        fields[i].as_str()
    } else {
        None
    }
}

/// The array at place `i`, where there is one.
pub open spec fn array_at(fields: Seq<ValueView>, i: int) -> Option<Seq<ValueView>> {
    if 0 <= i < fields.len() {
        fields[i].as_array()
    } else {
        None
    }
}

/// The map at place `i`, where there is one.
pub open spec fn dict_at(fields: Seq<ValueView>, i: int) -> Option<Seq<(ValueView, ValueView)>> {
    if 0 <= i < fields.len() {
        fields[i].as_dict()
    } else {
        None
    }
}

/// The value at place `i`, where there is one.
pub open spec fn any_at(fields: Seq<ValueView>, i: int) -> Option<ValueView> {
    if 0 <= i < fields.len() {
        Some(fields[i])
    } else {
        None
    }
}

/// The color at place `i`, where there is one.
pub open spec fn color_at(fields: Seq<ValueView>, i: int) -> Option<Color> {
    if 0 <= i < fields.len() {
        color_of(fields[i])
    } else {
        None
    }
}

/// The window at place `i`, where there is one.
pub open spec fn window_at(fields: Seq<ValueView>, i: int) -> Option<Window> {
    if 0 <= i < fields.len() {
        window_of(fields[i])
    } else {
        None
    }
}

/// The positional fields of one occurrence of an event.
pub struct Fields<'a> {
    items: Option<&'a Vec<Value>>,
}

impl<'a> View for Fields<'a> {
    type V = Seq<ValueView>;

    closed spec fn view(&self) -> Seq<ValueView> {
        match self.items {
            Some(items) => items.deep_view(),
            None => Seq::empty(),
        }
    }
}

impl<'a> Fields<'a> {
    /// The fields of the occurrence `v`.
    pub fn of(v: &'a Value) -> (f: Fields<'a>)
        ensures
            f@ == fields_of(v@),
    {
        Fields { items: v.as_array() }
    }

    /// The value at place `i`, where there is one.
    pub fn get(&self, i: usize) -> (r: Option<&'a Value>)
        ensures
            r is Some <==> i < self@.len(),
            r matches Some(v) ==> v@ == self@[i as int],
    {
        match self.items {
            Some(items) => if i < items.len() {
                Some(&items[i])
            } else {
                None
            },
            None => None,
        }
    }

    pub fn color_at(&self, i: usize) -> (r: Option<Color>)
        ensures
            r == color_at(self@, i as int),
    {
        match self.get(i) {
            Some(v) => Color::decode(v),
            None => None,
        }
    }

    pub fn window_at(&self, i: usize) -> (r: Option<Window>)
        ensures
            r == window_at(self@, i as int),
    {
        match self.get(i) {
            Some(v) => Window::decode(v),
            None => None,
        }
    }

    pub fn int_at(&self, i: usize) -> (r: Option<i64>)
        ensures
            r == int_at(self@, i as int),
    {
        match self.get(i) {
            Some(v) => v.as_i64(),
            None => None,
        }
    }

    pub fn bool_at(&self, i: usize) -> (r: Option<bool>)
        ensures
            r == bool_at(self@, i as int),
    {
        match self.get(i) {
            Some(v) => v.as_bool(),
            None => None,
        }
    }

    pub fn str_at(&self, i: usize) -> (r: Option<String>)
        ensures
            r is Some <==> str_at(self@, i as int) is Some,
            r matches Some(s) ==> str_at(self@, i as int) == Some(s@),
    {
        match self.get(i) {
            Some(v) => match v.as_str() {
                Some(s) => Some(s.to_owned()),
                None => None,
            },
            None => None,
        }
    }

    pub fn array_at(&self, i: usize) -> (r: Option<&'a Vec<Value>>)
        ensures
            r is Some <==> array_at(self@, i as int) is Some,
            r matches Some(items) ==> array_at(self@, i as int) == Some(items.deep_view()),
    {
        match self.get(i) {
            Some(v) => v.as_array(),
            None => None,
        }
    }

    pub fn dict_at(&self, i: usize) -> (r: Option<&'a Vec<(Value, Value)>>)
        ensures
            r is Some <==> dict_at(self@, i as int) is Some,
            r matches Some(pairs) ==> dict_at(self@, i as int) == Some(pairs.deep_view()),
    {
        match self.get(i) {
            Some(v) => v.as_dict(),
            None => None,
        }
    }
}

/// The first place from `from` on, among `count`, that holds no integer
/// fitting `i64`.
pub open spec fn first_bad_int(fields: Seq<ValueView>, from: int, count: nat) -> Option<nat>
    decreases count,
{
    if count == 0 {
        None
    } else {
        match first_bad_int(fields, from, (count - 1) as nat) {
            Some(i) => Some(i),
            None => if int_at(fields, from + count - 1) is None {
                Some((from + count - 1) as nat)
            } else {
                None
            },
        }
    }
}

/// The `count` integers from place `from` on, or else the first place among
/// them that holds none.
pub open spec fn ints_at(fields: Seq<ValueView>, from: int, count: nat) -> Result<Seq<i64>, nat> {
    match first_bad_int(fields, from, count) {
        Some(i) => Err(i),
        None => Ok(Seq::new(count, |i: int| int_at(fields, from + i)->0)),
    }
}

/// A place without an integer stays the first such place as more are asked
/// for.
proof fn lemma_first_bad_int_stays(fields: Seq<ValueView>, from: int, short: nat, count: nat)
    requires
        short <= count,
        first_bad_int(fields, from, short) is Some,
    ensures
        first_bad_int(fields, from, count) == first_bad_int(fields, from, short),
    decreases count,
{
    if short < count {
        lemma_first_bad_int_stays(fields, from, short, (count - 1) as nat);
    }
}

impl<'a> Fields<'a> {
    /// Reads the `count` integers from place `from` on.
    pub fn ints_at(&self, from: usize, count: usize) -> (r: Result<Vec<i64>, usize>)
        requires
            from + count <= usize::MAX,
        ensures
            match ints_at(self@, from as int, count as nat) {
                Ok(ints) => r matches Ok(out) && out@ == ints,
                Err(i) => r matches Err(j) && j == i,
            },
    {
        let mut out: Vec<i64> = Vec::new();
        let mut i: usize = 0;
        while i < count
            invariant
                i <= count,
                from + count <= usize::MAX,
                first_bad_int(self@, from as int, i as nat) is None,
                out@.len() == i,
                forall|j: int| 0 <= j < i ==> out@[j] == int_at(self@, from + j)->0,
            decreases count - i,
        {
            match self.int_at(from + i) {
                Some(n) => {
                    out.push(n);
                },
                None => {
                    proof {
                        lemma_first_bad_int_stays(self@, from as int, (i + 1) as nat, count as nat);
                    }
                    return Err(from + i);
                },
            }
            i = i + 1;
        }
        assert(out@ =~= Seq::new(count as nat, |i: int| int_at(self@, from + i)->0));
        Ok(out)
    }
}

} // verus!
