//! Writing values as bytes.

use crate::error::CodecError;
use crate::value::{lemma_array_view, lemma_dict_view, Value, ValueView};
use crate::wire::endian::{be_bytes, lemma_pow256_values, to_twos, write_be};
use crate::wire::format::{
    array_head, bin_head, dict_head, encodable, encoding, encoding_pairs, encoding_seq, ext_head,
    frame, int_encoding, len_limit, str_head,
};
use vstd::prelude::*;

verus! {

/// Appends a marker byte and the `width` low bytes of `n`.
fn put_frame(out: &mut Vec<u8>, b: u8, n: u64, width: usize)
    requires
        width <= 8,
    ensures
        final(out)@ == old(out)@ + frame(b, be_bytes(n as nat, width as nat)),
{
    out.push(b);
    write_be(out, n, width);
    assert(out@ =~= old(out)@ + frame(b, be_bytes(n as nat, width as nat)));
}

/// Appends a marker byte that stands alone.
fn put_marker(out: &mut Vec<u8>, b: u8)
    ensures
        final(out)@ == old(out)@ + frame(b, Seq::empty()),
{
    out.push(b);
    assert(out@ =~= old(out)@ + frame(b, Seq::empty()));
}

/// Appends the encoding of nil.
pub fn put_nil(out: &mut Vec<u8>)
    ensures
        final(out)@ == old(out)@ + encoding(ValueView::Nil),
{
    put_marker(out, 0xc0);
}

/// Appends the bytes of `src`.
pub fn put_bytes(out: &mut Vec<u8>, src: &[u8])
    ensures
        final(out)@ == old(out)@ + src@,
{
    let mut i: usize = 0;
    while i < src.len()
        invariant
            i <= src@.len(),
            out@ == old(out)@ + src@.take(i as int),
        decreases src@.len() - i,
    {
        out.push(src[i]);
        assert(src@.take(i + 1) =~= src@.take(i as int).push(src@[i as int]));
        i = i + 1;
    }
    assert(src@.take(i as int) =~= src@);
}

/// Appends the shortest encoding of a non-negative integer.
pub fn put_uint(out: &mut Vec<u8>, n: u64)
    ensures
        final(out)@ == old(out)@ + int_encoding(n as int),
{
    if n < 0x80 {
        put_marker(out, n as u8);
    } else if n < 0x100 {
        put_frame(out, 0xcc, n, 1);
    } else if n < 0x1_0000 {
        put_frame(out, 0xcd, n, 2);
    } else if n < 0x1_0000_0000 {
        put_frame(out, 0xce, n, 4);
    } else {
        put_frame(out, 0xcf, n, 8);
    }
}

/// Appends the shortest encoding of an integer.
pub fn put_int(out: &mut Vec<u8>, n: i64)
    ensures
        final(out)@ == old(out)@ + int_encoding(n as int),
{
    proof {
        lemma_pow256_values();
    }
    if n >= 0 {
        put_uint(out, n as u64);
    } else if n >= -0x20 {
        put_marker(out, (n + 0x100) as u8);
    } else if n >= -0x80 {
        put_frame(out, 0xd0, (n + 0x100) as u64, 1);
    } else if n >= -0x8000 {
        put_frame(out, 0xd1, (n + 0x1_0000) as u64, 2);
    } else if n >= -0x8000_0000 {
        put_frame(out, 0xd2, (n + 0x1_0000_0000) as u64, 4);
    } else {
        let low: u64 = (n - i64::MIN) as u64;
        put_frame(out, 0xd3, low + 0x8000_0000_0000_0000, 8);
    }
}

fn put_str_head(out: &mut Vec<u8>, n: u32)
    ensures
        final(out)@ == old(out)@ + str_head(n as nat),
{
    if n < 32 {
        put_marker(out, 0xa0 + n as u8);
    } else if n < 0x100 {
        put_frame(out, 0xd9, n as u64, 1);
    } else if n < 0x1_0000 {
        put_frame(out, 0xda, n as u64, 2);
    } else {
        put_frame(out, 0xdb, n as u64, 4);
    }
}

fn put_bin_head(out: &mut Vec<u8>, n: u32)
    ensures
        final(out)@ == old(out)@ + bin_head(n as nat),
{
    if n < 0x100 {
        put_frame(out, 0xc4, n as u64, 1);
    } else if n < 0x1_0000 {
        put_frame(out, 0xc5, n as u64, 2);
    } else {
        put_frame(out, 0xc6, n as u64, 4);
    }
}

/// Appends the head of an array of `n` values.
pub fn put_array_head(out: &mut Vec<u8>, n: u32)
    ensures
        final(out)@ == old(out)@ + array_head(n as nat),
{
    if n < 16 {
        put_marker(out, 0x90 + n as u8);
    } else if n < 0x1_0000 {
        put_frame(out, 0xdc, n as u64, 2);
    } else {
        put_frame(out, 0xdd, n as u64, 4);
    }
}

fn put_dict_head(out: &mut Vec<u8>, n: u32)
    ensures
        final(out)@ == old(out)@ + dict_head(n as nat),
{
    if n < 16 {
        put_marker(out, 0x80 + n as u8);
    } else if n < 0x1_0000 {
        put_frame(out, 0xde, n as u64, 2);
    } else {
        put_frame(out, 0xdf, n as u64, 4);
    }
}

fn put_ext_head(out: &mut Vec<u8>, tag: i8, n: u32)
    ensures
        final(out)@ == old(out)@ + ext_head(tag, n as nat),
{
    proof {
        lemma_pow256_values();
    }
    let t: u8 = if tag < 0 {
        (tag as i16 + 0x100) as u8
    } else {
        tag as u8
    };
    assert(t == to_twos(tag as int, 1) as u8);
    if n == 1 || n == 2 || n == 4 || n == 8 || n == 16 {
        let b: u8 = if n == 1 {
            0xd4
        } else if n == 2 {
            0xd5
        } else if n == 4 {
            0xd6
        } else if n == 8 {
            0xd7
        } else {
            0xd8
        };
        out.push(b);
        out.push(t);
        assert(out@ =~= old(out)@ + frame(b, seq![t]));
    } else {
        let width: usize = if n < 0x100 {
            1
        } else if n < 0x1_0000 {
            2
        } else {
            4
        };
        let b: u8 = if n < 0x100 {
            0xc7
        } else if n < 0x1_0000 {
            0xc8
        } else {
            0xc9
        };
        out.push(b);
        write_be(out, n as u64, width);
        out.push(t);
        assert(out@ =~= old(out)@ + frame(b, be_bytes(n as nat, width as nat).push(t)));
    }
}

/// A length as the wire says it, if the wire can.
pub fn wire_len(n: usize) -> (r: Option<u32>)
    ensures
        r is Some <==> n < len_limit(),
        r matches Some(m) ==> m == n,
{
    if n as u64 <= 0xffff_ffff {
        Some(n as u32)
    } else {
        None
    }
}

/// Appends the encoding of the string `s`.
pub fn put_str(out: &mut Vec<u8>, s: &str) -> (r: Result<(), CodecError>)
    ensures
        r is Ok <==> encodable(ValueView::Str(s@), 0),
        r is Ok ==> final(out)@ == old(out)@ + encoding(ValueView::Str(s@)),
        r is Err ==> final(out)@ == old(out)@,
        r matches Err(e) ==> e == CodecError::TooLarge,
{
    let raw = s.as_bytes();
    match wire_len(raw.len()) {
        None => Err(CodecError::TooLarge),
        Some(n) => {
            put_str_head(out, n);
            put_bytes(out, raw);
            assert(out@ =~= old(out)@ + encoding(ValueView::Str(s@)));
            Ok(())
        },
    }
}

/// Appends the encoding of the array of `items`, which may nest `depth`
/// deep, the array itself counted.
pub fn put_array(out: &mut Vec<u8>, items: &Vec<Value>, depth: usize) -> (r: Result<
    (),
    CodecError,
>)
    ensures
        r is Ok <==> encodable(ValueView::Array(items.deep_view()), depth as nat),
        r is Ok ==> final(out)@ == old(out)@ + encoding(ValueView::Array(items.deep_view())),
        r matches Err(e) ==> e == CodecError::TooLarge,
    decreases items, 2nat,
{
    proof {
        lemma_array_view(*items);
        let model = items.deep_view();
        assert(encodable(ValueView::Array(model), depth as nat) <==> (depth > 0 && items@.len()
            < len_limit() && forall|i: int|
            0 <= i < items@.len() ==> encodable(#[trigger] items@[i]@, (depth - 1) as nat))) by {
            if encodable(ValueView::Array(model), depth as nat) {
                assert forall|i: int| 0 <= i < items@.len() implies encodable(
                    #[trigger] items@[i]@,
                    (depth - 1) as nat,
                ) by {
                    assert(model[i] == items@[i]@);
                }
            }
        }
    }
    if depth == 0 {
        return Err(CodecError::TooLarge);
    }
    match wire_len(items.len()) {
        None => Err(CodecError::TooLarge),
        Some(n) => {
            put_array_head(out, n);
            let r = encode_values(items, out, depth - 1);
            assert(r is Ok ==> out@ =~= old(out)@ + encoding(ValueView::Array(items.deep_view())));
            r
        },
    }
}

/// Appends the encoding of `v`, which may nest `depth` deep, to `out`.
///
/// Fails, with `out` holding the bytes written so far, on a value that the
/// wire cannot carry.
pub fn encode_value(v: &Value, out: &mut Vec<u8>, depth: usize) -> (r: Result<(), CodecError>)
    ensures
        r is Ok <==> encodable(v@, depth as nat),
        r is Ok ==> final(out)@ == old(out)@ + encoding(v@),
        r matches Err(e) ==> e == CodecError::TooLarge,
    decreases v, 0nat,
{
    match v {
        Value::Nil => {
            put_marker(out, 0xc0);
            Ok(())
        },
        Value::Bool(b) => {
            put_marker(out, if *b { 0xc3 } else { 0xc2 });
            Ok(())
        },
        Value::Int(i) => {
            put_int(out, *i);
            Ok(())
        },
        Value::UInt(u) => {
            put_uint(out, *u);
            Ok(())
        },
        Value::F32(bits) => {
            put_frame(out, 0xca, *bits as u64, 4);
            Ok(())
        },
        Value::F64(bits) => {
            put_frame(out, 0xcb, *bits, 8);
            Ok(())
        },
        Value::Str(s) => put_str(out, s.as_str()),
        Value::Bin(data) => {
            match wire_len(data.len()) {
                None => Err(CodecError::TooLarge),
                Some(n) => {
                    put_bin_head(out, n);
                    put_bytes(out, data.as_slice());
                    assert(out@ =~= old(out)@ + encoding(v@));
                    Ok(())
                },
            }
        },
        Value::Ext(tag, data) => {
            match wire_len(data.len()) {
                None => Err(CodecError::TooLarge),
                Some(n) => {
                    put_ext_head(out, *tag, n);
                    put_bytes(out, data.as_slice());
                    assert(out@ =~= old(out)@ + encoding(v@));
                    Ok(())
                },
            }
        },
        Value::Array(items) => {
            proof {
                lemma_array_view(*items);
            }
            put_array(out, items, depth)
        },
        Value::Dict(pairs) => {
            proof {
                lemma_dict_view(*pairs);
                let model = pairs.deep_view();
                assert(encodable(v@, depth as nat) <==> (depth > 0 && pairs@.len() < len_limit()
                    && forall|i: int|
                    0 <= i < pairs@.len() ==> encodable(
                        (#[trigger] pairs@[i]).0@,
                        (depth - 1) as nat,
                    ) && encodable(pairs@[i].1@, (depth - 1) as nat))) by {
                    if encodable(v@, depth as nat) {
                        assert forall|i: int| 0 <= i < pairs@.len() implies encodable(
                            (#[trigger] pairs@[i]).0@,
                            (depth - 1) as nat,
                        ) && encodable(pairs@[i].1@, (depth - 1) as nat) by {
                            assert(model[i] == (pairs@[i].0@, pairs@[i].1@));
                        }
                    }
                }
            }
            if depth == 0 {
                return Err(CodecError::TooLarge);
            }
            match wire_len(pairs.len()) {
                None => Err(CodecError::TooLarge),
                Some(n) => {
                    put_dict_head(out, n);
                    let r = encode_pairs(pairs, out, depth - 1);
                    assert(r is Ok ==> out@ =~= old(out)@ + encoding(v@));
                    r
                },
            }
        },
    }
}

/// Appends the encodings of `items`, in order; each may nest `depth` deep.
pub fn encode_values(items: &Vec<Value>, out: &mut Vec<u8>, depth: usize) -> (r: Result<
    (),
    CodecError,
>)
    ensures
        r is Ok <==> forall|i: int|
            0 <= i < items@.len() ==> encodable(#[trigger] items@[i]@, depth as nat),
        r is Ok ==> final(out)@ == old(out)@ + encoding_seq(items.deep_view()),
        r matches Err(e) ==> e == CodecError::TooLarge,
    decreases items, 1nat,
{
    let ghost model = items.deep_view();
    let mut i: usize = 0;
    while i < items.len()
        invariant
            i <= items@.len(),
            model == items.deep_view(),
            out@ == old(out)@ + encoding_seq(model.take(i as int)),
            forall|j: int| 0 <= j < i ==> encodable(#[trigger] items@[j]@, depth as nat),
        decreases items@.len() - i,
    {
        let r = encode_value(&items[i], out, depth);
        if r.is_err() {
            return r;
        }
        proof {
            let upto = model.take(i + 1);
            assert(upto.drop_last() =~= model.take(i as int));
            assert(upto.last() == items@[i as int]@);
            assert(out@ =~= old(out)@ + encoding_seq(upto));
        }
        i = i + 1;
    }
    assert(model.take(i as int) =~= model);
    Ok(())
}

/// Appends the encodings of each key and its value, in order; each may
/// nest `depth` deep.
pub fn encode_pairs(pairs: &Vec<(Value, Value)>, out: &mut Vec<u8>, depth: usize) -> (r: Result<
    (),
    CodecError,
>)
    ensures
        r is Ok <==> forall|i: int|
            0 <= i < pairs@.len() ==> encodable((#[trigger] pairs@[i]).0@, depth as nat)
                && encodable(pairs@[i].1@, depth as nat),
        r is Ok ==> final(out)@ == old(out)@ + encoding_pairs(pairs.deep_view()),
        r matches Err(e) ==> e == CodecError::TooLarge,
    decreases pairs, 1nat,
{
    let ghost model = pairs.deep_view();
    let mut i: usize = 0;
    while i < pairs.len()
        invariant
            i <= pairs@.len(),
            model == pairs.deep_view(),
            out@ == old(out)@ + encoding_pairs(model.take(i as int)),
            forall|j: int|
                0 <= j < i ==> encodable((#[trigger] pairs@[j]).0@, depth as nat) && encodable(
                    pairs@[j].1@,
                    depth as nat,
                ),
        decreases pairs@.len() - i,
    {
        let r = encode_value(&pairs[i].0, out, depth);
        if r.is_err() {
            return r;
        }
        let r = encode_value(&pairs[i].1, out, depth);
        if r.is_err() {
            return r;
        }
        proof {
            let upto = model.take(i + 1);
            assert(upto.drop_last() =~= model.take(i as int));
            assert(upto.last() == (pairs@[i as int].0@, pairs@[i as int].1@));
            assert(out@ =~= old(out)@ + encoding_pairs(upto));
        }
        i = i + 1;
    }
    assert(model.take(i as int) =~= model);
    Ok(())
}

} // verus!
