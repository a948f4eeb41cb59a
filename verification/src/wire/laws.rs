//! What is proved of the format: reading an encoding gives the value back.

use crate::value::ValueView;
use crate::wire::endian::{
    be_bytes, be_uint, from_twos, lemma_be_bytes_len, lemma_be_uint_of_bytes,
    lemma_pow256_values, pow256, to_twos,
};
use crate::wire::format::{
    array_head, bin_head, dict_head, encodable, encoding, encoding_pairs, encoding_seq, ext_head,
    frame, head, head_of, int_encoding, int_head, len_limit, operand_width, parse, parse_pairs,
    parse_seq, str_head, Fault, Head,
};
use vstd::prelude::*;
use vstd::utf8::{encode_utf8, encode_utf8_decode_utf8, encode_utf8_valid_utf8};

verus! {

/// A marker with an operand of the right width reads as the head they spell,
/// whatever follows.
pub proof fn lemma_frame_head(b: u8, op: Seq<u8>, rest: Seq<u8>)
    requires
        op.len() == operand_width(b),
    ensures
        head(frame(b, op) + rest) == (match head_of(b, op) {
            Some(h) => Ok::<(Head, int), Fault>((h, 1 + op.len() as int)),
            None => Err(Fault::Invalid),
        }),
        frame(b, op).len() == 1 + op.len(),
{
    let bytes = frame(b, op) + rest;
    assert(bytes[0] == b);
    assert(bytes.subrange(1, 1 + op.len() as int) =~= op);
}

/// One number in big-endian form reads back as itself.
proof fn lemma_operand(n: nat, width: nat)
    requires
        n < pow256(width),
    ensures
        be_bytes(n, width).len() == width,
        be_uint(be_bytes(n, width)) == n,
{
    lemma_be_bytes_len(n, width);
    lemma_be_uint_of_bytes(n, width);
}

pub proof fn lemma_int_head(n: int, rest: Seq<u8>)
    requires
        -0x8000_0000_0000_0000 <= n < 0x1_0000_0000_0000_0000,
    ensures
        head(int_encoding(n) + rest) == Ok::<(Head, int), Fault>(
            (int_head(n), int_encoding(n).len() as int),
        ),
{
    lemma_pow256_values();
    if n >= 0 {
        if n < 0x80 {
            lemma_frame_head(n as u8, Seq::empty(), rest);
        } else if n < 0x100 {
            lemma_operand(n as nat, 1);
            lemma_frame_head(0xcc, be_bytes(n as nat, 1), rest);
        } else if n < 0x1_0000 {
            lemma_operand(n as nat, 2);
            lemma_frame_head(0xcd, be_bytes(n as nat, 2), rest);
        } else if n < 0x1_0000_0000 {
            lemma_operand(n as nat, 4);
            lemma_frame_head(0xce, be_bytes(n as nat, 4), rest);
        } else {
            lemma_operand(n as nat, 8);
            lemma_frame_head(0xcf, be_bytes(n as nat, 8), rest);
        }
    } else {
        if n >= -0x20 {
            lemma_frame_head((n + 0x100) as u8, Seq::empty(), rest);
        } else if n >= -0x80 {
            lemma_operand(to_twos(n, 1), 1);
            lemma_frame_head(0xd0, be_bytes(to_twos(n, 1), 1), rest);
        } else if n >= -0x8000 {
            lemma_operand(to_twos(n, 2), 2);
            lemma_frame_head(0xd1, be_bytes(to_twos(n, 2), 2), rest);
        } else if n >= -0x8000_0000 {
            lemma_operand(to_twos(n, 4), 4);
            lemma_frame_head(0xd2, be_bytes(to_twos(n, 4), 4), rest);
        } else {
            lemma_operand(to_twos(n, 8), 8);
            lemma_frame_head(0xd3, be_bytes(to_twos(n, 8), 8), rest);
        }
    }
}

pub proof fn lemma_str_head(n: nat, rest: Seq<u8>)
    requires
        n < len_limit(),
    ensures
        head(str_head(n) + rest) == Ok::<(Head, int), Fault>(
            (Head::Str(n as u32), str_head(n).len() as int),
        ),
{
    lemma_pow256_values();
    if n < 32 {
        lemma_frame_head((0xa0 + n) as u8, Seq::empty(), rest);
    } else if n < 0x100 {
        lemma_operand(n, 1);
        lemma_frame_head(0xd9, be_bytes(n, 1), rest);
    } else if n < 0x1_0000 {
        lemma_operand(n, 2);
        lemma_frame_head(0xda, be_bytes(n, 2), rest);
    } else {
        lemma_operand(n, 4);
        lemma_frame_head(0xdb, be_bytes(n, 4), rest);
    }
}

pub proof fn lemma_bin_head(n: nat, rest: Seq<u8>)
    requires
        n < len_limit(),
    ensures
        head(bin_head(n) + rest) == Ok::<(Head, int), Fault>(
            (Head::Bin(n as u32), bin_head(n).len() as int),
        ),
{
    lemma_pow256_values();
    if n < 0x100 {
        lemma_operand(n, 1);
        lemma_frame_head(0xc4, be_bytes(n, 1), rest);
    } else if n < 0x1_0000 {
        lemma_operand(n, 2);
        lemma_frame_head(0xc5, be_bytes(n, 2), rest);
    } else {
        lemma_operand(n, 4);
        lemma_frame_head(0xc6, be_bytes(n, 4), rest);
    }
}

pub proof fn lemma_array_head(n: nat, rest: Seq<u8>)
    requires
        n < len_limit(),
    ensures
        head(array_head(n) + rest) == Ok::<(Head, int), Fault>(
            (Head::Array(n as u32), array_head(n).len() as int),
        ),
{
    lemma_pow256_values();
    if n < 16 {
        lemma_frame_head((0x90 + n) as u8, Seq::empty(), rest);
    } else if n < 0x1_0000 {
        lemma_operand(n, 2);
        lemma_frame_head(0xdc, be_bytes(n, 2), rest);
    } else {
        lemma_operand(n, 4);
        lemma_frame_head(0xdd, be_bytes(n, 4), rest);
    }
}

pub proof fn lemma_dict_head(n: nat, rest: Seq<u8>)
    requires
        n < len_limit(),
    ensures
        head(dict_head(n) + rest) == Ok::<(Head, int), Fault>(
            (Head::Dict(n as u32), dict_head(n).len() as int),
        ),
{
    lemma_pow256_values();
    if n < 16 {
        lemma_frame_head((0x80 + n) as u8, Seq::empty(), rest);
    } else if n < 0x1_0000 {
        lemma_operand(n, 2);
        lemma_frame_head(0xde, be_bytes(n, 2), rest);
    } else {
        lemma_operand(n, 4);
        lemma_frame_head(0xdf, be_bytes(n, 4), rest);
    }
}

pub proof fn lemma_ext_head(tag: i8, n: nat, rest: Seq<u8>)
    requires
        n < len_limit(),
    ensures
        head(ext_head(tag, n) + rest) == Ok::<(Head, int), Fault>(
            (Head::Ext(tag, n as u32), ext_head(tag, n).len() as int),
        ),
{
    lemma_pow256_values();
    let t = to_twos(tag as int, 1) as u8;
    assert(from_twos(t as nat, 1) == tag);
    if n == 1 || n == 2 || n == 4 || n == 8 || n == 16 {
        let b: u8 = if n == 1 {
            0xd4
        } else if n == 2 {
            0xd5
        } else if n == 4 {
            0xd6
        } else if n == 8 {
            0xd7
        } else {
            0xd8
        };
        lemma_frame_head(b, seq![t], rest);
    } else {
        let width: nat = if n < 0x100 {
            1
        } else if n < 0x1_0000 {
            2
        } else {
            4
        };
        let b: u8 = if n < 0x100 {
            0xc7
        } else if n < 0x1_0000 {
            0xc8
        } else {
            0xc9
        };
        lemma_operand(n, width);
        let op = be_bytes(n, width).push(t);
        assert(op.drop_last() =~= be_bytes(n, width));
        lemma_frame_head(b, op, rest);
    }
}

proof fn lemma_parse_scalar(v: ValueView, rest: Seq<u8>, depth: nat)
    requires
        encodable(v, depth),
        v is Nil || v is Bool || v is Int || v is F32 || v is F64,
    ensures
        parse(encoding(v) + rest, depth) == Ok::<(ValueView, int), Fault>(
            (v, encoding(v).len() as int),
        ),
{
    match v {
        ValueView::Nil => {
            lemma_frame_head(0xc0, Seq::empty(), rest);
        },
        ValueView::Bool(b) => {
            lemma_frame_head(if b { 0xc3u8 } else { 0xc2u8 }, Seq::empty(), rest);
        },
        ValueView::Int(n) => {
            lemma_int_head(n, rest);
        },
        ValueView::F32(bits) => {
            lemma_pow256_values();
            lemma_operand(bits as nat, 4);
            lemma_frame_head(0xca, be_bytes(bits as nat, 4), rest);
        },
        ValueView::F64(bits) => {
            lemma_pow256_values();
            lemma_operand(bits as nat, 8);
            lemma_frame_head(0xcb, be_bytes(bits as nat, 8), rest);
        },
        _ => {},
    }
}

proof fn lemma_parse_str(s: Seq<char>, rest: Seq<u8>, depth: nat)
    requires
        encodable(ValueView::Str(s), depth),
    ensures
        parse(encoding(ValueView::Str(s)) + rest, depth) == Ok::<(ValueView, int), Fault>(
            (ValueView::Str(s), encoding(ValueView::Str(s)).len() as int),
        ),
{
    let bytes = encoding(ValueView::Str(s)) + rest;
    let raw = encode_utf8(s);
    let hd = str_head(raw.len());
    lemma_str_head(raw.len(), raw + rest);
    assert(bytes =~= hd + (raw + rest));
    assert(bytes.subrange(hd.len() as int, hd.len() as int + raw.len()) =~= raw);
    encode_utf8_valid_utf8(s);
    encode_utf8_decode_utf8(s);
}

proof fn lemma_parse_bin(data: Seq<u8>, rest: Seq<u8>, depth: nat)
    requires
        encodable(ValueView::Bin(data), depth),
    ensures
        parse(encoding(ValueView::Bin(data)) + rest, depth) == Ok::<(ValueView, int), Fault>(
            (ValueView::Bin(data), encoding(ValueView::Bin(data)).len() as int),
        ),
{
    let bytes = encoding(ValueView::Bin(data)) + rest;
    let hd = bin_head(data.len());
    lemma_bin_head(data.len(), data + rest);
    assert(bytes =~= hd + (data + rest));
    assert(bytes.subrange(hd.len() as int, hd.len() as int + data.len()) =~= data);
}

proof fn lemma_parse_ext(tag: i8, data: Seq<u8>, rest: Seq<u8>, depth: nat)
    requires
        encodable(ValueView::Ext(tag, data), depth),
    ensures
        parse(encoding(ValueView::Ext(tag, data)) + rest, depth) == Ok::<(ValueView, int), Fault>(
            (ValueView::Ext(tag, data), encoding(ValueView::Ext(tag, data)).len() as int),
        ),
{
    let bytes = encoding(ValueView::Ext(tag, data)) + rest;
    let hd = ext_head(tag, data.len());
    lemma_ext_head(tag, data.len(), data + rest);
    assert(bytes =~= hd + (data + rest));
    assert(bytes.subrange(hd.len() as int, hd.len() as int + data.len()) =~= data);
}

/// An array reads back as its items read back, behind the head.
proof fn lemma_parse_array(items: Seq<ValueView>, rest: Seq<u8>, depth: nat)
    requires
        items.len() < len_limit(),
        depth > 0,
        parse_seq(encoding_seq(items) + rest, items.len(), (depth - 1) as nat) == Ok::<
            (Seq<ValueView>, int),
            Fault,
        >((items, encoding_seq(items).len() as int)),
    ensures
        parse(encoding(ValueView::Array(items)) + rest, depth) == Ok::<(ValueView, int), Fault>(
            (ValueView::Array(items), encoding(ValueView::Array(items)).len() as int),
        ),
{
    let bytes = encoding(ValueView::Array(items)) + rest;
    let hd = array_head(items.len());
    let body = encoding_seq(items);
    lemma_array_head(items.len(), body + rest);
    assert(bytes =~= hd + (body + rest));
    assert(bytes.skip(hd.len() as int) =~= body + rest);
}

/// A map reads back as its pairs read back, behind the head.
proof fn lemma_parse_dict(pairs: Seq<(ValueView, ValueView)>, rest: Seq<u8>, depth: nat)
    requires
        pairs.len() < len_limit(),
        depth > 0,
        parse_pairs(encoding_pairs(pairs) + rest, pairs.len(), (depth - 1) as nat) == Ok::<
            (Seq<(ValueView, ValueView)>, int),
            Fault,
        >((pairs, encoding_pairs(pairs).len() as int)),
    ensures
        parse(encoding(ValueView::Dict(pairs)) + rest, depth) == Ok::<(ValueView, int), Fault>(
            (ValueView::Dict(pairs), encoding(ValueView::Dict(pairs)).len() as int),
        ),
{
    let bytes = encoding(ValueView::Dict(pairs)) + rest;
    let hd = dict_head(pairs.len());
    let body = encoding_pairs(pairs);
    lemma_dict_head(pairs.len(), body + rest);
    assert(bytes =~= hd + (body + rest));
    assert(bytes.skip(hd.len() as int) =~= body + rest);
}

/// Reading back an encoding gives the value and the encoding's length,
/// whatever bytes follow it.
pub proof fn lemma_parse_encoding(v: ValueView, rest: Seq<u8>, depth: nat)
    requires
        encodable(v, depth),
    ensures
        parse(encoding(v) + rest, depth) == Ok::<(ValueView, int), Fault>(
            (v, encoding(v).len() as int),
        ),
    decreases v, 0nat,
{
    match v {
        ValueView::Str(s) => {
            lemma_parse_str(s, rest, depth);
        },
        ValueView::Bin(data) => {
            lemma_parse_bin(data, rest, depth);
        },
        ValueView::Ext(tag, data) => {
            lemma_parse_ext(tag, data, rest, depth);
        },
        ValueView::Array(items) => {
            lemma_parse_seq_encoding(items, rest, (depth - 1) as nat);
            lemma_parse_array(items, rest, depth);
        },
        ValueView::Dict(pairs) => {
            lemma_parse_pairs_encoding(pairs, rest, (depth - 1) as nat);
            lemma_parse_dict(pairs, rest, depth);
        },
        _ => {
            lemma_parse_scalar(v, rest, depth);
        },
    }
}

/// Reading back the encodings of a row of values gives the row.
pub proof fn lemma_parse_seq_encoding(items: Seq<ValueView>, rest: Seq<u8>, depth: nat)
    requires
        forall|i: int| 0 <= i < items.len() ==> encodable(#[trigger] items[i], depth),
    ensures
        parse_seq(encoding_seq(items) + rest, items.len(), depth) == Ok::<
            (Seq<ValueView>, int),
            Fault,
        >((items, encoding_seq(items).len() as int)),
    decreases items, 1nat,
{
    if items.len() == 0 {
        assert(items =~= Seq::empty());
    } else {
        let init = items.drop_last();
        let last = items.last();
        let bytes = encoding_seq(items) + rest;
        let tail = encoding(last) + rest;
        assert(bytes =~= encoding_seq(init) + tail);
        assert forall|i: int| 0 <= i < init.len() implies encodable(#[trigger] init[i], depth) by {
            assert(init[i] == items[i]);
        }
        lemma_parse_seq_encoding(init, tail, depth);
        assert(bytes.skip(encoding_seq(init).len() as int) =~= tail);
        lemma_parse_encoding(last, rest, depth);
        assert(init.push(last) =~= items);
    }
}

/// Reading back the encodings of a row of pairs gives the row.
pub proof fn lemma_parse_pairs_encoding(
    pairs: Seq<(ValueView, ValueView)>,
    rest: Seq<u8>,
    depth: nat,
)
    requires
        forall|i: int|
            0 <= i < pairs.len() ==> encodable((#[trigger] pairs[i]).0, depth) && encodable(
                pairs[i].1,
                depth,
            ),
    ensures
        parse_pairs(encoding_pairs(pairs) + rest, pairs.len(), depth) == Ok::<
            (Seq<(ValueView, ValueView)>, int),
            Fault,
        >((pairs, encoding_pairs(pairs).len() as int)),
    decreases pairs, 1nat,
{
    if pairs.len() == 0 {
        assert(pairs =~= Seq::empty());
    } else {
        let init = pairs.drop_last();
        let (key, val) = pairs.last();
        let bytes = encoding_pairs(pairs) + rest;
        let after_key = encoding(val) + rest;
        let tail = encoding(key) + after_key;
        assert(bytes =~= encoding_pairs(init) + tail);
        assert forall|i: int| 0 <= i < init.len() implies encodable((#[trigger] init[i]).0, depth)
            && encodable(init[i].1, depth) by {
            assert(init[i] == pairs[i]);
        }
        lemma_parse_pairs_encoding(init, tail, depth);
        let k = encoding_pairs(init).len() as int;
        assert(bytes.skip(k) =~= tail);
        lemma_parse_encoding(key, after_key, depth);
        assert(bytes.skip(k + encoding(key).len()) =~= after_key);
        lemma_parse_encoding(val, rest, depth);
        assert(init.push((key, val)) =~= pairs);
    }
}

/// A head that was read stays as it was read when more bytes follow, and
/// so does a head that is invalid.
pub proof fn lemma_head_stays(bytes: Seq<u8>, more: Seq<u8>)
    requires
        head(bytes) != Err::<(Head, int), Fault>(Fault::Truncated),
    ensures
        head(bytes + more) == head(bytes),
{
    let longer = bytes + more;
    let width = operand_width(bytes[0]);
    assert(longer[0] == bytes[0]);
    assert(longer.subrange(1, 1 + width) =~= bytes.subrange(1, 1 + width));
}

/// What was read stays as it was read when more bytes follow: a value with
/// its length, and the verdict that the bytes are invalid. Only bytes that
/// end inside a value read otherwise once more bytes are there.
pub proof fn lemma_parse_stays(bytes: Seq<u8>, more: Seq<u8>, depth: nat)
    requires
        parse(bytes, depth) != Err::<(ValueView, int), Fault>(Fault::Truncated),
    ensures
        parse(bytes + more, depth) == parse(bytes, depth),
    decreases bytes.len(), 0nat,
{
    let longer = bytes + more;
    lemma_head_stays(bytes, more);
    match head(bytes) {
        Err(_) => {},
        Ok((h, k)) => {
            match h {
                Head::Str(n) => {
                    assert(longer.subrange(k, k + n) =~= bytes.subrange(k, k + n));
                },
                Head::Bin(n) => {
                    assert(longer.subrange(k, k + n) =~= bytes.subrange(k, k + n));
                },
                Head::Ext(_, n) => {
                    assert(longer.subrange(k, k + n) =~= bytes.subrange(k, k + n));
                },
                Head::Array(n) => {
                    if depth > 0 {
                        assert(longer.skip(k) =~= bytes.skip(k) + more);
                        lemma_parse_seq_stays(bytes.skip(k), more, n as nat, (depth - 1) as nat);
                    }
                },
                Head::Dict(n) => {
                    if depth > 0 {
                        assert(longer.skip(k) =~= bytes.skip(k) + more);
                        lemma_parse_pairs_stays(bytes.skip(k), more, n as nat, (depth - 1) as nat);
                    }
                },
                _ => {},
            }
        },
    }
}

/// A row of values that was read stays as it was read when more bytes
/// follow, and so does the verdict that the bytes are invalid.
pub proof fn lemma_parse_seq_stays(bytes: Seq<u8>, more: Seq<u8>, count: nat, depth: nat)
    requires
        parse_seq(bytes, count, depth) != Err::<(Seq<ValueView>, int), Fault>(Fault::Truncated),
    ensures
        parse_seq(bytes + more, count, depth) == parse_seq(bytes, count, depth),
    decreases bytes.len(), count + 1,
{
    if count > 0 {
        lemma_parse_seq_stays(bytes, more, (count - 1) as nat, depth);
        match parse_seq(bytes, (count - 1) as nat, depth) {
            Err(_) => {},
            Ok((_, k)) => {
                if 0 <= k <= bytes.len() {
                    assert((bytes + more).skip(k) =~= bytes.skip(k) + more);
                    lemma_parse_stays(bytes.skip(k), more, depth);
                } else {
                    lemma_parse_seq_within(bytes, (count - 1) as nat, depth);
                }
            },
        }
    }
}

/// A row of pairs that was read stays as it was read when more bytes
/// follow, and so does the verdict that the bytes are invalid.
pub proof fn lemma_parse_pairs_stays(bytes: Seq<u8>, more: Seq<u8>, count: nat, depth: nat)
    requires
        parse_pairs(bytes, count, depth) != Err::<(Seq<(ValueView, ValueView)>, int), Fault>(
            Fault::Truncated,
        ),
    ensures
        parse_pairs(bytes + more, count, depth) == parse_pairs(bytes, count, depth),
    decreases bytes.len(), count + 1,
{
    if count > 0 {
        lemma_parse_pairs_stays(bytes, more, (count - 1) as nat, depth);
        match parse_pairs(bytes, (count - 1) as nat, depth) {
            Err(_) => {},
            Ok((_, k)) => {
                if 0 <= k <= bytes.len() {
                    assert((bytes + more).skip(k) =~= bytes.skip(k) + more);
                    lemma_parse_stays(bytes.skip(k), more, depth);
                    match parse(bytes.skip(k), depth) {
                        Err(_) => {},
                        Ok((_, m)) => {
                            if 0 <= k + m <= bytes.len() {
                                assert((bytes + more).skip(k + m) =~= bytes.skip(k + m) + more);
                                lemma_parse_stays(bytes.skip(k + m), more, depth);
                            } else {
                                lemma_parse_within(bytes.skip(k), depth);
                            }
                        },
                    }
                } else {
                    lemma_parse_pairs_within(bytes, (count - 1) as nat, depth);
                }
            },
        }
    }
}

/// A value that was read lies within the bytes, and takes at least one.
pub proof fn lemma_parse_within(bytes: Seq<u8>, depth: nat)
    ensures
        parse(bytes, depth) matches Ok((_, k)) ==> 0 < k <= bytes.len(),
    decreases bytes.len(), 0nat,
{
    match head(bytes) {
        Err(_) => {},
        Ok((h, k)) => {
            match h {
                Head::Array(n) => {
                    if depth > 0 {
                        lemma_parse_seq_within(bytes.skip(k), n as nat, (depth - 1) as nat);
                    }
                },
                Head::Dict(n) => {
                    if depth > 0 {
                        lemma_parse_pairs_within(bytes.skip(k), n as nat, (depth - 1) as nat);
                    }
                },
                _ => {},
            }
        },
    }
}

/// A row of values that was read lies within the bytes.
pub proof fn lemma_parse_seq_within(bytes: Seq<u8>, count: nat, depth: nat)
    ensures
        parse_seq(bytes, count, depth) matches Ok((items, k)) ==> 0 <= k <= bytes.len()
            && items.len() == count,
    decreases bytes.len(), count + 1,
{
    if count > 0 {
        lemma_parse_seq_within(bytes, (count - 1) as nat, depth);
        match parse_seq(bytes, (count - 1) as nat, depth) {
            Err(_) => {},
            Ok((_, k)) => {
                if 0 <= k <= bytes.len() {
                    lemma_parse_within(bytes.skip(k), depth);
                }
            },
        }
    }
}

/// A row of pairs that was read lies within the bytes.
pub proof fn lemma_parse_pairs_within(bytes: Seq<u8>, count: nat, depth: nat)
    ensures
        parse_pairs(bytes, count, depth) matches Ok((pairs, k)) ==> 0 <= k <= bytes.len()
            && pairs.len() == count,
    decreases bytes.len(), count + 1,
{
    if count > 0 {
        lemma_parse_pairs_within(bytes, (count - 1) as nat, depth);
        match parse_pairs(bytes, (count - 1) as nat, depth) {
            Err(_) => {},
            Ok((_, k)) => {
                if 0 <= k <= bytes.len() {
                    lemma_parse_within(bytes.skip(k), depth);
                    match parse(bytes.skip(k), depth) {
                        Err(_) => {},
                        Ok((_, m)) => {
                            if 0 <= k + m <= bytes.len() {
                                lemma_parse_within(bytes.skip(k + m), depth);
                            }
                        },
                    }
                }
            },
        }
    }
}

} // verus!
