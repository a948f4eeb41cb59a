//! The msgpack format, stated on sequences of bytes.
//!
//! [`encoding`] gives the bytes of a value, in the shortest form the format
//! offers. [`parse`] reads one value from the front of a sequence of bytes
//! and accepts every form, also the longer ones.

use crate::value::ValueView;
use crate::wire::endian::{be_bytes, be_uint, from_twos, to_twos};
use vstd::prelude::*;
use vstd::utf8::{decode_utf8, encode_utf8, valid_utf8};

verus! {

/// Why no value could be read.
#[derive(Clone, Copy, Debug, PartialEq, Eq, Structural)]
pub enum Fault {
    /// The bytes end before the value does; more bytes may complete it.
    Truncated,
    /// No continuation of the bytes is a value.
    Invalid,
}

/// What the first bytes of a value announce: a scalar, complete, or the kind
/// and size of what follows.
#[derive(Clone, Copy, Debug, PartialEq, Eq, Structural)]
pub enum Head {
    Nil,
    Bool(bool),
    UInt(u64),
    /// A negative integer.
    Int(i64),
    F32(u32),
    F64(u64),
    /// A string of that many bytes.
    Str(u32),
    /// That many raw bytes.
    Bin(u32),
    /// That many values.
    Array(u32),
    /// That many pairs of values.
    Dict(u32),
    /// An extension type and that many bytes.
    Ext(i8, u32),
}

/// How deep arrays and maps may nest in a value that the library writes or
/// reads.
pub const MAX_DEPTH: usize = 1024;

/// Exclusive upper bound of every length and count on the wire.
pub open spec fn len_limit() -> nat {
    0x1_0000_0000
}

/// How many bytes of the head follow the marker byte `b`.
pub open spec fn operand_width(b: u8) -> int {
    if b == 0xc4 || b == 0xcc || b == 0xd0 || b == 0xd9 || (0xd4 <= b && b <= 0xd8) {
        1
    } else if b == 0xc5 || b == 0xc7 || b == 0xcd || b == 0xd1 || b == 0xda || b == 0xdc || b
        == 0xde {
        2
    } else if b == 0xc8 {
        3
    } else if b == 0xc6 || b == 0xca || b == 0xce || b == 0xd2 || b == 0xdb || b == 0xdd || b
        == 0xdf {
        4
    } else if b == 0xc9 {
        5
    } else if b == 0xcb || b == 0xcf || b == 0xd3 {
        8
    } else {
        0
    }
}

/// The head for an integer, by its sign.
pub open spec fn int_head(n: int) -> Head {
    if n >= 0 {
        Head::UInt(n as u64)
    } else {
        Head::Int(n as i64)
    }
}

/// The size that a fixed-size extension marker announces.
pub open spec fn fixext_len(b: u8) -> u32 {
    if b == 0xd4 {
        1
    } else if b == 0xd5 {
        2
    } else if b == 0xd6 {
        4
    } else if b == 0xd7 {
        8
    } else {
        16
    }
}

/// The head that marker `b` and its operand bytes `op` spell; `None` for the
/// one marker that the format never uses.
pub open spec fn head_of(b: u8, op: Seq<u8>) -> Option<Head> {
    if b <= 0x7f {
        Some(Head::UInt(b as u64))
    } else if b <= 0x8f {
        Some(Head::Dict((b - 0x80) as u32))
    } else if b <= 0x9f {
        Some(Head::Array((b - 0x90) as u32))
    } else if b <= 0xbf {
        Some(Head::Str((b - 0xa0) as u32))
    } else if b == 0xc0 {
        Some(Head::Nil)
    } else if b == 0xc1 {
        None
    } else if b == 0xc2 {
        Some(Head::Bool(false))
    } else if b == 0xc3 {
        Some(Head::Bool(true))
    } else if b <= 0xc6 {
        Some(Head::Bin(be_uint(op) as u32))
    } else if b <= 0xc9 {
        Some(Head::Ext(from_twos(op.last() as nat, 1) as i8, be_uint(op.drop_last()) as u32))
    } else if b == 0xca {
        Some(Head::F32(be_uint(op) as u32))
    } else if b == 0xcb {
        Some(Head::F64(be_uint(op) as u64))
    } else if b <= 0xcf {
        Some(Head::UInt(be_uint(op) as u64))
    } else if b <= 0xd3 {
        Some(int_head(from_twos(be_uint(op), op.len())))
    } else if b <= 0xd8 {
        Some(Head::Ext(from_twos(op[0] as nat, 1) as i8, fixext_len(b)))
    } else if b <= 0xdb {
        Some(Head::Str(be_uint(op) as u32))
    } else if b <= 0xdd {
        Some(Head::Array(be_uint(op) as u32))
    } else if b <= 0xdf {
        Some(Head::Dict(be_uint(op) as u32))
    } else {
        Some(Head::Int((b - 0x100) as i64))
    }
}

/// Reads the head at the front of `bytes`, with the number of bytes it takes.
pub open spec fn head(bytes: Seq<u8>) -> Result<(Head, int), Fault> {
    if bytes.len() == 0 {
        Err(Fault::Truncated)
    } else {
        let width = operand_width(bytes[0]);
        if bytes.len() < 1 + width {
            Err(Fault::Truncated)
        } else {
            match head_of(bytes[0], bytes.subrange(1, 1 + width)) {
                Some(h) => Ok((h, 1 + width)),
                None => Err(Fault::Invalid),
            }
        }
    }
}

/// Reads one value at the front of `bytes`, with the number of bytes it
/// takes. Bytes after the value are not looked at. Arrays and maps may nest
/// `depth` deep; what nests deeper is invalid.
pub open spec fn parse(bytes: Seq<u8>, depth: nat) -> Result<(ValueView, int), Fault>
    decreases bytes.len(), 0nat,
{
    match head(bytes) {
        Err(fault) => Err(fault),
        Ok((h, k)) => {
            if !(0 < k <= bytes.len()) {
                Err(Fault::Invalid)
            } else {
                match h {
                    Head::Nil => Ok((ValueView::Nil, k)),
                    Head::Bool(b) => Ok((ValueView::Bool(b), k)),
                    Head::UInt(u) => Ok((ValueView::Int(u as int), k)),
                    Head::Int(i) => Ok((ValueView::Int(i as int), k)),
                    Head::F32(bits) => Ok((ValueView::F32(bits), k)),
                    Head::F64(bits) => Ok((ValueView::F64(bits), k)),
                    Head::Str(n) => {
                        if bytes.len() < k + n {
                            Err(Fault::Truncated)
                        } else if valid_utf8(bytes.subrange(k, k + n)) {
                            Ok((ValueView::Str(decode_utf8(bytes.subrange(k, k + n))), k + n))
                        } else {
                            Err(Fault::Invalid)
                        }
                    },
                    Head::Bin(n) => {
                        if bytes.len() < k + n {
                            Err(Fault::Truncated)
                        } else {
                            Ok((ValueView::Bin(bytes.subrange(k, k + n)), k + n))
                        }
                    },
                    Head::Ext(tag, n) => {
                        if bytes.len() < k + n {
                            Err(Fault::Truncated)
                        } else {
                            Ok((ValueView::Ext(tag, bytes.subrange(k, k + n)), k + n))
                        }
                    },
                    Head::Array(n) => if depth == 0 {
                        Err(Fault::Invalid)
                    } else {
                        match parse_seq(bytes.skip(k), n as nat, (depth - 1) as nat) {
                            Ok((items, m)) => Ok((ValueView::Array(items), k + m)),
                            Err(fault) => Err(fault),
                        }
                    },
                    Head::Dict(n) => if depth == 0 {
                        Err(Fault::Invalid)
                    } else {
                        match parse_pairs(bytes.skip(k), n as nat, (depth - 1) as nat) {
                            Ok((pairs, m)) => Ok((ValueView::Dict(pairs), k + m)),
                            Err(fault) => Err(fault),
                        }
                    },
                }
            }
        },
    }
}

/// Reads `count` values in a row from the front of `bytes`, each nesting at
/// most `depth` deep.
pub open spec fn parse_seq(bytes: Seq<u8>, count: nat, depth: nat) -> Result<
    (Seq<ValueView>, int),
    Fault,
>
    decreases bytes.len(), count + 1,
{
    if count == 0 {
        Ok((Seq::empty(), 0))
    } else {
        match parse_seq(bytes, (count - 1) as nat, depth) {
            Err(fault) => Err(fault),
            Ok((items, k)) => {
                if !(0 <= k <= bytes.len()) {
                    Err(Fault::Invalid)
                } else {
                    match parse(bytes.skip(k), depth) {
                        Err(fault) => Err(fault),
                        Ok((item, m)) => Ok((items.push(item), k + m)),
                    }
                }
            },
        }
    }
}

/// Reads `count` pairs of values in a row from the front of `bytes`, each
/// value nesting at most `depth` deep.
pub open spec fn parse_pairs(bytes: Seq<u8>, count: nat, depth: nat) -> Result<
    (Seq<(ValueView, ValueView)>, int),
    Fault,
>
    decreases bytes.len(), count + 1,
{
    if count == 0 {
        Ok((Seq::empty(), 0))
    } else {
        match parse_pairs(bytes, (count - 1) as nat, depth) {
            Err(fault) => Err(fault),
            Ok((pairs, k)) => {
                if !(0 <= k <= bytes.len()) {
                    Err(Fault::Invalid)
                } else {
                    match parse(bytes.skip(k), depth) {
                        Err(fault) => Err(fault),
                        Ok((key, m)) => {
                            if !(0 <= k + m <= bytes.len()) {
                                Err(Fault::Invalid)
                            } else {
                                match parse(bytes.skip(k + m), depth) {
                                    Err(fault) => Err(fault),
                                    Ok((val, j)) => Ok((pairs.push((key, val)), k + m + j)),
                                }
                            }
                        },
                    }
                }
            },
        }
    }
}

/// A marker byte followed by its operand bytes.
pub open spec fn frame(b: u8, op: Seq<u8>) -> Seq<u8> {
    seq![b] + op
}

/// The shortest encoding of the integer `n`.
pub open spec fn int_encoding(n: int) -> Seq<u8> {
    if n >= 0 {
        if n < 0x80 {
            frame(n as u8, Seq::empty())
        } else if n < 0x100 {
            frame(0xcc, be_bytes(n as nat, 1))
        } else if n < 0x1_0000 {
            frame(0xcd, be_bytes(n as nat, 2))
        } else if n < 0x1_0000_0000 {
            frame(0xce, be_bytes(n as nat, 4))
        } else {
            frame(0xcf, be_bytes(n as nat, 8))
        }
    } else {
        if n >= -0x20 {
            frame((n + 0x100) as u8, Seq::empty())
        } else if n >= -0x80 {
            frame(0xd0, be_bytes(to_twos(n, 1), 1))
        } else if n >= -0x8000 {
            frame(0xd1, be_bytes(to_twos(n, 2), 2))
        } else if n >= -0x8000_0000 {
            frame(0xd2, be_bytes(to_twos(n, 4), 4))
        } else {
            frame(0xd3, be_bytes(to_twos(n, 8), 8))
        }
    }
}

/// The head of a string of `n` bytes.
pub open spec fn str_head(n: nat) -> Seq<u8> {
    if n < 32 {
        frame((0xa0 + n) as u8, Seq::empty())
    } else if n < 0x100 {
        frame(0xd9, be_bytes(n, 1))
    } else if n < 0x1_0000 {
        frame(0xda, be_bytes(n, 2))
    } else {
        frame(0xdb, be_bytes(n, 4))
    }
}

/// The head of `n` raw bytes.
pub open spec fn bin_head(n: nat) -> Seq<u8> {
    if n < 0x100 {
        frame(0xc4, be_bytes(n, 1))
    } else if n < 0x1_0000 {
        frame(0xc5, be_bytes(n, 2))
    } else {
        frame(0xc6, be_bytes(n, 4))
    }
}

/// The head of an array of `n` values.
pub open spec fn array_head(n: nat) -> Seq<u8> {
    if n < 16 {
        frame((0x90 + n) as u8, Seq::empty())
    } else if n < 0x1_0000 {
        frame(0xdc, be_bytes(n, 2))
    } else {
        frame(0xdd, be_bytes(n, 4))
    }
}

/// The head of a map of `n` pairs.
pub open spec fn dict_head(n: nat) -> Seq<u8> {
    if n < 16 {
        frame((0x80 + n) as u8, Seq::empty())
    } else if n < 0x1_0000 {
        frame(0xde, be_bytes(n, 2))
    } else {
        frame(0xdf, be_bytes(n, 4))
    }
}

/// The head of an extension value of type `tag` and `n` bytes.
pub open spec fn ext_head(tag: i8, n: nat) -> Seq<u8> {
    let t = to_twos(tag as int, 1) as u8;
    if n == 1 {
        frame(0xd4, seq![t])
    } else if n == 2 {
        frame(0xd5, seq![t])
    } else if n == 4 {
        frame(0xd6, seq![t])
    } else if n == 8 {
        frame(0xd7, seq![t])
    } else if n == 16 {
        frame(0xd8, seq![t])
    } else if n < 0x100 {
        frame(0xc7, be_bytes(n, 1).push(t))
    } else if n < 0x1_0000 {
        frame(0xc8, be_bytes(n, 2).push(t))
    } else {
        frame(0xc9, be_bytes(n, 4).push(t))
    }
}

/// The bytes of `v` on the wire.
pub open spec fn encoding(v: ValueView) -> Seq<u8>
    decreases v,
{
    match v {
        ValueView::Nil => frame(0xc0, Seq::empty()),
        ValueView::Bool(b) => frame(if b { 0xc3u8 } else { 0xc2u8 }, Seq::empty()),
        ValueView::Int(n) => int_encoding(n),
        ValueView::F32(bits) => frame(0xca, be_bytes(bits as nat, 4)),
        ValueView::F64(bits) => frame(0xcb, be_bytes(bits as nat, 8)),
        ValueView::Str(s) => str_head(encode_utf8(s).len()) + encode_utf8(s),
        ValueView::Bin(data) => bin_head(data.len()) + data,
        ValueView::Array(items) => array_head(items.len()) + encoding_seq(items),
        ValueView::Dict(pairs) => dict_head(pairs.len()) + encoding_pairs(pairs),
        ValueView::Ext(tag, data) => ext_head(tag, data.len()) + data,
    }
}

/// The encodings of `items`, one after the other.
pub open spec fn encoding_seq(items: Seq<ValueView>) -> Seq<u8>
    decreases items,
{
    if items.len() == 0 {
        Seq::empty()
    } else {
        encoding_seq(items.drop_last()) + encoding(items.last())
    }
}

/// The encodings of each key and its value, one after the other.
pub open spec fn encoding_pairs(pairs: Seq<(ValueView, ValueView)>) -> Seq<u8>
    decreases pairs,
{
    if pairs.len() == 0 {
        Seq::empty()
    } else {
        encoding_pairs(pairs.drop_last()) + encoding(pairs.last().0) + encoding(pairs.last().1)
    }
}

/// Whether the wire can carry `v`: its integers fit 64 bits, every length
/// and count in it fits 32 bits, and its arrays and maps nest at most
/// `depth` deep.
pub open spec fn encodable(v: ValueView, depth: nat) -> bool
    decreases v,
{
    match v {
        ValueView::Int(n) => -0x8000_0000_0000_0000 <= n < 0x1_0000_0000_0000_0000,
        ValueView::Str(s) => encode_utf8(s).len() < len_limit(),
        ValueView::Bin(data) => data.len() < len_limit(),
        ValueView::Array(items) => depth > 0 && items.len() < len_limit() && forall|i: int|
            0 <= i < items.len() ==> encodable(#[trigger] items[i], (depth - 1) as nat),
        ValueView::Dict(pairs) => depth > 0 && pairs.len() < len_limit() && forall|i: int|
            0 <= i < pairs.len() ==> encodable((#[trigger] pairs[i]).0, (depth - 1) as nat)
                && encodable(pairs[i].1, (depth - 1) as nat),
        ValueView::Ext(_, data) => data.len() < len_limit(),
        _ => true,
    }
}

} // verus!
