//! Reading values from bytes.

use crate::value::{lemma_array_view, lemma_dict_view, Value, ValueView};
use crate::wire::endian::{from_twos, lemma_be_uint_bound, lemma_pow256_values, pow256, read_be};
use crate::wire::format::{
    head, head_of, int_head, operand_width, parse, parse_pairs, parse_seq, Fault, Head,
};
use vstd::prelude::*;
use vstd::slice::{slice_subrange, slice_to_vec};
use vstd::utf8::{decode_utf8, encode_utf8, encode_utf8_decode_utf8, valid_utf8};

verus! {

/// `core::str::from_utf8`: the bytes as a string slice, if and only if they
/// are valid UTF-8; the slice is then made of exactly those bytes.
#[verifier::external_body]
fn str_of(bytes: &[u8]) -> (r: Option<&str>)
    ensures
        r is Some <==> valid_utf8(bytes@),
        r matches Some(s) ==> encode_utf8(s@) == bytes@,
{
    core::str::from_utf8(bytes).ok()
}

/// The text that `bytes` spell, if they are valid UTF-8.
pub fn text_of(bytes: &[u8]) -> (r: Option<String>)
    ensures
        r is Some <==> valid_utf8(bytes@),
        r matches Some(s) ==> s@ == decode_utf8(bytes@),
{
    match str_of(bytes) {
        None => None,
        Some(s) => {
            proof {
                encode_utf8_decode_utf8(s@);
            }
            Some(s.to_owned())
        },
    }
}

fn operand_width_of(b: u8) -> (width: usize)
    ensures
        width == operand_width(b),
        width <= 8,
{
    if b == 0xc4 || b == 0xcc || b == 0xd0 || b == 0xd9 || (0xd4 <= b && b <= 0xd8) {
        1
    } else if b == 0xc5 || b == 0xc7 || b == 0xcd || b == 0xd1 || b == 0xda || b == 0xdc || b
        == 0xde {
        2
    } else if b == 0xc8 {
        3
    } else if b == 0xc6 || b == 0xca || b == 0xce || b == 0xd2 || b == 0xdb || b == 0xdd || b
        == 0xdf {
        4
    } else if b == 0xc9 {
        5
    } else if b == 0xcb || b == 0xcf || b == 0xd3 {
        8
    } else {
        0
    }
}

/// The integer that `u` stands for in two's complement of `width` bytes.
fn signed_of(u: u64, width: usize) -> (n: i64)
    requires
        width == 1 || width == 2 || width == 4 || width == 8,
        u < pow256(width as nat),
    ensures
        n == from_twos(u as nat, width as nat),
{
    proof {
        lemma_pow256_values();
    }
    if width == 1 {
        if u >= 0x80 {
            u as i64 - 0x100
        } else {
            u as i64
        }
    } else if width == 2 {
        if u >= 0x8000 {
            u as i64 - 0x1_0000
        } else {
            u as i64
        }
    } else if width == 4 {
        if u >= 0x8000_0000 {
            u as i64 - 0x1_0000_0000
        } else {
            u as i64
        }
    } else {
        if u >= 0x8000_0000_0000_0000 {
            (u - 0x8000_0000_0000_0000) as i64 + i64::MIN
        } else {
            u as i64
        }
    }
}

/// The extension type that byte `t` stands for.
fn tag_of(t: u8) -> (tag: i8)
    ensures
        tag == from_twos(t as nat, 1),
{
    proof {
        lemma_pow256_values();
    }
    signed_of(t as u64, 1) as i8
}

fn int_head_of(n: i64) -> (h: Head)
    ensures
        h == int_head(n as int),
{
    if n >= 0 {
        Head::UInt(n as u64)
    } else {
        Head::Int(n)
    }
}

/// The head that marker `b` spells with the `width` bytes at `at`.
fn head_at(b: u8, bytes: &[u8], at: usize, width: usize) -> (r: Option<Head>)
    requires
        width == operand_width(b),
        at + width <= bytes@.len(),
    ensures
        r == head_of(b, bytes@.subrange(at as int, at + width)),
{
    let ghost op = bytes@.subrange(at as int, at + width);
    let total: usize = bytes.len();
    assert(at + width <= total);
    proof {
        lemma_pow256_values();
        lemma_be_uint_bound(op);
    }
    if b <= 0x7f {
        Some(Head::UInt(b as u64))
    } else if b <= 0x8f {
        Some(Head::Dict((b - 0x80) as u32))
    } else if b <= 0x9f {
        Some(Head::Array((b - 0x90) as u32))
    } else if b <= 0xbf {
        Some(Head::Str((b - 0xa0) as u32))
    } else if b == 0xc0 {
        Some(Head::Nil)
    } else if b == 0xc1 {
        None
    } else if b == 0xc2 {
        Some(Head::Bool(false))
    } else if b == 0xc3 {
        Some(Head::Bool(true))
    } else if b <= 0xc6 {
        Some(Head::Bin(read_be(bytes, at, width) as u32))
    } else if b <= 0xc9 {
        proof {
            assert(op.drop_last() =~= bytes@.subrange(at as int, at + width - 1));
            lemma_be_uint_bound(op.drop_last());
        }
        let n = read_be(bytes, at, width - 1);
        Some(Head::Ext(tag_of(bytes[at + width - 1]), n as u32))
    } else if b == 0xca {
        Some(Head::F32(read_be(bytes, at, width) as u32))
    } else if b == 0xcb {
        Some(Head::F64(read_be(bytes, at, width)))
    } else if b <= 0xcf {
        Some(Head::UInt(read_be(bytes, at, width)))
    } else if b <= 0xd3 {
        Some(int_head_of(signed_of(read_be(bytes, at, width), width)))
    } else if b <= 0xd8 {
        let len: u32 = if b == 0xd4 {
            1
        } else if b == 0xd5 {
            2
        } else if b == 0xd6 {
            4
        } else if b == 0xd7 {
            8
        } else {
            16
        };
        Some(Head::Ext(tag_of(bytes[at]), len))
    } else if b <= 0xdb {
        Some(Head::Str(read_be(bytes, at, width) as u32))
    } else if b <= 0xdd {
        Some(Head::Array(read_be(bytes, at, width) as u32))
    } else if b <= 0xdf {
        Some(Head::Dict(read_be(bytes, at, width) as u32))
    } else {
        Some(Head::Int(b as i64 - 0x100))
    }
}

/// Reads the head that starts at `start`; on success also gives the place
/// just behind it.
pub fn read_head(bytes: &[u8], start: usize) -> (r: Result<(Head, usize), Fault>)
    requires
        start <= bytes@.len(),
    ensures
        match head(bytes@.skip(start as int)) {
            Ok((h, k)) => r == Ok::<(Head, usize), Fault>((h, (start + k) as usize)) && 0 < k
                && start + k <= bytes@.len(),
            Err(fault) => r == Err::<(Head, usize), Fault>(fault),
        },
{
    let total = bytes.len();
    if start >= total {
        return Err(Fault::Truncated);
    }
    let b = bytes[start];
    let width = operand_width_of(b);
    if total - start - 1 < width {
        return Err(Fault::Truncated);
    }
    let at = start + 1;
    proof {
        let tail = bytes@.skip(start as int);
        assert(tail[0] == b);
        assert(tail.subrange(1, 1 + width) =~= bytes@.subrange(at as int, at + width));
    }
    match head_at(b, bytes, at, width) {
        Some(h) => Ok((h, at + width)),
        None => Err(Fault::Invalid),
    }
}

/// Whether `r` is what reading one value at `start` gives: the value with
/// the place just behind it, or the fault.
pub open spec fn value_read(
    r: Result<(Value, usize), Fault>,
    bytes: Seq<u8>,
    start: int,
    depth: nat,
) -> bool {
    match parse(bytes.skip(start), depth) {
        Ok((v, k)) => r matches Ok((w, end)) && w@ == v && end == start + k && start < end
            <= bytes.len(),
        Err(fault) => r matches Err(f) && f == fault,
    }
}

/// Whether `r` is what reading `count` values at `start` gives.
pub open spec fn values_read(
    r: Result<(Vec<Value>, usize), Fault>,
    bytes: Seq<u8>,
    start: int,
    count: nat,
    depth: nat,
) -> bool {
    match parse_seq(bytes.skip(start), count, depth) {
        Ok((vs, k)) => r matches Ok((ws, end)) && ws.deep_view() == vs && end == start + k
            && start <= end <= bytes.len(),
        Err(fault) => r matches Err(f) && f == fault,
    }
}

/// Whether `r` is what reading `count` pairs at `start` gives.
pub open spec fn pairs_read(
    r: Result<(Vec<(Value, Value)>, usize), Fault>,
    bytes: Seq<u8>,
    start: int,
    count: nat,
    depth: nat,
) -> bool {
    match parse_pairs(bytes.skip(start), count, depth) {
        Ok((ps, k)) => r matches Ok((ws, end)) && ws.deep_view() == ps && end == start + k
            && start <= end <= bytes.len(),
        Err(fault) => r matches Err(f) && f == fault,
    }
}

/// Once a row of values fails to read, every longer row fails the same way.
proof fn lemma_parse_seq_fails(bytes: Seq<u8>, short: nat, count: nat, depth: nat)
    requires
        short <= count,
        parse_seq(bytes, short, depth) is Err,
    ensures
        parse_seq(bytes, count, depth) == parse_seq(bytes, short, depth),
    decreases count,
{
    if short < count {
        lemma_parse_seq_fails(bytes, short, (count - 1) as nat, depth);
    }
}

/// Once a row of pairs fails to read, every longer row fails the same way.
proof fn lemma_parse_pairs_fails(bytes: Seq<u8>, short: nat, count: nat, depth: nat)
    requires
        short <= count,
        parse_pairs(bytes, short, depth) is Err,
    ensures
        parse_pairs(bytes, count, depth) == parse_pairs(bytes, short, depth),
    decreases count,
{
    if short < count {
        lemma_parse_pairs_fails(bytes, short, (count - 1) as nat, depth);
    }
}

/// Reads the value that starts at `start`, which may nest `depth` deep; on
/// success also gives the place just behind it.
pub fn decode_value(bytes: &[u8], start: usize, depth: usize) -> (r: Result<
    (Value, usize),
    Fault,
>)
    requires
        start <= bytes@.len(),
    ensures
        value_read(r, bytes@, start as int, depth as nat),
    decreases bytes@.len() - start, 0nat,
{
    let total = bytes.len();
    let (h, after) = match read_head(bytes, start) {
        Err(fault) => {
            return Err(fault);
        },
        Ok(found) => found,
    };
    let ghost tail = bytes@.skip(start as int);
    let ghost k = after - start;
    match h {
        Head::Nil => Ok((Value::Nil, after)),
        Head::Bool(b) => Ok((Value::Bool(b), after)),
        Head::UInt(u) => Ok((Value::UInt(u), after)),
        Head::Int(i) => Ok((Value::Int(i), after)),
        Head::F32(bits) => Ok((Value::F32(bits), after)),
        Head::F64(bits) => Ok((Value::F64(bits), after)),
        Head::Str(n) => {
            if total - after < n as usize {
                return Err(Fault::Truncated);
            }
            let raw = slice_subrange(bytes, after, after + n as usize);
            assert(raw@ =~= tail.subrange(k, k + n));
            match text_of(raw) {
                Some(s) => Ok((Value::Str(s), after + n as usize)),
                None => Err(Fault::Invalid),
            }
        },
        Head::Bin(n) => {
            if total - after < n as usize {
                return Err(Fault::Truncated);
            }
            let raw = slice_subrange(bytes, after, after + n as usize);
            assert(raw@ =~= tail.subrange(k, k + n));
            Ok((Value::Bin(slice_to_vec(raw)), after + n as usize))
        },
        Head::Ext(tag, n) => {
            if total - after < n as usize {
                return Err(Fault::Truncated);
            }
            let raw = slice_subrange(bytes, after, after + n as usize);
            assert(raw@ =~= tail.subrange(k, k + n));
            Ok((Value::Ext(tag, slice_to_vec(raw)), after + n as usize))
        },
        Head::Array(n) => {
            assert(tail.skip(k) =~= bytes@.skip(after as int));
            if depth == 0 {
                return Err(Fault::Invalid);
            }
            match decode_seq(bytes, after, n, depth - 1) {
                Err(fault) => Err(fault),
                Ok((items, end)) => {
                    proof {
                        lemma_array_view(items);
                    }
                    Ok((Value::Array(items), end))
                },
            }
        },
        Head::Dict(n) => {
            assert(tail.skip(k) =~= bytes@.skip(after as int));
            if depth == 0 {
                return Err(Fault::Invalid);
            }
            match decode_pairs(bytes, after, n, depth - 1) {
                Err(fault) => Err(fault),
                Ok((pairs, end)) => {
                    proof {
                        lemma_dict_view(pairs);
                    }
                    Ok((Value::Dict(pairs), end))
                },
            }
        },
    }
}

/// Reads `count` values in a row, the first at `start`; each may nest
/// `depth` deep.
pub fn decode_seq(bytes: &[u8], start: usize, count: u32, depth: usize) -> (r: Result<
    (Vec<Value>, usize),
    Fault,
>)
    requires
        start <= bytes@.len(),
    ensures
        values_read(r, bytes@, start as int, count as nat, depth as nat),
    decreases bytes@.len() - start, 1nat,
{
    let ghost tail = bytes@.skip(start as int);
    let mut items: Vec<Value> = Vec::new();
    let mut pos: usize = start;
    let mut i: u32 = 0;
    assert(items.deep_view() =~= Seq::empty());
    while i < count
        invariant
            i <= count,
            start <= pos <= bytes@.len(),
            tail == bytes@.skip(start as int),
            parse_seq(tail, i as nat, depth as nat) == Ok::<(Seq<ValueView>, int), Fault>(
                (items.deep_view(), pos - start),
            ),
        decreases count - i,
    {
        let ghost before = items.deep_view();
        assert(tail.skip(pos - start) =~= bytes@.skip(pos as int));
        match decode_value(bytes, pos, depth) {
            Err(fault) => {
                proof {
                    lemma_parse_seq_fails(tail, (i + 1) as nat, count as nat, depth as nat);
                }
                return Err(fault);
            },
            Ok((item, next)) => {
                items.push(item);
                pos = next;
                assert(items.deep_view() =~= before.push(item@));
            },
        }
        i = i + 1;
    }
    Ok((items, pos))
}

/// Reads `count` pairs of values in a row, the first at `start`; each value
/// may nest `depth` deep.
pub fn decode_pairs(bytes: &[u8], start: usize, count: u32, depth: usize) -> (r: Result<
    (Vec<(Value, Value)>, usize),
    Fault,
>)
    requires
        start <= bytes@.len(),
    ensures
        pairs_read(r, bytes@, start as int, count as nat, depth as nat),
    decreases bytes@.len() - start, 1nat,
{
    let ghost tail = bytes@.skip(start as int);
    let mut pairs: Vec<(Value, Value)> = Vec::new();
    let mut pos: usize = start;
    let mut i: u32 = 0;
    assert(pairs.deep_view() =~= Seq::empty());
    while i < count
        invariant
            i <= count,
            start <= pos <= bytes@.len(),
            tail == bytes@.skip(start as int),
            parse_pairs(tail, i as nat, depth as nat) == Ok::<
                (Seq<(ValueView, ValueView)>, int),
                Fault,
            >((pairs.deep_view(), pos - start)),
        decreases count - i,
    {
        let ghost before = pairs.deep_view();
        assert(tail.skip(pos - start) =~= bytes@.skip(pos as int));
        let (key, mid) = match decode_value(bytes, pos, depth) {
            Err(fault) => {
                proof {
                    lemma_parse_pairs_fails(tail, (i + 1) as nat, count as nat, depth as nat);
                }
                return Err(fault);
            },
            Ok(found) => found,
        };
        assert(tail.skip(mid - start) =~= bytes@.skip(mid as int));
        let (val, next) = match decode_value(bytes, mid, depth) {
            Err(fault) => {
                proof {
                    lemma_parse_pairs_fails(tail, (i + 1) as nat, count as nat, depth as nat);
                }
                return Err(fault);
            },
            Ok(found) => found,
        };
        let ghost pair = (key@, val@);
        pairs.push((key, val));
        pos = next;
        assert(pairs.deep_view() =~= before.push(pair));
        i = i + 1;
    }
    Ok((pairs, pos))
}

} // verus!
