use nvim_rs::wire::decode::{decode_pairs, decode_seq, decode_value, read_head, text_of};
use nvim_rs::wire::encode::{encode_pairs, encode_value, encode_values, put_int, put_uint};
use nvim_rs::wire::endian::{read_be, write_be};
use nvim_rs::wire::format::{Fault, Head, MAX_DEPTH};
use nvim_rs::{CodecError, Message, Notification, Value};

fn bytes_of(v: &Value) -> Vec<u8> {
    let mut out = vec![0xaa];
    encode_value(v, &mut out, MAX_DEPTH).unwrap();
    assert_eq!(out[0], 0xaa);
    out.split_off(1)
}

#[test]
fn big_endian_numbers() {
    let mut out = vec![9];
    write_be(&mut out, 0x0102_0304_0506_0708, 8);
    write_be(&mut out, 0x0102_0304_0506_0708, 2);
    write_be(&mut out, 0xffff, 0);
    write_be(&mut out, 7, 4);
    assert_eq!(out, vec![9, 1, 2, 3, 4, 5, 6, 7, 8, 7, 8, 0, 0, 0, 7]);
    assert_eq!(read_be(&out, 1, 8), 0x0102_0304_0506_0708);
    assert_eq!(read_be(&out, 9, 2), 0x0708);
    assert_eq!(read_be(&out, 11, 4), 7);
    assert_eq!(read_be(&out, 0, 1), 9);
    assert_eq!(read_be(&out, 3, 0), 0);
}

#[test]
fn integers_take_their_shortest_form() {
    let cases: Vec<(i64, Vec<u8>)> = vec![
        (0, vec![0x00]),
        (127, vec![0x7f]),
        (128, vec![0xcc, 0x80]),
        (255, vec![0xcc, 0xff]),
        (256, vec![0xcd, 0x01, 0x00]),
        (65_535, vec![0xcd, 0xff, 0xff]),
        (65_536, vec![0xce, 0x00, 0x01, 0x00, 0x00]),
        (4_294_967_295, vec![0xce, 0xff, 0xff, 0xff, 0xff]),
        (4_294_967_296, vec![0xcf, 0, 0, 0, 1, 0, 0, 0, 0]),
        (i64::MAX, vec![0xcf, 0x7f, 0xff, 0xff, 0xff, 0xff, 0xff, 0xff, 0xff]),
        (-1, vec![0xff]),
        (-32, vec![0xe0]),
        (-33, vec![0xd0, 0xdf]),
        (-128, vec![0xd0, 0x80]),
        (-129, vec![0xd1, 0xff, 0x7f]),
        (-32_768, vec![0xd1, 0x80, 0x00]),
        (-32_769, vec![0xd2, 0xff, 0xff, 0x7f, 0xff]),
        (-2_147_483_648, vec![0xd2, 0x80, 0x00, 0x00, 0x00]),
        (-2_147_483_649, vec![0xd3, 0xff, 0xff, 0xff, 0xff, 0x7f, 0xff, 0xff, 0xff]),
        (i64::MIN, vec![0xd3, 0x80, 0, 0, 0, 0, 0, 0, 0]),
    ];
    for (n, expected) in cases {
        let mut out = Vec::new();
        put_int(&mut out, n);
        assert_eq!(out, expected, "{}", n);
        assert_eq!(bytes_of(&Value::Int(n)), expected);
        assert_eq!(decode_value(&expected, 0, MAX_DEPTH), Ok((Value::from_i64(n), expected.len())));
    }
    let mut out = Vec::new();
    put_uint(&mut out, u64::MAX);
    assert_eq!(out, vec![0xcf, 0xff, 0xff, 0xff, 0xff, 0xff, 0xff, 0xff, 0xff]);
    assert_eq!(decode_value(&out, 0, MAX_DEPTH), Ok((Value::UInt(u64::MAX), 9)));
}

#[test]
fn scalars_and_strings_bit_exact() {
    assert_eq!(bytes_of(&Value::Nil), vec![0xc0]);
    assert_eq!(bytes_of(&Value::Bool(false)), vec![0xc2]);
    assert_eq!(bytes_of(&Value::Bool(true)), vec![0xc3]);
    assert_eq!(bytes_of(&Value::F32(1.0f32.to_bits())), vec![0xca, 0x3f, 0x80, 0, 0]);
    assert_eq!(bytes_of(&Value::F64(1.0f64.to_bits())), vec![0xcb, 0x3f, 0xf0, 0, 0, 0, 0, 0, 0]);
    assert_eq!(bytes_of(&Value::from_str("hi")), vec![0xa2, b'h', b'i']);
    assert_eq!(bytes_of(&Value::from_str("é")), vec![0xa2, 0xc3, 0xa9]);
    let long = "a".repeat(32);
    let mut expected = vec![0xd9, 32];
    expected.extend_from_slice(long.as_bytes());
    assert_eq!(bytes_of(&Value::from_str(&long)), expected);
    let longer = "a".repeat(256);
    assert_eq!(&bytes_of(&Value::from_str(&longer))[..3], &[0xda, 0x01, 0x00]);
    let longest = "a".repeat(65_536);
    assert_eq!(&bytes_of(&Value::from_str(&longest))[..5], &[0xdb, 0, 1, 0, 0]);
    assert_eq!(bytes_of(&Value::Bin(vec![1, 2])), vec![0xc4, 2, 1, 2]);
    assert_eq!(&bytes_of(&Value::Bin(vec![0; 256]))[..3], &[0xc5, 1, 0]);
    assert_eq!(&bytes_of(&Value::Bin(vec![0; 65_536]))[..5], &[0xc6, 0, 1, 0, 0]);
}

#[test]
fn collections_and_extensions_bit_exact() {
    assert_eq!(bytes_of(&Value::Array(vec![])), vec![0x90]);
    assert_eq!(bytes_of(&Value::Array(vec![Value::Nil, Value::UInt(1)])), vec![0x92, 0xc0, 0x01]);
    assert_eq!(&bytes_of(&Value::Array(vec![Value::Nil; 16]))[..3], &[0xdc, 0, 16]);
    assert_eq!(&bytes_of(&Value::Array(vec![Value::Nil; 65_536]))[..5], &[0xdd, 0, 1, 0, 0]);
    assert_eq!(bytes_of(&Value::Dict(vec![])), vec![0x80]);
    assert_eq!(
        bytes_of(&Value::Dict(vec![(Value::UInt(1), Value::Bool(true))])),
        vec![0x81, 0x01, 0xc3]
    );
    let pairs: Vec<(Value, Value)> = (0..16).map(|i| (Value::UInt(i), Value::Nil)).collect();
    assert_eq!(&bytes_of(&Value::Dict(pairs))[..3], &[0xde, 0, 16]);
    let pairs: Vec<(Value, Value)> = (0..65_536).map(|i| (Value::UInt(i), Value::Nil)).collect();
    assert_eq!(&bytes_of(&Value::Dict(pairs))[..5], &[0xdf, 0, 1, 0, 0]);
    assert_eq!(bytes_of(&Value::Ext(5, vec![9])), vec![0xd4, 5, 9]);
    assert_eq!(bytes_of(&Value::Ext(-1, vec![9, 8])), vec![0xd5, 0xff, 9, 8]);
    assert_eq!(bytes_of(&Value::Ext(5, vec![1, 2, 3, 4])), vec![0xd6, 5, 1, 2, 3, 4]);
    assert_eq!(&bytes_of(&Value::Ext(5, vec![0; 8]))[..2], &[0xd7, 5]);
    assert_eq!(&bytes_of(&Value::Ext(5, vec![0; 16]))[..2], &[0xd8, 5]);
    assert_eq!(bytes_of(&Value::Ext(-128, vec![1, 2, 3])), vec![0xc7, 3, 0x80, 1, 2, 3]);
    assert_eq!(bytes_of(&Value::Ext(5, vec![])), vec![0xc7, 0, 5]);
    assert_eq!(&bytes_of(&Value::Ext(5, vec![0; 256]))[..4], &[0xc8, 1, 0, 5]);
    assert_eq!(&bytes_of(&Value::Ext(5, vec![0; 65_536]))[..6], &[0xc9, 0, 1, 0, 0, 5]);
}

#[test]
fn rows_of_values_and_pairs() {
    let items = vec![Value::UInt(1), Value::from_str("a")];
    let mut out = Vec::new();
    encode_values(&items, &mut out, MAX_DEPTH).unwrap();
    assert_eq!(out, vec![0x01, 0xa1, b'a']);
    assert_eq!(decode_seq(&out, 0, 2, MAX_DEPTH), Ok((items.clone(), 3)));
    assert_eq!(decode_seq(&out, 0, 0, MAX_DEPTH), Ok((vec![], 0)));
    assert_eq!(decode_seq(&out, 1, 1, MAX_DEPTH), Ok((vec![Value::from_str("a")], 3)));
    assert_eq!(decode_seq(&out, 0, 3, MAX_DEPTH), Err(Fault::Truncated));
    let pairs = vec![(Value::UInt(1), Value::from_str("a"))];
    let mut out = Vec::new();
    encode_pairs(&pairs, &mut out, MAX_DEPTH).unwrap();
    assert_eq!(out, vec![0x01, 0xa1, b'a']);
    assert_eq!(decode_pairs(&out, 0, 1, MAX_DEPTH), Ok((pairs, 3)));
    assert_eq!(decode_pairs(&out, 0, 2, MAX_DEPTH), Err(Fault::Truncated));
    assert_eq!(decode_pairs(&[0x01, 0xc1], 0, 1, MAX_DEPTH), Err(Fault::Invalid));
}

#[test]
fn heads() {
    assert_eq!(read_head(&[], 0), Err(Fault::Truncated));
    assert_eq!(read_head(&[0xc1], 0), Err(Fault::Invalid));
    assert_eq!(read_head(&[0xcd, 0x01], 0), Err(Fault::Truncated));
    assert_eq!(read_head(&[0x00, 0xcd, 0x01, 0x02], 1), Ok((Head::UInt(0x0102), 4)));
    assert_eq!(read_head(&[0xd0, 0x05], 0), Ok((Head::UInt(5), 2)));
    assert_eq!(read_head(&[0xd0, 0xfb], 0), Ok((Head::Int(-5), 2)));
    assert_eq!(read_head(&[0xd3, 0xff, 0xff, 0xff, 0xff, 0xff, 0xff, 0xff, 0xfe], 0), Ok((Head::Int(-2), 9)));
    assert_eq!(read_head(&[0xe0], 0), Ok((Head::Int(-32), 1)));
    assert_eq!(read_head(&[0x9f], 0), Ok((Head::Array(15), 1)));
    assert_eq!(read_head(&[0xdd, 0, 0, 1, 0], 0), Ok((Head::Array(256), 5)));
    assert_eq!(read_head(&[0x8f], 0), Ok((Head::Dict(15), 1)));
    assert_eq!(read_head(&[0xdf, 1, 0, 0, 0], 0), Ok((Head::Dict(1 << 24), 5)));
    assert_eq!(read_head(&[0xbf], 0), Ok((Head::Str(31), 1)));
    assert_eq!(read_head(&[0xdb, 0, 0, 0, 9], 0), Ok((Head::Str(9), 5)));
    assert_eq!(read_head(&[0xc6, 0, 0, 0, 9], 0), Ok((Head::Bin(9), 5)));
    assert_eq!(read_head(&[0xc9, 0, 0, 0, 9, 0xfe], 0), Ok((Head::Ext(-2, 9), 6)));
    assert_eq!(read_head(&[0xc8, 0, 9, 3], 0), Ok((Head::Ext(3, 9), 4)));
    assert_eq!(read_head(&[0xd8, 0x7f], 0), Ok((Head::Ext(127, 16), 2)));
    assert_eq!(read_head(&[0xc0], 0), Ok((Head::Nil, 1)));
    assert_eq!(read_head(&[0xc2], 0), Ok((Head::Bool(false), 1)));
    assert_eq!(read_head(&[0xca, 0, 0, 0, 1], 0), Ok((Head::F32(1), 5)));
    assert_eq!(read_head(&[0xcb, 0, 0, 0, 0, 0, 0, 0, 1], 0), Ok((Head::F64(1), 9)));
}

#[test]
fn truncated_and_invalid_values() {
    assert_eq!(decode_value(&[], 0, MAX_DEPTH), Err(Fault::Truncated));
    assert_eq!(decode_value(&[0xa3, b'a'], 0, MAX_DEPTH), Err(Fault::Truncated));
    assert_eq!(decode_value(&[0x92, 0x01], 0, MAX_DEPTH), Err(Fault::Truncated));
    assert_eq!(decode_value(&[0x81, 0x01], 0, MAX_DEPTH), Err(Fault::Truncated));
    assert_eq!(decode_value(&[0xc4, 2, 1], 0, MAX_DEPTH), Err(Fault::Truncated));
    assert_eq!(decode_value(&[0xd5, 1, 1], 0, MAX_DEPTH), Err(Fault::Truncated));
    assert_eq!(decode_value(&[0xdd, 0xff, 0xff, 0xff, 0xff], 0, MAX_DEPTH), Err(Fault::Truncated));
    assert_eq!(decode_value(&[0x92, 0x01, 0xc1], 0, MAX_DEPTH), Err(Fault::Invalid));
    assert_eq!(decode_value(&[0xa2, 0xc3, 0x28], 0, MAX_DEPTH), Err(Fault::Invalid));
    // an invalid string that is not all there yet is not yet invalid
    assert_eq!(decode_value(&[0xa3, 0xff], 0, MAX_DEPTH), Err(Fault::Truncated));
    // what follows the value is not looked at
    assert_eq!(decode_value(&[0x01, 0xc1], 0, MAX_DEPTH), Ok((Value::UInt(1), 1)));
    assert_eq!(decode_value(&[0xc1, 0x01], 1, MAX_DEPTH), Ok((Value::UInt(1), 2)));
    assert_eq!(decode_value(&[0x01], 1, MAX_DEPTH), Err(Fault::Truncated));
}

#[test]
fn text_from_bytes() {
    assert_eq!(text_of(b"plain"), Some(String::from("plain")));
    assert_eq!(text_of("héllo, 世界 🦀".as_bytes()), Some(String::from("héllo, 世界 🦀")));
    assert_eq!(text_of(b""), Some(String::new()));
    assert_eq!(text_of(&[0xff]), None);
    assert_eq!(text_of(&[0xc3]), None);
    // an overlong form, a surrogate
    assert_eq!(text_of(&[0xc0, 0x80]), None);
    assert_eq!(text_of(&[0xed, 0xa0, 0x80]), None);
}

#[test]
fn message_from_a_value() {
    let v = Value::Array(vec![Value::Int(2), Value::from_str("m"), Value::Array(vec![Value::Nil])]);
    assert_eq!(
        Message::from_value(v),
        Message::decode(&[0x93, 0x02, 0xa1, b'm', 0x91, 0xc0]).map(|(m, _)| m)
    );
    assert!(Message::from_value(Value::Nil).is_err());
}

fn nested(levels: usize) -> Value {
    let mut v = Value::Nil;
    for _ in 0..levels {
        v = Value::Array(vec![v]);
    }
    v
}

#[test]
fn nesting_has_a_limit() {
    let mut out = Vec::new();
    assert_eq!(encode_value(&nested(3), &mut out, 3), Ok(()));
    assert_eq!(out, vec![0x91, 0x91, 0x91, 0xc0]);
    assert_eq!(decode_value(&out, 0, 3), Ok((nested(3), 4)));
    assert_eq!(decode_value(&out, 0, 2), Err(Fault::Invalid));
    assert_eq!(decode_value(&out, 1, 2), Ok((nested(2), 4)));
    assert_eq!(decode_value(&out, 3, 0), Ok((Value::Nil, 4)));
    assert!(encode_value(&nested(3), &mut Vec::new(), 2).is_err());
    assert!(encode_value(&Value::Dict(vec![]), &mut Vec::new(), 0).is_err());
    assert_eq!(decode_value(&[0x80], 0, 0), Err(Fault::Invalid));
    assert_eq!(decode_value(&[0x80], 0, 1), Ok((Value::Dict(vec![]), 1)));
    let deep = vec![0x91u8; 1_000_000];
    assert_eq!(decode_value(&deep, 0, MAX_DEPTH), Err(Fault::Invalid));
    let mut out = Vec::new();
    assert_eq!(encode_value(&nested(MAX_DEPTH), &mut out, MAX_DEPTH), Ok(()));
    assert_eq!(decode_value(&out, 0, MAX_DEPTH), Ok((nested(MAX_DEPTH), MAX_DEPTH + 1)));
    assert!(encode_value(&nested(MAX_DEPTH + 1), &mut Vec::new(), MAX_DEPTH).is_err());
}

#[test]
fn message_nesting_has_a_limit() {
    let with = |levels: usize| {
        Message::Notification(Notification { method: String::from("m"), params: vec![nested(levels)] })
    };
    // the message is an array and its parameters are one: two levels are taken
    let bytes = with(MAX_DEPTH - 2).encode().unwrap();
    assert_eq!(Message::decode(&bytes), Ok((with(MAX_DEPTH - 2), bytes.len())));
    assert_eq!(with(MAX_DEPTH - 1).encode(), Err(CodecError::TooLarge));
    let mut too_deep = vec![0x93, 0x02, 0xa1, b'm', 0x91];
    too_deep.extend(std::iter::repeat(0x91).take(MAX_DEPTH - 1));
    too_deep.push(0xc0);
    assert_eq!(Message::decode(&too_deep), Err(CodecError::Malformed));
}
