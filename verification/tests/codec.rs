use nvim_rs::{CodecError, Message, Notification, Request, Response, RpcReader, RpcWriter, Value};

fn request() -> Message {
    Message::Request(Request {
        id: 7,
        method: String::from("nvim_ui_attach"),
        params: vec![Value::UInt(80), Value::UInt(30), Value::Dict(vec![(Value::from_str("rgb"), Value::Bool(true))])],
    })
}

#[test]
fn request_frame_is_bit_exact() {
    let bytes = request().encode().unwrap();
    let mut expected: Vec<u8> = vec![0x94, 0x00, 0x07, 0xae];
    expected.extend_from_slice(b"nvim_ui_attach");
    expected.extend_from_slice(&[0x93, 0x50, 0x1e, 0x81, 0xa3]);
    expected.extend_from_slice(b"rgb");
    expected.push(0xc3);
    assert_eq!(bytes, expected);
}

#[test]
fn notification_frame_is_bit_exact() {
    let m = Message::Notification(Notification { method: String::from("redraw"), params: vec![] });
    let mut expected: Vec<u8> = vec![0x93, 0x02, 0xa6];
    expected.extend_from_slice(b"redraw");
    expected.push(0x90);
    assert_eq!(m.encode().unwrap(), expected);
}

#[test]
fn response_frame_is_bit_exact() {
    let m = Message::Response(Response { id: 300, error: None, result: Some(Value::Int(-1)) });
    assert_eq!(m.encode().unwrap(), vec![0x94, 0x01, 0xcd, 0x01, 0x2c, 0xc0, 0xff]);
}

#[test]
fn round_trip_of_each_kind() {
    let messages = vec![
        request(),
        Message::Response(Response { id: 1, error: None, result: Some(Value::Nil) }),
        Message::Response(Response {
            id: u32::MAX,
            error: Some(Value::Array(vec![Value::UInt(0), Value::from_str("boom")])),
            result: None,
        }),
        Message::Notification(Notification {
            method: String::from("redraw"),
            params: vec![Value::Array(vec![Value::from_str("flush"), Value::Array(vec![])])],
        }),
    ];
    for m in messages {
        let bytes = m.encode().unwrap();
        let (back, used) = Message::decode(&bytes).unwrap();
        assert_eq!(back, m);
        assert_eq!(used, bytes.len());
    }
}

#[test]
fn round_trip_of_every_value_kind() {
    let long = "x".repeat(70_000);
    let values = vec![
        Value::Nil,
        Value::Bool(false),
        Value::Bool(true),
        Value::UInt(0),
        Value::UInt(127),
        Value::UInt(128),
        Value::UInt(255),
        Value::UInt(256),
        Value::UInt(65_535),
        Value::UInt(65_536),
        Value::UInt(4_294_967_295),
        Value::UInt(4_294_967_296),
        Value::UInt(u64::MAX),
        Value::Int(-1),
        Value::Int(-32),
        Value::Int(-33),
        Value::Int(-128),
        Value::Int(-129),
        Value::Int(-32_768),
        Value::Int(-32_769),
        Value::Int(-2_147_483_648),
        Value::Int(-2_147_483_649),
        Value::Int(i64::MIN),
        Value::F32(1.5f32.to_bits()),
        Value::F64((-0.25f64).to_bits()),
        Value::F64(f64::NAN.to_bits()),
        Value::from_str(""),
        Value::from_str("héllo, 世界"),
        Value::from_str(&"a".repeat(31)),
        Value::from_str(&"a".repeat(32)),
        Value::from_str(&"a".repeat(255)),
        Value::from_str(&"a".repeat(256)),
        Value::Str(long),
        Value::Bin(vec![]),
        Value::Bin(vec![0, 1, 2, 255]),
        Value::Bin(vec![9; 300]),
        Value::Array((0..15).map(Value::UInt).collect()),
        Value::Array((0..16).map(Value::UInt).collect()),
        Value::Array((0..70_000).map(Value::UInt).collect()),
        Value::Dict((0..17).map(|i| (Value::UInt(i), Value::Nil)).collect()),
        Value::Ext(1, vec![5]),
        Value::Ext(-2, vec![5, 6]),
        Value::Ext(3, vec![1, 2, 3]),
        Value::Ext(4, vec![1, 2, 3, 4]),
        Value::Ext(5, vec![0; 8]),
        Value::Ext(6, vec![0; 16]),
        Value::Ext(127, vec![0; 17]),
        Value::Ext(-128, vec![0; 300]),
    ];
    for v in values {
        let m = Message::Notification(Notification { method: String::from("m"), params: vec![v] });
        let bytes = m.encode().unwrap();
        let (back, used) = Message::decode(&bytes).unwrap();
        assert_eq!(back, m);
        assert_eq!(used, bytes.len());
    }
}

#[test]
fn non_negative_int_reads_back_unsigned() {
    let m = Message::Notification(Notification { method: String::from("m"), params: vec![Value::Int(5)] });
    let (back, _) = Message::decode(&m.encode().unwrap()).unwrap();
    assert_eq!(back, m);
    match back {
        Message::Notification(note) => assert!(matches!(note.params[0], Value::UInt(5))),
        other => panic!("{:?}", other),
    }
}

#[test]
fn values_are_equal_by_what_they_stand_for() {
    assert_eq!(Value::Int(5), Value::UInt(5));
    assert_eq!(Value::UInt(0), Value::Int(0));
    assert_ne!(Value::Int(-1), Value::UInt(u64::MAX));
    assert_ne!(Value::Int(5), Value::UInt(6));
    assert_ne!(Value::UInt(1), Value::Bool(true));
    assert_ne!(Value::Nil, Value::Bool(false));
    assert_ne!(Value::F32(0), Value::F64(0));
    assert_ne!(Value::from_str("a"), Value::Bin(vec![b'a']));
    assert_eq!(Value::F64(f64::NAN.to_bits()), Value::F64(f64::NAN.to_bits()));
    assert_ne!(Value::F64(0.0f64.to_bits()), Value::F64((-0.0f64).to_bits()));
    assert_eq!(
        Value::Array(vec![Value::Int(1), Value::Dict(vec![(Value::from_str("k"), Value::UInt(2))])]),
        Value::Array(vec![Value::UInt(1), Value::Dict(vec![(Value::from_str("k"), Value::Int(2))])])
    );
    assert_ne!(Value::Array(vec![Value::Nil]), Value::Array(vec![Value::Nil, Value::Nil]));
    assert_ne!(
        Value::Dict(vec![(Value::Nil, Value::UInt(1))]),
        Value::Dict(vec![(Value::Nil, Value::UInt(2))])
    );
    assert_eq!(Value::Ext(1, vec![1, 2]), Value::Ext(1, vec![1, 2]));
    assert_ne!(Value::Ext(1, vec![1, 2]), Value::Ext(2, vec![1, 2]));
    assert_ne!(Value::Ext(1, vec![1, 2]), Value::Ext(1, vec![1, 3]));
    assert_ne!(Value::Bin(vec![1]), Value::Bin(vec![]));
    let v = Value::Array(vec![Value::from_str("x"), Value::Bin(vec![7]), Value::Ext(3, vec![8])]);
    assert_eq!(v.clone(), v);
}

#[test]
fn value_accessors() {
    assert_eq!(Value::UInt(7).as_i64(), Some(7));
    assert_eq!(Value::UInt(u64::MAX).as_i64(), None);
    assert_eq!(Value::Int(-7).as_i64(), Some(-7));
    assert_eq!(Value::Int(-7).as_u64(), None);
    assert_eq!(Value::Int(7).as_u64(), Some(7));
    assert_eq!(Value::UInt(1 << 32).as_u32(), None);
    assert_eq!(Value::UInt(u32::MAX as u64).as_u32(), Some(u32::MAX));
    assert_eq!(Value::Nil.as_i64(), None);
    assert_eq!(Value::Bool(true).as_bool(), Some(true));
    assert_eq!(Value::UInt(1).as_bool(), None);
    assert_eq!(Value::from_str("s").as_str(), Some("s"));
    assert_eq!(Value::Bin(vec![b's']).as_str(), None);
    assert_eq!(Value::Array(vec![Value::Nil]).as_array(), Some(&vec![Value::Nil]));
    assert_eq!(Value::Nil.as_array(), None);
    assert_eq!(Value::Dict(vec![]).as_dict(), Some(&vec![]));
    assert_eq!(Value::Array(vec![]).as_dict(), None);
    assert!(Value::Nil.is_nil());
    assert!(!Value::Bool(false).is_nil());
    assert!(matches!(Value::from_i64(3), Value::UInt(3)));
    assert!(matches!(Value::from_i64(-3), Value::Int(-3)));
}

#[test]
fn longer_integer_forms_are_accepted() {
    // [2, "m", [int64 5, uint8 5, int8 -1]]
    let bytes = vec![
        0x93, 0x02, 0xa1, b'm', 0x93, 0xd3, 0, 0, 0, 0, 0, 0, 0, 5, 0xcc, 5, 0xd0, 0xff,
    ];
    let (m, used) = Message::decode(&bytes).unwrap();
    assert_eq!(used, bytes.len());
    assert_eq!(
        m,
        Message::Notification(Notification {
            method: String::from("m"),
            params: vec![Value::UInt(5), Value::UInt(5), Value::Int(-1)],
        })
    );
}

#[test]
fn unknown_type_tag() {
    assert_eq!(Message::decode(&[0x93, 0x05, 0xa1, b'm', 0x90]), Err(CodecError::UnknownType(5)));
    assert_eq!(Message::decode(&[0x91, 0x03]), Err(CodecError::UnknownType(3)));
}

#[test]
fn malformed_frames() {
    // not an array
    assert_eq!(Message::decode(&[0x01]), Err(CodecError::Malformed));
    // empty array
    assert_eq!(Message::decode(&[0x90]), Err(CodecError::Malformed));
    // tag is a string
    assert_eq!(Message::decode(&[0x91, 0xa1, b'x']), Err(CodecError::Malformed));
    // negative tag
    assert_eq!(Message::decode(&[0x91, 0xff]), Err(CodecError::Malformed));
    // request of arity 3
    assert_eq!(Message::decode(&[0x93, 0x00, 0x01, 0xa1, b'm']), Err(CodecError::Malformed));
    // notification of arity 4
    assert_eq!(Message::decode(&[0x94, 0x02, 0xa1, b'm', 0x90, 0xc0]), Err(CodecError::Malformed));
    // request whose method is an integer
    assert_eq!(Message::decode(&[0x94, 0x00, 0x01, 0x02, 0x90]), Err(CodecError::Malformed));
    // request whose params are no array
    assert_eq!(Message::decode(&[0x94, 0x00, 0x01, 0xa1, b'm', 0xc0]), Err(CodecError::Malformed));
    // request whose id does not fit 32 bits
    assert_eq!(
        Message::decode(&[0x94, 0x00, 0xcf, 0, 0, 0, 1, 0, 0, 0, 0, 0xa1, b'm', 0x90]),
        Err(CodecError::Malformed)
    );
    // response with both an error and a result
    assert_eq!(Message::decode(&[0x94, 0x01, 0x01, 0x02, 0x03]), Err(CodecError::Malformed));
    // the marker that msgpack never uses
    assert_eq!(Message::decode(&[0xc1]), Err(CodecError::Malformed));
    // a string that is not UTF-8
    assert_eq!(Message::decode(&[0x93, 0x02, 0xa1, 0xff, 0x90]), Err(CodecError::Malformed));
}

#[test]
fn stream_that_ends_inside_a_frame() {
    let bytes = request().encode().unwrap();
    for cut in 0..bytes.len() {
        assert_eq!(Message::decode(&bytes[..cut]), Err(CodecError::Io));
    }
}

#[test]
fn response_with_nil_error_and_nil_result() {
    let (m, _) = Message::decode(&[0x94, 0x01, 0x09, 0xc0, 0xc0]).unwrap();
    assert_eq!(m, Message::Response(Response { id: 9, error: None, result: Some(Value::Nil) }));
}

#[test]
fn reader_cuts_the_stream_into_frames_in_order() {
    let a = request();
    let b = Message::Response(Response { id: 7, error: None, result: Some(Value::UInt(1)) });
    let mut stream = a.encode().unwrap();
    stream.extend_from_slice(&b.encode().unwrap());
    let mut reader = RpcReader::new();
    let mut got = Vec::new();
    for byte in stream {
        reader.feed(&[byte]);
        while let Some(m) = reader.recv().unwrap() {
            got.push(m);
        }
    }
    assert_eq!(got, vec![a, b]);
    assert_eq!(reader.buffered(), 0);
}

#[test]
fn reader_uses_up_a_frame_that_is_no_message() {
    let mut reader = RpcReader::new();
    reader.feed(&[0x91, 0x09, 0x93, 0x02, 0xa1, b'm', 0x90]);
    assert_eq!(reader.recv(), Err(CodecError::UnknownType(9)));
    assert_eq!(
        reader.recv(),
        Ok(Some(Message::Notification(Notification { method: String::from("m"), params: vec![] })))
    );
    assert_eq!(reader.recv(), Ok(None));
}

#[test]
fn reader_stays_on_bytes_that_are_no_value() {
    let mut reader = RpcReader::new();
    reader.feed(&[0xc1, 0x90]);
    assert_eq!(reader.recv(), Err(CodecError::Malformed));
    assert_eq!(reader.recv(), Err(CodecError::Malformed));
    assert_eq!(reader.buffered(), 2);
}

#[test]
fn reader_at_the_end_of_the_stream() {
    let mut reader = RpcReader::new();
    assert_eq!(reader.recv_at_end(), Err(CodecError::Io));
    let frame = request().encode().unwrap();
    reader.feed(&frame);
    reader.feed(&frame[..3]);
    assert_eq!(reader.recv_at_end(), Ok(request()));
    assert_eq!(reader.recv_at_end(), Err(CodecError::Io));
    assert_eq!(reader.buffered(), 3);
    assert_eq!(reader.recv(), Ok(None));
}

#[test]
fn writer_queues_whole_frames_in_order() {
    let a = request();
    let b = Message::Notification(Notification { method: String::from("x"), params: vec![] });
    let mut writer = RpcWriter::new();
    assert!(writer.is_empty());
    writer.write(&a).unwrap();
    writer.write(&b).unwrap();
    let mut expected = a.encode().unwrap();
    expected.extend_from_slice(&b.encode().unwrap());
    assert_eq!(writer.take(), expected);
    assert!(writer.is_empty());
    assert_eq!(writer.take(), Vec::<u8>::new());
}
