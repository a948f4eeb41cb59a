//! The three kinds of message and their shape as msgpack values.

use crate::error::CodecError;
use crate::value::{lemma_array_view, Value, ValueView};
use crate::rpc::laws::{
    lemma_encodable_3, lemma_encodable_4, lemma_encoding_seq_3, lemma_encoding_seq_4,
};
use crate::wire::decode::decode_value;
use crate::wire::encode::{encode_value, put_array, put_array_head, put_nil, put_str, put_uint};
use crate::wire::format::{encodable, encoding, parse, Fault, MAX_DEPTH};
use vstd::prelude::*;

verus! {

/// A call: the peer answers it with a [`Response`] of the same id.
#[derive(Debug, Clone, PartialEq, Eq)]
pub struct Request {
    pub id: u32,
    pub method: String,
    pub params: Vec<Value>,
}

/// The answer to a [`Request`]. Of `error` and `result`, exactly one is
/// populated in a response that was read from the wire.
#[derive(Debug, Clone, PartialEq, Eq)]
pub struct Response {
    pub id: u32,
    pub error: Option<Value>,
    pub result: Option<Value>,
}

/// A message that expects no answer.
#[derive(Debug, Clone, PartialEq, Eq)]
pub struct Notification {
    pub method: String,
    pub params: Vec<Value>,
}

/// One frame of the protocol.
#[derive(Debug, Clone, PartialEq, Eq)]
pub enum Message {
    Request(Request),
    Response(Response),
    Notification(Notification),
}

/// Mathematical model of a [`Message`].
pub enum MessageView {
    Request { id: u32, method: Seq<char>, params: Seq<ValueView> },
    Response { id: u32, error: Option<ValueView>, result: Option<ValueView> },
    Notification { method: Seq<char>, params: Seq<ValueView> },
}

/// The type tag of a request on the wire.
pub const REQUEST: u64 = 0;

/// The type tag of a response on the wire.
pub const RESPONSE: u64 = 1;

/// The type tag of a notification on the wire.
pub const NOTIFICATION: u64 = 2;

/// The value on the wire for an optional field: nil where there is none.
pub open spec fn or_nil(field: Option<ValueView>) -> ValueView {
    match field {
        Some(v) => v,
        None => ValueView::Nil,
    }
}

impl MessageView {
    /// Whether the message is one that a frame can stand for: a response
    /// holds either an error, which is not nil, or a result.
    pub open spec fn wf(self) -> bool {
        match self {
            MessageView::Response { error, result, .. } => {
                &&& error is Some <==> result is None
                &&& error != Some(ValueView::Nil)
            },
            _ => true,
        }
    }

    /// The message as the array that the wire carries.
    pub open spec fn to_value(self) -> ValueView {
        match self {
            MessageView::Request { id, method, params } => ValueView::Array(
                seq![
                    ValueView::Int(REQUEST as int),
                    ValueView::Int(id as int),
                    ValueView::Str(method),
                    ValueView::Array(params),
                ],
            ),
            MessageView::Response { id, error, result } => ValueView::Array(
                seq![
                    ValueView::Int(RESPONSE as int),
                    ValueView::Int(id as int),
                    or_nil(error),
                    or_nil(result),
                ],
            ),
            MessageView::Notification { method, params } => ValueView::Array(
                seq![
                    ValueView::Int(NOTIFICATION as int),
                    ValueView::Str(method),
                    ValueView::Array(params),
                ],
            ),
        }
    }

    /// The frame of the message: the bytes of its array.
    pub open spec fn frame(self) -> Seq<u8> {
        encoding(self.to_value())
    }

    /// Whether the wire can carry the message.
    pub open spec fn encodable(self) -> bool {
        encodable(self.to_value(), MAX_DEPTH as nat)
    }
}

/// The request that the array `items` stands for.
pub open spec fn request_of(items: Seq<ValueView>) -> Result<MessageView, CodecError> {
    if items.len() == 4 && items[1].as_u32() is Some && items[2] is Str && items[3] is Array {
        Ok(
            MessageView::Request {
                id: items[1].as_u32()->0,
                method: items[2]->Str_0,
                params: items[3]->Array_0,
            },
        )
    } else {
        Err(CodecError::Malformed)
    }
}

/// The response that the array `items` stands for. A nil error makes the
/// fourth field the result, whatever it is; with an error the result is nil.
pub open spec fn response_of(items: Seq<ValueView>) -> Result<MessageView, CodecError> {
    if items.len() == 4 && items[1].as_u32() is Some {
        if items[2] is Nil {
            Ok(
                MessageView::Response {
                    id: items[1].as_u32()->0,
                    error: None,
                    result: Some(items[3]),
                },
            )
        } else if items[3] is Nil {
            Ok(
                MessageView::Response {
                    id: items[1].as_u32()->0,
                    error: Some(items[2]),
                    result: None,
                },
            )
        } else {
            Err(CodecError::Malformed)
        }
    } else {
        Err(CodecError::Malformed)
    }
}

/// The notification that the array `items` stands for.
pub open spec fn notification_of(items: Seq<ValueView>) -> Result<MessageView, CodecError> {
    if items.len() == 3 && items[1] is Str && items[2] is Array {
        Ok(MessageView::Notification { method: items[1]->Str_0, params: items[2]->Array_0 })
    } else {
        Err(CodecError::Malformed)
    }
}

/// The message that the value `v` stands for: an array that starts with a
/// type tag and has the fields of that type, no more and no fewer.
pub open spec fn message_of(v: ValueView) -> Result<MessageView, CodecError> {
    if v is Array && v->Array_0.len() > 0 && v->Array_0[0].as_u64() is Some {
        let items = v->Array_0;
        let tag = items[0].as_u64()->0;
        if tag == REQUEST {
            request_of(items)
        } else if tag == RESPONSE {
            response_of(items)
        } else if tag == NOTIFICATION {
            notification_of(items)
        } else {
            Err(CodecError::UnknownType(tag))
        }
    } else {
        Err(CodecError::Malformed)
    }
}

/// The model of an optional value.
pub open spec fn option_view(field: Option<Value>) -> Option<ValueView> {
    match field {
        Some(v) => Some(v@),
        None => None,
    }
}

impl DeepView for Message {
    type V = MessageView;

    open spec fn deep_view(&self) -> MessageView {
        match self {
            Message::Request(r) => MessageView::Request {
                id: r.id,
                method: r.method@,
                params: r.params.deep_view(),
            },
            Message::Response(r) => MessageView::Response {
                id: r.id,
                error: option_view(r.error),
                result: option_view(r.result),
            },
            Message::Notification(n) => MessageView::Notification {
                method: n.method@,
                params: n.params.deep_view(),
            },
        }
    }
}

impl View for Message {
    type V = MessageView;

    open spec fn view(&self) -> MessageView {
        self.deep_view()
    }
}

/// What stands at the front of a stream of bytes: nothing yet, where the
/// bytes end inside a frame; else a message or the reason why there is none,
/// with the number of bytes used up. Bytes that are no msgpack value use up
/// nothing: the stream cannot be read further.
pub open spec fn next_frame(bytes: Seq<u8>) -> Option<(Result<MessageView, CodecError>, int)> {
    match parse(bytes, MAX_DEPTH as nat) {
        Err(Fault::Truncated) => None,
        Err(Fault::Invalid) => Some((Err(CodecError::Malformed), 0)),
        Ok((v, k)) => Some((message_of(v), k)),
    }
}

/// Appends the encoding of an optional field, nil where there is none.
fn put_field(out: &mut Vec<u8>, field: &Option<Value>) -> (r: Result<(), CodecError>)
    ensures
        r is Ok <==> encodable(or_nil(option_view(*field)), (MAX_DEPTH - 1) as nat),
        r is Ok ==> final(out)@ == old(out)@ + encoding(or_nil(option_view(*field))),
        r matches Err(e) ==> e == CodecError::TooLarge,
{
    match field {
        Some(v) => encode_value(v, out, MAX_DEPTH - 1),
        None => {
            put_nil(out);
            Ok(())
        },
    }
}

impl Message {
    /// The frame of the message.
    ///
    /// Fails on a message that the wire cannot carry, and on no other.
    pub fn encode(&self) -> (r: Result<Vec<u8>, CodecError>)
        ensures
            r is Ok <==> self@.encodable(),
            r matches Ok(bytes) ==> bytes@ == self@.frame(),
            r matches Err(e) ==> e == CodecError::TooLarge,
    {
        let mut out: Vec<u8> = Vec::new();
        let ghost items = self@.to_value()->Array_0;
        match self {
            Message::Request(req) => {
                proof {
                    lemma_encoding_seq_4(items[0], items[1], items[2], items[3]);
                    lemma_encodable_4(items[0], items[1], items[2], items[3], (MAX_DEPTH - 1) as nat);
                    assert(items =~= seq![items[0], items[1], items[2], items[3]]);
                }
                put_array_head(&mut out, 4);
                put_uint(&mut out, REQUEST);
                put_uint(&mut out, req.id as u64);
                if put_str(&mut out, req.method.as_str()).is_err() {
                    assert(!encodable(items[2], (MAX_DEPTH - 1) as nat));
                    return Err(CodecError::TooLarge);
                }
                if put_array(&mut out, &req.params, MAX_DEPTH - 1).is_err() {
                    assert(!encodable(items[3], (MAX_DEPTH - 1) as nat));
                    return Err(CodecError::TooLarge);
                }
                assert(out@ =~= self@.frame());
            },
            Message::Response(resp) => {
                proof {
                    lemma_encoding_seq_4(items[0], items[1], items[2], items[3]);
                    lemma_encodable_4(items[0], items[1], items[2], items[3], (MAX_DEPTH - 1) as nat);
                    assert(items =~= seq![items[0], items[1], items[2], items[3]]);
                }
                put_array_head(&mut out, 4);
                put_uint(&mut out, RESPONSE);
                put_uint(&mut out, resp.id as u64);
                if put_field(&mut out, &resp.error).is_err() {
                    assert(!encodable(items[2], (MAX_DEPTH - 1) as nat));
                    return Err(CodecError::TooLarge);
                }
                if put_field(&mut out, &resp.result).is_err() {
                    assert(!encodable(items[3], (MAX_DEPTH - 1) as nat));
                    return Err(CodecError::TooLarge);
                }
                assert(out@ =~= self@.frame());
            },
            Message::Notification(note) => {
                proof {
                    lemma_encoding_seq_3(items[0], items[1], items[2]);
                    lemma_encodable_3(items[0], items[1], items[2], (MAX_DEPTH - 1) as nat);
                    assert(items =~= seq![items[0], items[1], items[2]]);
                }
                put_array_head(&mut out, 3);
                put_uint(&mut out, NOTIFICATION);
                if put_str(&mut out, note.method.as_str()).is_err() {
                    assert(!encodable(items[1], (MAX_DEPTH - 1) as nat));
                    return Err(CodecError::TooLarge);
                }
                if put_array(&mut out, &note.params, MAX_DEPTH - 1).is_err() {
                    assert(!encodable(items[2], (MAX_DEPTH - 1) as nat));
                    return Err(CodecError::TooLarge);
                }
                assert(out@ =~= self@.frame());
            },
        }
        Ok(out)
    }

    /// The message that the value `v` stands for.
    pub fn from_value(v: Value) -> (r: Result<Message, CodecError>)
        ensures
            match message_of(v@) {
                Ok(m) => r matches Ok(x) && x@ == m,
                Err(e) => r matches Err(f) && f == e,
            },
    {
        let items = match v {
            Value::Array(items) => items,
            _ => {
                return Err(CodecError::Malformed);
            },
        };
        proof {
            lemma_array_view(items);
        }
        if items.len() == 0 {
            return Err(CodecError::Malformed);
        }
        let tag = match items[0].as_u64() {
            Some(tag) => tag,
            None => {
                return Err(CodecError::Malformed);
            },
        };
        if tag == REQUEST {
            request_from(items)
        } else if tag == RESPONSE {
            response_from(items)
        } else if tag == NOTIFICATION {
            notification_from(items)
        } else {
            Err(CodecError::UnknownType(tag))
        }
    }

    /// Reads the one message at the front of `bytes`, taken as all that the
    /// stream will ever hold; on success also gives the length of its frame.
    ///
    /// A frame that the bytes cut short is a stream that ended: an I/O
    /// error.
    pub fn decode(bytes: &[u8]) -> (r: Result<(Message, usize), CodecError>)
        ensures
            match next_frame(bytes@) {
                None => r matches Err(e) && e == CodecError::Io,
                Some((Ok(m), k)) => r matches Ok((x, used)) && x@ == m && used == k,
                Some((Err(e), _)) => r matches Err(f) && f == e,
            },
    {
        assert(bytes@.skip(0) =~= bytes@);
        match decode_value(bytes, 0, MAX_DEPTH) {
            Err(Fault::Truncated) => Err(CodecError::Io),
            Err(Fault::Invalid) => Err(CodecError::Malformed),
            Ok((v, used)) => match Message::from_value(v) {
                Ok(m) => Ok((m, used)),
                Err(e) => Err(e),
            },
        }
    }
}

fn request_from(items: Vec<Value>) -> (r: Result<Message, CodecError>)
    ensures
        match request_of(items.deep_view()) {
            Ok(m) => r matches Ok(x) && x@ == m,
            Err(e) => r matches Err(f) && f == e,
        },
{
    let mut items = items;
    proof {
        lemma_array_view(items);
    }
    if items.len() != 4 {
        return Err(CodecError::Malformed);
    }
    let params = match items.pop() {
        Some(Value::Array(params)) => params,
        _ => {
            return Err(CodecError::Malformed);
        },
    };
    let method = match items.pop() {
        Some(Value::Str(method)) => method,
        _ => {
            return Err(CodecError::Malformed);
        },
    };
    let id = match items[1].as_u32() {
        Some(id) => id,
        None => {
            return Err(CodecError::Malformed);
        },
    };
    proof {
        lemma_array_view(params);
    }
    Ok(Message::Request(Request { id, method, params }))
}

fn response_from(items: Vec<Value>) -> (r: Result<Message, CodecError>)
    ensures
        match response_of(items.deep_view()) {
            Ok(m) => r matches Ok(x) && x@ == m,
            Err(e) => r matches Err(f) && f == e,
        },
{
    let mut items = items;
    proof {
        lemma_array_view(items);
    }
    if items.len() != 4 {
        return Err(CodecError::Malformed);
    }
    let id = match items[1].as_u32() {
        Some(id) => id,
        None => {
            return Err(CodecError::Malformed);
        },
    };
    let result = items.pop().unwrap();
    let error = items.pop().unwrap();
    if error.is_nil() {
        Ok(Message::Response(Response { id, error: None, result: Some(result) }))
    } else if result.is_nil() {
        Ok(Message::Response(Response { id, error: Some(error), result: None }))
    } else {
        Err(CodecError::Malformed)
    }
}

fn notification_from(items: Vec<Value>) -> (r: Result<Message, CodecError>)
    ensures
        match notification_of(items.deep_view()) {
            Ok(m) => r matches Ok(x) && x@ == m,
            Err(e) => r matches Err(f) && f == e,
        },
{
    let mut items = items;
    proof {
        lemma_array_view(items);
    }
    if items.len() != 3 {
        return Err(CodecError::Malformed);
    }
    let params = match items.pop() {
        Some(Value::Array(params)) => params,
        _ => {
            return Err(CodecError::Malformed);
        },
    };
    let method = match items.pop() {
        Some(Value::Str(method)) => method,
        _ => {
            return Err(CodecError::Malformed);
        },
    };
    proof {
        lemma_array_view(params);
    }
    Ok(Message::Notification(Notification { method, params }))
}

} // verus!
