use nvim_rs::client::{Inbound, Step};
use nvim_rs::{
    CallError, Client, CodecError, Completion, CorrelationError, HandleError, Message,
    Notification, Rejected, Request, Response, RpcReader, RpcWriter, UiEvent, UiOptions, Value,
};

fn response(id: u32, result: Value) -> Response {
    Response { id, error: None, result: Some(result) }
}

fn sent(client: &mut Client<&'static str>) -> Vec<Message> {
    let mut reader = RpcReader::new();
    reader.feed(&client.take_outgoing());
    let mut out = Vec::new();
    while let Some(m) = reader.recv().unwrap() {
        out.push(m);
    }
    assert_eq!(reader.buffered(), 0);
    out
}

#[test]
fn call_frames_a_request_with_the_next_id() {
    let mut client: Client<&'static str> = Client::new(RpcWriter::new());
    assert_eq!(client.call("nvim_get_mode", vec![], "a"), Ok(0));
    assert_eq!(client.call("nvim_command", vec![Value::from_str("w")], "b"), Ok(1));
    assert_eq!(client.pending_calls(), 2);
    assert_eq!(
        sent(&mut client),
        vec![
            Message::Request(Request { id: 0, method: String::from("nvim_get_mode"), params: vec![] }),
            Message::Request(Request {
                id: 1,
                method: String::from("nvim_command"),
                params: vec![Value::from_str("w")],
            }),
        ]
    );
    assert_eq!(client.take_outgoing(), Vec::<u8>::new());
}

#[test]
fn concurrent_calls_get_distinct_ids() {
    let mut client: Client<usize> = Client::new(RpcWriter::new());
    let mut ids = Vec::new();
    for slot in 0..1000 {
        ids.push(client.call("m", vec![], slot).unwrap());
    }
    let mut sorted = ids.clone();
    sorted.sort();
    sorted.dedup();
    assert_eq!(sorted.len(), 1000);
    assert_eq!(client.pending_calls(), 1000);
    for id in ids {
        assert!(client.is_pending(id));
    }
}

#[test]
fn response_fulfils_its_call_once() {
    let mut client: Client<&'static str> = Client::new(RpcWriter::new());
    let id = client.call("m", vec![], "slot").unwrap();
    assert_eq!(
        client.handle_response(response(id, Value::UInt(42))),
        Ok(Completion { slot: "slot", outcome: Ok(Value::UInt(42)) })
    );
    assert!(!client.is_pending(id));
    assert_eq!(client.handle_response(response(id, Value::UInt(42))), Err(HandleError::UnknownId(id)));
    assert_eq!(client.pending_calls(), 0);
}

#[test]
fn response_for_an_unknown_id_changes_nothing() {
    let mut client: Client<&'static str> = Client::new(RpcWriter::new());
    let id = client.call("m", vec![], "slot").unwrap();
    assert_eq!(client.handle_response(response(id + 7, Value::Nil)), Err(HandleError::UnknownId(id + 7)));
    assert!(client.is_pending(id));
    assert_eq!(client.pending_calls(), 1);
}

#[test]
fn remote_error_reaches_the_caller() {
    let mut client: Client<&'static str> = Client::new(RpcWriter::new());
    let id = client.call("m", vec![], "slot").unwrap();
    let error = Value::Array(vec![Value::UInt(1), Value::from_str("Invalid method")]);
    let done = client
        .handle_response(Response { id, error: Some(error.clone()), result: None })
        .unwrap();
    assert_eq!(done, Completion { slot: "slot", outcome: Err(CallError::Remote(error)) });
}

#[test]
fn response_without_result_gives_nil() {
    let mut client: Client<&'static str> = Client::new(RpcWriter::new());
    let id = client.call("m", vec![], "slot").unwrap();
    let done = client.handle_response(Response { id, error: None, result: None }).unwrap();
    assert_eq!(done.outcome, Ok(Value::Nil));
}

#[test]
fn answers_may_come_in_any_order() {
    let mut client: Client<&'static str> = Client::new(RpcWriter::new());
    let a = client.call("first", vec![], "caller a").unwrap();
    let b = client.call("second", vec![], "caller b").unwrap();
    assert_ne!(a, b);
    assert_eq!(
        client.handle_response(response(b, Value::from_str("for b"))),
        Ok(Completion { slot: "caller b", outcome: Ok(Value::from_str("for b")) })
    );
    assert_eq!(
        client.handle_response(response(a, Value::from_str("for a"))),
        Ok(Completion { slot: "caller a", outcome: Ok(Value::from_str("for a")) })
    );
    assert_eq!(client.pending_calls(), 0);
}

#[test]
fn close_ends_every_call_in_issue_order() {
    let mut client: Client<usize> = Client::new(RpcWriter::new());
    for slot in 0..5 {
        client.call("m", vec![], slot).unwrap();
    }
    client.handle_response(response(2, Value::Nil)).unwrap();
    let done = client.close();
    assert_eq!(
        done,
        vec![
            Completion { slot: 0, outcome: Err(CallError::ConnectionClosed) },
            Completion { slot: 1, outcome: Err(CallError::ConnectionClosed) },
            Completion { slot: 3, outcome: Err(CallError::ConnectionClosed) },
            Completion { slot: 4, outcome: Err(CallError::ConnectionClosed) },
        ]
    );
    assert_eq!(client.pending_calls(), 0);
    assert_eq!(client.close(), vec![]);
}

#[test]
fn id_counter_wraps_and_collision_is_detected() {
    let mut client: Client<&'static str> = Client::new(RpcWriter::new());
    assert_eq!(client.call("stays", vec![], "a"), Ok(0));
    client.set_next_id(u32::MAX);
    assert_eq!(client.call("last", vec![], "b"), Ok(u32::MAX));
    client.take_outgoing();
    // the counter came round to 0, which is still under way
    assert_eq!(
        client.call("again", vec![], "c"),
        Err(Rejected { slot: "c", error: CallError::Correlation(CorrelationError::IdCollision(0)) })
    );
    assert_eq!(client.pending_calls(), 2);
    assert_eq!(client.take_outgoing(), Vec::<u8>::new());
    // the rejected call used up the id: the next one gets 1
    assert_eq!(client.call("next", vec![], "d"), Ok(1));
    assert_eq!(
        client.handle_response(response(0, Value::Nil)),
        Ok(Completion { slot: "a", outcome: Ok(Value::Nil) })
    );
}

#[test]
fn write_failure_ends_the_call_with_an_io_error() {
    let mut client: Client<&'static str> = Client::new(RpcWriter::new());
    let id = client.call("m", vec![], "slot").unwrap();
    assert_eq!(client.write_failed(id), Some(Completion { slot: "slot", outcome: Err(CallError::Io) }));
    assert_eq!(client.write_failed(id), None);
    assert_eq!(client.pending_calls(), 0);
}

#[test]
fn dispatch_routes_by_kind() {
    let mut client: Client<&'static str> = Client::new(RpcWriter::new());
    let id = client.call("m", vec![], "slot").unwrap();

    let flush = Value::Array(vec![Value::from_str("flush"), Value::Array(vec![])]);
    let redraw = Message::Notification(Notification { method: String::from("redraw"), params: vec![flush] });
    assert_eq!(client.dispatch(redraw), Inbound::Redraw(vec![UiEvent::Flush]));

    let other = Notification { method: String::from("Redraw"), params: vec![Value::UInt(1)] };
    assert_eq!(client.dispatch(Message::Notification(other.clone())), Inbound::Notification(other));

    let request = Request { id: 3, method: String::from("ask"), params: vec![] };
    assert_eq!(client.dispatch(Message::Request(request.clone())), Inbound::Request(request));

    assert_eq!(
        client.dispatch(Message::Response(response(id, Value::Bool(true)))),
        Inbound::Completed(Completion { slot: "slot", outcome: Ok(Value::Bool(true)) })
    );
    assert_eq!(
        client.dispatch(Message::Response(response(id, Value::Bool(true)))),
        Inbound::Unanswerable(HandleError::UnknownId(id))
    );

    let bad = Message::Notification(Notification { method: String::from("redraw"), params: vec![Value::Nil] });
    assert!(matches!(client.dispatch(bad), Inbound::RedrawFailed(_)));
}

#[test]
fn read_loop_stops_on_a_failed_read_and_ends_all_calls() {
    let mut client: Client<&'static str> = Client::new(RpcWriter::new());
    client.call("a", vec![], "caller a").unwrap();
    client.call("b", vec![], "caller b").unwrap();
    assert_eq!(client.io_step(Ok(None)), Step::NeedBytes);
    assert_eq!(client.pending_calls(), 2);
    assert_eq!(
        client.io_step(Ok(Some(Message::Response(response(1, Value::Nil))))),
        Step::Deliver(Inbound::Completed(Completion { slot: "caller b", outcome: Ok(Value::Nil) }))
    );
    client.call("c", vec![], "caller c").unwrap();
    assert_eq!(
        client.io_step(Err(CodecError::Io)),
        Step::Stop {
            error: CodecError::Io,
            abandoned: vec![
                Completion { slot: "caller a", outcome: Err(CallError::ConnectionClosed) },
                Completion { slot: "caller c", outcome: Err(CallError::ConnectionClosed) },
            ],
        }
    );
    assert_eq!(client.pending_calls(), 0);
}

#[test]
fn ui_attach_request() {
    let mut client: Client<&'static str> = Client::new(RpcWriter::new());
    let options = UiOptions { rgb: true, ext_linegrid: true, ..Default::default() };
    assert_eq!(client.nvim_ui_attach(80, 30, options, "slot"), Ok(0));
    assert_eq!(
        sent(&mut client),
        vec![Message::Request(Request {
            id: 0,
            method: String::from("nvim_ui_attach"),
            params: vec![
                Value::UInt(80),
                Value::UInt(30),
                Value::Dict(vec![
                    (Value::from_str("rgb"), Value::Bool(true)),
                    (Value::from_str("ext_linegrid"), Value::Bool(true)),
                ]),
            ],
        })]
    );
}

#[test]
fn pum_bounds_request_carries_doubles() {
    let mut client: Client<&'static str> = Client::new(RpcWriter::new());
    let id = client
        .nvim_ui_pum_set_bounds(12.5f64.to_bits(), 4.0f64.to_bits(), 1.0f64.to_bits(), 0.5f64.to_bits(), "slot")
        .unwrap();
    let bytes = client.take_outgoing();
    let mut expected = vec![0x94, 0x00, id as u8, 0xb6];
    expected.extend_from_slice(b"nvim_ui_pum_set_bounds");
    expected.push(0x94);
    for x in [12.5f64, 4.0, 1.0, 0.5] {
        expected.push(0xcb);
        expected.extend_from_slice(&x.to_be_bytes());
    }
    assert_eq!(bytes, expected);
}

#[test]
fn default_options_are_all_off() {
    let o = UiOptions::default();
    assert_eq!(o.to_value(), Value::Dict(vec![]));
    assert!(!o.rgb && !o.ext_linegrid && !o.ext_multigrid && !o.ext_popupmenu && !o.ext_messages);
}

#[test]
fn correlation_error_names_the_id() {
    let e = CallError::Correlation(CorrelationError::IdCollision(9));
    assert_eq!(e, CallError::Correlation(CorrelationError::IdCollision(9)));
    assert_ne!(e, CallError::Io);
}
