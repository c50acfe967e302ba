//! Frames: what is written is read back, and what is malformed is told apart.

use debug_mcp::error::WireError;
use debug_mcp::framing::{
    read_header, read_message, write_message, FrameReader, FrameStep, HeaderStep, NextFrame,
};
use debug_mcp::wire::{
    DapMessage, Decoded, Envelope, Event, ExitedBody, ExitedEvent, OutputBody, OutputEvent,
    Request, Response, Shape, StoppedBody, StoppedEvent,
};
use serde_json::Value;

fn json(text: &str) -> Value {
    serde_json::from_str(text).expect("JSON literal")
}

fn text_of(value: &Value, key: &str) -> String {
    value
        .get(key)
        .and_then(Value::as_str)
        .unwrap_or_default()
        .to_string()
}

fn int_of(value: &Value, key: &str) -> i64 {
    value.get(key).and_then(Value::as_i64).unwrap_or_default()
}

fn envelope_of(value: &Value) -> Envelope {
    Envelope {
        seq: int_of(value, "seq"),
        ty: text_of(value, "type"),
        command: value
            .get("command")
            .and_then(Value::as_str)
            .map(str::to_string),
        event: value
            .get("event")
            .and_then(Value::as_str)
            .map(str::to_string),
    }
}

/// Decodes the bytes of a body.
fn decode(bytes: &[u8]) -> Result<DapMessage, WireError> {
    let value: Value = match serde_json::from_slice(bytes) {
        Ok(value) => value,
        Err(e) => return DapMessage::from_slice(Err(e.to_string()), Decoded::Nothing),
    };
    let envelope = envelope_of(&value);
    let empty = Value::Null;
    let body = value.get("body").unwrap_or(&empty);
    let decoded = match DapMessage::shape(&envelope) {
        Shape::Response => Decoded::Response(Ok(Response {
            seq: envelope.seq,
            ty: envelope.ty.clone(),
            request_seq: int_of(&value, "request_seq"),
            success: value
                .get("success")
                .and_then(Value::as_bool)
                .unwrap_or_default(),
            command: text_of(&value, "command"),
            message: text_of(&value, "message"),
            body: value.get("body").cloned(),
        })),
        Shape::Stopped => Decoded::Stopped(Ok(StoppedEvent {
            seq: envelope.seq,
            ty: envelope.ty.clone(),
            event: text_of(&value, "event"),
            body: StoppedBody {
                reason: text_of(body, "reason"),
                thread_id: int_of(body, "threadId"),
                hit_breakpoint_ids: body
                    .get("hitBreakpointIds")
                    .and_then(Value::as_array)
                    .map(|ids| ids.iter().filter_map(Value::as_i64).collect())
                    .unwrap_or_default(),
                ..Default::default()
            },
        })),
        Shape::Output => Decoded::Output(Ok(OutputEvent {
            seq: envelope.seq,
            ty: envelope.ty.clone(),
            event: text_of(&value, "event"),
            body: OutputBody {
                category: text_of(body, "category"),
                output: text_of(body, "output"),
            },
        })),
        Shape::Exited => Decoded::Exited(Ok(ExitedEvent {
            seq: envelope.seq,
            ty: envelope.ty.clone(),
            event: text_of(&value, "event"),
            body: ExitedBody {
                exit_code: int_of(body, "exitCode"),
            },
        })),
        Shape::Plain(_) | Shape::Unmodeled => Decoded::Nothing,
    };
    DapMessage::from_slice(Ok(envelope), decoded)
}

/// The message at the front of a stream that ends with `input`.
fn read_all(input: &[u8]) -> Result<DapMessage, WireError> {
    match read_message(input, true) {
        FrameStep::Body { start, end } => decode(&input[start..end]),
        FrameStep::Fail(err) => Err(err),
        FrameStep::More => panic!("the end of the stream decides"),
    }
}

fn frame(value: &Value) -> Vec<u8> {
    write_message(Ok(serde_json::to_vec(value).expect("serialize"))).expect("frame")
}

fn write_then_read(value: &Value) -> DapMessage {
    read_all(&frame(value)).expect("read")
}

fn request_value(request: &Request) -> Value {
    let mut map = serde_json::Map::new();
    map.insert("seq".to_string(), request.seq.into());
    map.insert("type".to_string(), request.ty.clone().into());
    map.insert("command".to_string(), request.command.clone().into());
    if let Some(arguments) = &request.arguments {
        map.insert("arguments".to_string(), arguments.clone());
    }
    Value::Object(map)
}

#[test]
fn round_trip_initialize_request() {
    let mut req = Request::new(
        "initialize",
        Some(json(
            r#"{"clientID": "lldb-debug-mcp", "adapterID": "lldb-dap", "pathFormat": "path",
                "linesStartAt1": true, "columnsStartAt1": true}"#,
        )),
    );
    req.set_seq(1);
    match write_then_read(&request_value(&req)) {
        DapMessage::Other(env) => {
            assert_eq!(env.seq, 1);
            assert_eq!(env.ty, "request");
            assert_eq!(env.command.as_deref(), Some("initialize"));
        }
        other => panic!("expected Other(request), got {other:?}"),
    }
}

#[test]
fn round_trip_launch_request_arguments_preserved() {
    let args = json(
        r#"{"program": "/path/to/exe", "args": ["--flag", "value"], "cwd": "/working/dir",
            "env": {"FOO": "bar"}, "stopOnEntry": true,
            "initCommands": ["settings set target.x86-disassembly-flavor intel"]}"#,
    );
    let mut req = Request::new("launch", Some(args.clone()));
    req.set_seq(2);
    let DapMessage::Other(env) = write_then_read(&request_value(&req)) else {
        panic!("expected Other");
    };
    assert_eq!(env.seq, 2);
    assert_eq!(env.command.as_deref(), Some("launch"));
    let text = String::from_utf8(frame(&request_value(&req))).unwrap();
    let body = text.split_once("\r\n\r\n").unwrap().1;
    let value: Value = serde_json::from_str(body).unwrap();
    assert_eq!(value["arguments"], args);
}

#[test]
fn round_trip_continue_request() {
    let mut req = Request::new(
        "continue",
        Some(json(r#"{"threadId": 42, "singleThread": true}"#)),
    );
    req.set_seq(3);
    let DapMessage::Other(env) = write_then_read(&request_value(&req)) else {
        panic!("expected Other");
    };
    assert_eq!(env.seq, 3);
    assert_eq!(env.command.as_deref(), Some("continue"));
}

#[test]
fn round_trip_evaluate_request() {
    let mut req = Request::new(
        "evaluate",
        Some(json(
            r#"{"expression": "x + y", "frameId": 7, "context": "watch"}"#,
        )),
    );
    req.set_seq(4);
    let DapMessage::Other(env) = write_then_read(&request_value(&req)) else {
        panic!("expected Other");
    };
    assert_eq!(env.seq, 4);
    assert_eq!(env.command.as_deref(), Some("evaluate"));
}

#[test]
fn round_trip_response_message() {
    let resp = json(
        r#"{"seq": 1, "type": "response", "request_seq": 7, "success": true,
            "command": "initialize", "body": {"supportsConfigurationDoneRequest": true}}"#,
    );
    match write_then_read(&resp) {
        DapMessage::Response(got) => {
            assert_eq!(got.request_seq, 7);
            assert!(got.success);
            assert_eq!(got.command, "initialize");
        }
        other => panic!("expected Response, got {other:?}"),
    }
}

#[test]
fn round_trip_stopped_event() {
    let event = json(
        r#"{"seq": 5, "type": "event", "event": "stopped",
            "body": {"reason": "breakpoint", "threadId": 1, "hitBreakpointIds": [3]}}"#,
    );
    match write_then_read(&event) {
        DapMessage::Event(Event::Stopped(got)) => {
            assert_eq!(got.body.reason, "breakpoint");
            assert_eq!(got.body.thread_id, 1);
            assert_eq!(got.body.hit_breakpoint_ids, vec![3]);
        }
        other => panic!("expected Stopped event, got {other:?}"),
    }
}

#[test]
fn round_trip_output_event() {
    let event = json(
        r#"{"seq": 6, "type": "event", "event": "output",
            "body": {"category": "stdout", "output": "hello world\n"}}"#,
    );
    match write_then_read(&event) {
        DapMessage::Event(Event::Output(got)) => {
            assert_eq!(got.body.category, "stdout");
            assert_eq!(got.body.output, "hello world\n");
        }
        other => panic!("expected Output event, got {other:?}"),
    }
}

#[test]
fn round_trip_exited_event() {
    let event = json(
        r#"{"seq": 7, "type": "event", "event": "exited", "body": {"exitCode": 42}}"#,
    );
    match write_then_read(&event) {
        DapMessage::Event(Event::Exited(got)) => assert_eq!(got.body.exit_code, 42),
        other => panic!("expected Exited event, got {other:?}"),
    }
}

#[test]
fn initialized_and_terminated_events_decode() {
    let initialized = json(r#"{"seq": 1, "type": "event", "event": "initialized"}"#);
    let terminated = json(r#"{"seq": 2, "type": "event", "event": "terminated"}"#);
    assert!(matches!(
        write_then_read(&initialized),
        DapMessage::Event(Event::Initialized)
    ));
    assert!(matches!(
        write_then_read(&terminated),
        DapMessage::Event(Event::Terminated)
    ));
}

#[test]
fn informational_events_decode_to_their_variants() {
    for (name, want) in [
        ("thread", Event::Thread),
        ("breakpoint", Event::Breakpoint),
        ("process", Event::Process),
        ("continued", Event::Continued),
        ("module", Event::Module),
        ("capabilities", Event::Capabilities),
    ] {
        let event = json(&format!(
            r#"{{"seq": 1, "type": "event", "event": "{name}"}}"#
        ));
        assert_eq!(write_then_read(&event), DapMessage::Event(want));
    }
}

#[test]
fn unmodeled_event_decodes_to_other() {
    let event = json(r#"{"seq": 1, "type": "event", "event": "loadedSource"}"#);
    match write_then_read(&event) {
        DapMessage::Other(env) => assert_eq!(env.event.as_deref(), Some("loadedSource")),
        other => panic!("expected Other, got {other:?}"),
    }
}

#[test]
fn event_without_a_name_decodes_to_other() {
    let event = json(r#"{"seq": 1, "type": "event"}"#);
    assert!(matches!(write_then_read(&event), DapMessage::Other(_)));
}

#[test]
fn malformed_truncated_body() {
    let input = b"Content-Length: 100\r\n\r\n{\"seq\":1".to_vec();
    let err = read_all(&input).expect_err("truncated body must error");
    assert!(matches!(err, WireError::Io(_)), "got {err:?}");
    assert_eq!(err, WireError::Io("early eof".to_string()));
}

#[test]
fn malformed_bad_json() {
    let bad = "{not valid json!!}";
    let input = format!("Content-Length: {}\r\n\r\n{bad}", bad.len()).into_bytes();
    let err = read_all(&input).expect_err("bad json must error");
    assert!(matches!(err, WireError::Json(_)), "got {err:?}");
}

#[test]
fn malformed_no_header() {
    let input = br#"{"seq":1,"type":"request","command":"initialize"}"#.to_vec();
    let err = read_all(&input).expect_err("missing header must error");
    assert!(
        matches!(err, WireError::Io(_) | WireError::MissingContentLength),
        "got {err:?}"
    );
    assert_eq!(
        err,
        WireError::Io("EOF in the middle of a DAP header".to_string())
    );
}

#[test]
fn malformed_no_header_with_blank_line() {
    let input = b"X-Other: 1\r\n\r\n{}".to_vec();
    let err = read_all(&input).expect_err("must error");
    assert!(
        matches!(err, WireError::MissingContentLength),
        "got {err:?}"
    );
}

#[test]
fn malformed_empty_reader() {
    let input: Vec<u8> = Vec::new();
    let err = read_all(&input).expect_err("empty reader must error");
    assert!(matches!(err, WireError::Eof), "got {err:?}");
}

#[test]
fn malformed_invalid_content_length() {
    let input = b"Content-Length: notanumber\r\n\r\n{}".to_vec();
    let err = read_all(&input).expect_err("must error");
    assert!(
        matches!(err, WireError::InvalidContentLength(_)),
        "got {err:?}"
    );
    assert_eq!(
        err,
        WireError::InvalidContentLength("notanumber".to_string())
    );
}

#[test]
fn written_bytes_are_exact() {
    assert_eq!(
        write_message(Ok(b"{\"a\":1}".to_vec())),
        Ok(b"Content-Length: 7\r\n\r\n{\"a\":1}".to_vec())
    );
    assert_eq!(
        write_message(Ok(Vec::new())),
        Ok(b"Content-Length: 0\r\n\r\n".to_vec())
    );
    assert_eq!(
        write_message(Err("cannot".to_string())),
        Err(WireError::Json("cannot".to_string()))
    );
}

#[test]
fn header_lines_are_tolerated() {
    // Other fields, bare line feeds, white space, a plus sign, and the last count counts.
    let input = b"X: y\nContent-Length: 9\r\nContent-Length:\t +2 \r\n\nok";
    assert_eq!(
        read_header(input, false),
        HeaderStep::Done {
            length: 2,
            body: input.len() - 2
        }
    );
    // The name is told by its letters, in their case.
    assert_eq!(
        read_header(b"content-length: 2\r\n\r\nok", false),
        HeaderStep::Fail(WireError::MissingContentLength)
    );
}

#[test]
fn first_bad_line_is_the_error() {
    // Though the block has not ended, and whatever comes behind.
    for input in [
        "Content-Length: 1\r\nX: y\r\nContent-Length: p\r\n",
        "Content-Length: 1\r\nX: y\r\nContent-Length: p\r\nContent-Length: q\r\n\r\n",
        "Content-Length: 1\r\nX: y\r\nContent-Length: p\r\nContent-Length: 2\r\n\r\nok",
    ] {
        assert_eq!(
            read_header(input.as_bytes(), false),
            HeaderStep::Fail(WireError::InvalidContentLength("p".to_string()))
        );
    }
    assert_eq!(
        read_header(b"X: y\r\nContent-Length\r\n\r\n", false),
        HeaderStep::Fail(WireError::MissingContentLength)
    );
}

#[test]
fn byte_counts() {
    for (text, good) in [
        ("67108864", true),
        ("67108865", false),
        ("99999999999999999999999999", false),
        ("", false),
        ("+", false),
        ("-1", false),
        ("1 2", false),
        ("0x10", false),
        ("007", true),
    ] {
        let input = format!("Content-Length: {text}\r\n\r\n");
        let step = read_header(input.as_bytes(), false);
        if good {
            assert!(matches!(step, HeaderStep::Done { .. }), "{text}");
        } else {
            assert_eq!(
                step,
                HeaderStep::Fail(WireError::InvalidContentLength(text.to_string()))
            );
        }
    }
}

#[test]
fn header_that_is_not_text() {
    let step = read_header(b"\xff\xfe\r\n", false);
    assert_eq!(
        step,
        HeaderStep::Fail(WireError::Io(
            "invalid utf-8 sequence of 1 bytes from index 0".to_string()
        ))
    );
}

#[test]
fn pieces_make_no_difference() {
    let mut input = write_message(Ok("{\"text\":\"é\"}".as_bytes().to_vec())).unwrap();
    input.extend(write_message(Ok(b"[]".to_vec())).unwrap());
    let mut reader = FrameReader::new();
    let mut bodies = Vec::new();
    for byte in &input {
        reader.feed(&[*byte]);
        match reader.next_frame(false) {
            NextFrame::More => {}
            NextFrame::Body(body) => bodies.push(body),
            NextFrame::Fail(err) => panic!("unexpected {err:?}"),
        }
    }
    assert_eq!(
        bodies,
        vec!["{\"text\":\"é\"}".as_bytes().to_vec(), b"[]".to_vec()]
    );
    assert_eq!(reader.next_frame(true), NextFrame::Fail(WireError::Eof));
}

#[test]
fn several_frames_at_once_come_in_order() {
    let mut reader = FrameReader::new();
    for body in ["one", "", "three"] {
        reader.feed(&write_message(Ok(body.as_bytes().to_vec())).unwrap());
    }
    reader.feed(b"Content-");
    for body in ["one", "", "three"] {
        assert_eq!(
            reader.next_frame(false),
            NextFrame::Body(body.as_bytes().to_vec())
        );
    }
    assert_eq!(reader.next_frame(false), NextFrame::More);
    assert_eq!(
        reader.next_frame(true),
        NextFrame::Fail(WireError::Io(
            "EOF in the middle of a DAP header".to_string()
        ))
    );
}

#[test]
fn wire_errors() {
    assert!(WireError::Eof.is_disconnect());
    assert!(WireError::Io("x".to_string()).is_disconnect());
    assert!(!WireError::MissingContentLength.is_disconnect());
    assert!(!WireError::InvalidContentLength("x".to_string()).is_disconnect());
    assert!(!WireError::Json("x".to_string()).is_disconnect());
    assert_eq!(WireError::Eof.to_string(), "connection closed (EOF)");
    assert_eq!(WireError::Io("x".to_string()).to_string(), "io error: x");
    assert_eq!(
        WireError::MissingContentLength.to_string(),
        "missing Content-Length header"
    );
    assert_eq!(
        WireError::InvalidContentLength("x".to_string()).to_string(),
        "invalid Content-Length header: x"
    );
    assert_eq!(
        WireError::Json("x".to_string()).to_string(),
        "malformed DAP message body: x"
    );
}

#[test]
fn failed_decodings_are_errors() {
    let envelope = |ty: &str, event: Option<&str>| Envelope {
        seq: 1,
        ty: ty.to_string(),
        command: None,
        event: event.map(str::to_string),
    };
    let e = || "bad".to_string();
    let want = Err(WireError::Json("bad".to_string()));
    assert_eq!(
        DapMessage::from_slice(
            Ok(envelope("response", None)),
            Decoded::Response(Err(e()))
        ),
        want
    );
    assert_eq!(
        DapMessage::from_slice(
            Ok(envelope("event", Some("stopped"))),
            Decoded::Stopped(Err(e()))
        ),
        want
    );
    assert_eq!(
        DapMessage::from_slice(
            Ok(envelope("event", Some("output"))),
            Decoded::Output(Err(e()))
        ),
        want
    );
    assert_eq!(
        DapMessage::from_slice(
            Ok(envelope("event", Some("exited"))),
            Decoded::Exited(Err(e()))
        ),
        want
    );
    assert_eq!(DapMessage::from_slice(Err(e()), Decoded::Nothing), want);
}
