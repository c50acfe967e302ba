//! What arriving messages, and the end of the stream, make happen.

use debug_mcp::error::{BackendError, WireError};
use debug_mcp::read_loop::{Effect, OutputChunk, ReadLoop};
use debug_mcp::types::StopOutcome;
use debug_mcp::wire::{
    DapMessage, Envelope, Event, ExitedBody, ExitedEvent, OutputBody, OutputEvent, Request,
    Response, StoppedBody, StoppedEvent,
};

type Shared = debug_mcp::client::Shared<u32, char, bool>;
type Effects = Vec<Effect<u32, char, bool>>;

fn stopped_event(reason: &str, thread_id: i64) -> DapMessage {
    DapMessage::Event(Event::Stopped(StoppedEvent {
        seq: 1,
        ty: "event".to_string(),
        event: "stopped".to_string(),
        body: StoppedBody {
            reason: reason.to_string(),
            thread_id,
            ..Default::default()
        },
    }))
}

fn exited_event(exit_code: i64) -> DapMessage {
    DapMessage::Event(Event::Exited(ExitedEvent {
        seq: 1,
        ty: "event".to_string(),
        event: "exited".to_string(),
        body: ExitedBody { exit_code },
    }))
}

fn output_event(category: &str, output: &str) -> DapMessage {
    DapMessage::Event(Event::Output(OutputEvent {
        seq: 1,
        ty: "event".to_string(),
        event: "output".to_string(),
        body: OutputBody {
            category: category.to_string(),
            output: output.to_string(),
        },
    }))
}

fn initialize_response(request_seq: i64) -> DapMessage {
    DapMessage::Response(Response {
        seq: 10,
        ty: "response".to_string(),
        request_seq,
        success: true,
        command: "initialize".to_string(),
        message: String::new(),
        body: None,
    })
}

fn logged(effects: &Effects) -> Vec<&str> {
    effects
        .iter()
        .filter_map(|effect| match effect {
            Effect::Log(line) => Some(line.as_str()),
            _ => None,
        })
        .collect()
}

#[test]
fn stopped_event_delivers_to_stop_waiter() {
    let mut reader = ReadLoop::new();
    let mut shared = Shared::new();
    shared.stop_waiter.register('w');
    let effects = reader.dispatch(&mut shared, stopped_event("breakpoint", 1));
    match &effects[..] {
        [Effect::Stop('w', StopOutcome::Stopped(info))] => {
            assert_eq!(info.reason, "breakpoint");
            assert_eq!(info.thread_id, 1);
        }
        other => panic!("expected Stopped, got {other:?}"),
    }
}

#[test]
fn exited_event_delivers_exit_code() {
    let mut reader = ReadLoop::new();
    let mut shared = Shared::new();
    shared.stop_waiter.register('w');
    let effects = reader.dispatch(&mut shared, exited_event(42));
    assert!(matches!(
        &effects[..],
        [Effect::Stop('w', StopOutcome::Exited { code: Some(42) })]
    ));
}

#[test]
fn terminated_event_cancels_stop_waiter_and_fires_signal() {
    let mut reader = ReadLoop::new();
    let mut shared = Shared::new();
    shared.stop_waiter.register('w');
    let effects = reader.dispatch(&mut shared, DapMessage::Event(Event::Terminated));
    assert!(matches!(
        &effects[..],
        [
            Effect::Terminated(None),
            Effect::Stop('w', StopOutcome::Terminated)
        ]
    ));
}

#[test]
fn exited_then_terminated_carries_exit_code_in_signal() {
    let mut reader = ReadLoop::new();
    let mut shared = Shared::new();
    shared.stop_waiter.register('w');
    let effects = reader.dispatch(&mut shared, exited_event(7));
    assert!(matches!(
        &effects[..],
        [Effect::Stop('w', StopOutcome::Exited { code: Some(7) })]
    ));
    let effects = reader.dispatch(&mut shared, DapMessage::Event(Event::Terminated));
    assert!(matches!(&effects[..], [Effect::Terminated(Some(7))]));
}

#[test]
fn output_event_forwarded_to_sink() {
    let mut reader = ReadLoop::new();
    let mut shared = Shared::new();
    let effects = reader.dispatch(&mut shared, output_event("stderr", "error message\n"));
    match &effects[..] {
        [Effect::Output(chunk)] => assert_eq!(
            *chunk,
            OutputChunk {
                category: "stderr".to_string(),
                text: "error message\n".to_string()
            }
        ),
        other => panic!("expected output, got {other:?}"),
    }
}

#[test]
fn interleaved_responses_and_events() {
    let mut reader = ReadLoop::new();
    let mut shared = Shared::new();
    let seq = shared
        .begin_send(Request::new("initialize", None), 1)
        .seq;
    shared.wait_initialized(true);
    let effects = reader.dispatch(&mut shared, DapMessage::Event(Event::Initialized));
    assert!(matches!(&effects[..], [Effect::Wake(true)]));
    let effects = reader.dispatch(&mut shared, output_event("stdout", "hello world\n"));
    assert!(matches!(&effects[..], [Effect::Output(_)]));
    let effects = reader.dispatch(&mut shared, initialize_response(seq));
    assert!(matches!(
        &effects[..],
        [Effect::Answer(1, Ok(DapMessage::Response(r)))] if r.success
    ));
}

#[test]
fn informational_events_are_log_only() {
    let mut reader = ReadLoop::new();
    let mut shared = Shared::new();
    shared.stop_waiter.register('w');
    for (event, name) in [
        (Event::Thread, "thread"),
        (Event::Breakpoint, "breakpoint"),
        (Event::Process, "process"),
        (Event::Continued, "continued"),
        (Event::Module, "module"),
        (Event::Capabilities, "capabilities"),
    ] {
        let effects = reader.dispatch(&mut shared, DapMessage::Event(event));
        assert_eq!(effects.len(), 1);
        assert_eq!(
            logged(&effects),
            vec![format!("dap-client: informational event: {name}")]
        );
    }
    let effects = reader.dispatch(&mut shared, stopped_event("step", 2));
    assert!(matches!(
        &effects[..],
        [Effect::Stop('w', StopOutcome::Stopped(info))] if info.reason == "step"
    ));
}

#[test]
fn response_to_no_waiter_does_not_stop_the_loop() {
    let mut reader = ReadLoop::new();
    let mut shared = Shared::new();
    let effects = reader.dispatch(&mut shared, initialize_response(9999));
    assert_eq!(
        logged(&effects),
        vec!["dap-client: no waiter for response to request seq 9999"]
    );
    shared.stop_waiter.register('w');
    let effects = reader.dispatch(&mut shared, stopped_event("breakpoint", 1));
    assert!(matches!(
        &effects[..],
        [Effect::Stop('w', StopOutcome::Stopped(_))]
    ));
}

#[test]
fn eof_recovery_unblocks_pending_and_stop_waiter_and_signal() {
    let mut reader = ReadLoop::new();
    let mut shared = Shared::new();
    shared.stop_waiter.register('w');
    for waiter in 0..2 {
        shared.begin_send(Request::new("initialize", None), waiter);
    }
    let effects = reader.recover(&mut shared, &WireError::Eof);
    assert!(matches!(
        &effects[..],
        [
            Effect::Answer(0, Err(BackendError::Closed)),
            Effect::Answer(1, Err(BackendError::Closed)),
            Effect::Stop('w', StopOutcome::Terminated),
            Effect::Terminated(None)
        ]
    ));
    assert_eq!(shared.pending_len(), 0);
    assert!(reader.close_state.closed);
    assert_eq!(
        reader.close_state.err.as_deref(),
        Some("connection closed (EOF)")
    );
}

#[test]
fn the_end_is_told_only_once() {
    let mut reader = ReadLoop::new();
    let mut shared = Shared::new();
    let effects = reader.dispatch(&mut shared, DapMessage::Event(Event::Terminated));
    assert!(matches!(&effects[..], [Effect::Terminated(None)]));
    assert!(reader
        .dispatch(&mut shared, DapMessage::Event(Event::Terminated))
        .is_empty());
    assert!(reader
        .recover(&mut shared, &WireError::Io("gone".to_string()))
        .is_empty());
    assert!(reader.recover(&mut shared, &WireError::Eof).is_empty());
    assert_eq!(reader.close_state.err.as_deref(), Some("io error: gone"));
}

#[test]
fn unhandled_messages_are_logged() {
    let mut reader = ReadLoop::new();
    let mut shared = Shared::new();
    let other = |ty: &str, event: Option<&str>, command: Option<&str>| {
        DapMessage::Other(Envelope {
            seq: 1,
            ty: ty.to_string(),
            command: command.map(str::to_string),
            event: event.map(str::to_string),
        })
    };
    let effects = reader.dispatch(&mut shared, other("event", Some("loadedSource"), Some("x")));
    assert_eq!(
        logged(&effects),
        vec!["dap-client: unhandled event: loadedSource"]
    );
    let effects = reader.dispatch(&mut shared, other("request", None, Some("runInTerminal")));
    assert_eq!(
        logged(&effects),
        vec!["dap-client: unhandled message type request (command runInTerminal)"]
    );
    let effects = reader.dispatch(&mut shared, other("odd", None, None));
    assert_eq!(
        logged(&effects),
        vec!["dap-client: unhandled message type: odd"]
    );
}

#[test]
fn every_request_is_answered_once() {
    let mut reader = ReadLoop::new();
    let mut shared = Shared::new();
    let mut seqs = Vec::new();
    for waiter in 0..3 {
        seqs.push(shared.begin_send(Request::new("threads", None), waiter).seq);
    }
    let mut answered = Vec::new();
    let mut note = |effects: Effects| {
        for effect in effects {
            if let Effect::Answer(waiter, _) = effect {
                answered.push(waiter);
            }
        }
    };
    note(reader.dispatch(&mut shared, initialize_response(seqs[1])));
    note(reader.dispatch(&mut shared, initialize_response(seqs[1])));
    note(reader.dispatch(&mut shared, initialize_response(77)));
    note(reader.recover(&mut shared, &WireError::Eof));
    note(reader.dispatch(&mut shared, initialize_response(seqs[0])));
    assert_eq!(answered, vec![1, 0, 2]);
}

#[test]
fn one_registration_gets_one_outcome() {
    let mut reader = ReadLoop::new();
    let mut shared = Shared::new();
    shared.stop_waiter.register('w');
    let mut outcomes = 0;
    for message in [
        output_event("stdout", "x"),
        exited_event(3),
        stopped_event("step", 1),
        DapMessage::Event(Event::Terminated),
    ] {
        outcomes += reader
            .dispatch(&mut shared, message)
            .iter()
            .filter(|effect| matches!(effect, Effect::Stop(..)))
            .count();
    }
    assert_eq!(outcomes, 1);
    assert!(reader.recover(&mut shared, &WireError::Eof).is_empty());
}
