//! Requests, responses, and who waits for what.

use debug_mcp::client::{
    received, AbortGuard, DualAwait, InitializedWait, PendingResult,
};
use debug_mcp::error::{clone_backend_error, dap_err, BackendError, WireError};
use debug_mcp::wire::{DapMessage, Request, Response};

/// Waiters are known by numbers here.
type Shared = debug_mcp::client::Shared<u32, u32, u32>;

fn initialize_response(seq: i64, request_seq: i64) -> Response {
    Response {
        seq,
        ty: "response".to_string(),
        request_seq,
        success: true,
        command: "initialize".to_string(),
        message: String::new(),
        body: None,
    }
}

fn initialize_request() -> Request {
    Request::new(
        "initialize",
        Some(serde_json::from_str(r#"{"clientID": "test", "adapterID": "lldb-dap"}"#).unwrap()),
    )
}

#[test]
fn send_receive() {
    let mut shared = Shared::new();
    let request = shared.begin_send(initialize_request(), 7);
    assert_eq!(request.seq, 1);
    assert_eq!(request.ty, "request");
    assert_eq!(request.command, "initialize");
    let (waiter, result) = shared
        .dispatch_response(
            request.seq,
            DapMessage::Response(initialize_response(1, request.seq)),
        )
        .expect("someone waits");
    assert_eq!(waiter, 7);
    match received(Some(result)).expect("send ok") {
        DapMessage::Response(resp) => {
            assert!(resp.success);
            assert_eq!(resp.command, "initialize");
        }
        other => panic!("expected Response, got {other:?}"),
    }
}

#[test]
fn send_multiple_concurrent_reversed() {
    let mut shared = Shared::new();
    const N: usize = 3;
    let mut seqs = Vec::new();
    for waiter in 0..N {
        seqs.push(shared.begin_send(initialize_request(), waiter as u32).seq);
    }
    for (i, seq) in seqs.iter().enumerate().rev() {
        let response = initialize_response(100 + i as i64, *seq);
        let (waiter, result) = shared
            .dispatch_response(*seq, DapMessage::Response(response))
            .expect("someone waits");
        assert_eq!(waiter, i as u32);
        assert!(matches!(result, Ok(DapMessage::Response(resp)) if resp.success));
    }
    assert_eq!(shared.pending_len(), 0);
}

#[test]
fn send_async_resolves() {
    let mut shared = Shared::new();
    let request = shared.begin_send(initialize_request(), 1);
    assert!(shared.has_pending(request.seq));
    let response = DapMessage::Response(initialize_response(1, request.seq));
    let (_, result) = shared.dispatch_response(request.seq, response).unwrap();
    assert!(matches!(result, Ok(DapMessage::Response(resp)) if resp.success));
    assert!(!shared.has_pending(request.seq));
}

#[test]
fn next_seq_increments_from_one() {
    let mut shared = Shared::new();
    for i in 1..=10 {
        assert_eq!(shared.next_seq(), i);
    }
}

#[test]
fn dispatch_response_no_waiter_does_not_panic() {
    let mut shared = Shared::new();
    let delivery =
        shared.dispatch_response(999, DapMessage::Response(initialize_response(1, 999)));
    assert!(delivery.is_none(), "no waiter ⇒ nothing is handed out");
}

#[test]
fn cancel_all_pending_fails_every_waiter() {
    let mut shared = Shared::new();
    const N: usize = 3;
    for waiter in 0..N {
        shared.begin_send(initialize_request(), waiter as u32);
    }
    assert_eq!(shared.pending_len(), N, "all pending registered");
    let cancelled = shared.cancel_all_pending(&BackendError::Closed);
    assert_eq!(shared.pending_len(), 0, "map cleared");
    assert_eq!(cancelled.len(), N);
    for (i, (waiter, result)) in cancelled.into_iter().enumerate() {
        assert_eq!(waiter, i as u32);
        assert!(matches!(result, Err(BackendError::Closed)));
    }
}

#[test]
fn dropped_send_removes_pending_entry() {
    let mut shared = Shared::new();
    let request = shared.begin_send(initialize_request(), 5);
    let guard = AbortGuard::new(request.seq);
    assert_eq!(shared.pending_len(), 1, "entry registered while awaiting");
    assert_eq!(guard.release(&mut shared), Some(5));
    assert_eq!(shared.pending_len(), 0, "pending entry removed on drop");
}

#[test]
fn abort_guard_drop_racing_cancel_all_pending_is_safe() {
    for i in 0..200 {
        let mut shared = Shared::new();
        let request = shared.begin_send(initialize_request(), i);
        let guard = AbortGuard::new(request.seq);
        if i % 2 == 0 {
            assert_eq!(shared.cancel_all_pending(&BackendError::Closed).len(), 1);
            assert_eq!(guard.release(&mut shared), None);
        } else {
            assert_eq!(guard.release(&mut shared), Some(i));
            assert!(shared.cancel_all_pending(&BackendError::Closed).is_empty());
        }
        assert_eq!(guard.release(&mut shared), None);
        assert_eq!(shared.pending_len(), 0, "entry gone exactly once");
    }
}

#[test]
fn disarmed_guard_takes_nothing_back() {
    let mut shared = Shared::new();
    let request = shared.begin_send(initialize_request(), 5);
    let mut guard = AbortGuard::new(request.seq);
    guard.disarm();
    assert_eq!(guard.release(&mut shared), None);
    assert!(shared.has_pending(request.seq));
}

#[test]
fn failed_write_rolls_the_request_back() {
    let mut shared = Shared::new();
    let first = shared.begin_send(initialize_request(), 1);
    let second = shared.begin_send(initialize_request(), 2);
    let err = shared.fail_send(second.seq, &WireError::Io("broken pipe".to_string()));
    assert_eq!(err, BackendError::Send("io error: broken pipe".to_string()));
    assert!(shared.has_pending(first.seq));
    assert!(!shared.has_pending(second.seq));
}

#[test]
fn late_registration_replaces_and_reports() {
    let mut shared = Shared::new();
    let seq = shared.next_seq();
    assert_eq!(shared.register_pending(seq, 1), None);
    assert_eq!(shared.register_pending(seq, 2), Some(1));
    assert_eq!(shared.remove_pending(seq), Some(2));
    assert_eq!(shared.remove_pending(seq), None);
}

#[test]
fn initialized_is_signalled_once_and_for_all() {
    let mut shared = Shared::new();
    assert!(matches!(
        shared.wait_initialized(1),
        InitializedWait::Parked(None)
    ));
    assert!(matches!(
        shared.wait_initialized(2),
        InitializedWait::Parked(Some(1))
    ));
    assert_eq!(shared.signal_initialized(), Some(2));
    assert_eq!(shared.signal_initialized(), None);
    assert!(matches!(
        shared.wait_initialized(3),
        InitializedWait::Ready(3)
    ));
}

#[test]
fn nothing_received_means_closed() {
    assert_eq!(received(None), Err(BackendError::Closed));
    let err: PendingResult = Err(BackendError::Timeout);
    assert_eq!(received(Some(err)), Err(BackendError::Timeout));
}

fn ok(command: &str) -> PendingResult {
    let mut response = initialize_response(11, 1);
    response.command = command.to_string();
    Ok(DapMessage::Response(response))
}

#[test]
fn send_and_await_both_response_first() {
    let mut both = DualAwait::new();
    both.on_response(Some(ok("launch")));
    assert!(!both.is_complete());
    both.on_initialized();
    assert!(both.is_complete());
    assert!(
        matches!(both.finish(), Ok(DapMessage::Response(r)) if r.command == "launch")
    );
}

#[test]
fn initialized_event_signals() {
    let mut both = DualAwait::new();
    both.on_initialized();
    assert!(!both.is_complete());
    both.on_response(Some(ok("initialize")));
    assert!(both.is_complete());
    both.on_response(Some(ok("later")));
    assert!(
        matches!(both.finish(), Ok(DapMessage::Response(r)) if r.success && r.command == "initialize")
    );
}

#[test]
fn torn_down_dual_await_is_closed() {
    let mut both = DualAwait::new();
    both.on_response(None);
    both.on_initialized();
    assert_eq!(both.finish(), Err(BackendError::Closed));
}

#[test]
fn backend_errors() {
    let errors = vec![
        (
            BackendError::Detect("d".to_string()),
            "failed to detect debugger: d",
        ),
        (
            BackendError::Spawn("s".to_string()),
            "failed to spawn debugger: s",
        ),
        (
            BackendError::Send("w".to_string()),
            "failed to send request: w",
        ),
        (
            BackendError::Protocol {
                ty: "event".to_string(),
            },
            "unexpected response type: event",
        ),
        (dap_err("no".to_string()), "debugger error: no"),
        (BackendError::Closed, "connection closed"),
        (BackendError::Timeout, "operation timed out"),
    ];
    for (err, text) in errors {
        assert_eq!(err.to_string(), text);
        assert_eq!(clone_backend_error(&err), err);
    }
}
