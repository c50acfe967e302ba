//! The one that waits for the next stop.

use debug_mcp::stop_waiter::{stop_info_from_event, StopWaiter};
use debug_mcp::types::StopOutcome;
use debug_mcp::wire::{StoppedBody, StoppedEvent};

fn stopped_event(reason: &str, thread_id: i64) -> StoppedEvent {
    StoppedEvent {
        seq: 1,
        ty: "event".to_string(),
        event: "stopped".to_string(),
        body: StoppedBody {
            reason: reason.to_string(),
            thread_id,
            ..Default::default()
        },
    }
}

#[test]
fn register_and_deliver() {
    let mut waiter = StopWaiter::new();
    assert_eq!(waiter.register("a"), None);
    let (who, outcome) = waiter
        .deliver(&stopped_event("breakpoint", 1))
        .expect("deliver");
    assert_eq!(who, "a");
    match outcome {
        StopOutcome::Stopped(info) => {
            assert_eq!(info.reason, "breakpoint");
            assert_eq!(info.thread_id, 1);
        }
        other => panic!("expected Stopped, got {other:?}"),
    }
}

#[test]
fn register_and_deliver_exit() {
    let mut waiter = StopWaiter::new();
    waiter.register("a");
    match waiter.deliver_exit(42).expect("deliver_exit").1 {
        StopOutcome::Exited { code } => assert_eq!(code, Some(42)),
        other => panic!("expected Exited, got {other:?}"),
    }
}

#[test]
fn register_and_cancel() {
    let mut waiter = StopWaiter::new();
    waiter.register("a");
    assert!(matches!(
        waiter.cancel().expect("cancel").1,
        StopOutcome::Terminated
    ));
}

#[test]
fn deliver_no_waiter_is_noop() {
    let mut waiter: StopWaiter<u32> = StopWaiter::new();
    assert!(waiter.deliver(&stopped_event("breakpoint", 0)).is_none());
}

#[test]
fn deliver_exit_no_waiter_is_noop() {
    let mut waiter: StopWaiter<u32> = StopWaiter::default();
    assert!(waiter.deliver_exit(1).is_none());
}

#[test]
fn cancel_no_waiter_is_noop() {
    let mut waiter: StopWaiter<u32> = StopWaiter::new();
    assert!(waiter.cancel().is_none());
}

#[test]
fn register_replaces_prior_waiter() {
    let mut waiter = StopWaiter::new();
    assert_eq!(waiter.register("first"), None);
    assert_eq!(waiter.register("second"), Some("first"));
    assert_eq!(
        waiter.deliver_exit(7),
        Some(("second", StopOutcome::Exited { code: Some(7) }))
    );
}

#[test]
fn second_deliver_after_delivery_is_noop() {
    let mut waiter = StopWaiter::new();
    waiter.register("a");
    assert!(matches!(
        waiter.deliver(&stopped_event("step", 1)),
        Some((_, StopOutcome::Stopped(_)))
    ));
    assert!(waiter.deliver_exit(0).is_none());
}

#[test]
fn deliver_to_dropped_receiver_is_noop() {
    let mut waiter = StopWaiter::new();
    waiter.register("gone");
    assert!(waiter.deliver(&stopped_event("breakpoint", 1)).is_some());
    waiter.register("b");
    assert_eq!(waiter.cancel(), Some(("b", StopOutcome::Terminated)));
}

#[test]
fn the_stop_keeps_what_the_event_says() {
    let mut event = stopped_event("breakpoint", 3);
    event.body.description = "hit".to_string();
    event.body.hit_breakpoint_ids = vec![4, 5];
    let info = stop_info_from_event(&event);
    assert_eq!(info.reason, "breakpoint");
    assert_eq!(info.thread_id, 3);
    assert_eq!(info.description, "hit");
    assert_eq!(info.hit_breakpoint_ids, vec![4, 5]);
    assert_eq!(info.clone(), info);
}
