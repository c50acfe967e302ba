//! The factory, and the events that a reader's signals become.

use debug_mcp::factory::{output_event, terminated_event, LldbFactory};
use debug_mcp::read_loop::{Effect, OutputChunk, ReadLoop};
use debug_mcp::types::BackendEvent;
use debug_mcp::wire::{
    DapMessage, Event, ExitedBody, ExitedEvent, OutputBody, OutputEvent,
};

type Shared = debug_mcp::client::Shared<u32, u32, u32>;

#[test]
fn factory_name_is_lldb() {
    assert_eq!(LldbFactory::new().name(), "lldb");
    assert_eq!(LldbFactory::default().name(), "lldb");
}

/// The events that effects become.
fn surfaced(effects: Vec<Effect<u32, u32, u32>>) -> Vec<BackendEvent> {
    let mut events = Vec::new();
    for effect in effects {
        match effect {
            Effect::Output(chunk) => events.push(output_event(chunk)),
            Effect::Terminated(code) => events.extend(terminated_event(Some(code))),
            _ => {}
        }
    }
    events
}

fn output(category: &str, text: &str) -> DapMessage {
    DapMessage::Event(Event::Output(OutputEvent {
        seq: 0,
        ty: "event".to_string(),
        event: "output".to_string(),
        body: OutputBody {
            category: category.to_string(),
            output: text.to_string(),
        },
    }))
}

#[test]
fn output_events_surface_as_output() {
    let mut reader = ReadLoop::new();
    let mut shared = Shared::new();
    let mut events = surfaced(reader.dispatch(&mut shared, output("stdout", "hello\n")));
    events.extend(surfaced(
        reader.dispatch(&mut shared, output("stderr", "warn\n")),
    ));
    assert_eq!(
        events,
        vec![
            BackendEvent::Output {
                category: "stdout".to_string(),
                text: "hello\n".to_string()
            },
            BackendEvent::Output {
                category: "stderr".to_string(),
                text: "warn\n".to_string()
            },
        ]
    );
}

#[test]
fn terminated_event_surfaces_as_terminated_with_exit_code() {
    let mut reader = ReadLoop::new();
    let mut shared = Shared::new();
    let exited = DapMessage::Event(Event::Exited(ExitedEvent {
        seq: 0,
        ty: "event".to_string(),
        event: "exited".to_string(),
        body: ExitedBody { exit_code: 42 },
    }));
    assert!(surfaced(reader.dispatch(&mut shared, exited)).is_empty());
    let events = surfaced(reader.dispatch(&mut shared, DapMessage::Event(Event::Terminated)));
    assert_eq!(events, vec![BackendEvent::Terminated { code: Some(42) }]);
}

#[test]
fn eof_surfaces_as_terminated_without_code() {
    let mut reader = ReadLoop::new();
    let mut shared = Shared::new();
    let events = surfaced(reader.recover(&mut shared, &debug_mcp::error::WireError::Eof));
    assert_eq!(events, vec![BackendEvent::Terminated { code: None }]);
}

#[test]
fn a_reader_without_a_signal_surfaces_nothing() {
    assert_eq!(terminated_event(None), None);
    assert_eq!(
        output_event(OutputChunk {
            category: "console".to_string(),
            text: "x".to_string()
        }),
        BackendEvent::Output {
            category: "console".to_string(),
            text: "x".to_string()
        }
    );
}
