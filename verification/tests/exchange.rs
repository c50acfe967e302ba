//! A launch or an attach against a scripted debugger, through the reader and everyone that waits.

use std::collections::HashMap;

use debug_mcp::client::{InitializedWait, PendingResult, Shared};
use debug_mcp::error::{BackendError, WireError};
use debug_mcp::handshake::{Action, AttachHandshake, Event as Came, LaunchHandshake};
use debug_mcp::read_loop::{Effect, ReadLoop};
use debug_mcp::types::{AttachOutcome, AttachSpec, LaunchOutcome, LaunchSpec, StopOutcome};
use debug_mcp::wire::{DapMessage, Event, Request, Response, StoppedBody, StoppedEvent};

fn launch_spec(stop_on_entry: bool) -> LaunchSpec {
    LaunchSpec {
        program: "/bin/prog".to_string(),
        args: Vec::new(),
        cwd: None,
        env: Vec::new(),
        stop_on_entry,
        source_breakpoints: Vec::new(),
        function_breakpoints: Vec::new(),
    }
}

fn reply_ok(command: &str, request_seq: i64) -> DapMessage {
    DapMessage::Response(Response {
        seq: 0,
        ty: "response".to_string(),
        request_seq,
        success: true,
        command: command.to_string(),
        message: String::new(),
        body: None,
    })
}

fn initialized() -> DapMessage {
    DapMessage::Event(Event::Initialized)
}

fn stopped(reason: &str, thread_id: i64) -> DapMessage {
    DapMessage::Event(Event::Stopped(StoppedEvent {
        seq: 0,
        ty: "event".to_string(),
        event: "stopped".to_string(),
        body: StoppedBody {
            reason: reason.to_string(),
            thread_id,
            ..Default::default()
        },
    }))
}

/// A connection whose waiters are numbers, and what each of them was handed.
struct Wire {
    shared: Shared<u32, u32, u32>,
    reader: ReadLoop,
    answers: HashMap<u32, PendingResult>,
    stops: HashMap<u32, StopOutcome>,
    last: u32,
    deferred: u32,
    waiting: u32,
    commands: Vec<String>,
}

impl Wire {
    fn new() -> Wire {
        Wire {
            shared: Shared::new(),
            reader: ReadLoop::new(),
            answers: HashMap::new(),
            stops: HashMap::new(),
            last: 0,
            deferred: 0,
            waiting: 0,
            commands: Vec::new(),
        }
    }

    fn note(&mut self, effects: Vec<Effect<u32, u32, u32>>) {
        for effect in effects {
            match effect {
                Effect::Answer(waiter, result) => {
                    self.answers.insert(waiter, result);
                }
                Effect::Stop(waiter, outcome) => {
                    self.stops.insert(waiter, outcome);
                }
                Effect::Log(line) => panic!("{line}"),
                _ => {}
            }
        }
    }

    fn token(&mut self) -> u32 {
        self.last += 1;
        self.last
    }

    /// Sends `request`; what `peer` says to it arrives before anything else happens.
    fn send(
        &mut self,
        request: Request,
        peer: &mut dyn FnMut(&str, i64) -> Option<Vec<DapMessage>>,
    ) -> u32 {
        let waiter = self.token();
        let request = self.shared.begin_send(request, waiter);
        self.commands.push(request.command.clone());
        match peer(&request.command, request.seq) {
            Some(messages) => {
                for message in messages {
                    let effects = self.reader.dispatch(&mut self.shared, message);
                    self.note(effects);
                }
            }
            None => {
                let effects = self.reader.recover(&mut self.shared, &WireError::Eof);
                self.note(effects);
            }
        }
        waiter
    }

    /// Performs `action`, and gives what came of it.
    fn perform(
        &mut self,
        action: Action,
        peer: &mut dyn FnMut(&str, i64) -> Option<Vec<DapMessage>>,
    ) -> Came {
        match action {
            Action::Send(request) => {
                let waiter = self.send(request, peer);
                Came::Replied(self.answers.remove(&waiter).expect("answered"))
            }
            Action::SendAsync(request) => {
                self.deferred = self.send(request, peer);
                Came::Sent(Ok(()))
            }
            Action::AwaitInitialized => {
                let waiter = self.token();
                assert!(matches!(
                    self.shared.wait_initialized(waiter),
                    InitializedWait::Ready(_)
                ));
                Came::Initialized
            }
            Action::RegisterStop => {
                self.waiting = self.token();
                self.shared.stop_waiter.register(self.waiting);
                Came::Registered
            }
            Action::AwaitResponse => {
                let answer = self.answers.remove(&self.deferred);
                assert!(answer.is_some(), "answered");
                Came::Deferred(answer)
            }
            Action::AwaitStop => {
                let outcome = self.stops.remove(&self.waiting);
                assert!(outcome.is_some(), "stopped");
                Came::Stopped(outcome)
            }
        }
    }

    fn launch(
        &mut self,
        spec: LaunchSpec,
        mut peer: impl FnMut(&str, i64) -> Option<Vec<DapMessage>>,
    ) -> Result<LaunchOutcome, BackendError> {
        let mut launch = LaunchHandshake::new(spec);
        loop {
            let came = self.perform(launch.action(), &mut peer);
            if let Some(result) = launch.step(came, "") {
                return result;
            }
        }
    }

    /// Attaches; `stops` arrive once the attach has registered for a stop.
    fn attach(
        &mut self,
        stops: Vec<DapMessage>,
        mut peer: impl FnMut(&str, i64) -> Option<Vec<DapMessage>>,
    ) -> Result<AttachOutcome, BackendError> {
        let mut attach = AttachHandshake::new(AttachSpec {
            pid: Some(42),
            wait_for: None,
        });
        loop {
            let came = self.perform(attach.action(), &mut peer);
            if matches!(came, Came::Registered) {
                for message in &stops {
                    let effects = self.reader.dispatch(&mut self.shared, message.clone());
                    self.note(effects);
                }
            }
            if let Some(result) = attach.step(came, "") {
                return result;
            }
        }
    }
}

#[test]
fn launch_initialized_then_response() {
    let mut wire = Wire::new();
    let result = wire.launch(launch_spec(false), |command, seq| {
        Some(match command {
            "launch" => vec![initialized(), reply_ok("launch", seq)],
            other => vec![reply_ok(other, seq)],
        })
    });
    assert_eq!(result.expect("launch ok"), LaunchOutcome::Running);
}

#[test]
fn launch_response_then_initialized() {
    let mut wire = Wire::new();
    let result = wire.launch(launch_spec(false), |command, seq| {
        Some(match command {
            "launch" => vec![reply_ok("launch", seq), initialized()],
            other => vec![reply_ok(other, seq)],
        })
    });
    assert_eq!(result.expect("launch ok"), LaunchOutcome::Running);
}

#[test]
fn launch_deferred_response_after_config_done() {
    let mut wire = Wire::new();
    let mut launch_seq = 0;
    let result = wire.launch(launch_spec(true), |command, seq| {
        Some(match command {
            "launch" => {
                launch_seq = seq;
                vec![initialized()]
            }
            "configurationDone" => vec![
                stopped("entry", 1),
                reply_ok("configurationDone", seq),
                reply_ok("launch", launch_seq),
            ],
            other => vec![reply_ok(other, seq)],
        })
    });
    assert!(matches!(result, Ok(LaunchOutcome::Stopped(info)) if info.reason == "entry"));
    assert_eq!(
        wire.commands,
        vec![
            "initialize",
            "launch",
            "setExceptionBreakpoints",
            "configurationDone"
        ]
    );
    assert_eq!(wire.shared.pending_len(), 0);
}

#[test]
fn launch_whose_connection_ends_is_told_so() {
    let mut wire = Wire::new();
    let result = wire.launch(launch_spec(true), |command, seq| match command {
        "launch" => Some(vec![initialized()]),
        "configurationDone" => None,
        other => Some(vec![reply_ok(other, seq)]),
    });
    assert_eq!(
        result,
        Err(BackendError::Dap {
            message: "configurationDone failed: connection closed".to_string()
        })
    );
    // Whoever waited for the response and for the stop knows it too.
    assert_eq!(
        wire.answers.remove(&wire.deferred),
        Some(Err(BackendError::Closed))
    );
    assert_eq!(
        wire.stops.remove(&wire.waiting),
        Some(StopOutcome::Terminated)
    );
}

#[test]
fn launch_does_not_depend_on_the_order_of_arrivals() {
    let mut results = Vec::new();
    for launch_reply in 0..4 {
        for stop_first in [true, false] {
            let mut wire = Wire::new();
            let mut launch_seq = 0;
            let result = wire.launch(launch_spec(true), |command, seq| {
                Some(match command {
                    "launch" => {
                        launch_seq = seq;
                        match launch_reply {
                            0 => vec![reply_ok("launch", seq), initialized()],
                            1 => vec![initialized(), reply_ok("launch", seq)],
                            _ => vec![initialized()],
                        }
                    }
                    "configurationDone" => {
                        let mut messages = vec![reply_ok("configurationDone", seq)];
                        if stop_first {
                            messages.insert(0, stopped("entry", 7));
                        } else {
                            messages.push(stopped("entry", 7));
                        }
                        match launch_reply {
                            2 => messages.push(reply_ok("launch", launch_seq)),
                            3 => messages.insert(0, reply_ok("launch", launch_seq)),
                            _ => {}
                        }
                        messages
                    }
                    other => vec![reply_ok(other, seq)],
                })
            });
            results.push(result.expect("launch ok"));
        }
    }
    assert_eq!(results.len(), 8);
    for result in &results {
        assert_eq!(*result, results[0]);
        match result {
            LaunchOutcome::Stopped(info) => {
                assert_eq!(info.reason, "entry");
                assert_eq!(info.thread_id, 7);
            }
            other => panic!("expected Stopped, got {other:?}"),
        }
    }
}

#[test]
fn attach_does_not_depend_on_the_order_of_arrivals() {
    let mut results = Vec::new();
    for attach_reply in 0..4 {
        for early_stop in [true, false] {
            let mut wire = Wire::new();
            let mut attach_seq = 0;
            let stops = vec![stopped("signal", 7), stopped("step", 8)];
            let result = wire.attach(stops, |command, seq| {
                Some(match command {
                    "attach" => {
                        attach_seq = seq;
                        match attach_reply {
                            0 => vec![reply_ok("attach", seq), initialized()],
                            1 => vec![initialized(), reply_ok("attach", seq)],
                            _ => vec![initialized()],
                        }
                    }
                    "configurationDone" => {
                        let mut messages = vec![reply_ok("configurationDone", seq)];
                        // Nobody waits for a stop yet.
                        if early_stop {
                            messages.insert(0, stopped("entry", 1));
                        }
                        match attach_reply {
                            2 => messages.push(reply_ok("attach", attach_seq)),
                            3 => messages.insert(0, reply_ok("attach", attach_seq)),
                            _ => {}
                        }
                        messages
                    }
                    other => vec![reply_ok(other, seq)],
                })
            });
            results.push(result.expect("attach ok"));
            assert_eq!(
                wire.commands,
                vec![
                    "initialize",
                    "attach",
                    "setExceptionBreakpoints",
                    "configurationDone"
                ]
            );
        }
    }
    assert_eq!(results.len(), 8);
    for result in &results {
        match result {
            AttachOutcome::Stopped(info) => {
                assert_eq!(info.reason, "signal");
                assert_eq!(info.thread_id, 7);
            }
            other => panic!("expected Stopped, got {other:?}"),
        }
    }
}
