//! Launching, attaching and resuming, against a scripted debugger.

use debug_mcp::client::PendingResult;
use debug_mcp::error::BackendError;
use debug_mcp::handshake::{Action, AttachHandshake, Event, LaunchHandshake, Resume};
use debug_mcp::requests;
use debug_mcp::types::{
    AttachOutcome, AttachSpec, FunctionBp, LaunchOutcome, LaunchSpec, SourceBp, StopInfo,
    StopOutcome,
};
use debug_mcp::wire::{DapMessage, Envelope, Request, Response};
use serde_json::Value;

fn json(text: &str) -> Value {
    serde_json::from_str(text).expect("JSON literal")
}

fn launch_spec(stop_on_entry: bool) -> LaunchSpec {
    LaunchSpec {
        program: "/bin/prog".to_string(),
        args: Vec::new(),
        cwd: None,
        env: Vec::new(),
        stop_on_entry,
        source_breakpoints: Vec::new(),
        function_breakpoints: Vec::new(),
    }
}

fn response(command: &str, success: bool, message: &str) -> PendingResult {
    Ok(DapMessage::Response(Response {
        seq: 0,
        ty: "response".to_string(),
        request_seq: 0,
        success,
        command: command.to_string(),
        message: message.to_string(),
        body: None,
    }))
}

fn stop(reason: &str) -> StopOutcome {
    StopOutcome::Stopped(StopInfo {
        reason: reason.to_string(),
        thread_id: 7,
        description: String::new(),
        hit_breakpoint_ids: Vec::new(),
    })
}

/// A debugger that grants everything, except for what `refuse` says, and ends with `outcome`.
struct Peer {
    refuse: Vec<(&'static str, PendingResult)>,
    outcome: Option<StopOutcome>,
    deferred: Option<&'static str>,
    log: Vec<String>,
    sent: Vec<Request>,
}

impl Peer {
    fn new(outcome: Option<StopOutcome>) -> Peer {
        Peer {
            refuse: Vec::new(),
            outcome,
            deferred: None,
            log: Vec::new(),
            sent: Vec::new(),
        }
    }

    fn reply(&mut self, command: &str) -> PendingResult {
        match self.refuse.iter().position(|(name, _)| *name == command) {
            Some(i) => self.refuse.remove(i).1,
            None => response(command, true, ""),
        }
    }

    fn perform(&mut self, action: Action) -> Event {
        match action {
            Action::Send(request) => {
                self.log.push(request.command.clone());
                let reply = self.reply(&request.command);
                self.sent.push(request);
                Event::Replied(reply)
            }
            Action::SendAsync(request) => {
                self.log.push(format!("async {}", request.command));
                self.deferred = Some(if request.command == "launch" {
                    "launch"
                } else {
                    "attach"
                });
                self.sent.push(request);
                Event::Sent(Ok(()))
            }
            Action::AwaitInitialized => {
                self.log.push("(initialized)".to_string());
                Event::Initialized
            }
            Action::RegisterStop => {
                self.log.push("(register)".to_string());
                Event::Registered
            }
            Action::AwaitResponse => {
                self.log.push("(response)".to_string());
                let command = self.deferred.take().expect("sent before");
                Event::Deferred(Some(self.reply(command)))
            }
            Action::AwaitStop => {
                self.log.push("(stop)".to_string());
                Event::Stopped(self.outcome.take())
            }
        }
    }

    fn launch(&mut self, spec: LaunchSpec) -> Result<LaunchOutcome, BackendError> {
        let mut launch = LaunchHandshake::new(spec);
        loop {
            let event = self.perform(launch.action());
            if let Some(result) = launch.step(event, "") {
                return result;
            }
        }
    }

    fn attach(&mut self, spec: AttachSpec) -> Result<AttachOutcome, BackendError> {
        let mut attach = AttachHandshake::new(spec);
        loop {
            let event = self.perform(attach.action());
            if let Some(result) = attach.step(event, "") {
                return result;
            }
        }
    }

    fn arguments(&self, command: &str) -> &Value {
        self.sent
            .iter()
            .find(|request| request.command == command)
            .and_then(|request| request.arguments.as_ref())
            .expect("arguments")
    }
}

#[test]
fn launch_without_stop_on_entry_runs() {
    let mut peer = Peer::new(None);
    assert_eq!(
        peer.launch(launch_spec(false)).expect("launch ok"),
        LaunchOutcome::Running
    );
    assert_eq!(
        peer.log,
        vec![
            "initialize",
            "async launch",
            "(initialized)",
            "setExceptionBreakpoints",
            "configurationDone",
            "(response)",
        ]
    );
    assert_eq!(
        peer.arguments("setExceptionBreakpoints")["filters"],
        Value::Array(vec![])
    );
}

#[test]
fn launch_stop_on_entry_true_returns_stopped() {
    let mut peer = Peer::new(Some(stop("entry")));
    match peer.launch(launch_spec(true)).expect("ok") {
        LaunchOutcome::Stopped(info) => {
            assert_eq!(info.reason, "entry");
            assert_eq!(info.thread_id, 7);
        }
        other => panic!("expected Stopped, got {other:?}"),
    }
}

#[test]
fn launch_timing_stop_before_config_done_response_is_captured() {
    // Who waits for the stop is registered before the configuration ends.
    let mut peer = Peer::new(Some(stop("entry")));
    peer.launch(launch_spec(true)).expect("ok");
    assert_eq!(
        peer.log,
        vec![
            "initialize",
            "async launch",
            "(initialized)",
            "setExceptionBreakpoints",
            "(register)",
            "configurationDone",
            "(response)",
            "(stop)",
        ]
    );
}

#[test]
fn launch_exit_during_returns_exited() {
    let mut peer = Peer::new(Some(StopOutcome::Exited { code: Some(3) }));
    assert_eq!(
        peer.launch(launch_spec(true)).expect("ok"),
        LaunchOutcome::Exited { code: Some(3) }
    );
    for outcome in [Some(StopOutcome::Terminated), None] {
        assert_eq!(
            Peer::new(outcome).launch(launch_spec(true)).expect("ok"),
            LaunchOutcome::Exited { code: None }
        );
    }
}

#[test]
fn launch_flushes_pending_breakpoints() {
    let mut spec = launch_spec(false);
    spec.source_breakpoints = vec![(
        "/src/loop.c".to_string(),
        vec![
            SourceBp {
                line: 6,
                condition: String::new(),
            },
            SourceBp {
                line: 9,
                condition: "i > 3".to_string(),
            },
        ],
    )];
    let mut peer = Peer::new(None);
    assert_eq!(peer.launch(spec).expect("ok"), LaunchOutcome::Running);
    let args = peer.arguments("setBreakpoints");
    assert_eq!(args["source"]["path"], Value::String("/src/loop.c".into()));
    let bps = args["breakpoints"].as_array().expect("breakpoints array");
    assert_eq!(bps.len(), 2);
    assert_eq!(bps[0]["line"], Value::from(6));
    assert!(bps[0].get("condition").is_none(), "empty condition omitted");
    assert_eq!(bps[1]["line"], Value::from(9));
    assert_eq!(bps[1]["condition"], Value::String("i > 3".into()));
    assert_eq!(
        peer.log[3..],
        [
            "setBreakpoints",
            "setExceptionBreakpoints",
            "configurationDone",
            "(response)"
        ]
    );
}

#[test]
fn files_come_in_order_and_functions_last() {
    let mut spec = launch_spec(false);
    spec.source_breakpoints = vec![
        ("/b.c".to_string(), Vec::new()),
        ("/a.c".to_string(), Vec::new()),
    ];
    spec.function_breakpoints = vec![FunctionBp {
        name: "main".to_string(),
        condition: "x".to_string(),
    }];
    let mut peer = Peer::new(None);
    peer.launch(spec).expect("ok");
    assert_eq!(
        peer.log[3..6],
        ["setBreakpoints", "setBreakpoints", "setFunctionBreakpoints"]
    );
    let files: Vec<&Value> = peer
        .sent
        .iter()
        .filter(|request| request.command == "setBreakpoints")
        .map(|request| &request.arguments.as_ref().unwrap()["source"]["path"])
        .collect();
    assert_eq!(files, vec!["/b.c", "/a.c"]);
    assert_eq!(
        *peer.arguments("setFunctionBreakpoints"),
        json(r#"{"breakpoints": [{"name": "main", "condition": "x"}]}"#)
    );
}

#[test]
fn launch_args_omit_stop_on_entry_when_false() {
    let mut peer = Peer::new(None);
    assert!(peer.launch(launch_spec(false)).is_ok());
    let args = peer.arguments("launch");
    assert_eq!(args["program"], Value::String("/bin/prog".into()));
    assert!(
        args.get("stopOnEntry").is_none(),
        "stopOnEntry omitted when false, got {args}"
    );
    assert!(args.get("args").is_none(), "empty args omitted");
    assert!(args.get("cwd").is_none(), "empty cwd omitted");
    assert!(args.get("env").is_none(), "empty env omitted");
}

#[test]
fn launch_args_include_stop_on_entry_when_true() {
    let spec = LaunchSpec {
        program: "/bin/p".to_string(),
        args: vec!["--flag".to_string(), "v".to_string()],
        cwd: Some("/work".to_string()),
        env: vec![("KEY".to_string(), "val".to_string())],
        stop_on_entry: true,
        source_breakpoints: Vec::new(),
        function_breakpoints: Vec::new(),
    };
    let mut peer = Peer::new(Some(stop("entry")));
    assert!(matches!(peer.launch(spec), Ok(LaunchOutcome::Stopped(_))));
    let args = peer.arguments("launch");
    assert_eq!(args["stopOnEntry"], Value::Bool(true));
    assert_eq!(args["args"], json(r#"["--flag", "v"]"#));
    assert_eq!(args["cwd"], Value::String("/work".into()));
    assert_eq!(args["env"], json(r#"{"KEY": "val"}"#));
}

fn refused(command: &'static str, reply: PendingResult, spec: LaunchSpec) -> BackendError {
    let mut peer = Peer::new(None);
    peer.refuse.push((command, reply));
    peer.launch(spec).expect_err("should fail")
}

#[test]
fn launch_initialize_failure_maps_to_go_string() {
    let err = refused(
        "initialize",
        response("initialize", false, "boom"),
        launch_spec(false),
    );
    assert!(
        format!("{err:?}").contains("initialize failed: boom"),
        "got: {err:?}"
    );
}

#[test]
fn launch_failed_response_maps_to_go_string() {
    let err = refused(
        "launch",
        response("launch", false, "no such file"),
        launch_spec(false),
    );
    assert!(
        format!("{err:?}").contains("launch failed: no such file"),
        "got: {err:?}"
    );
}

fn dap(message: &str) -> BackendError {
    BackendError::Dap {
        message: message.to_string(),
    }
}

#[test]
fn each_step_of_a_launch_fails_in_its_own_words() {
    let full = || {
        let mut spec = launch_spec(false);
        spec.source_breakpoints = vec![("/f.c".to_string(), Vec::new())];
        spec.function_breakpoints = vec![FunctionBp {
            name: "f".to_string(),
            condition: String::new(),
        }];
        spec
    };
    for (command, text) in [
        (
            "initialize",
            "initialize request failed: connection closed",
        ),
        (
            "setBreakpoints",
            "setBreakpoints failed for /f.c: connection closed",
        ),
        (
            "setFunctionBreakpoints",
            "setFunctionBreakpoints failed: connection closed",
        ),
        (
            "setExceptionBreakpoints",
            "setExceptionBreakpoints failed: connection closed",
        ),
        (
            "configurationDone",
            "configurationDone failed: connection closed",
        ),
        ("launch", "launch request failed: connection closed"),
    ] {
        assert_eq!(
            refused(command, Err(BackendError::Closed), full()),
            dap(text)
        );
    }
    assert_eq!(
        refused(
            "setBreakpoints",
            response("setBreakpoints", false, ""),
            full()
        ),
        dap("setBreakpoints failed for /f.c: no error message provided by lldb-dap")
    );
    assert_eq!(
        refused("setBreakpoints", response("other", true, ""), full()),
        BackendError::Protocol {
            ty: "response:other".to_string()
        }
    );
    let odd = Ok(DapMessage::Other(Envelope {
        seq: 1,
        ty: "request".to_string(),
        command: Some("x".to_string()),
        event: None,
    }));
    assert_eq!(
        refused("setFunctionBreakpoints", odd, full()),
        BackendError::Protocol {
            ty: "setFunctionBreakpoints:request:x".to_string()
        }
    );
    // Of these two only the arrival of a response matters.
    for command in ["setExceptionBreakpoints", "configurationDone"] {
        let mut peer = Peer::new(None);
        peer.refuse.push((command, response(command, false, "no")));
        assert_eq!(peer.launch(full()), Ok(LaunchOutcome::Running));
    }
}

#[test]
fn refusal_without_words_quotes_the_error_stream() {
    let mut launch = LaunchHandshake::new(launch_spec(false));
    let _ = launch.action();
    let result = launch.step(
        Event::Replied(response("initialize", false, "")),
        "  permission denied\n",
    );
    assert_eq!(
        result,
        Some(Err(dap("initialize failed: permission denied")))
    );
}

#[test]
fn launch_that_cannot_be_sent_or_is_torn_down() {
    let mut launch = LaunchHandshake::new(launch_spec(false));
    assert_eq!(
        launch.step(Event::Replied(response("initialize", true, "")), ""),
        None
    );
    assert!(matches!(launch.action(), Action::SendAsync(_)));
    assert_eq!(
        launch.step(Event::Sent(Err(BackendError::Send("pipe".to_string()))), ""),
        Some(Err(dap(
            "launch request failed: failed to send request: pipe"
        )))
    );

    let mut attach = AttachHandshake::new(AttachSpec {
        pid: Some(1),
        wait_for: None,
    });
    let mut peer = Peer::new(None);
    loop {
        let action = attach.action();
        if matches!(action, Action::AwaitResponse) {
            break;
        }
        let event = peer.perform(action);
        assert!(attach.step(event, "").is_none());
    }
    assert_eq!(
        attach.step(Event::Deferred(None), ""),
        Some(Err(BackendError::Closed))
    );
}

#[test]
fn attach_registers_waiter_after_config_done_and_no_flush() {
    let mut peer = Peer::new(Some(stop("signal")));
    let spec = AttachSpec {
        pid: Some(4321),
        wait_for: None,
    };
    match peer.attach(spec).expect("ok") {
        AttachOutcome::Stopped(info) => assert_eq!(info.reason, "signal"),
        other => panic!("expected Stopped, got {other:?}"),
    }
    let args = peer.arguments("attach");
    assert_eq!(args["pid"], Value::from(4321));
    assert_eq!(args["stopOnEntry"], Value::Bool(true));
    assert!(args.get("waitFor").is_none(), "pid path omits waitFor");
    assert_eq!(
        peer.log,
        vec![
            "initialize",
            "async attach",
            "(initialized)",
            "setExceptionBreakpoints",
            "configurationDone",
            "(response)",
            "(register)",
            "(stop)",
        ]
    );
}

#[test]
fn attach_wait_for_sets_program_and_wait_for() {
    let mut peer = Peer::new(Some(stop("entry")));
    let spec = AttachSpec {
        pid: None,
        wait_for: Some("myproc".to_string()),
    };
    assert!(matches!(peer.attach(spec), Ok(AttachOutcome::Stopped(_))));
    let args = peer.arguments("attach");
    assert_eq!(args["waitFor"], Value::Bool(true));
    assert_eq!(args["program"], Value::String("myproc".into()));
    assert!(args.get("pid").is_none(), "wait_for path omits pid");
}

#[test]
fn attach_exit_during_returns_terminated() {
    let spec = || AttachSpec {
        pid: Some(9),
        wait_for: None,
    };
    assert_eq!(
        Peer::new(Some(StopOutcome::Terminated))
            .attach(spec())
            .expect("ok"),
        AttachOutcome::Terminated
    );
    assert_eq!(
        Peer::new(None).attach(spec()).expect("ok"),
        AttachOutcome::Terminated
    );
    assert_eq!(
        Peer::new(Some(StopOutcome::Exited { code: Some(2) }))
            .attach(spec())
            .expect("ok"),
        AttachOutcome::Exited { code: Some(2) }
    );
}

#[test]
fn attach_failures() {
    for (command, reply, text) in [
        (
            "initialize",
            response("initialize", false, "boom"),
            "initialize failed: boom",
        ),
        (
            "setExceptionBreakpoints",
            Err(BackendError::Timeout),
            "setExceptionBreakpoints failed: operation timed out",
        ),
        (
            "configurationDone",
            Err(BackendError::Timeout),
            "configurationDone failed: operation timed out",
        ),
        (
            "attach",
            response("attach", false, "denied"),
            "attach failed: denied",
        ),
        (
            "attach",
            Err(BackendError::Closed),
            "attach request failed: connection closed",
        ),
    ] {
        let mut peer = Peer::new(None);
        peer.refuse.push((command, reply));
        let spec = AttachSpec {
            pid: Some(9),
            wait_for: None,
        };
        assert_eq!(peer.attach(spec), Err(dap(text)));
    }
}

fn resume(peer: &mut Peer, request: Request) -> Result<StopOutcome, BackendError> {
    let mut resume = Resume::new(request);
    loop {
        let event = peer.perform(resume.action());
        if let Some(result) = resume.step(event) {
            return result;
        }
    }
}

#[test]
fn cont_registers_waiter_before_send_and_returns_stop() {
    let mut peer = Peer::new(Some(stop("breakpoint")));
    match resume(&mut peer, requests::cont(3)).expect("ok") {
        StopOutcome::Stopped(info) => assert_eq!(info.reason, "breakpoint"),
        other => panic!("expected Stopped, got {other:?}"),
    }
    assert_eq!(peer.log, vec!["(register)", "continue", "(stop)"]);
    assert_eq!(peer.arguments("continue")["threadId"], Value::from(3));
}

#[test]
fn cont_exit_maps_to_exited() {
    let mut peer = Peer::new(Some(StopOutcome::Exited { code: Some(0) }));
    assert_eq!(
        resume(&mut peer, requests::cont(1)).expect("ok"),
        StopOutcome::Exited { code: Some(0) }
    );
    let mut torn = Peer::new(None);
    assert_eq!(
        resume(&mut torn, requests::cont(1)).expect("ok"),
        StopOutcome::Terminated
    );
}

#[test]
fn resume_that_fails_says_so_and_a_refusal_is_not_checked() {
    let mut peer = Peer::new(None);
    peer.refuse.push(("continue", Err(BackendError::Closed)));
    assert_eq!(
        resume(&mut peer, requests::cont(1)),
        Err(BackendError::Send("connection closed".to_string()))
    );
    let mut peer = Peer::new(Some(StopOutcome::Terminated));
    peer.refuse
        .push(("continue", response("continue", false, "busy")));
    assert_eq!(
        resume(&mut peer, requests::cont(1)),
        Ok(StopOutcome::Terminated)
    );
}
