//! The single requests, and what their responses say.

use debug_mcp::args::{
    attach_args_to_value, launch_args_to_value, LldbAttachArgs, LldbLaunchArgs,
};
use debug_mcp::backend::{
    check_response, diagnostic, message_type_label, send_checked, step_request, LldbBackend,
};
use debug_mcp::body::{
    self, DapBreakpoint, DapInstruction, DapScope, DapSource, DapStackFrame, DapThread,
    DapVariable, DisassembleBody, EvaluateBody, ReadMemoryBody, ScopesBody, SetBreakpointsBody,
    StackTraceBody, ThreadsBody, VariablesBody,
};
use debug_mcp::error::BackendError;
use debug_mcp::requests;
use debug_mcp::types::{EvalMode, FunctionBp, Granularity, SourceBp, StepKind};
use debug_mcp::wire::{DapMessage, Envelope, Event, Request, Response};
use serde_json::Value;

fn json(text: &str) -> Value {
    serde_json::from_str(text).expect("JSON literal")
}

fn arguments(request: &Request) -> &Value {
    request.arguments.as_ref().expect("arguments")
}

fn response(command: &str, success: bool, message: &str) -> DapMessage {
    DapMessage::Response(Response {
        seq: 0,
        ty: "response".to_string(),
        request_seq: 0,
        success,
        command: command.to_string(),
        message: message.to_string(),
        body: None,
    })
}

fn dap(message: &str) -> BackendError {
    BackendError::Dap {
        message: message.to_string(),
    }
}

#[test]
fn initialize_request_is_exact() {
    let request = requests::initialize();
    assert_eq!(request.command, "initialize");
    assert_eq!(request.ty, "request");
    assert_eq!(request.seq, 0);
    assert_eq!(
        *arguments(&request),
        json(
            r#"{"clientID": "lldb-debug-mcp", "adapterID": "lldb-dap", "pathFormat": "path",
                "linesStartAt1": true, "columnsStartAt1": true, "supportsVariableType": true,
                "supportsRunInTerminalRequest": false}"#
        )
    );
}

#[test]
fn set_source_breakpoints_request_and_mapping() {
    let bps = vec![
        SourceBp {
            line: 6,
            condition: String::new(),
        },
        SourceBp {
            line: 9,
            condition: "x>0".to_string(),
        },
    ];
    let request = requests::set_breakpoints("/f.c", &bps);
    assert_eq!(request.command, "setBreakpoints");
    let args = arguments(&request);
    assert_eq!(args["source"]["path"], Value::String("/f.c".into()));
    assert_eq!(args["breakpoints"][0]["line"], Value::from(6));
    assert!(args["breakpoints"][0].get("condition").is_none());
    assert_eq!(
        args["breakpoints"][1]["condition"],
        Value::String("x>0".into())
    );
    let got = body::breakpoints(Ok(SetBreakpointsBody {
        breakpoints: vec![
            DapBreakpoint {
                id: 10,
                line: 6,
                verified: true,
                message: String::new(),
            },
            DapBreakpoint {
                id: 11,
                line: 9,
                verified: false,
                message: "pending".to_string(),
            },
        ],
    }))
    .expect("ok");
    assert_eq!(got.len(), 2);
    assert_eq!(got[0].id, 10);
    assert!(got[0].verified);
    assert_eq!(got[0].line, 6);
    assert_eq!(got[1].id, 11);
    assert!(!got[1].verified);
    assert_eq!(got[1].message, "pending");
}

#[test]
fn set_function_breakpoints_request_and_mapping() {
    let bps = vec![FunctionBp {
        name: "main".to_string(),
        condition: String::new(),
    }];
    let request = requests::set_function_breakpoints(&bps);
    assert_eq!(request.command, "setFunctionBreakpoints");
    assert_eq!(
        *arguments(&request),
        json(r#"{"breakpoints": [{"name": "main"}]}"#)
    );
    let got = body::breakpoints(Ok(SetBreakpointsBody {
        breakpoints: vec![DapBreakpoint {
            id: 5,
            verified: true,
            line: 0,
            message: String::new(),
        }],
    }))
    .expect("ok");
    assert_eq!(got.len(), 1);
    assert_eq!(got[0].id, 5);
    assert!(got[0].verified);
}

#[test]
fn breakpoint_failure_maps_to_dap_error() {
    let err = send_checked(
        "setBreakpoints",
        Ok(response("setBreakpoints", false, "bad file")),
        "",
    )
    .expect_err("fail");
    assert!(
        format!("{err:?}").contains("setBreakpoints failed: bad file"),
        "got {err:?}"
    );
}

#[test]
fn answers_are_checked() {
    let ok = send_checked("threads", Ok(response("threads", true, "")), "x").expect("granted");
    assert_eq!(ok.command, "threads");
    assert_eq!(
        send_checked("threads", Err(BackendError::Closed), ""),
        Err(dap("threads request failed: connection closed"))
    );
    assert_eq!(
        send_checked("threads", Ok(DapMessage::Event(Event::Thread)), ""),
        Err(BackendError::Protocol {
            ty: "threads:event".to_string()
        })
    );
    assert_eq!(
        check_response("launch", "start", response("launch", false, ""), " why \n"),
        Err(dap("start failed: why"))
    );
}

#[test]
fn a_refusal_is_never_silent() {
    assert_eq!(diagnostic("said", "written"), "said");
    assert_eq!(diagnostic("", "\n written\t"), "written");
    assert_eq!(
        diagnostic("", " \r\n"),
        "no error message provided by lldb-dap"
    );
}

#[test]
fn labels() {
    assert_eq!(
        message_type_label(&response("next", true, "")),
        "response:next"
    );
    assert_eq!(
        message_type_label(&DapMessage::Event(Event::Terminated)),
        "event"
    );
    let other = |event: Option<&str>, command: Option<&str>| {
        message_type_label(&DapMessage::Other(Envelope {
            seq: 1,
            ty: "request".to_string(),
            command: command.map(str::to_string),
            event: event.map(str::to_string),
        }))
    };
    assert_eq!(other(Some("x"), Some("y")), "event:x");
    assert_eq!(other(None, Some("y")), "request:y");
    assert_eq!(other(None, None), "request");
}

#[test]
fn step_over_uses_next_with_granularity() {
    let request = step_request(StepKind::Over, 1, Some(Granularity::Instruction));
    assert_eq!(request.command, "next", "step_over → DAP `next`");
    assert_eq!(
        *arguments(&request),
        json(r#"{"threadId": 1, "granularity": "instruction"}"#)
    );
}

#[test]
fn step_into_uses_step_in_with_line_granularity() {
    let request = step_request(StepKind::Into, 1, Some(Granularity::Line));
    assert_eq!(request.command, "stepIn");
    assert_eq!(
        arguments(&request)["granularity"],
        Value::String("line".into())
    );
    let plain = step_request(StepKind::Into, 4, None);
    assert_eq!(*arguments(&plain), json(r#"{"threadId": 4}"#));
}

#[test]
fn step_out_uses_step_out_without_granularity() {
    let request = step_request(StepKind::Out, 1, Some(Granularity::Instruction));
    assert_eq!(request.command, "stepOut");
    assert!(
        arguments(&request).get("granularity").is_none(),
        "step_out never carries granularity"
    );
}

#[test]
fn pause_sends_thread_zero_and_returns_immediately() {
    let request = requests::pause();
    assert_eq!(request.command, "pause");
    assert_eq!(
        arguments(&request)["threadId"],
        Value::from(0),
        "pause all threads (id 0)"
    );
    assert!(send_checked("pause", Ok(response("pause", true, "")), "").is_ok());
}

#[test]
fn threads_mapping() {
    assert_eq!(requests::threads().command, "threads");
    assert_eq!(requests::threads().arguments, None);
    let got = body::threads(Ok(ThreadsBody {
        threads: vec![
            DapThread {
                id: 1,
                name: "main".to_string(),
            },
            DapThread {
                id: 2,
                name: "worker".to_string(),
            },
        ],
    }))
    .expect("ok");
    assert_eq!(got.len(), 2);
    assert_eq!(got[0].id, 1);
    assert_eq!(got[0].name, "main");
    assert_eq!(got[1].name, "worker");
}

#[test]
fn stack_trace_request_and_mapping() {
    let request = requests::stack_trace(2, 0, 20);
    assert_eq!(request.command, "stackTrace");
    assert_eq!(
        *arguments(&request),
        json(r#"{"threadId": 2, "startFrame": 0, "levels": 20}"#)
    );
    let (frames, total) = body::stack_trace(Ok(StackTraceBody {
        stack_frames: vec![
            DapStackFrame {
                id: 100,
                name: "main".to_string(),
                line: 6,
                source: Some(DapSource {
                    path: "/loop.c".to_string(),
                }),
                instruction_pointer_reference: "0xdead".to_string(),
            },
            DapStackFrame {
                id: 101,
                name: "_start".to_string(),
                line: 0,
                source: None,
                instruction_pointer_reference: String::new(),
            },
        ],
        total_frames: 2,
    }))
    .expect("ok");
    assert_eq!(total, 2);
    assert_eq!(frames.len(), 2);
    assert_eq!(frames[0].index, 0);
    assert_eq!(frames[0].id, 100);
    assert_eq!(frames[0].name, "main");
    assert_eq!(frames[0].source_path.as_deref(), Some("/loop.c"));
    assert_eq!(frames[0].line, 6);
    assert_eq!(frames[0].instruction_pointer.as_deref(), Some("0xdead"));
    assert_eq!(frames[1].index, 1);
    assert_eq!(frames[1].source_path, None);
    assert_eq!(frames[1].instruction_pointer, None);
}

#[test]
fn frame_with_an_empty_source_path_has_none() {
    let (frames, total) = body::stack_trace(Ok(StackTraceBody {
        stack_frames: vec![DapStackFrame {
            id: 102,
            name: "?".to_string(),
            line: 0,
            source: Some(DapSource {
                path: String::new(),
            }),
            instruction_pointer_reference: String::new(),
        }],
        total_frames: 9,
    }))
    .expect("ok");
    assert_eq!(total, 9);
    assert_eq!(frames[0].source_path, None);
}

#[test]
fn scopes_request_and_mapping() {
    let request = requests::scopes(100);
    assert_eq!(request.command, "scopes");
    assert_eq!(arguments(&request)["frameId"], Value::from(100));
    let got = body::scopes(Ok(ScopesBody {
        scopes: vec![
            DapScope {
                name: "Locals".to_string(),
                variables_reference: 1,
            },
            DapScope {
                name: "Registers".to_string(),
                variables_reference: 2,
            },
        ],
    }))
    .expect("ok");
    assert_eq!(got.len(), 2);
    assert_eq!(got[0].name, "Locals");
    assert_eq!(got[0].variables_reference, 1);
    assert_eq!(got[1].variables_reference, 2);
}

#[test]
fn variables_request_and_mapping() {
    let request = requests::variables(1);
    assert_eq!(request.command, "variables");
    assert_eq!(arguments(&request)["variablesReference"], Value::from(1));
    let variable = |name: &str, value: &str, ty: &str, reference: i64, named: i64| DapVariable {
        name: name.to_string(),
        value: value.to_string(),
        ty: ty.to_string(),
        variables_reference: reference,
        named_variables: named,
        indexed_variables: 0,
    };
    let got = body::variables(Ok(VariablesBody {
        variables: vec![
            variable("i", "0", "int", 0, 0),
            variable("p", "0x1", "Point *", 7, 2),
        ],
    }))
    .expect("ok");
    assert_eq!(got.len(), 2);
    assert_eq!(got[0].name, "i");
    assert_eq!(got[0].value, "0");
    assert_eq!(got[0].ty, "int");
    assert_eq!(got[0].variables_reference, 0);
    assert_eq!(got[1].variables_reference, 7);
    assert_eq!(got[1].named, 2);
    assert_eq!(got[1].indexed, 0);
}

#[test]
fn evaluate_expression_uses_variables_context_with_frame() {
    let backend = LldbBackend::new(true, None);
    let request = backend.evaluate_request("i + 1", Some(100), EvalMode::Expression);
    assert_eq!(request.command, "evaluate");
    assert_eq!(
        *arguments(&request),
        json(r#"{"context": "variables", "frameId": 100, "expression": "i + 1"}"#)
    );
    let got = body::evaluate(Ok(EvaluateBody {
        result: "1".to_string(),
        ty: "int".to_string(),
        variables_reference: 0,
    }))
    .expect("ok");
    assert_eq!(got.result, "1");
    assert_eq!(got.ty, "int");
    assert_eq!(got.variables_reference, 0);
}

#[test]
fn evaluate_repl_capable_no_backtick_no_frame() {
    let backend = LldbBackend::new(true, None);
    let request = backend.evaluate_request("register read", Some(5), EvalMode::Repl);
    assert_eq!(
        *arguments(&request),
        json(r#"{"context": "repl", "expression": "register read"}"#)
    );
}

#[test]
fn evaluate_repl_not_capable_prepends_backtick() {
    let backend = LldbBackend::new(false, None);
    let request = backend.evaluate_request("register read", None, EvalMode::Repl);
    assert_eq!(
        *arguments(&request),
        json(r#"{"context": "repl", "expression": "`register read"}"#)
    );
    let expression = backend.evaluate_request("i", None, EvalMode::Expression);
    assert_eq!(
        *arguments(&expression),
        json(r#"{"context": "variables", "expression": "i"}"#)
    );
}

#[test]
fn read_memory_base64_decodes_to_bytes() {
    let request = requests::read_memory("0x1000", 4);
    assert_eq!(request.command, "readMemory");
    assert_eq!(
        *arguments(&request),
        json(r#"{"memoryReference": "0x1000", "count": 4}"#)
    );
    let got = body::read_memory(Ok(ReadMemoryBody {
        address: "0x1000".to_string(),
        data: "SInn6A==".to_string(),
    }))
    .expect("ok");
    assert_eq!(got.address, "0x1000");
    assert_eq!(got.data, vec![0x48, 0x89, 0xe7, 0xe8]);
}

#[test]
fn read_memory_empty_data_is_empty_bytes() {
    let got = body::read_memory(Ok(ReadMemoryBody {
        address: "0x2000".to_string(),
        data: String::new(),
    }))
    .expect("ok");
    assert_eq!(got.address, "0x2000");
    assert!(got.data.is_empty());
}

#[test]
fn read_memory_that_is_not_base64_fails() {
    let err = body::read_memory(Ok(ReadMemoryBody {
        address: "0x2000".to_string(),
        data: "!!!!".to_string(),
    }))
    .expect_err("bad data");
    assert!(
        matches!(&err, BackendError::Dap { message }
            if message.starts_with("failed to decode memory data: ") && message.len() > 30),
        "got {err:?}"
    );
    assert_eq!(
        body::memory_of("0x1".to_string(), Err("odd".to_string())),
        Err(dap("failed to decode memory data: odd"))
    );
}

#[test]
fn disassemble_request_and_raw_field_passthrough() {
    let request = requests::disassemble("0xdead", 2);
    assert_eq!(request.command, "disassemble");
    assert_eq!(
        *arguments(&request),
        json(r#"{"memoryReference": "0xdead", "instructionCount": 2}"#)
    );
    let got = body::disassemble(Ok(DisassembleBody {
        instructions: vec![
            DapInstruction {
                address: "0xdead".to_string(),
                instruction: "movq %rsp, %rdi".to_string(),
                instruction_bytes: "48 89 e7".to_string(),
                symbol: "_start".to_string(),
                location: Some(DapSource {
                    path: "/start.s".to_string(),
                }),
                line: 3,
            },
            DapInstruction {
                address: "0xdeb0".to_string(),
                instruction: "callq 0x100".to_string(),
                instruction_bytes: String::new(),
                symbol: String::new(),
                location: None,
                line: 0,
            },
        ],
    }))
    .expect("ok");
    assert_eq!(got.len(), 2);
    assert_eq!(got[0].address, "0xdead");
    assert_eq!(got[0].instruction, "movq %rsp, %rdi");
    assert_eq!(got[0].bytes, "48 89 e7");
    assert_eq!(got[0].symbol, "_start");
    assert_eq!(got[0].source_path.as_deref(), Some("/start.s"));
    assert_eq!(got[0].line, 3);
    assert_eq!(got[1].address, "0xdeb0");
    assert_eq!(got[1].bytes, "");
    assert_eq!(got[1].symbol, "");
    assert_eq!(got[1].source_path, None);
}

#[test]
fn malformed_bodies_fail() {
    let want = dap("malformed response body: bad");
    let bad = || "bad".to_string();
    assert_eq!(body::stack_trace(Err(bad())), Err(dap("malformed response body: bad")));
    assert_eq!(body::threads(Err(bad())), Err(dap("malformed response body: bad")));
    assert_eq!(body::scopes(Err(bad())), Err(dap("malformed response body: bad")));
    assert_eq!(body::variables(Err(bad())), Err(dap("malformed response body: bad")));
    assert_eq!(body::evaluate(Err(bad())), Err(dap("malformed response body: bad")));
    assert_eq!(body::read_memory(Err(bad())), Err(dap("malformed response body: bad")));
    assert_eq!(body::disassemble(Err(bad())), Err(dap("malformed response body: bad")));
    assert_eq!(body::breakpoints(Err(bad())), Err(want));
}

#[test]
fn missing_bodies_count_as_empty() {
    assert_eq!(body::decode(&None), json("{}"));
    assert_eq!(body::decode(&Some(Value::Null)), json("{}"));
    assert_eq!(
        body::decode(&Some(json(r#"{"threads": []}"#))),
        json(r#"{"threads": []}"#)
    );
    assert_eq!(body::decode(&Some(json("[1]"))), json("[1]"));
}

#[test]
fn supports_command_repl_mode_reflects_capability() {
    assert!(LldbBackend::new(true, None).supports_command_repl_mode());
    assert!(!LldbBackend::new(false, None).supports_command_repl_mode());
}

#[test]
fn debugger_pid_is_none_without_a_child() {
    assert_eq!(LldbBackend::new(true, None).debugger_pid(), None);
    assert_eq!(LldbBackend::new(true, Some(77)).debugger_pid(), Some(77));
}

#[test]
fn disconnect_and_configuration_requests() {
    assert_eq!(
        *arguments(&requests::disconnect(true)),
        json(r#"{"terminateDebuggee": true}"#)
    );
    assert_eq!(requests::configuration_done().arguments, None);
    assert_eq!(
        *arguments(&requests::set_exception_breakpoints()),
        json(r#"{"filters": []}"#)
    );
    assert_eq!(requests::launch(json("[]")).command, "launch");
    assert_eq!(*arguments(&requests::attach(json("[1]"))), json("[1]"));
}

#[test]
fn launch_arguments_in_full() {
    let mut a = LldbLaunchArgs::new(
        "/p".to_string(),
        vec!["a".to_string()],
        Some("/d".to_string()),
        vec![
            ("K".to_string(), "1".to_string()),
            ("K".to_string(), "2".to_string()),
        ],
        true,
    );
    a.init_commands = vec!["i".to_string()];
    a.pre_run_commands = vec!["p".to_string()];
    a.post_run_commands = vec!["q".to_string()];
    a.stop_commands = vec!["s".to_string()];
    a.exit_commands = vec!["e".to_string()];
    a.terminate_commands = vec!["t".to_string(), "u".to_string()];
    assert_eq!(
        launch_args_to_value(&a),
        json(
            r#"{"program": "/p", "args": ["a"], "cwd": "/d", "env": {"K": "2"},
                "stopOnEntry": true, "initCommands": ["i"], "preRunCommands": ["p"],
                "postRunCommands": ["q"], "stopCommands": ["s"], "exitCommands": ["e"],
                "terminateCommands": ["t", "u"]}"#
        )
    );
    let bare = LldbLaunchArgs::new(String::new(), Vec::new(), None, Vec::new(), false);
    assert_eq!(launch_args_to_value(&bare), json(r#"{"program": ""}"#));
}

#[test]
fn attach_arguments_in_full() {
    let mut a = LldbAttachArgs::new(Some(12), Some("ignored".to_string()));
    a.attach_commands = vec!["c".to_string()];
    a.core_file = "/core".to_string();
    assert_eq!(
        attach_args_to_value(&a),
        json(
            r#"{"pid": 12, "stopOnEntry": true, "attachCommands": ["c"], "coreFile": "/core"}"#
        )
    );
    for pid in [None, Some(0), Some(-3)] {
        assert_eq!(
            attach_args_to_value(&LldbAttachArgs::new(pid, None)),
            json(r#"{"waitFor": true, "stopOnEntry": true}"#)
        );
    }
    let mut silent = LldbAttachArgs::new(Some(1), None);
    silent.pid = 0;
    silent.stop_on_entry = false;
    assert_eq!(attach_args_to_value(&silent), json("{}"));
}
