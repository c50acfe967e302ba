//! The client that talks in lines of JSON, and the live suite's conditions.

use debug_mcp::error::BackendError;
use debug_mcp::harness::{
    expect_error, expect_json_obj, json_obj, live_prereqs, lldb_dap_available, obj, should_skip,
    Fixture, ToolOutcome,
};
use debug_mcp::stdio::{
    built_binary, call_tool, call_tool_message, go_reference_binary, initialize_message,
    initialized_message, is_response, line_of, list_tools, list_tools_message, read_response,
    rust_binary, server_info, tool_call_of, Reading, StdioMcp,
};
use serde_json::Value;

fn json(text: &str) -> Value {
    serde_json::from_str(text).expect("JSON literal")
}

#[test]
fn ids_count_from_one() {
    let mut client = StdioMcp::new();
    assert_eq!(client.alloc_id(), 1);
    assert_eq!(client.alloc_id(), 2);
    assert_eq!(client.next_id, 3);
}

#[test]
fn messages_are_exact() {
    assert_eq!(
        initialize_message(1),
        json(
            r#"{"jsonrpc": "2.0", "id": 1, "method": "initialize", "params": {
                "protocolVersion": "2024-11-05", "capabilities": {},
                "clientInfo": {"name": "parity-harness", "version": "1.0.0"}}}"#
        )
    );
    assert_eq!(
        initialized_message(),
        json(r#"{"jsonrpc": "2.0", "method": "notifications/initialized"}"#)
    );
    assert_eq!(
        list_tools_message(2),
        json(r#"{"jsonrpc": "2.0", "id": 2, "method": "tools/list", "params": {}}"#)
    );
    assert_eq!(
        call_tool_message(3, "launch", json(r#"{"program": "/x"}"#)),
        json(
            r#"{"jsonrpc": "2.0", "id": 3, "method": "tools/call",
                "params": {"name": "launch", "arguments": {"program": "/x"}}}"#
        )
    );
}

#[test]
fn a_message_is_one_line_that_reads_back() {
    let message = call_tool_message(9, "evaluate", json(r#"{"expression": "a\nb \"é\""}"#));
    let line = line_of(&message);
    assert_eq!(line.matches('\n').count(), 1);
    assert!(line.ends_with('\n'));
    match read_response(Some(&line), 9) {
        Reading::Found(value) => assert_eq!(value, message),
        other => panic!("expected the message, got {other:?}"),
    }
    assert!(matches!(read_response(Some(&line), 8), Reading::Skip));
    assert_eq!(line_of(&json("[1, null]")), "[1,null]\n");
}

#[test]
fn other_lines_are_skipped() {
    for line in [
        "",
        " \t\r\n",
        "starting up...\n",
        r#"{"jsonrpc": "2.0", "method": "note"}"#,
        r#"{"id": "1"}"#,
        r#"{"id": 2}"#,
        r#"{"id": 1.0}"#,
        "[1]",
    ] {
        assert!(
            matches!(read_response(Some(line), 1), Reading::Skip),
            "{line}"
        );
    }
    assert!(matches!(
        read_response(Some("  {\"id\": 1}\r\n"), 1),
        Reading::Found(_)
    ));
    match read_response(None, 4) {
        Reading::Closed(reason) => {
            assert_eq!(reason, "server closed stdout before responding to id 4")
        }
        other => panic!("expected the end, got {other:?}"),
    }
    assert!(is_response(&json(r#"{"id": -7}"#), -7));
    assert!(!is_response(&json("null"), 0));
}

#[test]
fn server_info_or_null() {
    let response = json(r#"{"id": 1, "result": {"serverInfo": {"name": "debug-mcp"}}}"#);
    assert_eq!(server_info(&response), json(r#"{"name": "debug-mcp"}"#));
    assert_eq!(server_info(&json(r#"{"result": {}}"#)), Value::Null);
    assert_eq!(server_info(&json(r#"{"error": {}}"#)), Value::Null);
}

#[test]
fn tools_or_none() {
    let response = json(r#"{"result": {"tools": [{"name": "launch"}, {"name": "attach"}]}}"#);
    assert_eq!(
        list_tools(&response),
        vec![json(r#"{"name": "launch"}"#), json(r#"{"name": "attach"}"#)]
    );
    assert!(list_tools(&json(r#"{"result": {"tools": {}}}"#)).is_empty());
    assert!(list_tools(&json(r#"{"result": 1}"#)).is_empty());
    assert!(list_tools(&json("{}")).is_empty());
}

#[test]
fn results_of_calls() {
    let got = call_tool(&json(
        r#"{"result": {"content": [{"type": "text", "text": "{\"a\": 1}"}]}}"#,
    ));
    assert!(!got.is_error);
    assert_eq!(got.text, "{\"a\": 1}");
    assert_eq!(got.json, Some(json(r#"{"a": 1}"#)));

    let got = call_tool(&json(
        r#"{"result": {"isError": true, "content": [{"text": "no session"}, {"text": "x"}]}}"#,
    ));
    assert!(got.is_error);
    assert_eq!(got.text, "no session");
    assert_eq!(
        got.json,
        Some(json(r#"{"__is_error": true, "__text": "no session"}"#))
    );

    // An error whose text is JSON is wrapped all the same.
    let got = call_tool(&json(
        r#"{"result": {"isError": true, "content": [{"text": "{\"a\": 1}"}]}}"#,
    ));
    assert_eq!(
        got.json,
        Some(json(r#"{"__is_error": true, "__text": "{\"a\": 1}"}"#))
    );

    // A success whose text is plain gives no JSON.
    let got = call_tool(&json(
        r#"{"result": {"isError": false, "content": [{"text": "Program exited"}]}}"#,
    ));
    assert!(!got.is_error);
    assert_eq!(got.text, "Program exited");
    assert_eq!(got.json, None);

    for odd in [
        "{}",
        r#"{"result": null}"#,
        r#"{"result": {"content": []}}"#,
        r#"{"result": {"content": [{"text": 1}], "isError": "yes"}}"#,
        r#"{"result": {"content": {"text": "x"}}}"#,
    ] {
        let got = call_tool(&json(odd));
        assert!(!got.is_error, "{odd}");
        assert_eq!(got.text, "", "{odd}");
        assert_eq!(got.json, None, "{odd}");
    }
    let made = tool_call_of(false, "t".to_string(), Some(Value::Null));
    assert!(!made.is_error);
    assert_eq!((made.text.as_str(), made.json), ("t", Some(Value::Null)));
    let made = tool_call_of(true, "t".to_string(), Some(Value::Null));
    assert!(made.is_error);
    assert_eq!(made.text, "t");
    assert_eq!(
        made.json,
        Some(json(r#"{"__is_error": true, "__text": "t"}"#))
    );
}

#[test]
fn binaries() {
    let path = || Some("/path/x".to_string());
    let named = |s: &str| Some(s.to_string());
    assert_eq!(go_reference_binary(named("/x"), true, path()), named("/x"));
    assert_eq!(go_reference_binary(named("/x"), false, path()), path());
    assert_eq!(go_reference_binary(named(""), true, None), None);
    assert_eq!(go_reference_binary(None, true, path()), path());
    assert_eq!(built_binary(Some("/t"), "/w/target"), "/t/debug/debug-mcp");
    assert_eq!(
        built_binary(None, "/w/target"),
        "/w/target/debug/debug-mcp"
    );
    let built = || "/t/debug/debug-mcp".to_string();
    assert_eq!(
        rust_binary(named("/x"), true, built(), true, path()),
        named("/x")
    );
    assert_eq!(
        rust_binary(named(""), true, built(), true, path()),
        Some(built())
    );
    assert_eq!(rust_binary(None, false, built(), false, path()), path());
    assert_eq!(rust_binary(None, false, built(), false, None), None);
}

#[test]
fn objects_from_pairs() {
    let map = obj(&[
        ("program", Value::from("/x")),
        ("n", Value::from(1)),
        ("n", Value::from(2)),
    ]);
    assert_eq!(Value::Object(map), json(r#"{"program": "/x", "n": 2}"#));
    assert!(obj(&[]).is_empty());
}

#[test]
fn tool_outcomes() {
    let good = ToolOutcome::Json(json(r#"{"status": "stopped"}"#));
    assert_eq!(
        Value::Object(expect_json_obj("status", &good)),
        json(r#"{"status": "stopped"}"#)
    );
    assert!(json_obj(&ToolOutcome::Json(json("[]"))).is_none());
    assert!(json_obj(&ToolOutcome::Text("x".to_string())).is_none());
    assert!(json_obj(&ToolOutcome::Error("x".to_string())).is_none());
    assert_eq!(
        expect_error("launch", &ToolOutcome::Error("no".to_string())),
        "no"
    );
}

#[test]
fn live_suite_conditions() {
    let fixture = |shown: &str, exists: bool| Fixture {
        shown: shown.to_string(),
        exists,
    };
    assert_eq!(
        live_prereqs(true, &vec![fixture("a", true), fixture("b", true)]),
        Ok(())
    );
    assert_eq!(live_prereqs(true, &Vec::new()), Ok(()));
    let missing = live_prereqs(
        true,
        &vec![
            fixture("a", true),
            fixture("\"/t/loop\"", false),
            fixture("c", false),
        ],
    );
    assert_eq!(
        missing,
        Err(
            "fixture \"/t/loop\" missing — run `make -C testdata` to build the C fixtures"
                .to_string()
        )
    );
    let absent = live_prereqs(false, &vec![fixture("a", false)]);
    assert_eq!(
        absent,
        Err("lldb-dap not found (set LLDB_DAP_PATH or install lldb-dap)".to_string())
    );
    assert_eq!(should_skip("t", &Ok(())), None);
    assert_eq!(
        should_skip("t", &absent),
        Some("SKIP t: lldb-dap not found (set LLDB_DAP_PATH or install lldb-dap)".to_string())
    );
    assert!(!lldb_dap_available(&Err(BackendError::Timeout)));
}
