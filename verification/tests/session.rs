//! The session: its states, its breakpoints, its output, and what a backend's events do to it.

use std::collections::HashMap;

use debug_mcp::breakpoint::BreakpointInfo;
use debug_mcp::manager::SessionManager;
use debug_mcp::output_buffer::{OutputBuffer, OutputEntry};
use debug_mcp::pump::pump_event;
use debug_mcp::state::State;
use debug_mcp::types::{BackendEvent, StopInfo};

const MAX_SIZE: usize = 1_048_576;

fn source_info(id: i64, file: &str, line: i64) -> BreakpointInfo {
    BreakpointInfo {
        id,
        ty: "source".to_string(),
        file: file.to_string(),
        line,
        function: String::new(),
        condition: String::new(),
        verified: true,
    }
}

fn function_info(id: i64, function: &str) -> BreakpointInfo {
    BreakpointInfo {
        id,
        ty: "function".to_string(),
        file: String::new(),
        line: 0,
        function: function.to_string(),
        condition: String::new(),
        verified: true,
    }
}

#[test]
fn add_source_breakpoints_multiple_files() {
    let mut sm = SessionManager::new();

    let bp1 = sm.add_source_breakpoint("/src/main.go", 10, "");
    let bp2 = sm.add_source_breakpoint("/src/main.go", 25, "x > 5");
    let bp3 = sm.add_source_breakpoint("/src/util.go", 42, "");

    assert_eq!((bp1.line, bp1.condition.as_str()), (10, ""));
    assert_eq!((bp2.line, bp2.condition.as_str()), (25, "x > 5"));
    assert_eq!(bp3.line, 42);

    let main_bps = sm.source_breakpoints_for_file("/src/main.go");
    assert_eq!(main_bps.len(), 2);
    assert_eq!((main_bps[0].line, main_bps[1].line), (10, 25));

    let util_bps = sm.source_breakpoints_for_file("/src/util.go");
    assert_eq!(util_bps.len(), 1);
    assert_eq!(util_bps[0].line, 42);
    assert!(sm.source_breakpoints_for_file("/src/other.go").is_empty());
}

#[test]
fn remove_source_breakpoint_by_id() {
    let mut sm = SessionManager::new();

    sm.add_source_breakpoint("/src/main.go", 10, "");
    sm.add_source_breakpoint("/src/main.go", 25, "");
    sm.add_breakpoint_response(source_info(1, "/src/main.go", 10));
    sm.add_breakpoint_response(source_info(2, "/src/main.go", 25));

    let (file_path, was_func) = sm.remove_breakpoint_by_id(1).expect("remove id 1");
    assert_eq!(file_path, "/src/main.go");
    assert!(!was_func);
    let bps = sm.source_breakpoints_for_file("/src/main.go");
    assert_eq!(bps.len(), 1);
    assert_eq!(bps[0].line, 25);
    let list = sm.list_breakpoints();
    assert_eq!(list.len(), 1);
    assert_eq!(list[0].id, 2);
}

#[test]
fn remove_breakpoint_by_id_not_found() {
    let mut sm = SessionManager::new();
    let err = sm
        .remove_breakpoint_by_id(999)
        .expect_err("unknown id should error");
    assert_eq!(err, "breakpoint ID 999 not found");
}

#[test]
fn breakpoint_info_peeks_without_mutating() {
    let mut sm = SessionManager::new();
    sm.add_source_breakpoint("/src/main.go", 10, "");
    sm.add_breakpoint_response(source_info(1, "/src/main.go", 10));

    let info = sm.breakpoint_info(1).expect("known id");
    assert_eq!(info.id, 1);
    assert_eq!(info.ty, "source");
    assert_eq!(info.line, 10);
    assert!(sm.breakpoint_info(999).is_none());
    assert_eq!(sm.list_breakpoints().len(), 1);
    assert!(sm.remove_breakpoint_by_id(1).is_ok());
}

#[test]
fn list_breakpoints_sorted() {
    let mut sm = SessionManager::new();

    sm.add_breakpoint_response(source_info(5, "/a.go", 1));
    sm.add_breakpoint_response(function_info(2, "main"));
    sm.add_breakpoint_response(source_info(8, "/b.go", 10));

    let list = sm.list_breakpoints();
    let ids: Vec<i64> = list.iter().map(|i| i.id).collect();
    assert_eq!(ids, vec![2, 5, 8]);
}

#[test]
fn function_breakpoints_add_and_copy() {
    let mut sm = SessionManager::new();

    let bp1 = sm.add_function_breakpoint("main", "");
    let bp2 = sm.add_function_breakpoint("handleRequest", "count > 3");

    assert_eq!((bp1.name.as_str(), bp1.condition.as_str()), ("main", ""));
    assert_eq!(
        (bp2.name.as_str(), bp2.condition.as_str()),
        ("handleRequest", "count > 3")
    );

    let mut all = sm.all_function_breakpoints();
    assert_eq!(all.len(), 2);
    assert_eq!(all[0].name, "main");
    assert_eq!(all[1].name, "handleRequest");
    all[0].name = "modified".to_string();
    let original = sm.all_function_breakpoints();
    assert_eq!(original[0].name, "main");
}

#[test]
fn remove_function_breakpoint_by_id() {
    let mut sm = SessionManager::new();

    sm.add_function_breakpoint("main", "");
    sm.add_function_breakpoint("handler", "");
    sm.add_breakpoint_response(function_info(1, "main"));
    sm.add_breakpoint_response(function_info(2, "handler"));

    let (file_path, was_func) = sm.remove_breakpoint_by_id(1).expect("remove id 1");
    assert_eq!(file_path, "");
    assert!(was_func);

    let all = sm.all_function_breakpoints();
    assert_eq!(all.len(), 1);
    assert_eq!(all[0].name, "handler");
}

#[test]
fn pending_breakpoint_flush_idempotent() {
    let mut sm = SessionManager::new();

    sm.add_pending_source_breakpoint("/src/main.go", 10, "");
    sm.add_pending_source_breakpoint("/src/main.go", 20, "x > 0");
    sm.add_pending_source_breakpoint("/src/util.go", 5, "");
    sm.add_pending_function_breakpoint("main", "");
    sm.add_pending_function_breakpoint("init", "");

    let (source_files, func_bps) = sm.flush_pending_breakpoints();

    assert_eq!(source_files.len(), 2);
    assert_eq!(source_files.get("/src/main.go").unwrap().len(), 2);
    assert_eq!(source_files.get("/src/util.go").unwrap().len(), 1);
    assert_eq!(func_bps.len(), 2);
    assert_eq!(sm.source_breakpoints_for_file("/src/main.go").len(), 2);
    assert_eq!(sm.all_function_breakpoints().len(), 2);
    let (source_files2, func_bps2) = sm.flush_pending_breakpoints();
    assert!(source_files2.is_empty());
    assert!(func_bps2.is_empty());
    assert_eq!(sm.source_breakpoints_for_file("/src/main.go").len(), 2);
    assert_eq!(sm.all_function_breakpoints().len(), 2);
}

#[test]
fn source_breakpoints_for_file_is_a_copy() {
    let mut sm = SessionManager::new();

    sm.add_source_breakpoint("/src/main.go", 10, "");

    let mut bps = sm.source_breakpoints_for_file("/src/main.go");
    bps[0].line = 999;

    let original = sm.source_breakpoints_for_file("/src/main.go");
    assert_eq!(original[0].line, 10);
}

#[test]
fn append_then_drain_fifo() {
    let mut buf = OutputBuffer::new();

    buf.append("stdout", "line 1\n");
    buf.append("stderr", "error\n");
    buf.append("console", "info\n");

    let entries = buf.drain();
    assert_eq!(
        entries,
        vec![
            OutputEntry {
                category: "stdout".to_string(),
                text: "line 1\n".to_string()
            },
            OutputEntry {
                category: "stderr".to_string(),
                text: "error\n".to_string()
            },
            OutputEntry {
                category: "console".to_string(),
                text: "info\n".to_string()
            },
        ]
    );
    assert!(buf.drain().is_empty());
}

#[test]
fn truncation_marker_and_size_bound() {
    let mut buf = OutputBuffer::new();

    let chunk = "x".repeat(1000);
    for _ in 0..1100 {
        buf.append("stdout", &chunk);
    }

    let entries = buf.drain();
    assert!(!entries.is_empty());

    assert_eq!(entries[0].category, "console");
    assert_eq!(entries[0].text, "[output truncated]");

    let total: usize = entries[1..]
        .iter()
        .map(|e| e.category.len() + e.text.len())
        .sum();
    assert!(total <= MAX_SIZE, "post-truncation total {total} > cap");
    assert!(buf.drain().is_empty());
}

#[test]
fn single_oversize_entry_is_appended_then_evicted() {
    let mut buf = OutputBuffer::new();

    let huge = "y".repeat(MAX_SIZE + 1);
    buf.append("stdout", &huge);
    let entries = buf.drain();
    assert_eq!(entries.len(), 1);
    assert_eq!(entries[0].category, "console");
    assert_eq!(entries[0].text, "[output truncated]");
    assert!(buf.drain().is_empty());
}

#[test]
fn drain_empty_non_truncated_returns_nothing() {
    let mut buf = OutputBuffer::new();
    assert!(buf.drain().is_empty());
    assert!(buf.drain().is_empty());
}

#[test]
fn entry_exactly_at_cap_is_retained() {
    let mut buf = OutputBuffer::new();
    let exact = "z".repeat(MAX_SIZE);
    buf.append("", &exact);

    let entries = buf.drain();
    assert_eq!(entries.len(), 1);
    assert_eq!(entries[0].text.len(), MAX_SIZE);
}


#[test]
fn state_string() {
    assert_eq!(State::Idle.to_string(), "idle");
    assert_eq!(State::Configuring.to_string(), "configuring");
    assert_eq!(State::Stopped.to_string(), "stopped");
    assert_eq!(State::Running.to_string(), "running");
    assert_eq!(State::Terminated.to_string(), "terminated");
}

#[test]
fn state_transitions_any_to_any() {
    let mut sm = SessionManager::new();
    assert_eq!(sm.state(), State::Idle);

    sm.set_state(State::Configuring);
    assert_eq!(sm.state(), State::Configuring);

    sm.set_state(State::Stopped);
    assert_eq!(sm.state(), State::Stopped);

    sm.set_state(State::Running);
    assert_eq!(sm.state(), State::Running);

    sm.set_state(State::Stopped);
    assert_eq!(sm.state(), State::Stopped);

    sm.set_state(State::Terminated);
    assert_eq!(sm.state(), State::Terminated);

    sm.reset();
    assert_eq!(sm.state(), State::Idle);
}

#[test]
fn check_state_allowed() {
    let mut sm = SessionManager::new();
    sm.set_state(State::Stopped);

    assert!(sm.check_state(&[State::Stopped]).is_ok());
    assert!(sm.check_state(&[State::Running]).is_err());
}

#[test]
fn check_state_idle_message() {
    let mut sm = SessionManager::new();
    let err = sm
        .check_state(&[State::Stopped, State::Running])
        .expect_err("idle should fail the stopped/running guard");
    assert_eq!(
        err,
        "no debug session active. Use 'launch' or 'attach' first."
    );
}

#[test]
fn check_state_running_message() {
    let mut sm = SessionManager::new();
    sm.set_state(State::Running);
    let err = sm
        .check_state(&[State::Stopped])
        .expect_err("running should fail the stopped guard");
    assert_eq!(err, "process is running. Use 'pause' first.");
}

#[test]
fn check_state_generic_message() {
    let mut sm = SessionManager::new();
    sm.set_state(State::Terminated);
    let err = sm
        .check_state(&[State::Stopped, State::Running])
        .expect_err("terminated should fail the stopped/running guard");
    assert_eq!(
        err,
        "invalid state: terminated, expected one of: stopped, running"
    );
}

#[test]
fn check_state_generic_single_allowed() {
    let mut sm = SessionManager::new();
    sm.set_state(State::Configuring);
    let err = sm
        .check_state(&[State::Stopped])
        .expect_err("configuring should fail the stopped guard");
    assert_eq!(err, "invalid state: configuring, expected one of: stopped");
}

#[test]
fn reset_restores_idle_baseline() {
    let mut sm = SessionManager::new();

    sm.set_state(State::Stopped);
    sm.set_program("/usr/bin/test".to_string());
    sm.set_pid(12345);
    sm.set_exit_code(1);
    sm.set_last_stopped(StopInfo {
        reason: "breakpoint".to_string(),
        thread_id: 1,
        description: String::new(),
        hit_breakpoint_ids: vec![],
    });
    sm.set_frame_mapping(HashMap::from([(0, 100), (1, 200)]));
    sm.output_buffer().append("stdout", "hello");

    sm.reset();

    assert_eq!(sm.state(), State::Idle);
    assert_eq!(sm.program(), "");
    assert_eq!(sm.pid(), 0);
    assert_eq!(sm.exit_code(), None);
    assert_eq!(sm.last_stopped(), None);
    assert!(sm.frame_mapping().is_empty());
    assert!(sm.output_buffer().drain().is_empty());
}

#[test]
fn reset_bumps_generation() {
    let mut sm = SessionManager::new();
    let g0 = sm.generation();

    sm.reset();
    let g1 = sm.generation();
    assert_ne!(g1, g0, "reset must bump the generation");

    sm.reset();
    let g2 = sm.generation();
    assert_ne!(g2, g1, "a second reset must bump the generation again");
}

#[test]
fn frame_mapping_set_and_clone() {
    let mut sm = SessionManager::new();
    assert!(sm.frame_mapping().is_empty());

    sm.set_frame_mapping(HashMap::from([(0, 100), (1, 200)]));

    let mut got = sm.frame_mapping();
    assert_eq!(got.get(&0), Some(&100));
    assert_eq!(got.get(&1), Some(&200));
    got.insert(2, 999);
    assert_eq!(sm.frame_mapping().get(&2), None);
    sm.set_frame_mapping(HashMap::from([(5, 50)]));
    let replaced = sm.frame_mapping();
    assert_eq!(replaced.len(), 1);
    assert_eq!(replaced.get(&5), Some(&50));
}

#[test]
fn last_stopped_and_exit_code_accessors() {
    let mut sm = SessionManager::new();
    assert_eq!(sm.last_stopped(), None);
    assert_eq!(sm.exit_code(), None);

    let info = StopInfo {
        reason: "breakpoint".to_string(),
        thread_id: 2,
        description: "hit".to_string(),
        hit_breakpoint_ids: vec![7],
    };
    sm.set_last_stopped(info.clone());
    assert_eq!(sm.last_stopped(), Some(info));

    sm.set_exit_code(42);
    assert_eq!(sm.exit_code(), Some(42));
}


fn pump(sm: &mut SessionManager, generation: u64, events: Vec<BackendEvent>) {
    for event in events {
        pump_event(sm, generation, event);
    }
}

#[test]
fn pump_appends_output() {
    let mut sm = SessionManager::new();
    let gen = sm.generation();
    pump(
        &mut sm,
        gen,
        vec![
            BackendEvent::Output {
                category: "stdout".to_string(),
                text: "hello ".to_string(),
            },
            BackendEvent::Output {
                category: "stderr".to_string(),
                text: "oops".to_string(),
            },
        ],
    );

    let entries = sm.output_buffer().drain();
    assert_eq!(entries.len(), 2);
    assert_eq!(
        (entries[0].category.as_str(), entries[0].text.as_str()),
        ("stdout", "hello ")
    );
    assert_eq!(
        (entries[1].category.as_str(), entries[1].text.as_str()),
        ("stderr", "oops")
    );
}

#[test]
fn pump_sets_terminated_with_exit_code() {
    let mut sm = SessionManager::new();
    sm.set_state(State::Running);
    let gen = sm.generation();
    pump(&mut sm, gen, vec![BackendEvent::Terminated { code: Some(3) }]);
    assert_eq!(sm.state(), State::Terminated);
    assert_eq!(sm.exit_code(), Some(3));
}

#[test]
fn pump_terminated_without_exit_code_leaves_exit_code_unset() {
    let mut sm = SessionManager::new();
    sm.set_state(State::Running);
    let gen = sm.generation();
    pump(&mut sm, gen, vec![BackendEvent::Terminated { code: None }]);
    assert_eq!(sm.state(), State::Terminated);
    assert_eq!(sm.exit_code(), None);
}

#[test]
fn pump_generation_guard_drops_stale_terminated() {
    let mut sm = SessionManager::new();
    sm.set_state(State::Running);
    let stale_gen = sm.generation();

    sm.reset();
    assert_eq!(sm.state(), State::Idle);
    assert_ne!(sm.generation(), stale_gen);

    pump(
        &mut sm,
        stale_gen,
        vec![BackendEvent::Terminated { code: Some(9) }],
    );
    assert_eq!(sm.state(), State::Idle);
    assert_eq!(sm.exit_code(), None);
}

#[test]
fn pump_processes_output_then_terminated() {
    let mut sm = SessionManager::new();
    sm.set_state(State::Running);
    let gen = sm.generation();
    pump(
        &mut sm,
        gen,
        vec![
            BackendEvent::Output {
                category: "console".to_string(),
                text: "starting\n".to_string(),
            },
            BackendEvent::Terminated { code: Some(0) },
        ],
    );
    assert_eq!(sm.state(), State::Terminated);
    assert_eq!(sm.exit_code(), Some(0));
    let entries = sm.output_buffer().drain();
    assert_eq!(entries.len(), 1);
    assert_eq!(entries[0].text, "starting\n");
}

#[test]
fn stale_generation_sets_no_state() {
    let mut sm = SessionManager::new();
    let stale = sm.generation();
    assert!(sm.set_state_if_generation(stale, State::Running));
    assert_eq!(sm.state(), State::Running);
    sm.reset();
    assert!(!sm.set_state_if_generation(stale, State::Stopped));
    assert!(!sm.terminate_if_generation(stale, Some(1)));
    assert_eq!(sm.state(), State::Idle);
    assert!(sm.terminate_if_generation(stale + 1, None));
    assert_eq!(sm.state(), State::Terminated);
}

#[test]
fn a_later_end_without_code_keeps_the_code() {
    let mut sm = SessionManager::new();
    let gen = sm.generation();
    sm.set_exit_code(5);
    assert!(sm.terminate_if_generation(gen, None));
    assert_eq!(sm.exit_code(), Some(5));
}

#[test]
fn the_first_breakpoint_on_the_line_is_removed() {
    let mut sm = SessionManager::new();
    sm.add_source_breakpoint("/a.c", 7, "first");
    sm.add_source_breakpoint("/a.c", 8, "");
    sm.add_source_breakpoint("/a.c", 7, "second");
    sm.add_breakpoint_response(source_info(-4, "/a.c", 7));
    assert_eq!(
        sm.remove_breakpoint_by_id(-4),
        Ok(("/a.c".to_string(), false))
    );
    let left = sm.source_breakpoints_for_file("/a.c");
    assert_eq!(left.len(), 2);
    assert_eq!((left[0].line, left[0].condition.as_str()), (8, ""));
    assert_eq!((left[1].line, left[1].condition.as_str()), (7, "second"));
    assert_eq!(
        sm.remove_breakpoint_by_id(-4),
        Err("breakpoint ID -4 not found".to_string())
    );
}

#[test]
fn removal_of_an_unlisted_breakpoint_only_forgets_it() {
    let mut sm = SessionManager::new();
    sm.add_function_breakpoint("main", "");
    sm.add_breakpoint_response(source_info(1, "/gone.c", 3));
    sm.add_breakpoint_response(function_info(2, "other"));
    let mut odd = source_info(3, "/a.c", 1);
    odd.ty = "data".to_string();
    sm.add_breakpoint_response(odd);
    assert_eq!(
        sm.remove_breakpoint_by_id(1),
        Ok(("/gone.c".to_string(), false))
    );
    assert_eq!(sm.remove_breakpoint_by_id(2), Ok((String::new(), true)));
    assert_eq!(sm.remove_breakpoint_by_id(3), Ok((String::new(), false)));
    assert!(sm.list_breakpoints().is_empty());
    assert_eq!(sm.all_function_breakpoints().len(), 1);
    assert!(sm.source_breakpoints_for_file("/gone.c").is_empty());
}

#[test]
fn a_second_response_replaces_the_first() {
    let mut sm = SessionManager::new();
    sm.add_breakpoint_response(source_info(1, "/a.c", 1));
    sm.add_breakpoint_response(source_info(1, "/b.c", 2));
    let list = sm.list_breakpoints();
    assert_eq!(list, vec![source_info(1, "/b.c", 2)]);
}

#[test]
fn flushed_breakpoints_come_behind_those_that_are_set() {
    let mut sm = SessionManager::new();
    sm.add_source_breakpoint("/a.c", 1, "");
    sm.add_function_breakpoint("f", "");
    sm.add_pending_source_breakpoint("/a.c", 2, "x");
    sm.add_pending_source_breakpoint("/b.c", 3, "");
    sm.add_pending_function_breakpoint("g", "y");
    let (files, functions) = sm.flush_pending_breakpoints();
    let lines: Vec<i64> = sm
        .source_breakpoints_for_file("/a.c")
        .iter()
        .map(|bp| bp.line)
        .collect();
    assert_eq!(lines, vec![1, 2]);
    let names: Vec<String> = sm
        .all_function_breakpoints()
        .iter()
        .map(|bp| bp.name.clone())
        .collect();
    assert_eq!(names, vec!["f".to_string(), "g".to_string()]);
    assert_eq!(functions.len(), 1);
    let entries = files.into_entries();
    assert_eq!(entries.len(), 2);
    assert_eq!(entries[0].0, "/a.c");
    assert_eq!(entries[0].1.len(), 1);
    assert_eq!(entries[1].0, "/b.c");
}

#[test]
fn eviction_takes_the_oldest_first() {
    let mut buf = OutputBuffer::new();
    let half = "h".repeat(MAX_SIZE / 2);
    buf.append("", "old");
    buf.append("", &half);
    buf.append("", &half);
    let entries = buf.drain();
    assert_eq!(entries.len(), 3);
    assert_eq!(entries[0].text, "[output truncated]");
    assert_eq!(entries[1].text.len() + entries[2].text.len(), MAX_SIZE);
    buf.append("", "new");
    assert_eq!(
        buf.drain(),
        vec![OutputEntry {
            category: String::new(),
            text: "new".to_string()
        }]
    );
}

#[test]
fn output_is_measured_in_bytes() {
    let mut buf = OutputBuffer::new();
    // Two bytes each: one more than the limit in all.
    let wide = "é".repeat(MAX_SIZE / 2);
    buf.append("c", &wide);
    let entries = buf.drain();
    assert_eq!(entries.len(), 1);
    assert_eq!(entries[0].text, "[output truncated]");
}

#[test]
fn check_state_without_allowed_states() {
    let mut sm = SessionManager::new();
    sm.set_state(State::Stopped);
    assert_eq!(
        sm.check_state(&[]),
        Err("invalid state: stopped, expected one of: ".to_string())
    );
}

#[test]
fn what_began_before_a_reset_has_no_say_after_several() {
    let mut sm = SessionManager::new();
    let began = sm.generation();
    for n in 1..=3 {
        sm.reset();
        sm.set_state(State::Running);
        sm.set_pid(n);
        assert_eq!(sm.generation(), began + n as u64);
        assert!(!sm.set_state_if_generation(began, State::Stopped));
        assert!(!sm.terminate_if_generation(began, Some(9)));
        assert_eq!(sm.state(), State::Running);
        assert_eq!(sm.exit_code(), None);
    }
}
