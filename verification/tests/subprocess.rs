//! Starting the debugger, and what is kept of its error stream.

use debug_mcp::error::BackendError;
use debug_mcp::subprocess::{check_pipes, spawn_args, spawn_failure, StderrBuffer};

#[test]
fn stderr_basic() {
    let mut buf = StderrBuffer::new(4096);
    let data = b"hello, stderr";
    let n = buf.write(data);
    assert_eq!(n, data.len());
    assert_eq!(buf.contents(), "hello, stderr");
}

#[test]
fn stderr_overflow_keeps_last_n() {
    let mut buf = StderrBuffer::new(10);
    let data = b"abcdefghijklmnop"; // 16 bytes, cap 10
    let n = buf.write(data);
    assert_eq!(n, data.len(), "returns the full input length");
    assert_eq!(buf.contents(), "ghijklmnop");
}

#[test]
fn stderr_multiple_writes_trim_front() {
    let mut buf = StderrBuffer::new(10);
    for w in ["abcde", "fghij", "klmno"] {
        let n = buf.write(w.as_bytes());
        assert_eq!(n, w.len());
    }
    assert_eq!(buf.contents(), "fghijklmno");
}

#[test]
fn stderr_default_size_on_nonpositive() {
    assert_eq!(StderrBuffer::new(0).capacity(), 4096);
}

#[test]
fn stderr_does_not_depend_on_the_division_into_writes() {
    let mut whole = StderrBuffer::new(7);
    whole.write(b"one two three four");
    let mut pieces = StderrBuffer::new(7);
    for piece in ["one t", "wo three", "", " fou", "r"] {
        pieces.write(piece.as_bytes());
    }
    assert_eq!(whole.contents(), "ee four");
    assert_eq!(pieces.contents(), whole.contents());
}

#[test]
fn stderr_that_is_not_utf8_is_replaced() {
    let mut buf = StderrBuffer::new(16);
    buf.write(&[b'a', 0xff, b'b']);
    assert_eq!(buf.contents(), "a\u{fffd}b");
    assert_eq!(buf.capacity(), 16);
}

#[test]
fn raw_command_mode_is_asked_for_only_where_it_exists() {
    assert_eq!(spawn_args(true), vec!["--repl-mode=command".to_string()]);
    assert!(spawn_args(false).is_empty());
}

#[test]
fn spawn_errors() {
    assert_eq!(
        spawn_failure("\"/no/such\"", "not found"),
        BackendError::Spawn("starting subprocess \"/no/such\": not found".to_string())
    );
    assert_eq!(check_pipes(true, true, true), Ok(()));
    assert_eq!(
        check_pipes(false, false, true),
        Err(BackendError::Spawn(
            "creating stdin pipe: no handle".to_string()
        ))
    );
    assert_eq!(
        check_pipes(true, false, false),
        Err(BackendError::Spawn(
            "creating stdout pipe: no handle".to_string()
        ))
    );
    assert_eq!(
        check_pipes(true, true, false),
        Err(BackendError::Spawn(
            "creating stderr pipe: no handle".to_string()
        ))
    );
}
