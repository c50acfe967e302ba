//! Text, numbers, and the maps that are kept as lists.

use debug_mcp::file_breakpoints::FileBreakpoints;
use debug_mcp::id_map::IdMap;
use debug_mcp::text::{
    contains_text, decimal_text, is_white_space, join_text, same_text, signed_decimal_text,
    trim_text,
};
use debug_mcp::types::SourceBp;

#[test]
fn decimal_notation() {
    for n in [0, 7, 10, 999, 1_048_576, u64::MAX] {
        assert_eq!(decimal_text(n), n.to_string());
    }
    for n in [0, -1, 42, -9_000, i64::MAX, i64::MIN] {
        assert_eq!(signed_decimal_text(n), n.to_string());
    }
}

#[test]
fn white_space_is_that_of_unicode() {
    for code in 0..=0x3100u32 {
        if let Some(c) = char::from_u32(code) {
            assert_eq!(is_white_space(c), c.is_whitespace(), "{code:x}");
        }
    }
    assert!(!is_white_space('\u{10ffff}'));
    for s in ["", "  ", "\u{a0}x\u{3000}", "a b", "\t\r\nx y\n", "\u{200b}x"] {
        assert_eq!(trim_text(s), s.trim());
    }
}

#[test]
fn search_and_comparison() {
    assert!(contains_text("abc", ""));
    assert!(contains_text("", ""));
    assert!(contains_text("xxlldb-dap", "lldb-dap"));
    assert!(contains_text("aab", "ab"));
    assert!(!contains_text("ab", "abc"));
    assert!(!contains_text("acb", "ab"));
    assert!(same_text("é", "é"));
    assert!(!same_text("é", "e"));
    assert!(!same_text("a", "aa"));
    let items = vec!["a".to_string(), String::new(), "c".to_string()];
    assert_eq!(join_text(&items, ", "), "a, , c");
    assert_eq!(join_text(&Vec::new(), ", "), "");
}

#[test]
fn maps_by_id_are_in_order() {
    let mut map = IdMap::new();
    assert_eq!(map.insert(5, 'e'), None);
    assert_eq!(map.insert(-2, 'a'), None);
    assert_eq!(map.insert(3, 'c'), None);
    assert_eq!(map.insert(3, 'C'), Some('c'));
    assert_eq!(map.entries, vec![(-2, 'a'), (3, 'C'), (5, 'e')]);
    assert_eq!(map.get(3), Some(&'C'));
    assert_eq!(map.get(4), None);
    assert!(map.contains_key(-2));
    assert_eq!(map.remove(-2), Some('a'));
    assert_eq!(map.remove(-2), None);
    assert_eq!(map.len(), 2);
}

#[test]
fn lists_of_files() {
    let bp = |line: i64| SourceBp {
        line,
        condition: String::new(),
    };
    let mut files = FileBreakpoints::new();
    assert!(files.is_empty());
    files.add("/b", bp(1));
    files.add("/a", bp(2));
    files.add("/b", bp(3));
    files.add("/b", bp(1));
    assert_eq!(files.len(), 2);
    files.remove_line("/b", 1);
    files.remove_line("/b", 99);
    files.remove_line("/c", 1);
    assert_eq!(files.get("/b"), Some(&vec![bp(3), bp(1)]));
    assert_eq!(files.get("/c"), None);
    let mut more = FileBreakpoints::new();
    more.extend("/c", &vec![bp(7)]);
    more.extend("/a", &vec![bp(8), bp(9)]);
    files.merge(&more);
    assert_eq!(files.get("/a"), Some(&vec![bp(2), bp(8), bp(9)]));
    assert_eq!(files.get("/c"), Some(&vec![bp(7)]));
    assert_eq!(files.into_entries().len(), 3);
}
