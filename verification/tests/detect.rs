//! Finding the debugger binary, in a made-up environment.

use std::collections::{HashMap, HashSet};
use std::path::PathBuf;

use debug_mcp::detect::{
    basename, has_separator, is_capable_basename, look_path_in, name_or_path, Answer, Detected,
    Detection, Progress, Query,
};
use debug_mcp::error::BackendError;

#[derive(Default)]
struct FakeEnv {
    vars: HashMap<String, String>,
    look_path: HashMap<String, PathBuf>,
    exists: HashSet<String>,
    xcrun: Option<String>,
    macos: bool,
}

impl FakeEnv {
    fn with_var(mut self, k: &str, v: &str) -> Self {
        self.vars.insert(k.to_string(), v.to_string());
        self
    }
    fn with_path(mut self, name: &str, full: &str) -> Self {
        self.look_path.insert(name.to_string(), PathBuf::from(full));
        self
    }
    fn with_exists(mut self, path: &str) -> Self {
        self.exists.insert(path.to_string());
        self
    }
    fn with_xcrun(mut self, out: &str) -> Self {
        self.xcrun = Some(out.to_string());
        self
    }
    fn macos(mut self) -> Self {
        self.macos = true;
        self
    }
}

/// Answers every question of a search truthfully, and notes the questions.
fn search(env: &FakeEnv) -> (Result<Detected, BackendError>, Vec<Query>) {
    let mut asked = Vec::new();
    let mut detection = Detection::new();
    loop {
        let query = detection.query();
        let answer = match &query {
            Query::Var(key) => Answer::Text(env.vars.get(key).cloned()),
            Query::LookPath(name) => Answer::Found(env.look_path.get(name).cloned()),
            Query::PathExists(path) => Answer::Truth(env.exists.contains(path)),
            Query::Basename(path) => Answer::Text(Some(basename(path))),
            Query::IsMacos => Answer::Truth(env.macos),
            Query::Xcrun => Answer::Text(env.xcrun.clone()),
        };
        asked.push(query);
        match detection.answer(answer) {
            Progress::Ask(next) => detection = next,
            Progress::Done(result) => return (result, asked),
        }
    }
}

fn find_lldb_dap_with(env: &FakeEnv) -> Result<Detected, BackendError> {
    search(env).0
}

#[test]
fn env_var_capable() {
    let bin = "/tmp/custom/my-custom-lldb-dap";
    let env = FakeEnv::default()
        .with_var("LLDB_DAP_PATH", bin)
        .with_path(bin, bin);
    let got = find_lldb_dap_with(&env).expect("found");
    assert_eq!(got.path, PathBuf::from(bin));
    assert!(got.is_lldb_dap, "basename contains lldb-dap ⇒ capable");
}

#[test]
fn env_var_lldb_vscode_not_capable() {
    let bin = "/tmp/custom/lldb-vscode";
    let env = FakeEnv::default()
        .with_var("LLDB_DAP_PATH", bin)
        .with_path(bin, bin);
    let got = find_lldb_dap_with(&env).expect("found");
    assert_eq!(got.path, PathBuf::from(bin));
    assert!(!got.is_lldb_dap, "basename lldb-vscode ⇒ not capable");
}

#[test]
fn env_var_absolute_path_stat_fallback() {
    let bin = "/opt/lldb-dap";
    let env = FakeEnv::default()
        .with_var("LLDB_DAP_PATH", bin)
        .with_exists(bin);
    let got = find_lldb_dap_with(&env).expect("found");
    assert_eq!(got.path, PathBuf::from(bin));
    assert!(got.is_lldb_dap);
}

#[test]
fn env_var_priority_over_path() {
    let env_bin = "/env/custom-lldb-dap-binary";
    let env = FakeEnv::default()
        .with_var("LLDB_DAP_PATH", env_bin)
        .with_path(env_bin, env_bin)
        .with_path("lldb-dap", "/path/lldb-dap");
    let got = find_lldb_dap_with(&env).expect("found");
    assert_eq!(got.path, PathBuf::from(env_bin));
}

#[test]
fn in_path_capable() {
    let env = FakeEnv::default().with_path("lldb-dap", "/usr/bin/lldb-dap");
    let got = find_lldb_dap_with(&env).expect("found");
    assert_eq!(got.path, PathBuf::from("/usr/bin/lldb-dap"));
    assert!(got.is_lldb_dap);
}

#[test]
fn versioned_in_path() {
    let env = FakeEnv::default().with_path("lldb-dap-18", "/usr/bin/lldb-dap-18");
    let got = find_lldb_dap_with(&env).expect("found");
    assert_eq!(got.path, PathBuf::from("/usr/bin/lldb-dap-18"));
    assert!(got.is_lldb_dap);
}

#[test]
fn versioned_prefers_higher() {
    let env = FakeEnv::default()
        .with_path("lldb-dap-15", "/usr/bin/lldb-dap-15")
        .with_path("lldb-dap-19", "/usr/bin/lldb-dap-19");
    let got = find_lldb_dap_with(&env).expect("found");
    assert_eq!(got.path, PathBuf::from("/usr/bin/lldb-dap-19"));
    assert!(got.is_lldb_dap);
}

#[test]
fn fallback_to_lldb_vscode() {
    let env = FakeEnv::default().with_path("lldb-vscode", "/usr/bin/lldb-vscode");
    let got = find_lldb_dap_with(&env).expect("found");
    assert_eq!(got.path, PathBuf::from("/usr/bin/lldb-vscode"));
    assert!(!got.is_lldb_dap);
}

#[test]
fn lldb_dap_before_lldb_vscode() {
    let env = FakeEnv::default()
        .with_path("lldb-dap", "/usr/bin/lldb-dap")
        .with_path("lldb-vscode", "/usr/bin/lldb-vscode");
    let got = find_lldb_dap_with(&env).expect("found");
    assert_eq!(got.path, PathBuf::from("/usr/bin/lldb-dap"));
    assert!(got.is_lldb_dap);
}

#[test]
fn nothing_found_lists_candidates() {
    let env = FakeEnv::default();
    let err = find_lldb_dap_with(&env).expect_err("nothing found");
    let msg = err.to_string();
    assert!(msg.contains("lldb-dap binary not found"), "got: {msg}");
    for name in [
        "lldb-dap",
        "lldb-dap-18",
        "lldb-dap-20",
        "lldb-dap-15",
        "lldb-vscode",
    ] {
        assert!(
            msg.contains(name),
            "error should mention {name}, got: {msg}"
        );
    }
    assert!(!msg.contains("xcrun"), "no xcrun on non-macOS, got: {msg}");
}

#[test]
fn darwin_xcrun_found() {
    let env = FakeEnv::default()
        .macos()
        .with_xcrun("/Applications/Xcode.app/.../lldb-dap\n");
    let got = find_lldb_dap_with(&env).expect("found via xcrun");
    assert_eq!(
        got.path,
        PathBuf::from("/Applications/Xcode.app/.../lldb-dap")
    );
    assert!(got.is_lldb_dap, "xcrun result is capable");
}

#[test]
fn darwin_nothing_found_lists_xcrun() {
    let env = FakeEnv::default().macos();
    let err = find_lldb_dap_with(&env).expect_err("nothing found");
    let msg = err.to_string();
    assert!(msg.contains("xcrun --find lldb-dap"), "got: {msg}");
}

#[test]
fn not_found_text_is_exact() {
    let env = FakeEnv::default()
        .macos()
        .with_xcrun(" \n")
        .with_var("LLDB_DAP_PATH", "/nowhere/x");
    let err = find_lldb_dap_with(&env).expect_err("nothing found");
    assert_eq!(
        err,
        BackendError::Detect(
            "lldb-dap binary not found; searched: LLDB_DAP_PATH=/nowhere/x, lldb-dap, \
             lldb-dap-20, lldb-dap-19, lldb-dap-18, lldb-dap-17, lldb-dap-16, lldb-dap-15, \
             lldb-vscode, xcrun --find lldb-dap"
                .to_string()
        )
    );
}

#[test]
fn empty_variable_counts_as_unset() {
    let env = FakeEnv::default()
        .with_var("LLDB_DAP_PATH", "")
        .with_path("", "/odd")
        .with_path("lldb-dap", "/usr/bin/lldb-dap");
    let got = find_lldb_dap_with(&env).expect("found");
    assert_eq!(got.path, PathBuf::from("/usr/bin/lldb-dap"));
}

#[test]
fn nothing_is_asked_beyond_the_first_hit() {
    let env = FakeEnv::default().with_path("lldb-dap-20", "/x/lldb-dap-20");
    let (result, asked) = search(&env);
    assert!(result.is_ok());
    assert_eq!(
        asked,
        vec![
            Query::Var("LLDB_DAP_PATH".to_string()),
            Query::LookPath("lldb-dap".to_string()),
            Query::LookPath("lldb-dap-20".to_string()),
        ]
    );
}

#[test]
fn tools_are_not_asked_elsewhere_than_on_macos() {
    let (result, asked) = search(&FakeEnv::default().with_xcrun("/x/lldb-dap"));
    assert!(result.is_err());
    assert!(asked.contains(&Query::IsMacos));
    assert!(!asked.contains(&Query::Xcrun));
}

#[test]
fn basenames() {
    assert_eq!(basename("/usr/bin/lldb-dap"), "lldb-dap");
    assert_eq!(basename("lldb-dap"), "lldb-dap");
    assert_eq!(basename("/usr/bin/"), "bin");
    assert_eq!(basename("foo.txt/."), "foo.txt");
    assert_eq!(basename("foo.txt/.//"), "foo.txt");
    assert_eq!(basename("/opt/lldb-dap/.."), "/opt/lldb-dap/..");
    assert_eq!(basename("/"), "/");
    assert_eq!(basename("."), ".");
    assert_eq!(basename(""), "");
    assert_eq!(basename("./"), "./");
    for path in [
        "/usr/bin/",
        "a/b/.",
        "tmp/foo.txt",
        "/a//b///",
        "x.y",
        "//server/share",
        r"C:\lldb-dap-18\lldb-vscode.exe",
    ] {
        let std_name = std::path::Path::new(path)
            .file_name()
            .and_then(|name| name.to_str());
        assert_eq!(basename(path), std_name.unwrap_or(path));
    }
    assert_eq!(name_or_path("/a/b", Some("b".to_string())), "b");
    assert_eq!(name_or_path("/a/..", None), "/a/..");
}

#[test]
fn the_name_that_the_system_gives_decides() {
    let bin = r"C:\lldb-dap-18\lldb-vscode.exe";
    for (name, capable) in [
        (Some("lldb-vscode.exe"), false),
        (Some(bin), true),
        (None, true),
    ] {
        let mut detection = Detection::new();
        for answer in [
            Answer::Text(Some(bin.to_string())),
            Answer::Found(None),
            Answer::Truth(true),
        ] {
            detection = match detection.answer(answer) {
                Progress::Ask(next) => next,
                Progress::Done(result) => panic!("not over yet: {result:?}"),
            };
        }
        assert_eq!(detection.query(), Query::Basename(bin.to_string()));
        match detection.answer(Answer::Text(name.map(str::to_string))) {
            Progress::Done(Ok(detected)) => {
                assert_eq!(detected.path, PathBuf::from(bin));
                assert_eq!(detected.is_lldb_dap, capable);
            }
            other => panic!("expected the binary, got {other:?}"),
        }
    }
}

#[test]
fn capability_is_a_matter_of_the_name() {
    assert!(is_capable_basename("lldb-dap-18"));
    assert!(is_capable_basename("my-lldb-dap.exe"));
    assert!(!is_capable_basename("lldb-vscode"));
    assert!(!is_capable_basename("lldb-da"));
    assert!(!is_capable_basename(""));
}

#[test]
fn looking_up_takes_the_first_that_runs() {
    assert!(has_separator("./lldb-dap"));
    assert!(!has_separator("lldb-dap"));
    let candidates = vec![
        (PathBuf::from("/a/x"), false),
        (PathBuf::from("/b/x"), true),
        (PathBuf::from("/c/x"), true),
    ];
    assert_eq!(look_path_in(candidates), Some(PathBuf::from("/b/x")));
    assert_eq!(look_path_in(vec![(PathBuf::from("/a/x"), false)]), None);
    assert_eq!(look_path_in(Vec::new()), None);
}
