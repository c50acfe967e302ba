//! What the live suite checks before it runs, and how it reads what tools return.

use vstd::prelude::*;

use crate::detect::Detected;
use crate::error::BackendError;
use crate::json::{self, Json};
use crate::text;

verus! {

/// What a tool returns.
#[derive(Debug, PartialEq)]
pub enum ToolOutcome {
    Json(serde_json::Value),
    Text(String),
    Error(String),
}

/// The entries that `pairs` make: where a key occurs more than once, the last value counts.
pub open spec fn pair_entries(pairs: Seq<(&str, serde_json::Value)>) -> Map<Seq<char>, Json>
    decreases pairs.len(),
{
    if pairs.len() == 0 {
        Map::empty()
    } else {
        pair_entries(pairs.drop_last()).insert(pairs.last().0@, json::json_of(pairs.last().1))
    }
}

/// The object that `pairs` make.
pub fn obj(pairs: &[(&str, serde_json::Value)]) -> (map: serde_json::Map<
    String,
    serde_json::Value,
>)
    ensures
        json::entries_of(map) == pair_entries(pairs@),
{
    let mut map = json::new_map();
    let mut i: usize = 0;
    assert(pairs@.take(0) =~= Seq::<(&str, serde_json::Value)>::empty());
    while i < pairs.len()
        invariant
            i <= pairs@.len(),
            json::entries_of(map) == pair_entries(pairs@.take(i as int)),
        decreases pairs@.len() - i,
    {
        json::put(&mut map, pairs[i].0, json::clone_value(&pairs[i].1));
        assert(pairs@.take(i + 1).drop_last() =~= pairs@.take(i as int));
        i += 1;
    }
    assert(pairs@.take(pairs@.len() as int) =~= pairs@);
    map
}

/// The object that a tool returned.
pub open spec fn returned_object(outcome: ToolOutcome) -> Option<Map<Seq<char>, Json>> {
    match outcome {
        ToolOutcome::Json(value) => match json::json_of(value) {
            Json::Object(entries) => Some(entries),
            _ => None,
        },
        _ => None,
    }
}

/// The object that a tool returned, if it returned one.
pub fn json_obj(outcome: &ToolOutcome) -> (map: Option<serde_json::Map<String, serde_json::Value>>)
    ensures
        match map {
            Some(m) => returned_object(*outcome) == Some(json::entries_of(m)),
            None => returned_object(*outcome) is None,
        },
{
    match outcome {
        ToolOutcome::Json(value) => match json::as_object(value) {
            Some(map) => Some(json::clone_map(map)),
            None => None,
        },
        _ => None,
    }
}

/// The object that the tool `_label` returned.
pub fn expect_json_obj(_label: &str, outcome: &ToolOutcome) -> (map: serde_json::Map<
    String,
    serde_json::Value,
>)
    requires
        returned_object(*outcome) is Some,
    ensures
        returned_object(*outcome) == Some(json::entries_of(map)),
{
    match json_obj(outcome) {
        Some(map) => map,
        None => json::new_map(),
    }
}

/// The message of the error that the tool `_label` returned.
pub fn expect_error<'a>(_label: &str, outcome: &'a ToolOutcome) -> (message: &'a str)
    requires
        outcome is Error,
    ensures
        message@ == outcome->Error_0@,
{
    match outcome {
        ToolOutcome::Error(message) => message.as_str(),
        _ => "",
    }
}

/// Whether the debugger can be used.
pub fn lldb_dap_available(detected: &Result<Detected, BackendError>) -> (available: bool)
    ensures
        available == (*detected is Ok),
{
    match detected {
        Ok(_) => true,
        Err(_) => false,
    }
}

/// A compiled program that a test needs: how its path is shown, and whether it is there.
#[derive(Debug, Clone)]
pub struct Fixture {
    pub shown: String,
    pub exists: bool,
}

/// Whether a fixture is missing.
pub open spec fn missing() -> spec_fn(Fixture) -> bool {
    |fixture: Fixture| !fixture.exists
}

/// Why the live suite cannot run, if it cannot.
pub open spec fn skip_reason(available: bool, fixtures: Seq<Fixture>) -> Option<Seq<char>> {
    let i = crate::model::first_index(fixtures, missing());
    if !available {
        Some("lldb-dap not found (set LLDB_DAP_PATH or install lldb-dap)"@)
    } else if i < fixtures.len() {
        Some(
            "fixture "@ + fixtures[i].shown@
                + " missing — run `make -C testdata` to build the C fixtures"@,
        )
    } else {
        None
    }
}

/// Whether the live suite can run: the debugger is there, and so is every fixture. The first that
/// is missing is the reason.
pub fn live_prereqs(available: bool, fixtures: &Vec<Fixture>) -> (outcome: Result<(), String>)
    ensures
        match outcome {
            Ok(_) => skip_reason(available, fixtures@) is None,
            Err(reason) => skip_reason(available, fixtures@) == Some(reason@),
        },
{
    if !available {
        return Err("lldb-dap not found (set LLDB_DAP_PATH or install lldb-dap)".to_owned());
    }
    let ghost is_missing = missing();
    let mut i: usize = 0;
    while i < fixtures.len()
        invariant
            available,
            i <= fixtures@.len(),
            is_missing == missing(),
            forall|j: int| 0 <= j < i ==> !is_missing(#[trigger] fixtures@[j]),
        decreases fixtures@.len() - i,
    {
        if !fixtures[i].exists {
            proof {
                crate::model::lemma_first_index(fixtures@, is_missing, i as int);
            }
            return Err(
                text::concat3(
                    "fixture ",
                    fixtures[i].shown.as_str(),
                    " missing — run `make -C testdata` to build the C fixtures",
                ),
            );
        }
        i += 1;
    }
    proof {
        crate::model::lemma_first_index(fixtures@, is_missing, i as int);
    }
    Ok(())
}

/// The line that says why a test is skipped, if it is.
pub fn should_skip(test_name: &str, prereqs: &Result<(), String>) -> (line: Option<String>)
    ensures
        match (*prereqs, line) {
            (Ok(_), None) => true,
            (Err(reason), Some(l)) => l@ == "SKIP "@ + test_name@ + ": "@ + reason@,
            _ => false,
        },
{
    match prereqs {
        Ok(_) => None,
        Err(reason) => Some(text::concat4("SKIP ", test_name, ": ", reason.as_str())),
    }
}

} // verus!
