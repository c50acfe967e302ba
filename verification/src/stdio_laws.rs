//! What the test client says to a server and takes from it, and what lets the live suite run.

use vstd::prelude::*;

use crate::detect::Detected;
use crate::error::BackendError;
use crate::harness;
use crate::harness::{Fixture, ToolOutcome};
use crate::json;
use crate::json::Json;
use crate::request_laws;
use crate::stdio;
use crate::stdio::{Reading, StdioMcp, ToolCallResult};
use crate::text;

verus! {

proof fn lemma_message_names()
    ensures
        "id"@.len() == 2,
        "method"@.len() == 6 && "method"@[0] == 'm',
        "params"@.len() == 6 && "params"@[0] == 'p',
        "jsonrpc"@.len() == 7,
        "name"@.len() == 4,
        "version"@.len() == 7,
        "arguments"@.len() == 9,
        "protocolVersion"@.len() == 15,
        "capabilities"@.len() == 12,
        "clientInfo"@.len() == 10,
        "__is_error"@.len() == 10,
        "__text"@.len() == 6,
{
    reveal_strlit("id");
    reveal_strlit("method");
    reveal_strlit("params");
    reveal_strlit("jsonrpc");
    reveal_strlit("name");
    reveal_strlit("version");
    reveal_strlit("arguments");
    reveal_strlit("protocolVersion");
    reveal_strlit("capabilities");
    reveal_strlit("clientInfo");
    reveal_strlit("__is_error");
    reveal_strlit("__text");
}

/// Whether `message` calls `method` under the number `id`, with parameters and nothing else.
pub open spec fn calls(message: Json, id: i64, method: Seq<char>) -> bool {
    &&& request_laws::under(message, "jsonrpc"@) == Some(Json::Str("2.0"@))
    &&& request_laws::under(message, "id"@) == Some(Json::Int(id as int))
    &&& request_laws::under(message, "method"@) == Some(Json::Str(method))
    &&& request_laws::only(message, set!["jsonrpc"@, "id"@, "method"@, "params"@])
}

/// A call of a tool has the number, the name and the arguments that it was given.
pub proof fn law_call_says_what_it_was_given(
    id: i64,
    name: &str,
    arguments: serde_json::Value,
    message: serde_json::Value,
)
    requires
        call_ensures(stdio::call_tool_message, (id, name, arguments), message),
    ensures
        calls(json::json_of(message), id, "tools/call"@),
        request_laws::under(json::json_of(message), "params"@) matches Some(params)
            && request_laws::under(params, "name"@) == Some(Json::Str(name@))
            && request_laws::under(params, "arguments"@) == Some(json::json_of(arguments))
            && request_laws::only(params, set!["name"@, "arguments"@]),
{
    lemma_message_names();
}

/// The client introduces itself, says when it is ready, and asks for the tools.
pub proof fn law_client_introduces_itself(
    id: i64,
    initialize: serde_json::Value,
    ready: serde_json::Value,
    tools: serde_json::Value,
)
    requires
        call_ensures(stdio::initialize_message, (id,), initialize),
        call_ensures(stdio::initialized_message, (), ready),
        call_ensures(stdio::list_tools_message, (id,), tools),
    ensures
        calls(json::json_of(initialize), id, "initialize"@),
        request_laws::under(json::json_of(initialize), "params"@) matches Some(params)
            && request_laws::under(params, "protocolVersion"@) == Some(Json::Str("2024-11-05"@))
            && request_laws::under(params, "capabilities"@) == Some(Json::Object(Map::empty()))
            && (request_laws::under(params, "clientInfo"@) matches Some(info)
            && request_laws::under(info, "name"@) == Some(Json::Str("parity-harness"@))
            && request_laws::under(info, "version"@) == Some(Json::Str("1.0.0"@))),
        request_laws::under(json::json_of(ready), "jsonrpc"@) == Some(Json::Str("2.0"@)),
        request_laws::under(json::json_of(ready), "method"@) == Some(
            Json::Str("notifications/initialized"@),
        ),
        request_laws::only(json::json_of(ready), set!["jsonrpc"@, "method"@]),
        calls(json::json_of(tools), id, "tools/list"@),
        request_laws::under(json::json_of(tools), "params"@) == Some(Json::Object(Map::empty())),
{
    lemma_message_names();
}

/// Messages are numbered one after the other from one on.
pub proof fn law_messages_are_numbered(
    fresh: StdioMcp,
    client: &mut StdioMcp,
    later: &mut StdioMcp,
    first: i64,
    second: i64,
)
    requires
        call_ensures(StdioMcp::new, (), fresh),
        *old(client) == fresh,
        call_ensures(StdioMcp::alloc_id, (client,), first),
        *old(later) == *final(client),
        call_ensures(StdioMcp::alloc_id, (later,), second),
    ensures
        first == 1,
        second == first + 1,
{
}

/// A message goes out on a line of its own, and whoever reads the line for its number gets it back.
pub proof fn law_line_is_read_back(
    message: &serde_json::Value,
    line: String,
    id: i64,
    shown: &str,
    reading: Reading,
)
    requires
        json::plain(json::json_of(*message), 127),
        request_laws::under(json::json_of(*message), "id"@) == Some(Json::Int(id as int)),
        call_ensures(stdio::line_of, (message,), line),
        shown@ == line@,
        call_ensures(stdio::read_response, (Some(shown), id), reading),
    ensures
        line@.len() > 0 && line@.last() == '\n',
        forall|i: int| 0 <= i < line@.len() - 1 ==> #[trigger] line@[i] != '\n',
        reading matches Reading::Found(value) && json::json_of(value) == json::json_of(*message),
{
    assert(stdio::answers(json::json_of(*message), id));
    assert(stdio::response_in(line@, id) == Some(json::json_of(*message)));
    let said = json::printed(json::json_of(*message));
    assert forall|i: int| 0 <= i < line@.len() - 1 implies #[trigger] line@[i] != '\n' by {
        assert(said.contains(said[i]));
    }
}

/// A line is the response to a message exactly when it is JSON with the number of the message, and
/// the value is then handed out; any other line is skipped. The end of the lines is told with the
/// number that was waited for.
pub proof fn law_response_is_told_by_its_number(
    line: &str,
    id: i64,
    reading: Reading,
    end: Reading,
    value: &serde_json::Value,
    is: bool,
)
    requires
        call_ensures(stdio::read_response, (Some(line), id), reading),
        call_ensures(stdio::read_response, (None, id), end),
        call_ensures(stdio::is_response, (value, id), is),
    ensures
        is <==> request_laws::under(json::json_of(*value), "id"@) == Some(Json::Int(id as int)),
        ({
            let shown = text::trimmed(line@);
            let found = json::parsed(shown);
            let wanted = shown.len() > 0 && found is Some && request_laws::under(
                found->0,
                "id"@,
            ) == Some(Json::Int(id as int));
            &&& wanted ==> (reading matches Reading::Found(v) && json::json_of(v) == found->0)
            &&& !wanted ==> reading is Skip
        }),
        end matches Reading::Closed(reason) && reason@
            == "server closed stdout before responding to id "@ + text::signed_decimal(id as int),
{
}

/// What `response` has as its result, under `key`.
pub open spec fn result_has(response: Json, key: Seq<char>) -> Option<Json> {
    match request_laws::under(response, "result"@) {
        Some(result) => request_laws::under(result, key),
        None => None,
    }
}

/// What a response says of the server is handed out, or null when it says nothing.
pub proof fn law_server_info_is_handed_out(response: &serde_json::Value, info: serde_json::Value)
    requires
        call_ensures(stdio::server_info, (response,), info),
    ensures
        result_has(json::json_of(*response), "serverInfo"@) matches Some(said) ==> json::json_of(
            info,
        ) == said,
        result_has(json::json_of(*response), "serverInfo"@) is None ==> json::json_of(info)
            == Json::Null,
{
}

/// Every tool that a response lists is handed out, in order; a response without a list has none.
pub proof fn law_every_tool_is_listed(
    response: &serde_json::Value,
    tools: Vec<serde_json::Value>,
)
    requires
        call_ensures(stdio::list_tools, (response,), tools),
    ensures
        ({
            let listed = result_has(json::json_of(*response), "tools"@);
            &&& listed matches Some(Json::Array(items)) ==> tools@.len() == items.len() && forall|
                i: int,
            |
                0 <= i < items.len() ==> json::json_of(#[trigger] tools@[i]) == items[i]
            &&& !(listed is Some && listed->0 is Array) ==> tools@.len() == 0
        }),
{
    let held = json::jsons(tools@);
    assert(held.len() == tools@.len());
    assert forall|i: int| 0 <= i < tools@.len() implies json::json_of(#[trigger] tools@[i])
        == held[i] by {}
}

/// The text of the first content of `response`, if it has one.
pub open spec fn first_text(response: Json) -> Option<Seq<char>> {
    match result_has(response, "content"@) {
        Some(Json::Array(items)) => if items.len() > 0 {
            match request_laws::under(items[0], "text"@) {
                Some(Json::Str(said)) => Some(said),
                _ => None,
            }
        } else {
            None
        },
        _ => None,
    }
}

/// The result of a call is an error exactly when the response says so. Its text is that of the
/// first content; an error wraps it, and a success is what the text says as JSON.
pub proof fn law_result_of_a_call(response: &serde_json::Value, result: ToolCallResult)
    requires
        call_ensures(stdio::call_tool, (response,), result),
    ensures
        result.is_error <==> result_has(json::json_of(*response), "isError"@) == Some(
            Json::Bool(true),
        ),
        first_text(json::json_of(*response)) matches Some(said) ==> result.text@ == said,
        first_text(json::json_of(*response)) is None ==> result.text@.len() == 0,
        !result.is_error ==> json::json_opt(result.json) == json::parsed(result.text@),
        result.is_error ==> (result.json matches Some(value) && wraps_error(
            json::json_of(value),
            result.text@,
        )),
{
    lemma_message_names();
    reveal_strlit("");
}

/// Whether `value` is the object that wraps the text of an error.
pub open spec fn wraps_error(value: Json, said: Seq<char>) -> bool {
    &&& request_laws::under(value, "__is_error"@) == Some(Json::Bool(true))
    &&& request_laws::under(value, "__text"@) == Some(Json::Str(said))
    &&& request_laws::only(value, set!["__is_error"@, "__text"@])
}

/// What is made of a call whose text was parsed: an error is wrapped whatever came of parsing it,
/// and a success is what was parsed.
pub proof fn law_parsed_call(
    is_error: bool,
    said: String,
    parsed: Option<serde_json::Value>,
    result: ToolCallResult,
)
    requires
        call_ensures(stdio::tool_call_of, (is_error, said, parsed), result),
    ensures
        result.is_error == is_error,
        result.text@ == said@,
        is_error ==> (result.json matches Some(value) && wraps_error(json::json_of(value), said@)),
        !is_error ==> json::json_opt(result.json) == json::json_opt(parsed),
{
    lemma_message_names();
}

/// A server that is named and there comes first; then, of the server to test, the one that was
/// built; then the one on the search path.
pub proof fn law_named_server_comes_first(
    explicit: Option<String>,
    explicit_exists: bool,
    built: String,
    built_exists: bool,
    on_path: Option<String>,
    reference: Option<String>,
    tested: Option<String>,
    target: Option<&str>,
    workspace_target: &str,
    path: String,
)
    requires
        call_ensures(stdio::go_reference_binary, (explicit, explicit_exists, on_path), reference),
        call_ensures(
            stdio::rust_binary,
            (explicit, explicit_exists, built, built_exists, on_path),
            tested,
        ),
        call_ensures(stdio::built_binary, (target, workspace_target), path),
    ensures
        ({
            let named = explicit is Some && explicit->0@.len() > 0 && explicit_exists;
            &&& named ==> reference == explicit && tested == explicit
            &&& !named ==> reference == on_path
            &&& !named && built_exists ==> tested == Some(built)
            &&& !named && !built_exists ==> tested == on_path
        }),
        target matches Some(dir) ==> path@ == dir@ + "/debug/debug-mcp"@,
        target is None ==> path@ == workspace_target@ + "/debug/debug-mcp"@,
{
}

/// Whether `j` is the greatest index in `pairs` with the key `key`.
pub open spec fn last_with_key(
    pairs: Seq<(&str, serde_json::Value)>,
    key: Seq<char>,
    j: int,
) -> bool {
    &&& 0 <= j < pairs.len()
    &&& pairs[j].0@ == key
    &&& forall|k: int| j < k < pairs.len() ==> (#[trigger] pairs[k]).0@ != key
}

proof fn lemma_pairs(pairs: Seq<(&str, serde_json::Value)>)
    ensures
        ({
            let entries = harness::pair_entries(pairs);
            &&& forall|i: int|
                0 <= i < pairs.len() ==> entries.dom().contains((#[trigger] pairs[i]).0@)
            &&& forall|j: int, key: Seq<char>| #[trigger]
                last_with_key(pairs, key, j) ==> entries[key] == json::json_of(pairs[j].1)
            &&& forall|key: Seq<char>| #[trigger]
                entries.dom().contains(key) ==> exists|i: int|
                    0 <= i < pairs.len() && (#[trigger] pairs[i]).0@ == key
        }),
    decreases pairs.len(),
{
    let entries = harness::pair_entries(pairs);
    if pairs.len() > 0 {
        let head = pairs.drop_last();
        lemma_pairs(head);
        let before = harness::pair_entries(head);
        assert forall|i: int| 0 <= i < pairs.len() implies entries.dom().contains(
            (#[trigger] pairs[i]).0@,
        ) by {
            if i < head.len() {
                assert(before.dom().contains(head[i].0@));
            }
        }
        assert forall|j: int, key: Seq<char>| #[trigger]
            last_with_key(pairs, key, j) implies entries[key] == json::json_of(pairs[j].1) by {
            if j < head.len() {
                assert(pairs[pairs.len() - 1].0@ != key);
                assert forall|k: int| j < k < head.len() implies (#[trigger] head[k]).0@
                    != key by {
                    assert(head[k] == pairs[k]);
                }
                assert(last_with_key(head, key, j));
            }
        }
        assert forall|key: Seq<char>| #[trigger] entries.dom().contains(key) implies exists|i: int|
            0 <= i < pairs.len() && (#[trigger] pairs[i]).0@ == key by {
            if key == pairs.last().0@ {
                assert(pairs[pairs.len() - 1].0@ == key);
            } else {
                assert(before.dom().contains(key));
                let i = choose|i: int| 0 <= i < head.len() && (#[trigger] head[i]).0@ == key;
                assert(pairs[i].0@ == key);
            }
        }
    }
}

/// An object made of pairs has an entry for each key, with the value of the last pair that has it,
/// and no other entry.
pub proof fn law_object_has_every_pair(
    pairs: &[(&str, serde_json::Value)],
    map: serde_json::Map<String, serde_json::Value>,
)
    requires
        call_ensures(harness::obj, (pairs,), map),
    ensures
        forall|i: int|
            0 <= i < pairs@.len() ==> json::entries_of(map).dom().contains(
                (#[trigger] pairs@[i]).0@,
            ),
        forall|j: int, key: Seq<char>| #[trigger]
            last_with_key(pairs@, key, j) ==> json::entries_of(map)[key] == json::json_of(
                pairs@[j].1,
            ),
        forall|key: Seq<char>| #[trigger]
            json::entries_of(map).dom().contains(key) ==> exists|i: int|
                0 <= i < pairs@.len() && (#[trigger] pairs@[i]).0@ == key,
{
    lemma_pairs(pairs@);
}

/// What a tool returned is read as the object that it is, and as nothing else; the message of an
/// error is its own.
pub proof fn law_returned_object_is_read(
    label: &str,
    outcome: &ToolOutcome,
    map: Option<serde_json::Map<String, serde_json::Value>>,
    value: serde_json::Value,
    returned: &ToolOutcome,
    entries: serde_json::Map<String, serde_json::Value>,
    message: String,
    error: &ToolOutcome,
    said: &str,
)
    requires
        call_ensures(harness::json_obj, (outcome,), map),
        *returned == ToolOutcome::Json(value),
        json::json_of(value) is Object,
        call_ensures(harness::expect_json_obj, (label, returned), entries),
        *error == ToolOutcome::Error(message),
        call_ensures(harness::expect_error, (label, error), said),
    ensures
        *outcome matches ToolOutcome::Json(v) ==> (json::json_of(v) is Object <==> map is Some),
        *outcome matches ToolOutcome::Json(v) ==> map is Some ==> json::json_of(v)
            == Json::Object(json::entries_of(map->0)),
        !(*outcome is Json) ==> map is None,
        json::json_of(value) == Json::Object(json::entries_of(entries)),
        said@ == message@,
{
}

/// The live suite runs exactly when the debugger and every fixture are there; else the reason
/// names the debugger, or the first fixture that is missing. A test that is skipped says so with
/// its name and the reason.
pub proof fn law_live_suite_runs_when_all_is_there(
    detected: &Result<Detected, BackendError>,
    found: bool,
    available: bool,
    fixtures: &Vec<Fixture>,
    outcome: Result<(), String>,
    test_name: &str,
    prereqs: &Result<(), String>,
    line: Option<String>,
)
    requires
        call_ensures(harness::lldb_dap_available, (detected,), found),
        call_ensures(harness::live_prereqs, (available, fixtures), outcome),
        call_ensures(harness::should_skip, (test_name, prereqs), line),
    ensures
        found <==> *detected is Ok,
        outcome is Ok <==> available && forall|i: int|
            0 <= i < fixtures@.len() ==> (#[trigger] fixtures@[i]).exists,
        !available ==> (outcome matches Err(reason) && reason@
            == "lldb-dap not found (set LLDB_DAP_PATH or install lldb-dap)"@),
        available ==> (outcome matches Err(reason) ==> exists|i: int|
            0 <= i < fixtures@.len() && !(#[trigger] fixtures@[i]).exists && (forall|j: int|
                0 <= j < i ==> (#[trigger] fixtures@[j]).exists) && reason@ == "fixture "@
                + fixtures@[i].shown@
                + " missing — run `make -C testdata` to build the C fixtures"@),
        *prereqs is Ok <==> line is None,
        *prereqs matches Err(reason) ==> (line matches Some(l) && l@ == "SKIP "@ + test_name@ + ": "@
            + reason@),
{
    let is_missing = harness::missing();
    let i = crate::model::first_index(fixtures@, is_missing);
    crate::model::lemma_first_index_found(fixtures@, is_missing);
    crate::model::lemma_first_index_bounds(fixtures@, is_missing);
    assert forall|j: int| 0 <= j < i implies (#[trigger] fixtures@[j]).exists by {
        assert(!is_missing(fixtures@[j]));
    }
    if i < fixtures@.len() {
        assert(is_missing(fixtures@[i]));
        assert(!fixtures@[i].exists);
    }
}

/// A list of texts becomes the array of these texts, in order; a text becomes itself; and what is
/// put under a key is there, with everything else as it was.
pub proof fn law_values_hold_what_they_are_made_of(
    items: &Vec<String>,
    list: serde_json::Value,
    said: &str,
    value: serde_json::Value,
    map: &mut serde_json::Map<String, serde_json::Value>,
    key: &str,
    put: serde_json::Value,
    option: &Option<serde_json::Value>,
    copy: Option<serde_json::Value>,
)
    requires
        call_ensures(json::text_list_value, (items,), list),
        call_ensures(json::text_value, (said,), value),
        call_ensures(json::put, (map, key, put), ()),
        call_ensures(json::clone_option, (option,), copy),
    ensures
        request_laws::lists_texts(json::json_of(list), items@),
        json::json_of(value) == Json::Str(said@),
        json::entries_of(*final(map)).dom().contains(key@),
        json::entries_of(*final(map))[key@] == json::json_of(put),
        forall|other: Seq<char>|
            other != key@ ==> (#[trigger] json::entries_of(*final(map)).dom().contains(other)
                <==> json::entries_of(*old(map)).dom().contains(other)),
        *option is Some <==> copy is Some,
        *option is Some ==> json::json_of(copy->0) == json::json_of((*option)->0),
{
}

} // verus!
