//! A client that talks to a server in lines of JSON: the messages that it sends, and how it finds
//! the response to one of them.

use vstd::prelude::*;

use crate::json::{self, Json};
use crate::text;

verus! {

/// The message `method` with the number `id`.
pub open spec fn call_entries(id: i64, method: Seq<char>) -> Map<Seq<char>, Json> {
    map![
        "jsonrpc"@ => Json::Str("2.0"@),
        "id"@ => Json::Int(id as int),
        "method"@ => Json::Str(method),
    ]
}

/// The client's name and version.
pub open spec fn client_info() -> Json {
    Json::Object(
        map![
            "name"@ => Json::Str("parity-harness"@),
            "version"@ => Json::Str("1.0.0"@),
        ],
    )
}

/// The `initialize` message with the number `id`.
pub open spec fn initialize_json(id: i64) -> Json {
    Json::Object(
        call_entries(id, "initialize"@).insert(
            "params"@,
            Json::Object(
                map![
                    "protocolVersion"@ => Json::Str("2024-11-05"@),
                    "capabilities"@ => Json::Object(Map::empty()),
                    "clientInfo"@ => client_info(),
                ],
            ),
        ),
    )
}

/// The message that tells the server that the client is ready.
pub open spec fn initialized_json() -> Json {
    Json::Object(
        map![
            "jsonrpc"@ => Json::Str("2.0"@),
            "method"@ => Json::Str("notifications/initialized"@),
        ],
    )
}

/// The message that asks for the tools.
pub open spec fn list_tools_json(id: i64) -> Json {
    Json::Object(
        call_entries(id, "tools/list"@).insert("params"@, Json::Object(Map::empty())),
    )
}

/// The message that calls the tool `name` with the arguments `arguments`.
pub open spec fn call_tool_json(id: i64, name: Seq<char>, arguments: Json) -> Json {
    Json::Object(
        call_entries(id, "tools/call"@).insert(
            "params"@,
            Json::Object(map!["name"@ => Json::Str(name), "arguments"@ => arguments]),
        ),
    )
}

fn call_map(id: i64, method: &str) -> (map: serde_json::Map<String, serde_json::Value>)
    ensures
        json::entries_of(map) == call_entries(id, method@),
{
    let mut map = json::new_map();
    json::put(&mut map, "jsonrpc", json::text_value("2.0"));
    json::put(&mut map, "id", json::int_value(id));
    json::put(&mut map, "method", json::text_value(method));
    map
}

/// The `initialize` message with the number `id`.
pub fn initialize_message(id: i64) -> (message: serde_json::Value)
    ensures
        json::json_of(message) == initialize_json(id),
{
    let mut info = json::new_map();
    json::put(&mut info, "name", json::text_value("parity-harness"));
    json::put(&mut info, "version", json::text_value("1.0.0"));
    let mut params = json::new_map();
    json::put(&mut params, "protocolVersion", json::text_value("2024-11-05"));
    json::put(&mut params, "capabilities", json::object_value(json::new_map()));
    json::put(&mut params, "clientInfo", json::object_value(info));
    let mut map = call_map(id, "initialize");
    json::put(&mut map, "params", json::object_value(params));
    json::object_value(map)
}

/// The message that tells the server that the client is ready.
pub fn initialized_message() -> (message: serde_json::Value)
    ensures
        json::json_of(message) == initialized_json(),
{
    let mut map = json::new_map();
    json::put(&mut map, "jsonrpc", json::text_value("2.0"));
    json::put(&mut map, "method", json::text_value("notifications/initialized"));
    json::object_value(map)
}

/// The message that asks for the tools.
pub fn list_tools_message(id: i64) -> (message: serde_json::Value)
    ensures
        json::json_of(message) == list_tools_json(id),
{
    let mut map = call_map(id, "tools/list");
    json::put(&mut map, "params", json::object_value(json::new_map()));
    json::object_value(map)
}

/// The message that calls the tool `name`.
pub fn call_tool_message(id: i64, name: &str, arguments: serde_json::Value) -> (message:
    serde_json::Value)
    ensures
        json::json_of(message) == call_tool_json(id, name@, json::json_of(arguments)),
{
    let mut params = json::new_map();
    json::put(&mut params, "name", json::text_value(name));
    json::put(&mut params, "arguments", arguments);
    let mut map = call_map(id, "tools/call");
    json::put(&mut map, "params", json::object_value(params));
    json::object_value(map)
}

/// The line that carries `message`: its text, which has no line feed, and a line feed. Whoever
/// reads the line for the response to a message finds the value again, if it is one and is plain.
pub fn line_of(message: &serde_json::Value) -> (line: String)
    ensures
        line@ == json::printed(json::json_of(*message)).push('\n'),
        !json::printed(json::json_of(*message)).contains('\n'),
        forall|id: i64|
            json::plain(json::json_of(*message), 127) && answers(json::json_of(*message), id)
                ==> #[trigger] response_in(line@, id) == Some(json::json_of(*message)),
{
    let shown = json::print(message);
    let ghost said = shown@;
    proof {
        reveal_strlit("\n");
    }
    let line = shown.concat("\n");
    proof {
        assert(line@ =~= said.push('\n'));
        lemma_trim_line(said);
    }
    line
}

proof fn lemma_trim_line(said: Seq<char>)
    requires
        text::trimmed(said) == said,
    ensures
        text::trimmed(said.push('\n')) == said,
{
    let white = |c: char| text::white_space(c);
    let line = said.push('\n');
    assert(line.drop_last() =~= said);
    assert(white(line.last()));
    assert(text::trim_end_by(line, white) == text::trim_end_by(said, white));
}

/// The response to message `id` that a line is, if it is one: lines that are blank, not JSON, or
/// about something else are none.
pub open spec fn response_in(line: Seq<char>, id: i64) -> Option<Json> {
    let shown = text::trimmed(line);
    if shown.len() == 0 {
        None
    } else {
        match json::parsed(shown) {
            Some(value) => if answers(value, id) {
                Some(value)
            } else {
                None
            },
            None => None,
        }
    }
}

/// Whether `value` is the response to message `id`.
pub open spec fn answers(value: Json, id: i64) -> bool {
    json::member(value, "id"@) == Some(Json::Int(id as int))
}

/// Whether `value` is the response to message `id`.
pub fn is_response(value: &serde_json::Value, id: i64) -> (is: bool)
    ensures
        is == answers(json::json_of(*value), id),
{
    match json::get(value, "id") {
        Some(found) => match json::as_i64(found) {
            Some(n) => n == id,
            None => false,
        },
        None => false,
    }
}

/// What a line means to the one that waits for the response to a message.
#[derive(Debug)]
pub enum Reading {
    /// It is not the response.
    Skip,
    /// It is the response.
    Found(serde_json::Value),
    /// There are no more lines, for the reason given.
    Closed(String),
}

/// Reads a line, or the end of the lines, for the response to message `id`.
pub fn read_response(line: Option<&str>, id: i64) -> (reading: Reading)
    ensures
        match (line, reading) {
            (Some(l), Reading::Skip) => response_in(l@, id) is None,
            (Some(l), Reading::Found(value)) => response_in(l@, id) == Some(json::json_of(value)),
            (None, Reading::Closed(reason)) => reason@
                == "server closed stdout before responding to id "@ + text::signed_decimal(
                id as int,
            ),
            _ => false,
        },
{
    let line = match line {
        Some(line) => line,
        None => return Reading::Closed(
            text::concat2(
                "server closed stdout before responding to id ",
                text::signed_decimal_text(id).as_str(),
            ),
        ),
    };
    let shown = text::trim_text(line);
    if shown.as_str().is_empty() {
        return Reading::Skip;
    }
    match json::parse(shown.as_str()) {
        Some(value) => if is_response(&value, id) {
            Reading::Found(value)
        } else {
            Reading::Skip
        },
        None => Reading::Skip,
    }
}

/// What a response says of the server, or null.
pub open spec fn server_info_json(response: Json) -> Json {
    match json::member_opt(json::member(response, "result"@), "serverInfo"@) {
        Some(info) => info,
        None => Json::Null,
    }
}

/// What the response to `initialize` says of the server, or null.
pub fn server_info(response: &serde_json::Value) -> (info: serde_json::Value)
    ensures
        json::json_of(info) == server_info_json(json::json_of(*response)),
{
    match json::get(response, "result") {
        Some(result) => match json::get(result, "serverInfo") {
            Some(info) => json::clone_value(info),
            None => json::null_value(),
        },
        None => json::null_value(),
    }
}

/// The elements of an array, and of nothing else.
pub open spec fn elements(value: Option<Json>) -> Seq<Json> {
    match value {
        Some(Json::Array(items)) => items,
        _ => Seq::empty(),
    }
}

/// The tools that the response to the question for them lists.
pub fn list_tools(response: &serde_json::Value) -> (tools: Vec<serde_json::Value>)
    ensures
        json::jsons(tools@) == elements(
            json::member_opt(json::member(json::json_of(*response), "result"@), "tools"@),
        ),
{
    let mut tools: Vec<serde_json::Value> = Vec::new();
    assert(json::jsons(tools@) =~= Seq::<Json>::empty());
    let result = match json::get(response, "result") {
        Some(result) => result,
        None => return tools,
    };
    let found = match json::get(result, "tools") {
        Some(found) => found,
        None => return tools,
    };
    let items = match json::as_array(found) {
        Some(items) => items,
        None => return tools,
    };
    let mut i: usize = 0;
    while i < items.len()
        invariant
            i <= items@.len(),
            tools@.len() == i,
            forall|j: int|
                0 <= j < i ==> json::json_of(#[trigger] tools@[j]) == json::json_of(items@[j]),
        decreases items@.len() - i,
    {
        tools.push(json::clone_value(&items[i]));
        i += 1;
    }
    assert(json::jsons(tools@) =~= json::jsons(items@));
    tools
}

/// What a call of a tool came to.
#[derive(Debug, Clone)]
pub struct ToolCallResult {
    pub is_error: bool,
    pub text: String,
    /// Of an error, the object that wraps its text. Of a success, what the text says when it is
    /// JSON; a plain text is not wrapped, and gives nothing here.
    pub json: Option<serde_json::Value>,
}

/// Whether the result of a call is an error.
pub open spec fn call_failed(response: Json) -> bool {
    json::member_opt(json::member(response, "result"@), "isError"@) == Some(Json::Bool(true))
}

/// The text of the result of a call: that of its first content, if it has one.
pub open spec fn call_text(response: Json) -> Seq<char> {
    let content = elements(json::member_opt(json::member(response, "result"@), "content"@));
    if content.len() > 0 {
        match json::member(content[0], "text"@) {
            Some(Json::Str(text)) => text,
            _ => Seq::empty(),
        }
    } else {
        Seq::empty()
    }
}

fn first_text(result: &serde_json::Value) -> (text: String)
    ensures
        text@ == ({
            let content = elements(json::member(json::json_of(*result), "content"@));
            if content.len() > 0 {
                match json::member(content[0], "text"@) {
                    Some(Json::Str(text)) => text,
                    _ => Seq::empty(),
                }
            } else {
                Seq::empty()
            }
        }),
{
    if let Some(content) = json::get(result, "content") {
        if let Some(items) = json::as_array(content) {
            if items.len() > 0 {
                if let Some(found) = json::get(&items[0], "text") {
                    if let Some(text) = json::as_str(found) {
                        return text.to_owned();
                    }
                }
            }
        }
    }
    String::new()
}

/// The object that wraps the text of an error, so that errors can be compared by structure.
pub open spec fn error_json(text: Seq<char>) -> Json {
    Json::Object(map!["__is_error"@ => Json::Bool(true), "__text"@ => Json::Str(text)])
}

fn error_value(text: &str) -> (value: serde_json::Value)
    ensures
        json::json_of(value) == error_json(text@),
{
    let mut map = json::new_map();
    json::put(&mut map, "__is_error", json::bool_value(true));
    json::put(&mut map, "__text", json::text_value(text));
    json::object_value(map)
}

/// The result of a call, given what parsing its text came to. The text of an error is wrapped,
/// whatever parsing it came to.
pub fn tool_call_of(is_error: bool, text: String, parsed: Option<serde_json::Value>) -> (result:
    ToolCallResult)
    ensures
        result.is_error == is_error,
        result.text == text,
        json::json_opt(result.json) == (if is_error {
            Some(error_json(text@))
        } else {
            json::json_opt(parsed)
        }),
{
    let json = if is_error {
        Some(error_value(text.as_str()))
    } else {
        parsed
    };
    ToolCallResult { is_error, text, json }
}

/// The result that the response to a call carries.
pub fn call_tool(response: &serde_json::Value) -> (result: ToolCallResult)
    ensures
        result.is_error == call_failed(json::json_of(*response)),
        result.text@ == call_text(json::json_of(*response)),
        json::json_opt(result.json) == (if call_failed(json::json_of(*response)) {
            Some(error_json(call_text(json::json_of(*response))))
        } else {
            json::parsed(call_text(json::json_of(*response)))
        }),
{
    let (is_error, text): (bool, String) = match json::get(response, "result") {
        Some(result) => {
            let is_error = match json::get(result, "isError") {
                Some(flag) => match json::as_bool(flag) {
                    Some(b) => b,
                    None => false,
                },
                None => false,
            };
            (is_error, first_text(result))
        },
        None => (false, String::new()),
    };
    assert(text@ =~= call_text(json::json_of(*response)));
    let parsed = json::parse(text.as_str());
    tool_call_of(is_error, text, parsed)
}

/// The messages of the client are plain as long as the arguments of a call are, so that a server
/// reads them back as they were sent.
pub proof fn law_messages_are_plain(id: i64, name: Seq<char>, arguments: Json)
    requires
        json::plain(arguments, 125),
    ensures
        json::plain(initialize_json(id), 127),
        json::plain(initialized_json(), 127),
        json::plain(list_tools_json(id), 127),
        json::plain(call_tool_json(id, name, arguments), 127),
{
    reveal_with_fuel(json::plain, 4);
}

/// Numbers the messages of one client.
#[derive(Debug)]
pub struct StdioMcp {
    pub next_id: i64,
}

impl StdioMcp {
    /// A client that has sent nothing.
    pub fn new() -> (client: Self)
        ensures
            client.next_id == 1,
    {
        StdioMcp { next_id: 1 }
    }

    /// The number of the next message.
    pub fn alloc_id(&mut self) -> (id: i64)
        requires
            old(self).next_id < i64::MAX,
        ensures
            id == old(self).next_id,
            final(self).next_id == old(self).next_id + 1,
    {
        let id: i64 = self.next_id;
        self.next_id = id + 1;
        id
    }
}

/// The reference server to compare with: the one that is named explicitly, if it is there, else
/// the one on the search path.
pub fn go_reference_binary(
    explicit: Option<String>,
    explicit_exists: bool,
    on_path: Option<String>,
) -> (binary: Option<String>)
    ensures
        binary == (match explicit {
            Some(path) if path@.len() > 0 && explicit_exists => Some(path),
            _ => on_path,
        }),
{
    match explicit {
        Some(path) => if !path.as_str().is_empty() && explicit_exists {
            Some(path)
        } else {
            on_path
        },
        None => on_path,
    }
}

/// Where a build puts the server: into the target directory that is set, else into that of the
/// workspace.
pub fn built_binary(target: Option<&str>, workspace_target: &str) -> (path: String)
    ensures
        path@ == (match target {
            Some(dir) => dir@,
            None => workspace_target@,
        }) + "/debug/debug-mcp"@,
{
    match target {
        Some(dir) => text::concat2(dir, "/debug/debug-mcp"),
        None => text::concat2(workspace_target, "/debug/debug-mcp"),
    }
}

/// The server to test: the one that is named explicitly, if it is there, else the one that was
/// built, if it is there, else the one on the search path.
pub fn rust_binary(
    explicit: Option<String>,
    explicit_exists: bool,
    built: String,
    built_exists: bool,
    on_path: Option<String>,
) -> (binary: Option<String>)
    ensures
        binary == (match explicit {
            Some(path) if path@.len() > 0 && explicit_exists => Some(path),
            _ => if built_exists {
                Some(built)
            } else {
                on_path
            },
        }),
{
    if let Some(path) = explicit {
        if !path.as_str().is_empty() && explicit_exists {
            return Some(path);
        }
    }
    if built_exists {
        Some(built)
    } else {
        on_path
    }
}

} // verus!
