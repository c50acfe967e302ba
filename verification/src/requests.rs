//! The requests that are sent to the debugger, each with the arguments that it expects.

use vstd::prelude::*;

use crate::args;
use crate::json::{self, Json};
use crate::types::{FunctionBp, FunctionBpView, SourceBp, SourceBpView};
use crate::wire::{self, Request, RequestView};

verus! {

/// The arguments of `initialize`.
pub open spec fn initialize_arguments() -> Json {
    Json::Object(
        map![
            "clientID"@ => Json::Str("lldb-debug-mcp"@),
            "adapterID"@ => Json::Str("lldb-dap"@),
            "pathFormat"@ => Json::Str("path"@),
            "linesStartAt1"@ => Json::Bool(true),
            "columnsStartAt1"@ => Json::Bool(true),
            "supportsVariableType"@ => Json::Bool(true),
            "supportsRunInTerminalRequest"@ => Json::Bool(false),
        ],
    )
}

/// One line breakpoint; a condition is given only when there is one.
pub open spec fn source_bp_json(bp: SourceBpView) -> Json {
    Json::Object(
        args::with_text(map!["line"@ => Json::Int(bp.line)], "condition"@, bp.condition),
    )
}

/// One function breakpoint; a condition is given only when there is one.
pub open spec fn function_bp_json(bp: FunctionBpView) -> Json {
    Json::Object(
        args::with_text(map!["name"@ => Json::Str(bp.name)], "condition"@, bp.condition),
    )
}

/// The request that sets the breakpoints of one file.
pub open spec fn set_breakpoints_request(file: Seq<char>, bps: Seq<SourceBpView>) -> RequestView {
    wire::request_view(
        "setBreakpoints"@,
        Some(
            Json::Object(
                map![
                    "source"@ => Json::Object(map!["path"@ => Json::Str(file)]),
                    "breakpoints"@ => Json::Array(
                        Seq::new(bps.len(), |i: int| source_bp_json(bps[i])),
                    ),
                ],
            ),
        ),
    )
}

/// The request that sets the function breakpoints.
pub open spec fn set_function_breakpoints_request(bps: Seq<FunctionBpView>) -> RequestView {
    wire::request_view(
        "setFunctionBreakpoints"@,
        Some(
            Json::Object(
                map![
                    "breakpoints"@ => Json::Array(
                        Seq::new(bps.len(), |i: int| function_bp_json(bps[i])),
                    ),
                ],
            ),
        ),
    )
}

/// The request `command` with one argument.
pub open spec fn request_with(command: Seq<char>, key: Seq<char>, value: Json) -> RequestView {
    wire::request_view(command, Some(Json::Object(map![key => value])))
}

/// The arguments of an evaluation; the frame is given only when there is one.
pub open spec fn evaluate_arguments(
    expression: Seq<char>,
    frame_id: Option<i64>,
    context: Seq<char>,
) -> Json {
    let base = map!["expression"@ => Json::Str(expression)];
    let framed = match frame_id {
        Some(id) => base.insert("frameId"@, Json::Int(id as int)),
        None => base,
    };
    Json::Object(framed.insert("context"@, Json::Str(context)))
}

/// The arguments of a step; the granularity is given only when there is one.
pub open spec fn step_arguments(thread_id: i64, granularity: Option<Seq<char>>) -> Json {
    let base = map!["threadId"@ => Json::Int(thread_id as int)];
    Json::Object(
        match granularity {
            Some(g) => base.insert("granularity"@, Json::Str(g)),
            None => base,
        },
    )
}

/// The view of an optional text.
pub open spec fn str_opt(text: Option<&str>) -> Option<Seq<char>> {
    match text {
        Some(t) => Some(t@),
        None => None,
    }
}

fn request_object(command: &str, map: serde_json::Map<String, serde_json::Value>) -> (request:
    Request)
    ensures
        request@ == wire::request_view(command@, Some(Json::Object(json::entries_of(map)))),
{
    Request::new(command, Some(json::object_value(map)))
}

fn request_one(command: &str, key: &str, value: serde_json::Value) -> (request: Request)
    ensures
        request@ == request_with(command@, key@, json::json_of(value)),
{
    let mut map = json::new_map();
    json::put(&mut map, key, value);
    request_object(command, map)
}

/// `initialize`.
pub fn initialize() -> (request: Request)
    ensures
        request@ == wire::request_view("initialize"@, Some(initialize_arguments())),
{
    let mut map = json::new_map();
    json::put(&mut map, "clientID", json::text_value("lldb-debug-mcp"));
    json::put(&mut map, "adapterID", json::text_value("lldb-dap"));
    json::put(&mut map, "pathFormat", json::text_value("path"));
    json::put(&mut map, "linesStartAt1", json::bool_value(true));
    json::put(&mut map, "columnsStartAt1", json::bool_value(true));
    json::put(&mut map, "supportsVariableType", json::bool_value(true));
    json::put(&mut map, "supportsRunInTerminalRequest", json::bool_value(false));
    request_object("initialize", map)
}

/// `launch` with the given arguments.
pub fn launch(arguments: serde_json::Value) -> (request: Request)
    ensures
        request@ == wire::request_view("launch"@, Some(json::json_of(arguments))),
{
    Request::new("launch", Some(arguments))
}

/// `attach` with the given arguments.
pub fn attach(arguments: serde_json::Value) -> (request: Request)
    ensures
        request@ == wire::request_view("attach"@, Some(json::json_of(arguments))),
{
    Request::new("attach", Some(arguments))
}

/// `setBreakpoints`: all the breakpoints of one file.
pub fn set_breakpoints(file: &str, bps: &Vec<SourceBp>) -> (request: Request)
    ensures
        request@ == set_breakpoints_request(file@, crate::model::views(bps@)),
{
    let ghost all = crate::model::views(bps@);
    let mut list: Vec<serde_json::Value> = Vec::new();
    let mut i: usize = 0;
    while i < bps.len()
        invariant
            i <= bps@.len(),
            all == crate::model::views(bps@),
            list@.len() == i,
            forall|j: int| 0 <= j < i ==> json::json_of(#[trigger] list@[j]) == source_bp_json(
                all[j],
            ),
        decreases bps@.len() - i,
    {
        let mut map = json::new_map();
        json::put(&mut map, "line", json::int_value(bps[i].line));
        if !bps[i].condition.as_str().is_empty() {
            json::put(&mut map, "condition", json::text_value(bps[i].condition.as_str()));
        }
        list.push(json::object_value(map));
        i += 1;
    }
    assert(json::jsons(list@) =~= Seq::new(all.len(), |k: int| source_bp_json(all[k])));
    let mut source = json::new_map();
    json::put(&mut source, "path", json::text_value(file));
    let mut map = json::new_map();
    json::put(&mut map, "source", json::object_value(source));
    json::put(&mut map, "breakpoints", json::array_value(list));
    request_object("setBreakpoints", map)
}

/// `setFunctionBreakpoints`: all the function breakpoints.
pub fn set_function_breakpoints(bps: &Vec<FunctionBp>) -> (request: Request)
    ensures
        request@ == set_function_breakpoints_request(crate::model::views(bps@)),
{
    let ghost all = crate::model::views(bps@);
    let mut list: Vec<serde_json::Value> = Vec::new();
    let mut i: usize = 0;
    while i < bps.len()
        invariant
            i <= bps@.len(),
            all == crate::model::views(bps@),
            list@.len() == i,
            forall|j: int| 0 <= j < i ==> json::json_of(#[trigger] list@[j]) == function_bp_json(
                all[j],
            ),
        decreases bps@.len() - i,
    {
        let mut map = json::new_map();
        json::put(&mut map, "name", json::text_value(bps[i].name.as_str()));
        if !bps[i].condition.as_str().is_empty() {
            json::put(&mut map, "condition", json::text_value(bps[i].condition.as_str()));
        }
        list.push(json::object_value(map));
        i += 1;
    }
    assert(json::jsons(list@) =~= Seq::new(all.len(), |k: int| function_bp_json(all[k])));
    request_one("setFunctionBreakpoints", "breakpoints", json::array_value(list))
}

/// `setExceptionBreakpoints` without filters.
pub fn set_exception_breakpoints() -> (request: Request)
    ensures
        request@ == request_with(
            "setExceptionBreakpoints"@,
            "filters"@,
            Json::Array(Seq::empty()),
        ),
{
    let none: Vec<serde_json::Value> = Vec::new();
    assert(json::jsons(none@) =~= Seq::<Json>::empty());
    request_one("setExceptionBreakpoints", "filters", json::array_value(none))
}

/// `configurationDone`.
pub fn configuration_done() -> (request: Request)
    ensures
        request@ == wire::request_view("configurationDone"@, None),
{
    Request::new("configurationDone", None)
}

/// `continue`.
pub fn cont(thread_id: i64) -> (request: Request)
    ensures
        request@ == request_with("continue"@, "threadId"@, Json::Int(thread_id as int)),
{
    request_one("continue", "threadId", json::int_value(thread_id))
}

/// A step of the kind that `command` names.
pub fn step(command: &str, thread_id: i64, granularity: Option<&str>) -> (request: Request)
    ensures
        request@ == wire::request_view(
            command@,
            Some(step_arguments(thread_id, str_opt(granularity))),
        ),
{
    let mut map = json::new_map();
    json::put(&mut map, "threadId", json::int_value(thread_id));
    if let Some(g) = granularity {
        json::put(&mut map, "granularity", json::text_value(g));
    }
    request_object(command, map)
}

/// `pause`, of all threads.
pub fn pause() -> (request: Request)
    ensures
        request@ == request_with("pause"@, "threadId"@, Json::Int(0)),
{
    request_one("pause", "threadId", json::int_value(0))
}

/// `threads`.
pub fn threads() -> (request: Request)
    ensures
        request@ == wire::request_view("threads"@, None),
{
    Request::new("threads", None)
}

/// The arguments of `stackTrace`.
pub open spec fn stack_trace_arguments(thread_id: i64, start: i64, levels: i64) -> Json {
    Json::Object(
        map![
            "threadId"@ => Json::Int(thread_id as int),
            "startFrame"@ => Json::Int(start as int),
            "levels"@ => Json::Int(levels as int),
        ],
    )
}

/// `stackTrace`.
pub fn stack_trace(thread_id: i64, start: i64, levels: i64) -> (request: Request)
    ensures
        request@ == wire::request_view(
            "stackTrace"@,
            Some(stack_trace_arguments(thread_id, start, levels)),
        ),
{
    let mut map = json::new_map();
    json::put(&mut map, "threadId", json::int_value(thread_id));
    json::put(&mut map, "startFrame", json::int_value(start));
    json::put(&mut map, "levels", json::int_value(levels));
    request_object("stackTrace", map)
}

/// `scopes`.
pub fn scopes(frame_id: i64) -> (request: Request)
    ensures
        request@ == request_with("scopes"@, "frameId"@, Json::Int(frame_id as int)),
{
    request_one("scopes", "frameId", json::int_value(frame_id))
}

/// `variables`.
pub fn variables(variables_reference: i64) -> (request: Request)
    ensures
        request@ == request_with(
            "variables"@,
            "variablesReference"@,
            Json::Int(variables_reference as int),
        ),
{
    request_one("variables", "variablesReference", json::int_value(variables_reference))
}

/// `evaluate`.
pub fn evaluate(expression: &str, frame_id: Option<i64>, context: &str) -> (request: Request)
    ensures
        request@ == wire::request_view(
            "evaluate"@,
            Some(evaluate_arguments(expression@, frame_id, context@)),
        ),
{
    let mut map = json::new_map();
    json::put(&mut map, "expression", json::text_value(expression));
    if let Some(id) = frame_id {
        json::put(&mut map, "frameId", json::int_value(id));
    }
    json::put(&mut map, "context", json::text_value(context));
    request_object("evaluate", map)
}

/// A memory reference and a count, the latter under `count_key`.
pub open spec fn memory_arguments(
    address: Seq<char>,
    count_key: Seq<char>,
    count: i64,
) -> Json {
    Json::Object(
        map!["memoryReference"@ => Json::Str(address), count_key => Json::Int(count as int)],
    )
}

/// `readMemory`.
pub fn read_memory(address: &str, count: i64) -> (request: Request)
    ensures
        request@ == wire::request_view(
            "readMemory"@,
            Some(memory_arguments(address@, "count"@, count)),
        ),
{
    let mut map = json::new_map();
    json::put(&mut map, "memoryReference", json::text_value(address));
    json::put(&mut map, "count", json::int_value(count));
    request_object("readMemory", map)
}

/// `disassemble`.
pub fn disassemble(address: &str, count: i64) -> (request: Request)
    ensures
        request@ == wire::request_view(
            "disassemble"@,
            Some(memory_arguments(address@, "instructionCount"@, count)),
        ),
{
    let mut map = json::new_map();
    json::put(&mut map, "memoryReference", json::text_value(address));
    json::put(&mut map, "instructionCount", json::int_value(count));
    request_object("disassemble", map)
}

/// `disconnect`.
pub fn disconnect(terminate: bool) -> (request: Request)
    ensures
        request@ == request_with("disconnect"@, "terminateDebuggee"@, Json::Bool(terminate)),
{
    request_one("disconnect", "terminateDebuggee", json::bool_value(terminate))
}

} // verus!
