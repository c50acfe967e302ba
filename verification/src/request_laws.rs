//! What each request says to the debugger: of every request that a call returns, which entries its
//! arguments have, and what stands under each.

use vstd::prelude::*;

use crate::args;
use crate::args::{LldbAttachArgs, LldbLaunchArgs};
use crate::backend;
use crate::backend::LldbBackend;
use crate::json;
use crate::json::Json;
use crate::requests;
use crate::types::{EvalMode, FunctionBp, Granularity, SourceBp, StepKind};
use crate::wire::Request;

verus! {

/// What `value` has under `key`, if it is an object that has such an entry.
pub open spec fn under(value: Json, key: Seq<char>) -> Option<Json> {
    match value {
        Json::Object(entries) => if entries.dom().contains(key) {
            Some(entries[key])
        } else {
            None
        },
        _ => None,
    }
}

/// Whether `value` is an object that has no entries but those under `keys`.
pub open spec fn only(value: Json, keys: Set<Seq<char>>) -> bool {
    match value {
        Json::Object(entries) => entries.dom().subset_of(keys),
        _ => false,
    }
}

/// What `request` says under `key`.
pub open spec fn said(request: Request, key: Seq<char>) -> Option<Json> {
    match request.arguments {
        Some(arguments) => under(json::json_of(arguments), key),
        None => None,
    }
}

/// Whether `request` says nothing but what stands under `keys`.
pub open spec fn says_only(request: Request, keys: Set<Seq<char>>) -> bool {
    match request.arguments {
        Some(arguments) => only(json::json_of(arguments), keys),
        None => false,
    }
}

/// Whether `request` asks for `command`, and has no number yet.
pub open spec fn asks(request: Request, command: Seq<char>) -> bool {
    request.command@ == command && request.ty@ == "request"@ && request.seq == 0
}

/// Leaving the session ends the debuggee exactly when that was asked for: the flag is passed on as
/// it is, and nothing else is said.
pub proof fn law_disconnect_passes_the_flag_on(terminate: bool, request: Request)
    requires
        call_ensures(requests::disconnect, (terminate,), request),
    ensures
        asks(request, "disconnect"@),
        said(request, "terminateDebuggee"@) == Some(Json::Bool(terminate)),
        says_only(request, set!["terminateDebuggee"@]),
{
}

/// Ending the debuggee and letting it live are different requests.
pub proof fn law_disconnects_differ(ending: Request, leaving: Request)
    requires
        call_ensures(requests::disconnect, (true,), ending),
        call_ensures(requests::disconnect, (false,), leaving),
    ensures
        said(ending, "terminateDebuggee"@) != said(leaving, "terminateDebuggee"@),
{
}

/// Whether `value` is the list of function breakpoints `bps`: one element for each, in order, with
/// its name, and with its condition exactly when it has one.
pub open spec fn lists_functions(value: Json, bps: Seq<FunctionBp>) -> bool {
    match value {
        Json::Array(items) => items.len() == bps.len() && forall|i: int|
            #![trigger items[i]]
            0 <= i < bps.len() ==> {
                &&& under(items[i], "name"@) == Some(Json::Str(bps[i].name@))
                &&& under(items[i], "condition"@) == if bps[i].condition@.len() > 0 {
                    Some(Json::Str(bps[i].condition@))
                } else {
                    None
                }
                &&& only(items[i], set!["name"@, "condition"@])
            },
        _ => false,
    }
}

/// Whether `value` is the list of line breakpoints `bps`: one element for each, in order, with its
/// line, and with its condition exactly when it has one.
pub open spec fn lists_lines(value: Json, bps: Seq<SourceBp>) -> bool {
    match value {
        Json::Array(items) => items.len() == bps.len() && forall|i: int|
            #![trigger items[i]]
            0 <= i < bps.len() ==> {
                &&& under(items[i], "line"@) == Some(Json::Int(bps[i].line as int))
                &&& under(items[i], "condition"@) == if bps[i].condition@.len() > 0 {
                    Some(Json::Str(bps[i].condition@))
                } else {
                    None
                }
                &&& only(items[i], set!["line"@, "condition"@])
            },
        _ => false,
    }
}

/// The names in the lists of breakpoints are told apart.
pub proof fn lemma_names_differ()
    ensures
        "name"@ != "condition"@,
        "line"@ != "condition"@,
        "source"@ != "breakpoints"@,
{
    reveal_strlit("name");
    reveal_strlit("line");
    reveal_strlit("condition");
    reveal_strlit("source");
    reveal_strlit("breakpoints");
    assert("name"@.len() == 4 && "line"@.len() == 4 && "condition"@.len() == 9);
    assert("source"@.len() == 6 && "breakpoints"@.len() == 11);
}

/// Setting the function breakpoints sends all of them, as the request replaces those that were
/// set: each with its name, and with its condition exactly when it has one.
pub proof fn law_all_function_breakpoints_are_sent(bps: &Vec<FunctionBp>, request: Request)
    requires
        call_ensures(requests::set_function_breakpoints, (bps,), request),
    ensures
        asks(request, "setFunctionBreakpoints"@),
        said(request, "breakpoints"@) matches Some(list) && lists_functions(list, bps@),
        says_only(request, set!["breakpoints"@]),
{
    lemma_names_differ();
}

/// Setting the breakpoints of a file sends all of them, as the request replaces those that were
/// set in that file: each with its line, and with its condition exactly when it has one.
pub proof fn law_all_line_breakpoints_are_sent(file: &str, bps: &Vec<SourceBp>, request: Request)
    requires
        call_ensures(requests::set_breakpoints, (file, bps), request),
    ensures
        asks(request, "setBreakpoints"@),
        said(request, "source"@) matches Some(source) && under(source, "path"@) == Some(
            Json::Str(file@),
        ) && only(source, set!["path"@]),
        said(request, "breakpoints"@) matches Some(list) && lists_lines(list, bps@),
        says_only(request, set!["source"@, "breakpoints"@]),
{
    lemma_names_differ();
}

/// No exception filter is asked for.
pub proof fn law_no_exception_filters(request: Request)
    requires
        call_ensures(requests::set_exception_breakpoints, (), request),
    ensures
        asks(request, "setExceptionBreakpoints"@),
        said(request, "filters"@) == Some(Json::Array(Seq::empty())),
        says_only(request, set!["filters"@]),
{
}

/// The end of the configuration and the question for the threads have no arguments.
pub proof fn law_requests_without_arguments(configured: Request, threads: Request)
    requires
        call_ensures(requests::configuration_done, (), configured),
        call_ensures(requests::threads, (), threads),
    ensures
        asks(configured, "configurationDone"@) && configured.arguments is None,
        asks(threads, "threads"@) && threads.arguments is None,
{
}

/// The debugger is told how the client counts and what it can do.
pub proof fn law_initialize_introduces_the_client(request: Request)
    requires
        call_ensures(requests::initialize, (), request),
    ensures
        asks(request, "initialize"@),
        said(request, "clientID"@) == Some(Json::Str("lldb-debug-mcp"@)),
        said(request, "adapterID"@) == Some(Json::Str("lldb-dap"@)),
        said(request, "pathFormat"@) == Some(Json::Str("path"@)),
        said(request, "linesStartAt1"@) == Some(Json::Bool(true)),
        said(request, "columnsStartAt1"@) == Some(Json::Bool(true)),
        said(request, "supportsVariableType"@) == Some(Json::Bool(true)),
        said(request, "supportsRunInTerminalRequest"@) == Some(Json::Bool(false)),
        says_only(
            request,
            set![
                "clientID"@,
                "adapterID"@,
                "pathFormat"@,
                "linesStartAt1"@,
                "columnsStartAt1"@,
                "supportsVariableType"@,
                "supportsRunInTerminalRequest"@,
            ],
        ),
{
    reveal_strlit("clientID");
    reveal_strlit("adapterID");
    reveal_strlit("pathFormat");
    reveal_strlit("linesStartAt1");
    reveal_strlit("columnsStartAt1");
    reveal_strlit("supportsVariableType");
    reveal_strlit("supportsRunInTerminalRequest");
    assert("clientID"@.len() == 8 && "adapterID"@.len() == 9 && "pathFormat"@.len() == 10);
    assert("linesStartAt1"@.len() == 13 && "columnsStartAt1"@.len() == 15);
    assert("supportsVariableType"@.len() == 20 && "supportsRunInTerminalRequest"@.len() == 28);
}

/// The arguments of a launch and of an attach are sent as they are.
pub proof fn law_given_arguments_are_sent(
    arguments: serde_json::Value,
    launching: Request,
    attaching: Request,
)
    requires
        call_ensures(requests::launch, (arguments,), launching),
        call_ensures(requests::attach, (arguments,), attaching),
    ensures
        asks(launching, "launch"@),
        launching.arguments matches Some(sent) && json::json_of(sent) == json::json_of(arguments),
        asks(attaching, "attach"@),
        attaching.arguments matches Some(sent) && json::json_of(sent) == json::json_of(arguments),
{
}

/// The thread that was named goes on, and nothing else is said.
pub proof fn law_continue_names_its_thread(thread_id: i64, request: Request)
    requires
        call_ensures(requests::cont, (thread_id,), request),
    ensures
        asks(request, "continue"@),
        said(request, "threadId"@) == Some(Json::Int(thread_id as int)),
        says_only(request, set!["threadId"@]),
{
}

/// A pause is for all threads, which the number zero stands for.
pub proof fn law_pause_is_for_all_threads(request: Request)
    requires
        call_ensures(requests::pause, (), request),
    ensures
        asks(request, "pause"@),
        said(request, "threadId"@) == Some(Json::Int(0)),
        says_only(request, set!["threadId"@]),
{
}

proof fn lemma_step_names()
    ensures
        "threadId"@ != "granularity"@,
        "line"@ != "instruction"@,
        "next"@ != "stepIn"@,
        "next"@ != "stepOut"@,
        "stepIn"@ != "stepOut"@,
{
    reveal_strlit("threadId");
    reveal_strlit("granularity");
    reveal_strlit("line");
    reveal_strlit("instruction");
    reveal_strlit("next");
    reveal_strlit("stepIn");
    reveal_strlit("stepOut");
    assert("threadId"@.len() == 8 && "granularity"@.len() == 11);
    assert("line"@.len() == 4 && "instruction"@.len() == 11);
    assert("next"@.len() == 4 && "stepIn"@.len() == 6 && "stepOut"@.len() == 7);
}

/// A step is asked for by the command that was given, in the thread that was given, and has a
/// granularity exactly when one was given.
pub proof fn law_step_says_what_it_was_given(
    command: &str,
    thread_id: i64,
    granularity: Option<&str>,
    request: Request,
)
    requires
        call_ensures(requests::step, (command, thread_id, granularity), request),
    ensures
        asks(request, command@),
        said(request, "threadId"@) == Some(Json::Int(thread_id as int)),
        granularity matches Some(g) ==> said(request, "granularity"@) == Some(Json::Str(g@)),
        granularity is None ==> said(request, "granularity"@) is None,
        says_only(request, set!["threadId"@, "granularity"@]),
{
    lemma_step_names();
}

/// A step goes as far as was asked for. Over and into alike: a granularity is said exactly when
/// one was asked for, a line as a line and an instruction as an instruction; a step out never has
/// one. The kind of the step is its command, and the thread is the one that was named.
pub proof fn law_step_goes_as_far_as_asked(
    kind: StepKind,
    thread_id: i64,
    granularity: Option<Granularity>,
    request: Request,
)
    requires
        call_ensures(backend::step_request, (kind, thread_id, granularity), request),
    ensures
        kind == StepKind::Over ==> asks(request, "next"@),
        kind == StepKind::Into ==> asks(request, "stepIn"@),
        kind == StepKind::Out ==> asks(request, "stepOut"@),
        said(request, "threadId"@) == Some(Json::Int(thread_id as int)),
        said(request, "granularity"@) is Some <==> kind != StepKind::Out && granularity is Some,
        kind != StepKind::Out && granularity == Some(Granularity::Line) ==> said(
            request,
            "granularity"@,
        ) == Some(Json::Str("line"@)),
        kind != StepKind::Out && granularity == Some(Granularity::Instruction) ==> said(
            request,
            "granularity"@,
        ) == Some(Json::Str("instruction"@)),
        says_only(request, set!["threadId"@, "granularity"@]),
{
    lemma_step_names();
}

/// Steps over and into say the same but for their commands.
pub proof fn law_over_and_into_differ_by_command_only(
    thread_id: i64,
    granularity: Option<Granularity>,
    over: Request,
    into: Request,
)
    requires
        call_ensures(backend::step_request, (StepKind::Over, thread_id, granularity), over),
        call_ensures(backend::step_request, (StepKind::Into, thread_id, granularity), into),
    ensures
        json::json_opt(over.arguments) == json::json_opt(into.arguments),
        over.command@ != into.command@,
{
    lemma_step_names();
}

/// The names of the kinds of steps and of the granularities.
pub proof fn law_step_names(
    kind: StepKind,
    granularity: Granularity,
    command: &'static str,
    name: &'static str,
)
    requires
        call_ensures(backend::step_command, (kind,), command),
        call_ensures(backend::granularity_str, (granularity,), name),
    ensures
        command@ == "next"@ <==> kind == StepKind::Over,
        command@ == "stepIn"@ <==> kind == StepKind::Into,
        command@ == "stepOut"@ <==> kind == StepKind::Out,
        name@ == "line"@ <==> granularity == Granularity::Line,
        name@ == "instruction"@ <==> granularity == Granularity::Instruction,
{
    lemma_step_names();
}

/// A stack trace is asked for from the frame on, and as deep, as was asked for.
pub proof fn law_stack_trace_says_which_frames(
    thread_id: i64,
    start: i64,
    levels: i64,
    request: Request,
)
    requires
        call_ensures(requests::stack_trace, (thread_id, start, levels), request),
    ensures
        asks(request, "stackTrace"@),
        said(request, "threadId"@) == Some(Json::Int(thread_id as int)),
        said(request, "startFrame"@) == Some(Json::Int(start as int)),
        said(request, "levels"@) == Some(Json::Int(levels as int)),
        says_only(request, set!["threadId"@, "startFrame"@, "levels"@]),
{
    reveal_strlit("threadId");
    reveal_strlit("startFrame");
    reveal_strlit("levels");
    assert("threadId"@.len() == 8 && "startFrame"@.len() == 10 && "levels"@.len() == 6);
}

/// The scopes are those of the frame that was named, the variables those of the reference.
pub proof fn law_scopes_and_variables_name_their_owner(
    frame_id: i64,
    reference: i64,
    scopes: Request,
    variables: Request,
)
    requires
        call_ensures(requests::scopes, (frame_id,), scopes),
        call_ensures(requests::variables, (reference,), variables),
    ensures
        asks(scopes, "scopes"@),
        said(scopes, "frameId"@) == Some(Json::Int(frame_id as int)),
        says_only(scopes, set!["frameId"@]),
        asks(variables, "variables"@),
        said(variables, "variablesReference"@) == Some(Json::Int(reference as int)),
        says_only(variables, set!["variablesReference"@]),
{
}

proof fn lemma_evaluation_names()
    ensures
        "expression"@ != "frameId"@,
        "expression"@ != "context"@,
        "frameId"@ != "context"@,
{
    reveal_strlit("expression");
    reveal_strlit("frameId");
    reveal_strlit("context");
    assert("expression"@.len() == 10 && "frameId"@.len() == 7 && "context"@.len() == 7);
    assert("frameId"@[0] == 'f' && "context"@[0] == 'c');
}

/// An evaluation has the text, the context and, exactly when there is one, the frame that it was
/// given.
pub proof fn law_evaluation_says_what_it_was_given(
    expression: &str,
    frame_id: Option<i64>,
    context: &str,
    request: Request,
)
    requires
        call_ensures(requests::evaluate, (expression, frame_id, context), request),
    ensures
        asks(request, "evaluate"@),
        said(request, "expression"@) == Some(Json::Str(expression@)),
        said(request, "context"@) == Some(Json::Str(context@)),
        frame_id matches Some(id) ==> said(request, "frameId"@) == Some(Json::Int(id as int)),
        frame_id is None ==> said(request, "frameId"@) is None,
        says_only(request, set!["expression"@, "frameId"@, "context"@]),
{
    lemma_evaluation_names();
}

/// An expression is evaluated as it stands, in its frame. A command has no frame; a debugger that
/// takes raw commands gets it as it stands, any other gets it behind a backtick.
pub proof fn law_commands_are_marked_where_they_must_be(
    backend: &LldbBackend,
    expr: &str,
    frame_id: Option<i64>,
    mode: EvalMode,
    request: Request,
)
    requires
        call_ensures(LldbBackend::evaluate_request, (backend, expr, frame_id, mode), request),
    ensures
        asks(request, "evaluate"@),
        mode == EvalMode::Expression ==> {
            &&& said(request, "expression"@) == Some(Json::Str(expr@))
            &&& said(request, "context"@) == Some(Json::Str("variables"@))
            &&& frame_id matches Some(id) ==> said(request, "frameId"@) == Some(
                Json::Int(id as int),
            )
            &&& frame_id is None ==> said(request, "frameId"@) is None
        },
        mode == EvalMode::Repl ==> {
            &&& said(request, "expression"@) == Some(
                Json::Str(
                    if backend.is_lldb_dap {
                        expr@
                    } else {
                        seq!['`'] + expr@
                    },
                ),
            )
            &&& said(request, "context"@) == Some(Json::Str("repl"@))
            &&& said(request, "frameId"@) is None
        },
        says_only(request, set!["expression"@, "frameId"@, "context"@]),
{
    lemma_evaluation_names();
    reveal_strlit("`");
    assert("`"@ =~= seq!['`']);
}

/// What is known of the debugger is what it was made with.
pub proof fn law_backend_knows_its_debugger(
    is_lldb_dap: bool,
    pid: Option<i64>,
    backend: &LldbBackend,
    raw: bool,
    told: Option<i64>,
)
    requires
        call_ensures(LldbBackend::new, (is_lldb_dap, pid), *backend),
        call_ensures(LldbBackend::supports_command_repl_mode, (backend,), raw),
        call_ensures(LldbBackend::debugger_pid, (backend,), told),
    ensures
        raw == is_lldb_dap,
        told == pid,
{
}

/// Memory is read, and code disassembled, at the address and for the count that were given; the
/// count of bytes and the count of instructions have different names.
pub proof fn law_memory_requests_say_where_and_how_much(
    address: &str,
    count: i64,
    reading: Request,
    disassembling: Request,
)
    requires
        call_ensures(requests::read_memory, (address, count), reading),
        call_ensures(requests::disassemble, (address, count), disassembling),
    ensures
        asks(reading, "readMemory"@),
        said(reading, "memoryReference"@) == Some(Json::Str(address@)),
        said(reading, "count"@) == Some(Json::Int(count as int)),
        says_only(reading, set!["memoryReference"@, "count"@]),
        asks(disassembling, "disassemble"@),
        said(disassembling, "memoryReference"@) == Some(Json::Str(address@)),
        said(disassembling, "instructionCount"@) == Some(Json::Int(count as int)),
        says_only(disassembling, set!["memoryReference"@, "instructionCount"@]),
{
    reveal_strlit("memoryReference");
    reveal_strlit("count");
    reveal_strlit("instructionCount");
    assert("memoryReference"@.len() == 15 && "count"@.len() == 5 && "instructionCount"@.len()
        == 16);
}

/// Whether `value` is the list of the texts `items`, in order.
pub open spec fn lists_texts(value: Json, items: Seq<String>) -> bool {
    match value {
        Json::Array(list) => list.len() == items.len() && forall|i: int|
            0 <= i < items.len() ==> #[trigger] list[i] == Json::Str(items[i]@),
        _ => false,
    }
}

/// Whether `entry` is the list `items`, or missing when that is empty.
pub open spec fn list_entry(entry: Option<Json>, items: Seq<String>) -> bool {
    match entry {
        Some(value) => items.len() > 0 && lists_texts(value, items),
        None => items.len() == 0,
    }
}

/// Whether `entry` is the text `text`, or missing when that is empty.
pub open spec fn text_entry(entry: Option<Json>, text: Seq<char>) -> bool {
    match entry {
        Some(value) => text.len() > 0 && value == Json::Str(text),
        None => text.len() == 0,
    }
}

/// Whether `entry` says that something is so, or is missing when it is not.
pub open spec fn flag_entry(entry: Option<Json>, flag: bool) -> bool {
    match entry {
        Some(value) => flag && value == Json::Bool(true),
        None => !flag,
    }
}

/// Whether `j` is the greatest index in `env` with the name `name`.
pub open spec fn last_with_name(env: Seq<(String, String)>, name: Seq<char>, j: int) -> bool {
    &&& 0 <= j < env.len()
    &&& env[j].0@ == name
    &&& forall|k: int| j < k < env.len() ==> (#[trigger] env[k]).0@ != name
}

/// Whether `value` is the environment `env`: every variable is there, with the text at the
/// greatest index that has its name, and no other is.
pub open spec fn holds_environment(value: Json, env: Seq<(String, String)>) -> bool {
    match value {
        Json::Object(entries) => {
            &&& forall|i: int|
                0 <= i < env.len() ==> entries.dom().contains((#[trigger] env[i]).0@)
            &&& forall|j: int, name: Seq<char>| #[trigger]
                last_with_name(env, name, j) ==> entries[name] == Json::Str(env[j].1@)
            &&& forall|name: Seq<char>| #[trigger]
                entries.dom().contains(name) ==> exists|i: int|
                    0 <= i < env.len() && (#[trigger] env[i]).0@ == name
        },
        _ => false,
    }
}

/// Whether `entry` is the environment `env`, or missing when that is empty.
pub open spec fn environment_entry(entry: Option<Json>, env: Seq<(String, String)>) -> bool {
    match entry {
        Some(value) => env.len() > 0 && holds_environment(value, env),
        None => env.len() == 0,
    }
}

/// The variables of an environment are those of the last index with each name.
pub proof fn lemma_environment(env: Seq<(String, String)>)
    ensures
        holds_environment(Json::Object(args::env_entries(crate::model::pair_views(env))), env),
    decreases env.len(),
{
    let all = crate::model::pair_views(env);
    let entries = args::env_entries(all);
    if env.len() > 0 {
        let head = env.drop_last();
        lemma_environment(head);
        assert(crate::model::pair_views(head) =~= all.drop_last());
        let before = args::env_entries(all.drop_last());
        assert(all.last() == (env.last().0@, env.last().1@));
        assert(entries == before.insert(env.last().0@, Json::Str(env.last().1@)));
        assert forall|i: int| 0 <= i < env.len() implies entries.dom().contains(
            (#[trigger] env[i]).0@,
        ) by {
            if i < head.len() {
                assert(before.dom().contains(head[i].0@));
            }
        }
        assert forall|j: int, name: Seq<char>| #[trigger]
            last_with_name(env, name, j) implies entries[name] == Json::Str(env[j].1@) by {
            if j < head.len() {
                assert(env[env.len() - 1].0@ != name);
                assert forall|k: int| j < k < head.len() implies (#[trigger] head[k]).0@
                    != name by {
                    assert(head[k] == env[k]);
                }
                assert(last_with_name(head, name, j));
            }
        }
        assert forall|name: Seq<char>| #[trigger] entries.dom().contains(name) implies exists|
            i: int,
        |
            0 <= i < env.len() && (#[trigger] env[i]).0@ == name by {
            if name == env.last().0@ {
                assert(env[env.len() - 1].0@ == name);
            } else {
                assert(before.dom().contains(name));
                let i = choose|i: int| 0 <= i < head.len() && (#[trigger] head[i]).0@ == name;
                assert(env[i].0@ == name);
            }
        }
    }
}

/// The names in the arguments of a launch are told apart.
pub proof fn lemma_launch_names()
    ensures
        "program"@.len() == 7,
        "args"@.len() == 4,
        "cwd"@.len() == 3 && "cwd"@[0] == 'c',
        "env"@.len() == 3 && "env"@[0] == 'e',
        "stopOnEntry"@.len() == 11,
        "initCommands"@.len() == 12 && "initCommands"@[0] == 'i',
        "stopCommands"@.len() == 12 && "stopCommands"@[0] == 's',
        "exitCommands"@.len() == 12 && "exitCommands"@[0] == 'e',
        "preRunCommands"@.len() == 14,
        "postRunCommands"@.len() == 15,
        "terminateCommands"@.len() == 17,
{
    reveal_strlit("program");
    reveal_strlit("args");
    reveal_strlit("cwd");
    reveal_strlit("env");
    reveal_strlit("stopOnEntry");
    reveal_strlit("initCommands");
    reveal_strlit("preRunCommands");
    reveal_strlit("postRunCommands");
    reveal_strlit("stopCommands");
    reveal_strlit("exitCommands");
    reveal_strlit("terminateCommands");
}

/// The arguments of a launch say everything that was given and nothing else: the program, and each
/// of the lists, the directory, the environment and the stop on entry exactly when there is
/// something to say.
pub proof fn law_launch_arguments_say_what_was_given(
    a: &LldbLaunchArgs,
    value: serde_json::Value,
)
    requires
        call_ensures(args::launch_args_to_value, (a,), value),
    ensures
        ({
            let said = json::json_of(value);
            &&& under(said, "program"@) == Some(Json::Str(a.program@))
            &&& list_entry(under(said, "args"@), a.args@)
            &&& text_entry(under(said, "cwd"@), a.cwd@)
            &&& environment_entry(under(said, "env"@), a.env@)
            &&& flag_entry(under(said, "stopOnEntry"@), a.stop_on_entry)
            &&& list_entry(under(said, "initCommands"@), a.init_commands@)
            &&& list_entry(under(said, "preRunCommands"@), a.pre_run_commands@)
            &&& list_entry(under(said, "postRunCommands"@), a.post_run_commands@)
            &&& list_entry(under(said, "stopCommands"@), a.stop_commands@)
            &&& list_entry(under(said, "exitCommands"@), a.exit_commands@)
            &&& list_entry(under(said, "terminateCommands"@), a.terminate_commands@)
            &&& only(
                said,
                set![
                    "program"@,
                    "args"@,
                    "cwd"@,
                    "env"@,
                    "stopOnEntry"@,
                    "initCommands"@,
                    "preRunCommands"@,
                    "postRunCommands"@,
                    "stopCommands"@,
                    "exitCommands"@,
                    "terminateCommands"@,
                ],
            )
        }),
{
    lemma_launch_names();
    lemma_environment(a.env@);
}

/// A launch without debugger commands has the program, arguments, directory, environment and stop
/// on entry that it was given. No directory is an empty one.
pub proof fn law_launch_has_no_commands_of_its_own(
    program: String,
    arguments: Vec<String>,
    cwd: Option<String>,
    env: Vec<(String, String)>,
    stop_on_entry: bool,
    launch: &LldbLaunchArgs,
    value: serde_json::Value,
)
    requires
        call_ensures(LldbLaunchArgs::new, (program, arguments, cwd, env, stop_on_entry), *launch),
        call_ensures(args::launch_args_to_value, (launch,), value),
    ensures
        launches(json::json_of(value), program@, arguments@, cwd, env@, stop_on_entry),
{
    law_launch_arguments_say_what_was_given(launch, value);
    lemma_launch_names();
}

/// Whether `value` launches `program` with exactly the arguments, directory, environment and stop
/// on entry given.
pub open spec fn launches(
    value: Json,
    program: Seq<char>,
    arguments: Seq<String>,
    cwd: Option<String>,
    env: Seq<(String, String)>,
    stop_on_entry: bool,
) -> bool {
    &&& under(value, "program"@) == Some(Json::Str(program))
    &&& list_entry(under(value, "args"@), arguments)
    &&& cwd matches Some(dir) ==> text_entry(under(value, "cwd"@), dir@)
    &&& cwd is None ==> under(value, "cwd"@) is None
    &&& environment_entry(under(value, "env"@), env)
    &&& flag_entry(under(value, "stopOnEntry"@), stop_on_entry)
    &&& only(value, set!["program"@, "args"@, "cwd"@, "env"@, "stopOnEntry"@])
}

/// The names in the arguments of an attach are told apart.
pub proof fn lemma_attach_names()
    ensures
        "pid"@.len() == 3,
        "program"@.len() == 7 && "program"@[0] == 'p',
        "waitFor"@.len() == 7 && "waitFor"@[0] == 'w',
        "stopOnEntry"@.len() == 11,
        "attachCommands"@.len() == 14,
        "coreFile"@.len() == 8,
{
    reveal_strlit("pid");
    reveal_strlit("program");
    reveal_strlit("waitFor");
    reveal_strlit("stopOnEntry");
    reveal_strlit("attachCommands");
    reveal_strlit("coreFile");
}

/// The arguments of an attach say everything that was given and nothing else, each exactly when
/// there is something to say.
pub proof fn law_attach_arguments_say_what_was_given(
    a: &LldbAttachArgs,
    value: serde_json::Value,
)
    requires
        call_ensures(args::attach_args_to_value, (a,), value),
    ensures
        ({
            let said = json::json_of(value);
            &&& a.pid != 0 ==> under(said, "pid"@) == Some(Json::Int(a.pid as int))
            &&& a.pid == 0 ==> under(said, "pid"@) is None
            &&& text_entry(under(said, "program"@), a.program@)
            &&& flag_entry(under(said, "waitFor"@), a.wait_for)
            &&& flag_entry(under(said, "stopOnEntry"@), a.stop_on_entry)
            &&& list_entry(under(said, "attachCommands"@), a.attach_commands@)
            &&& text_entry(under(said, "coreFile"@), a.core_file@)
            &&& only(
                said,
                set![
                    "pid"@,
                    "program"@,
                    "waitFor"@,
                    "stopOnEntry"@,
                    "attachCommands"@,
                    "coreFile"@,
                ],
            )
        }),
{
    lemma_attach_names();
}

/// Whether `value` attaches to the process `pid`, when that is positive, and else to the next
/// process of the name `name`; either way the process stops.
pub open spec fn attaches(value: Json, pid: Option<i64>, name: Option<String>) -> bool {
    let by_id = pid is Some && pid->0 > 0;
    &&& by_id ==> under(value, "pid"@) == Some(Json::Int(pid->0 as int))
    &&& by_id ==> under(value, "program"@) is None && under(value, "waitFor"@) is None
    &&& !by_id ==> under(value, "pid"@) is None
    &&& !by_id ==> under(value, "waitFor"@) == Some(Json::Bool(true))
    &&& !by_id && name is Some ==> text_entry(under(value, "program"@), name->0@)
    &&& !by_id && name is None ==> under(value, "program"@) is None
    &&& under(value, "stopOnEntry"@) == Some(Json::Bool(true))
    &&& only(value, set!["pid"@, "program"@, "waitFor"@, "stopOnEntry"@])
}

/// An attach is to the process whose id is given, when that is positive; else it waits for the
/// next process of the given name. Either way the process stops.
pub proof fn law_attach_is_by_id_or_by_name(
    pid: Option<i64>,
    name: Option<String>,
    attach: &LldbAttachArgs,
    value: serde_json::Value,
)
    requires
        call_ensures(LldbAttachArgs::new, (pid, name), *attach),
        call_ensures(args::attach_args_to_value, (attach,), value),
    ensures
        attaches(json::json_of(value), pid, name),
{
    law_attach_arguments_say_what_was_given(attach, value);
    lemma_attach_names();
}

} // verus!
