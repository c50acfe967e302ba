//! The arguments of the launch and attach requests. What is empty, false or zero is left out.

use vstd::prelude::*;

use crate::json::{self, Json};
use crate::model;

verus! {

/// What a launch request says.
#[derive(Debug, Clone, PartialEq, Eq)]
pub struct LldbLaunchArgs {
    pub program: String,
    pub args: Vec<String>,
    pub cwd: String,
    pub env: Vec<(String, String)>,
    pub stop_on_entry: bool,
    pub init_commands: Vec<String>,
    pub pre_run_commands: Vec<String>,
    pub post_run_commands: Vec<String>,
    pub stop_commands: Vec<String>,
    pub exit_commands: Vec<String>,
    pub terminate_commands: Vec<String>,
}

impl LldbLaunchArgs {
    /// The launch of `program`, without debugger commands.
    pub fn new(
        program: String,
        args: Vec<String>,
        cwd: Option<String>,
        env: Vec<(String, String)>,
        stop_on_entry: bool,
    ) -> (launch: Self)
        ensures
            launch.program == program,
            launch.args == args,
            launch.cwd@ == (match cwd {
                Some(dir) => dir@,
                None => Seq::<char>::empty(),
            }),
            launch.env == env,
            launch.stop_on_entry == stop_on_entry,
            launch.init_commands@.len() == 0,
            launch.pre_run_commands@.len() == 0,
            launch.post_run_commands@.len() == 0,
            launch.stop_commands@.len() == 0,
            launch.exit_commands@.len() == 0,
            launch.terminate_commands@.len() == 0,
    {
        let cwd = match cwd {
            Some(dir) => dir,
            None => String::new(),
        };
        LldbLaunchArgs {
            program,
            args,
            cwd,
            env,
            stop_on_entry,
            init_commands: Vec::new(),
            pre_run_commands: Vec::new(),
            post_run_commands: Vec::new(),
            stop_commands: Vec::new(),
            exit_commands: Vec::new(),
            terminate_commands: Vec::new(),
        }
    }
}

/// What an attach request says.
#[derive(Debug, Clone, PartialEq, Eq)]
pub struct LldbAttachArgs {
    pub pid: i64,
    pub program: String,
    pub wait_for: bool,
    pub stop_on_entry: bool,
    pub attach_commands: Vec<String>,
    pub core_file: String,
}

impl LldbAttachArgs {
    /// Attaching to process `pid` when that is positive, else to the next process of the given
    /// name. Either way the process stops.
    pub fn new(pid: Option<i64>, wait_for_name: Option<String>) -> (attach: Self)
        ensures
            attach.stop_on_entry,
            attach.attach_commands@.len() == 0,
            attach.core_file@.len() == 0,
            match pid {
                Some(pid) if pid > 0 => attach.pid == pid && !attach.wait_for
                    && attach.program@.len() == 0,
                _ => attach.pid == 0 && attach.wait_for && attach.program@ == (
                match wait_for_name {
                    Some(name) => name@,
                    None => Seq::<char>::empty(),
                }),
            },
    {
        let mut attach = LldbAttachArgs {
            pid: 0,
            program: String::new(),
            wait_for: false,
            stop_on_entry: true,
            attach_commands: Vec::new(),
            core_file: String::new(),
        };
        match pid {
            Some(pid) if pid > 0 => {
                attach.pid = pid;
            },
            _ => {
                attach.wait_for = true;
                attach.program = match wait_for_name {
                    Some(name) => name,
                    None => String::new(),
                };
            },
        }
        attach
    }
}

/// `entries` with `key` set to `value` when `present`, else as they are.
pub open spec fn with(
    entries: Map<Seq<char>, Json>,
    present: bool,
    key: Seq<char>,
    value: Json,
) -> Map<Seq<char>, Json> {
    if present {
        entries.insert(key, value)
    } else {
        entries
    }
}

/// `entries` with `key` set to the list `items`, unless that is empty.
pub open spec fn with_list(
    entries: Map<Seq<char>, Json>,
    key: Seq<char>,
    items: Seq<String>,
) -> Map<Seq<char>, Json> {
    with(entries, items.len() > 0, key, json::text_array(model::views(items)))
}

/// `entries` with `key` set to the text `text`, unless that is empty.
pub open spec fn with_text(
    entries: Map<Seq<char>, Json>,
    key: Seq<char>,
    text: Seq<char>,
) -> Map<Seq<char>, Json> {
    with(entries, text.len() > 0, key, Json::Str(text))
}

/// The variables of an environment: where a name occurs more than once, the last value counts.
pub open spec fn env_entries(env: Seq<(Seq<char>, Seq<char>)>) -> Map<Seq<char>, Json>
    decreases env.len(),
{
    if env.len() == 0 {
        Map::empty()
    } else {
        env_entries(env.drop_last()).insert(env.last().0, Json::Str(env.last().1))
    }
}

/// The entries of a launch request's arguments.
pub open spec fn launch_entries(a: LldbLaunchArgs) -> Map<Seq<char>, Json> {
    let base = Map::<Seq<char>, Json>::empty().insert("program"@, Json::Str(a.program@));
    let env = model::pair_views(a.env@);
    let target = with(
        with_text(with_list(base, "args"@, a.args@), "cwd"@, a.cwd@),
        env.len() > 0,
        "env"@,
        Json::Object(env_entries(env)),
    );
    let stopping = with(target, a.stop_on_entry, "stopOnEntry"@, Json::Bool(true));
    let before = with_list(
        with_list(stopping, "initCommands"@, a.init_commands@),
        "preRunCommands"@,
        a.pre_run_commands@,
    );
    let during = with_list(
        with_list(before, "postRunCommands"@, a.post_run_commands@),
        "stopCommands"@,
        a.stop_commands@,
    );
    with_list(
        with_list(during, "exitCommands"@, a.exit_commands@),
        "terminateCommands"@,
        a.terminate_commands@,
    )
}

/// The entries of an attach request's arguments.
pub open spec fn attach_entries(a: LldbAttachArgs) -> Map<Seq<char>, Json> {
    let target = with_text(
        with(Map::empty(), a.pid != 0, "pid"@, Json::Int(a.pid as int)),
        "program"@,
        a.program@,
    );
    let waiting = with(target, a.wait_for, "waitFor"@, Json::Bool(true));
    let stopping = with(waiting, a.stop_on_entry, "stopOnEntry"@, Json::Bool(true));
    with_text(
        with_list(stopping, "attachCommands"@, a.attach_commands@),
        "coreFile"@,
        a.core_file@,
    )
}

fn insert_str_list(
    map: &mut serde_json::Map<String, serde_json::Value>,
    key: &str,
    list: &Vec<String>,
)
    ensures
        json::entries_of(*final(map)) == with_list(json::entries_of(*old(map)), key@, list@),
{
    if list.len() > 0 {
        json::put(map, key, json::text_list_value(list));
    }
}

fn insert_text(map: &mut serde_json::Map<String, serde_json::Value>, key: &str, text: &String)
    ensures
        json::entries_of(*final(map)) == with_text(json::entries_of(*old(map)), key@, text@),
{
    if !text.as_str().is_empty() {
        json::put(map, key, json::text_value(text.as_str()));
    }
}

fn env_value(env: &Vec<(String, String)>) -> (value: serde_json::Value)
    ensures
        json::json_of(value) == Json::Object(env_entries(model::pair_views(env@))),
{
    let ghost all = model::pair_views(env@);
    let mut map = json::new_map();
    let mut i: usize = 0;
    assert(all.take(0) =~= Seq::<(Seq<char>, Seq<char>)>::empty());
    while i < env.len()
        invariant
            i <= env@.len(),
            all == model::pair_views(env@),
            json::entries_of(map) == env_entries(all.take(i as int)),
        decreases env@.len() - i,
    {
        json::put(&mut map, env[i].0.as_str(), json::text_value(env[i].1.as_str()));
        assert(all.take(i + 1).drop_last() =~= all.take(i as int));
        i += 1;
    }
    assert(all.take(all.len() as int) =~= all);
    json::object_value(map)
}

/// The arguments of a launch request. `program` is always there.
pub fn launch_args_to_value(a: &LldbLaunchArgs) -> (value: serde_json::Value)
    ensures
        json::json_of(value) == Json::Object(launch_entries(*a)),
{
    let mut map = json::new_map();
    json::put(&mut map, "program", json::text_value(a.program.as_str()));
    insert_str_list(&mut map, "args", &a.args);
    insert_text(&mut map, "cwd", &a.cwd);
    if a.env.len() > 0 {
        json::put(&mut map, "env", env_value(&a.env));
    }
    if a.stop_on_entry {
        json::put(&mut map, "stopOnEntry", json::bool_value(true));
    }
    insert_str_list(&mut map, "initCommands", &a.init_commands);
    insert_str_list(&mut map, "preRunCommands", &a.pre_run_commands);
    insert_str_list(&mut map, "postRunCommands", &a.post_run_commands);
    insert_str_list(&mut map, "stopCommands", &a.stop_commands);
    insert_str_list(&mut map, "exitCommands", &a.exit_commands);
    insert_str_list(&mut map, "terminateCommands", &a.terminate_commands);
    json::object_value(map)
}

/// The arguments of an attach request.
pub fn attach_args_to_value(a: &LldbAttachArgs) -> (value: serde_json::Value)
    ensures
        json::json_of(value) == Json::Object(attach_entries(*a)),
{
    let mut map = json::new_map();
    if a.pid != 0 {
        json::put(&mut map, "pid", json::int_value(a.pid));
    }
    insert_text(&mut map, "program", &a.program);
    if a.wait_for {
        json::put(&mut map, "waitFor", json::bool_value(true));
    }
    if a.stop_on_entry {
        json::put(&mut map, "stopOnEntry", json::bool_value(true));
    }
    insert_str_list(&mut map, "attachCommands", &a.attach_commands);
    insert_text(&mut map, "coreFile", &a.core_file);
    json::object_value(map)
}

/// A launch that does not stop on entry does not mention it: what the debugger gets has no such
/// entry, rather than one that says no.
pub proof fn law_launch_mentions_stop_on_entry_only_when_set(a: LldbLaunchArgs)
    ensures
        launch_entries(a).dom().contains("stopOnEntry"@) == a.stop_on_entry,
        launch_entries(a).dom().contains("program"@),
        launch_entries(a)["program"@] == Json::Str(a.program@),
{
    reveal_strlit("program");
    reveal_strlit("args");
    reveal_strlit("cwd");
    reveal_strlit("env");
    reveal_strlit("stopOnEntry");
    reveal_strlit("initCommands");
    reveal_strlit("preRunCommands");
    reveal_strlit("postRunCommands");
    reveal_strlit("stopCommands");
    reveal_strlit("exitCommands");
    reveal_strlit("terminateCommands");
    assert("program"@.len() == 7 && "args"@.len() == 4 && "cwd"@.len() == 3 && "env"@.len() == 3);
    assert("stopOnEntry"@.len() == 11 && "initCommands"@.len() == 12 && "preRunCommands"@.len()
        == 14 && "postRunCommands"@.len() == 15 && "stopCommands"@.len() == 12
        && "exitCommands"@.len() == 12 && "terminateCommands"@.len() == 17);
}

} // verus!
