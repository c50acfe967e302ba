//! What a session gives back of what it was told: what was set is read, what was added is listed,
//! and what was taken out is gone.

use std::collections::HashMap;

use vstd::prelude::*;

use crate::breakpoint::BreakpointInfo;
use crate::file_breakpoints;
use crate::file_breakpoints::FileBreakpoints;
use crate::manager::{SessionManager, SessionView};
use crate::model;
use crate::output_buffer::{OutputBuffer, OutputEntry};
use crate::pump;
use crate::state::State;
use crate::text;
use crate::types::{
    BackendEvent, FunctionBp, FunctionBpView, SourceBp, SourceBpView, StopInfo,
};

verus! {

/// The breakpoints of `file` in `files`; a file without a list has none.
pub open spec fn in_file(files: Map<Seq<char>, Seq<SourceBpView>>, file: Seq<char>) -> Seq<
    SourceBpView,
> {
    if files.dom().contains(file) {
        files[file]
    } else {
        Seq::empty()
    }
}

/// Whether nothing is being debugged, and nothing is known of what was.
pub open spec fn knows_nothing(session: SessionView) -> bool {
    &&& session.state == State::Idle
    &&& session.program.len() == 0
    &&& session.pid == 0
    &&& session.exit_code is None
    &&& session.last_stopped is None
    &&& forall|i: i64| !#[trigger] session.frame_mapping.dom().contains(i)
    &&& forall|file: Seq<char>| #[trigger] in_file(session.source_bps, file).len() == 0
    &&& session.function_bps.len() == 0
    &&& forall|id: i64| !#[trigger] session.bp_responses.dom().contains(id)
    &&& forall|file: Seq<char>| #[trigger] in_file(session.pending_source_bps, file).len() == 0
    &&& session.pending_function_bps.len() == 0
    &&& session.output.entries.len() == 0
    &&& !session.output.truncated
}

/// A session knows nothing at first, and nothing again after a reset; only its generation tells
/// the two apart.
pub proof fn law_reset_forgets_everything(
    fresh: SessionManager,
    session: &mut SessionManager,
)
    requires
        call_ensures(SessionManager::new, (), fresh),
        call_ensures(SessionManager::reset, (session,), ()),
    ensures
        knows_nothing(fresh@),
        fresh@.generation == 0,
        knows_nothing(final(session)@),
        old(session)@.generation < u64::MAX ==> final(session)@.generation == old(session)@.generation + 1,
        old(session)@.generation == u64::MAX ==> final(session)@.generation == 0,
{
}

/// What is made by default is what is made anew.
pub proof fn law_defaults_are_new<S>(
    session: SessionManager,
    output: OutputBuffer,
    waiter: crate::stop_waiter::StopWaiter<S>,
)
    requires
        call_ensures(SessionManager::default, (), session),
        call_ensures(OutputBuffer::default, (), output),
        call_ensures(crate::stop_waiter::StopWaiter::<S>::default, (), waiter),
    ensures
        knows_nothing(session@),
        session@.generation == 0,
        output@.entries.len() == 0 && !output@.truncated,
        waiter.slot is None,
{
}

/// The generation that is read goes up with every reset, and starts again when there is none left.
pub proof fn law_reset_begins_another_generation(
    session: &mut SessionManager,
    before: &SessionManager,
    after: &SessionManager,
    was: u64,
    is: u64,
)
    requires
        *before == *old(session),
        call_ensures(SessionManager::generation, (before,), was),
        call_ensures(SessionManager::reset, (session,), ()),
        *after == *final(session),
        call_ensures(SessionManager::generation, (after,), is),
    ensures
        was < u64::MAX ==> is == was + 1,
        was == u64::MAX ==> is == 0,
{
}

/// The lists of breakpoints that are read are those that the session holds, all of them in order.
pub proof fn law_lists_are_read_as_they_are(
    session: &SessionManager,
    file: &str,
    lines: Vec<SourceBp>,
    functions: Vec<FunctionBp>,
)
    requires
        call_ensures(SessionManager::source_breakpoints_for_file, (session, file), lines),
        call_ensures(SessionManager::all_function_breakpoints, (session,), functions),
    ensures
        lines@.len() == in_file(session@.source_bps, file@).len(),
        forall|i: int|
            #![trigger lines@[i]]
            0 <= i < lines@.len() ==> lines@[i].line == in_file(session@.source_bps, file@)[i].line
                && lines@[i].condition@ == in_file(session@.source_bps, file@)[i].condition,
        functions@.len() == session@.function_bps.len(),
        forall|i: int|
            #![trigger functions@[i]]
            0 <= i < functions@.len() ==> functions@[i].name@ == session@.function_bps[i].name
                && functions@[i].condition@ == session@.function_bps[i].condition,
{
    let read = model::views(lines@);
    let named = model::views(functions@);
    assert(read.len() == lines@.len() && named.len() == functions@.len());
    assert forall|i: int|
        #![trigger lines@[i]]
        0 <= i < lines@.len() implies lines@[i].line == in_file(
        session@.source_bps,
        file@,
    )[i].line && lines@[i].condition@ == in_file(session@.source_bps, file@)[i].condition by {
        assert(read[i] == lines@[i]@);
    }
    assert forall|i: int|
        #![trigger functions@[i]]
        0 <= i < functions@.len() implies functions@[i].name@ == session@.function_bps[i].name
        && functions@[i].condition@ == session@.function_bps[i].condition by {
        assert(named[i] == functions@[i]@);
    }
}

/// The state that was set is the state.
pub proof fn law_state_is_as_set(
    session: &mut SessionManager,
    state: State,
    after: &SessionManager,
    read: State,
)
    requires
        call_ensures(SessionManager::set_state, (session, state), ()),
        *after == *final(session),
        call_ensures(SessionManager::state, (after,), read),
    ensures
        read == state,
        final(session)@ == (SessionView { state, ..old(session)@ }),
{
}

/// A state is set by one that began in the current generation, and by no other.
pub proof fn law_state_is_set_in_its_generation(
    session: &mut SessionManager,
    generation: u64,
    state: State,
    applied: bool,
    before: &SessionManager,
    current: u64,
    after: &SessionManager,
    read: State,
)
    requires
        *before == *old(session),
        call_ensures(SessionManager::generation, (before,), current),
        call_ensures(SessionManager::set_state_if_generation, (session, generation, state), applied),
        *after == *final(session),
        call_ensures(SessionManager::state, (after,), read),
    ensures
        applied <==> current == generation,
        applied ==> read == state,
        !applied ==> final(session)@ == old(session)@,
        final(session)@ == (SessionView { state: final(session)@.state, ..old(session)@ }),
{
}

/// The end is noted, with its exit code, by one that began in the current generation, and by no
/// other; an end without a code leaves the code that is known.
pub proof fn law_end_is_noted_in_its_generation(
    session: &mut SessionManager,
    generation: u64,
    code: Option<i64>,
    applied: bool,
    before: &SessionManager,
    current: u64,
    known: Option<i64>,
    after: &SessionManager,
    read: State,
    told: Option<i64>,
)
    requires
        *before == *old(session),
        call_ensures(SessionManager::generation, (before,), current),
        call_ensures(SessionManager::exit_code, (before,), known),
        call_ensures(SessionManager::terminate_if_generation, (session, generation, code), applied),
        *after == *final(session),
        call_ensures(SessionManager::state, (after,), read),
        call_ensures(SessionManager::exit_code, (after,), told),
    ensures
        applied <==> current == generation,
        applied ==> read == State::Terminated,
        applied && code is Some ==> told == code,
        applied && code is None ==> told == known,
        !applied ==> final(session)@ == old(session)@,
        final(session)@ == (SessionView {
            state: final(session)@.state,
            exit_code: final(session)@.exit_code,
            ..old(session)@
        }),
{
}

/// An operation is allowed exactly in the states that allow it; else the reason says what to do,
/// or the state and all the states that would do, in order.
pub proof fn law_states_are_checked(
    session: &SessionManager,
    allowed: &[State],
    outcome: Result<(), String>,
    current: State,
    name: String,
)
    requires
        call_ensures(SessionManager::check_state, (session, allowed), outcome),
        call_ensures(SessionManager::state, (session,), current),
        call_ensures(State::to_string, (&current,), name),
    ensures
        outcome is Ok <==> allowed@.contains(current),
        outcome matches Err(reason) ==> {
            &&& current == State::Idle ==> reason@
                == "no debug session active. Use 'launch' or 'attach' first."@
            &&& current == State::Running ==> reason@ == "process is running. Use 'pause' first."@
            &&& current != State::Idle && current != State::Running ==> exists|
                names: Seq<Seq<char>>,
            | #[trigger]
                names_states(names, allowed@) && reason@ == "invalid state: "@ + name@
                    + ", expected one of: "@ + text::joined(names, ", "@)
        },
{
    if outcome is Err && current != State::Idle && current != State::Running {
        let names = crate::manager::state_names(allowed@);
        assert(names_states(names, allowed@));
    }
}

/// Whether `names` are the names of `states`, in order.
pub open spec fn names_states(names: Seq<Seq<char>>, states: Seq<State>) -> bool {
    names.len() == states.len() && forall|i: int|
        0 <= i < states.len() ==> state_called(states[i], #[trigger] names[i])
}

/// Whether `name` is what `state` is called.
pub open spec fn state_called(state: State, name: Seq<char>) -> bool {
    &&& state == State::Idle ==> name == "idle"@
    &&& state == State::Configuring ==> name == "configuring"@
    &&& state == State::Stopped ==> name == "stopped"@
    &&& state == State::Running ==> name == "running"@
    &&& state == State::Terminated ==> name == "terminated"@
}

/// Every state has its own name.
pub proof fn law_states_have_their_names(state: &State, name: String)
    requires
        call_ensures(State::to_string, (state,), name),
    ensures
        state_called(*state, name@),
{
}

/// What is said of the debuggee is read as it was said: its program, its process, its exit code
/// and its last stop; and each leaves the others.
pub proof fn law_debuggee_is_as_said(
    session: &mut SessionManager,
    named: &mut SessionManager,
    numbered: &mut SessionManager,
    exited: &mut SessionManager,
    after: &SessionManager,
    program: String,
    pid: i64,
    code: i64,
    info: StopInfo,
    read_program: String,
    read_pid: i64,
    read_code: Option<i64>,
    read_stop: Option<StopInfo>,
)
    requires
        call_ensures(SessionManager::set_program, (session, program), ()),
        *old(named) == *final(session),
        call_ensures(SessionManager::set_pid, (named, pid), ()),
        *old(numbered) == *final(named),
        call_ensures(SessionManager::set_exit_code, (numbered, code), ()),
        *old(exited) == *final(numbered),
        call_ensures(SessionManager::set_last_stopped, (exited, info), ()),
        *after == *final(exited),
        call_ensures(SessionManager::program, (after,), read_program),
        call_ensures(SessionManager::pid, (after,), read_pid),
        call_ensures(SessionManager::exit_code, (after,), read_code),
        call_ensures(SessionManager::last_stopped, (after,), read_stop),
    ensures
        read_program@ == program@,
        read_pid == pid,
        read_code == Some(code),
        read_stop matches Some(stop) && stop.reason@ == info.reason@ && stop.thread_id
            == info.thread_id && stop.description@ == info.description@
            && stop.hit_breakpoint_ids@ == info.hit_breakpoint_ids@,
        after@ == (SessionView {
            program: after@.program,
            pid: after@.pid,
            exit_code: after@.exit_code,
            last_stopped: after@.last_stopped,
            ..old(session)@
        }),
{
}

/// The frame ids are read as they were set.
pub proof fn law_frames_are_as_set(
    session: &mut SessionManager,
    mapping: HashMap<i64, i64>,
    after: &SessionManager,
    read: HashMap<i64, i64>,
)
    requires
        call_ensures(SessionManager::set_frame_mapping, (session, mapping), ()),
        *after == *final(session),
        call_ensures(SessionManager::frame_mapping, (after,), read),
    ensures
        read@ == mapping@,
        final(session)@ == (SessionView {
            frame_mapping: final(session)@.frame_mapping,
            ..old(session)@
        }),
{
}

/// A line breakpoint that is added is the last in the list of its file; the others of the file
/// stay before it, in order, and the lists of all other files stay as they are.
pub proof fn law_added_line_breakpoint_is_listed(
    session: &mut SessionManager,
    before: &SessionManager,
    after: &SessionManager,
    file: &str,
    line: i64,
    condition: &str,
    other: &str,
    bp: SourceBp,
    had: Vec<SourceBp>,
    has: Vec<SourceBp>,
    had_other: Vec<SourceBp>,
    has_other: Vec<SourceBp>,
)
    requires
        other@ != file@,
        *before == *old(session),
        call_ensures(SessionManager::add_source_breakpoint, (session, file, line, condition), bp),
        *after == *final(session),
        call_ensures(SessionManager::source_breakpoints_for_file, (before, file), had),
        call_ensures(SessionManager::source_breakpoints_for_file, (after, file), has),
        call_ensures(SessionManager::source_breakpoints_for_file, (before, other), had_other),
        call_ensures(SessionManager::source_breakpoints_for_file, (after, other), has_other),
    ensures
        bp.line == line && bp.condition@ == condition@,
        has@.len() == had@.len() + 1,
        has@.last().line == line && has@.last().condition@ == condition@,
        forall|i: int|
            #![trigger has@[i]]
            0 <= i < had@.len() ==> has@[i]@ == had@[i]@,
        model::views(has_other@) == model::views(had_other@),
        final(session)@ == (SessionView { source_bps: final(session)@.source_bps, ..old(session)@ }),
{
    let listed = model::views(has@);
    assert(listed.len() == has@.len());
    assert(listed[has@.len() - 1] == has@.last()@);
    assert forall|i: int|
        #![trigger has@[i]]
        0 <= i < had@.len() implies has@[i]@ == had@[i]@ by {
        assert(listed[i] == has@[i]@);
        assert(model::views(had@)[i] == had@[i]@);
    }
}

/// A function breakpoint that is added is the last in the list; the others stay before it, in
/// order.
pub proof fn law_added_function_breakpoint_is_listed(
    session: &mut SessionManager,
    before: &SessionManager,
    after: &SessionManager,
    name: &str,
    condition: &str,
    bp: FunctionBp,
    had: Vec<FunctionBp>,
    has: Vec<FunctionBp>,
)
    requires
        *before == *old(session),
        call_ensures(SessionManager::add_function_breakpoint, (session, name, condition), bp),
        *after == *final(session),
        call_ensures(SessionManager::all_function_breakpoints, (before,), had),
        call_ensures(SessionManager::all_function_breakpoints, (after,), has),
    ensures
        bp.name@ == name@ && bp.condition@ == condition@,
        has@.len() == had@.len() + 1,
        has@.last().name@ == name@ && has@.last().condition@ == condition@,
        forall|i: int|
            #![trigger has@[i]]
            0 <= i < had@.len() ==> has@[i]@ == had@[i]@,
        final(session)@ == (SessionView {
            function_bps: final(session)@.function_bps,
            ..old(session)@
        }),
{
    let listed = model::views(has@);
    assert(listed.len() == has@.len());
    assert(listed[has@.len() - 1] == has@.last()@);
    assert forall|i: int|
        #![trigger has@[i]]
        0 <= i < had@.len() implies has@[i]@ == had@[i]@ by {
        assert(listed[i] == has@[i]@);
        assert(model::views(had@)[i] == had@[i]@);
    }
}

/// Whether `told` says of a breakpoint what `info` says.
pub open spec fn same_breakpoint(told: BreakpointInfo, info: BreakpointInfo) -> bool {
    &&& told.id == info.id
    &&& told.ty@ == info.ty@
    &&& told.file@ == info.file@
    &&& told.line == info.line
    &&& told.function@ == info.function@
    &&& told.condition@ == info.condition@
    &&& told.verified == info.verified
}

/// What the debugger made of a breakpoint is found under its id, and in the list of all of them,
/// with everything that was said of it; what is known of the others stays.
pub proof fn law_resolved_breakpoint_is_known(
    session: &mut SessionManager,
    before: &SessionManager,
    after: &SessionManager,
    info: BreakpointInfo,
    found: Option<BreakpointInfo>,
    other: i64,
    had: Option<BreakpointInfo>,
    has: Option<BreakpointInfo>,
    list: Vec<BreakpointInfo>,
)
    requires
        *before == *old(session),
        call_ensures(SessionManager::add_breakpoint_response, (session, info), ()),
        *after == *final(session),
        call_ensures(SessionManager::breakpoint_info, (after, info.id), found),
        other != info.id,
        call_ensures(SessionManager::breakpoint_info, (before, other), had),
        call_ensures(SessionManager::breakpoint_info, (after, other), has),
        call_ensures(SessionManager::list_breakpoints, (after,), list),
    ensures
        found matches Some(told) && same_breakpoint(told, info),
        had is Some <==> has is Some,
        had is Some ==> same_breakpoint(has->0, had->0),
        exists|i: int| 0 <= i < list@.len() && same_breakpoint(#[trigger] list@[i], info),
        final(session)@ == (SessionView {
            bp_responses: final(session)@.bp_responses,
            ..old(session)@
        }),
{
    assert(final(session)@.bp_responses.dom().contains(info.id));
    let i = choose|i: int| 0 <= i < list@.len() && (#[trigger] list@[i]).id == info.id;
    assert(same_breakpoint(list@[i], info));
}

/// The list of all breakpoints has each that is known exactly once, with what is known of it, in
/// ascending order of their ids.
pub proof fn law_list_has_each_known_breakpoint(
    session: &SessionManager,
    list: Vec<BreakpointInfo>,
    id: i64,
    found: Option<BreakpointInfo>,
)
    requires
        call_ensures(SessionManager::list_breakpoints, (session,), list),
        call_ensures(SessionManager::breakpoint_info, (session, id), found),
    ensures
        found matches Some(info) ==> exists|i: int|
            0 <= i < list@.len() && (#[trigger] list@[i]).id == id && list@[i]@ == info@,
        found is None ==> forall|i: int| 0 <= i < list@.len() ==> (#[trigger] list@[i]).id != id,
        forall|i: int, j: int|
            0 <= i < j < list@.len() ==> (#[trigger] list@[i]).id < (#[trigger] list@[j]).id,
{
    if found is Some {
        let i = choose|i: int| 0 <= i < list@.len() && (#[trigger] list@[i]).id == id;
        assert(list@[i]@ == session@.bp_responses[id]);
    }
}

/// Whether `after` is `before` without its first breakpoint on `line`, or the same when there is
/// none.
pub open spec fn without_first_on(
    before: Seq<SourceBpView>,
    after: Seq<SourceBpView>,
    line: int,
) -> bool {
    ||| after == before && forall|i: int|
        0 <= i < before.len() ==> (#[trigger] before[i]).line != line
    ||| exists|p: int|
        0 <= p < before.len() && (#[trigger] before[p]).line == line && (forall|i: int|
            0 <= i < p ==> (#[trigger] before[i]).line != line) && after == before.remove(p)
}

/// Whether `after` is `before` without its first breakpoint on the function `name`, or the same
/// when there is none.
pub open spec fn without_first_called(
    before: Seq<FunctionBpView>,
    after: Seq<FunctionBpView>,
    name: Seq<char>,
) -> bool {
    ||| after == before && forall|i: int|
        0 <= i < before.len() ==> (#[trigger] before[i]).name != name
    ||| exists|p: int|
        0 <= p < before.len() && (#[trigger] before[p]).name == name && (forall|i: int|
            0 <= i < p ==> (#[trigger] before[i]).name != name) && after == before.remove(p)
}

proof fn lemma_without_first_on(before: Seq<SourceBpView>, line: int)
    ensures
        without_first_on(
            before,
            model::remove_first(before, file_breakpoints::on_line(line)),
            line,
        ),
{
    let wanted = file_breakpoints::on_line(line);
    let p = model::first_index(before, wanted);
    model::lemma_first_index_found(before, wanted);
    model::lemma_first_index_bounds(before, wanted);
    assert forall|i: int| 0 <= i < p implies (#[trigger] before[i]).line != line by {
        assert(!wanted(before[i]));
    }
    if p < before.len() {
        assert(before[p].line == line);
    }
}

proof fn lemma_without_first_called(before: Seq<FunctionBpView>, name: Seq<char>)
    ensures
        without_first_called(
            before,
            model::remove_first(before, crate::manager::on_function(name)),
            name,
        ),
{
    let wanted = crate::manager::on_function(name);
    let p = model::first_index(before, wanted);
    model::lemma_first_index_found(before, wanted);
    model::lemma_first_index_bounds(before, wanted);
    assert forall|i: int| 0 <= i < p implies (#[trigger] before[i]).name != name by {
        assert(!wanted(before[i]));
    }
    if p < before.len() {
        assert(before[p].name == name);
    }
}

/// A breakpoint is taken out by its id. One that is known is known no more, while all others are;
/// a line breakpoint leaves the list of its file, a function breakpoint the list of those, and no
/// other breakpoint leaves any list. One that is not known is an error with its id, and changes
/// nothing.
pub proof fn law_breakpoint_is_taken_out_by_its_id(
    session: &mut SessionManager,
    before: &SessionManager,
    after: &SessionManager,
    id: i64,
    known: Option<BreakpointInfo>,
    outcome: Result<(String, bool), String>,
    gone: Option<BreakpointInfo>,
)
    requires
        *before == *old(session),
        call_ensures(SessionManager::breakpoint_info, (before, id), known),
        call_ensures(SessionManager::remove_breakpoint_by_id, (session, id), outcome),
        *after == *final(session),
        call_ensures(SessionManager::breakpoint_info, (after, id), gone),
    ensures
        outcome is Ok <==> known is Some,
        gone is None,
        forall|other: i64|
            other != id ==> (#[trigger] final(session)@.bp_responses.dom().contains(other)
                <==> old(session)@.bp_responses.dom().contains(other)),
        forall|other: i64| #[trigger]
            final(session)@.bp_responses.dom().contains(other) ==> final(session)@.bp_responses[other] == old(session)@.bp_responses[other],
        known matches Some(info) ==> {
            &&& outcome matches Ok(told) && (info.ty@ == "source"@ ==> told.0@ == info.file@
                && !told.1) && (info.ty@ == "function"@ ==> told.0@.len() == 0 && told.1) && (
            info.ty@ != "source"@ && info.ty@ != "function"@ ==> told.0@.len() == 0 && !told.1)
            &&& info.ty@ == "source"@ ==> without_first_on(
                in_file(old(session)@.source_bps, info.file@),
                in_file(final(session)@.source_bps, info.file@),
                info.line as int,
            ) && final(session)@.function_bps == old(session)@.function_bps
            &&& info.ty@ == "function"@ ==> without_first_called(
                old(session)@.function_bps,
                final(session)@.function_bps,
                info.function@,
            ) && final(session)@.source_bps == old(session)@.source_bps
            &&& forall|file: Seq<char>|
                file != info.file@ ==> #[trigger] in_file(final(session)@.source_bps, file)
                    == in_file(old(session)@.source_bps, file)
        },
        known is None ==> final(session)@ == old(session)@ && (outcome matches Err(reason)
            && reason@ == "breakpoint ID "@ + text::signed_decimal(id as int) + " not found"@),
        final(session)@ == (SessionView {
            bp_responses: final(session)@.bp_responses,
            source_bps: final(session)@.source_bps,
            function_bps: final(session)@.function_bps,
            ..old(session)@
        }),
{
    reveal_strlit("source");
    reveal_strlit("function");
    assert("source"@.len() == 6 && "function"@.len() == 8);
    if let Some(info) = known {
        lemma_without_first_on(
            in_file(old(session)@.source_bps, info.file@),
            info.line as int,
        );
        lemma_without_first_called(old(session)@.function_bps, info.function@);
    }
}

/// Breakpoints that are noted before a launch are kept in order, each list by itself, and are not
/// set yet.
pub proof fn law_pending_breakpoints_are_kept(
    session: &mut SessionManager,
    noting: &mut SessionManager,
    file: &str,
    line: i64,
    condition: &str,
    name: &str,
)
    requires
        call_ensures(
            SessionManager::add_pending_source_breakpoint,
            (session, file, line, condition),
            (),
        ),
        call_ensures(SessionManager::add_pending_function_breakpoint, (noting, name, condition), ()),
    ensures
        in_file(final(session)@.pending_source_bps, file@) == in_file(
            old(session)@.pending_source_bps,
            file@,
        ).push(SourceBpView { line: line as int, condition: condition@ }),
        forall|other: Seq<char>|
            other != file@ ==> #[trigger] in_file(final(session)@.pending_source_bps, other)
                == in_file(old(session)@.pending_source_bps, other),
        final(session)@ == (SessionView {
            pending_source_bps: final(session)@.pending_source_bps,
            ..old(session)@
        }),
        final(noting)@.pending_function_bps == old(noting)@.pending_function_bps.push(
            FunctionBpView { name: name@, condition: condition@ },
        ),
        final(noting)@ == (SessionView {
            pending_function_bps: final(noting)@.pending_function_bps,
            ..old(noting)@
        }),
{
}

/// A launch gets all the breakpoints that were noted, and they stand behind those that are set;
/// nothing is pending any more, so a second launch gets none of them again.
pub proof fn law_pending_breakpoints_are_handed_out_once(
    session: &mut SessionManager,
    later: &mut SessionManager,
    flushed: (FileBreakpoints, Vec<FunctionBp>),
    again: (FileBreakpoints, Vec<FunctionBp>),
)
    requires
        call_ensures(SessionManager::flush_pending_breakpoints, (session,), flushed),
        *old(later) == *final(session),
        call_ensures(SessionManager::flush_pending_breakpoints, (later,), again),
    ensures
        forall|file: Seq<char>| #[trigger]
            in_file(flushed.0@, file) == in_file(old(session)@.pending_source_bps, file),
        model::views(flushed.1@) == old(session)@.pending_function_bps,
        forall|file: Seq<char>| #[trigger]
            in_file(final(session)@.source_bps, file) == in_file(old(session)@.source_bps, file)
                + in_file(old(session)@.pending_source_bps, file),
        final(session)@.function_bps == old(session)@.function_bps + old(session)@.pending_function_bps,
        forall|file: Seq<char>| #[trigger] in_file(again.0@, file).len() == 0,
        again.1@.len() == 0,
        final(session)@ == (SessionView {
            source_bps: final(session)@.source_bps,
            function_bps: final(session)@.function_bps,
            pending_source_bps: final(session)@.pending_source_bps,
            pending_function_bps: final(session)@.pending_function_bps,
            ..old(session)@
        }),
{
    assert forall|file: Seq<char>| #[trigger]
        in_file(final(session)@.source_bps, file) == in_file(old(session)@.source_bps, file)
            + in_file(old(session)@.pending_source_bps, file) by {
        assert(in_file(final(session)@.source_bps, file) =~= in_file(
            old(session)@.source_bps,
            file,
        ) + in_file(old(session)@.pending_source_bps, file));
    }
    assert(model::views(again.1@).len() == again.1@.len());
}

/// The lists of files: one that is added to ends in what was added and keeps the rest, and one
/// that a line is taken out of loses the first breakpoint on it and no other.
pub proof fn law_lists_of_files(
    fresh: FileBreakpoints,
    adding: &mut FileBreakpoints,
    extending: &mut FileBreakpoints,
    removing: &mut FileBreakpoints,
    file: &str,
    bp: SourceBp,
    more: &Vec<SourceBp>,
    line: i64,
)
    requires
        call_ensures(FileBreakpoints::new, (), fresh),
        call_ensures(FileBreakpoints::add, (adding, file, bp), ()),
        call_ensures(FileBreakpoints::extend, (extending, file, more), ()),
        call_ensures(FileBreakpoints::remove_line, (removing, file, line), ()),
    ensures
        forall|f: Seq<char>| !#[trigger] fresh@.dom().contains(f),
        in_file(final(adding)@, file@) == in_file(old(adding)@, file@).push(
            SourceBpView { line: bp.line as int, condition: bp.condition@ },
        ),
        in_file(final(extending)@, file@) == in_file(old(extending)@, file@) + model::views(more@),
        without_first_on(
            in_file(old(removing)@, file@),
            in_file(final(removing)@, file@),
            line as int,
        ),
        forall|f: Seq<char>|
            f != file@ ==> #[trigger] in_file(final(adding)@, f) == in_file(old(adding)@, f),
        forall|f: Seq<char>|
            f != file@ ==> #[trigger] in_file(final(extending)@, f) == in_file(old(extending)@, f),
        forall|f: Seq<char>|
            f != file@ ==> #[trigger] in_file(final(removing)@, f) == in_file(old(removing)@, f),
{
    lemma_without_first_on(in_file(old(removing)@, file@), line as int);
}

/// Merging puts the lists of one behind those of the other, file by file.
pub proof fn law_merging_appends_file_by_file(files: &mut FileBreakpoints, more: &FileBreakpoints)
    requires
        call_ensures(FileBreakpoints::merge, (files, more), ()),
    ensures
        forall|file: Seq<char>| #[trigger]
            in_file(final(files)@, file) == in_file(old(files)@, file) + in_file(more@, file),
{
    assert forall|file: Seq<char>| #[trigger]
        in_file(final(files)@, file) == in_file(old(files)@, file) + in_file(more@, file) by {
        assert(in_file(final(files)@, file) =~= in_file(old(files)@, file) + in_file(more@, file));
    }
}

/// The lists are handed out each with its file, all of them and each once.
pub proof fn law_lists_are_handed_out_with_their_files(
    files: FileBreakpoints,
    entries: Vec<(String, Vec<SourceBp>)>,
    file: &str,
    list: Option<&Vec<SourceBp>>,
    count: usize,
    empty: bool,
)
    requires
        call_ensures(FileBreakpoints::get, (&files, file), list),
        call_ensures(FileBreakpoints::len, (&files,), count),
        call_ensures(FileBreakpoints::is_empty, (&files,), empty),
        call_ensures(FileBreakpoints::into_entries, (files,), entries),
    ensures
        list is Some <==> exists|i: int|
            0 <= i < entries@.len() && (#[trigger] entries@[i]).0@ == file@,
        list matches Some(l) ==> exists|i: int|
            0 <= i < entries@.len() && (#[trigger] entries@[i]).0@ == file@ && model::views(
                entries@[i].1@,
            ) == model::views(l@),
        forall|i: int, j: int|
            0 <= i < j < entries@.len() ==> (#[trigger] entries@[i]).0@ != (
            #[trigger] entries@[j]).0@,
        empty <==> count == 0,
        count == files@.dom().len(),
{
    if list is Some {
        let i = choose|i: int| file_breakpoints::file_at(entries@, file@, i);
        assert(file_breakpoints::file_at(entries@, file@, i));
        file_breakpoints::lemma_file_at(entries@, i);
        assert(entries@[i].0@ == file@);
    } else {
        assert forall|i: int| 0 <= i < entries@.len() implies (#[trigger] entries@[i]).0@
            != file@ by {
            file_breakpoints::lemma_file_at(entries@, i);
        }
    }
}

/// Output that a pump takes in is the last that draining gives, with its own category and text, as
/// long as it fits; the state does not change. An end is noted in its generation only.
pub proof fn law_pump_hands_events_to_the_session(
    session: &mut SessionManager,
    ending: &mut SessionManager,
    generation: u64,
    category: String,
    text: String,
    code: Option<i64>,
)
    requires
        call_ensures(
            pump::pump_event,
            (session, generation, BackendEvent::Output { category, text }),
            (),
        ),
        call_ensures(pump::pump_event, (ending, generation, BackendEvent::Terminated { code }), ()),
        vstd::utf8::encode_utf8(category@).len() + vstd::utf8::encode_utf8(text@).len()
            <= crate::output_buffer::MAX_SIZE,
    ensures
        final(session)@.output.entries.len() > 0,
        final(session)@.output.entries.last().category == category@,
        final(session)@.output.entries.last().text == text@,
        final(session)@ == (SessionView { output: final(session)@.output, ..old(session)@ }),
        old(ending)@.generation != generation ==> final(ending)@ == old(ending)@,
        old(ending)@.generation == generation ==> final(ending)@.state == State::Terminated,
        old(ending)@.generation == generation && code is Some ==> final(ending)@.exit_code == code,
        old(ending)@.generation == generation && code is None ==> final(ending)@.exit_code == old(ending)@.exit_code,
        final(ending)@.output == old(ending)@.output,
{
    let entry = crate::output_buffer::EntryView { category: category@, text: text@ };
    crate::output_buffer::law_appended_entry_stays(old(session)@.output, entry);
}

/// The output that a session hands out is its own: what is done to it is done to the session, and
/// nothing else changes.
pub proof fn law_output_belongs_to_the_session(session: &mut SessionManager, output: &mut OutputBuffer)
    requires
        call_ensures(SessionManager::output_buffer, (session,), output),
    ensures
        old(output)@ == old(session)@.output,
        final(session)@.output == final(output)@,
        final(session)@ == (SessionView { output: final(session)@.output, ..old(session)@ }),
{
}

/// A breakpoint, a stop and what is known of a breakpoint are copied field by field.
pub proof fn law_copies_are_the_same(
    line: &SourceBp,
    line_copy: SourceBp,
    function: &FunctionBp,
    function_copy: FunctionBp,
    stop: &StopInfo,
    stop_copy: StopInfo,
    info: &BreakpointInfo,
    info_copy: BreakpointInfo,
)
    requires
        call_ensures(SourceBp::clone, (line,), line_copy),
        call_ensures(FunctionBp::clone, (function,), function_copy),
        call_ensures(StopInfo::clone, (stop,), stop_copy),
        call_ensures(BreakpointInfo::clone, (info,), info_copy),
    ensures
        line_copy.line == line.line && line_copy.condition == line.condition,
        function_copy.name == function.name && function_copy.condition == function.condition,
        stop_copy.reason@ == stop.reason@ && stop_copy.thread_id == stop.thread_id,
        stop_copy.description@ == stop.description@ && stop_copy.hit_breakpoint_ids@
            == stop.hit_breakpoint_ids@,
        same_breakpoint(info_copy, *info),
{
}

/// Everything that is held is drained at once, in order, behind a marker exactly when something was
/// let go; afterwards there is nothing to drain.
pub proof fn law_everything_is_drained_once(
    fresh: OutputBuffer,
    buffer: &mut OutputBuffer,
    later: &mut OutputBuffer,
    drained: Vec<OutputEntry>,
    again: Vec<OutputEntry>,
)
    requires
        call_ensures(OutputBuffer::new, (), fresh),
        call_ensures(OutputBuffer::drain, (buffer,), drained),
        *old(later) == *final(buffer),
        call_ensures(OutputBuffer::drain, (later,), again),
    ensures
        fresh@.entries.len() == 0 && !fresh@.truncated,
        ({
            let marker: int = if old(buffer)@.truncated {
                1
            } else {
                0
            };
            &&& drained@.len() == old(buffer)@.entries.len() + marker
            &&& forall|i: int|
                #![trigger drained@[i]]
                marker <= i < drained@.len() ==> drained@[i].category@ == old(buffer)@.entries[i - marker].category && drained@[i].text@ == old(buffer)@.entries[i
                    - marker].text
            &&& marker == 1 ==> drained@[0].category@ == "console"@ && drained@[0].text@
                == "[output truncated]"@
        }),
        again@.len() == 0,
{
    let listed = model::views(drained@);
    assert(listed.len() == drained@.len());
    assert(model::views(again@).len() == again@.len());
    let marker: int = if old(buffer)@.truncated {
        1
    } else {
        0
    };
    assert forall|i: int|
        #![trigger drained@[i]]
        marker <= i < drained@.len() implies drained@[i].category@ == old(buffer)@.entries[i
        - marker].category && drained@[i].text@ == old(buffer)@.entries[i - marker].text by {
        assert(listed[i] == drained@[i]@);
    }
    if marker == 1 {
        assert(drained@[0]@ == listed[0]);
    }
}

/// Output is kept up to a mebibyte, counted in bytes of category and text. As long as all of it
/// fits, an entry that is appended stands behind all the others, and none is let go.
pub proof fn law_output_that_fits_is_kept(
    buffer: &mut OutputBuffer,
    category: &str,
    text: &str,
)
    requires
        call_ensures(OutputBuffer::append, (buffer, category, text), ()),
        bytes_of(old(buffer)@.entries) + vstd::utf8::encode_utf8(category@).len()
            + vstd::utf8::encode_utf8(text@).len() <= 1_048_576,
    ensures
        final(buffer)@.entries.len() == old(buffer)@.entries.len() + 1,
        final(buffer)@.entries.last().category == category@,
        final(buffer)@.entries.last().text == text@,
        forall|i: int|
            #![trigger final(buffer)@.entries[i]]
            0 <= i < old(buffer)@.entries.len() ==> final(buffer)@.entries[i] == old(buffer)@.entries[i],
        final(buffer)@.truncated == old(buffer)@.truncated,
{
    let entry = crate::output_buffer::EntryView { category: category@, text: text@ };
    lemma_bytes_of(old(buffer)@.entries);
    crate::output_buffer::lemma_total_push(old(buffer)@.entries, entry);
}

/// Output that does not fit makes room at the front, and what is let go is noted.
pub proof fn law_output_that_does_not_fit_makes_room(
    buffer: &mut OutputBuffer,
    category: &str,
    text: &str,
)
    requires
        call_ensures(OutputBuffer::append, (buffer, category, text), ()),
        bytes_of(old(buffer)@.entries) + vstd::utf8::encode_utf8(category@).len()
            + vstd::utf8::encode_utf8(text@).len() > 1_048_576,
    ensures
        final(buffer)@.truncated,
        final(buffer)@.entries.len() <= old(buffer)@.entries.len(),
        bytes_of(final(buffer)@.entries) <= 1_048_576,
        exists|k: int|
            0 < k <= old(buffer)@.entries.len() + 1 && final(buffer)@.entries == #[trigger] old(buffer)@.entries.push(
                crate::output_buffer::EntryView { category: category@, text: text@ },
            ).skip(k),
{
    let entry = crate::output_buffer::EntryView { category: category@, text: text@ };
    let all = old(buffer)@.entries.push(entry);
    lemma_bytes_of(old(buffer)@.entries);
    lemma_bytes_of(final(buffer)@.entries);
    crate::output_buffer::lemma_total_push(old(buffer)@.entries, entry);
    crate::output_buffer::law_eviction_keeps_the_newest(all);
    let k = choose|k: int| #[trigger]
        crate::output_buffer::least_eviction(all, k) && crate::output_buffer::evicted(all)
            == all.skip(k);
    if k == 0 {
        assert(all.skip(0) =~= all);
    }
}

/// How many bytes the categories and texts of `entries` take.
pub open spec fn bytes_of(entries: Seq<crate::output_buffer::EntryView>) -> nat
    decreases entries.len(),
{
    if entries.len() == 0 {
        0
    } else {
        vstd::utf8::encode_utf8(entries[0].category).len() + vstd::utf8::encode_utf8(
            entries[0].text,
        ).len() + bytes_of(entries.drop_first())
    }
}

proof fn lemma_bytes_of(entries: Seq<crate::output_buffer::EntryView>)
    ensures
        bytes_of(entries) == crate::output_buffer::total_size(entries),
    decreases entries.len(),
{
    if entries.len() > 0 {
        lemma_bytes_of(entries.drop_first());
    }
}

} // verus!
