//! What holds of a session over several operations.

use vstd::prelude::*;

use crate::file_breakpoints;
use crate::manager;
use crate::manager::SessionView;
use crate::model;
use crate::output_buffer::EntryView;
use crate::pump;
use crate::state::State;
use crate::types::BackendEvent;

verus! {

/// A reset begins another generation, and leaves nothing of what was known before.
pub proof fn law_reset_begins_another_generation(session: SessionView, other: SessionView)
    requires
        session.generation == other.generation,
    ensures
        session.reset().generation != session.generation,
        session.reset() == other.reset(),
        session.reset().state == State::Idle,
{
}

/// An operation that began in another generation has no say: neither the state that it wants to
/// set, nor the end that a pump reports, changes the session.
pub proof fn law_stale_operations_change_nothing(
    session: SessionView,
    generation: u64,
    state: State,
    code: Option<i64>,
)
    requires
        session.generation != generation,
    ensures
        session.with_state_in(generation, state) == session,
        session.terminated_in(generation, code) == session,
        pump::pumped(session, generation, BackendEvent::Terminated { code }) == session,
{
}

/// The generation `n` resets after `generation`.
pub open spec fn generation_after(generation: u64, n: nat) -> u64
    decreases n,
{
    if n == 0 {
        generation
    } else {
        manager::next_generation(generation_after(generation, (n - 1) as nat))
    }
}

/// Generations count the resets, and come round only when all of them were used: fewer resets
/// than there are generations always lead to another one.
pub proof fn law_generations_count_resets(generation: u64, n: nat)
    ensures
        generation_after(generation, n) == (generation + n) % (u64::MAX + 1),
        0 < n <= u64::MAX ==> generation_after(generation, n) != generation,
    decreases n,
{
    if n > 0 {
        law_generations_count_resets(generation, (n - 1) as nat);
    }
}

/// Whether a session goes on from `before` to `after` by one operation: a reset, or any other,
/// which stays in the generation.
pub open spec fn goes_on(before: SessionView, after: SessionView) -> bool {
    after == before.reset() || after.generation == before.generation
}

/// Whether each session of `history` goes on to the next.
pub open spec fn is_history(history: Seq<SessionView>) -> bool {
    history.len() > 0 && forall|i: int|
        0 < i < history.len() ==> goes_on(history[i - 1], #[trigger] history[i])
}

/// How many resets `history` has.
pub open spec fn resets(history: Seq<SessionView>) -> nat
    decreases history.len(),
{
    if history.len() < 2 {
        0
    } else {
        resets(history.drop_last()) + if history.last().generation
            == history[history.len() - 2].generation {
            0nat
        } else {
            1nat
        }
    }
}

proof fn lemma_history_generation(history: Seq<SessionView>)
    requires
        is_history(history),
    ensures
        history.last().generation == generation_after(history[0].generation, resets(history)),
    decreases history.len(),
{
    if history.len() > 1 {
        let head = history.drop_last();
        assert forall|i: int| 0 < i < head.len() implies goes_on(
            head[i - 1],
            #[trigger] head[i],
        ) by {
            assert(goes_on(history[i - 1], history[i]));
        }
        lemma_history_generation(head);
        assert(goes_on(history[history.len() - 2], history[history.len() - 1]));
    }
}

/// What began before a reset has no say after it, whatever happens in between: once a session was
/// reset, nothing that began in the generation in which its history starts changes it, through all
/// the resets that there are generations for.
pub proof fn law_what_began_before_a_reset_has_no_say(
    history: Seq<SessionView>,
    state: State,
    code: Option<i64>,
)
    requires
        is_history(history),
        0 < resets(history) <= u64::MAX,
    ensures
        ({
            let began = history[0].generation;
            let now = history.last();
            &&& now.generation == generation_after(began, resets(history))
            &&& now.generation != began
            &&& now.with_state_in(began, state) == now
            &&& now.terminated_in(began, code) == now
            &&& pump::pumped(now, began, BackendEvent::Terminated { code }) == now
        }),
{
    lemma_history_generation(history);
    law_generations_count_resets(history[0].generation, resets(history));
}

/// Within its generation, the end of the debuggee is noted together with its exit code; an end
/// without a code leaves the code that was known.
pub proof fn law_termination_is_noted(session: SessionView, code: Option<i64>)
    ensures
        ({
            let ended = session.terminated_in(session.generation, code);
            &&& ended.state == State::Terminated
            &&& ended.exit_code == (if code is Some {
                code
            } else {
                session.exit_code
            })
            &&& ended.generation == session.generation
            &&& ended.source_bps == session.source_bps
            &&& ended.output == session.output
        }),
{
}

/// Flushing puts the pending breakpoints of each file behind those that are set.
pub proof fn law_flush_appends(session: SessionView, file: Seq<char>)
    ensures
        file_breakpoints::listed(session.flushed().source_bps, file) == file_breakpoints::listed(
            session.source_bps,
            file,
        ) + file_breakpoints::listed(session.pending_source_bps, file),
        session.flushed().function_bps == session.function_bps + session.pending_function_bps,
        file_breakpoints::listed(session.flushed().pending_source_bps, file).len() == 0,
        session.flushed().pending_function_bps.len() == 0,
{
    assert(file_breakpoints::listed(session.flushed().source_bps, file)
        =~= file_breakpoints::listed(session.source_bps, file) + file_breakpoints::listed(
        session.pending_source_bps,
        file,
    ));
}

/// A second flush changes nothing: no breakpoint is set twice.
pub proof fn law_flush_is_idempotent(session: SessionView)
    ensures
        session.flushed().flushed() == session.flushed(),
{
    let once = session.flushed();
    let twice = once.flushed();
    assert forall|file: Seq<char>| once.source_bps.dom().contains(file) implies #[trigger]
    twice.source_bps[file] == once.source_bps[file] by {
        assert(twice.source_bps[file] =~= once.source_bps[file]);
    }
    assert(twice.source_bps =~= once.source_bps);
    assert(twice.function_bps =~= once.function_bps);
    assert(twice.pending_source_bps =~= once.pending_source_bps);
}

/// Taking a breakpoint out forgets its id and no other, and takes at most one breakpoint out of
/// the list that it is on; the other lists stay as they are.
pub proof fn law_removal_takes_one_breakpoint(session: SessionView, id: i64, file: Seq<char>)
    requires
        session.bp_responses.dom().contains(id),
    ensures
        ({
            let info = session.bp_responses[id];
            let after = session.without_breakpoint(id);
            let before_list = file_breakpoints::listed(session.source_bps, file);
            let after_list = file_breakpoints::listed(after.source_bps, file);
            &&& after.bp_responses == session.bp_responses.remove(id)
            &&& !(info.ty == "source"@ && info.file == file) ==> after_list == before_list
            &&& before_list.len() - 1 <= after_list.len() <= before_list.len()
            &&& info.ty != "function"@ ==> after.function_bps == session.function_bps
            &&& session.function_bps.len() - 1 <= after.function_bps.len()
                <= session.function_bps.len()
        }),
{
    reveal_strlit("source");
    reveal_strlit("function");
    assert("source"@.len() == 6 && "function"@.len() == 8);
    let info = session.bp_responses[id];
    model::lemma_first_index_bounds(
        session.source_bps[info.file],
        file_breakpoints::on_line(info.line),
    );
    model::lemma_first_index_bounds(session.function_bps, manager::on_function(info.function));
}

/// A line breakpoint that was added and then resolved can be taken out again: the list of its file
/// is as it was, as long as the list had no breakpoint on that line before.
pub proof fn law_removal_undoes_addition(
    session: SessionView,
    file: Seq<char>,
    bp: crate::types::SourceBpView,
    info: crate::breakpoint::BreakpointInfoView,
    id: i64,
)
    requires
        info.ty == "source"@,
        info.file == file,
        info.line == bp.line,
        forall|i: int|
            0 <= i < file_breakpoints::listed(session.source_bps, file).len() ==> (
            #[trigger] file_breakpoints::listed(session.source_bps, file)[i]).line != bp.line,
    ensures
        ({
            let list = file_breakpoints::listed(session.source_bps, file);
            let added = SessionView {
                source_bps: session.source_bps.insert(file, list.push(bp)),
                bp_responses: session.bp_responses.insert(id, info),
                ..session
            };
            let removed = added.without_breakpoint(id);
            &&& file_breakpoints::listed(removed.source_bps, file) == list
            &&& removed.bp_responses == session.bp_responses.remove(id)
        }),
{
    let list = file_breakpoints::listed(session.source_bps, file);
    let all = list.push(bp);
    let wanted = file_breakpoints::on_line(info.line);
    assert forall|j: int| 0 <= j < list.len() implies !wanted(#[trigger] all[j]) by {
        assert(all[j] == list[j]);
    }
    model::lemma_first_index(all, wanted, list.len() as int);
    assert(all.remove(list.len() as int) =~= list);
    assert(session.bp_responses.insert(id, info).remove(id) =~= session.bp_responses.remove(id));
}

/// A function breakpoint that was added and then resolved can be taken out again: the list is as
/// it was, as long as it had no breakpoint on that function before.
pub proof fn law_removal_undoes_function_addition(
    session: SessionView,
    bp: crate::types::FunctionBpView,
    info: crate::breakpoint::BreakpointInfoView,
    id: i64,
)
    requires
        info.ty == "function"@,
        info.function == bp.name,
        forall|i: int|
            0 <= i < session.function_bps.len() ==> (#[trigger] session.function_bps[i]).name
                != bp.name,
    ensures
        ({
            let added = SessionView {
                function_bps: session.function_bps.push(bp),
                bp_responses: session.bp_responses.insert(id, info),
                ..session
            };
            let removed = added.without_breakpoint(id);
            &&& removed.function_bps == session.function_bps
            &&& removed.source_bps == session.source_bps
            &&& removed.bp_responses == session.bp_responses.remove(id)
        }),
{
    reveal_strlit("source");
    reveal_strlit("function");
    assert("source"@.len() == 6 && "function"@.len() == 8);
    let list = session.function_bps;
    let all = list.push(bp);
    let wanted = manager::on_function(info.function);
    assert forall|j: int| 0 <= j < list.len() implies !wanted(#[trigger] all[j]) by {
        assert(all[j] == list[j]);
    }
    model::lemma_first_index(all, wanted, list.len() as int);
    assert(all.remove(list.len() as int) =~= list);
    assert(session.bp_responses.insert(id, info).remove(id) =~= session.bp_responses.remove(id));
}

/// Output that a pump takes in is captured behind what was captured before, in whatever generation
/// the session is; nothing else changes.
pub proof fn law_pump_captures_output(
    session: SessionView,
    generation: u64,
    category: String,
    text: String,
)
    ensures
        pump::pumped(session, generation, BackendEvent::Output { category, text }) == (SessionView {
            output: session.output.appended(EntryView { category: category@, text: text@ }),
            ..session
        }),
{
}

} // verus!
