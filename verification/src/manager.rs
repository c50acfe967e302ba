//! The state of the debug session: what it is doing, what is being debugged, and its breakpoints.

use std::collections::HashMap;

use vstd::prelude::*;

use crate::breakpoint::{BreakpointInfo, BreakpointInfoView};
use crate::file_breakpoints;
use crate::file_breakpoints::FileBreakpoints;
use crate::id_map;
use crate::id_map::IdMap;
use crate::model;
use crate::output_buffer::{OutputBuffer, OutputView};
use crate::state::State;
use crate::text;
use crate::types::{FunctionBp, FunctionBpView, SourceBp, SourceBpView, StopInfo, StopInfoView};

verus! {

/// Everything that a session knows.
pub struct SessionView {
    pub state: State,
    pub generation: u64,
    pub program: Seq<char>,
    pub pid: i64,
    pub exit_code: Option<i64>,
    pub last_stopped: Option<StopInfoView>,
    pub frame_mapping: Map<i64, i64>,
    pub source_bps: Map<Seq<char>, Seq<SourceBpView>>,
    pub function_bps: Seq<FunctionBpView>,
    pub bp_responses: Map<i64, BreakpointInfoView>,
    pub pending_source_bps: Map<Seq<char>, Seq<SourceBpView>>,
    pub pending_function_bps: Seq<FunctionBpView>,
    pub output: OutputView,
}

impl SessionView {
    /// The session in which nothing is being debugged.
    pub open spec fn idle(generation: u64) -> SessionView {
        SessionView {
            state: State::Idle,
            generation,
            program: Seq::empty(),
            pid: 0,
            exit_code: None,
            last_stopped: None,
            frame_mapping: Map::empty(),
            source_bps: Map::empty(),
            function_bps: Seq::empty(),
            bp_responses: Map::empty(),
            pending_source_bps: Map::empty(),
            pending_function_bps: Seq::empty(),
            output: OutputView::empty(),
        }
    }

    /// The session after a reset: idle, in the next generation.
    pub open spec fn reset(self) -> SessionView {
        SessionView::idle(next_generation(self.generation))
    }

    /// The session in the state `state`, if it is still in the generation `generation`.
    pub open spec fn with_state_in(self, generation: u64, state: State) -> SessionView {
        if self.generation == generation {
            SessionView { state, ..self }
        } else {
            self
        }
    }

    /// The session whose debuggee ended with the exit code `code`, if it is known and the session
    /// is still in the generation `generation`.
    pub open spec fn terminated_in(self, generation: u64, code: Option<i64>) -> SessionView {
        if self.generation == generation {
            SessionView {
                state: State::Terminated,
                exit_code: match code {
                    Some(_) => code,
                    None => self.exit_code,
                },
                ..self
            }
        } else {
            self
        }
    }

    /// The session without the breakpoint `id`, which it knows: a line breakpoint is found again
    /// by its line, a function breakpoint by its name, and the first that fits goes.
    pub open spec fn without_breakpoint(self, id: i64) -> SessionView {
        let info = self.bp_responses[id];
        let forgotten = SessionView { bp_responses: self.bp_responses.remove(id), ..self };
        if info.ty == "source"@ {
            if self.source_bps.dom().contains(info.file) {
                SessionView {
                    source_bps: self.source_bps.insert(
                        info.file,
                        model::remove_first(
                            self.source_bps[info.file],
                            file_breakpoints::on_line(info.line),
                        ),
                    ),
                    ..forgotten
                }
            } else {
                forgotten
            }
        } else if info.ty == "function"@ {
            SessionView {
                function_bps: model::remove_first(self.function_bps, on_function(info.function)),
                ..forgotten
            }
        } else {
            forgotten
        }
    }

    /// The session once its pending breakpoints are set.
    pub open spec fn flushed(self) -> SessionView {
        SessionView {
            source_bps: file_breakpoints::merged(self.source_bps, self.pending_source_bps),
            function_bps: self.function_bps + self.pending_function_bps,
            pending_source_bps: Map::empty(),
            pending_function_bps: Seq::empty(),
            ..self
        }
    }
}

/// The generation after `generation`.
pub open spec fn next_generation(generation: u64) -> u64 {
    if generation == u64::MAX {
        0
    } else {
        (generation + 1) as u64
    }
}

/// Whether a breakpoint is on the function `name`.
pub open spec fn on_function(name: Seq<char>) -> spec_fn(FunctionBpView) -> bool {
    |bp: FunctionBpView| bp.name == name
}

/// The names of states.
pub open spec fn state_names(states: Seq<State>) -> Seq<Seq<char>> {
    Seq::new(states.len(), |i: int| states[i].name())
}

/// Why an operation that needs one of the states `allowed` cannot be done in the state `current`.
pub open spec fn state_error(current: State, allowed: Seq<State>) -> Seq<char> {
    match current {
        State::Idle => "no debug session active. Use 'launch' or 'attach' first."@,
        State::Running => "process is running. Use 'pause' first."@,
        _ => "invalid state: "@ + current.name() + ", expected one of: "@ + text::joined(
            state_names(allowed),
            ", "@,
        ),
    }
}

/// The views of a map's values.
pub open spec fn info_views(infos: Map<i64, BreakpointInfo>) -> Map<i64, BreakpointInfoView> {
    Map::new(|id: i64| infos.dom().contains(id), |id: i64| infos[id]@)
}

/// The debug session.
#[derive(Debug)]
pub struct SessionManager {
    state: State,
    generation: u64,
    program: String,
    pid: i64,
    exit_code: Option<i64>,
    last_stopped: Option<StopInfo>,
    frame_mapping: HashMap<i64, i64>,
    source_bps: FileBreakpoints,
    function_bps: Vec<FunctionBp>,
    bp_responses: IdMap<BreakpointInfo>,
    pending_source_bps: FileBreakpoints,
    pending_function_bps: Vec<FunctionBp>,
    output: OutputBuffer,
}

impl View for SessionManager {
    type V = SessionView;

    closed spec fn view(&self) -> SessionView {
        SessionView {
            state: self.state,
            generation: self.generation,
            program: self.program@,
            pid: self.pid,
            exit_code: self.exit_code,
            last_stopped: model::view_opt(self.last_stopped),
            frame_mapping: self.frame_mapping@,
            source_bps: self.source_bps@,
            function_bps: model::views(self.function_bps@),
            bp_responses: info_views(self.bp_responses@),
            pending_source_bps: self.pending_source_bps@,
            pending_function_bps: model::views(self.pending_function_bps@),
            output: self.output@,
        }
    }
}

fn copy_functions(list: &Vec<FunctionBp>) -> (copy: Vec<FunctionBp>)
    ensures
        copy@ == list@,
{
    let copy = list.clone();
    assert(copy@ =~= list@);
    copy
}

fn contains_state(states: &[State], state: State) -> (found: bool)
    ensures
        found == states@.contains(state),
{
    let mut i: usize = 0;
    while i < states.len()
        invariant
            i <= states@.len(),
            forall|j: int| 0 <= j < i ==> states@[j] != state,
        decreases states@.len() - i,
    {
        if states[i] == state {
            return true;
        }
        i += 1;
    }
    false
}

impl SessionManager {
    /// No file has two lists of breakpoints, every breakpoint is known under its own id, and the
    /// output is within its limit.
    pub closed spec fn wf(self) -> bool {
        &&& self.source_bps.wf()
        &&& self.pending_source_bps.wf()
        &&& self.bp_responses.wf()
        &&& self.output.wf()
        &&& forall|id: i64| #[trigger]
            self.bp_responses@.dom().contains(id) ==> self.bp_responses@[id].id == id
    }

    /// Every breakpoint is known under its own id, whatever was done to the session.
    pub proof fn law_breakpoints_are_known_under_their_ids(self)
        requires
            self.wf(),
        ensures
            forall|id: i64| #[trigger]
                self@.bp_responses.dom().contains(id) ==> self@.bp_responses[id].id == id,
    {
    }

    /// The session in which nothing is being debugged yet.
    pub fn new() -> (session: Self)
        ensures
            session.wf(),
            session@ == SessionView::idle(0),
    {
        let session = SessionManager {
            state: State::Idle,
            generation: 0,
            program: String::new(),
            pid: 0,
            exit_code: None,
            last_stopped: None,
            frame_mapping: HashMap::new(),
            source_bps: FileBreakpoints::new(),
            function_bps: Vec::new(),
            bp_responses: IdMap::new(),
            pending_source_bps: FileBreakpoints::new(),
            pending_function_bps: Vec::new(),
            output: OutputBuffer::new(),
        };
        proof {
            model::lemma_views_empty::<FunctionBp>();
            assert(session@.bp_responses =~= Map::<i64, BreakpointInfoView>::empty());
            assert(session@.program =~= Seq::<char>::empty());
        }
        session
    }

    /// What the session is doing.
    pub fn state(&self) -> (state: State)
        ensures
            state == self@.state,
    {
        self.state
    }

    /// Puts the session into the state `state`, whatever it was in.
    pub fn set_state(&mut self, state: State)
        requires
            old(self).wf(),
        ensures
            final(self).wf(),
            final(self)@ == (SessionView { state, ..old(self)@ }),
    {
        self.state = state;
    }

    /// Puts the session into the state `state` if it is still in the generation `generation`.
    pub fn set_state_if_generation(&mut self, generation: u64, state: State) -> (applied: bool)
        requires
            old(self).wf(),
        ensures
            final(self).wf(),
            applied == (old(self)@.generation == generation),
            final(self)@ == old(self)@.with_state_in(generation, state),
    {
        if self.generation != generation {
            return false;
        }
        self.state = state;
        true
    }

    /// How often the session has been reset.
    pub fn generation(&self) -> (generation: u64)
        ensures
            generation == self@.generation,
    {
        self.generation
    }

    /// Whether the session is in one of the states `allowed`; else why that matters.
    pub fn check_state(&self, allowed: &[State]) -> (outcome: Result<(), String>)
        ensures
            match outcome {
                Ok(_) => allowed@.contains(self@.state),
                Err(message) => !allowed@.contains(self@.state) && message@ == state_error(
                    self@.state,
                    allowed@,
                ),
            },
    {
        if contains_state(allowed, self.state) {
            return Ok(());
        }
        match self.state {
            State::Idle => Err(
                "no debug session active. Use 'launch' or 'attach' first.".to_owned(),
            ),
            State::Running => Err("process is running. Use 'pause' first.".to_owned()),
            _ => {
                let mut names: Vec<String> = Vec::new();
                let mut i: usize = 0;
                while i < allowed.len()
                    invariant
                        i <= allowed@.len(),
                        names@.len() == i,
                        forall|j: int|
                            0 <= j < i ==> (#[trigger] names@[j])@ == allowed@[j].name(),
                    decreases allowed@.len() - i,
                {
                    names.push(allowed[i].to_string());
                    i += 1;
                }
                assert(model::views(names@) =~= state_names(allowed@));
                let list = text::join_text(&names, ", ");
                Err(
                    text::concat4(
                        "invalid state: ",
                        self.state.to_string().as_str(),
                        ", expected one of: ",
                        list.as_str(),
                    ),
                )
            },
        }
    }

    /// Forgets everything, and begins the next generation.
    pub fn reset(&mut self)
        requires
            old(self).wf(),
        ensures
            final(self).wf(),
            final(self)@ == old(self)@.reset(),
    {
        let generation: u64 = if self.generation == u64::MAX {
            0
        } else {
            self.generation + 1
        };
        let mut fresh = SessionManager::new();
        fresh.generation = generation;
        *self = fresh;
    }

    /// The program that is being debugged.
    pub fn program(&self) -> (program: String)
        ensures
            program@ == self@.program,
    {
        self.program.clone()
    }

    /// Sets the program that is being debugged.
    pub fn set_program(&mut self, program: String)
        requires
            old(self).wf(),
        ensures
            final(self).wf(),
            final(self)@ == (SessionView { program: program@, ..old(self)@ }),
    {
        self.program = program;
    }

    /// The process id that is reported.
    pub fn pid(&self) -> (pid: i64)
        ensures
            pid == self@.pid,
    {
        self.pid
    }

    /// Sets the process id that is reported.
    pub fn set_pid(&mut self, pid: i64)
        requires
            old(self).wf(),
        ensures
            final(self).wf(),
            final(self)@ == (SessionView { pid, ..old(self)@ }),
    {
        self.pid = pid;
    }

    /// The exit code of the debuggee, if it is known.
    pub fn exit_code(&self) -> (code: Option<i64>)
        ensures
            code == self@.exit_code,
    {
        self.exit_code
    }

    /// Sets the exit code of the debuggee.
    pub fn set_exit_code(&mut self, code: i64)
        requires
            old(self).wf(),
        ensures
            final(self).wf(),
            final(self)@ == (SessionView { exit_code: Some(code), ..old(self)@ }),
    {
        self.exit_code = Some(code);
    }

    /// The debuggee ended, with the exit code `code` if it is known: the session is told, if it is
    /// still in the generation `generation`.
    pub fn terminate_if_generation(&mut self, generation: u64, code: Option<i64>) -> (applied: bool)
        requires
            old(self).wf(),
        ensures
            final(self).wf(),
            applied == (old(self)@.generation == generation),
            final(self)@ == old(self)@.terminated_in(generation, code),
    {
        if self.generation != generation {
            return false;
        }
        if let Some(code) = code {
            self.exit_code = Some(code);
        }
        self.state = State::Terminated;
        true
    }

    /// The last stop, if there was one.
    pub fn last_stopped(&self) -> (info: Option<StopInfo>)
        ensures
            model::view_opt(info) == self@.last_stopped,
    {
        match &self.last_stopped {
            Some(info) => Some(info.clone()),
            None => None,
        }
    }

    /// Sets the last stop.
    pub fn set_last_stopped(&mut self, info: StopInfo)
        requires
            old(self).wf(),
        ensures
            final(self).wf(),
            final(self)@ == (SessionView { last_stopped: Some(info@), ..old(self)@ }),
    {
        self.last_stopped = Some(info);
    }

    /// A copy of the frame ids by frame index.
    pub fn frame_mapping(&self) -> (mapping: HashMap<i64, i64>)
        ensures
            mapping@ == self@.frame_mapping,
    {
        self.frame_mapping.clone()
    }

    /// Replaces the frame ids by frame index.
    pub fn set_frame_mapping(&mut self, mapping: HashMap<i64, i64>)
        requires
            old(self).wf(),
        ensures
            final(self).wf(),
            final(self)@ == (SessionView { frame_mapping: mapping@, ..old(self)@ }),
    {
        self.frame_mapping = mapping;
    }

    /// The captured output.
    pub fn output_buffer(&mut self) -> (output: &mut OutputBuffer)
        requires
            old(self).wf(),
        ensures
            output.wf(),
            output@ == old(self)@.output,
            final(output).wf() ==> final(self).wf(),
            final(self)@ == (SessionView { output: final(output)@, ..old(self)@ }),
    {
        &mut self.output
    }

    /// Puts a line breakpoint behind those of `file`, and returns it.
    pub fn add_source_breakpoint(&mut self, file: &str, line: i64, condition: &str) -> (bp:
        SourceBp)
        requires
            old(self).wf(),
        ensures
            final(self).wf(),
            bp@ == (SourceBpView { line: line as int, condition: condition@ }),
            final(self)@ == (SessionView {
                source_bps: old(self)@.source_bps.insert(
                    file@,
                    file_breakpoints::listed(old(self)@.source_bps, file@).push(bp@),
                ),
                ..old(self)@
            }),
    {
        let bp = SourceBp { line, condition: condition.to_owned() };
        self.source_bps.add(file, bp.clone());
        bp
    }

    /// Puts a function breakpoint behind the others, and returns it.
    pub fn add_function_breakpoint(&mut self, name: &str, condition: &str) -> (bp: FunctionBp)
        requires
            old(self).wf(),
        ensures
            final(self).wf(),
            bp@ == (FunctionBpView { name: name@, condition: condition@ }),
            final(self)@ == (SessionView {
                function_bps: old(self)@.function_bps.push(bp@),
                ..old(self)@
            }),
    {
        let bp = FunctionBp { name: name.to_owned(), condition: condition.to_owned() };
        let copy = bp.clone();
        proof {
            model::lemma_views_push(self.function_bps@, copy);
        }
        self.function_bps.push(copy);
        bp
    }

    /// Takes in what the debugger made of a breakpoint, under the id that it gave it.
    pub fn add_breakpoint_response(&mut self, info: BreakpointInfo)
        requires
            old(self).wf(),
        ensures
            final(self).wf(),
            final(self)@ == (SessionView {
                bp_responses: old(self)@.bp_responses.insert(info.id, info@),
                ..old(self)@
            }),
    {
        let ghost before = self.bp_responses@;
        let ghost added = info;
        let _ = self.bp_responses.insert(info.id, info);
        assert(info_views(self.bp_responses@) =~= info_views(before).insert(added.id, added@));
    }

    /// What is known of the breakpoint `id`.
    pub fn breakpoint_info(&self, id: i64) -> (info: Option<BreakpointInfo>)
        requires
            self.wf(),
        ensures
            match info {
                Some(i) => self@.bp_responses.dom().contains(id) && i@ == self@.bp_responses[id],
                None => !self@.bp_responses.dom().contains(id),
            },
    {
        match self.bp_responses.get(id) {
            Some(info) => Some(info.clone()),
            None => None,
        }
    }

    /// Takes the breakpoint `id` out, and returns its file and whether it is on a function. A
    /// breakpoint that is not known is the error.
    pub fn remove_breakpoint_by_id(&mut self, id: i64) -> (outcome: Result<(String, bool), String>)
        requires
            old(self).wf(),
        ensures
            final(self).wf(),
            match outcome {
                Ok((file, was_function)) => {
                    let info = old(self)@.bp_responses[id];
                    &&& old(self)@.bp_responses.dom().contains(id)
                    &&& final(self)@ == old(self)@.without_breakpoint(id)
                    &&& file@ == (if info.ty == "source"@ {
                        info.file
                    } else {
                        Seq::<char>::empty()
                    })
                    &&& was_function == (info.ty != "source"@ && info.ty == "function"@)
                },
                Err(message) => {
                    &&& !old(self)@.bp_responses.dom().contains(id)
                    &&& final(self)@ == old(self)@
                    &&& message@ == "breakpoint ID "@ + text::signed_decimal(id as int)
                        + " not found"@
                },
            },
    {
        let ghost responses = self.bp_responses@;
        let info = match self.bp_responses.remove(id) {
            Some(info) => info,
            None => {
                assert(responses.remove(id) =~= responses);
                return Err(
                    text::concat3(
                        "breakpoint ID ",
                        text::signed_decimal_text(id).as_str(),
                        " not found",
                    ),
                );
            },
        };
        assert(info_views(self.bp_responses@) =~= info_views(responses).remove(id));
        if text::same_text(info.ty.as_str(), "source") {
            self.source_bps.remove_line(info.file.as_str(), info.line);
            return Ok((info.file, false));
        }
        if text::same_text(info.ty.as_str(), "function") {
            let ghost bps = model::views(self.function_bps@);
            let ghost wanted = on_function(info.function@);
            let mut i: usize = 0;
            while i < self.function_bps.len() && !text::same_text(
                self.function_bps[i].name.as_str(),
                info.function.as_str(),
            )
                invariant
                    i <= self.function_bps@.len(),
                    bps == model::views(self.function_bps@),
                    wanted == on_function(info.function@),
                    forall|j: int| 0 <= j < i ==> !wanted(#[trigger] bps[j]),
                decreases self.function_bps@.len() - i,
            {
                i += 1;
            }
            proof {
                model::lemma_first_index(bps, wanted, i as int);
                if i < self.function_bps@.len() {
                    model::lemma_views_remove(self.function_bps@, i as int);
                }
            }
            if i < self.function_bps.len() {
                let _ = self.function_bps.remove(i);
            }
            return Ok((String::new(), true));
        }
        Ok((String::new(), false))
    }

    /// All breakpoints that the debugger knows, in ascending order of their ids.
    pub fn list_breakpoints(&self) -> (list: Vec<BreakpointInfo>)
        requires
            self.wf(),
        ensures
            self@.bp_responses.dom().finite(),
            list@.len() == self@.bp_responses.dom().len(),
            forall|id: i64| #[trigger]
                self@.bp_responses.dom().contains(id) ==> exists|i: int|
                    0 <= i < list@.len() && (#[trigger] list@[i]).id == id,
            forall|i: int|
                0 <= i < list@.len() ==> self@.bp_responses.dom().contains(
                    (#[trigger] list@[i]).id,
                ) && list@[i]@ == self@.bp_responses[list@[i].id],
            forall|i: int, j: int|
                0 <= i < j < list@.len() ==> (#[trigger] list@[i]).id < (#[trigger] list@[j]).id,
    {
        let mut list: Vec<BreakpointInfo> = Vec::new();
        let ghost entries = self.bp_responses.entries@;
        let mut i: usize = 0;
        while i < self.bp_responses.entries.len()
            invariant
                self.wf(),
                entries == self.bp_responses.entries@,
                i <= entries.len(),
                list@.len() == i,
                forall|j: int|
                    0 <= j < i ==> (#[trigger] list@[j]) == entries[j].1 && list@[j].id
                        == entries[j].0 && self.bp_responses@.dom().contains(list@[j].id)
                        && self.bp_responses@[list@[j].id] == list@[j],
            decreases entries.len() - i,
        {
            proof {
                id_map::lemma_table_at(entries, i as int);
                assert(self.bp_responses@.dom().contains(entries[i as int].0));
            }
            list.push(self.bp_responses.entries[i].1.clone());
            i += 1;
        }
        proof {
            id_map::lemma_table_len(entries);
            assert(self@.bp_responses.dom() =~= self.bp_responses@.dom());
            assert forall|id: i64| #[trigger]
                self@.bp_responses.dom().contains(id) implies exists|i: int|
                0 <= i < list@.len() && (#[trigger] list@[i]).id == id by {
                let k = choose|k: int| id_map::key_at(entries, id, k);
                assert(id_map::key_at(entries, id, k));
                assert(list@[k].id == id);
            }
        }
        list
    }

    /// A copy of the line breakpoints of `file`.
    pub fn source_breakpoints_for_file(&self, file: &str) -> (bps: Vec<SourceBp>)
        requires
            self.wf(),
        ensures
            model::views(bps@) == file_breakpoints::listed(self@.source_bps, file@),
    {
        match self.source_bps.get(file) {
            Some(list) => {
                let copy = list.clone();
                assert(copy@ =~= list@);
                copy
            },
            None => {
                proof {
                    model::lemma_views_empty::<SourceBp>();
                }
                Vec::new()
            },
        }
    }

    /// A copy of the function breakpoints.
    pub fn all_function_breakpoints(&self) -> (bps: Vec<FunctionBp>)
        ensures
            model::views(bps@) == self@.function_bps,
    {
        copy_functions(&self.function_bps)
    }

    /// Notes a line breakpoint, to be set when a program is launched.
    pub fn add_pending_source_breakpoint(&mut self, file: &str, line: i64, condition: &str)
        requires
            old(self).wf(),
        ensures
            final(self).wf(),
            final(self)@ == (SessionView {
                pending_source_bps: old(self)@.pending_source_bps.insert(
                    file@,
                    file_breakpoints::listed(old(self)@.pending_source_bps, file@).push(
                        SourceBpView { line: line as int, condition: condition@ },
                    ),
                ),
                ..old(self)@
            }),
    {
        self.pending_source_bps.add(file, SourceBp { line, condition: condition.to_owned() });
    }

    /// Notes a function breakpoint, to be set when a program is launched.
    pub fn add_pending_function_breakpoint(&mut self, name: &str, condition: &str)
        requires
            old(self).wf(),
        ensures
            final(self).wf(),
            final(self)@ == (SessionView {
                pending_function_bps: old(self)@.pending_function_bps.push(
                    FunctionBpView { name: name@, condition: condition@ },
                ),
                ..old(self)@
            }),
    {
        let bp = FunctionBp { name: name.to_owned(), condition: condition.to_owned() };
        proof {
            model::lemma_views_push(self.pending_function_bps@, bp);
        }
        self.pending_function_bps.push(bp);
    }

    /// Puts the pending breakpoints behind those that are set, and hands them out. Nothing is
    /// pending afterwards.
    pub fn flush_pending_breakpoints(&mut self) -> (flushed: (FileBreakpoints, Vec<FunctionBp>))
        requires
            old(self).wf(),
        ensures
            final(self).wf(),
            final(self)@ == old(self)@.flushed(),
            flushed.0.wf(),
            flushed.0@ == old(self)@.pending_source_bps,
            model::views(flushed.1@) == old(self)@.pending_function_bps,
    {
        let mut files = FileBreakpoints::new();
        std::mem::swap(&mut files, &mut self.pending_source_bps);
        let mut functions: Vec<FunctionBp> = Vec::new();
        std::mem::swap(&mut functions, &mut self.pending_function_bps);
        self.source_bps.merge(&files);
        let mut added = copy_functions(&functions);
        proof {
            model::lemma_views_add(self.function_bps@, added@);
            model::lemma_views_empty::<FunctionBp>();
        }
        self.function_bps.append(&mut added);
        (files, functions)
    }
}

impl Default for SessionManager {
    /// The session in which nothing is being debugged yet.
    fn default() -> (session: Self)
        ensures
            session.wf(),
            session@ == SessionView::idle(0),
    {
        SessionManager::new()
    }
}

} // verus!
