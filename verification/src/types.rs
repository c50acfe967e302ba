//! The debugger-neutral data that crosses between a backend and a session.

use vstd::prelude::*;

verus! {

/// A breakpoint on a line of a source file.
#[derive(Debug, PartialEq, Eq)]
pub struct SourceBp {
    pub line: i64,
    pub condition: String,
}

pub struct SourceBpView {
    pub line: int,
    pub condition: Seq<char>,
}

impl View for SourceBp {
    type V = SourceBpView;

    open spec fn view(&self) -> SourceBpView {
        SourceBpView { line: self.line as int, condition: self.condition@ }
    }
}

impl Clone for SourceBp {
    fn clone(&self) -> (copy: Self)
        ensures
            copy == *self,
    {
        SourceBp { line: self.line, condition: self.condition.clone() }
    }
}

/// A breakpoint on a function, by name.
#[derive(Debug, PartialEq, Eq)]
pub struct FunctionBp {
    pub name: String,
    pub condition: String,
}

pub struct FunctionBpView {
    pub name: Seq<char>,
    pub condition: Seq<char>,
}

impl View for FunctionBp {
    type V = FunctionBpView;

    open spec fn view(&self) -> FunctionBpView {
        FunctionBpView { name: self.name@, condition: self.condition@ }
    }
}

impl Clone for FunctionBp {
    fn clone(&self) -> (copy: Self)
        ensures
            copy == *self,
    {
        FunctionBp { name: self.name.clone(), condition: self.condition.clone() }
    }
}

/// Why and where the debuggee stopped.
#[derive(Debug, PartialEq, Eq)]
pub struct StopInfo {
    pub reason: String,
    pub thread_id: i64,
    pub description: String,
    pub hit_breakpoint_ids: Vec<i64>,
}

pub struct StopInfoView {
    pub reason: Seq<char>,
    pub thread_id: int,
    pub description: Seq<char>,
    pub hit_breakpoint_ids: Seq<i64>,
}

impl View for StopInfo {
    type V = StopInfoView;

    open spec fn view(&self) -> StopInfoView {
        StopInfoView {
            reason: self.reason@,
            thread_id: self.thread_id as int,
            description: self.description@,
            hit_breakpoint_ids: self.hit_breakpoint_ids@,
        }
    }
}

impl Clone for StopInfo {
    fn clone(&self) -> (copy: Self)
        ensures
            copy@ == self@,
    {
        let copy = StopInfo {
            reason: self.reason.clone(),
            thread_id: self.thread_id,
            description: self.description.clone(),
            hit_breakpoint_ids: self.hit_breakpoint_ids.clone(),
        };
        assert(copy.hit_breakpoint_ids@ =~= self.hit_breakpoint_ids@);
        copy
    }
}

/// How a wait for the next stop ended.
#[derive(Debug, Clone, PartialEq, Eq)]
pub enum StopOutcome {
    Stopped(StopInfo),
    Exited { code: Option<i64> },
    Terminated,
}

pub enum StopOutcomeView {
    Stopped(StopInfoView),
    Exited { code: Option<i64> },
    Terminated,
}

impl View for StopOutcome {
    type V = StopOutcomeView;

    open spec fn view(&self) -> StopOutcomeView {
        match *self {
            StopOutcome::Stopped(info) => StopOutcomeView::Stopped(info@),
            StopOutcome::Exited { code } => StopOutcomeView::Exited { code },
            StopOutcome::Terminated => StopOutcomeView::Terminated,
        }
    }
}

/// How a launch ended.
#[derive(Debug, Clone, PartialEq, Eq)]
pub enum LaunchOutcome {
    Stopped(StopInfo),
    Running,
    Exited { code: Option<i64> },
}

pub enum LaunchOutcomeView {
    Stopped(StopInfoView),
    Running,
    Exited { code: Option<i64> },
}

impl View for LaunchOutcome {
    type V = LaunchOutcomeView;

    open spec fn view(&self) -> LaunchOutcomeView {
        match *self {
            LaunchOutcome::Stopped(info) => LaunchOutcomeView::Stopped(info@),
            LaunchOutcome::Running => LaunchOutcomeView::Running,
            LaunchOutcome::Exited { code } => LaunchOutcomeView::Exited { code },
        }
    }
}

/// How an attach ended.
#[derive(Debug, Clone, PartialEq, Eq)]
pub enum AttachOutcome {
    Stopped(StopInfo),
    Exited { code: Option<i64> },
    Terminated,
}

pub enum AttachOutcomeView {
    Stopped(StopInfoView),
    Exited { code: Option<i64> },
    Terminated,
}

impl View for AttachOutcome {
    type V = AttachOutcomeView;

    open spec fn view(&self) -> AttachOutcomeView {
        match *self {
            AttachOutcome::Stopped(info) => AttachOutcomeView::Stopped(info@),
            AttachOutcome::Exited { code } => AttachOutcomeView::Exited { code },
            AttachOutcome::Terminated => AttachOutcomeView::Terminated,
        }
    }
}

/// What to launch, and the breakpoints to set before it runs.
#[derive(Debug, Clone, PartialEq, Eq)]
pub struct LaunchSpec {
    pub program: String,
    pub args: Vec<String>,
    pub cwd: Option<String>,
    pub env: Vec<(String, String)>,
    pub stop_on_entry: bool,
    pub source_breakpoints: Vec<(String, Vec<SourceBp>)>,
    pub function_breakpoints: Vec<FunctionBp>,
}

/// What to attach to: a process id, or the name of a process to wait for.
#[derive(Debug, Clone, PartialEq, Eq)]
pub struct AttachSpec {
    pub pid: Option<i64>,
    pub wait_for: Option<String>,
}

/// How far one step goes.
#[derive(Debug, Clone, Copy, PartialEq, Eq, Structural)]
pub enum Granularity {
    Line,
    Instruction,
}

/// How the text of an evaluation is read.
#[derive(Debug, Clone, Copy, PartialEq, Eq, Structural)]
pub enum EvalMode {
    Expression,
    Repl,
}

/// The kind of a step.
#[derive(Debug, Clone, Copy, PartialEq, Eq, Structural)]
pub enum StepKind {
    Over,
    Into,
    Out,
}

/// One frame of a call stack.
#[derive(Debug, Clone, PartialEq, Eq)]
pub struct Frame {
    pub index: i64,
    pub id: i64,
    pub name: String,
    pub source_path: Option<String>,
    pub line: i64,
    pub instruction_pointer: Option<String>,
}

/// One thread of the debuggee.
#[derive(Debug, Clone, PartialEq, Eq)]
pub struct ThreadInfo {
    pub id: i64,
    pub name: String,
}

/// One scope of a frame.
#[derive(Debug, Clone, PartialEq, Eq)]
pub struct Scope {
    pub name: String,
    pub variables_reference: i64,
}

/// One variable, with the counts of its children.
#[derive(Debug, Clone, PartialEq, Eq)]
pub struct Variable {
    pub name: String,
    pub value: String,
    pub ty: String,
    pub variables_reference: i64,
    pub named: i64,
    pub indexed: i64,
}

/// What the debugger made of one requested breakpoint.
#[derive(Debug, Clone, PartialEq, Eq)]
pub struct BreakpointResult {
    pub id: i64,
    pub verified: bool,
    pub line: i64,
    pub message: String,
}

/// The result of an evaluation.
#[derive(Debug, Clone, PartialEq, Eq)]
pub struct EvalResult {
    pub result: String,
    pub ty: String,
    pub variables_reference: i64,
}

/// Bytes read from memory, and the address that the debugger echoed.
#[derive(Debug, Clone, PartialEq, Eq)]
pub struct MemoryRead {
    pub address: String,
    pub data: Vec<u8>,
}

/// One disassembled instruction.
#[derive(Debug, Clone, PartialEq, Eq)]
pub struct Instruction {
    pub address: String,
    pub instruction: String,
    pub bytes: String,
    pub symbol: String,
    pub source_path: Option<String>,
    pub line: i64,
}

/// What a backend reports outside of any call.
#[derive(Debug, Clone, PartialEq, Eq)]
pub enum BackendEvent {
    /// Program output; the category is passed through as it came.
    Output { category: String, text: String },
    /// The debuggee or the connection is gone.
    Terminated { code: Option<i64> },
}

} // verus!
