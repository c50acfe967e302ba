//! The exchanges that take several steps: launching, attaching, and resuming the debuggee.
//!
//! Each is a sequence of actions. Whoever performs an action hands back what came of it, and is
//! told the next action or the result.

use vstd::prelude::*;

use crate::args::{self, LldbAttachArgs, LldbLaunchArgs};
use crate::backend;
use crate::client::PendingResult;
use crate::error::{dap_err, BackendError, BackendErrorView};
use crate::json::{self, Json};
use crate::model;
use crate::requests;
use crate::text;
use crate::types::{
    AttachOutcome, AttachSpec, FunctionBp, FunctionBpView, LaunchOutcome, LaunchSpec, SourceBp,
    SourceBpView, StopOutcome,
};
use crate::wire::{self, DapMessage, Request, RequestView};

verus! {

/// Something to do.
#[derive(Debug)]
pub enum Action {
    /// Send the request and wait for its response.
    Send(Request),
    /// Send the request; its response will be asked for later.
    SendAsync(Request),
    /// Wait until the debugger is initialized.
    AwaitInitialized,
    /// Register for the next stop.
    RegisterStop,
    /// Wait for the response to the request that was sent before.
    AwaitResponse,
    /// Wait for the stop that was registered for.
    AwaitStop,
}

pub enum ActionView {
    Send(RequestView),
    SendAsync(RequestView),
    AwaitInitialized,
    RegisterStop,
    AwaitResponse,
    AwaitStop,
}

impl View for Action {
    type V = ActionView;

    open spec fn view(&self) -> ActionView {
        match *self {
            Action::Send(request) => ActionView::Send(request@),
            Action::SendAsync(request) => ActionView::SendAsync(request@),
            Action::AwaitInitialized => ActionView::AwaitInitialized,
            Action::RegisterStop => ActionView::RegisterStop,
            Action::AwaitResponse => ActionView::AwaitResponse,
            Action::AwaitStop => ActionView::AwaitStop,
        }
    }
}

/// What came of an action.
#[derive(Debug)]
pub enum Event {
    /// The response, or why there is none.
    Replied(PendingResult),
    /// Whether the request was sent.
    Sent(Result<(), BackendError>),
    Initialized,
    Registered,
    /// The response that was asked for later, or why there is none; nothing when the connection
    /// was torn down.
    Deferred(Option<PendingResult>),
    /// The outcome of the wait for a stop; nothing when the connection was torn down.
    Stopped(Option<StopOutcome>),
}

/// Whether `event` is something that can come of `action`.
pub open spec fn comes_of(event: Event, action: ActionView) -> bool {
    match action {
        ActionView::Send(_) => event is Replied,
        ActionView::SendAsync(_) => event is Sent,
        ActionView::AwaitInitialized => event is Initialized,
        ActionView::RegisterStop => event is Registered,
        ActionView::AwaitResponse => event is Deferred,
        ActionView::AwaitStop => event is Stopped,
    }
}

/// The error with that text.
pub open spec fn failure(message: Seq<char>) -> BackendErrorView {
    BackendErrorView::Dap { message }
}

/// The failure of a step: what is said of it, and the cause.
pub open spec fn step_failure(said: Seq<char>, cause: BackendError) -> BackendErrorView {
    failure(said + cause@.text())
}

fn fail(said: &str, cause: &BackendError) -> (err: BackendError)
    ensures
        err@ == step_failure(said@, *cause),
{
    dap_err(text::concat2(said, cause.to_string().as_str()))
}

/// The answer to the breakpoints of `file`: nothing when they are set, else the error.
pub open spec fn flush_error(file: Seq<char>, reply: PendingResult, stderr: Seq<char>) -> Option<
    BackendErrorView,
> {
    let said = "setBreakpoints failed for "@ + file + ": "@;
    match reply {
        Err(e) => Some(step_failure(said, e)),
        Ok(DapMessage::Response(response)) => if response.command@ == "setBreakpoints"@ {
            if response.success {
                None
            } else {
                Some(failure(said + backend::diagnostic_text(response.message@, stderr)))
            }
        } else {
            Some(BackendErrorView::Protocol { ty: backend::response_label(response) })
        },
        Ok(message) => Some(BackendErrorView::Protocol { ty: backend::message_label(message) }),
    }
}

/// Whether an optional error is as expected.
pub open spec fn same_error(err: Option<BackendError>, expected: Option<BackendErrorView>) -> bool {
    model::view_opt(err) == expected
}

/// The error in the answer to the breakpoints of `file`, if there is one.
pub fn check_flush(file: &str, reply: PendingResult, stderr: &str) -> (err: Option<BackendError>)
    ensures
        same_error(err, flush_error(file@, reply, stderr@)),
{
    let said = text::concat3("setBreakpoints failed for ", file, ": ");
    match reply {
        Err(e) => Some(fail(said.as_str(), &e)),
        Ok(DapMessage::Response(response)) => {
            if text::same_text(response.command.as_str(), "setBreakpoints") {
                if response.success {
                    None
                } else {
                    let why = backend::diagnostic(response.message.as_str(), stderr);
                    Some(dap_err(text::concat2(said.as_str(), why.as_str())))
                }
            } else {
                Some(BackendError::Protocol { ty: backend::response_type_label(&response) })
            }
        },
        Ok(message) => Some(BackendError::Protocol { ty: backend::message_type_label(&message) }),
    }
}

/// The error in the answer to a request whose response has to grant what was asked for, if there
/// is one: `said` is said of an answer that did not come.
pub open spec fn reply_error(
    op: Seq<char>,
    said: Seq<char>,
    reply: PendingResult,
    stderr: Seq<char>,
) -> Option<BackendErrorView> {
    match reply {
        Err(e) => Some(step_failure(said, e)),
        Ok(message) => match backend::checked(op, op, message, stderr) {
            Ok(_) => None,
            Err(err) => Some(err),
        },
    }
}

fn check_reply(op: &str, said: &str, reply: PendingResult, stderr: &str) -> (err: Option<
    BackendError,
>)
    ensures
        same_error(err, reply_error(op@, said@, reply, stderr@)),
{
    match reply {
        Err(e) => Some(fail(said, &e)),
        Ok(message) => match backend::check_response(op, op, message, stderr) {
            Ok(_) => None,
            Err(err) => Some(err),
        },
    }
}

/// The error in the answer to a request whose response only has to come, if there is one.
pub open spec fn arrival_error(said: Seq<char>, reply: PendingResult) -> Option<BackendErrorView> {
    match reply {
        Err(e) => Some(step_failure(said, e)),
        Ok(_) => None,
    }
}

fn check_arrival(said: &str, reply: PendingResult) -> (err: Option<BackendError>)
    ensures
        same_error(err, arrival_error(said@, reply)),
{
    match reply {
        Err(e) => Some(fail(said, &e)),
        Ok(_) => None,
    }
}

/// The error in a response that was asked for later, if there is one.
pub open spec fn deferred_error(
    op: Seq<char>,
    reply: Option<PendingResult>,
    stderr: Seq<char>,
) -> Option<BackendErrorView> {
    match reply {
        None => Some(BackendErrorView::Closed),
        Some(reply) => reply_error(op, op + " request failed: "@, reply, stderr),
    }
}

fn check_deferred(op: &str, reply: Option<PendingResult>, stderr: &str) -> (err: Option<
    BackendError,
>)
    ensures
        same_error(err, deferred_error(op@, reply, stderr@)),
{
    match reply {
        None => Some(BackendError::Closed),
        Some(reply) => check_reply(
            op,
            text::concat2(op, " request failed: ").as_str(),
            reply,
            stderr,
        ),
    }
}

/// What comes next: another action, or the result.
pub enum NextView<P, O> {
    Go(P),
    Done(Result<O, BackendErrorView>),
}

/// The step after one with the error `err`: the result is the error, if there is one.
pub open spec fn after_check<P, O>(err: Option<BackendErrorView>, phase: P) -> NextView<P, O> {
    match err {
        Some(err) => NextView::Done(Err(err)),
        None => NextView::Go(phase),
    }
}

/// Where a launch is.
#[derive(Debug, Clone, Copy)]
pub enum LaunchPhase {
    Initialize,
    Launch,
    AwaitInitialized,
    /// The breakpoints of the file with that index are to be set.
    SourceBreakpoints(usize),
    FunctionBreakpoints,
    ExceptionBreakpoints,
    Register,
    ConfigurationDone,
    AwaitResponse,
    AwaitStop,
}

/// A launch that is under way.
#[derive(Debug)]
pub struct LaunchHandshake {
    arguments: LldbLaunchArgs,
    source_breakpoints: Vec<(String, Vec<SourceBp>)>,
    function_breakpoints: Vec<FunctionBp>,
    phase: LaunchPhase,
}

/// The breakpoints of each file.
pub open spec fn file_views(files: Seq<(String, Vec<SourceBp>)>) -> Seq<
    (Seq<char>, Seq<SourceBpView>),
> {
    Seq::new(files.len(), |i: int| (files[i].0@, model::views(files[i].1@)))
}

/// What is to be launched, in the terms of the requests.
pub struct LaunchPlan {
    pub arguments: Json,
    pub stop_on_entry: bool,
    pub source_breakpoints: Seq<(Seq<char>, Seq<SourceBpView>)>,
    pub function_breakpoints: Seq<FunctionBpView>,
}

/// The arguments of the request that launches `spec`.
pub open spec fn launch_arguments(spec: LaunchSpec) -> Json {
    let base = Map::<Seq<char>, Json>::empty().insert("program"@, Json::Str(spec.program@));
    let env = model::pair_views(spec.env@);
    let listed = args::with_list(base, "args"@, spec.args@);
    let placed = match spec.cwd {
        Some(dir) => args::with_text(listed, "cwd"@, dir@),
        None => listed,
    };
    let target = args::with(
        placed,
        env.len() > 0,
        "env"@,
        Json::Object(args::env_entries(env)),
    );
    Json::Object(args::with(target, spec.stop_on_entry, "stopOnEntry"@, Json::Bool(true)))
}

/// What launching `spec` takes.
pub open spec fn launch_plan(spec: LaunchSpec) -> LaunchPlan {
    LaunchPlan {
        arguments: launch_arguments(spec),
        stop_on_entry: spec.stop_on_entry,
        source_breakpoints: file_views(spec.source_breakpoints@),
        function_breakpoints: model::views(spec.function_breakpoints@),
    }
}

/// The phase in which the breakpoints from file `i` on are to be set.
pub open spec fn flush_phase(plan: LaunchPlan, i: int) -> LaunchPhase {
    if i < plan.source_breakpoints.len() {
        LaunchPhase::SourceBreakpoints(i as usize)
    } else if plan.function_breakpoints.len() > 0 {
        LaunchPhase::FunctionBreakpoints
    } else {
        LaunchPhase::ExceptionBreakpoints
    }
}

/// The action of a launch at `phase`.
pub open spec fn launch_action(plan: LaunchPlan, phase: LaunchPhase) -> ActionView {
    match phase {
        LaunchPhase::Initialize => ActionView::Send(
            wire::request_view("initialize"@, Some(requests::initialize_arguments())),
        ),
        LaunchPhase::Launch => ActionView::SendAsync(
            wire::request_view("launch"@, Some(plan.arguments)),
        ),
        LaunchPhase::AwaitInitialized => ActionView::AwaitInitialized,
        LaunchPhase::SourceBreakpoints(i) => ActionView::Send(
            requests::set_breakpoints_request(
                plan.source_breakpoints[i as int].0,
                plan.source_breakpoints[i as int].1,
            ),
        ),
        LaunchPhase::FunctionBreakpoints => ActionView::Send(
            requests::set_function_breakpoints_request(plan.function_breakpoints),
        ),
        LaunchPhase::ExceptionBreakpoints => ActionView::Send(exception_request()),
        LaunchPhase::Register => ActionView::RegisterStop,
        LaunchPhase::ConfigurationDone => ActionView::Send(configuration_request()),
        LaunchPhase::AwaitResponse => ActionView::AwaitResponse,
        LaunchPhase::AwaitStop => ActionView::AwaitStop,
    }
}

/// The request that sets no exception breakpoints.
pub open spec fn exception_request() -> RequestView {
    requests::request_with("setExceptionBreakpoints"@, "filters"@, Json::Array(Seq::empty()))
}

/// The request that ends the configuration.
pub open spec fn configuration_request() -> RequestView {
    wire::request_view("configurationDone"@, None)
}

/// The result of a launch whose wait for the first stop came to `outcome`.
pub open spec fn launch_outcome(outcome: Option<StopOutcome>) -> LaunchOutcome {
    match outcome {
        Some(StopOutcome::Stopped(info)) => LaunchOutcome::Stopped(info),
        Some(StopOutcome::Exited { code }) => LaunchOutcome::Exited { code },
        Some(StopOutcome::Terminated) => LaunchOutcome::Exited { code: None },
        None => LaunchOutcome::Exited { code: None },
    }
}

/// What `event` makes of a launch at `phase`, when the debugger's error stream holds `stderr`.
pub open spec fn launch_next(
    plan: LaunchPlan,
    phase: LaunchPhase,
    event: Event,
    stderr: Seq<char>,
) -> NextView<LaunchPhase, LaunchOutcome> {
    match (phase, event) {
        (LaunchPhase::Initialize, Event::Replied(reply)) => after_check(
            reply_error("initialize"@, "initialize request failed: "@, reply, stderr),
            LaunchPhase::Launch,
        ),
        (LaunchPhase::Launch, Event::Sent(sent)) => after_check(
            match sent {
                Ok(_) => None,
                Err(e) => Some(step_failure("launch request failed: "@, e)),
            },
            LaunchPhase::AwaitInitialized,
        ),
        (LaunchPhase::SourceBreakpoints(i), Event::Replied(reply)) => after_check(
            flush_error(plan.source_breakpoints[i as int].0, reply, stderr),
            flush_phase(plan, i + 1),
        ),
        (LaunchPhase::FunctionBreakpoints, Event::Replied(reply)) => after_check(
            reply_error(
                "setFunctionBreakpoints"@,
                "setFunctionBreakpoints failed: "@,
                reply,
                stderr,
            ),
            LaunchPhase::ExceptionBreakpoints,
        ),
        (LaunchPhase::ExceptionBreakpoints, Event::Replied(reply)) => after_check(
            arrival_error("setExceptionBreakpoints failed: "@, reply),
            if plan.stop_on_entry {
                LaunchPhase::Register
            } else {
                LaunchPhase::ConfigurationDone
            },
        ),
        (LaunchPhase::ConfigurationDone, Event::Replied(reply)) => after_check(
            arrival_error("configurationDone failed: "@, reply),
            LaunchPhase::AwaitResponse,
        ),
        (LaunchPhase::AwaitResponse, Event::Deferred(reply)) => match deferred_error(
            "launch"@,
            reply,
            stderr,
        ) {
            Some(err) => NextView::Done(Err(err)),
            None => if plan.stop_on_entry {
                NextView::Go(LaunchPhase::AwaitStop)
            } else {
                NextView::Done(Ok(LaunchOutcome::Running))
            },
        },
        (LaunchPhase::AwaitStop, Event::Stopped(outcome)) => NextView::Done(
            Ok(launch_outcome(outcome)),
        ),
        (LaunchPhase::Register, _) => NextView::Go(LaunchPhase::ConfigurationDone),
        (LaunchPhase::AwaitInitialized, _) => NextView::Go(flush_phase(plan, 0)),
        _ => NextView::Go(phase),
    }
}

impl LaunchHandshake {
    /// What is being launched.
    pub closed spec fn plan(self) -> LaunchPlan {
        LaunchPlan {
            arguments: Json::Object(args::launch_entries(self.arguments)),
            stop_on_entry: self.arguments.stop_on_entry,
            source_breakpoints: file_views(self.source_breakpoints@),
            function_breakpoints: model::views(self.function_breakpoints@),
        }
    }

    /// Where the launch is.
    pub closed spec fn at(self) -> LaunchPhase {
        self.phase
    }

    /// A file whose breakpoints are to be set is one of the files.
    pub open spec fn wf(self) -> bool {
        self.at() matches LaunchPhase::SourceBreakpoints(i) ==> i
            < self.plan().source_breakpoints.len()
    }

    /// The launch of `spec` begins.
    pub fn new(spec: LaunchSpec) -> (launch: Self)
        ensures
            launch.wf(),
            launch.plan() == launch_plan(spec),
            launch.at() == LaunchPhase::Initialize,
    {
        let LaunchSpec {
            program,
            args,
            cwd,
            env,
            stop_on_entry,
            source_breakpoints,
            function_breakpoints,
        } = spec;
        let arguments = LldbLaunchArgs::new(program, args, cwd, env, stop_on_entry);
        let launch = LaunchHandshake {
            arguments,
            source_breakpoints,
            function_breakpoints,
            phase: LaunchPhase::Initialize,
        };
        assert(launch.plan() == launch_plan(spec));
        launch
    }

    /// The action to perform.
    pub fn action(&self) -> (action: Action)
        requires
            self.wf(),
        ensures
            action@ == launch_action(self.plan(), self.at()),
    {
        match self.phase {
            LaunchPhase::Initialize => Action::Send(requests::initialize()),
            LaunchPhase::Launch => Action::SendAsync(
                requests::launch(args::launch_args_to_value(&self.arguments)),
            ),
            LaunchPhase::AwaitInitialized => Action::AwaitInitialized,
            LaunchPhase::SourceBreakpoints(i) => Action::Send(
                requests::set_breakpoints(
                    self.source_breakpoints[i].0.as_str(),
                    &self.source_breakpoints[i].1,
                ),
            ),
            LaunchPhase::FunctionBreakpoints => Action::Send(
                requests::set_function_breakpoints(&self.function_breakpoints),
            ),
            LaunchPhase::ExceptionBreakpoints => Action::Send(
                requests::set_exception_breakpoints(),
            ),
            LaunchPhase::Register => Action::RegisterStop,
            LaunchPhase::ConfigurationDone => Action::Send(requests::configuration_done()),
            LaunchPhase::AwaitResponse => Action::AwaitResponse,
            LaunchPhase::AwaitStop => Action::AwaitStop,
        }
    }

    fn flush_from(&self, i: usize) -> (phase: LaunchPhase)
        ensures
            phase == flush_phase(self.plan(), i as int),
    {
        if i < self.source_breakpoints.len() {
            LaunchPhase::SourceBreakpoints(i)
        } else if self.function_breakpoints.len() > 0 {
            LaunchPhase::FunctionBreakpoints
        } else {
            LaunchPhase::ExceptionBreakpoints
        }
    }

    /// Takes in what came of the action. The launch is over when there is a result.
    pub fn step(&mut self, event: Event, stderr: &str) -> (result: Option<
        Result<LaunchOutcome, BackendError>,
    >)
        requires
            old(self).wf(),
            comes_of(event, launch_action(old(self).plan(), old(self).at())),
        ensures
            final(self).wf(),
            final(self).plan() == old(self).plan(),
            match launch_next(old(self).plan(), old(self).at(), event, stderr@) {
                NextView::Go(phase) => result is None && final(self).at() == phase,
                NextView::Done(wanted) => result matches Some(outcome) && backend::same_outcome(
                    outcome,
                    wanted,
                ),
            },
    {
        let files: usize = self.source_breakpoints.len();
        assert(self.plan().source_breakpoints.len() == files);
        let (err, phase): (Option<BackendError>, LaunchPhase) = match (self.phase, event) {
            (LaunchPhase::Initialize, Event::Replied(reply)) => (
                check_reply("initialize", "initialize request failed: ", reply, stderr),
                LaunchPhase::Launch,
            ),
            (LaunchPhase::Launch, Event::Sent(sent)) => (
                match sent {
                    Ok(_) => None,
                    Err(e) => Some(fail("launch request failed: ", &e)),
                },
                LaunchPhase::AwaitInitialized,
            ),
            (LaunchPhase::AwaitInitialized, _) => (None, self.flush_from(0)),
            (LaunchPhase::SourceBreakpoints(i), Event::Replied(reply)) => (
                check_flush(self.source_breakpoints[i].0.as_str(), reply, stderr),
                self.flush_from(i + 1),
            ),
            (LaunchPhase::FunctionBreakpoints, Event::Replied(reply)) => (
                check_reply(
                    "setFunctionBreakpoints",
                    "setFunctionBreakpoints failed: ",
                    reply,
                    stderr,
                ),
                LaunchPhase::ExceptionBreakpoints,
            ),
            (LaunchPhase::ExceptionBreakpoints, Event::Replied(reply)) => (
                check_arrival("setExceptionBreakpoints failed: ", reply),
                if self.arguments.stop_on_entry {
                    LaunchPhase::Register
                } else {
                    LaunchPhase::ConfigurationDone
                },
            ),
            (LaunchPhase::Register, _) => (None, LaunchPhase::ConfigurationDone),
            (LaunchPhase::ConfigurationDone, Event::Replied(reply)) => (
                check_arrival("configurationDone failed: ", reply),
                LaunchPhase::AwaitResponse,
            ),
            (LaunchPhase::AwaitResponse, Event::Deferred(reply)) => {
                let err = check_deferred("launch", reply, stderr);
                if err.is_none() && !self.arguments.stop_on_entry {
                    return Some(Ok(LaunchOutcome::Running));
                }
                (err, LaunchPhase::AwaitStop)
            },
            (LaunchPhase::AwaitStop, Event::Stopped(outcome)) => {
                return Some(
                    Ok(
                        match outcome {
                            Some(StopOutcome::Stopped(info)) => LaunchOutcome::Stopped(info),
                            Some(StopOutcome::Exited { code }) => LaunchOutcome::Exited { code },
                            Some(StopOutcome::Terminated) => LaunchOutcome::Exited { code: None },
                            None => LaunchOutcome::Exited { code: None },
                        },
                    ),
                );
            },
            (phase, _) => (None, phase),
        };
        match err {
            Some(err) => Some(Err(err)),
            None => {
                self.phase = phase;
                None
            },
        }
    }
}

/// Where an attach is.
#[derive(Debug, Clone, Copy)]
pub enum AttachPhase {
    Initialize,
    Attach,
    AwaitInitialized,
    ExceptionBreakpoints,
    ConfigurationDone,
    AwaitResponse,
    Register,
    AwaitStop,
}

/// An attach that is under way.
#[derive(Debug)]
pub struct AttachHandshake {
    arguments: LldbAttachArgs,
    phase: AttachPhase,
}

/// The arguments of the request that attaches to `spec`.
pub open spec fn attach_arguments(spec: AttachSpec) -> Json {
    let none = Map::<Seq<char>, Json>::empty();
    Json::Object(
        match spec.pid {
            Some(pid) if pid > 0 => none.insert("pid"@, Json::Int(pid as int)),
            _ => (match spec.wait_for {
                Some(name) => args::with_text(none, "program"@, name@),
                None => none,
            }).insert("waitFor"@, Json::Bool(true)),
        }.insert("stopOnEntry"@, Json::Bool(true)),
    )
}

/// The action of an attach at `phase`.
pub open spec fn attach_action(arguments: Json, phase: AttachPhase) -> ActionView {
    match phase {
        AttachPhase::Initialize => ActionView::Send(
            wire::request_view("initialize"@, Some(requests::initialize_arguments())),
        ),
        AttachPhase::Attach => ActionView::SendAsync(wire::request_view("attach"@, Some(arguments))),
        AttachPhase::AwaitInitialized => ActionView::AwaitInitialized,
        AttachPhase::ExceptionBreakpoints => ActionView::Send(exception_request()),
        AttachPhase::ConfigurationDone => ActionView::Send(configuration_request()),
        AttachPhase::AwaitResponse => ActionView::AwaitResponse,
        AttachPhase::Register => ActionView::RegisterStop,
        AttachPhase::AwaitStop => ActionView::AwaitStop,
    }
}

/// The result of an attach whose wait for the first stop came to `outcome`.
pub open spec fn attach_outcome(outcome: Option<StopOutcome>) -> AttachOutcome {
    match outcome {
        Some(StopOutcome::Stopped(info)) => AttachOutcome::Stopped(info),
        Some(StopOutcome::Exited { code }) => AttachOutcome::Exited { code },
        Some(StopOutcome::Terminated) => AttachOutcome::Terminated,
        None => AttachOutcome::Terminated,
    }
}

/// What `event` makes of an attach at `phase`, when the debugger's error stream holds `stderr`.
pub open spec fn attach_next(phase: AttachPhase, event: Event, stderr: Seq<char>) -> NextView<
    AttachPhase,
    AttachOutcome,
> {
    match (phase, event) {
        (AttachPhase::Initialize, Event::Replied(reply)) => after_check(
            reply_error("initialize"@, "initialize request failed: "@, reply, stderr),
            AttachPhase::Attach,
        ),
        (AttachPhase::Attach, Event::Sent(sent)) => after_check(
            match sent {
                Ok(_) => None,
                Err(e) => Some(step_failure("attach request failed: "@, e)),
            },
            AttachPhase::AwaitInitialized,
        ),
        (AttachPhase::ExceptionBreakpoints, Event::Replied(reply)) => after_check(
            arrival_error("setExceptionBreakpoints failed: "@, reply),
            AttachPhase::ConfigurationDone,
        ),
        (AttachPhase::ConfigurationDone, Event::Replied(reply)) => after_check(
            arrival_error("configurationDone failed: "@, reply),
            AttachPhase::AwaitResponse,
        ),
        (AttachPhase::AwaitResponse, Event::Deferred(reply)) => after_check(
            deferred_error("attach"@, reply, stderr),
            AttachPhase::Register,
        ),
        (AttachPhase::AwaitStop, Event::Stopped(outcome)) => NextView::Done(
            Ok(attach_outcome(outcome)),
        ),
        (AttachPhase::AwaitInitialized, _) => NextView::Go(AttachPhase::ExceptionBreakpoints),
        (AttachPhase::Register, _) => NextView::Go(AttachPhase::AwaitStop),
        _ => NextView::Go(phase),
    }
}

impl AttachHandshake {
    /// The arguments of the attach request.
    pub closed spec fn arguments(self) -> Json {
        Json::Object(args::attach_entries(self.arguments))
    }

    /// Where the attach is.
    pub closed spec fn at(self) -> AttachPhase {
        self.phase
    }

    /// The attach to `spec` begins.
    pub fn new(spec: AttachSpec) -> (attach: Self)
        ensures
            attach.arguments() == attach_arguments(spec),
            attach.at() == AttachPhase::Initialize,
    {
        let AttachSpec { pid, wait_for } = spec;
        let arguments = LldbAttachArgs::new(pid, wait_for);
        AttachHandshake { arguments, phase: AttachPhase::Initialize }
    }

    /// The action to perform.
    pub fn action(&self) -> (action: Action)
        ensures
            action@ == attach_action(self.arguments(), self.at()),
    {
        match self.phase {
            AttachPhase::Initialize => Action::Send(requests::initialize()),
            AttachPhase::Attach => Action::SendAsync(
                requests::attach(args::attach_args_to_value(&self.arguments)),
            ),
            AttachPhase::AwaitInitialized => Action::AwaitInitialized,
            AttachPhase::ExceptionBreakpoints => Action::Send(
                requests::set_exception_breakpoints(),
            ),
            AttachPhase::ConfigurationDone => Action::Send(requests::configuration_done()),
            AttachPhase::AwaitResponse => Action::AwaitResponse,
            AttachPhase::Register => Action::RegisterStop,
            AttachPhase::AwaitStop => Action::AwaitStop,
        }
    }

    /// Takes in what came of the action. The attach is over when there is a result.
    pub fn step(&mut self, event: Event, stderr: &str) -> (result: Option<
        Result<AttachOutcome, BackendError>,
    >)
        requires
            comes_of(event, attach_action(old(self).arguments(), old(self).at())),
        ensures
            final(self).arguments() == old(self).arguments(),
            match attach_next(old(self).at(), event, stderr@) {
                NextView::Go(phase) => result is None && final(self).at() == phase,
                NextView::Done(wanted) => result matches Some(outcome) && backend::same_outcome(
                    outcome,
                    wanted,
                ),
            },
    {
        let (err, phase): (Option<BackendError>, AttachPhase) = match (self.phase, event) {
            (AttachPhase::Initialize, Event::Replied(reply)) => (
                check_reply("initialize", "initialize request failed: ", reply, stderr),
                AttachPhase::Attach,
            ),
            (AttachPhase::Attach, Event::Sent(sent)) => (
                match sent {
                    Ok(_) => None,
                    Err(e) => Some(fail("attach request failed: ", &e)),
                },
                AttachPhase::AwaitInitialized,
            ),
            (AttachPhase::AwaitInitialized, _) => (None, AttachPhase::ExceptionBreakpoints),
            (AttachPhase::ExceptionBreakpoints, Event::Replied(reply)) => (
                check_arrival("setExceptionBreakpoints failed: ", reply),
                AttachPhase::ConfigurationDone,
            ),
            (AttachPhase::ConfigurationDone, Event::Replied(reply)) => (
                check_arrival("configurationDone failed: ", reply),
                AttachPhase::AwaitResponse,
            ),
            (AttachPhase::AwaitResponse, Event::Deferred(reply)) => (
                check_deferred("attach", reply, stderr),
                AttachPhase::Register,
            ),
            (AttachPhase::Register, _) => (None, AttachPhase::AwaitStop),
            (AttachPhase::AwaitStop, Event::Stopped(outcome)) => {
                return Some(
                    Ok(
                        match outcome {
                            Some(StopOutcome::Stopped(info)) => AttachOutcome::Stopped(info),
                            Some(StopOutcome::Exited { code }) => AttachOutcome::Exited { code },
                            Some(StopOutcome::Terminated) => AttachOutcome::Terminated,
                            None => AttachOutcome::Terminated,
                        },
                    ),
                );
            },
            (phase, _) => (None, phase),
        };
        match err {
            Some(err) => Some(Err(err)),
            None => {
                self.phase = phase;
                None
            },
        }
    }
}

/// Where a resume is.
#[derive(Debug, Clone, Copy)]
pub enum ResumePhase {
    Register,
    Send,
    AwaitStop,
}

/// A resume that is under way: the debuggee is told to go on, and the next stop is waited for.
#[derive(Debug)]
pub struct Resume {
    request: Request,
    phase: ResumePhase,
}

/// The action of a resume with `request` at `phase`.
pub open spec fn resume_action(request: RequestView, phase: ResumePhase) -> ActionView {
    match phase {
        ResumePhase::Register => ActionView::RegisterStop,
        ResumePhase::Send => ActionView::Send(request),
        ResumePhase::AwaitStop => ActionView::AwaitStop,
    }
}

/// What `event` makes of a resume at `phase`. The response only has to come; what it says does
/// not matter.
pub open spec fn resume_next(phase: ResumePhase, event: Event) -> NextView<
    ResumePhase,
    StopOutcome,
> {
    match (phase, event) {
        (ResumePhase::Send, Event::Replied(Err(e))) => NextView::Done(
            Err(BackendErrorView::Send(e@.text())),
        ),
        (ResumePhase::AwaitStop, Event::Stopped(outcome)) => NextView::Done(
            Ok(
                match outcome {
                    Some(outcome) => outcome,
                    None => StopOutcome::Terminated,
                },
            ),
        ),
        (ResumePhase::Register, _) => NextView::Go(ResumePhase::Send),
        _ => NextView::Go(ResumePhase::AwaitStop),
    }
}

impl Resume {
    /// The request that resumes.
    pub closed spec fn request(self) -> RequestView {
        self.request@
    }

    /// Where the resume is.
    pub closed spec fn at(self) -> ResumePhase {
        self.phase
    }

    /// The resume with `request` begins.
    pub fn new(request: Request) -> (resume: Self)
        ensures
            resume.request() == request@,
            resume.at() == ResumePhase::Register,
    {
        Resume { request, phase: ResumePhase::Register }
    }

    /// The action to perform.
    pub fn action(&self) -> (action: Action)
        ensures
            action@ == resume_action(self.request(), self.at()),
    {
        match self.phase {
            ResumePhase::Register => Action::RegisterStop,
            ResumePhase::Send => Action::Send(
                Request {
                    seq: self.request.seq,
                    ty: self.request.ty.clone(),
                    command: self.request.command.clone(),
                    arguments: json::clone_option(&self.request.arguments),
                },
            ),
            ResumePhase::AwaitStop => Action::AwaitStop,
        }
    }

    /// Takes in what came of the action. The resume is over when there is a result.
    pub fn step(&mut self, event: Event) -> (result: Option<Result<StopOutcome, BackendError>>)
        requires
            comes_of(event, resume_action(old(self).request(), old(self).at())),
        ensures
            final(self).request() == old(self).request(),
            match resume_next(old(self).at(), event) {
                NextView::Go(phase) => result is None && final(self).at() == phase,
                NextView::Done(wanted) => result matches Some(outcome) && backend::same_outcome(
                    outcome,
                    wanted,
                ),
            },
    {
        match (self.phase, event) {
            (ResumePhase::Send, Event::Replied(Err(e))) => Some(
                Err(BackendError::Send(e.to_string())),
            ),
            (ResumePhase::AwaitStop, Event::Stopped(outcome)) => Some(
                Ok(
                    match outcome {
                        Some(outcome) => outcome,
                        None => StopOutcome::Terminated,
                    },
                ),
            ),
            (ResumePhase::Register, _) => {
                self.phase = ResumePhase::Send;
                None
            },
            _ => {
                self.phase = ResumePhase::AwaitStop;
                None
            },
        }
    }
}

} // verus!
