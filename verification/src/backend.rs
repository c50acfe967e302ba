//! What the backend makes of the debugger's answers, and the requests that depend on what the
//! debugger can do.

use vstd::prelude::*;

use crate::client::PendingResult;
use crate::error::{dap_err, BackendError, BackendErrorView};
use crate::json::Json;
use crate::requests;
use crate::text;
use crate::types::{EvalMode, Granularity, StepKind};
use crate::wire::{self, DapMessage, Request, RequestView, Response};

verus! {

/// The label of a response.
pub open spec fn response_label(response: Response) -> Seq<char> {
    "response:"@ + response.command@
}

/// The label of a message, by which an error tells what arrived.
pub open spec fn message_label(message: DapMessage) -> Seq<char> {
    match message {
        DapMessage::Response(response) => response_label(response),
        DapMessage::Event(_) => "event"@,
        DapMessage::Other(envelope) => match (envelope.event, envelope.command) {
            (Some(event), _) => "event:"@ + event@,
            (None, Some(command)) => envelope.ty@ + ":"@ + command@,
            (None, None) => envelope.ty@,
        },
    }
}

/// The text of a refusal: what the debugger says, else what it wrote to its error stream, else
/// that it said nothing. So it is never empty.
pub open spec fn diagnostic_text(message: Seq<char>, stderr: Seq<char>) -> Seq<char> {
    if message.len() > 0 {
        message
    } else if text::trimmed(stderr).len() > 0 {
        text::trimmed(stderr)
    } else {
        "no error message provided by lldb-dap"@
    }
}

/// The response that `message` is, if it grants what was asked for; else the error: `op` names the
/// request, `failed_op` what failed, and `stderr` is what the debugger wrote to its error stream.
pub open spec fn checked(
    op: Seq<char>,
    failed_op: Seq<char>,
    message: DapMessage,
    stderr: Seq<char>,
) -> Result<Response, BackendErrorView> {
    match message {
        DapMessage::Response(response) => if response.success {
            Ok(response)
        } else {
            Err(
                BackendErrorView::Dap {
                    message: failed_op + " failed: "@ + diagnostic_text(response.message@, stderr),
                },
            )
        },
        _ => Err(BackendErrorView::Protocol { ty: op + ":"@ + message_label(message) }),
    }
}

/// `checked`, of an answer that may not have come.
pub open spec fn checked_reply(op: Seq<char>, reply: PendingResult, stderr: Seq<char>) -> Result<
    Response,
    BackendErrorView,
> {
    match reply {
        Ok(message) => checked(op, op, message, stderr),
        Err(e) => Err(BackendErrorView::Dap { message: op + " request failed: "@ + e@.text() }),
    }
}

/// Whether an outcome is as expected.
pub open spec fn same_outcome<T>(
    outcome: Result<T, BackendError>,
    expected: Result<T, BackendErrorView>,
) -> bool {
    match outcome {
        Ok(value) => expected == Ok::<T, BackendErrorView>(value),
        Err(err) => expected == Err::<T, BackendErrorView>(err@),
    }
}

/// The label of a response.
pub fn response_type_label(response: &Response) -> (label: String)
    ensures
        label@ == response_label(*response),
{
    text::concat2("response:", response.command.as_str())
}

/// The label of a message.
pub fn message_type_label(message: &DapMessage) -> (label: String)
    ensures
        label@ == message_label(*message),
{
    match message {
        DapMessage::Response(response) => response_type_label(response),
        DapMessage::Event(_) => "event".to_owned(),
        DapMessage::Other(envelope) => match (&envelope.event, &envelope.command) {
            (Some(event), _) => text::concat2("event:", event.as_str()),
            (None, Some(command)) => text::concat3(envelope.ty.as_str(), ":", command.as_str()),
            (None, None) => envelope.ty.clone(),
        },
    }
}

/// The text of a refusal with the message `message`, when the debugger's error stream holds
/// `stderr`.
pub fn diagnostic(message: &str, stderr: &str) -> (said: String)
    ensures
        said@ == diagnostic_text(message@, stderr@),
{
    if !message.is_empty() {
        return message.to_owned();
    }
    let snapshot = text::trim_text(stderr);
    if !snapshot.as_str().is_empty() {
        return snapshot;
    }
    "no error message provided by lldb-dap".to_owned()
}

/// The response that `message` is, if it grants what was asked for; else the error.
pub fn check_response(op: &str, failed_op: &str, message: DapMessage, stderr: &str) -> (outcome:
    Result<Response, BackendError>)
    ensures
        same_outcome(outcome, checked(op@, failed_op@, message, stderr@)),
{
    match message {
        DapMessage::Response(response) => {
            if response.success {
                Ok(response)
            } else {
                let said = diagnostic(response.message.as_str(), stderr);
                Err(dap_err(text::concat3(failed_op, " failed: ", said.as_str())))
            }
        },
        other => {
            let label = message_type_label(&other);
            Err(BackendError::Protocol { ty: text::concat3(op, ":", label.as_str()) })
        },
    }
}

/// The response to the request that `op` names, if it came and grants what was asked for; else
/// the error.
pub fn send_checked(op: &str, reply: PendingResult, stderr: &str) -> (outcome: Result<
    Response,
    BackendError,
>)
    ensures
        same_outcome(outcome, checked_reply(op@, reply, stderr@)),
{
    match reply {
        Ok(message) => check_response(op, op, message, stderr),
        Err(e) => Err(dap_err(text::concat3(op, " request failed: ", e.to_string().as_str()))),
    }
}

/// The name of the request for a step.
pub open spec fn step_name(kind: StepKind) -> Seq<char> {
    match kind {
        StepKind::Over => "next"@,
        StepKind::Into => "stepIn"@,
        StepKind::Out => "stepOut"@,
    }
}

/// The name of a granularity.
pub open spec fn granularity_name(granularity: Granularity) -> Seq<char> {
    match granularity {
        Granularity::Line => "line"@,
        Granularity::Instruction => "instruction"@,
    }
}

/// The request for a step. A step out has no granularity.
pub open spec fn step_request_view(
    kind: StepKind,
    thread_id: i64,
    granularity: Option<Granularity>,
) -> RequestView {
    wire::request_view(
        step_name(kind),
        Some(
            requests::step_arguments(
                thread_id,
                match (kind, granularity) {
                    (StepKind::Out, _) => None,
                    (_, Some(g)) => Some(granularity_name(g)),
                    (_, None) => None,
                },
            ),
        ),
    )
}

/// The name of the request for a step.
pub fn step_command(kind: StepKind) -> (name: &'static str)
    ensures
        name@ == step_name(kind),
{
    match kind {
        StepKind::Over => "next",
        StepKind::Into => "stepIn",
        StepKind::Out => "stepOut",
    }
}

/// The name of a granularity.
pub fn granularity_str(granularity: Granularity) -> (name: &'static str)
    ensures
        name@ == granularity_name(granularity),
{
    match granularity {
        Granularity::Line => "line",
        Granularity::Instruction => "instruction",
    }
}

/// The request for a step.
pub fn step_request(kind: StepKind, thread_id: i64, granularity: Option<Granularity>) -> (request:
    Request)
    ensures
        request@ == step_request_view(kind, thread_id, granularity),
{
    let shown: Option<&str> = match (kind, granularity) {
        (StepKind::Out, _) => None,
        (_, Some(g)) => Some(granularity_str(g)),
        (_, None) => None,
    };
    requests::step(step_command(kind), thread_id, shown)
}

/// The arguments of an evaluation. An expression is evaluated in its frame. A command has no
/// frame, and a debugger without raw command mode gets it behind a backtick.
pub open spec fn evaluation(
    is_lldb_dap: bool,
    expr: Seq<char>,
    frame_id: Option<i64>,
    mode: EvalMode,
) -> Json {
    match mode {
        EvalMode::Expression => requests::evaluate_arguments(expr, frame_id, "variables"@),
        EvalMode::Repl => requests::evaluate_arguments(
            if is_lldb_dap {
                expr
            } else {
                "`"@ + expr
            },
            None,
            "repl"@,
        ),
    }
}

/// What is known of the debugger behind a connection.
#[derive(Debug)]
pub struct LldbBackend {
    /// Whether it takes raw commands.
    pub is_lldb_dap: bool,
    /// The process id of its process, if it has one.
    pub pid: Option<i64>,
}

impl LldbBackend {
    /// The backend of a debugger.
    pub fn new(is_lldb_dap: bool, pid: Option<i64>) -> (backend: Self)
        ensures
            backend == (LldbBackend { is_lldb_dap, pid }),
    {
        LldbBackend { is_lldb_dap, pid }
    }

    /// The request for an evaluation.
    pub fn evaluate_request(&self, expr: &str, frame_id: Option<i64>, mode: EvalMode) -> (request:
        Request)
        ensures
            request@ == wire::request_view(
                "evaluate"@,
                Some(evaluation(self.is_lldb_dap, expr@, frame_id, mode)),
            ),
    {
        match mode {
            EvalMode::Expression => requests::evaluate(expr, frame_id, "variables"),
            EvalMode::Repl => {
                if self.is_lldb_dap {
                    requests::evaluate(expr, None, "repl")
                } else {
                    requests::evaluate(text::concat2("`", expr).as_str(), None, "repl")
                }
            },
        }
    }

    /// Whether raw commands are taken as they are.
    pub fn supports_command_repl_mode(&self) -> (supported: bool)
        ensures
            supported == self.is_lldb_dap,
    {
        self.is_lldb_dap
    }

    /// The process id of the debugger's process.
    pub fn debugger_pid(&self) -> (pid: Option<i64>)
        ensures
            pid == self.pid,
    {
        self.pid
    }
}

/// The text of a refusal is never empty.
pub proof fn law_refusal_is_never_silent(message: Seq<char>, stderr: Seq<char>)
    ensures
        diagnostic_text(message, stderr).len() > 0,
{
    reveal_strlit("no error message provided by lldb-dap");
}

} // verus!
