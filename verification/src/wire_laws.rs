//! What the messages on the wire are read as, and how errors read.

use vstd::prelude::*;

use crate::error;
use crate::error::{BackendError, WireError};
use crate::wire::{
    DapMessage, Decoded, Envelope, Event, ExitedBody, OutputBody, Request, Shape, StoppedBody,
};

verus! {

/// The names of the events that are known.
pub open spec fn event_names() -> Seq<Seq<char>> {
    seq![
        "initialized"@,
        "stopped"@,
        "output"@,
        "exited"@,
        "terminated"@,
        "thread"@,
        "breakpoint"@,
        "process"@,
        "continued"@,
        "module"@,
        "capabilities"@,
    ]
}

proof fn lemma_event_names()
    ensures
        "initialized"@.len() == 11,
        "stopped"@.len() == 7 && "stopped"@[0] == 's',
        "output"@.len() == 6 && "output"@[0] == 'o',
        "exited"@.len() == 6 && "exited"@[0] == 'e',
        "terminated"@.len() == 10 && "terminated"@[0] == 't',
        "thread"@.len() == 6 && "thread"@[0] == 't',
        "breakpoint"@.len() == 10 && "breakpoint"@[0] == 'b',
        "process"@.len() == 7 && "process"@[0] == 'p',
        "continued"@.len() == 9,
        "module"@.len() == 6 && "module"@[0] == 'm',
        "capabilities"@.len() == 12,
        "response"@.len() == 8,
        "event"@.len() == 5,
{
    reveal_strlit("initialized");
    reveal_strlit("stopped");
    reveal_strlit("output");
    reveal_strlit("exited");
    reveal_strlit("terminated");
    reveal_strlit("thread");
    reveal_strlit("breakpoint");
    reveal_strlit("process");
    reveal_strlit("continued");
    reveal_strlit("module");
    reveal_strlit("capabilities");
    reveal_strlit("response");
    reveal_strlit("event");
}

/// Whether `shape` is that of the event called `name`.
pub open spec fn event_has_shape(name: Option<String>, shape: Shape) -> bool {
    match name {
        None => shape == Shape::Unmodeled,
        Some(name) => {
            &&& name@ == "initialized"@ <==> shape == Shape::Plain(Event::Initialized)
            &&& name@ == "stopped"@ <==> shape == Shape::Stopped
            &&& name@ == "output"@ <==> shape == Shape::Output
            &&& name@ == "exited"@ <==> shape == Shape::Exited
            &&& name@ == "terminated"@ <==> shape == Shape::Plain(Event::Terminated)
            &&& name@ == "thread"@ <==> shape == Shape::Plain(Event::Thread)
            &&& name@ == "breakpoint"@ <==> shape == Shape::Plain(Event::Breakpoint)
            &&& name@ == "process"@ <==> shape == Shape::Plain(Event::Process)
            &&& name@ == "continued"@ <==> shape == Shape::Plain(Event::Continued)
            &&& name@ == "module"@ <==> shape == Shape::Plain(Event::Module)
            &&& name@ == "capabilities"@ <==> shape == Shape::Plain(Event::Capabilities)
            &&& !event_names().contains(name@) <==> shape == Shape::Unmodeled
        },
    }
}

proof fn lemma_event_shape(name: Option<String>, shape: Shape)
    requires
        shape == (match name {
            Some(name) => crate::wire::event_shape(name@),
            None => Shape::Unmodeled,
        }),
    ensures
        event_has_shape(name, shape),
{
    lemma_event_names();
    let names = event_names();
    assert(names[0] == "initialized"@ && names[1] == "stopped"@ && names[2] == "output"@);
    assert(names[3] == "exited"@ && names[4] == "terminated"@ && names[5] == "thread"@);
    assert(names[6] == "breakpoint"@ && names[7] == "process"@ && names[8] == "continued"@);
    assert(names[9] == "module"@ && names[10] == "capabilities"@);
}

/// Each known event is told by its own name, and by no other; an event of any other name, or
/// without one, is not known.
pub proof fn law_events_are_told_by_name(envelope: &Envelope, shape: Shape)
    requires
        call_ensures(Event::from_envelope, (envelope,), shape),
    ensures
        event_has_shape(envelope.event, shape),
{
    lemma_event_shape(envelope.event, shape);
}

/// A message is a response or an event by its type, and by nothing else; of any other type it is
/// not known.
pub proof fn law_messages_are_told_by_type(envelope: &Envelope, shape: Shape)
    requires
        call_ensures(DapMessage::shape, (envelope,), shape),
    ensures
        envelope.ty@ == "response"@ <==> shape == Shape::Response,
        envelope.ty@ == "event"@ ==> event_has_shape(envelope.event, shape),
        envelope.ty@ != "response"@ && envelope.ty@ != "event"@ ==> shape == Shape::Unmodeled,
{
    lemma_event_names();
    if envelope.ty@ == "event"@ {
        lemma_event_shape(envelope.event, shape);
    }
}

/// A message is what its bytes were decoded as, unchanged: a response, a stop, output or an exit
/// with its whole body, a plain event by its name, anything else by its envelope. A decoding that
/// failed is an error with the reason.
pub proof fn law_messages_are_handed_on_as_decoded(
    envelope: Envelope,
    decoded: Decoded,
    shape: Shape,
    message: Result<DapMessage, WireError>,
)
    requires
        crate::wire::fits(crate::wire::shape_of(envelope), decoded),
        call_ensures(DapMessage::shape, (&envelope,), shape),
        call_ensures(DapMessage::from_slice, (Ok(envelope), decoded), message),
    ensures
        shape == Shape::Response ==> (decoded matches Decoded::Response(body) && (match body {
            Ok(response) => message == Ok::<DapMessage, WireError>(DapMessage::Response(response)),
            Err(reason) => message == Err::<DapMessage, WireError>(WireError::Json(reason)),
        })),
        shape == Shape::Stopped ==> (decoded matches Decoded::Stopped(body) && (match body {
            Ok(event) => message == Ok::<DapMessage, WireError>(
                DapMessage::Event(Event::Stopped(event)),
            ),
            Err(reason) => message == Err::<DapMessage, WireError>(WireError::Json(reason)),
        })),
        shape == Shape::Output ==> (decoded matches Decoded::Output(body) && (match body {
            Ok(event) => message == Ok::<DapMessage, WireError>(
                DapMessage::Event(Event::Output(event)),
            ),
            Err(reason) => message == Err::<DapMessage, WireError>(WireError::Json(reason)),
        })),
        shape == Shape::Exited ==> (decoded matches Decoded::Exited(body) && (match body {
            Ok(event) => message == Ok::<DapMessage, WireError>(
                DapMessage::Event(Event::Exited(event)),
            ),
            Err(reason) => message == Err::<DapMessage, WireError>(WireError::Json(reason)),
        })),
        shape matches Shape::Plain(event) ==> message == Ok::<DapMessage, WireError>(
            DapMessage::Event(event),
        ),
        shape == Shape::Unmodeled ==> message == Ok::<DapMessage, WireError>(
            DapMessage::Other(envelope),
        ),
{
}

/// Bytes without an envelope are no message, for the reason given.
pub proof fn law_bytes_without_envelope_are_no_message(
    reason: String,
    decoded: Decoded,
    message: Result<DapMessage, WireError>,
)
    requires
        call_ensures(DapMessage::from_slice, (Err(reason), decoded), message),
    ensures
        message == Err::<DapMessage, WireError>(WireError::Json(reason)),
{
}

/// A request has the command and the arguments that it was made with, is marked as a request, and
/// has no number; the number is given later, and changes nothing else.
pub proof fn law_requests_are_made_and_numbered(
    command: &str,
    arguments: Option<serde_json::Value>,
    request: Request,
    numbered: &mut Request,
    seq: i64,
)
    requires
        call_ensures(Request::new, (command, arguments), request),
        *old(numbered) == request,
        call_ensures(Request::set_seq, (numbered, seq), ()),
    ensures
        request.command@ == command@,
        request.arguments == arguments,
        request.ty@ == "request"@,
        request.seq == 0,
        final(numbered).seq == seq,
        final(numbered).ty == request.ty,
        final(numbered).command == request.command,
        final(numbered).arguments == arguments,
{
}

/// Every error of the backend says what kind it is and, where it has one, the cause.
pub proof fn law_backend_errors_say_what_happened(err: &BackendError, text: String)
    requires
        call_ensures(BackendError::to_string, (err,), text),
    ensures
        *err matches BackendError::Detect(m) ==> text@ == "failed to detect debugger: "@ + m@,
        *err matches BackendError::Spawn(m) ==> text@ == "failed to spawn debugger: "@ + m@,
        *err matches BackendError::Send(m) ==> text@ == "failed to send request: "@ + m@,
        *err matches BackendError::Protocol { ty } ==> text@ == "unexpected response type: "@
            + ty@,
        *err matches BackendError::Dap { message } ==> text@ == "debugger error: "@ + message@,
        *err is Closed ==> text@ == "connection closed"@,
        *err is Timeout ==> text@ == "operation timed out"@,
{
}

/// Every error of the wire says what kind it is and, where it has one, the cause.
pub proof fn law_wire_errors_say_what_happened(err: &WireError, text: String)
    requires
        call_ensures(WireError::to_string, (err,), text),
    ensures
        *err is Eof ==> text@ == "connection closed (EOF)"@,
        *err matches WireError::Io(m) ==> text@ == "io error: "@ + m@,
        *err is MissingContentLength ==> text@ == "missing Content-Length header"@,
        *err matches WireError::InvalidContentLength(m) ==> text@
            == "invalid Content-Length header: "@ + m@,
        *err matches WireError::Json(m) ==> text@ == "malformed DAP message body: "@ + m@,
{
}

/// The texts by which contracts speak of errors are those that a reader sees.
pub proof fn law_texts_of_errors(err: &BackendError, other: &WireError, text: String, said: String)
    requires
        call_ensures(BackendError::to_string, (err,), text),
        call_ensures(WireError::to_string, (other,), said),
    ensures
        err@.text() == text@,
        other@.text() == said@,
{
}

/// The transport is gone exactly when the stream ended or failed; a message that makes no sense is
/// another matter.
pub proof fn law_only_the_stream_disconnects(err: &WireError, gone: bool)
    requires
        call_ensures(WireError::is_disconnect, (err,), gone),
    ensures
        gone <==> *err is Eof || *err is Io,
        *err is MissingContentLength || *err is InvalidContentLength || *err is Json ==> !gone,
{
}

/// A second error is the same as the first, and a failure carries its message.
pub proof fn law_errors_are_copied_and_carried(
    err: &BackendError,
    copy: BackendError,
    message: String,
    failure: BackendError,
)
    requires
        call_ensures(error::clone_backend_error, (err,), copy),
        call_ensures(error::dap_err, (message,), failure),
    ensures
        copy == *err,
        failure == (BackendError::Dap { message }),
{
}

/// Bodies of which nothing is known are empty.
pub proof fn law_unknown_bodies_are_empty(
    stopped: StoppedBody,
    output: OutputBody,
    exited: ExitedBody,
)
    requires
        call_ensures(StoppedBody::default, (), stopped),
        call_ensures(OutputBody::default, (), output),
        call_ensures(ExitedBody::default, (), exited),
    ensures
        stopped.reason@.len() == 0,
        stopped.description@.len() == 0,
        stopped.text@.len() == 0,
        stopped.thread_id == 0,
        !stopped.all_threads_stopped,
        stopped.hit_breakpoint_ids@.len() == 0,
        output.category@.len() == 0,
        output.output@.len() == 0,
        exited.exit_code == 0,
{
    reveal_strlit("");
}

} // verus!
