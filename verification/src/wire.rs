//! The messages of the debug adapter protocol, and how a decoded body becomes one.

use vstd::prelude::*;

use crate::error::WireError;
use crate::json::{self, Json};
use crate::text;

verus! {

/// The part that all messages have in common, with the fields that tell them apart.
#[derive(Debug, Clone, PartialEq)]
pub struct Envelope {
    pub seq: i64,
    pub ty: String,
    /// Present on requests and responses.
    pub command: Option<String>,
    /// Present on events.
    pub event: Option<String>,
}

/// The answer to the request with the number `request_seq`.
#[derive(Debug, Clone, PartialEq)]
pub struct Response {
    pub seq: i64,
    pub ty: String,
    pub request_seq: i64,
    pub success: bool,
    pub command: String,
    pub message: String,
    pub body: Option<serde_json::Value>,
}

#[derive(Debug, Clone, PartialEq)]
pub struct StoppedBody {
    pub reason: String,
    pub description: String,
    pub thread_id: i64,
    pub text: String,
    pub all_threads_stopped: bool,
    pub hit_breakpoint_ids: Vec<i64>,
}

impl Default for StoppedBody {
    /// The body of which nothing is known.
    fn default() -> (body: Self)
        ensures
            body.reason@ == ""@,
            body.description@ == ""@,
            body.thread_id == 0,
            body.text@ == ""@,
            !body.all_threads_stopped,
            body.hit_breakpoint_ids@ == Seq::<i64>::empty(),
    {
        proof {
            reveal_strlit("");
        }
        let body = StoppedBody {
            reason: String::new(),
            description: String::new(),
            thread_id: 0,
            text: String::new(),
            all_threads_stopped: false,
            hit_breakpoint_ids: Vec::new(),
        };
        assert(body.reason@ =~= ""@);
        assert(body.description@ =~= ""@);
        assert(body.text@ =~= ""@);
        body
    }
}

/// The debuggee stopped.
#[derive(Debug, Clone, PartialEq)]
pub struct StoppedEvent {
    pub seq: i64,
    pub ty: String,
    pub event: String,
    pub body: StoppedBody,
}

#[derive(Debug, Clone, PartialEq)]
pub struct OutputBody {
    pub category: String,
    pub output: String,
}

impl Default for OutputBody {
    /// The empty output, without a category.
    fn default() -> (body: Self)
        ensures
            body.category@ == ""@,
            body.output@ == ""@,
    {
        proof {
            reveal_strlit("");
        }
        let body = OutputBody { category: String::new(), output: String::new() };
        assert(body.category@ =~= ""@);
        assert(body.output@ =~= ""@);
        body
    }
}

/// The debuggee or the debugger wrote something.
#[derive(Debug, Clone, PartialEq)]
pub struct OutputEvent {
    pub seq: i64,
    pub ty: String,
    pub event: String,
    pub body: OutputBody,
}

#[derive(Debug, Clone, PartialEq)]
pub struct ExitedBody {
    pub exit_code: i64,
}

impl Default for ExitedBody {
    /// The exit with code zero.
    fn default() -> (body: Self)
        ensures
            body.exit_code == 0,
    {
        ExitedBody { exit_code: 0 }
    }
}

/// The debuggee exited.
#[derive(Debug, Clone, PartialEq)]
pub struct ExitedEvent {
    pub seq: i64,
    pub ty: String,
    pub event: String,
    pub body: ExitedBody,
}

/// The events that are known. Those from `Thread` on are only reported.
#[derive(Debug, Clone, PartialEq)]
pub enum Event {
    Initialized,
    Stopped(StoppedEvent),
    Output(OutputEvent),
    Exited(ExitedEvent),
    Terminated,
    Thread,
    Breakpoint,
    Process,
    Continued,
    Module,
    Capabilities,
}

/// A decoded message.
#[derive(Debug, Clone, PartialEq)]
pub enum DapMessage {
    Response(Response),
    Event(Event),
    /// A well-formed message that is neither a response nor a known event.
    Other(Envelope),
}

/// As what the bytes of a message are to be decoded, beyond its envelope.
#[derive(Debug, Clone, PartialEq)]
pub enum Shape {
    Response,
    Stopped,
    Output,
    Exited,
    /// An event that has no body to decode.
    Plain(Event),
    /// Nothing but the envelope matters.
    Unmodeled,
}

/// What decoding the bytes of a message as a given shape came to.
#[derive(Debug, PartialEq)]
pub enum Decoded {
    Response(Result<Response, String>),
    Stopped(Result<StoppedEvent, String>),
    Output(Result<OutputEvent, String>),
    Exited(Result<ExitedEvent, String>),
    Nothing,
}

/// The shape of the event called `name`.
pub open spec fn event_shape(name: Seq<char>) -> Shape {
    if name == "initialized"@ {
        Shape::Plain(Event::Initialized)
    } else if name == "stopped"@ {
        Shape::Stopped
    } else if name == "output"@ {
        Shape::Output
    } else if name == "exited"@ {
        Shape::Exited
    } else if name == "terminated"@ {
        Shape::Plain(Event::Terminated)
    } else if name == "thread"@ {
        Shape::Plain(Event::Thread)
    } else if name == "breakpoint"@ {
        Shape::Plain(Event::Breakpoint)
    } else if name == "process"@ {
        Shape::Plain(Event::Process)
    } else if name == "continued"@ {
        Shape::Plain(Event::Continued)
    } else if name == "module"@ {
        Shape::Plain(Event::Module)
    } else if name == "capabilities"@ {
        Shape::Plain(Event::Capabilities)
    } else {
        Shape::Unmodeled
    }
}

/// The shape of the message with the envelope `envelope`.
pub open spec fn shape_of(envelope: Envelope) -> Shape {
    if envelope.ty@ == "response"@ {
        Shape::Response
    } else if envelope.ty@ == "event"@ {
        match envelope.event {
            Some(name) => event_shape(name@),
            None => Shape::Unmodeled,
        }
    } else {
        Shape::Unmodeled
    }
}

/// Whether `decoded` is what a message of shape `shape` was decoded as.
pub open spec fn fits(shape: Shape, decoded: Decoded) -> bool {
    match shape {
        Shape::Response => decoded is Response,
        Shape::Stopped => decoded is Stopped,
        Shape::Output => decoded is Output,
        Shape::Exited => decoded is Exited,
        Shape::Plain(_) => true,
        Shape::Unmodeled => true,
    }
}

/// The message of shape `shape` with the envelope `envelope`, or why there is none.
pub open spec fn message_of(envelope: Envelope, decoded: Decoded) -> Result<DapMessage, WireError> {
    match shape_of(envelope) {
        Shape::Plain(event) => Ok(DapMessage::Event(event)),
        Shape::Unmodeled => Ok(DapMessage::Other(envelope)),
        _ => match decoded {
            Decoded::Response(Ok(response)) => Ok(DapMessage::Response(response)),
            Decoded::Stopped(Ok(event)) => Ok(DapMessage::Event(Event::Stopped(event))),
            Decoded::Output(Ok(event)) => Ok(DapMessage::Event(Event::Output(event))),
            Decoded::Exited(Ok(event)) => Ok(DapMessage::Event(Event::Exited(event))),
            Decoded::Response(Err(e)) => Err(WireError::Json(e)),
            Decoded::Stopped(Err(e)) => Err(WireError::Json(e)),
            Decoded::Output(Err(e)) => Err(WireError::Json(e)),
            Decoded::Exited(Err(e)) => Err(WireError::Json(e)),
            Decoded::Nothing => arbitrary(),
        },
    }
}

impl Event {
    /// As what an event with this envelope is to be decoded; an event without a known name is
    /// unmodeled.
    pub fn from_envelope(envelope: &Envelope) -> (shape: Shape)
        ensures
            shape == (match envelope.event {
                Some(name) => event_shape(name@),
                None => Shape::Unmodeled,
            }),
    {
        let name: &str = match &envelope.event {
            Some(name) => name.as_str(),
            None => return Shape::Unmodeled,
        };
        if text::same_text(name, "initialized") {
            Shape::Plain(Event::Initialized)
        } else if text::same_text(name, "stopped") {
            Shape::Stopped
        } else if text::same_text(name, "output") {
            Shape::Output
        } else if text::same_text(name, "exited") {
            Shape::Exited
        } else if text::same_text(name, "terminated") {
            Shape::Plain(Event::Terminated)
        } else if text::same_text(name, "thread") {
            Shape::Plain(Event::Thread)
        } else if text::same_text(name, "breakpoint") {
            Shape::Plain(Event::Breakpoint)
        } else if text::same_text(name, "process") {
            Shape::Plain(Event::Process)
        } else if text::same_text(name, "continued") {
            Shape::Plain(Event::Continued)
        } else if text::same_text(name, "module") {
            Shape::Plain(Event::Module)
        } else if text::same_text(name, "capabilities") {
            Shape::Plain(Event::Capabilities)
        } else {
            Shape::Unmodeled
        }
    }
}

impl DapMessage {
    /// As what the bytes of a message with this envelope are to be decoded.
    pub fn shape(envelope: &Envelope) -> (shape: Shape)
        ensures
            shape == shape_of(*envelope),
    {
        if text::same_text(envelope.ty.as_str(), "response") {
            Shape::Response
        } else if text::same_text(envelope.ty.as_str(), "event") {
            Event::from_envelope(envelope)
        } else {
            Shape::Unmodeled
        }
    }

    /// The message whose bytes gave `envelope` and then, as the envelope's shape asks, `decoded`.
    /// A decoding that failed is the error.
    pub fn from_slice(envelope: Result<Envelope, String>, decoded: Decoded) -> (message: Result<
        DapMessage,
        WireError,
    >)
        requires
            match envelope {
                Ok(envelope) => fits(shape_of(envelope), decoded),
                Err(_) => true,
            },
        ensures
            message == (match envelope {
                Ok(envelope) => message_of(envelope, decoded),
                Err(e) => Err::<DapMessage, WireError>(WireError::Json(e)),
            }),
    {
        let envelope = match envelope {
            Ok(envelope) => envelope,
            Err(e) => return Err(WireError::Json(e)),
        };
        match DapMessage::shape(&envelope) {
            Shape::Plain(event) => Ok(DapMessage::Event(event)),
            Shape::Unmodeled => Ok(DapMessage::Other(envelope)),
            _ => match decoded {
                Decoded::Response(Ok(response)) => Ok(DapMessage::Response(response)),
                Decoded::Stopped(Ok(event)) => Ok(DapMessage::Event(Event::Stopped(event))),
                Decoded::Output(Ok(event)) => Ok(DapMessage::Event(Event::Output(event))),
                Decoded::Exited(Ok(event)) => Ok(DapMessage::Event(Event::Exited(event))),
                Decoded::Response(Err(e)) => Err(WireError::Json(e)),
                Decoded::Stopped(Err(e)) => Err(WireError::Json(e)),
                Decoded::Output(Err(e)) => Err(WireError::Json(e)),
                Decoded::Exited(Err(e)) => Err(WireError::Json(e)),
                Decoded::Nothing => Ok(DapMessage::Other(envelope)),
            },
        }
    }
}

/// A request as it goes out.
#[derive(Debug, Clone, PartialEq)]
pub struct Request {
    pub seq: i64,
    pub ty: String,
    pub command: String,
    pub arguments: Option<serde_json::Value>,
}

pub struct RequestView {
    pub seq: int,
    pub ty: Seq<char>,
    pub command: Seq<char>,
    pub arguments: Option<Json>,
}

impl View for Request {
    type V = RequestView;

    open spec fn view(&self) -> RequestView {
        RequestView {
            seq: self.seq as int,
            ty: self.ty@,
            command: self.command@,
            arguments: json::json_opt(self.arguments),
        }
    }
}

/// The request for `command` that has no number yet.
pub open spec fn request_view(command: Seq<char>, arguments: Option<Json>) -> RequestView {
    RequestView { seq: 0, ty: "request"@, command, arguments }
}

impl Request {
    /// A request for `command`, without a number yet.
    pub fn new(command: &str, arguments: Option<serde_json::Value>) -> (request: Request)
        ensures
            request@ == request_view(command@, json::json_opt(arguments)),
            request.arguments == arguments,
    {
        Request { seq: 0, ty: "request".to_owned(), command: command.to_owned(), arguments }
    }

    /// Gives the request its number.
    pub fn set_seq(&mut self, seq: i64)
        ensures
            *final(self) == (Request { seq, ..*old(self) }),
    {
        self.seq = seq;
    }
}

} // verus!
