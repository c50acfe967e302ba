//! The errors of the backend seam and of the wire.

use vstd::prelude::*;

use crate::text;

verus! {

/// Why a backend operation failed.
#[derive(Debug, PartialEq, Eq)]
pub enum BackendError {
    /// No debugger binary was found.
    Detect(String),
    /// The debugger could not be started.
    Spawn(String),
    /// A request could not be written.
    Send(String),
    /// A message of an unexpected type arrived.
    Protocol { ty: String },
    /// The debugger refused the request.
    Dap { message: String },
    /// The connection is closed.
    Closed,
    /// The operation took too long.
    Timeout,
}

pub enum BackendErrorView {
    Detect(Seq<char>),
    Spawn(Seq<char>),
    Send(Seq<char>),
    Protocol { ty: Seq<char> },
    Dap { message: Seq<char> },
    Closed,
    Timeout,
}

impl View for BackendError {
    type V = BackendErrorView;

    open spec fn view(&self) -> BackendErrorView {
        match *self {
            BackendError::Detect(m) => BackendErrorView::Detect(m@),
            BackendError::Spawn(m) => BackendErrorView::Spawn(m@),
            BackendError::Send(m) => BackendErrorView::Send(m@),
            BackendError::Protocol { ty } => BackendErrorView::Protocol { ty: ty@ },
            BackendError::Dap { message } => BackendErrorView::Dap { message: message@ },
            BackendError::Closed => BackendErrorView::Closed,
            BackendError::Timeout => BackendErrorView::Timeout,
        }
    }
}

impl BackendErrorView {
    /// The text that a reader sees.
    pub open spec fn text(self) -> Seq<char> {
        match self {
            BackendErrorView::Detect(m) => "failed to detect debugger: "@ + m,
            BackendErrorView::Spawn(m) => "failed to spawn debugger: "@ + m,
            BackendErrorView::Send(m) => "failed to send request: "@ + m,
            BackendErrorView::Protocol { ty } => "unexpected response type: "@ + ty,
            BackendErrorView::Dap { message } => "debugger error: "@ + message,
            BackendErrorView::Closed => "connection closed"@,
            BackendErrorView::Timeout => "operation timed out"@,
        }
    }
}

impl BackendError {
    /// The text that a reader sees.
    pub fn to_string(&self) -> (text: String)
        ensures
            text@ == self@.text(),
    {
        match self {
            BackendError::Detect(m) => text::concat2("failed to detect debugger: ", m.as_str()),
            BackendError::Spawn(m) => text::concat2("failed to spawn debugger: ", m.as_str()),
            BackendError::Send(m) => text::concat2("failed to send request: ", m.as_str()),
            BackendError::Protocol { ty } => text::concat2(
                "unexpected response type: ",
                ty.as_str(),
            ),
            BackendError::Dap { message } => text::concat2("debugger error: ", message.as_str()),
            BackendError::Closed => "connection closed".to_owned(),
            BackendError::Timeout => "operation timed out".to_owned(),
        }
    }
}

/// A second error with the same cause, for each further waiter that has to hear of it.
pub fn clone_backend_error(err: &BackendError) -> (copy: BackendError)
    ensures
        copy == *err,
{
    match err {
        BackendError::Closed => BackendError::Closed,
        BackendError::Timeout => BackendError::Timeout,
        BackendError::Detect(m) => BackendError::Detect(m.clone()),
        BackendError::Spawn(m) => BackendError::Spawn(m.clone()),
        BackendError::Send(m) => BackendError::Send(m.clone()),
        BackendError::Protocol { ty } => BackendError::Protocol { ty: ty.clone() },
        BackendError::Dap { message } => BackendError::Dap { message: message.clone() },
    }
}

/// A failure that carries `message` as the debugger's answer.
pub fn dap_err(message: String) -> (err: BackendError)
    ensures
        err == (BackendError::Dap { message }),
{
    BackendError::Dap { message }
}

/// Why no message could be read from or written to the wire.
#[derive(Debug, Clone, PartialEq, Eq)]
pub enum WireError {
    /// The stream ended between two messages.
    Eof,
    /// The stream failed, or ended inside a message; the text says how.
    Io(String),
    /// A header ended without a length.
    MissingContentLength,
    /// The length in a header is no acceptable byte count; the text is what stood there.
    InvalidContentLength(String),
    /// The body is not JSON of the expected shape; the text says why.
    Json(String),
}

pub enum WireErrorView {
    Eof,
    Io(Seq<char>),
    MissingContentLength,
    InvalidContentLength(Seq<char>),
    Json(Seq<char>),
}

impl View for WireError {
    type V = WireErrorView;

    open spec fn view(&self) -> WireErrorView {
        match *self {
            WireError::Eof => WireErrorView::Eof,
            WireError::Io(m) => WireErrorView::Io(m@),
            WireError::MissingContentLength => WireErrorView::MissingContentLength,
            WireError::InvalidContentLength(m) => WireErrorView::InvalidContentLength(m@),
            WireError::Json(m) => WireErrorView::Json(m@),
        }
    }
}

impl WireErrorView {
    /// The text that a reader sees.
    pub open spec fn text(self) -> Seq<char> {
        match self {
            WireErrorView::Eof => "connection closed (EOF)"@,
            WireErrorView::Io(m) => "io error: "@ + m,
            WireErrorView::MissingContentLength => "missing Content-Length header"@,
            WireErrorView::InvalidContentLength(m) => "invalid Content-Length header: "@ + m,
            WireErrorView::Json(m) => "malformed DAP message body: "@ + m,
        }
    }
}

impl WireError {
    /// Whether the transport is gone, as opposed to a message that makes no sense.
    pub fn is_disconnect(&self) -> (gone: bool)
        ensures
            gone == (*self is Eof || *self is Io),
    {
        matches!(self, WireError::Eof | WireError::Io(_))
    }

    /// The text that a reader sees.
    pub fn to_string(&self) -> (text: String)
        ensures
            text@ == self@.text(),
    {
        match self {
            WireError::Eof => "connection closed (EOF)".to_owned(),
            WireError::Io(m) => text::concat2("io error: ", m.as_str()),
            WireError::MissingContentLength => "missing Content-Length header".to_owned(),
            WireError::InvalidContentLength(m) => text::concat2(
                "invalid Content-Length header: ",
                m.as_str(),
            ),
            WireError::Json(m) => text::concat2("malformed DAP message body: ", m.as_str()),
        }
    }
}

} // verus!
