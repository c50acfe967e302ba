//! The factory's side of a connection: its name, and the events that a reader's signals become.

use vstd::prelude::*;

use crate::read_loop::OutputChunk;
use crate::types::BackendEvent;

verus! {

/// Makes connections to the debugger.
#[derive(Debug, Clone)]
pub struct LldbFactory;

impl LldbFactory {
    /// The factory.
    pub fn new() -> (factory: Self)
        ensures
            factory == LldbFactory,
    {
        LldbFactory
    }

    /// The name of the backend.
    pub fn name(&self) -> (name: &'static str)
        ensures
            name@ == "lldb"@,
    {
        "lldb"
    }
}

impl Default for LldbFactory {
    /// The factory.
    fn default() -> (factory: Self)
        ensures
            factory == LldbFactory,
    {
        LldbFactory
    }
}

/// The event that a piece of output is.
pub fn output_event(chunk: OutputChunk) -> (event: BackendEvent)
    ensures
        event == (BackendEvent::Output { category: chunk.category, text: chunk.text }),
{
    BackendEvent::Output { category: chunk.category, text: chunk.text }
}

/// The event that the end of the connection is. A reader that ended without a signal is none.
pub fn terminated_event(signal: Option<Option<i64>>) -> (event: Option<BackendEvent>)
    ensures
        event == (match signal {
            Some(code) => Some(BackendEvent::Terminated { code }),
            None => None,
        }),
{
    match signal {
        Some(code) => Some(BackendEvent::Terminated { code }),
        None => None,
    }
}

} // verus!
