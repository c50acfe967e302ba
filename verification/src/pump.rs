//! What a backend's events do to the session.

use vstd::prelude::*;

use crate::manager::{SessionManager, SessionView};
use crate::output_buffer::EntryView;
use crate::types::BackendEvent;

verus! {

/// The session once `event` was taken in by a pump that began in the generation `generation`.
pub open spec fn pumped(session: SessionView, generation: u64, event: BackendEvent) -> SessionView {
    match event {
        BackendEvent::Output { category, text } => SessionView {
            output: session.output.appended(EntryView { category: category@, text: text@ }),
            ..session
        },
        BackendEvent::Terminated { code } => session.terminated_in(generation, code),
    }
}

/// Takes an event in. Output is captured; the end of the debuggee is noted, if the session is
/// still in the generation in which the pump began.
pub fn pump_event(session: &mut SessionManager, generation: u64, event: BackendEvent)
    requires
        old(session).wf(),
    ensures
        final(session).wf(),
        final(session)@ == pumped(old(session)@, generation, event),
{
    match event {
        BackendEvent::Output { category, text } => {
            session.output_buffer().append(category.as_str(), text.as_str());
        },
        BackendEvent::Terminated { code } => {
            let _ = session.terminate_if_generation(generation, code);
        },
    }
}

} // verus!
