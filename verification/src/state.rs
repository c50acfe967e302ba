//! The states of a session.

use vstd::prelude::*;

verus! {

/// What a session is doing. Any state may follow any other.
#[derive(Debug, Clone, Copy, PartialEq, Eq, Structural)]
pub enum State {
    Idle,
    Configuring,
    Stopped,
    Running,
    Terminated,
}

impl State {
    /// The name of the state.
    pub open spec fn name(self) -> Seq<char> {
        match self {
            State::Idle => "idle"@,
            State::Configuring => "configuring"@,
            State::Stopped => "stopped"@,
            State::Running => "running"@,
            State::Terminated => "terminated"@,
        }
    }

    /// The name of the state.
    pub fn to_string(&self) -> (text: String)
        ensures
            text@ == self.name(),
    {
        let name: &str = match self {
            State::Idle => "idle",
            State::Configuring => "configuring",
            State::Stopped => "stopped",
            State::Running => "running",
            State::Terminated => "terminated",
        };
        name.to_owned()
    }
}

} // verus!
