//! What is known of a breakpoint that the debugger resolved.

use vstd::prelude::*;

verus! {

/// A breakpoint under the id that the debugger gave it. `ty` is `source` or `function`, and says
/// by what it is found again: its line, or its function's name.
#[derive(Debug, PartialEq, Eq)]
pub struct BreakpointInfo {
    pub id: i64,
    pub ty: String,
    pub file: String,
    pub line: i64,
    pub function: String,
    pub condition: String,
    pub verified: bool,
}

pub struct BreakpointInfoView {
    pub id: int,
    pub ty: Seq<char>,
    pub file: Seq<char>,
    pub line: int,
    pub function: Seq<char>,
    pub condition: Seq<char>,
    pub verified: bool,
}

impl View for BreakpointInfo {
    type V = BreakpointInfoView;

    open spec fn view(&self) -> BreakpointInfoView {
        BreakpointInfoView {
            id: self.id as int,
            ty: self.ty@,
            file: self.file@,
            line: self.line as int,
            function: self.function@,
            condition: self.condition@,
            verified: self.verified,
        }
    }
}

impl Clone for BreakpointInfo {
    fn clone(&self) -> (copy: Self)
        ensures
            copy == *self,
    {
        BreakpointInfo {
            id: self.id,
            ty: self.ty.clone(),
            file: self.file.clone(),
            line: self.line,
            function: self.function.clone(),
            condition: self.condition.clone(),
            verified: self.verified,
        }
    }
}

} // verus!
