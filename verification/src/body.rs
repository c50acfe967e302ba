//! What the bodies of responses say, in debugger-neutral terms.
//!
//! Each function takes what decoding a body came to: the decoded fields, or why it failed.

use base64::Engine;
use vstd::prelude::*;

use crate::error::{BackendError, BackendErrorView};
use crate::json::{self, Json};
use crate::text;
use crate::types::{
    BreakpointResult, EvalResult, Frame, Instruction, MemoryRead, Scope, ThreadInfo, Variable,
};

verus! {

/// A source reference.
#[derive(Debug, Clone)]
pub struct DapSource {
    pub path: String,
}

#[derive(Debug, Clone)]
pub struct DapStackFrame {
    pub id: i64,
    pub name: String,
    pub source: Option<DapSource>,
    pub line: i64,
    pub instruction_pointer_reference: String,
}

/// The body of a `stackTrace` response.
#[derive(Debug, Clone)]
pub struct StackTraceBody {
    pub stack_frames: Vec<DapStackFrame>,
    pub total_frames: i64,
}

#[derive(Debug, Clone)]
pub struct DapThread {
    pub id: i64,
    pub name: String,
}

/// The body of a `threads` response.
#[derive(Debug, Clone)]
pub struct ThreadsBody {
    pub threads: Vec<DapThread>,
}

#[derive(Debug, Clone)]
pub struct DapScope {
    pub name: String,
    pub variables_reference: i64,
}

/// The body of a `scopes` response.
#[derive(Debug, Clone)]
pub struct ScopesBody {
    pub scopes: Vec<DapScope>,
}

#[derive(Debug, Clone)]
pub struct DapVariable {
    pub name: String,
    pub value: String,
    pub ty: String,
    pub variables_reference: i64,
    pub named_variables: i64,
    pub indexed_variables: i64,
}

/// The body of a `variables` response.
#[derive(Debug, Clone)]
pub struct VariablesBody {
    pub variables: Vec<DapVariable>,
}

/// The body of an `evaluate` response.
#[derive(Debug, Clone)]
pub struct EvaluateBody {
    pub result: String,
    pub ty: String,
    pub variables_reference: i64,
}

/// The body of a `readMemory` response; the data are in base 64.
#[derive(Debug, Clone)]
pub struct ReadMemoryBody {
    pub address: String,
    pub data: String,
}

#[derive(Debug, Clone)]
pub struct DapInstruction {
    pub address: String,
    pub instruction: String,
    pub instruction_bytes: String,
    pub symbol: String,
    pub location: Option<DapSource>,
    pub line: i64,
}

/// The body of a `disassemble` response.
#[derive(Debug, Clone)]
pub struct DisassembleBody {
    pub instructions: Vec<DapInstruction>,
}

#[derive(Debug, Clone)]
pub struct DapBreakpoint {
    pub id: i64,
    pub verified: bool,
    pub line: i64,
    pub message: String,
}

/// The body of a response that sets breakpoints.
#[derive(Debug, Clone)]
pub struct SetBreakpointsBody {
    pub breakpoints: Vec<DapBreakpoint>,
}

/// What decoding bytes in base 64 gives: the bytes, or the text of the failure.
pub uninterp spec fn base64_decoded(data: Seq<u8>) -> Result<Seq<u8>, Seq<char>>;

/// `base64`'s standard engine, `decode`: the decoded bytes, or the text of its error.
#[verifier::external_body]
pub(crate) fn decode_base64(data: &[u8]) -> (decoded: Result<Vec<u8>, String>)
    ensures
        match decoded {
            Ok(bytes) => base64_decoded(data@) == Ok::<Seq<u8>, Seq<char>>(bytes@),
            Err(e) => base64_decoded(data@) == Err::<Seq<u8>, Seq<char>>(e@),
        },
{
    match base64::engine::general_purpose::STANDARD.decode(data) {
        Ok(bytes) => Ok(bytes),
        Err(e) => Err(e.to_string()),
    }
}

/// The failure to decode a body.
pub open spec fn malformed_error(e: Seq<char>) -> BackendErrorView {
    BackendErrorView::Dap { message: "malformed response body: "@ + e }
}

fn malformed(e: String) -> (err: BackendError)
    ensures
        err@ == malformed_error(e@),
{
    BackendError::Dap { message: text::concat2("malformed response body: ", e.as_str()) }
}

/// The value that a body is decoded from: a body that is missing or null counts as an empty
/// object.
pub fn decode(body: &Option<serde_json::Value>) -> (value: serde_json::Value)
    ensures
        json::json_of(value) == (match *body {
            Some(v) if json::json_of(v) != Json::Null => json::json_of(v),
            _ => Json::Object(json::no_entries()),
        }),
{
    if let Some(v) = body {
        if !json::is_null(v) {
            return json::clone_value(v);
        }
    }
    json::object_value(json::new_map())
}

/// The path of a source reference, unless it is empty.
pub open spec fn path_of_source(source: Option<DapSource>) -> Option<String> {
    match source {
        Some(s) => if s.path@.len() > 0 {
            Some(s.path)
        } else {
            None
        },
        None => None,
    }
}

fn source_path(source: Option<DapSource>) -> (path: Option<String>)
    ensures
        path == path_of_source(source),
{
    match source {
        Some(s) => if s.path.as_str().is_empty() {
            None
        } else {
            Some(s.path)
        },
        None => None,
    }
}

/// The frame that is `index`th in a stack trace.
pub open spec fn frame_of(frame: DapStackFrame, index: int) -> Frame {
    Frame {
        index: index as i64,
        id: frame.id,
        name: frame.name,
        source_path: path_of_source(frame.source),
        line: frame.line,
        instruction_pointer: if frame.instruction_pointer_reference@.len() > 0 {
            Some(frame.instruction_pointer_reference)
        } else {
            None
        },
    }
}

/// The frames of a stack trace, numbered from zero, and the total count that the debugger gave.
pub fn stack_trace(parsed: Result<StackTraceBody, String>) -> (result: Result<
    (Vec<Frame>, i64),
    BackendError,
>)
    ensures
        match parsed {
            Ok(body) => result matches Ok(trace) && trace.1 == body.total_frames && trace.0@
                == Seq::new(body.stack_frames@.len(), |i: int| frame_of(body.stack_frames@[i], i)),
            Err(e) => result matches Err(err) && err@ == malformed_error(e@),
        },
{
    let body = match parsed {
        Ok(body) => body,
        Err(e) => return Err(malformed(e)),
    };
    let ghost all = body.stack_frames@;
    let mut frames: Vec<Frame> = Vec::new();
    let count: usize = body.stack_frames.len();
    let mut index: usize = 0;
    for frame in it: body.stack_frames.into_iter()
        invariant
            it.seq() == all,
            index == it.index(),
            count == all.len(),
            frames@.len() == it.index(),
            forall|j: int| 0 <= j < it.index() ==> #[trigger] frames@[j] == frame_of(all[j], j),
    {
        let source_path = source_path(frame.source);
        let instruction_pointer = if frame.instruction_pointer_reference.as_str().is_empty() {
            None
        } else {
            Some(frame.instruction_pointer_reference)
        };
        frames.push(
            Frame {
                index: index as i64,
                id: frame.id,
                name: frame.name,
                source_path,
                line: frame.line,
                instruction_pointer,
            },
        );
        index += 1;
    }
    assert(frames@ =~= Seq::new(all.len(), |i: int| frame_of(all[i], i)));
    Ok((frames, body.total_frames))
}

/// The threads, in order.
pub fn threads(parsed: Result<ThreadsBody, String>) -> (result: Result<
    Vec<ThreadInfo>,
    BackendError,
>)
    ensures
        match parsed {
            Ok(body) => result matches Ok(list) && list@ == Seq::new(
                body.threads@.len(),
                |i: int| ThreadInfo { id: body.threads@[i].id, name: body.threads@[i].name },
            ),
            Err(e) => result matches Err(err) && err@ == malformed_error(e@),
        },
{
    let body = match parsed {
        Ok(body) => body,
        Err(e) => return Err(malformed(e)),
    };
    let ghost all = body.threads@;
    let mut list: Vec<ThreadInfo> = Vec::new();
    for thread in it: body.threads.into_iter()
        invariant
            it.seq() == all,
            list@.len() == it.index(),
            forall|j: int|
                0 <= j < it.index() ==> #[trigger] list@[j] == (ThreadInfo {
                    id: all[j].id,
                    name: all[j].name,
                }),
    {
        list.push(ThreadInfo { id: thread.id, name: thread.name });
    }
    assert(list@ =~= Seq::new(
        all.len(),
        |i: int| ThreadInfo { id: all[i].id, name: all[i].name },
    ));
    Ok(list)
}

/// The scopes, in order.
pub fn scopes(parsed: Result<ScopesBody, String>) -> (result: Result<Vec<Scope>, BackendError>)
    ensures
        match parsed {
            Ok(body) => result matches Ok(list) && list@ == Seq::new(
                body.scopes@.len(),
                |i: int|
                    Scope {
                        name: body.scopes@[i].name,
                        variables_reference: body.scopes@[i].variables_reference,
                    },
            ),
            Err(e) => result matches Err(err) && err@ == malformed_error(e@),
        },
{
    let body = match parsed {
        Ok(body) => body,
        Err(e) => return Err(malformed(e)),
    };
    let ghost all = body.scopes@;
    let mut list: Vec<Scope> = Vec::new();
    for scope in it: body.scopes.into_iter()
        invariant
            it.seq() == all,
            list@.len() == it.index(),
            forall|j: int|
                0 <= j < it.index() ==> #[trigger] list@[j] == (Scope {
                    name: all[j].name,
                    variables_reference: all[j].variables_reference,
                }),
    {
        list.push(Scope { name: scope.name, variables_reference: scope.variables_reference });
    }
    assert(list@ =~= Seq::new(
        all.len(),
        |i: int| Scope { name: all[i].name, variables_reference: all[i].variables_reference },
    ));
    Ok(list)
}

/// The variable that was decoded.
pub open spec fn variable_of(v: DapVariable) -> Variable {
    Variable {
        name: v.name,
        value: v.value,
        ty: v.ty,
        variables_reference: v.variables_reference,
        named: v.named_variables,
        indexed: v.indexed_variables,
    }
}

/// The variables, in order.
pub fn variables(parsed: Result<VariablesBody, String>) -> (result: Result<
    Vec<Variable>,
    BackendError,
>)
    ensures
        match parsed {
            Ok(body) => result matches Ok(list) && list@ == Seq::new(
                body.variables@.len(),
                |i: int| variable_of(body.variables@[i]),
            ),
            Err(e) => result matches Err(err) && err@ == malformed_error(e@),
        },
{
    let body = match parsed {
        Ok(body) => body,
        Err(e) => return Err(malformed(e)),
    };
    let ghost all = body.variables@;
    let mut list: Vec<Variable> = Vec::new();
    for v in it: body.variables.into_iter()
        invariant
            it.seq() == all,
            list@.len() == it.index(),
            forall|j: int| 0 <= j < it.index() ==> #[trigger] list@[j] == variable_of(all[j]),
    {
        list.push(
            Variable {
                name: v.name,
                value: v.value,
                ty: v.ty,
                variables_reference: v.variables_reference,
                named: v.named_variables,
                indexed: v.indexed_variables,
            },
        );
    }
    assert(list@ =~= Seq::new(all.len(), |i: int| variable_of(all[i])));
    Ok(list)
}

/// The result of an evaluation.
pub fn evaluate(parsed: Result<EvaluateBody, String>) -> (result: Result<EvalResult, BackendError>)
    ensures
        match parsed {
            Ok(body) => result == Ok::<EvalResult, BackendError>(
                EvalResult {
                    result: body.result,
                    ty: body.ty,
                    variables_reference: body.variables_reference,
                },
            ),
            Err(e) => result matches Err(err) && err@ == malformed_error(e@),
        },
{
    match parsed {
        Ok(body) => Ok(
            EvalResult {
                result: body.result,
                ty: body.ty,
                variables_reference: body.variables_reference,
            },
        ),
        Err(e) => Err(malformed(e)),
    }
}

/// The memory of `address`, given what decoding its data came to.
pub fn memory_of(address: String, decoded: Result<Vec<u8>, String>) -> (result: Result<
    MemoryRead,
    BackendError,
>)
    ensures
        match decoded {
            Ok(data) => result == Ok::<MemoryRead, BackendError>(MemoryRead { address, data }),
            Err(e) => result matches Err(err) && err@ == (BackendErrorView::Dap {
                message: "failed to decode memory data: "@ + e@,
            }),
        },
{
    match decoded {
        Ok(data) => Ok(MemoryRead { address, data }),
        Err(e) => Err(
            BackendError::Dap {
                message: text::concat2("failed to decode memory data: ", e.as_str()),
            },
        ),
    }
}

/// The bytes that were read, decoded. Empty data are no bytes.
pub fn read_memory(parsed: Result<ReadMemoryBody, String>) -> (result: Result<
    MemoryRead,
    BackendError,
>)
    ensures
        match parsed {
            Ok(body) => if body.data@.len() == 0 {
                result matches Ok(memory) && memory.address == body.address && memory.data@
                    == Seq::<u8>::empty()
            } else {
                match base64_decoded(vstd::utf8::encode_utf8(body.data@)) {
                    Ok(data) => result matches Ok(memory) && memory.address == body.address
                        && memory.data@ == data,
                    Err(e) => result matches Err(err) && err@ == (BackendErrorView::Dap {
                        message: "failed to decode memory data: "@ + e,
                    }),
                }
            },
            Err(e) => result matches Err(err) && err@ == malformed_error(e@),
        },
{
    match parsed {
        Ok(body) => {
            if body.data.as_str().is_empty() {
                memory_of(body.address, Ok(Vec::new()))
            } else {
                memory_of(body.address, decode_base64(body.data.as_str().as_bytes()))
            }
        },
        Err(e) => Err(malformed(e)),
    }
}

/// The instruction that was decoded.
pub open spec fn instruction_of(i: DapInstruction) -> Instruction {
    Instruction {
        address: i.address,
        instruction: i.instruction,
        bytes: i.instruction_bytes,
        symbol: i.symbol,
        source_path: path_of_source(i.location),
        line: i.line,
    }
}

/// The instructions, in order.
pub fn disassemble(parsed: Result<DisassembleBody, String>) -> (result: Result<
    Vec<Instruction>,
    BackendError,
>)
    ensures
        match parsed {
            Ok(body) => result matches Ok(list) && list@ == Seq::new(
                body.instructions@.len(),
                |i: int| instruction_of(body.instructions@[i]),
            ),
            Err(e) => result matches Err(err) && err@ == malformed_error(e@),
        },
{
    let body = match parsed {
        Ok(body) => body,
        Err(e) => return Err(malformed(e)),
    };
    let ghost all = body.instructions@;
    let mut list: Vec<Instruction> = Vec::new();
    for i in it: body.instructions.into_iter()
        invariant
            it.seq() == all,
            list@.len() == it.index(),
            forall|j: int| 0 <= j < it.index() ==> #[trigger] list@[j] == instruction_of(all[j]),
    {
        let source_path = source_path(i.location);
        list.push(
            Instruction {
                address: i.address,
                instruction: i.instruction,
                bytes: i.instruction_bytes,
                symbol: i.symbol,
                source_path,
                line: i.line,
            },
        );
    }
    assert(list@ =~= Seq::new(all.len(), |k: int| instruction_of(all[k])));
    Ok(list)
}

/// The breakpoint that was decoded.
pub open spec fn breakpoint_of(b: DapBreakpoint) -> BreakpointResult {
    BreakpointResult { id: b.id, verified: b.verified, line: b.line, message: b.message }
}

/// What became of the breakpoints, in order.
pub fn breakpoints(parsed: Result<SetBreakpointsBody, String>) -> (result: Result<
    Vec<BreakpointResult>,
    BackendError,
>)
    ensures
        match parsed {
            Ok(body) => result matches Ok(list) && list@ == Seq::new(
                body.breakpoints@.len(),
                |i: int| breakpoint_of(body.breakpoints@[i]),
            ),
            Err(e) => result matches Err(err) && err@ == malformed_error(e@),
        },
{
    let body = match parsed {
        Ok(body) => body,
        Err(e) => return Err(malformed(e)),
    };
    let ghost all = body.breakpoints@;
    let mut list: Vec<BreakpointResult> = Vec::new();
    for b in it: body.breakpoints.into_iter()
        invariant
            it.seq() == all,
            list@.len() == it.index(),
            forall|j: int| 0 <= j < it.index() ==> #[trigger] list@[j] == breakpoint_of(all[j]),
    {
        list.push(
            BreakpointResult { id: b.id, verified: b.verified, line: b.line, message: b.message },
        );
    }
    assert(list@ =~= Seq::new(all.len(), |i: int| breakpoint_of(all[i])));
    Ok(list)
}

} // verus!
