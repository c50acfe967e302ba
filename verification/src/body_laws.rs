//! What is handed on of the bodies of responses: everything, in order, field by field.

use vstd::prelude::*;

use crate::body;
use crate::body::{
    DapSource, DisassembleBody, EvaluateBody, ReadMemoryBody, ScopesBody, SetBreakpointsBody,
    StackTraceBody, ThreadsBody, VariablesBody,
};
use crate::error::BackendError;
use crate::json;
use crate::json::Json;
use crate::types::{
    BreakpointResult, EvalResult, Frame, Instruction, MemoryRead, Scope, ThreadInfo, Variable,
};

verus! {

/// Whether `result` is the failure to decode a body, for the reason `reason`.
pub open spec fn malformed<T>(result: Result<T, BackendError>, reason: Seq<char>) -> bool {
    match result {
        Err(BackendError::Dap { message }) => message@ == "malformed response body: "@ + reason,
        _ => false,
    }
}

/// Whether `path` is the path of `source`: there is one exactly when the source names one.
pub open spec fn names_path(path: Option<String>, source: Option<DapSource>) -> bool {
    match path {
        Some(p) => source is Some && p == source->0.path && p@.len() > 0,
        None => source is None || source->0.path@.len() == 0,
    }
}

/// A stack trace has a frame for each that the debugger gave, in order and numbered from zero,
/// each with its own id, name, line, source and instruction pointer; and the debugger's total.
pub proof fn law_every_frame_is_told(
    parsed: Result<StackTraceBody, String>,
    result: Result<(Vec<Frame>, i64), BackendError>,
)
    requires
        call_ensures(body::stack_trace, (parsed,), result),
    ensures
        parsed matches Err(reason) ==> malformed(result, reason@),
        parsed matches Ok(given) ==> (result matches Ok(trace) && trace.1 == given.total_frames
            && trace.0@.len() == given.stack_frames@.len() && (forall|i: int|
            #![trigger trace.0@[i]]
            0 <= i < given.stack_frames@.len() ==> {
                let frame = trace.0@[i];
                let from = given.stack_frames@[i];
                &&& i <= i64::MAX ==> frame.index == i
                &&& frame.id == from.id
                &&& frame.name == from.name
                &&& frame.line == from.line
                &&& names_path(frame.source_path, from.source)
                &&& frame.instruction_pointer == if from.instruction_pointer_reference@.len() > 0 {
                    Some(from.instruction_pointer_reference)
                } else {
                    None
                }
            })),
{
}

/// Every thread is told, in order, with its own id and name.
pub proof fn law_every_thread_is_told(
    parsed: Result<ThreadsBody, String>,
    result: Result<Vec<ThreadInfo>, BackendError>,
)
    requires
        call_ensures(body::threads, (parsed,), result),
    ensures
        parsed matches Err(reason) ==> malformed(result, reason@),
        parsed matches Ok(given) ==> (result matches Ok(list) && list@.len()
            == given.threads@.len() && (forall|i: int|
            #![trigger list@[i]]
            0 <= i < given.threads@.len() ==> list@[i].id == given.threads@[i].id && list@[i].name
                == given.threads@[i].name)),
{
}

/// Every scope is told, in order, with its own name and reference.
pub proof fn law_every_scope_is_told(
    parsed: Result<ScopesBody, String>,
    result: Result<Vec<Scope>, BackendError>,
)
    requires
        call_ensures(body::scopes, (parsed,), result),
    ensures
        parsed matches Err(reason) ==> malformed(result, reason@),
        parsed matches Ok(given) ==> (result matches Ok(list) && list@.len() == given.scopes@.len()
            && (forall|i: int|
            #![trigger list@[i]]
            0 <= i < given.scopes@.len() ==> list@[i].name == given.scopes@[i].name
                && list@[i].variables_reference == given.scopes@[i].variables_reference)),
{
}

/// Every variable is told, in order, with its own name, value, type, reference and counts.
pub proof fn law_every_variable_is_told(
    parsed: Result<VariablesBody, String>,
    result: Result<Vec<Variable>, BackendError>,
)
    requires
        call_ensures(body::variables, (parsed,), result),
    ensures
        parsed matches Err(reason) ==> malformed(result, reason@),
        parsed matches Ok(given) ==> (result matches Ok(list) && list@.len()
            == given.variables@.len() && (forall|i: int|
            #![trigger list@[i]]
            0 <= i < given.variables@.len() ==> {
                let variable = list@[i];
                let from = given.variables@[i];
                &&& variable.name == from.name
                &&& variable.value == from.value
                &&& variable.ty == from.ty
                &&& variable.variables_reference == from.variables_reference
                &&& variable.named == from.named_variables
                &&& variable.indexed == from.indexed_variables
            })),
{
}

/// The result of an evaluation is told with its type and reference.
pub proof fn law_evaluation_is_told(
    parsed: Result<EvaluateBody, String>,
    result: Result<EvalResult, BackendError>,
)
    requires
        call_ensures(body::evaluate, (parsed,), result),
    ensures
        parsed matches Err(reason) ==> malformed(result, reason@),
        parsed matches Ok(given) ==> (result matches Ok(told) && told.result == given.result
            && told.ty == given.ty && told.variables_reference == given.variables_reference),
{
}

/// The bytes of a memory read are those that the data decode to, all of them, and stand with the
/// address that the debugger echoed; no data are no bytes; data that do not decode are a failure.
pub proof fn law_memory_is_told(
    parsed: Result<ReadMemoryBody, String>,
    result: Result<MemoryRead, BackendError>,
)
    requires
        call_ensures(body::read_memory, (parsed,), result),
    ensures
        parsed matches Err(reason) ==> malformed(result, reason@),
        parsed matches Ok(given) ==> {
            let decoded = body::base64_decoded(vstd::utf8::encode_utf8(given.data@));
            &&& given.data@.len() == 0 ==> (result matches Ok(memory) && memory.address
                == given.address && memory.data@.len() == 0)
            &&& given.data@.len() > 0 && decoded is Ok ==> (result matches Ok(memory)
                && memory.address == given.address && memory.data@ == decoded->Ok_0)
            &&& given.data@.len() > 0 && decoded is Err ==> (result matches Err(
                BackendError::Dap { message },
            ) && message@ == "failed to decode memory data: "@ + decoded->Err_0)
        },
{
}

/// The bytes that data decode to are handed on as they are, with their address.
pub proof fn law_decoded_memory_is_handed_on(
    address: String,
    decoded: Result<Vec<u8>, String>,
    result: Result<MemoryRead, BackendError>,
)
    requires
        call_ensures(body::memory_of, (address, decoded), result),
    ensures
        decoded matches Ok(data) ==> (result matches Ok(memory) && memory.address == address
            && memory.data@ == data@),
        decoded matches Err(reason) ==> (result matches Err(BackendError::Dap { message })
            && message@ == "failed to decode memory data: "@ + reason@),
{
}

/// Every instruction is told, in order, with its own address, text, bytes, symbol, line and
/// source.
pub proof fn law_every_instruction_is_told(
    parsed: Result<DisassembleBody, String>,
    result: Result<Vec<Instruction>, BackendError>,
)
    requires
        call_ensures(body::disassemble, (parsed,), result),
    ensures
        parsed matches Err(reason) ==> malformed(result, reason@),
        parsed matches Ok(given) ==> (result matches Ok(list) && list@.len()
            == given.instructions@.len() && (forall|i: int|
            #![trigger list@[i]]
            0 <= i < given.instructions@.len() ==> {
                let instruction = list@[i];
                let from = given.instructions@[i];
                &&& instruction.address == from.address
                &&& instruction.instruction == from.instruction
                &&& instruction.bytes == from.instruction_bytes
                &&& instruction.symbol == from.symbol
                &&& instruction.line == from.line
                &&& names_path(instruction.source_path, from.location)
            })),
{
}

/// What became of every breakpoint is told, in order, with its own id, line and message, and
/// whether it is verified.
pub proof fn law_every_breakpoint_is_told(
    parsed: Result<SetBreakpointsBody, String>,
    result: Result<Vec<BreakpointResult>, BackendError>,
)
    requires
        call_ensures(body::breakpoints, (parsed,), result),
    ensures
        parsed matches Err(reason) ==> malformed(result, reason@),
        parsed matches Ok(given) ==> (result matches Ok(list) && list@.len()
            == given.breakpoints@.len() && (forall|i: int|
            #![trigger list@[i]]
            0 <= i < given.breakpoints@.len() ==> {
                let told = list@[i];
                let from = given.breakpoints@[i];
                &&& told.id == from.id
                &&& told.verified == from.verified
                &&& told.line == from.line
                &&& told.message == from.message
            })),
{
}

/// A body is decoded from itself; one that is missing or null, from the object without entries.
pub proof fn law_missing_body_is_an_empty_object(
    given: &Option<serde_json::Value>,
    value: serde_json::Value,
)
    requires
        call_ensures(body::decode, (given,), value),
    ensures
        *given is None ==> json::json_of(value) == Json::Object(Map::empty()),
        *given matches Some(v) ==> json::json_of(v) == Json::Null ==> json::json_of(value)
            == Json::Object(Map::empty()),
        *given matches Some(v) ==> json::json_of(v) != Json::Null ==> json::json_of(value)
            == json::json_of(v),
{
}

} // verus!
