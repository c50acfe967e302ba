//! What each step of a launch, an attach and a resume asks for, and what it comes to.

use vstd::prelude::*;

use crate::backend;
use crate::client::PendingResult;
use crate::error::BackendError;
use crate::handshake;
use crate::handshake::{
    Action, ActionView, AttachHandshake, AttachPhase, Event, LaunchHandshake, LaunchPhase, Resume,
    ResumePhase,
};
use crate::handshake_laws;
use crate::json;
use crate::json::Json;
use crate::model;
use crate::request_laws;
use crate::requests;
use crate::types::{
    AttachOutcome, AttachSpec, LaunchOutcome, LaunchSpec, StopInfo, StopOutcome,
};
use crate::wire::{DapMessage, Request, RequestView, Response};

verus! {

/// Whether `result` is the failure with the text `message`.
pub open spec fn fails_with<O>(result: Option<Result<O, BackendError>>, message: Seq<char>) -> bool {
    match result {
        Some(Err(BackendError::Dap { message: text })) => text@ == message,
        _ => false,
    }
}

/// Whether `result` is the failure because a message of the type `ty` arrived.
pub open spec fn unexpected<O>(result: Option<Result<O, BackendError>>, ty: Seq<char>) -> bool {
    match result {
        Some(Err(BackendError::Protocol { ty: text })) => text@ == ty,
        _ => false,
    }
}

/// Whether `sent` is `request`, to be sent as it is.
pub open spec fn same_request(sent: Request, request: Request) -> bool {
    &&& sent.seq == request.seq
    &&& sent.ty@ == request.ty@
    &&& sent.command@ == request.command@
    &&& json::json_opt(sent.arguments) == json::json_opt(request.arguments)
}

/// A resume whose request was answered returns the very outcome that the wait for a stop delivers:
/// a stop with its reason, thread, description and breakpoints, an exit with its code. It has no
/// result before; and a connection that is torn down counts as an end.
pub proof fn law_resume_returns_what_the_wait_delivers(
    request: Request,
    begun: &mut Resume,
    registered: &mut Resume,
    answered: &mut Resume,
    message: DapMessage,
    outcome: Option<StopOutcome>,
    first: Option<Result<StopOutcome, BackendError>>,
    second: Option<Result<StopOutcome, BackendError>>,
    third: Option<Result<StopOutcome, BackendError>>,
)
    requires
        call_ensures(Resume::new, (request,), *old(begun)),
        call_ensures(Resume::step, (begun, Event::Registered), first),
        *old(registered) == *final(begun),
        call_ensures(Resume::step, (registered, Event::Replied(Ok(message))), second),
        *old(answered) == *final(registered),
        call_ensures(Resume::step, (answered, Event::Stopped(outcome)), third),
    ensures
        first is None,
        second is None,
        outcome matches Some(delivered) ==> third == Some(
            Ok::<StopOutcome, BackendError>(delivered),
        ),
        outcome is None ==> third == Some(Ok::<StopOutcome, BackendError>(StopOutcome::Terminated)),
{
}

/// The code with which the debuggee exits is the code that the resume returns, whatever it is; two
/// different codes are told apart.
pub proof fn law_resume_tells_exit_codes_apart(
    one: &mut Resume,
    other: &mut Resume,
    code: Option<i64>,
    another: Option<i64>,
    result: Option<Result<StopOutcome, BackendError>>,
    different: Option<Result<StopOutcome, BackendError>>,
)
    requires
        old(one).at() == ResumePhase::AwaitStop,
        old(other).at() == ResumePhase::AwaitStop,
        call_ensures(Resume::step, (one, Event::Stopped(Some(StopOutcome::Exited { code }))), result),
        call_ensures(
            Resume::step,
            (other, Event::Stopped(Some(StopOutcome::Exited { code: another }))),
            different,
        ),
    ensures
        result == Some(Ok::<StopOutcome, BackendError>(StopOutcome::Exited { code })),
        result == different <==> code == another,
{
}

/// A stop is returned with everything that is known of it.
pub proof fn law_resume_returns_the_whole_stop(
    resume: &mut Resume,
    info: StopInfo,
    result: Option<Result<StopOutcome, BackendError>>,
)
    requires
        old(resume).at() == ResumePhase::AwaitStop,
        call_ensures(
            Resume::step,
            (resume, Event::Stopped(Some(StopOutcome::Stopped(info)))),
            result,
        ),
    ensures
        result matches Some(Ok(StopOutcome::Stopped(told))) && told.reason == info.reason
            && told.thread_id == info.thread_id && told.description == info.description
            && told.hit_breakpoint_ids == info.hit_breakpoint_ids,
{
}

/// A resume whose request is not answered fails with the cause, and waits for no stop.
pub proof fn law_unanswered_resume_fails(
    resume: &mut Resume,
    cause: BackendError,
    result: Option<Result<StopOutcome, BackendError>>,
)
    requires
        old(resume).at() == ResumePhase::Send,
        call_ensures(Resume::step, (resume, Event::Replied(Err(cause))), result),
    ensures
        result matches Some(Err(BackendError::Send(text))) && text@ == cause@.text(),
{
}

/// A resume registers for the stop, then sends the very request that it was given, then waits for
/// the stop.
pub proof fn law_resume_sends_its_request(
    request: Request,
    fresh: Resume,
    resume: &Resume,
    action: Action,
)
    requires
        call_ensures(Resume::new, (request,), fresh),
        resume.request() == fresh.request(),
        call_ensures(Resume::action, (resume,), action),
    ensures
        fresh.at() == ResumePhase::Register,
        resume.at() == ResumePhase::Register ==> action is RegisterStop,
        resume.at() == ResumePhase::Send ==> (action matches Action::Send(sent) && same_request(
            sent,
            request,
        )),
        resume.at() == ResumePhase::AwaitStop ==> action is AwaitStop,
{
}

/// A resume goes on from its registration to its request, and from there to the wait for the stop,
/// as long as there is no result.
pub proof fn law_resume_goes_on_in_order(
    resume: &mut Resume,
    event: Event,
    result: Option<Result<StopOutcome, BackendError>>,
)
    requires
        handshake::comes_of(
            event,
            handshake::resume_action(old(resume).request(), old(resume).at()),
        ),
        call_ensures(Resume::step, (resume, event), result),
    ensures
        old(resume).at() == ResumePhase::Register ==> result is None && final(resume).at()
            == ResumePhase::Send,
        old(resume).at() == ResumePhase::Send && result is None ==> final(resume).at()
            == ResumePhase::AwaitStop,
        old(resume).at() == ResumePhase::Send ==> (result is None <==> event->Replied_0 is Ok),
        old(resume).at() == ResumePhase::AwaitStop ==> result is Some,
        final(resume).request() == old(resume).request(),
{
}

/// The phase of a launch of `spec` in which the breakpoints from file `i` on are to be set: those
/// of the next file, else those on functions if there are any, else it goes on.
pub open spec fn breakpoints_from(spec: LaunchSpec, i: int) -> LaunchPhase {
    if i < spec.source_breakpoints@.len() {
        LaunchPhase::SourceBreakpoints(i as usize)
    } else if spec.function_breakpoints@.len() > 0 {
        LaunchPhase::FunctionBreakpoints
    } else {
        LaunchPhase::ExceptionBreakpoints
    }
}

/// A launch goes on in the order of its phases, as long as there is no result, whatever came of
/// its actions: no file and no function is passed over, and it registers for the stop before the
/// configuration ends exactly when it is to stop on entry.
pub proof fn law_launch_goes_on_in_order(
    spec: LaunchSpec,
    launch: &mut LaunchHandshake,
    event: Event,
    stderr: &str,
    result: Option<Result<LaunchOutcome, BackendError>>,
)
    requires
        is_launch_of(*old(launch), spec),
        handshake::comes_of(
            event,
            handshake::launch_action(old(launch).plan(), old(launch).at()),
        ),
        call_ensures(LaunchHandshake::step, (launch, event, stderr), result),
        result is None,
    ensures
        old(launch).at() == LaunchPhase::Initialize ==> final(launch).at() == LaunchPhase::Launch,
        old(launch).at() == LaunchPhase::Launch ==> final(launch).at()
            == LaunchPhase::AwaitInitialized,
        old(launch).at() == LaunchPhase::AwaitInitialized ==> final(launch).at()
            == breakpoints_from(spec, 0),
        old(launch).at() matches LaunchPhase::SourceBreakpoints(i) ==> final(launch).at()
            == breakpoints_from(spec, i + 1),
        old(launch).at() == LaunchPhase::FunctionBreakpoints ==> final(launch).at()
            == LaunchPhase::ExceptionBreakpoints,
        old(launch).at() == LaunchPhase::ExceptionBreakpoints ==> final(launch).at()
            == if spec.stop_on_entry {
            LaunchPhase::Register
        } else {
            LaunchPhase::ConfigurationDone
        },
        old(launch).at() == LaunchPhase::Register ==> final(launch).at()
            == LaunchPhase::ConfigurationDone,
        old(launch).at() == LaunchPhase::ConfigurationDone ==> final(launch).at()
            == LaunchPhase::AwaitResponse,
        old(launch).at() == LaunchPhase::AwaitResponse ==> spec.stop_on_entry && final(launch).at()
            == LaunchPhase::AwaitStop,
        old(launch).at() != LaunchPhase::AwaitStop,
{
}

/// A launch needs nothing but the news, where it waits for the debugger or registers for the stop.
pub proof fn law_launch_only_waits_where_it_waits(
    launch: &mut LaunchHandshake,
    event: Event,
    stderr: &str,
    result: Option<Result<LaunchOutcome, BackendError>>,
)
    requires
        old(launch).at() == LaunchPhase::AwaitInitialized || old(launch).at()
            == LaunchPhase::Register,
        call_ensures(LaunchHandshake::step, (launch, event, stderr), result),
    ensures
        result is None,
{
}

/// Whether `launch` is a launch of `spec`.
pub open spec fn is_launch_of(launch: LaunchHandshake, spec: LaunchSpec) -> bool {
    exists|fresh: LaunchHandshake| #[trigger]
        call_ensures(LaunchHandshake::new, (spec,), fresh) && launch.plan() == fresh.plan()
            && launch.wf()
}

/// A launch begins with the `initialize` request, and stays a launch of what it was begun with.
pub proof fn law_launch_stays_the_same_launch(
    spec: LaunchSpec,
    fresh: LaunchHandshake,
    launch: &mut LaunchHandshake,
    event: Event,
    stderr: &str,
    result: Option<Result<LaunchOutcome, BackendError>>,
)
    requires
        call_ensures(LaunchHandshake::new, (spec,), fresh),
        is_launch_of(*old(launch), spec),
        call_ensures(LaunchHandshake::step, (launch, event, stderr), result),
    ensures
        is_launch_of(fresh, spec),
        fresh.at() == LaunchPhase::Initialize,
        is_launch_of(*final(launch), spec),
{
}

proof fn lemma_launch_arguments(spec: LaunchSpec)
    ensures
        request_laws::launches(
            handshake::launch_arguments(spec),
            spec.program@,
            spec.args@,
            spec.cwd,
            spec.env@,
            spec.stop_on_entry,
        ),
{
    request_laws::lemma_launch_names();
    request_laws::lemma_environment(spec.env@);
}

/// The request of a launch asks for what is to be launched: the program with its arguments,
/// directory, environment and stop on entry, and nothing else.
pub proof fn law_launch_request_asks_for_the_spec(
    spec: LaunchSpec,
    launch: &LaunchHandshake,
    action: Action,
)
    requires
        is_launch_of(*launch, spec),
        launch.at() == LaunchPhase::Launch,
        call_ensures(LaunchHandshake::action, (launch,), action),
    ensures
        action matches Action::SendAsync(request) && request_laws::asks(request, "launch"@)
            && (request.arguments matches Some(arguments) && request_laws::launches(
            json::json_of(arguments),
            spec.program@,
            spec.args@,
            spec.cwd,
            spec.env@,
            spec.stop_on_entry,
        )),
{
    lemma_launch_arguments(spec);
}

/// A launch sets every breakpoint that it was given: those of each file, with its path, and those
/// on functions, all of them in one request.
pub proof fn law_launch_sets_its_breakpoints(
    spec: LaunchSpec,
    launch: &LaunchHandshake,
    action: Action,
)
    requires
        is_launch_of(*launch, spec),
        call_ensures(LaunchHandshake::action, (launch,), action),
    ensures
        launch.at() matches LaunchPhase::SourceBreakpoints(i) ==> {
            let file = spec.source_breakpoints@[i as int];
            &&& i < spec.source_breakpoints@.len()
            &&& action matches Action::Send(request) && request_laws::asks(
                request,
                "setBreakpoints"@,
            ) && (request_laws::said(request, "source"@) matches Some(source)
                && request_laws::under(source, "path"@) == Some(Json::Str(file.0@))) && (
            request_laws::said(request, "breakpoints"@) matches Some(list)
                && request_laws::lists_lines(list, file.1@))
        },
        launch.at() == LaunchPhase::FunctionBreakpoints ==> (action matches Action::Send(request)
            && request_laws::asks(request, "setFunctionBreakpoints"@) && (request_laws::said(
            request,
            "breakpoints"@,
        ) matches Some(list) && request_laws::lists_functions(list, spec.function_breakpoints@))),
{
    request_laws::lemma_names_differ();
    if let LaunchPhase::SourceBreakpoints(i) = launch.at() {
        let file = spec.source_breakpoints@[i as int];
        assert(launch.plan().source_breakpoints[i as int] == (file.0@, model::views(file.1@)));
    }
}

/// What a launch sends and waits for at the other phases.
pub proof fn law_launch_actions(
    launch: &LaunchHandshake,
    action: Action,
    initialize: Request,
    exceptions: Request,
    configured: Request,
)
    requires
        launch.wf(),
        call_ensures(LaunchHandshake::action, (launch,), action),
        call_ensures(requests::initialize, (), initialize),
        call_ensures(requests::set_exception_breakpoints, (), exceptions),
        call_ensures(requests::configuration_done, (), configured),
    ensures
        launch.at() == LaunchPhase::Initialize ==> (action matches Action::Send(sent)
            && same_request(sent, initialize)),
        launch.at() == LaunchPhase::AwaitInitialized ==> action is AwaitInitialized,
        launch.at() == LaunchPhase::ExceptionBreakpoints ==> (action matches Action::Send(sent)
            && same_request(sent, exceptions)),
        launch.at() == LaunchPhase::Register ==> action is RegisterStop,
        launch.at() == LaunchPhase::ConfigurationDone ==> (action matches Action::Send(sent)
            && same_request(sent, configured)),
        launch.at() == LaunchPhase::AwaitResponse ==> action is AwaitResponse,
        launch.at() == LaunchPhase::AwaitStop ==> action is AwaitStop,
{
}

/// Whether `action` sends a request for `command` whose response is waited for at once.
pub open spec fn sends_command(action: ActionView, command: Seq<char>) -> bool {
    match action {
        ActionView::Send(request) => request.command == command,
        _ => false,
    }
}

/// What `request` says under `key`.
pub open spec fn view_says(request: RequestView, key: Seq<char>) -> Option<Json> {
    match request.arguments {
        Some(arguments) => request_laws::under(arguments, key),
        None => None,
    }
}

/// The actions of a launch to which everything is granted, counted out: one request for each file
/// with breakpoints, in order and with its path; one for the functions if any function has one;
/// and all of them after the debugger is initialized and before the configuration ends.
pub proof fn law_launch_script_counts_out(spec: LaunchSpec)
    ensures
        ({
            let script = handshake_laws::launch_script(handshake::launch_plan(spec));
            let files = spec.source_breakpoints@.len() as int;
            let functions: int = if spec.function_breakpoints@.len() > 0 {
                1
            } else {
                0
            };
            let closing: int = if spec.stop_on_entry {
                4
            } else {
                2
            };
            let rest = 3 + files + functions;
            &&& script.len() == rest + 1 + closing
            &&& sends_command(script[0], "initialize"@)
            &&& script[1] matches ActionView::SendAsync(request) && request.command == "launch"@
            &&& script[2] == ActionView::AwaitInitialized
            &&& forall|i: int|
                #![trigger spec.source_breakpoints@[i]]
                0 <= i < files ==> (script[3 + i] matches ActionView::Send(request)
                    && request.command == "setBreakpoints"@ && (view_says(
                    request,
                    "source"@,
                ) matches Some(source) && request_laws::under(source, "path"@) == Some(
                    Json::Str(spec.source_breakpoints@[i].0@),
                )) && (view_says(request, "breakpoints"@) matches Some(list)
                    && request_laws::lists_lines(list, spec.source_breakpoints@[i].1@)))
            &&& functions == 1 ==> (script[3 + files] matches ActionView::Send(request)
                && request.command == "setFunctionBreakpoints"@ && (view_says(
                request,
                "breakpoints"@,
            ) matches Some(list) && request_laws::lists_functions(
                list,
                spec.function_breakpoints@,
            )))
            &&& sends_command(script[rest], "setExceptionBreakpoints"@)
            &&& spec.stop_on_entry ==> script[rest + 1] == ActionView::RegisterStop && script[rest
                + 4] == ActionView::AwaitStop
            &&& sends_command(script[rest + closing - 2 + if spec.stop_on_entry {
                0int
            } else {
                1int
            }], "configurationDone"@)
            &&& script[rest + closing - 1 + if spec.stop_on_entry {
                0int
            } else {
                1int
            }] == ActionView::AwaitResponse
        }),
{
    request_laws::lemma_names_differ();
    let plan = handshake::launch_plan(spec);
    let script = handshake_laws::launch_script(plan);
    let files = spec.source_breakpoints@.len() as int;
    assert(plan.source_breakpoints.len() == files);
    assert(plan.function_breakpoints.len() == spec.function_breakpoints@.len());
    assert forall|i: int|
        #![trigger spec.source_breakpoints@[i]]
        0 <= i < files implies (script[3 + i] matches ActionView::Send(request) && request.command
        == "setBreakpoints"@ && (view_says(request, "source"@) matches Some(source)
        && request_laws::under(source, "path"@) == Some(
        Json::Str(spec.source_breakpoints@[i].0@),
    )) && (view_says(request, "breakpoints"@) matches Some(list) && request_laws::lists_lines(
        list,
        spec.source_breakpoints@[i].1@,
    ))) by {
        let file = spec.source_breakpoints@[i];
        assert(plan.source_breakpoints[i] == (file.0@, model::views(file.1@)));
        assert(script[3 + i] == ActionView::Send(
            requests::set_breakpoints_request(file.0@, model::views(file.1@)),
        ));
    }
}

/// With a stop on entry, a launch returns the very outcome that the wait for the first stop
/// delivers: a stop with everything that is known of it, an exit with its code. One that ends
/// without a code, or whose connection is torn down, has exited.
pub proof fn law_launch_returns_what_the_wait_delivers(
    launch: &mut LaunchHandshake,
    outcome: Option<StopOutcome>,
    stderr: &str,
    result: Option<Result<LaunchOutcome, BackendError>>,
)
    requires
        old(launch).at() == LaunchPhase::AwaitStop,
        call_ensures(LaunchHandshake::step, (launch, Event::Stopped(outcome), stderr), result),
    ensures
        outcome matches Some(StopOutcome::Stopped(info)) ==> result == Some(
            Ok::<LaunchOutcome, BackendError>(LaunchOutcome::Stopped(info)),
        ),
        outcome matches Some(StopOutcome::Exited { code }) ==> result == Some(
            Ok::<LaunchOutcome, BackendError>(LaunchOutcome::Exited { code }),
        ),
        outcome == Some(StopOutcome::Terminated) || outcome is None ==> result == Some(
            Ok::<LaunchOutcome, BackendError>(LaunchOutcome::Exited { code: None }),
        ),
{
}

/// Whether `reply` is a response that grants what was asked for.
pub open spec fn grants(reply: PendingResult) -> bool {
    match reply {
        Ok(DapMessage::Response(response)) => response.success,
        _ => false,
    }
}

/// What a request whose response has to grant what was asked for comes to: it goes on exactly when
/// it is granted. An answer that did not come is said with its cause behind `said`, a refusal with
/// its text behind the name of the request, and any other message by its type.
pub open spec fn granted_or_fails<O>(
    op: Seq<char>,
    said: Seq<char>,
    reply: PendingResult,
    stderr: Seq<char>,
    result: Option<Result<O, BackendError>>,
) -> bool {
    &&& result is None <==> grants(reply)
    &&& reply matches Err(cause) ==> fails_with(result, said + cause@.text())
    &&& reply matches Ok(DapMessage::Response(response)) ==> !response.success ==> fails_with(
        result,
        op + " failed: "@ + backend::diagnostic_text(response.message@, stderr),
    )
    &&& reply matches Ok(message) ==> !(message is Response) ==> unexpected(
        result,
        op + ":"@ + backend::message_label(message),
    )
}

/// What a request whose response only has to come comes to: it goes on exactly when there is an
/// answer, whatever that says.
pub open spec fn answered_or_fails<O>(
    said: Seq<char>,
    reply: PendingResult,
    result: Option<Result<O, BackendError>>,
) -> bool {
    &&& result is None <==> reply is Ok
    &&& reply matches Err(cause) ==> fails_with(result, said + cause@.text())
}

/// What the breakpoints of `file` come to: a response to that very request that grants it.
pub open spec fn flushed_or_fails<O>(
    file: Seq<char>,
    reply: PendingResult,
    stderr: Seq<char>,
    result: Option<Result<O, BackendError>>,
) -> bool {
    let said = "setBreakpoints failed for "@ + file + ": "@;
    &&& result is None <==> grants(reply) && reply->Ok_0->Response_0.command@
        == "setBreakpoints"@
    &&& reply matches Err(cause) ==> fails_with(result, said + cause@.text())
    &&& reply matches Ok(DapMessage::Response(response)) ==> {
        &&& response.command@ == "setBreakpoints"@ && !response.success ==> fails_with(
            result,
            said + backend::diagnostic_text(response.message@, stderr),
        )
        &&& response.command@ != "setBreakpoints"@ ==> unexpected(
            result,
            "response:"@ + response.command@,
        )
    }
    &&& reply matches Ok(message) ==> !(message is Response) ==> unexpected(
        result,
        backend::message_label(message),
    )
}

/// A launch goes on from each request exactly when its answer allows it, and fails at once, saying
/// which request failed and why, when it does not.
pub proof fn law_launch_fails_at_the_first_refusal(
    spec: LaunchSpec,
    launch: &mut LaunchHandshake,
    reply: PendingResult,
    stderr: &str,
    result: Option<Result<LaunchOutcome, BackendError>>,
)
    requires
        is_launch_of(*old(launch), spec),
        call_ensures(LaunchHandshake::step, (launch, Event::Replied(reply), stderr), result),
    ensures
        old(launch).at() == LaunchPhase::Initialize ==> granted_or_fails(
            "initialize"@,
            "initialize request failed: "@,
            reply,
            stderr@,
            result,
        ),
        old(launch).at() matches LaunchPhase::SourceBreakpoints(i) ==> flushed_or_fails(
            spec.source_breakpoints@[i as int].0@,
            reply,
            stderr@,
            result,
        ),
        old(launch).at() == LaunchPhase::FunctionBreakpoints ==> granted_or_fails(
            "setFunctionBreakpoints"@,
            "setFunctionBreakpoints failed: "@,
            reply,
            stderr@,
            result,
        ),
        old(launch).at() == LaunchPhase::ExceptionBreakpoints ==> answered_or_fails(
            "setExceptionBreakpoints failed: "@,
            reply,
            result,
        ),
        old(launch).at() == LaunchPhase::ConfigurationDone ==> answered_or_fails(
            "configurationDone failed: "@,
            reply,
            result,
        ),
{
}

/// A launch whose own request could not be sent, or whose response does not grant it, fails and
/// says why. One that is granted is running, unless it waits for a stop.
pub proof fn law_launch_request_decides(
    spec: LaunchSpec,
    sending: &mut LaunchHandshake,
    waiting: &mut LaunchHandshake,
    sent: Result<(), BackendError>,
    deferred: Option<PendingResult>,
    stderr: &str,
    first: Option<Result<LaunchOutcome, BackendError>>,
    second: Option<Result<LaunchOutcome, BackendError>>,
)
    requires
        is_launch_of(*old(sending), spec),
        is_launch_of(*old(waiting), spec),
        old(sending).at() == LaunchPhase::Launch,
        old(waiting).at() == LaunchPhase::AwaitResponse,
        call_ensures(LaunchHandshake::step, (sending, Event::Sent(sent), stderr), first),
        call_ensures(LaunchHandshake::step, (waiting, Event::Deferred(deferred), stderr), second),
    ensures
        sent is Ok ==> first is None,
        sent matches Err(cause) ==> fails_with(first, "launch request failed: "@ + cause@.text()),
        deferred is None ==> second == Some(
            Err::<LaunchOutcome, BackendError>(BackendError::Closed),
        ),
        deferred matches Some(reply) ==> {
            &&& grants(reply) && spec.stop_on_entry ==> second is None
            &&& grants(reply) && !spec.stop_on_entry ==> second == Some(
                Ok::<LaunchOutcome, BackendError>(LaunchOutcome::Running),
            )
            &&& !grants(reply) ==> granted_or_fails(
                "launch"@,
                "launch request failed: "@,
                reply,
                stderr@,
                second,
            )
        },
{
    reveal_strlit("launch");
    reveal_strlit(" request failed: ");
    reveal_strlit("launch request failed: ");
    assert("launch"@ + " request failed: "@ =~= "launch request failed: "@);
}

/// Whether `attach` is an attach to `spec`.
pub open spec fn is_attach_to(attach: AttachHandshake, spec: AttachSpec) -> bool {
    exists|fresh: AttachHandshake| #[trigger]
        call_ensures(AttachHandshake::new, (spec,), fresh) && attach.arguments()
            == fresh.arguments()
}

/// An attach begins with the `initialize` request, and stays an attach to what it was begun with.
pub proof fn law_attach_stays_the_same_attach(
    spec: AttachSpec,
    fresh: AttachHandshake,
    attach: &mut AttachHandshake,
    event: Event,
    stderr: &str,
    result: Option<Result<AttachOutcome, BackendError>>,
)
    requires
        call_ensures(AttachHandshake::new, (spec,), fresh),
        is_attach_to(*old(attach), spec),
        call_ensures(AttachHandshake::step, (attach, event, stderr), result),
    ensures
        is_attach_to(fresh, spec),
        fresh.at() == AttachPhase::Initialize,
        is_attach_to(*final(attach), spec),
{
}

/// An attach goes on in the order of its phases, as long as there is no result, whatever came of
/// its actions.
pub proof fn law_attach_goes_on_in_order(
    attach: &mut AttachHandshake,
    event: Event,
    stderr: &str,
    result: Option<Result<AttachOutcome, BackendError>>,
)
    requires
        handshake::comes_of(
            event,
            handshake::attach_action(old(attach).arguments(), old(attach).at()),
        ),
        call_ensures(AttachHandshake::step, (attach, event, stderr), result),
    ensures
        old(attach).at() == AttachPhase::AwaitInitialized || old(attach).at()
            == AttachPhase::Register ==> result is None,
        result is None ==> {
            &&& old(attach).at() == AttachPhase::Initialize ==> final(attach).at()
                == AttachPhase::Attach
            &&& old(attach).at() == AttachPhase::Attach ==> final(attach).at()
                == AttachPhase::AwaitInitialized
            &&& old(attach).at() == AttachPhase::AwaitInitialized ==> final(attach).at()
                == AttachPhase::ExceptionBreakpoints
            &&& old(attach).at() == AttachPhase::ExceptionBreakpoints ==> final(attach).at()
                == AttachPhase::ConfigurationDone
            &&& old(attach).at() == AttachPhase::ConfigurationDone ==> final(attach).at()
                == AttachPhase::AwaitResponse
            &&& old(attach).at() == AttachPhase::AwaitResponse ==> final(attach).at()
                == AttachPhase::Register
            &&& old(attach).at() == AttachPhase::Register ==> final(attach).at()
                == AttachPhase::AwaitStop
            &&& old(attach).at() != AttachPhase::AwaitStop
        },
{
}

/// What an attach sends and waits for: its request is to the process that was named, by its id or
/// by its name.
pub proof fn law_attach_actions(
    spec: AttachSpec,
    attach: &AttachHandshake,
    action: Action,
    initialize: Request,
    exceptions: Request,
    configured: Request,
)
    requires
        is_attach_to(*attach, spec),
        call_ensures(AttachHandshake::action, (attach,), action),
        call_ensures(requests::initialize, (), initialize),
        call_ensures(requests::set_exception_breakpoints, (), exceptions),
        call_ensures(requests::configuration_done, (), configured),
    ensures
        attach.at() == AttachPhase::Initialize ==> (action matches Action::Send(sent)
            && same_request(sent, initialize)),
        attach.at() == AttachPhase::Attach ==> (action matches Action::SendAsync(request)
            && request_laws::asks(request, "attach"@) && (request.arguments matches Some(arguments)
            && request_laws::attaches(json::json_of(arguments), spec.pid, spec.wait_for))),
        attach.at() == AttachPhase::AwaitInitialized ==> action is AwaitInitialized,
        attach.at() == AttachPhase::ExceptionBreakpoints ==> (action matches Action::Send(sent)
            && same_request(sent, exceptions)),
        attach.at() == AttachPhase::ConfigurationDone ==> (action matches Action::Send(sent)
            && same_request(sent, configured)),
        attach.at() == AttachPhase::AwaitResponse ==> action is AwaitResponse,
        attach.at() == AttachPhase::Register ==> action is RegisterStop,
        attach.at() == AttachPhase::AwaitStop ==> action is AwaitStop,
{
    request_laws::lemma_attach_names();
}

/// An attach returns the very outcome that the wait for the stop delivers: a stop with everything
/// that is known of it, an exit with its code; a connection that is torn down is an end.
pub proof fn law_attach_returns_what_the_wait_delivers(
    attach: &mut AttachHandshake,
    outcome: Option<StopOutcome>,
    stderr: &str,
    result: Option<Result<AttachOutcome, BackendError>>,
)
    requires
        old(attach).at() == AttachPhase::AwaitStop,
        call_ensures(AttachHandshake::step, (attach, Event::Stopped(outcome), stderr), result),
    ensures
        outcome matches Some(StopOutcome::Stopped(info)) ==> result == Some(
            Ok::<AttachOutcome, BackendError>(AttachOutcome::Stopped(info)),
        ),
        outcome matches Some(StopOutcome::Exited { code }) ==> result == Some(
            Ok::<AttachOutcome, BackendError>(AttachOutcome::Exited { code }),
        ),
        outcome == Some(StopOutcome::Terminated) || outcome is None ==> result == Some(
            Ok::<AttachOutcome, BackendError>(AttachOutcome::Terminated),
        ),
{
}

/// An attach goes on from each request exactly when its answer allows it, and fails at once,
/// saying which request failed and why, when it does not.
pub proof fn law_attach_fails_at_the_first_refusal(
    attach: &mut AttachHandshake,
    reply: PendingResult,
    stderr: &str,
    result: Option<Result<AttachOutcome, BackendError>>,
)
    requires
        call_ensures(AttachHandshake::step, (attach, Event::Replied(reply), stderr), result),
    ensures
        old(attach).at() == AttachPhase::Initialize ==> granted_or_fails(
            "initialize"@,
            "initialize request failed: "@,
            reply,
            stderr@,
            result,
        ),
        old(attach).at() == AttachPhase::ExceptionBreakpoints ==> answered_or_fails(
            "setExceptionBreakpoints failed: "@,
            reply,
            result,
        ),
        old(attach).at() == AttachPhase::ConfigurationDone ==> answered_or_fails(
            "configurationDone failed: "@,
            reply,
            result,
        ),
{
}

/// An attach whose own request could not be sent, or whose response does not grant it, fails and
/// says why.
pub proof fn law_attach_request_decides(
    sending: &mut AttachHandshake,
    waiting: &mut AttachHandshake,
    sent: Result<(), BackendError>,
    deferred: Option<PendingResult>,
    stderr: &str,
    first: Option<Result<AttachOutcome, BackendError>>,
    second: Option<Result<AttachOutcome, BackendError>>,
)
    requires
        old(sending).at() == AttachPhase::Attach,
        old(waiting).at() == AttachPhase::AwaitResponse,
        call_ensures(AttachHandshake::step, (sending, Event::Sent(sent), stderr), first),
        call_ensures(AttachHandshake::step, (waiting, Event::Deferred(deferred), stderr), second),
    ensures
        sent is Ok ==> first is None,
        sent matches Err(cause) ==> fails_with(first, "attach request failed: "@ + cause@.text()),
        deferred is None ==> second == Some(
            Err::<AttachOutcome, BackendError>(BackendError::Closed),
        ),
        deferred matches Some(reply) ==> granted_or_fails(
            "attach"@,
            "attach request failed: "@,
            reply,
            stderr@,
            second,
        ),
{
    reveal_strlit("attach");
    reveal_strlit(" request failed: ");
    reveal_strlit("attach request failed: ");
    assert("attach"@ + " request failed: "@ =~= "attach request failed: "@);
}

/// The answer to the breakpoints of a file is in order exactly when it grants that very request.
pub proof fn law_flush_answer_is_checked(
    file: &str,
    reply: PendingResult,
    stderr: &str,
    err: Option<BackendError>,
)
    requires
        call_ensures(handshake::check_flush, (file, reply, stderr), err),
    ensures
        flushed_or_fails::<()>(
            file@,
            reply,
            stderr@,
            match err {
                Some(e) => Some(Err(e)),
                None => None,
            },
        ),
{
}

/// A response is taken exactly when it grants what was asked for, and as it came; a refusal names
/// what failed and says why; a message that is no response is named by its type.
pub proof fn law_only_granting_responses_are_taken(
    op: &str,
    failed_op: &str,
    message: DapMessage,
    stderr: &str,
    outcome: Result<Response, BackendError>,
)
    requires
        call_ensures(backend::check_response, (op, failed_op, message, stderr), outcome),
    ensures
        outcome is Ok <==> grants(Ok(message)),
        outcome matches Ok(response) ==> message == DapMessage::Response(response),
        message matches DapMessage::Response(response) ==> !response.success ==> fails_with(
            Some(outcome),
            failed_op@ + " failed: "@ + backend::diagnostic_text(response.message@, stderr@),
        ),
        !(message is Response) ==> unexpected(
            Some(outcome),
            op@ + ":"@ + backend::message_label(message),
        ),
{
}

/// A reply is taken like the message that it is; one that did not come is said with its cause.
pub proof fn law_replies_are_checked(
    op: &str,
    reply: PendingResult,
    stderr: &str,
    outcome: Result<Response, BackendError>,
)
    requires
        call_ensures(backend::send_checked, (op, reply, stderr), outcome),
    ensures
        outcome is Ok <==> grants(reply),
        outcome matches Ok(response) ==> reply == Ok::<DapMessage, BackendError>(
            DapMessage::Response(response),
        ),
        reply matches Err(cause) ==> fails_with(
            Some(outcome),
            op@ + " request failed: "@ + cause@.text(),
        ),
        reply matches Ok(DapMessage::Response(response)) ==> !response.success ==> fails_with(
            Some(outcome),
            op@ + " failed: "@ + backend::diagnostic_text(response.message@, stderr@),
        ),
        reply matches Ok(message) ==> !(message is Response) ==> unexpected(
            Some(outcome),
            op@ + ":"@ + backend::message_label(message),
        ),
{
}

/// A refusal is told in the debugger's own words if it has any, else by what it wrote to its error
/// stream, without the white space around it, else by a text that says that there were none.
pub proof fn law_refusals_are_told_in_the_best_words(message: &str, stderr: &str, said: String)
    requires
        call_ensures(backend::diagnostic, (message, stderr), said),
    ensures
        message@.len() > 0 ==> said@ == message@,
        message@.len() == 0 && crate::text::trimmed(stderr@).len() > 0 ==> said@
            == crate::text::trimmed(stderr@),
        message@.len() == 0 && crate::text::trimmed(stderr@).len() == 0 ==> said@
            == "no error message provided by lldb-dap"@,
{
}

/// A message is named by what it is: a response by its command, a known event as such, and any
/// other by its event, else by its type and command, else by its type.
pub proof fn law_messages_are_named_by_what_they_are(
    message: &DapMessage,
    label: String,
    response: &Response,
    response_label: String,
)
    requires
        call_ensures(backend::message_type_label, (message,), label),
        call_ensures(backend::response_type_label, (response,), response_label),
    ensures
        response_label@ == "response:"@ + response.command@,
        *message matches DapMessage::Response(r) ==> label@ == "response:"@ + r.command@,
        *message is Event ==> label@ == "event"@,
        *message matches DapMessage::Other(envelope) ==> {
            &&& envelope.event matches Some(event) ==> label@ == "event:"@ + event@
            &&& envelope.event is None && envelope.command is Some ==> label@ == envelope.ty@
                + ":"@ + envelope.command->0@
            &&& envelope.event is None && envelope.command is None ==> label@ == envelope.ty@
        },
{
}

} // verus!
