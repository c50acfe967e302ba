//! What holds of launching, attaching and resuming as a whole.

use vstd::prelude::*;

use crate::handshake;
use crate::handshake::{
    ActionView, AttachPhase, Event, LaunchPhase, LaunchPlan, NextView, ResumePhase,
};
use crate::requests;
use crate::types::{AttachOutcome, LaunchOutcome, LaunchSpec, StopOutcome};
use crate::wire;
use crate::wire::{DapMessage, RequestView};

verus! {

/// Whether `event` is what a debugger that grants everything makes of `action`.
pub open spec fn granted(event: Event, action: ActionView) -> bool {
    match (action, event) {
        (
            ActionView::Send(request),
            Event::Replied(Ok(DapMessage::Response(response))),
        ) => response.success && response.command@ == request.command,
        (ActionView::SendAsync(_), Event::Sent(Ok(_))) => true,
        (ActionView::AwaitInitialized, Event::Initialized) => true,
        (ActionView::RegisterStop, Event::Registered) => true,
        (
            ActionView::AwaitResponse,
            Event::Deferred(Some(Ok(DapMessage::Response(response)))),
        ) => response.success,
        (ActionView::AwaitStop, Event::Stopped(_)) => true,
        _ => false,
    }
}

/// How a launch or attach opens: the `initialize` request, then the request itself, and then the
/// wait for the debugger to be initialized.
pub open spec fn opening(request: RequestView) -> Seq<ActionView> {
    seq![
        ActionView::Send(wire::request_view("initialize"@, Some(requests::initialize_arguments()))),
        ActionView::SendAsync(request),
        ActionView::AwaitInitialized,
    ]
}

/// Setting the breakpoints of the files from `i` on, then those on functions if there are any.
pub open spec fn flush_script(plan: LaunchPlan, i: int) -> Seq<ActionView> {
    Seq::new(
        (plan.source_breakpoints.len() - i) as nat,
        |k: int|
            ActionView::Send(
                requests::set_breakpoints_request(
                    plan.source_breakpoints[i + k].0,
                    plan.source_breakpoints[i + k].1,
                ),
            ),
    ) + (if plan.function_breakpoints.len() > 0 {
        seq![
            ActionView::Send(
                requests::set_function_breakpoints_request(plan.function_breakpoints),
            ),
        ]
    } else {
        Seq::empty()
    })
}

/// What ends the configuration of a launch, and follows it.
pub open spec fn launch_closing(plan: LaunchPlan) -> Seq<ActionView> {
    let configured = seq![
        ActionView::Send(handshake::configuration_request()),
        ActionView::AwaitResponse,
    ];
    if plan.stop_on_entry {
        seq![ActionView::RegisterStop] + configured + seq![ActionView::AwaitStop]
    } else {
        configured
    }
}

/// All the actions of a launch to which everything is granted, in order.
pub open spec fn launch_script(plan: LaunchPlan) -> Seq<ActionView> {
    opening(wire::request_view("launch"@, Some(plan.arguments))) + flush_script(plan, 0) + seq![
        ActionView::Send(handshake::exception_request()),
    ] + launch_closing(plan)
}

/// The actions that a launch actually takes, when `events` come of them one after the other; with
/// each event goes what the debugger's error stream holds.
pub open spec fn launch_trace(
    plan: LaunchPlan,
    phase: LaunchPhase,
    events: Seq<(Event, Seq<char>)>,
) -> Seq<ActionView>
    decreases events.len(),
{
    let action = handshake::launch_action(plan, phase);
    if events.len() == 0 {
        seq![action]
    } else {
        match handshake::launch_next(plan, phase, events[0].0, events[0].1) {
            NextView::Go(later) => seq![action] + launch_trace(plan, later, events.drop_first()),
            NextView::Done(_) => seq![action],
        }
    }
}

/// What the launch comes to.
pub open spec fn launch_result(
    plan: LaunchPlan,
    phase: LaunchPhase,
    events: Seq<(Event, Seq<char>)>,
) -> Option<Result<LaunchOutcome, crate::error::BackendErrorView>>
    decreases events.len(),
{
    if events.len() == 0 {
        None
    } else {
        match handshake::launch_next(plan, phase, events[0].0, events[0].1) {
            NextView::Go(later) => launch_result(plan, later, events.drop_first()),
            NextView::Done(result) => Some(result),
        }
    }
}

/// The script from `phase` on.
pub open spec fn launch_script_from(plan: LaunchPlan, phase: LaunchPhase) -> Seq<ActionView> {
    let exceptions = seq![ActionView::Send(handshake::exception_request())];
    let rest = exceptions + launch_closing(plan);
    match phase {
        LaunchPhase::Initialize => launch_script(plan),
        LaunchPhase::Launch => launch_script(plan).skip(1),
        LaunchPhase::AwaitInitialized => launch_script(plan).skip(2),
        LaunchPhase::SourceBreakpoints(i) => flush_script(plan, i as int) + rest,
        LaunchPhase::FunctionBreakpoints => flush_script(
            plan,
            plan.source_breakpoints.len() as int,
        ) + rest,
        LaunchPhase::ExceptionBreakpoints => rest,
        LaunchPhase::Register => launch_closing(plan),
        LaunchPhase::ConfigurationDone => if plan.stop_on_entry {
            launch_closing(plan).skip(1)
        } else {
            launch_closing(plan)
        },
        LaunchPhase::AwaitResponse => if plan.stop_on_entry {
            launch_closing(plan).skip(2)
        } else {
            launch_closing(plan).skip(1)
        },
        LaunchPhase::AwaitStop => launch_closing(plan).skip(3),
    }
}

/// Whether a launch can get to `phase`.
pub open spec fn launch_reaches(plan: LaunchPlan, phase: LaunchPhase) -> bool {
    match phase {
        LaunchPhase::SourceBreakpoints(i) => i < plan.source_breakpoints.len(),
        LaunchPhase::FunctionBreakpoints => plan.function_breakpoints.len() > 0,
        LaunchPhase::Register => plan.stop_on_entry,
        LaunchPhase::AwaitStop => plan.stop_on_entry,
        _ => true,
    }
}

proof fn lemma_flush_phase(plan: LaunchPlan, i: int)
    requires
        0 <= i <= plan.source_breakpoints.len() <= usize::MAX,
    ensures
        launch_reaches(plan, handshake::flush_phase(plan, i)),
        launch_script_from(plan, handshake::flush_phase(plan, i)) == flush_script(plan, i) + (seq![
            ActionView::Send(handshake::exception_request()),
        ] + launch_closing(plan)),
{
    if i == plan.source_breakpoints.len() {
        if plan.function_breakpoints.len() == 0 {
            assert(flush_script(plan, i) =~= Seq::<ActionView>::empty());
            let rest = seq![ActionView::Send(handshake::exception_request())] + launch_closing(
                plan,
            );
            assert(flush_script(plan, i) + rest =~= rest);
        }
    }
}

proof fn lemma_launch_step(
    plan: LaunchPlan,
    phase: LaunchPhase,
    event: Event,
    stderr: Seq<char>,
)
    requires
        plan.source_breakpoints.len() <= usize::MAX,
        launch_reaches(plan, phase),
        granted(event, handshake::launch_action(plan, phase)),
    ensures
        match handshake::launch_next(plan, phase, event, stderr) {
            NextView::Go(later) => launch_reaches(plan, later) && launch_script_from(plan, phase)
                == seq![handshake::launch_action(plan, phase)] + launch_script_from(plan, later),
            NextView::Done(result) => result is Ok && launch_script_from(plan, phase)
                == seq![handshake::launch_action(plan, phase)] && (plan.stop_on_entry
                ==> phase is AwaitStop) && (!plan.stop_on_entry ==> result == Ok::<
                LaunchOutcome,
                crate::error::BackendErrorView,
            >(LaunchOutcome::Running)),
        },
{
    let action = handshake::launch_action(plan, phase);
    let rest = seq![ActionView::Send(handshake::exception_request())] + launch_closing(plan);
    match phase {
        LaunchPhase::Initialize => {
            assert(launch_script(plan) =~= seq![action] + launch_script(plan).skip(1));
        },
        LaunchPhase::Launch => {
            assert(launch_script(plan).skip(1) =~= seq![action] + launch_script(plan).skip(2));
        },
        LaunchPhase::AwaitInitialized => {
            lemma_flush_phase(plan, 0);
            assert(launch_script(plan).skip(2) =~= seq![action] + (flush_script(plan, 0) + rest));
        },
        LaunchPhase::SourceBreakpoints(i) => {
            lemma_flush_phase(plan, i + 1);
            assert(flush_script(plan, i as int) =~= seq![action] + flush_script(plan, i + 1));
            assert(flush_script(plan, i as int) + rest =~= seq![action] + (flush_script(plan, i + 1)
                + rest));
        },
        LaunchPhase::FunctionBreakpoints => {
            let n = plan.source_breakpoints.len() as int;
            assert(flush_script(plan, n) =~= seq![action]);
        },
        LaunchPhase::ExceptionBreakpoints => {},
        LaunchPhase::Register => {
            assert(launch_closing(plan) =~= seq![action] + launch_closing(plan).skip(1));
        },
        LaunchPhase::ConfigurationDone => {
            assert(launch_script_from(plan, phase) =~= seq![action] + launch_script_from(
                plan,
                LaunchPhase::AwaitResponse,
            ));
        },
        LaunchPhase::AwaitResponse => {
            if plan.stop_on_entry {
                assert(launch_script_from(plan, phase) =~= seq![action] + launch_script_from(
                    plan,
                    LaunchPhase::AwaitStop,
                ));
            } else {
                assert(launch_script_from(plan, phase) =~= seq![action]);
            }
        },
        LaunchPhase::AwaitStop => {
            assert(launch_script_from(plan, phase) =~= seq![action]);
        },
    }
}

proof fn lemma_launch_follows_script(
    plan: LaunchPlan,
    phase: LaunchPhase,
    events: Seq<(Event, Seq<char>)>,
)
    requires
        plan.source_breakpoints.len() <= usize::MAX,
        launch_reaches(plan, phase),
        events.len() == launch_script_from(plan, phase).len(),
        forall|i: int|
            0 <= i < events.len() ==> granted(
                (#[trigger] events[i]).0,
                launch_script_from(plan, phase)[i],
            ),
    ensures
        launch_trace(plan, phase, events) == launch_script_from(plan, phase),
        launch_result(plan, phase, events) matches Some(Ok(outcome)) && (!plan.stop_on_entry
            ==> outcome == LaunchOutcome::Running) && (plan.stop_on_entry ==> (
        events.last().0 matches Event::Stopped(stop) && outcome == handshake::launch_outcome(stop))),
    decreases events.len(),
{
    let script = launch_script_from(plan, phase);
    let action = handshake::launch_action(plan, phase);
    assert(script.len() > 0 && script[0] == action) by {
        lemma_launch_script_starts(plan, phase);
    }
    assert(granted(events[0].0, action));
    lemma_launch_step(plan, phase, events[0].0, events[0].1);
    match handshake::launch_next(plan, phase, events[0].0, events[0].1) {
        NextView::Go(later) => {
            let rest = events.drop_first();
            let later_script = launch_script_from(plan, later);
            assert(script =~= seq![action] + later_script);
            assert forall|i: int| 0 <= i < rest.len() implies granted(
                (#[trigger] rest[i]).0,
                later_script[i],
            ) by {
                assert(rest[i] == events[i + 1]);
                assert(script[i + 1] == later_script[i]);
            }
            lemma_launch_follows_script(plan, later, rest);
            assert(rest.len() > 0);
            assert(rest.last() == events.last());
        },
        NextView::Done(_) => {},
    }
}

proof fn lemma_launch_script_starts(plan: LaunchPlan, phase: LaunchPhase)
    requires
        launch_reaches(plan, phase),
    ensures
        launch_script_from(plan, phase).len() > 0,
        launch_script_from(plan, phase)[0] == handshake::launch_action(plan, phase),
{
}

/// A launch to which everything is granted takes exactly the actions of the script, in order: the
/// breakpoints are set before the configuration ends, and the response to the launch request is
/// waited for only afterwards. It succeeds; with a stop on entry its result is the stop that was
/// waited for, without one that the debuggee runs.
pub proof fn law_granted_launch_follows_the_script(
    spec: LaunchSpec,
    events: Seq<(Event, Seq<char>)>,
)
    requires
        events.len() == launch_script(handshake::launch_plan(spec)).len(),
        forall|i: int|
            0 <= i < events.len() ==> granted(
                (#[trigger] events[i]).0,
                launch_script(handshake::launch_plan(spec))[i],
            ),
    ensures
        launch_trace(handshake::launch_plan(spec), LaunchPhase::Initialize, events)
            == launch_script(handshake::launch_plan(spec)),
        launch_result(
            handshake::launch_plan(spec),
            LaunchPhase::Initialize,
            events,
        ) matches Some(Ok(outcome)) && (!spec.stop_on_entry ==> outcome == LaunchOutcome::Running)
            && (spec.stop_on_entry ==> (events.last().0 matches Event::Stopped(stop) && outcome
            == handshake::launch_outcome(stop))),
{
    assert(spec.source_breakpoints@.len() == spec.source_breakpoints.len());
    lemma_launch_follows_script(handshake::launch_plan(spec), LaunchPhase::Initialize, events);
}

/// A launch with a stop on entry registers for the stop right before it ends the configuration,
/// so that a stop which follows at once is not missed; one without never registers.
pub proof fn law_launch_registers_before_configuration_ends(plan: LaunchPlan)
    ensures
        plan.stop_on_entry ==> ({
            let script = launch_script(plan);
            let n = script.len();
            &&& n >= 4
            &&& script[n - 4] == ActionView::RegisterStop
            &&& script[n - 3] == ActionView::Send(handshake::configuration_request())
            &&& script[n - 2] == ActionView::AwaitResponse
            &&& script[n - 1] == ActionView::AwaitStop
        }),
        !plan.stop_on_entry ==> !launch_script(plan).contains(ActionView::RegisterStop),
{
}

/// How many actions a launch at `phase` can still take.
pub open spec fn launch_actions_left(plan: LaunchPlan, phase: LaunchPhase) -> int {
    let files = plan.source_breakpoints.len() as int;
    match phase {
        LaunchPhase::Initialize => 9 + files,
        LaunchPhase::Launch => 8 + files,
        LaunchPhase::AwaitInitialized => 7 + files,
        LaunchPhase::SourceBreakpoints(i) => 6 + files - i,
        LaunchPhase::FunctionBreakpoints => 6,
        LaunchPhase::ExceptionBreakpoints => 5,
        LaunchPhase::Register => 4,
        LaunchPhase::ConfigurationDone => 3,
        LaunchPhase::AwaitResponse => 2,
        LaunchPhase::AwaitStop => 1,
    }
}

/// Whatever comes of an action, there is a result, or fewer actions are left to take.
pub proof fn lemma_launch_ends(
    plan: LaunchPlan,
    phase: LaunchPhase,
    event: Event,
    stderr: Seq<char>,
)
    requires
        plan.source_breakpoints.len() <= usize::MAX,
        launch_reaches(plan, phase),
        handshake::comes_of(event, handshake::launch_action(plan, phase)),
    ensures
        launch_actions_left(plan, phase) > 0,
        handshake::launch_next(plan, phase, event, stderr) matches NextView::Go(later)
            ==> launch_reaches(plan, later) && launch_actions_left(plan, later)
            < launch_actions_left(plan, phase),
{
    match phase {
        LaunchPhase::AwaitInitialized => lemma_flush_phase(plan, 0),
        LaunchPhase::SourceBreakpoints(i) => lemma_flush_phase(plan, i + 1),
        _ => {},
    }
}

/// Every launch comes to an end: whatever comes of an action, there is a result, or fewer actions
/// are left to take.
pub proof fn law_launch_ends(
    spec: LaunchSpec,
    phase: LaunchPhase,
    event: Event,
    stderr: Seq<char>,
)
    requires
        launch_reaches(handshake::launch_plan(spec), phase),
        handshake::comes_of(
            event,
            handshake::launch_action(handshake::launch_plan(spec), phase),
        ),
    ensures
        ({
            let plan = handshake::launch_plan(spec);
            &&& launch_actions_left(plan, phase) > 0
            &&& handshake::launch_next(plan, phase, event, stderr) matches NextView::Go(later)
                ==> launch_reaches(plan, later) && launch_actions_left(plan, later)
                < launch_actions_left(plan, phase)
        }),
{
    assert(spec.source_breakpoints@.len() == spec.source_breakpoints.len());
    lemma_launch_ends(handshake::launch_plan(spec), phase, event, stderr);
}

/// All the actions of an attach to which everything is granted, in order.
pub open spec fn attach_script(arguments: crate::json::Json) -> Seq<ActionView> {
    opening(wire::request_view("attach"@, Some(arguments))) + seq![
        ActionView::Send(handshake::exception_request()),
        ActionView::Send(handshake::configuration_request()),
        ActionView::AwaitResponse,
        ActionView::RegisterStop,
        ActionView::AwaitStop,
    ]
}

/// The index in the script of an attach's phase.
pub open spec fn attach_index(phase: AttachPhase) -> int {
    match phase {
        AttachPhase::Initialize => 0,
        AttachPhase::Attach => 1,
        AttachPhase::AwaitInitialized => 2,
        AttachPhase::ExceptionBreakpoints => 3,
        AttachPhase::ConfigurationDone => 4,
        AttachPhase::AwaitResponse => 5,
        AttachPhase::Register => 6,
        AttachPhase::AwaitStop => 7,
    }
}

/// The actions that an attach actually takes, when `events` come of them one after the other.
pub open spec fn attach_trace(
    arguments: crate::json::Json,
    phase: AttachPhase,
    events: Seq<(Event, Seq<char>)>,
) -> Seq<ActionView>
    decreases events.len(),
{
    let action = handshake::attach_action(arguments, phase);
    if events.len() == 0 {
        seq![action]
    } else {
        match handshake::attach_next(phase, events[0].0, events[0].1) {
            NextView::Go(later) => seq![action] + attach_trace(
                arguments,
                later,
                events.drop_first(),
            ),
            NextView::Done(_) => seq![action],
        }
    }
}

/// What the attach comes to.
pub open spec fn attach_result(phase: AttachPhase, events: Seq<(Event, Seq<char>)>) -> Option<
    Result<AttachOutcome, crate::error::BackendErrorView>,
>
    decreases events.len(),
{
    if events.len() == 0 {
        None
    } else {
        match handshake::attach_next(phase, events[0].0, events[0].1) {
            NextView::Go(later) => attach_result(later, events.drop_first()),
            NextView::Done(result) => Some(result),
        }
    }
}

proof fn lemma_attach_follows_script(
    arguments: crate::json::Json,
    phase: AttachPhase,
    events: Seq<(Event, Seq<char>)>,
)
    requires
        events.len() == 8 - attach_index(phase),
        forall|i: int|
            0 <= i < events.len() ==> granted(
                (#[trigger] events[i]).0,
                attach_script(arguments)[attach_index(phase) + i],
            ),
    ensures
        attach_trace(arguments, phase, events) == attach_script(arguments).skip(
            attach_index(phase),
        ),
        attach_result(phase, events) matches Some(Ok(outcome)) && (
        events.last().0 matches Event::Stopped(stop) && outcome == handshake::attach_outcome(stop)),
    decreases events.len(),
{
    let script = attach_script(arguments);
    let k = attach_index(phase);
    let action = handshake::attach_action(arguments, phase);
    assert(script[k] == action);
    assert(granted(events[0].0, script[k]));
    match handshake::attach_next(phase, events[0].0, events[0].1) {
        NextView::Go(later) => {
            assert(attach_index(later) == k + 1);
            let rest = events.drop_first();
            assert forall|i: int| 0 <= i < rest.len() implies granted(
                (#[trigger] rest[i]).0,
                script[k + 1 + i],
            ) by {
                assert(rest[i] == events[i + 1]);
            }
            lemma_attach_follows_script(arguments, later, rest);
            assert(script.skip(k) =~= seq![action] + script.skip(k + 1));
            assert(rest.last() == events.last());
        },
        NextView::Done(_) => {
            assert(script.skip(k) =~= seq![action]);
        },
    }
}

/// An attach to which everything is granted takes exactly the actions of the script, in order: it
/// sets no breakpoints, and it registers for the stop only after the configuration ended and the
/// response came. It succeeds with the stop that was waited for.
pub proof fn law_granted_attach_follows_the_script(
    arguments: crate::json::Json,
    events: Seq<(Event, Seq<char>)>,
)
    requires
        events.len() == attach_script(arguments).len(),
        forall|i: int|
            0 <= i < events.len() ==> granted(
                (#[trigger] events[i]).0,
                attach_script(arguments)[i],
            ),
    ensures
        attach_trace(arguments, AttachPhase::Initialize, events) == attach_script(arguments),
        attach_result(AttachPhase::Initialize, events) matches Some(Ok(outcome)) && (
        events.last().0 matches Event::Stopped(stop) && outcome == handshake::attach_outcome(stop)),
{
    let script = attach_script(arguments);
    assert(script.len() == 8);
    assert forall|i: int| 0 <= i < events.len() implies granted(
        (#[trigger] events[i]).0,
        script[0 + i],
    ) by {}
    lemma_attach_follows_script(arguments, AttachPhase::Initialize, events);
    assert(script.skip(0) =~= script);
}

/// Every attach comes to an end: whatever comes of an action, there is a result, or the attach is
/// further along in its script.
pub proof fn law_attach_ends(
    arguments: crate::json::Json,
    phase: AttachPhase,
    event: Event,
    stderr: Seq<char>,
)
    requires
        handshake::comes_of(event, handshake::attach_action(arguments, phase)),
    ensures
        attach_index(phase) < attach_script(arguments).len(),
        handshake::attach_next(phase, event, stderr) matches NextView::Go(later) ==> attach_index(
            later,
        ) == attach_index(phase) + 1,
{
}

/// An attach never sets the breakpoints of a file or of functions.
pub proof fn law_attach_sets_no_breakpoints(
    arguments: crate::json::Json,
    phase: AttachPhase,
    request: RequestView,
)
    requires
        handshake::attach_action(arguments, phase) == ActionView::Send(request)
            || handshake::attach_action(arguments, phase) == ActionView::SendAsync(request),
    ensures
        request.command != "setBreakpoints"@,
        request.command != "setFunctionBreakpoints"@,
{
    reveal_strlit("setBreakpoints");
    reveal_strlit("setFunctionBreakpoints");
    reveal_strlit("initialize");
    reveal_strlit("attach");
    reveal_strlit("setExceptionBreakpoints");
    reveal_strlit("configurationDone");
    assert("setBreakpoints"@.len() == 14 && "setFunctionBreakpoints"@.len() == 22);
    assert("initialize"@.len() == 10 && "attach"@.len() == 6 && "setExceptionBreakpoints"@.len()
        == 23 && "configurationDone"@.len() == 17);
}

/// A resume registers for the next stop before it sends its request, so that no stop is missed;
/// and it waits for the stop only once the response came.
pub proof fn law_resume_registers_before_it_sends(request: RequestView, first: Event, second: Event)
    requires
        handshake::comes_of(first, handshake::resume_action(request, ResumePhase::Register)),
        granted(second, handshake::resume_action(request, ResumePhase::Send)),
    ensures
        handshake::resume_action(request, ResumePhase::Register) == ActionView::RegisterStop,
        handshake::resume_next(ResumePhase::Register, first) == NextView::<
            ResumePhase,
            StopOutcome,
        >::Go(ResumePhase::Send),
        handshake::resume_action(request, ResumePhase::Send) == ActionView::Send(request),
        handshake::resume_next(ResumePhase::Send, second) == NextView::<
            ResumePhase,
            StopOutcome,
        >::Go(ResumePhase::AwaitStop),
{
}

} // verus!
