//! What holds of a launch over a connection, in whatever order the debugger's messages arrive.

use vstd::prelude::*;

use crate::error::BackendErrorView;
use crate::exchange;
use crate::exchange::{Exchange, Peer, Run, Step};
use crate::handshake;
use crate::handshake::{ActionView, Event as Came, LaunchPhase, LaunchPlan, NextView};
use crate::handshake_laws;
use crate::read_loop_laws;
use crate::stop_waiter;
use crate::types::{LaunchOutcome, LaunchOutcomeView, LaunchSpec, StopOutcomeView};
use crate::wire::{DapMessage, Event, Response};

verus! {

/// Whether the request that ends the configuration was sent.
pub open spec fn configuration_sent(x: Exchange<LaunchPhase, LaunchOutcome>) -> bool {
    match x.phase {
        LaunchPhase::ConfigurationDone => x.begun,
        LaunchPhase::AwaitResponse => true,
        LaunchPhase::AwaitStop => true,
        _ => false,
    }
}

/// Whether `peer` may say `message` when the exchange is at `x`: it responds to requests that were
/// sent, and lets the debuggee stop once the configuration ended. Everything else it may say at
/// any time.
pub open spec fn may_say(
    peer: Peer<LaunchPhase>,
    x: Exchange<LaunchPhase, LaunchOutcome>,
    message: DapMessage,
) -> bool {
    match message {
        DapMessage::Response(response) => exchange::may_respond(peer, x, response),
        DapMessage::Event(event) => read_loop_laws::resolves_stop(event) ==> event == peer.stop
            && configuration_sent(x),
        DapMessage::Other(_) => true,
    }
}

/// Whether `step` leads from `before` to `after`.
pub open spec fn goes(
    plan: LaunchPlan,
    peer: Peer<LaunchPhase>,
    before: Exchange<LaunchPhase, LaunchOutcome>,
    step: Step,
    after: Exchange<LaunchPhase, LaunchOutcome>,
) -> bool {
    let action = handshake::launch_action(plan, before.phase);
    match step {
        Step::Begin => exchange::begins(action, before, after),
        Step::Arrive(message) => may_say(peer, before, message) && after == exchange::arrived(
            before,
            message,
        ),
        Step::Finish(came, stderr) => stderr == (peer.stderr)(before.phase) && exchange::finishes(
            action,
            before,
            came,
            handshake::launch_next(plan, before.phase, came, stderr),
            after,
        ),
    }
}

/// Whether `run` is a run of the launch of `plan` with `peer`.
pub open spec fn is_run(
    plan: LaunchPlan,
    peer: Peer<LaunchPhase>,
    run: Run<LaunchPhase, LaunchOutcome>,
) -> bool {
    &&& run.states.len() == run.steps.len() + 1
    &&& run.states[0] == exchange::start::<LaunchPhase, LaunchOutcome>(LaunchPhase::Initialize)
    &&& forall|i: int|
        0 <= i < run.steps.len() ==> goes(
            plan,
            peer,
            run.states[i],
            #[trigger] run.steps[i],
            run.states[i + 1],
        )
}

/// The result of a launch that was handed `outcome`.
pub open spec fn launched(outcome: StopOutcomeView) -> LaunchOutcomeView {
    match outcome {
        StopOutcomeView::Stopped(info) => LaunchOutcomeView::Stopped(info),
        StopOutcomeView::Exited { code } => LaunchOutcomeView::Exited { code },
        StopOutcomeView::Terminated => LaunchOutcomeView::Exited { code: None },
    }
}

/// What the result of a launch says.
pub open spec fn result_view(result: Result<LaunchOutcome, BackendErrorView>) -> Result<
    LaunchOutcomeView,
    BackendErrorView,
> {
    match result {
        Ok(outcome) => Ok(outcome@),
        Err(err) => Err(err),
    }
}

/// What becomes of a launch at `phase` by what comes of its action, when `seq` requests were sent
/// before and the launch request has the number `launch_seq`.
pub open spec fn next(
    plan: LaunchPlan,
    peer: Peer<LaunchPhase>,
    phase: LaunchPhase,
    seq: int,
    launch_seq: int,
) -> NextView<LaunchPhase, LaunchOutcome> {
    let action = handshake::launch_action(plan, phase);
    handshake::launch_next(
        plan,
        phase,
        exchange::comes(action, peer, seq, launch_seq),
        (peer.stderr)(phase),
    )
}

/// What the launch of `plan` with `peer` comes to from `phase` on, when `seq` requests were sent
/// before and the launch request has the number `launch_seq`: it is said by the responses and the
/// stop alone.
pub open spec fn verdict(
    plan: LaunchPlan,
    peer: Peer<LaunchPhase>,
    phase: LaunchPhase,
    seq: int,
    launch_seq: int,
) -> Result<LaunchOutcomeView, BackendErrorView>
    decreases handshake_laws::launch_actions_left(plan, phase),
    when plan.source_breakpoints.len() <= usize::MAX && handshake_laws::launch_reaches(plan, phase)
{
    let action = handshake::launch_action(plan, phase);
    if phase is AwaitStop {
        Ok(launched(exchange::stop_of(peer.stop)))
    } else {
        proof {
            lemma_next(plan, peer, phase, seq, launch_seq);
        }
        match next(plan, peer, phase, seq, launch_seq) {
            NextView::Done(result) => result_view(result),
            NextView::Go(later) => verdict(
                plan,
                peer,
                later,
                exchange::seq_after(action, seq),
                exchange::deferred_after(action, seq, launch_seq),
            ),
        }
    }
}

/// A launch that is handed what comes of its action gets closer to its end.
pub proof fn lemma_next(
    plan: LaunchPlan,
    peer: Peer<LaunchPhase>,
    phase: LaunchPhase,
    seq: int,
    launch_seq: int,
)
    requires
        plan.source_breakpoints.len() <= usize::MAX,
        handshake_laws::launch_reaches(plan, phase),
    ensures
        next(plan, peer, phase, seq, launch_seq) matches NextView::Go(later)
            ==> handshake_laws::launch_reaches(plan, later) && handshake_laws::launch_actions_left(
            plan,
            later,
        ) < handshake_laws::launch_actions_left(plan, phase),
        handshake_laws::launch_actions_left(plan, phase) > 0,
{
    let action = handshake::launch_action(plan, phase);
    handshake_laws::lemma_launch_ends(
        plan,
        phase,
        exchange::comes(action, peer, seq, launch_seq),
        (peer.stderr)(phase),
    );
}

/// Whether the launch request was sent.
spec fn launch_sent(x: Exchange<LaunchPhase, LaunchOutcome>) -> bool {
    match x.phase {
        LaunchPhase::Initialize => false,
        LaunchPhase::Launch => x.begun,
        _ => true,
    }
}

/// Whether the launch registered for the stop.
spec fn registered(x: Exchange<LaunchPhase, LaunchOutcome>) -> bool {
    (x.phase is Register && x.begun) || x.phase is ConfigurationDone || x.phase is AwaitResponse
        || x.phase is AwaitStop
}

/// What holds of every exchange that a run gets to.
spec fn sound(
    plan: LaunchPlan,
    peer: Peer<LaunchPhase>,
    x: Exchange<LaunchPhase, LaunchOutcome>,
) -> bool {
    let whole = verdict(plan, peer, LaunchPhase::Initialize, 0, 0);
    let action = handshake::launch_action(plan, x.phase);
    &&& handshake_laws::launch_reaches(plan, x.phase)
    &&& exchange::numbers_sound(peer, x, launch_sent(x))
    &&& x.begun && exchange::sends(action) ==> x.seq >= 1
    &&& x.begun && x.phase is Launch ==> x.deferred_seq == x.seq
    &&& x.stop matches Some(outcome) ==> outcome == exchange::stop_of(peer.stop)
    &&& plan.stop_on_entry && registered(x) ==> x.wiring.slot is Some || x.stop is Some
    &&& x.result is None ==> whole == verdict(
        plan,
        peer,
        x.phase,
        exchange::sent_before(action, x),
        x.deferred_seq as int,
    )
    &&& x.result matches Some(result) ==> result_view(result) == whole
}

proof fn lemma_begin(
    plan: LaunchPlan,
    peer: Peer<LaunchPhase>,
    before: Exchange<LaunchPhase, LaunchOutcome>,
    after: Exchange<LaunchPhase, LaunchOutcome>,
)
    requires
        plan.source_breakpoints.len() <= usize::MAX,
        sound(plan, peer, before),
        exchange::begins(handshake::launch_action(plan, before.phase), before, after),
    ensures
        sound(plan, peer, after),
{
}

proof fn lemma_arrive(
    plan: LaunchPlan,
    peer: Peer<LaunchPhase>,
    before: Exchange<LaunchPhase, LaunchOutcome>,
    message: DapMessage,
)
    requires
        sound(plan, peer, before),
        may_say(peer, before, message),
    ensures
        ({
            let after = exchange::arrived(before, message);
            &&& sound(plan, peer, after)
            &&& message matches DapMessage::Response(response) ==> after.answers.dom().contains(
                response.request_seq,
            )
            &&& message matches DapMessage::Event(event) ==> read_loop_laws::resolves_stop(event)
                && plan.stop_on_entry ==> after.stop is Some
            &&& message == DapMessage::Event(Event::Initialized) ==> after.wiring.fired
        }),
{
    exchange::lemma_arrived(before, message);
    if let DapMessage::Response(response) = message {
        read_loop_laws::lemma_without(before.wiring.pending, response.request_seq);
    }
}

proof fn lemma_finish(
    plan: LaunchPlan,
    peer: Peer<LaunchPhase>,
    before: Exchange<LaunchPhase, LaunchOutcome>,
    came: Came,
    after: Exchange<LaunchPhase, LaunchOutcome>,
)
    requires
        plan.source_breakpoints.len() <= usize::MAX,
        sound(plan, peer, before),
        goes(plan, peer, before, Step::Finish(came, (peer.stderr)(before.phase)), after),
    ensures
        sound(plan, peer, after),
{
    let action = handshake::launch_action(plan, before.phase);
    handshake_laws::lemma_launch_ends(plan, before.phase, came, (peer.stderr)(before.phase));
    if !(before.phase is AwaitStop) {
        assert(came == exchange::comes(
            action,
            peer,
            exchange::sent_before(action, before),
            before.deferred_seq as int,
        ));
    }
}

/// What a run comes to, and what it heard of what was said.
proof fn lemma_run(
    plan: LaunchPlan,
    peer: Peer<LaunchPhase>,
    run: Run<LaunchPhase, LaunchOutcome>,
)
    requires
        plan.source_breakpoints.len() <= usize::MAX,
        is_run(plan, peer, run),
    ensures
        sound(plan, peer, run.end()),
        forall|response: Response| #[trigger]
            run.heard(DapMessage::Response(response)) ==> run.end().answers.dom().contains(
                response.request_seq,
            ),
        run.heard(DapMessage::Event(Event::Initialized)) ==> run.end().wiring.fired,
        forall|event: Event|
            read_loop_laws::resolves_stop(event) && plan.stop_on_entry && #[trigger] run.heard(
                DapMessage::Event(event),
            ) ==> run.end().stop is Some,
    decreases run.steps.len(),
{
    if run.steps.len() == 0 {
        exchange::lemma_start::<LaunchPhase, LaunchOutcome>(peer, LaunchPhase::Initialize);
    } else {
        let n = run.steps.len() - 1;
        let head = run.shorter();
        assert forall|i: int| 0 <= i < head.steps.len() implies goes(
            plan,
            peer,
            head.states[i],
            #[trigger] head.steps[i],
            head.states[i + 1],
        ) by {
            assert(head.steps[i] == run.steps[i]);
        }
        lemma_run(plan, peer, head);
        exchange::lemma_heard(run);
        let before = head.end();
        let after = run.end();
        assert(goes(plan, peer, before, run.steps[n], after)) by {
            assert(before == run.states[n]);
        }
        match run.steps[n] {
            Step::Begin => lemma_begin(plan, peer, before, after),
            Step::Arrive(message) => {
                lemma_arrive(plan, peer, before, message);
                exchange::lemma_arrived(before, message);
            },
            Step::Finish(came, _) => lemma_finish(plan, peer, before, came, after),
        }
    }
}

/// The result of a launch does not depend on the order in which messages arrive: whatever two
/// runs with the same debugger come to is the same. So the response to the launch request may
/// arrive before the news that the debugger is initialized, after it, or only after the response
/// that ends the configuration; and the stop may arrive before or after that response.
pub proof fn law_launch_does_not_depend_on_order(
    spec: LaunchSpec,
    peer: Peer<LaunchPhase>,
    one: Run<LaunchPhase, LaunchOutcome>,
    other: Run<LaunchPhase, LaunchOutcome>,
)
    requires
        is_run(handshake::launch_plan(spec), peer, one),
        is_run(handshake::launch_plan(spec), peer, other),
        one.end().result is Some,
        other.end().result is Some,
    ensures
        result_view(one.end().result->0) == result_view(other.end().result->0),
{
    assert(spec.source_breakpoints@.len() == spec.source_breakpoints.len());
    lemma_run(handshake::launch_plan(spec), peer, one);
    lemma_run(handshake::launch_plan(spec), peer, other);
}

/// The stop on entry is never lost: once the debuggee stopped, whenever that was heard of, the
/// launch has that stop, and a launch that succeeds returns it, with its reason and thread. One
/// that exits or ends instead is told as an exit.
pub proof fn law_stop_on_entry_is_never_lost(
    spec: LaunchSpec,
    peer: Peer<LaunchPhase>,
    run: Run<LaunchPhase, LaunchOutcome>,
)
    requires
        spec.stop_on_entry,
        read_loop_laws::resolves_stop(peer.stop),
        is_run(handshake::launch_plan(spec), peer, run),
    ensures
        run.heard(DapMessage::Event(peer.stop)) ==> run.end().stop == Some(
            exchange::stop_of(peer.stop),
        ),
        run.end().result matches Some(Ok(outcome)) ==> outcome@ == launched(
            exchange::stop_of(peer.stop),
        ),
        run.end().result matches Some(Ok(outcome)) ==> (peer.stop matches Event::Stopped(stopped)
            ==> outcome@ == LaunchOutcomeView::Stopped(stop_waiter::stop_info(stopped))),
{
    let plan = handshake::launch_plan(spec);
    assert(spec.source_breakpoints@.len() == spec.source_breakpoints.len());
    lemma_run(plan, peer, run);
    lemma_verdict_ok(plan, peer, LaunchPhase::Initialize, 0, 0);
}

proof fn lemma_verdict_ok(
    plan: LaunchPlan,
    peer: Peer<LaunchPhase>,
    phase: LaunchPhase,
    seq: int,
    launch_seq: int,
)
    requires
        plan.source_breakpoints.len() <= usize::MAX,
        handshake_laws::launch_reaches(plan, phase),
    ensures
        verdict(plan, peer, phase, seq, launch_seq) matches Ok(outcome) ==> outcome == if plan.stop_on_entry {
            launched(exchange::stop_of(peer.stop))
        } else {
            LaunchOutcomeView::Running
        },
    decreases handshake_laws::launch_actions_left(plan, phase),
{
    if !(phase is AwaitStop) {
        lemma_next(plan, peer, phase, seq, launch_seq);
        let action = handshake::launch_action(plan, phase);
        match next(plan, peer, phase, seq, launch_seq) {
            NextView::Done(_) => {},
            NextView::Go(later) => lemma_verdict_ok(
                plan,
                peer,
                later,
                exchange::seq_after(action, seq),
                exchange::deferred_after(action, seq, launch_seq),
            ),
        }
    }
}

/// Whether what the launch waits for was heard.
pub open spec fn awaited_was_heard(
    plan: LaunchPlan,
    peer: Peer<LaunchPhase>,
    run: Run<LaunchPhase, LaunchOutcome>,
) -> bool {
    let x = run.end();
    match handshake::launch_action(plan, x.phase) {
        ActionView::Send(_) => run.heard(DapMessage::Response((peer.replies)(x.seq))),
        ActionView::AwaitInitialized => run.heard(DapMessage::Event(Event::Initialized)),
        ActionView::AwaitResponse => run.heard(
            DapMessage::Response((peer.replies)(x.deferred_seq)),
        ),
        ActionView::AwaitStop => run.heard(DapMessage::Event(peer.stop)),
        _ => true,
    }
}

/// A launch is never stuck on something that it was told. As long as it is not over and request
/// numbers are left, its action can be begun; and once what the action waits for was heard, even
/// before it was begun, it can be finished. Each reply is to the request that it answers.
pub proof fn law_launch_is_never_stuck(
    spec: LaunchSpec,
    peer: Peer<LaunchPhase>,
    run: Run<LaunchPhase, LaunchOutcome>,
)
    requires
        read_loop_laws::resolves_stop(peer.stop),
        forall|k: i64| (#[trigger] (peer.replies)(k)).request_seq == k,
        is_run(handshake::launch_plan(spec), peer, run),
        run.end().result is None,
    ensures
        ({
            let plan = handshake::launch_plan(spec);
            let x = run.end();
            let action = handshake::launch_action(plan, x.phase);
            &&& !x.begun && x.seq < i64::MAX ==> exists|
                after: Exchange<LaunchPhase, LaunchOutcome>,
            | #[trigger]
                exchange::begins(action, x, after)
            &&& x.begun && awaited_was_heard(plan, peer, run) ==> exists|came: Came| #[trigger]
                exchange::handed(action, x, came)
        }),
{
    let plan = handshake::launch_plan(spec);
    let x = run.end();
    let action = handshake::launch_action(plan, x.phase);
    assert(spec.source_breakpoints@.len() == spec.source_breakpoints.len());
    lemma_run(plan, peer, run);
    if !x.begun {
        if x.seq < i64::MAX {
            exchange::lemma_can_begin(action, peer, x, launch_sent(x));
        }
    } else if awaited_was_heard(plan, peer, run) {
        assert((peer.replies)(x.seq).request_seq == x.seq);
        assert((peer.replies)(x.deferred_seq).request_seq == x.deferred_seq);
        exchange::lemma_can_finish(action, peer, x);
    }
}

} // verus!
