//! What holds of an attach over a connection, in whatever order the debugger's messages arrive.
//!
//! An attach registers for the stop only once its request was answered. What the debuggee did
//! before is not its concern.

use vstd::prelude::*;

use crate::error::BackendErrorView;
use crate::exchange;
use crate::exchange::{Exchange, Peer, Run, Step};
use crate::handshake;
use crate::handshake::{ActionView, AttachPhase, Event as Came, NextView};
use crate::handshake_laws;
use crate::json::Json;
use crate::read_loop_laws;
use crate::stop_waiter;
use crate::types::{AttachOutcome, AttachOutcomeView, AttachSpec, StopOutcomeView};
use crate::wire::{DapMessage, Event, Response};

verus! {

/// Whether `peer` may say `message` when the exchange is at `x`: it responds to requests that were
/// sent, and the first stop while one is waited for is its stop. Everything else it may say at any
/// time, other stops too.
pub open spec fn may_say(
    peer: Peer<AttachPhase>,
    x: Exchange<AttachPhase, AttachOutcome>,
    message: DapMessage,
) -> bool {
    match message {
        DapMessage::Response(response) => exchange::may_respond(peer, x, response),
        DapMessage::Event(event) => read_loop_laws::resolves_stop(event) && x.wiring.slot is Some
            ==> event == peer.stop,
        DapMessage::Other(_) => true,
    }
}

/// Whether `step` leads from `before` to `after`.
pub open spec fn goes(
    arguments: Json,
    peer: Peer<AttachPhase>,
    before: Exchange<AttachPhase, AttachOutcome>,
    step: Step,
    after: Exchange<AttachPhase, AttachOutcome>,
) -> bool {
    let action = handshake::attach_action(arguments, before.phase);
    match step {
        Step::Begin => exchange::begins(action, before, after),
        Step::Arrive(message) => may_say(peer, before, message) && after == exchange::arrived(
            before,
            message,
        ),
        Step::Finish(came, stderr) => stderr == (peer.stderr)(before.phase) && exchange::finishes(
            action,
            before,
            came,
            handshake::attach_next(before.phase, came, stderr),
            after,
        ),
    }
}

/// Whether `run` is a run of the attach with `arguments` and `peer`.
pub open spec fn is_run(
    arguments: Json,
    peer: Peer<AttachPhase>,
    run: Run<AttachPhase, AttachOutcome>,
) -> bool {
    &&& run.states.len() == run.steps.len() + 1
    &&& run.states[0] == exchange::start::<AttachPhase, AttachOutcome>(AttachPhase::Initialize)
    &&& forall|i: int|
        0 <= i < run.steps.len() ==> goes(
            arguments,
            peer,
            run.states[i],
            #[trigger] run.steps[i],
            run.states[i + 1],
        )
}

/// The result of an attach that was handed `outcome`.
pub open spec fn attached(outcome: StopOutcomeView) -> AttachOutcomeView {
    match outcome {
        StopOutcomeView::Stopped(info) => AttachOutcomeView::Stopped(info),
        StopOutcomeView::Exited { code } => AttachOutcomeView::Exited { code },
        StopOutcomeView::Terminated => AttachOutcomeView::Terminated,
    }
}

/// What the result of an attach says.
pub open spec fn result_view(result: Result<AttachOutcome, BackendErrorView>) -> Result<
    AttachOutcomeView,
    BackendErrorView,
> {
    match result {
        Ok(outcome) => Ok(outcome@),
        Err(err) => Err(err),
    }
}

/// What becomes of an attach at `phase` by what comes of its action, when `seq` requests were sent
/// before and the attach request has the number `attach_seq`.
pub open spec fn next(
    arguments: Json,
    peer: Peer<AttachPhase>,
    phase: AttachPhase,
    seq: int,
    attach_seq: int,
) -> NextView<AttachPhase, AttachOutcome> {
    let action = handshake::attach_action(arguments, phase);
    handshake::attach_next(
        phase,
        exchange::comes(action, peer, seq, attach_seq),
        (peer.stderr)(phase),
    )
}

/// What the attach with `arguments` and `peer` comes to from `phase` on, when `seq` requests were
/// sent before and the attach request has the number `attach_seq`: it is said by the responses and
/// the stop alone.
pub open spec fn verdict(
    arguments: Json,
    peer: Peer<AttachPhase>,
    phase: AttachPhase,
    seq: int,
    attach_seq: int,
) -> Result<AttachOutcomeView, BackendErrorView>
    decreases 8 - handshake_laws::attach_index(phase),
{
    let action = handshake::attach_action(arguments, phase);
    if phase is AwaitStop {
        Ok(attached(exchange::stop_of(peer.stop)))
    } else {
        match next(arguments, peer, phase, seq, attach_seq) {
            NextView::Done(result) => result_view(result),
            NextView::Go(later) => verdict(
                arguments,
                peer,
                later,
                exchange::seq_after(action, seq),
                exchange::deferred_after(action, seq, attach_seq),
            ),
        }
    }
}

/// Whether the attach request was sent.
spec fn attach_sent(x: Exchange<AttachPhase, AttachOutcome>) -> bool {
    match x.phase {
        AttachPhase::Initialize => false,
        AttachPhase::Attach => x.begun,
        _ => true,
    }
}

/// What holds of every exchange that a run gets to.
spec fn sound(
    arguments: Json,
    peer: Peer<AttachPhase>,
    x: Exchange<AttachPhase, AttachOutcome>,
) -> bool {
    let whole = verdict(arguments, peer, AttachPhase::Initialize, 0, 0);
    let action = handshake::attach_action(arguments, x.phase);
    &&& exchange::numbers_sound(peer, x, attach_sent(x))
    &&& x.begun && exchange::sends(action) ==> x.seq >= 1
    &&& x.begun && x.phase is Attach ==> x.deferred_seq == x.seq
    &&& x.stop matches Some(outcome) ==> outcome == exchange::stop_of(peer.stop)
    &&& x.result is None ==> whole == verdict(
        arguments,
        peer,
        x.phase,
        exchange::sent_before(action, x),
        x.deferred_seq as int,
    )
    &&& x.result matches Some(result) ==> result_view(result) == whole
}

proof fn lemma_begin(
    arguments: Json,
    peer: Peer<AttachPhase>,
    before: Exchange<AttachPhase, AttachOutcome>,
    after: Exchange<AttachPhase, AttachOutcome>,
)
    requires
        sound(arguments, peer, before),
        exchange::begins(handshake::attach_action(arguments, before.phase), before, after),
    ensures
        sound(arguments, peer, after),
{
}

proof fn lemma_arrive(
    arguments: Json,
    peer: Peer<AttachPhase>,
    before: Exchange<AttachPhase, AttachOutcome>,
    message: DapMessage,
)
    requires
        sound(arguments, peer, before),
        may_say(peer, before, message),
    ensures
        ({
            let after = exchange::arrived(before, message);
            &&& sound(arguments, peer, after)
            &&& message matches DapMessage::Response(response) ==> after.answers.dom().contains(
                response.request_seq,
            )
            &&& message matches DapMessage::Event(event) ==> read_loop_laws::resolves_stop(event)
                && before.wiring.slot is Some ==> after.stop is Some
            &&& message == DapMessage::Event(Event::Initialized) ==> after.wiring.fired
        }),
{
    exchange::lemma_arrived(before, message);
    if let DapMessage::Response(response) = message {
        read_loop_laws::lemma_without(before.wiring.pending, response.request_seq);
    }
}

proof fn lemma_finish(
    arguments: Json,
    peer: Peer<AttachPhase>,
    before: Exchange<AttachPhase, AttachOutcome>,
    came: Came,
    after: Exchange<AttachPhase, AttachOutcome>,
)
    requires
        sound(arguments, peer, before),
        goes(arguments, peer, before, Step::Finish(came, (peer.stderr)(before.phase)), after),
    ensures
        sound(arguments, peer, after),
{
    let action = handshake::attach_action(arguments, before.phase);
    if !(before.phase is AwaitStop) {
        assert(came == exchange::comes(
            action,
            peer,
            exchange::sent_before(action, before),
            before.deferred_seq as int,
        ));
    }
}

/// What a run comes to, and what it heard of what was said.
proof fn lemma_run(
    arguments: Json,
    peer: Peer<AttachPhase>,
    run: Run<AttachPhase, AttachOutcome>,
)
    requires
        is_run(arguments, peer, run),
    ensures
        sound(arguments, peer, run.end()),
        forall|response: Response| #[trigger]
            run.heard(DapMessage::Response(response)) ==> run.end().answers.dom().contains(
                response.request_seq,
            ),
        run.heard(DapMessage::Event(Event::Initialized)) ==> run.end().wiring.fired,
        forall|event: Event|
            read_loop_laws::resolves_stop(event) && #[trigger] run.heard_in_wait(
                DapMessage::Event(event),
            ) ==> run.end().stop is Some,
    decreases run.steps.len(),
{
    if run.steps.len() == 0 {
        exchange::lemma_start::<AttachPhase, AttachOutcome>(peer, AttachPhase::Initialize);
    } else {
        let n = run.steps.len() - 1;
        let head = run.shorter();
        assert forall|i: int| 0 <= i < head.steps.len() implies goes(
            arguments,
            peer,
            head.states[i],
            #[trigger] head.steps[i],
            head.states[i + 1],
        ) by {
            assert(head.steps[i] == run.steps[i]);
        }
        lemma_run(arguments, peer, head);
        exchange::lemma_heard(run);
        let before = head.end();
        let after = run.end();
        assert(goes(arguments, peer, before, run.steps[n], after)) by {
            assert(before == run.states[n]);
        }
        match run.steps[n] {
            Step::Begin => lemma_begin(arguments, peer, before, after),
            Step::Arrive(message) => {
                lemma_arrive(arguments, peer, before, message);
                exchange::lemma_arrived(before, message);
            },
            Step::Finish(came, _) => lemma_finish(arguments, peer, before, came, after),
        }
    }
}

/// The result of an attach does not depend on the order in which messages arrive: whatever two
/// runs with the same responses, and the same first stop after the registration, come to is the
/// same. So the response to the attach request may arrive before the news that the debugger is
/// initialized, after it, or only after the response that ends the configuration.
pub proof fn law_attach_does_not_depend_on_order(
    spec: AttachSpec,
    peer: Peer<AttachPhase>,
    one: Run<AttachPhase, AttachOutcome>,
    other: Run<AttachPhase, AttachOutcome>,
)
    requires
        is_run(handshake::attach_arguments(spec), peer, one),
        is_run(handshake::attach_arguments(spec), peer, other),
        one.end().result is Some,
        other.end().result is Some,
    ensures
        result_view(one.end().result->0) == result_view(other.end().result->0),
{
    lemma_run(handshake::attach_arguments(spec), peer, one);
    lemma_run(handshake::attach_arguments(spec), peer, other);
}

/// An attach that succeeds returns the first stop after its registration, with its reason and
/// thread; once that stop was heard of, the attach has it.
pub proof fn law_attach_returns_the_stop(
    spec: AttachSpec,
    peer: Peer<AttachPhase>,
    run: Run<AttachPhase, AttachOutcome>,
)
    requires
        read_loop_laws::resolves_stop(peer.stop),
        is_run(handshake::attach_arguments(spec), peer, run),
    ensures
        run.heard_in_wait(DapMessage::Event(peer.stop)) ==> run.end().stop == Some(
            exchange::stop_of(peer.stop),
        ),
        run.end().result matches Some(Ok(outcome)) ==> outcome@ == attached(
            exchange::stop_of(peer.stop),
        ),
        run.end().result matches Some(Ok(outcome)) ==> (peer.stop matches Event::Stopped(stopped)
            ==> outcome@ == AttachOutcomeView::Stopped(stop_waiter::stop_info(stopped))),
{
    let arguments = handshake::attach_arguments(spec);
    lemma_run(arguments, peer, run);
    lemma_verdict_ok(arguments, peer, AttachPhase::Initialize, 0, 0);
}

proof fn lemma_verdict_ok(
    arguments: Json,
    peer: Peer<AttachPhase>,
    phase: AttachPhase,
    seq: int,
    attach_seq: int,
)
    ensures
        verdict(arguments, peer, phase, seq, attach_seq) matches Ok(outcome) ==> outcome
            == attached(exchange::stop_of(peer.stop)),
    decreases 8 - handshake_laws::attach_index(phase),
{
    if !(phase is AwaitStop) {
        let action = handshake::attach_action(arguments, phase);
        match next(arguments, peer, phase, seq, attach_seq) {
            NextView::Done(_) => {},
            NextView::Go(later) => lemma_verdict_ok(
                arguments,
                peer,
                later,
                exchange::seq_after(action, seq),
                exchange::deferred_after(action, seq, attach_seq),
            ),
        }
    }
}

/// Whether what the attach waits for was heard; of the stop, while it was waited for.
pub open spec fn awaited_was_heard(
    arguments: Json,
    peer: Peer<AttachPhase>,
    run: Run<AttachPhase, AttachOutcome>,
) -> bool {
    let x = run.end();
    match handshake::attach_action(arguments, x.phase) {
        ActionView::Send(_) => run.heard(DapMessage::Response((peer.replies)(x.seq))),
        ActionView::AwaitInitialized => run.heard(DapMessage::Event(Event::Initialized)),
        ActionView::AwaitResponse => run.heard(
            DapMessage::Response((peer.replies)(x.deferred_seq)),
        ),
        ActionView::AwaitStop => run.heard_in_wait(DapMessage::Event(peer.stop)),
        _ => true,
    }
}

/// An attach is never stuck on something that it was told. As long as it is not over and request
/// numbers are left, its action can be begun; and once what the action waits for was heard, even
/// before it was begun, it can be finished. Each reply is to the request that it answers.
pub proof fn law_attach_is_never_stuck(
    spec: AttachSpec,
    peer: Peer<AttachPhase>,
    run: Run<AttachPhase, AttachOutcome>,
)
    requires
        read_loop_laws::resolves_stop(peer.stop),
        forall|k: i64| (#[trigger] (peer.replies)(k)).request_seq == k,
        is_run(handshake::attach_arguments(spec), peer, run),
        run.end().result is None,
    ensures
        ({
            let arguments = handshake::attach_arguments(spec);
            let x = run.end();
            let action = handshake::attach_action(arguments, x.phase);
            &&& !x.begun && x.seq < i64::MAX ==> exists|
                after: Exchange<AttachPhase, AttachOutcome>,
            | #[trigger]
                exchange::begins(action, x, after)
            &&& x.begun && awaited_was_heard(arguments, peer, run) ==> exists|
                came: Came,
            | #[trigger]
                exchange::handed(action, x, came)
        }),
{
    let arguments = handshake::attach_arguments(spec);
    let x = run.end();
    let action = handshake::attach_action(arguments, x.phase);
    lemma_run(arguments, peer, run);
    if !x.begun {
        if x.seq < i64::MAX {
            exchange::lemma_can_begin(action, peer, x, attach_sent(x));
        }
    } else if awaited_was_heard(arguments, peer, run) {
        assert((peer.replies)(x.seq).request_seq == x.seq);
        assert((peer.replies)(x.deferred_seq).request_seq == x.deferred_seq);
        exchange::lemma_can_finish(action, peer, x);
    }
}

} // verus!
