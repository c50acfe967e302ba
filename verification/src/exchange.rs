//! A model of a handshake over a connection: a launch or an attach, the requests that it sends, and
//! the messages that arrive meanwhile.
//!
//! The handshake begins an action, messages arrive, and the handshake finishes the action with what
//! it was handed. Beginnings, arrivals and finishes interleave as they may.

use vstd::prelude::*;

use crate::client::PendingResult;
use crate::error::{BackendError, BackendErrorView};
use crate::handshake::{ActionView, Event as Came, NextView};
use crate::id_map;
use crate::read_loop;
use crate::read_loop::{EffectView, Wiring};
use crate::read_loop_laws;
use crate::stop_waiter;
use crate::types::{StopInfo, StopOutcome, StopOutcomeView};
use crate::wire::{DapMessage, Event, Response};

verus! {

/// A handshake and its connection. The one that waits for the response to a request is known by
/// the request's number.
pub struct Exchange<F, O> {
    /// Where the handshake is.
    pub phase: F,
    /// Whether the action of that phase was begun.
    pub begun: bool,
    /// What the handshake came to, once it is over.
    pub result: Option<Result<O, BackendErrorView>>,
    /// The number of the last request.
    pub seq: i64,
    /// The number of the request whose response is waited for later.
    pub deferred_seq: i64,
    /// Who waits for what.
    pub wiring: Wiring<i64, (), ()>,
    /// What was handed to those that waited for a response.
    pub answers: Map<i64, PendingResult>,
    /// What was handed to the one that waited for a stop.
    pub stop: Option<StopOutcomeView>,
}

/// A step of an exchange.
pub enum Step {
    /// The handshake begins its action.
    Begin,
    /// A message arrives.
    Arrive(DapMessage),
    /// The handshake finishes its action with what came of it, while the debugger's error stream
    /// holds the text.
    Finish(Came, Seq<char>),
}

/// What a debugger has to say to one handshake.
#[verifier::reject_recursive_types(F)]
pub struct Peer<F> {
    /// The response to the request with a given number.
    pub replies: spec_fn(i64) -> Response,
    /// The event by which the debuggee stops, or ends, for the first time.
    pub stop: Event,
    /// What its error stream holds at a given phase of the handshake.
    pub stderr: spec_fn(F) -> Seq<char>,
}

/// A handshake at `phase`, on a connection on which nothing happened yet.
pub open spec fn start<F, O>(phase: F) -> Exchange<F, O> {
    Exchange {
        phase,
        begun: false,
        result: None,
        seq: 0,
        deferred_seq: 0,
        wiring: Wiring {
            pending: Seq::empty(),
            slot: None,
            fired: false,
            parked: None,
            open: true,
            last_exit_code: None,
        },
        answers: Map::empty(),
        stop: None,
    }
}

/// Whether the action sends a request.
pub open spec fn sends(action: ActionView) -> bool {
    action is Send || action is SendAsync
}

/// Whether beginning the action leads from `before` to `after`. A request gets the next number, and
/// is waited for; a registration takes the slot; a wait for the debugger to be initialized parks,
/// unless it is.
pub open spec fn begins<F, O>(
    action: ActionView,
    before: Exchange<F, O>,
    after: Exchange<F, O>,
) -> bool {
    &&& !before.begun
    &&& before.result is None
    &&& match action {
        ActionView::Send(_) | ActionView::SendAsync(_) => {
            &&& after.seq == before.seq + 1
            &&& id_map::ascending(after.wiring.pending)
            &&& id_map::table(after.wiring.pending) == id_map::table(
                before.wiring.pending,
            ).insert(after.seq, after.seq)
            &&& after == (Exchange {
                begun: true,
                seq: after.seq,
                deferred_seq: if action is SendAsync {
                    after.seq
                } else {
                    before.deferred_seq
                },
                wiring: Wiring { pending: after.wiring.pending, ..before.wiring },
                ..before
            })
        },
        ActionView::RegisterStop => after == (Exchange {
            begun: true,
            wiring: Wiring { slot: Some(()), ..before.wiring },
            ..before
        }),
        ActionView::AwaitInitialized => after == (Exchange {
            begun: true,
            wiring: if before.wiring.fired {
                before.wiring
            } else {
                Wiring { parked: Some(()), ..before.wiring }
            },
            ..before
        }),
        ActionView::AwaitResponse | ActionView::AwaitStop => after == (Exchange {
            begun: true,
            ..before
        }),
    }
}

/// The exchange once one effect of a message was performed.
pub open spec fn performed<F, O>(
    x: Exchange<F, O>,
    effect: EffectView<i64, (), ()>,
) -> Exchange<F, O> {
    match effect {
        EffectView::Answer(seq, result) => Exchange { answers: x.answers.insert(seq, result), ..x },
        EffectView::Stop(_, outcome) => Exchange { stop: Some(outcome), ..x },
        _ => x,
    }
}

/// The exchange once all effects of a message were performed, in order.
pub open spec fn all_performed<F, O>(
    x: Exchange<F, O>,
    effects: Seq<EffectView<i64, (), ()>>,
) -> Exchange<F, O>
    decreases effects.len(),
{
    if effects.len() == 0 {
        x
    } else {
        performed(all_performed(x, effects.drop_last()), effects.last())
    }
}

/// The exchange once `message` arrived.
pub open spec fn arrived<F, O>(x: Exchange<F, O>, message: DapMessage) -> Exchange<F, O> {
    all_performed(
        Exchange { wiring: read_loop::after_message(x.wiring, message), ..x },
        read_loop::message_effects(x.wiring, message),
    )
}

/// Whether the handshake has been handed `came` as what came of its action.
pub open spec fn handed<F, O>(action: ActionView, x: Exchange<F, O>, came: Came) -> bool {
    match action {
        ActionView::Send(_) => x.answers.dom().contains(x.seq) && came == Came::Replied(
            x.answers[x.seq],
        ),
        ActionView::SendAsync(_) => came == Came::Sent(Ok(())),
        ActionView::AwaitInitialized => x.wiring.fired && came is Initialized,
        ActionView::RegisterStop => came is Registered,
        ActionView::AwaitResponse => x.answers.dom().contains(x.deferred_seq) && came
            == Came::Deferred(Some(x.answers[x.deferred_seq])),
        ActionView::AwaitStop => match came {
            Came::Stopped(Some(outcome)) => x.stop == Some(outcome@),
            _ => false,
        },
    }
}

/// Whether finishing the action of `before` with `came` leads to `after`, when `next` is what that
/// makes of the handshake.
pub open spec fn finishes<F, O>(
    action: ActionView,
    before: Exchange<F, O>,
    came: Came,
    next: NextView<F, O>,
    after: Exchange<F, O>,
) -> bool {
    &&& before.begun
    &&& before.result is None
    &&& handed(action, before, came)
    &&& after == match next {
        NextView::Go(phase) => Exchange { phase, begun: false, ..before },
        NextView::Done(result) => Exchange { result: Some(result), ..before },
    }
}

/// Whether `peer` gives that response when the exchange is at `x`: it responds to requests that
/// were sent.
pub open spec fn may_respond<F, O>(peer: Peer<F>, x: Exchange<F, O>, response: Response) -> bool {
    1 <= response.request_seq <= x.seq && response == (peer.replies)(response.request_seq)
}

/// A run of a handshake: its steps, and how the exchange stands before the first and after each.
pub struct Run<F, O> {
    pub steps: Seq<Step>,
    pub states: Seq<Exchange<F, O>>,
}

impl<F, O> Run<F, O> {
    /// How the exchange stands at the end.
    pub open spec fn end(self) -> Exchange<F, O> {
        self.states.last()
    }

    /// Whether `message` arrived in this run.
    pub open spec fn heard(self, message: DapMessage) -> bool {
        exists|i: int| 0 <= i < self.steps.len() && #[trigger] self.steps[i] == Step::Arrive(
            message,
        )
    }

    /// Whether `message` arrived in this run while a stop was waited for.
    pub open spec fn heard_in_wait(self, message: DapMessage) -> bool {
        exists|i: int|
            0 <= i < self.steps.len() && #[trigger] self.steps[i] == Step::Arrive(message)
                && self.states[i].wiring.slot is Some
    }

    /// This run without its last step.
    pub open spec fn shorter(self) -> Run<F, O> {
        Run { steps: self.steps.drop_last(), states: self.states.drop_last() }
    }
}

/// What a run heard, it heard before its last step or in it.
pub proof fn lemma_heard<F, O>(run: Run<F, O>)
    requires
        run.steps.len() > 0,
        run.states.len() == run.steps.len() + 1,
    ensures
        forall|message: DapMessage| #[trigger]
            run.heard(message) ==> run.shorter().heard(message) || run.steps.last()
                == Step::Arrive(message),
        forall|message: DapMessage| #[trigger]
            run.heard_in_wait(message) ==> run.shorter().heard_in_wait(message) || (
            run.steps.last() == Step::Arrive(message) && run.shorter().end().wiring.slot is Some),
{
    let n = run.steps.len() - 1;
    let head = run.shorter();
    assert forall|message: DapMessage| #[trigger] run.heard(message) implies head.heard(message)
        || run.steps.last() == Step::Arrive(message) by {
        let i = choose|i: int|
            0 <= i < run.steps.len() && #[trigger] run.steps[i] == Step::Arrive(message);
        if i < n {
            assert(head.steps[i] == Step::Arrive(message));
        }
    }
    assert forall|message: DapMessage| #[trigger] run.heard_in_wait(message) implies
        head.heard_in_wait(message) || (run.steps.last() == Step::Arrive(message)
        && head.end().wiring.slot is Some) by {
        let i = choose|i: int|
            0 <= i < run.steps.len() && #[trigger] run.steps[i] == Step::Arrive(message)
                && run.states[i].wiring.slot is Some;
        if i < n {
            assert(head.steps[i] == Step::Arrive(message));
            assert(head.states[i] == run.states[i]);
        } else {
            assert(head.end() == run.states[n]);
        }
    }
}

/// The outcome that an event is to the one that waits for a stop.
pub open spec fn stop_of(event: Event) -> StopOutcomeView {
    match event {
        Event::Stopped(stopped) => StopOutcomeView::Stopped(stop_waiter::stop_info(stopped)),
        Event::Exited(exited) => StopOutcomeView::Exited { code: Some(exited.body.exit_code) },
        _ => StopOutcomeView::Terminated,
    }
}

/// The response that `peer` gives to the request with the number `seq`, as its sender gets it.
pub open spec fn reply<F>(peer: Peer<F>, seq: int) -> PendingResult {
    Ok(DapMessage::Response((peer.replies)(seq as i64)))
}

/// What comes of the action, when `seq` requests were sent before and the request whose response
/// is waited for later has the number `deferred_seq`. Of a wait for the stop, nothing is said here.
pub open spec fn comes<F>(action: ActionView, peer: Peer<F>, seq: int, deferred_seq: int) -> Came {
    match action {
        ActionView::Send(_) => Came::Replied(reply(peer, seq + 1)),
        ActionView::SendAsync(_) => Came::Sent(Ok(())),
        ActionView::AwaitInitialized => Came::Initialized,
        ActionView::RegisterStop => Came::Registered,
        ActionView::AwaitResponse => Came::Deferred(Some(reply(peer, deferred_seq))),
        ActionView::AwaitStop => Came::Stopped(None),
    }
}

/// How many requests were sent once the action was begun, when `seq` were sent before.
pub open spec fn seq_after(action: ActionView, seq: int) -> int {
    if sends(action) {
        seq + 1
    } else {
        seq
    }
}

/// The number of the request whose response is waited for later, once the action was begun.
pub open spec fn deferred_after(action: ActionView, seq: int, deferred_seq: int) -> int {
    if action is SendAsync {
        seq + 1
    } else {
        deferred_seq
    }
}

/// How many requests were sent before the action of the phase.
pub open spec fn sent_before<F, O>(action: ActionView, x: Exchange<F, O>) -> int {
    if x.begun && sends(action) {
        x.seq - 1
    } else {
        x.seq as int
    }
}

/// What the arrival of a message changes.
pub proof fn lemma_arrived<F, O>(x: Exchange<F, O>, message: DapMessage)
    ensures
        ({
            let table = id_map::table(x.wiring.pending);
            arrived(x, message) == (Exchange {
                wiring: read_loop::after_message(x.wiring, message),
                answers: match message {
                    DapMessage::Response(response) => if table.dom().contains(
                        response.request_seq,
                    ) {
                        x.answers.insert(
                            table[response.request_seq],
                            Ok::<DapMessage, BackendError>(message),
                        )
                    } else {
                        x.answers
                    },
                    _ => x.answers,
                },
                stop: match message {
                    DapMessage::Event(event) => if read_loop_laws::resolves_stop(event)
                        && x.wiring.slot is Some {
                        Some(stop_of(event))
                    } else {
                        x.stop
                    },
                    _ => x.stop,
                },
                ..x
            })
        }),
{
    let y = Exchange { wiring: read_loop::after_message(x.wiring, message), ..x };
    let effects = read_loop::message_effects(x.wiring, message);
    assert(effects.len() <= 2);
    if effects.len() > 0 {
        let head = effects.drop_last();
        assert(all_performed(y, effects) == performed(all_performed(y, head), effects.last()));
        if head.len() > 0 {
            assert(head.drop_last().len() == 0);
            assert(all_performed(y, head.drop_last()) == y);
            assert(all_performed(y, head) == performed(y, head.last()));
        } else {
            assert(all_performed(y, head) == y);
        }
    }
}

/// What holds of the numbers: each request that was sent is waited for or answered, with the
/// response that the debugger gives to it; and with `deferred`, the request whose response is
/// waited for later is one of them.
pub open spec fn numbers_sound<F, O>(peer: Peer<F>, x: Exchange<F, O>, deferred: bool) -> bool {
    let table = id_map::table(x.wiring.pending);
    &&& 0 <= x.seq
    &&& id_map::ascending(x.wiring.pending)
    &&& forall|k: i64| #[trigger]
        table.dom().contains(k) ==> 1 <= k <= x.seq && table[k] == k
    &&& forall|k: i64| #[trigger]
        x.answers.dom().contains(k) ==> x.answers[k] == reply(peer, k as int)
    &&& forall|k: i64|
        1 <= k <= x.seq ==> table.dom().contains(k) || #[trigger] x.answers.dom().contains(k)
    &&& deferred ==> 1 <= x.deferred_seq <= x.seq
}

/// Nothing was sent yet at the start.
pub proof fn lemma_start<F, O>(peer: Peer<F>, phase: F)
    ensures
        numbers_sound(peer, start::<F, O>(phase), false),
{
    let pending = start::<F, O>(phase).wiring.pending;
    assert forall|k: i64| !#[trigger] id_map::table(pending).dom().contains(k) by {
        id_map::lemma_table_absent(pending, k);
    }
}

/// An action can be begun as long as there are numbers left.
pub proof fn lemma_can_begin<F, O>(
    action: ActionView,
    peer: Peer<F>,
    x: Exchange<F, O>,
    deferred: bool,
)
    requires
        numbers_sound(peer, x, deferred),
        x.result is None,
        !x.begun,
        x.seq < i64::MAX,
    ensures
        exists|after: Exchange<F, O>| #[trigger] begins(action, x, after),
{
    let after = match action {
        ActionView::Send(_) | ActionView::SendAsync(_) => {
            let seq = (x.seq + 1) as i64;
            let p = x.wiring.pending.len() as int;
            Exchange {
                begun: true,
                seq,
                deferred_seq: if action is SendAsync {
                    seq
                } else {
                    x.deferred_seq
                },
                wiring: Wiring { pending: x.wiring.pending.insert(p, (seq, seq)), ..x.wiring },
                ..x
            }
        },
        ActionView::RegisterStop => Exchange {
            begun: true,
            wiring: Wiring { slot: Some(()), ..x.wiring },
            ..x
        },
        ActionView::AwaitInitialized => Exchange {
            begun: true,
            wiring: if x.wiring.fired {
                x.wiring
            } else {
                Wiring { parked: Some(()), ..x.wiring }
            },
            ..x
        },
        ActionView::AwaitResponse | ActionView::AwaitStop => Exchange { begun: true, ..x },
    };
    if sends(action) {
        let pending = x.wiring.pending;
        assert forall|i: int| 0 <= i < pending.len() implies (#[trigger] pending[i]).0
            < after.seq by {
            id_map::lemma_table_at(pending, i);
        }
        id_map::lemma_table_insert(pending, pending.len() as int, after.seq, after.seq);
    }
    assert(begins(action, x, after));
}

/// Whether what the action waits for has come.
pub open spec fn awaited_has_come<F, O>(action: ActionView, x: Exchange<F, O>) -> bool {
    match action {
        ActionView::Send(_) => x.answers.dom().contains(x.seq),
        ActionView::AwaitInitialized => x.wiring.fired,
        ActionView::AwaitResponse => x.answers.dom().contains(x.deferred_seq),
        ActionView::AwaitStop => x.stop is Some,
        _ => true,
    }
}

/// Once what the action waits for has come, the handshake has been handed it.
pub proof fn lemma_can_finish<F, O>(action: ActionView, peer: Peer<F>, x: Exchange<F, O>)
    requires
        awaited_has_come(action, x),
        x.stop matches Some(outcome) ==> outcome == stop_of(peer.stop),
    ensures
        exists|came: Came| #[trigger] handed(action, x, came),
{
    match action {
        ActionView::Send(_) => {
            assert(handed(action, x, Came::Replied(x.answers[x.seq])));
        },
        ActionView::SendAsync(_) => {
            assert(handed(action, x, Came::Sent(Ok(()))));
        },
        ActionView::AwaitInitialized => {
            assert(handed(action, x, Came::Initialized));
        },
        ActionView::RegisterStop => {
            assert(handed(action, x, Came::Registered));
        },
        ActionView::AwaitResponse => {
            assert(handed(action, x, Came::Deferred(Some(x.answers[x.deferred_seq]))));
        },
        ActionView::AwaitStop => {
            let outcome = outcome_of(peer.stop);
            assert(outcome@ == stop_of(peer.stop));
            assert(handed(action, x, Came::Stopped(Some(outcome))));
        },
    }
}

/// An outcome that says what `event` is to the one that waits for a stop.
spec fn outcome_of(event: Event) -> StopOutcome {
    match event {
        Event::Stopped(stopped) => StopOutcome::Stopped(
            StopInfo {
                reason: stopped.body.reason,
                thread_id: stopped.body.thread_id,
                description: stopped.body.description,
                hit_breakpoint_ids: stopped.body.hit_breakpoint_ids,
            },
        ),
        Event::Exited(exited) => StopOutcome::Exited { code: Some(exited.body.exit_code) },
        _ => StopOutcome::Terminated,
    }
}

} // verus!
