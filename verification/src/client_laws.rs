//! What reaches those that wait on a connection: the right response, the right stop, and the right
//! output, each as it came.

use vstd::prelude::*;

use crate::client;
use crate::client::{
    AbortGuard, DualAwait, InitializedSignal, InitializedWait, PendingResult, Shared,
};
use crate::error::{BackendError, WireError};
use crate::factory;
use crate::factory::LldbFactory;
use crate::id_map::IdMap;
use crate::read_loop;
use crate::read_loop::{CloseState, Effect, OutputChunk, ReadLoop, Sinks};
use crate::stop_waiter;
use crate::stop_waiter::StopWaiter;
use crate::text;
use crate::types::{BackendEvent, StopInfo, StopOutcome};
use crate::wire::{
    DapMessage, Envelope, Event, ExitedEvent, OutputEvent, Request, Response, StoppedEvent,
};

verus! {

/// Whether `info` is what `event` says of the stop: its reason, thread, description and the
/// breakpoints that were hit.
pub open spec fn tells_stop(info: StopInfo, event: StoppedEvent) -> bool {
    &&& info.reason@ == event.body.reason@
    &&& info.thread_id == event.body.thread_id
    &&& info.description@ == event.body.description@
    &&& info.hit_breakpoint_ids@ == event.body.hit_breakpoint_ids@
}

/// A stop is told with everything that its event says of it.
pub proof fn law_stop_is_told_in_full(event: &StoppedEvent, info: StopInfo)
    requires
        call_ensures(stop_waiter::stop_info_from_event, (event,), info),
    ensures
        tells_stop(info, *event),
{
}

/// Whoever waits for a stop is handed the stop as it was, the exit with its code, or the end; and
/// then waits no more. When nobody waits, nobody is handed anything.
pub proof fn law_waiter_is_handed_what_happened<S>(
    stopping: &mut StopWaiter<S>,
    exiting: &mut StopWaiter<S>,
    ending: &mut StopWaiter<S>,
    event: &StoppedEvent,
    code: i64,
    stop: Option<(S, StopOutcome)>,
    exit: Option<(S, StopOutcome)>,
    end: Option<(S, StopOutcome)>,
)
    requires
        call_ensures(StopWaiter::<S>::deliver, (stopping, event), stop),
        call_ensures(StopWaiter::<S>::deliver_exit, (exiting, code), exit),
        call_ensures(StopWaiter::<S>::cancel, (ending,), end),
    ensures
        old(stopping).slot matches Some(waiter) ==> (stop matches Some(handed) && handed.0 == waiter
            && (handed.1 matches StopOutcome::Stopped(info) && tells_stop(info, *event))),
        old(stopping).slot is None ==> stop is None,
        final(stopping).slot is None,
        old(exiting).slot matches Some(waiter) ==> (exit matches Some(handed) && handed.0 == waiter
            && (handed.1 matches StopOutcome::Exited { code: told } && told == Some(code))),
        old(exiting).slot is None ==> exit is None,
        final(exiting).slot is None,
        old(ending).slot matches Some(waiter) ==> (end matches Some(handed) && handed.0 == waiter
            && handed.1 is Terminated),
        old(ending).slot is None ==> end is None,
        final(ending).slot is None,
{
}

/// At first nobody waits for a stop; one that registers takes the place of the one before, which
/// is handed back.
pub proof fn law_registration_takes_the_slot<S>(
    fresh: StopWaiter<S>,
    waiter: &mut StopWaiter<S>,
    newcomer: S,
    replaced: Option<S>,
)
    requires
        call_ensures(StopWaiter::<S>::new, (), fresh),
        call_ensures(StopWaiter::<S>::register, (waiter, newcomer), replaced),
    ensures
        fresh.slot is None,
        final(waiter).slot == Some(newcomer),
        replaced == old(waiter).slot,
{
}

/// Requests are numbered one after the other from one on; each goes out as it is but for its
/// number, and its sender waits for the response with that number, as all the others go on to do.
pub proof fn law_requests_are_numbered_in_order<P, S, I>(
    fresh: Shared<P, S, I>,
    shared: &mut Shared<P, S, I>,
    request: Request,
    waiter: P,
    numbered: Request,
)
    requires
        call_ensures(Shared::<P, S, I>::new, (), fresh),
        old(shared).seq < i64::MAX,
        call_ensures(Shared::<P, S, I>::begin_send, (shared, request, waiter), numbered),
    ensures
        fresh.seq == 0,
        numbered.seq == old(shared).seq + 1,
        final(shared).seq == numbered.seq,
        numbered.ty == request.ty,
        numbered.command == request.command,
        numbered.arguments == request.arguments,
        final(shared).pending@.dom().contains(numbered.seq),
        final(shared).pending@[numbered.seq] == waiter,
        forall|other: i64| #[trigger]
            old(shared).pending@.dom().contains(other) && other != numbered.seq ==> final(shared).pending@.dom().contains(other) && final(shared).pending@[other] == old(shared).pending@[other],
        forall|other: i64| #[trigger]
            final(shared).pending@.dom().contains(other) ==> other == numbered.seq || old(shared).pending@.dom().contains(other),
{
}

/// The numbers go up by one.
pub proof fn law_numbers_go_up_by_one<P, S, I>(
    shared: &mut Shared<P, S, I>,
    later: &mut Shared<P, S, I>,
    first: i64,
    second: i64,
)
    requires
        old(shared).seq < i64::MAX - 1,
        call_ensures(Shared::<P, S, I>::next_seq, (shared,), first),
        *old(later) == *final(shared),
        call_ensures(Shared::<P, S, I>::next_seq, (later,), second),
    ensures
        first == old(shared).seq + 1,
        second == first + 1,
{
}

/// The response to a request reaches the one that waits for that request, as it came, and nobody
/// else; afterwards that one waits no more, and all the others still wait.
pub proof fn law_response_reaches_its_sender<P, S, I>(
    shared: &mut Shared<P, S, I>,
    seq: i64,
    message: DapMessage,
    delivery: Option<(P, PendingResult)>,
)
    requires
        call_ensures(Shared::<P, S, I>::dispatch_response, (shared, seq, message), delivery),
    ensures
        old(shared).pending@.dom().contains(seq) ==> (delivery matches Some(handed) && handed.0
            == old(shared).pending@[seq] && handed.1 == Ok::<DapMessage, BackendError>(message)),
        !old(shared).pending@.dom().contains(seq) ==> delivery is None,
        !final(shared).pending@.dom().contains(seq),
        forall|other: i64|
            other != seq ==> (#[trigger] final(shared).pending@.dom().contains(other) <==> old(shared).pending@.dom().contains(other)),
        forall|other: i64| #[trigger]
            final(shared).pending@.dom().contains(other) ==> final(shared).pending@[other] == old(shared).pending@[other],
{
}

/// A request that was sent and is answered hands the response to its sender.
pub proof fn law_sender_gets_its_own_response<P, S, I>(
    sending: &mut Shared<P, S, I>,
    answering: &mut Shared<P, S, I>,
    request: Request,
    waiter: P,
    numbered: Request,
    message: DapMessage,
    delivery: Option<(P, PendingResult)>,
)
    requires
        old(sending).seq < i64::MAX,
        call_ensures(Shared::<P, S, I>::begin_send, (sending, request, waiter), numbered),
        old(answering).pending == final(sending).pending,
        call_ensures(
            Shared::<P, S, I>::dispatch_response,
            (answering, numbered.seq, message),
            delivery,
        ),
    ensures
        delivery == Some((waiter, Ok::<DapMessage, BackendError>(message))),
{
}

/// Everyone that waits for a response hears of the failure, each once and in the order of their
/// requests, and nobody waits any more.
pub proof fn law_everyone_hears_of_the_failure<P, S, I>(
    shared: &mut Shared<P, S, I>,
    err: &BackendError,
    deliveries: Vec<(P, PendingResult)>,
)
    requires
        call_ensures(Shared::<P, S, I>::cancel_all_pending, (shared, err), deliveries),
    ensures
        deliveries@.len() == old(shared).pending.entries@.len(),
        forall|i: int|
            #![trigger deliveries@[i]]
            0 <= i < deliveries@.len() ==> deliveries@[i].0 == old(shared).pending.entries@[i].1
                && deliveries@[i].1 == Err::<DapMessage, BackendError>(*err),
        forall|seq: i64| !#[trigger] final(shared).pending@.dom().contains(seq),
{
}

/// A request that could not be written is waited for no more, and its sender gets the cause.
pub proof fn law_failed_send_is_taken_back<P, S, I>(
    shared: &mut Shared<P, S, I>,
    seq: i64,
    err: &WireError,
    failure: BackendError,
    text: String,
)
    requires
        call_ensures(Shared::<P, S, I>::fail_send, (shared, seq, err), failure),
        call_ensures(WireError::to_string, (err,), text),
    ensures
        failure matches BackendError::Send(said) && said@ == text@,
        !final(shared).pending@.dom().contains(seq),
        forall|other: i64|
            other != seq ==> (#[trigger] final(shared).pending@.dom().contains(other) <==> old(shared).pending@.dom().contains(other)),
{
}

/// The one that waits for a request is put in and taken out by the number of the request.
pub proof fn law_waiters_are_kept_by_number<P, S, I>(
    putting: &mut Shared<P, S, I>,
    taking: &mut Shared<P, S, I>,
    seq: i64,
    waiter: P,
    replaced: Option<P>,
    removed: Option<P>,
)
    requires
        call_ensures(Shared::<P, S, I>::register_pending, (putting, seq, waiter), replaced),
        old(taking).pending == final(putting).pending,
        call_ensures(Shared::<P, S, I>::remove_pending, (taking, seq), removed),
    ensures
        removed == Some(waiter),
        replaced is Some <==> old(putting).pending@.dom().contains(seq),
        !final(taking).pending@.dom().contains(seq),
{
}

/// How many wait, and whether someone waits for a request, is told as it is.
pub proof fn law_waiters_are_counted<P, S, I>(shared: &Shared<P, S, I>, n: usize, seq: i64, found: bool)
    requires
        call_ensures(Shared::<P, S, I>::pending_len, (shared,), n),
        call_ensures(Shared::<P, S, I>::has_pending, (shared, seq), found),
    ensures
        n == shared.pending@.dom().len(),
        found == shared.pending@.dom().contains(seq),
{
}

/// What a sender received is what it gets; nothing received means that the connection is closed.
pub proof fn law_nothing_received_is_a_closed_connection(
    result: Option<PendingResult>,
    outcome: PendingResult,
)
    requires
        call_ensures(client::received, (result,), outcome),
    ensures
        result matches Some(r) ==> outcome == r,
        result is None ==> outcome == Err::<DapMessage, BackendError>(BackendError::Closed),
{
}

/// The signal that the debugger is initialized fires once and for all: the one that is parked is
/// woken, and whoever comes later need not wait.
pub proof fn law_initialized_signal_stays<I>(
    fresh: InitializedSignal<I>,
    parking: &mut InitializedSignal<I>,
    firing: &mut InitializedSignal<I>,
    asking: &mut InitializedSignal<I>,
    waiter: I,
    late: I,
    parked: InitializedWait<I>,
    woken: Option<I>,
    ready: InitializedWait<I>,
)
    requires
        call_ensures(InitializedSignal::<I>::new, (), fresh),
        !old(parking).fired,
        call_ensures(InitializedSignal::<I>::wait, (parking, waiter), parked),
        *old(firing) == *final(parking),
        call_ensures(InitializedSignal::<I>::signal, (firing,), woken),
        *old(asking) == *final(firing),
        call_ensures(InitializedSignal::<I>::wait, (asking, late), ready),
    ensures
        !fresh.fired && fresh.waiter is None,
        parked == InitializedWait::Parked(old(parking).waiter),
        woken == Some(waiter),
        ready == InitializedWait::Ready(late),
        final(asking).fired,
{
}

/// On a connection that begins nobody waits for anything, nothing was sent, and neither an exit nor
/// the end has been heard of.
pub proof fn law_connection_begins_with_nobody_waiting<P, S, I>(
    shared: Shared<P, S, I>,
    reader: ReadLoop,
)
    requires
        call_ensures(Shared::<P, S, I>::new, (), shared),
        call_ensures(ReadLoop::new, (), reader),
    ensures
        forall|seq: i64| !#[trigger] shared.pending@.dom().contains(seq),
        shared.seq == 0,
        shared.stop_waiter.slot is None,
        !shared.initialized.fired,
        shared.initialized.waiter is None,
        reader.sinks.open,
        reader.sinks.last_exit_code is None,
        !reader.close_state.closed,
        reader.close_state.err is None,
{
}

/// Whoever waits for the debugger before it is initialized is parked, in place of the one before.
pub proof fn law_early_waiter_is_parked<P, S, I>(
    shared: &mut Shared<P, S, I>,
    waiter: I,
    outcome: InitializedWait<I>,
)
    requires
        !old(shared).initialized.fired,
        call_ensures(Shared::<P, S, I>::wait_initialized, (shared, waiter), outcome),
    ensures
        outcome == InitializedWait::Parked(old(shared).initialized.waiter),
        final(shared).initialized.waiter == Some(waiter),
        !final(shared).initialized.fired,
        final(shared).pending == old(shared).pending,
        final(shared).seq == old(shared).seq,
        final(shared).stop_waiter == old(shared).stop_waiter,
{
}

/// The same holds of the signal that senders and reader share.
pub proof fn law_shared_signal_stays<P, S, I>(
    firing: &mut Shared<P, S, I>,
    asking: &mut Shared<P, S, I>,
    late: I,
    woken: Option<I>,
    ready: InitializedWait<I>,
)
    requires
        call_ensures(Shared::<P, S, I>::signal_initialized, (firing,), woken),
        old(asking).initialized == final(firing).initialized,
        call_ensures(Shared::<P, S, I>::wait_initialized, (asking, late), ready),
    ensures
        woken == old(firing).initialized.waiter,
        ready == InitializedWait::Ready(late),
{
}

/// A guard takes its own request back, and only while it is armed.
pub proof fn law_guard_takes_its_own_request_back<P, S, I>(
    seq: i64,
    fresh: AbortGuard,
    disarmed: &mut AbortGuard,
    guard: &AbortGuard,
    shared: &mut Shared<P, S, I>,
    removed: Option<P>,
)
    requires
        call_ensures(AbortGuard::new, (seq,), fresh),
        call_ensures(AbortGuard::disarm, (disarmed,), ()),
        call_ensures(AbortGuard::release::<P, S, I>, (guard, shared), removed),
    ensures
        fresh.seq == seq && fresh.armed,
        !final(disarmed).armed && final(disarmed).seq == old(disarmed).seq,
        !guard.armed ==> *final(shared) == *old(shared) && removed is None,
        guard.armed ==> !final(shared).pending@.dom().contains(guard.seq) && (old(shared).pending@.dom().contains(guard.seq) ==> removed == Some(
            old(shared).pending@[guard.seq],
        )),
        forall|other: i64|
            other != guard.seq ==> (#[trigger] final(shared).pending@.dom().contains(other)
                <==> old(shared).pending@.dom().contains(other)),
{
}

/// Waiting for both a response and the debugger: it is over exactly when both have come, and the
/// first response is the result.
pub proof fn law_both_are_waited_for(
    fresh: DualAwait,
    answered: &mut DualAwait,
    ready: &mut DualAwait,
    result: PendingResult,
    wait: DualAwait,
    complete: bool,
    finished: PendingResult,
)
    requires
        call_ensures(DualAwait::new, (), fresh),
        old(answered).response is None,
        call_ensures(DualAwait::on_response, (answered, Some(result)), ()),
        call_ensures(DualAwait::on_initialized, (ready,), ()),
        call_ensures(DualAwait::is_complete, (&wait,), complete),
        call_ensures(DualAwait::finish, (wait,), finished),
    ensures
        fresh.response is None && !fresh.initialized,
        final(answered).response == Some(result),
        final(answered).initialized == old(answered).initialized,
        final(ready).initialized && final(ready).response == old(ready).response,
        complete <==> wait.response is Some && wait.initialized,
        wait.response == Some(finished),
{
}

/// The first response is the one that counts, and the news that none will come counts as a closed
/// connection.
pub proof fn law_first_response_counts(
    waiting: &mut DualAwait,
    answered: &mut DualAwait,
    result: Option<PendingResult>,
)
    requires
        old(waiting).response is None,
        call_ensures(DualAwait::on_response, (waiting, None), ()),
        old(answered).response is Some,
        call_ensures(DualAwait::on_response, (answered, result), ()),
    ensures
        final(waiting).response == Some(Err::<DapMessage, BackendError>(BackendError::Closed)),
        final(waiting).initialized == old(waiting).initialized,
        *final(answered) == *old(answered),
{
}

/// Output is passed on with its own category and text, and changes nothing.
pub proof fn law_output_is_passed_on<P, S, I>(
    reader: &mut ReadLoop,
    shared: &mut Shared<P, S, I>,
    output: OutputEvent,
    effects: Vec<Effect<P, S, I>>,
)
    requires
        call_ensures(
            ReadLoop::dispatch::<P, S, I>,
            (reader, shared, DapMessage::Event(Event::Output(output))),
            effects,
        ),
    ensures
        effects@.len() == 1,
        effects@[0] matches Effect::Output(chunk) && chunk.category == output.body.category
            && chunk.text == output.body.output,
        final(shared).pending.entries@ == old(shared).pending.entries@,
        final(shared).stop_waiter.slot == old(shared).stop_waiter.slot,
        final(reader).sinks.open == old(reader).sinks.open,
        final(reader).sinks.last_exit_code == old(reader).sinks.last_exit_code,
{
    assert(crate::model::views(effects@).len() == 1);
    assert(crate::model::views(effects@)[0] == effects@[0]@);
}

/// Whether all those that wait for something else than a stop wait on.
pub open spec fn others_wait_on<P, S, I>(before: Shared<P, S, I>, after: Shared<P, S, I>) -> bool {
    &&& after.pending.entries@ == before.pending.entries@
    &&& after.initialized.fired == before.initialized.fired
    &&& after.initialized.waiter == before.initialized.waiter
    &&& after.seq == before.seq
}

/// A stop that arrives reaches the one that waits for it, with everything that is known of it.
pub proof fn law_arriving_stop_reaches_its_waiter<P, S, I>(
    reader: &mut ReadLoop,
    shared: &mut Shared<P, S, I>,
    stopped: StoppedEvent,
    effects: Vec<Effect<P, S, I>>,
)
    requires
        call_ensures(
            ReadLoop::dispatch::<P, S, I>,
            (reader, shared, DapMessage::Event(Event::Stopped(stopped))),
            effects,
        ),
    ensures
        old(shared).stop_waiter.slot matches Some(waiter) ==> effects@.len() == 1 && (
        effects@[0] matches Effect::Stop(told, StopOutcome::Stopped(info)) && told == waiter
            && tells_stop(info, stopped)),
        old(shared).stop_waiter.slot is None ==> effects@.len() == 0,
        final(shared).stop_waiter.slot is None,
        final(reader).sinks.open == old(reader).sinks.open,
        final(reader).sinks.last_exit_code == old(reader).sinks.last_exit_code,
        others_wait_on(*old(shared), *final(shared)),
{
    let views = crate::model::views(effects@);
    assert(views.len() == effects@.len());
    if old(shared).stop_waiter.slot is Some {
        assert(views[0] == effects@[0]@);
    }
}

/// An exit that arrives reaches the one that waits for a stop, with its own code, and the code is
/// remembered for the end of the session.
pub proof fn law_arriving_exit_tells_its_code<P, S, I>(
    reader: &mut ReadLoop,
    shared: &mut Shared<P, S, I>,
    exited: ExitedEvent,
    effects: Vec<Effect<P, S, I>>,
)
    requires
        call_ensures(
            ReadLoop::dispatch::<P, S, I>,
            (reader, shared, DapMessage::Event(Event::Exited(exited))),
            effects,
        ),
    ensures
        old(shared).stop_waiter.slot matches Some(waiter) ==> effects@.len() == 1 && (
        effects@[0] matches Effect::Stop(told, StopOutcome::Exited { code }) && told == waiter
            && code == Some(exited.body.exit_code)),
        old(shared).stop_waiter.slot is None ==> effects@.len() == 0,
        final(shared).stop_waiter.slot is None,
        final(reader).sinks.last_exit_code == Some(exited.body.exit_code),
        final(reader).sinks.open == old(reader).sinks.open,
        others_wait_on(*old(shared), *final(shared)),
{
    let views = crate::model::views(effects@);
    assert(views.len() == effects@.len());
    if old(shared).stop_waiter.slot is Some {
        assert(views[0] == effects@[0]@);
    }
}

/// The end that the debugger announces is told to the session, once and with the exit code that is
/// known, and to the one that waits for a stop.
pub proof fn law_arriving_end_is_told<P, S, I>(
    reader: &mut ReadLoop,
    shared: &mut Shared<P, S, I>,
    effects: Vec<Effect<P, S, I>>,
)
    requires
        call_ensures(
            ReadLoop::dispatch::<P, S, I>,
            (reader, shared, DapMessage::Event(Event::Terminated)),
            effects,
        ),
    ensures
        old(reader).sinks.open ==> effects@.len() > 0 && (effects@[0] matches Effect::Terminated(
            code,
        ) && code == old(reader).sinks.last_exit_code),
        !old(reader).sinks.open ==> forall|i: int|
            0 <= i < effects@.len() ==> !(#[trigger] effects@[i] is Terminated),
        old(shared).stop_waiter.slot matches Some(waiter) ==> effects@.len() > 0 && (
        effects@.last() matches Effect::Stop(told, outcome) && told == waiter
            && outcome is Terminated),
        !final(reader).sinks.open,
        final(reader).sinks.last_exit_code == old(reader).sinks.last_exit_code,
        final(shared).stop_waiter.slot is None,
        others_wait_on(*old(shared), *final(shared)),
{
    let views = crate::model::views(effects@);
    assert(views.len() == effects@.len());
    assert forall|i: int| 0 <= i < effects@.len() implies #[trigger] effects@[i]@
        == views[i] by {}
    if effects@.len() > 0 {
        assert(effects@[0]@ == views[0]);
        assert(effects@[effects@.len() - 1]@ == views[views.len() - 1]);
    }
}

/// The news that the debugger is initialized wakes the one that waits for it.
pub proof fn law_arriving_initialized_wakes<P, S, I>(
    reader: &mut ReadLoop,
    shared: &mut Shared<P, S, I>,
    effects: Vec<Effect<P, S, I>>,
)
    requires
        call_ensures(
            ReadLoop::dispatch::<P, S, I>,
            (reader, shared, DapMessage::Event(Event::Initialized)),
            effects,
        ),
    ensures
        old(shared).initialized.waiter matches Some(waiter) ==> effects@.len() == 1
            && effects@[0] == Effect::<P, S, I>::Wake(waiter),
        old(shared).initialized.waiter is None ==> effects@.len() == 0,
        final(shared).initialized.fired,
        final(shared).initialized.waiter is None,
        final(shared).pending.entries@ == old(shared).pending.entries@,
        final(shared).stop_waiter.slot == old(shared).stop_waiter.slot,
        final(reader).sinks.open == old(reader).sinks.open,
        final(reader).sinks.last_exit_code == old(reader).sinks.last_exit_code,
{
    let views = crate::model::views(effects@);
    assert(views.len() == effects@.len());
    if old(shared).initialized.waiter is Some {
        assert(views[0] == effects@[0]@);
    }
}

/// A response that arrives is handed to the one that waits for it, as it came; one that nobody
/// waits for is written to the log with its number.
pub proof fn law_arriving_response_is_handed_on<P, S, I>(
    reader: &mut ReadLoop,
    shared: &mut Shared<P, S, I>,
    response: Response,
    effects: Vec<Effect<P, S, I>>,
)
    requires
        call_ensures(
            ReadLoop::dispatch::<P, S, I>,
            (reader, shared, DapMessage::Response(response)),
            effects,
        ),
    ensures
        effects@.len() == 1,
        old(shared).pending@.dom().contains(response.request_seq) ==> effects@[0] == Effect::<
            P,
            S,
            I,
        >::Answer(
            old(shared).pending@[response.request_seq],
            Ok::<DapMessage, BackendError>(DapMessage::Response(response)),
        ),
        !old(shared).pending@.dom().contains(response.request_seq) ==> (
        effects@[0] matches Effect::Log(line) && line@
            == "dap-client: no waiter for response to request seq "@ + text::signed_decimal(
            response.request_seq as int,
        )),
        final(shared).stop_waiter.slot == old(shared).stop_waiter.slot,
        final(shared).initialized.fired == old(shared).initialized.fired,
        final(shared).initialized.waiter == old(shared).initialized.waiter,
        final(reader).sinks.open == old(reader).sinks.open,
        final(reader).sinks.last_exit_code == old(reader).sinks.last_exit_code,
{
    let views = crate::model::views(effects@);
    assert(views.len() == effects@.len());
    assert(views[0] == effects@[0]@);
}

/// An event is taken in like the message that it is.
pub proof fn law_events_are_taken_in_like_messages<P, S, I>(
    reader: &mut ReadLoop,
    shared: &mut Shared<P, S, I>,
    other: &mut ReadLoop,
    others: &mut Shared<P, S, I>,
    event: Event,
    effects: Vec<Effect<P, S, I>>,
    same: Vec<Effect<P, S, I>>,
)
    requires
        *old(other) == *old(reader),
        *old(others) == *old(shared),
        call_ensures(ReadLoop::dispatch_event::<P, S, I>, (reader, shared, event), effects),
        call_ensures(
            ReadLoop::dispatch::<P, S, I>,
            (other, others, DapMessage::Event(event)),
            same,
        ),
    ensures
        effects@.len() == same@.len(),
        forall|i: int|
            #![trigger effects@[i]]
            0 <= i < effects@.len() ==> effects@[i]@ == same@[i]@,
        final(reader).sinks == final(other).sinks,
        final(shared).pending.entries@ == final(others).pending.entries@,
        final(shared).stop_waiter.slot == final(others).stop_waiter.slot,
        final(shared).initialized.fired == final(others).initialized.fired,
{
    let views = crate::model::views(effects@);
    let same_views = crate::model::views(same@);
    assert(views == same_views);
    assert(views.len() == effects@.len() && same_views.len() == same@.len());
    assert forall|i: int|
        #![trigger effects@[i]]
        0 <= i < effects@.len() implies effects@[i]@ == same@[i]@ by {
        assert(views[i] == effects@[i]@);
        assert(same_views[i] == same@[i]@);
    }
    let w = read_loop::wiring(*final(reader), *final(shared));
    let v = read_loop::wiring(*final(other), *final(others));
    assert(w == v);
}

/// When the stream ends, everyone that waits for a response is told so, then the one that waits
/// for a stop, then the session with the exit code that is known; and the first reason is kept.
pub proof fn law_end_of_stream_is_told<P, S, I>(
    reader: &mut ReadLoop,
    shared: &mut Shared<P, S, I>,
    err: &WireError,
    effects: Vec<Effect<P, S, I>>,
)
    requires
        call_ensures(ReadLoop::recover::<P, S, I>, (reader, shared, err), effects),
    ensures
        ({
            let waiting = old(shared).pending.entries@;
            let stop: int = if old(shared).stop_waiter.slot is Some {
                1
            } else {
                0
            };
            let end: int = if old(reader).sinks.open {
                1
            } else {
                0
            };
            &&& effects@.len() == waiting.len() + stop + end
            &&& forall|i: int|
                #![trigger effects@[i]]
                0 <= i < waiting.len() ==> effects@[i] == Effect::<P, S, I>::Answer(
                    waiting[i].1,
                    Err::<DapMessage, BackendError>(BackendError::Closed),
                )
            &&& stop == 1 ==> (effects@[waiting.len() as int] matches Effect::Stop(told, outcome)
                && Some(told) == old(shared).stop_waiter.slot && outcome is Terminated)
            &&& end == 1 ==> effects@[waiting.len() + stop] == Effect::<P, S, I>::Terminated(
                old(reader).sinks.last_exit_code,
            )
            &&& final(reader).close_state.closed
            &&& !old(reader).close_state.closed ==> (
            final(reader).close_state.err matches Some(reason) && reason@ == err@.text())
            &&& old(reader).close_state.closed ==> final(reader).close_state == old(reader).close_state
        }),
{
    let views = crate::model::views(effects@);
    let waiting = old(shared).pending.entries@;
    let n = waiting.len() as int;
    assert(views.len() == effects@.len());
    assert forall|i: int| 0 <= i < n implies #[trigger] effects@[i] == Effect::<P, S, I>::Answer(
        waiting[i].1,
        Err::<DapMessage, BackendError>(BackendError::Closed),
    ) by {
        assert(views[i] == effects@[i]@);
    }
    if old(shared).stop_waiter.slot is Some {
        assert(views[n] == effects@[n]@);
        if old(reader).sinks.open {
            assert(views[n + 1] == effects@[n + 1]@);
        }
    } else if old(reader).sinks.open {
        assert(views[n] == effects@[n]@);
    }
}

/// What is written to the log of a message that is not known, and of an event that is only
/// reported.
pub proof fn law_log_lines(
    envelope: &Envelope,
    event: &Event,
    seq: i64,
    unhandled: String,
    informational: String,
    unawaited: String,
)
    requires
        call_ensures(read_loop::log_unhandled, (envelope,), unhandled),
        call_ensures(read_loop::log_informational, (event,), informational),
        call_ensures(read_loop::log_no_waiter, (seq,), unawaited),
    ensures
        envelope.event matches Some(name) ==> unhandled@ == "dap-client: unhandled event: "@
            + name@,
        envelope.event is None && envelope.command is Some ==> unhandled@
            == "dap-client: unhandled message type "@ + envelope.ty@ + " (command "@
            + envelope.command->0@ + ")"@,
        envelope.event is None && envelope.command is None ==> unhandled@
            == "dap-client: unhandled message type: "@ + envelope.ty@,
        *event is Thread ==> informational@ == "dap-client: informational event: "@ + "thread"@,
        *event is Breakpoint ==> informational@ == "dap-client: informational event: "@
            + "breakpoint"@,
        *event is Process ==> informational@ == "dap-client: informational event: "@ + "process"@,
        *event is Continued ==> informational@ == "dap-client: informational event: "@
            + "continued"@,
        *event is Module ==> informational@ == "dap-client: informational event: "@ + "module"@,
        *event is Capabilities ==> informational@ == "dap-client: informational event: "@
            + "capabilities"@,
        unawaited@ == "dap-client: no waiter for response to request seq "@ + text::signed_decimal(
            seq as int,
        ),
{
}

/// A message that is not known, or that only reports something, is written to the log and changes
/// nothing.
pub proof fn law_unknown_messages_change_nothing<P, S, I>(
    reader: &mut ReadLoop,
    shared: &mut Shared<P, S, I>,
    message: DapMessage,
    effects: Vec<Effect<P, S, I>>,
)
    requires
        message is Other || message == DapMessage::Event(Event::Thread) || message
            == DapMessage::Event(Event::Breakpoint) || message == DapMessage::Event(Event::Process)
            || message == DapMessage::Event(Event::Continued) || message == DapMessage::Event(
            Event::Module,
        ) || message == DapMessage::Event(Event::Capabilities),
        call_ensures(ReadLoop::dispatch::<P, S, I>, (reader, shared, message), effects),
    ensures
        effects@.len() == 1 && effects@[0] is Log,
        final(shared).pending.entries@ == old(shared).pending.entries@,
        final(shared).stop_waiter.slot == old(shared).stop_waiter.slot,
        final(shared).initialized.fired == old(shared).initialized.fired,
        final(reader).sinks.open == old(reader).sinks.open,
        final(reader).sinks.last_exit_code == old(reader).sinks.last_exit_code,
{
    let views = crate::model::views(effects@);
    assert(views.len() == effects@.len());
    assert(views[0] == effects@[0]@);
}

/// The end is signalled once, with the exit code that was recorded last.
pub proof fn law_end_is_signalled_once(
    recording: &mut Sinks,
    firing: &mut Sinks,
    again: &mut Sinks,
    code: i64,
    signal: Option<Option<i64>>,
    second: Option<Option<i64>>,
)
    requires
        old(recording).open,
        call_ensures(Sinks::record_exit, (recording, code), ()),
        *old(firing) == *final(recording),
        call_ensures(Sinks::fire_terminated, (firing,), signal),
        *old(again) == *final(firing),
        call_ensures(Sinks::fire_terminated, (again,), second),
    ensures
        signal == Some(Some(code)),
        second is None,
{
}

/// Only the first reason for closing is kept.
pub proof fn law_first_reason_is_kept(
    state: &mut CloseState,
    later: &mut CloseState,
    err: &WireError,
    other: &WireError,
    first: bool,
    second: bool,
)
    requires
        !old(state).closed,
        call_ensures(CloseState::close_once, (state, err), first),
        *old(later) == *final(state),
        call_ensures(CloseState::close_once, (later, other), second),
    ensures
        first && !second,
        final(later).closed,
        final(later).err matches Some(reason) && reason@ == err@.text(),
{
}

/// A piece of output and the end of the connection become events that say the same; a reader that
/// ended without a signal is no event.
pub proof fn law_events_say_what_was_signalled(
    chunk: OutputChunk,
    output: BackendEvent,
    signal: Option<Option<i64>>,
    end: Option<BackendEvent>,
    factory: &LldbFactory,
    name: &'static str,
)
    requires
        call_ensures(factory::output_event, (chunk,), output),
        call_ensures(factory::terminated_event, (signal,), end),
        call_ensures(LldbFactory::name, (factory,), name),
    ensures
        output matches BackendEvent::Output { category, text } && category == chunk.category
            && text == chunk.text,
        signal matches Some(code) ==> end == Some(BackendEvent::Terminated { code }),
        signal is None ==> end is None,
        name@ == "lldb"@,
{
}

/// What is put under a key is found under it, and everything else stays; what is taken out is
/// gone.
pub proof fn law_entries_are_kept_by_key<V>(
    putting: &mut IdMap<V>,
    taking: &mut IdMap<V>,
    map: &IdMap<V>,
    key: i64,
    value: V,
    other: i64,
    replaced: Option<V>,
    removed: Option<V>,
    found: Option<&V>,
    present: bool,
    count: usize,
)
    requires
        other != key,
        call_ensures(IdMap::<V>::insert, (putting, key, value), replaced),
        *map == *final(putting),
        call_ensures(IdMap::<V>::get, (map, key), found),
        call_ensures(IdMap::<V>::contains_key, (map, other), present),
        call_ensures(IdMap::<V>::len, (map,), count),
        *old(taking) == *final(putting),
        call_ensures(IdMap::<V>::remove, (taking, key), removed),
    ensures
        found matches Some(v) && *v == value,
        present == old(putting)@.dom().contains(other),
        present ==> map@[other] == old(putting)@[other],
        replaced is Some <==> old(putting)@.dom().contains(key),
        replaced matches Some(v) ==> v == old(putting)@[key],
        removed == Some(value),
        !final(taking)@.dom().contains(key),
        final(taking)@.dom().contains(other) == old(putting)@.dom().contains(other),
        count == map@.dom().len(),
{
}

} // verus!
