//! What holds of a reader over everything that arrives on a connection.

use vstd::prelude::*;

use crate::error::BackendError;
use crate::id_map;
use crate::read_loop;
use crate::read_loop::{EffectView, Wiring};
use crate::types::StopOutcomeView;
use crate::wire::{DapMessage, Event};

verus! {

/// Something that arrives.
pub enum Arrival {
    Message(DapMessage),
    EndOfStream,
}

/// How things stand after `arrival`.
pub open spec fn after<P, S, I>(w: Wiring<P, S, I>, arrival: Arrival) -> Wiring<P, S, I> {
    match arrival {
        Arrival::Message(message) => read_loop::after_message(w, message),
        Arrival::EndOfStream => read_loop::after_end_of_stream(w),
    }
}

/// What `arrival` makes happen.
pub open spec fn effects<P, S, I>(w: Wiring<P, S, I>, arrival: Arrival) -> Seq<
    EffectView<P, S, I>,
> {
    match arrival {
        Arrival::Message(message) => read_loop::message_effects(w, message),
        Arrival::EndOfStream => read_loop::end_of_stream_effects(w),
    }
}

/// How things stand after all of `arrivals`.
pub open spec fn after_all<P, S, I>(w: Wiring<P, S, I>, arrivals: Seq<Arrival>) -> Wiring<P, S, I>
    decreases arrivals.len(),
{
    if arrivals.len() == 0 {
        w
    } else {
        after(after_all(w, arrivals.drop_last()), arrivals.last())
    }
}

/// What all of `arrivals` make happen.
pub open spec fn all_effects<P, S, I>(w: Wiring<P, S, I>, arrivals: Seq<Arrival>) -> Seq<
    EffectView<P, S, I>,
>
    decreases arrivals.len(),
{
    if arrivals.len() == 0 {
        Seq::empty()
    } else {
        all_effects(w, arrivals.drop_last()) + effects(
            after_all(w, arrivals.drop_last()),
            arrivals.last(),
        )
    }
}

/// How many of `effects` satisfy `p`.
pub open spec fn count<P, S, I>(
    effects: Seq<EffectView<P, S, I>>,
    p: spec_fn(EffectView<P, S, I>) -> bool,
) -> nat
    decreases effects.len(),
{
    if effects.len() == 0 {
        0
    } else {
        count(effects.drop_last(), p) + if p(effects.last()) {
            1nat
        } else {
            0nat
        }
    }
}

/// Whether an effect tells the session that the connection ended.
pub open spec fn tells_end<P, S, I>() -> spec_fn(EffectView<P, S, I>) -> bool {
    |effect: EffectView<P, S, I>| effect is Terminated
}

/// Whether an effect hands an outcome to the one that waits for a stop.
pub open spec fn tells_stop<P, S, I>() -> spec_fn(EffectView<P, S, I>) -> bool {
    |effect: EffectView<P, S, I>| effect is Stop
}

/// Whether an effect hands a result to one that waits for a response.
pub open spec fn answers_request<P, S, I>() -> spec_fn(EffectView<P, S, I>) -> bool {
    |effect: EffectView<P, S, I>| effect is Answer
}

/// Whether `arrival` ends the connection.
pub open spec fn closing(arrival: Arrival) -> bool {
    match arrival {
        Arrival::Message(DapMessage::Event(Event::Terminated)) => true,
        Arrival::EndOfStream => true,
        _ => false,
    }
}

/// Whether one of `arrivals` ends the connection.
pub open spec fn any_closing(arrivals: Seq<Arrival>) -> bool {
    exists|i: int| 0 <= i < arrivals.len() && closing(#[trigger] arrivals[i])
}

/// Whether `event` is one that the one that waits for a stop hears of.
pub open spec fn resolves_stop(event: Event) -> bool {
    event is Stopped || event is Exited || event is Terminated
}

/// Whether `arrival` is one that the one that waits for a stop hears of.
pub open spec fn resolving(arrival: Arrival) -> bool {
    match arrival {
        Arrival::Message(DapMessage::Event(event)) => resolves_stop(event),
        Arrival::Message(_) => false,
        Arrival::EndOfStream => true,
    }
}

/// Whether one of `arrivals` is one that the one that waits for a stop hears of.
pub open spec fn any_resolving(arrivals: Seq<Arrival>) -> bool {
    exists|i: int| 0 <= i < arrivals.len() && resolving(#[trigger] arrivals[i])
}

/// The code of the last exit among `arrivals`, or else `before`.
pub open spec fn last_exit(arrivals: Seq<Arrival>, before: Option<i64>) -> Option<i64>
    decreases arrivals.len(),
{
    if arrivals.len() == 0 {
        before
    } else {
        match arrivals.last() {
            Arrival::Message(DapMessage::Event(Event::Exited(exited))) => Some(
                exited.body.exit_code,
            ),
            _ => last_exit(arrivals.drop_last(), before),
        }
    }
}

proof fn lemma_count_add<P, S, I>(
    a: Seq<EffectView<P, S, I>>,
    b: Seq<EffectView<P, S, I>>,
    p: spec_fn(EffectView<P, S, I>) -> bool,
)
    ensures
        count(a + b, p) == count(a, p) + count(b, p),
    decreases b.len(),
{
    if b.len() == 0 {
        assert(a + b =~= a);
    } else {
        lemma_count_add(a, b.drop_last(), p);
        assert((a + b).drop_last() =~= a + b.drop_last());
    }
}

proof fn lemma_count_none<P, S, I>(
    effects: Seq<EffectView<P, S, I>>,
    p: spec_fn(EffectView<P, S, I>) -> bool,
)
    requires
        forall|i: int| 0 <= i < effects.len() ==> !p(#[trigger] effects[i]),
    ensures
        count(effects, p) == 0,
    decreases effects.len(),
{
    if effects.len() > 0 {
        let head = effects.drop_last();
        assert forall|i: int| 0 <= i < head.len() implies !p(#[trigger] head[i]) by {
            assert(head[i] == effects[i]);
        }
        lemma_count_none(head, p);
        assert(!p(effects[effects.len() - 1]));
    }
}

proof fn lemma_count_all<P, S, I>(
    effects: Seq<EffectView<P, S, I>>,
    p: spec_fn(EffectView<P, S, I>) -> bool,
)
    requires
        forall|i: int| 0 <= i < effects.len() ==> p(#[trigger] effects[i]),
    ensures
        count(effects, p) == effects.len(),
    decreases effects.len(),
{
    if effects.len() > 0 {
        let head = effects.drop_last();
        assert forall|i: int| 0 <= i < head.len() implies p(#[trigger] head[i]) by {
            assert(head[i] == effects[i]);
        }
        lemma_count_all(head, p);
        assert(p(effects[effects.len() - 1]));
    }
}

/// What is counted of the parts that an end of the connection is made of.
proof fn lemma_count_ending<P, S, I>(w: Wiring<P, S, I>)
    ensures
        ({
            let stopped = read_loop::stop_effects::<P, S, I>(w.slot, StopOutcomeView::Terminated);
            let told = read_loop::end_effects(w);
            &&& count(stopped, tells_end()) == 0
            &&& count(stopped, tells_stop()) == stopped.len()
            &&& count(stopped, answers_request()) == 0
            &&& count(told, tells_end()) == told.len()
            &&& count(told, tells_stop()) == 0
            &&& count(told, answers_request()) == 0
        }),
{
    let stopped = read_loop::stop_effects::<P, S, I>(w.slot, StopOutcomeView::Terminated);
    let told = read_loop::end_effects(w);
    lemma_count_none(stopped, tells_end());
    lemma_count_all(stopped, tells_stop());
    lemma_count_none(stopped, answers_request());
    lemma_count_all(told, tells_end());
    lemma_count_none(told, tells_stop());
    lemma_count_none(told, answers_request());
}

/// What is counted of the effects of the end of the stream.
proof fn lemma_count_end_of_stream<P, S, I>(w: Wiring<P, S, I>)
    ensures
        ({
            let all = read_loop::end_of_stream_effects(w);
            &&& count(all, tells_end()) == if w.open {
                1nat
            } else {
                0nat
            }
            &&& count(all, tells_stop()) == if w.slot is Some {
                1nat
            } else {
                0nat
            }
            &&& count(all, answers_request()) == w.pending.len()
        }),
{
    let answers = Seq::new(
        w.pending.len(),
        |i: int|
            EffectView::<P, S, I>::Answer(
                w.pending[i].1,
                Err::<DapMessage, BackendError>(BackendError::Closed),
            ),
    );
    let stopped = read_loop::stop_effects::<P, S, I>(w.slot, StopOutcomeView::Terminated);
    let told = read_loop::end_effects(w);
    lemma_count_ending(w);
    lemma_count_none(answers, tells_end());
    lemma_count_none(answers, tells_stop());
    lemma_count_all(answers, answers_request());
    lemma_count_add(answers, stopped, tells_end());
    lemma_count_add(answers, stopped, tells_stop());
    lemma_count_add(answers, stopped, answers_request());
    lemma_count_add(answers + stopped, told, tells_end());
    lemma_count_add(answers + stopped, told, tells_stop());
    lemma_count_add(answers + stopped, told, answers_request());
}

/// What is counted of the effects of an event.
proof fn lemma_count_event<P, S, I>(w: Wiring<P, S, I>, event: Event)
    ensures
        ({
            let all = read_loop::event_effects(w, event);
            &&& count(all, tells_end()) == if w.open && event is Terminated {
                1nat
            } else {
                0nat
            }
            &&& count(all, tells_stop()) == if w.slot is Some && resolves_stop(event) {
                1nat
            } else {
                0nat
            }
            &&& count(all, answers_request()) == 0
        }),
{
    let all = read_loop::event_effects(w, event);
    match event {
        Event::Terminated => {
            let stopped = read_loop::stop_effects::<P, S, I>(w.slot, StopOutcomeView::Terminated);
            let told = read_loop::end_effects(w);
            lemma_count_ending(w);
            lemma_count_add(told, stopped, tells_end());
            lemma_count_add(told, stopped, tells_stop());
            lemma_count_add(told, stopped, answers_request());
        },
        Event::Stopped(_) | Event::Exited(_) => {
            lemma_count_none(all, tells_end());
            lemma_count_all(all, tells_stop());
            lemma_count_none(all, answers_request());
        },
        _ => {
            lemma_count_none(all, tells_end());
            lemma_count_none(all, tells_stop());
            lemma_count_none(all, answers_request());
        },
    }
}

/// Taking an entry out of a list takes out one entry, if the list has one.
pub proof fn lemma_without<P>(pending: Seq<(i64, P)>, key: i64)
    requires
        id_map::ascending(pending),
    ensures
        id_map::ascending(id_map::without(pending, key)),
        id_map::without(pending, key).len() == pending.len() - if id_map::table(
            pending,
        ).dom().contains(key) {
            1int
        } else {
            0int
        },
        id_map::table(id_map::without(pending, key)) == id_map::table(pending).remove(key),
        !id_map::table(pending).dom().contains(key) ==> id_map::without(pending, key) == pending,
{
    let is_key = id_map::has_key::<P>(key);
    crate::model::lemma_first_index_found(pending, is_key);
    crate::model::lemma_first_index_bounds(pending, is_key);
    let i = crate::model::first_index(pending, is_key);
    if i < pending.len() {
        id_map::lemma_table_remove(pending, i);
        id_map::lemma_table_at(pending, i);
    } else {
        assert forall|j: int| 0 <= j < pending.len() implies (#[trigger] pending[j]).0 != key by {
            assert(!is_key(pending[j]));
        }
        id_map::lemma_table_absent(pending, key);
        assert(id_map::table(pending).remove(key) =~= id_map::table(pending));
    }
}

/// What is counted of the effects of an arrival, and how the arrival changes what is counted.
proof fn lemma_count_arrival<P, S, I>(w: Wiring<P, S, I>, arrival: Arrival)
    ensures
        count(effects(w, arrival), tells_end()) == if w.open && closing(arrival) {
            1nat
        } else {
            0nat
        },
        after(w, arrival).open == (w.open && !closing(arrival)),
        count(effects(w, arrival), tells_stop()) == if w.slot is Some && resolving(arrival) {
            1nat
        } else {
            0nat
        },
        after(w, arrival).slot == (if resolving(arrival) {
            None
        } else {
            w.slot
        }),
        id_map::ascending(w.pending) ==> id_map::ascending(after(w, arrival).pending) && count(
            effects(w, arrival),
            answers_request(),
        ) + after(w, arrival).pending.len() == w.pending.len(),
{
    let all = effects(w, arrival);
    match arrival {
        Arrival::EndOfStream => {
            lemma_count_end_of_stream(w);
        },
        Arrival::Message(DapMessage::Event(event)) => {
            lemma_count_event(w, event);
        },
        Arrival::Message(DapMessage::Response(response)) => {
            lemma_count_none(all, tells_end());
            lemma_count_none(all, tells_stop());
            if id_map::table(w.pending).dom().contains(response.request_seq) {
                lemma_count_all(all, answers_request());
            } else {
                lemma_count_none(all, answers_request());
            }
            if id_map::ascending(w.pending) {
                lemma_without(w.pending, response.request_seq);
            }
        },
        Arrival::Message(DapMessage::Other(_)) => {
            lemma_count_none(all, tells_end());
            lemma_count_none(all, tells_stop());
            lemma_count_none(all, answers_request());
        },
    }
}

/// Whatever arrives, the session is told that the connection ended at most once; and it is told
/// as soon as the debugger says so or the stream ends.
pub proof fn law_end_is_told_once<P, S, I>(w: Wiring<P, S, I>, arrivals: Seq<Arrival>)
    ensures
        count(all_effects(w, arrivals), tells_end()) == if w.open && any_closing(arrivals) {
            1nat
        } else {
            0nat
        },
        after_all(w, arrivals).open == (w.open && !any_closing(arrivals)),
    decreases arrivals.len(),
{
    if arrivals.len() > 0 {
        let head = arrivals.drop_last();
        law_end_is_told_once(w, head);
        lemma_count_arrival(after_all(w, head), arrivals.last());
        lemma_count_add(
            all_effects(w, head),
            effects(after_all(w, head), arrivals.last()),
            tells_end(),
        );
        if any_closing(head) {
            let i = choose|i: int| 0 <= i < head.len() && closing(#[trigger] head[i]);
            assert(closing(arrivals[i]));
        }
        if closing(arrivals.last()) {
            assert(closing(arrivals[arrivals.len() - 1]));
        }
        if any_closing(arrivals) && !closing(arrivals.last()) {
            let i = choose|i: int| 0 <= i < arrivals.len() && closing(#[trigger] arrivals[i]);
            assert(closing(head[i]));
        }
    }
}

/// The exit code that goes with the news of the end is that of the last exit that arrived before
/// it.
pub proof fn law_end_carries_last_exit_code<P, S, I>(w: Wiring<P, S, I>, arrivals: Seq<Arrival>)
    ensures
        after_all(w, arrivals).last_exit_code == last_exit(arrivals, w.last_exit_code),
        w.open && !any_closing(arrivals) ==> read_loop::end_effects(after_all(w, arrivals))
            == seq![EffectView::<P, S, I>::Terminated(last_exit(arrivals, w.last_exit_code))],
    decreases arrivals.len(),
{
    law_end_is_told_once(w, arrivals);
    if arrivals.len() > 0 {
        law_end_carries_last_exit_code(w, arrivals.drop_last());
    }
}

/// When the stream ends, everyone that waits for a response and the one that waits for a stop are
/// answered, and nobody is left waiting.
pub proof fn law_end_of_stream_leaves_nobody_waiting<P, S, I>(w: Wiring<P, S, I>)
    ensures
        after(w, Arrival::EndOfStream).pending.len() == 0,
        after(w, Arrival::EndOfStream).slot is None,
        forall|i: int|
            0 <= i < w.pending.len() ==> effects(w, Arrival::EndOfStream).contains(
                EffectView::Answer(
                    (#[trigger] w.pending[i]).1,
                    Err(BackendError::Closed),
                ),
            ),
        w.slot matches Some(waiter) ==> effects(w, Arrival::EndOfStream).contains(
            EffectView::Stop(waiter, StopOutcomeView::Terminated),
        ),
{
    let all = effects(w, Arrival::EndOfStream);
    assert forall|i: int| 0 <= i < w.pending.len() implies all.contains(
        EffectView::Answer(
            (#[trigger] w.pending[i]).1,
            Err(BackendError::Closed),
        ),
    ) by {
        assert(all[i] == EffectView::<P, S, I>::Answer(
            w.pending[i].1,
            Err(BackendError::Closed),
        ));
    }
    if w.slot is Some {
        assert(all[w.pending.len() as int] == EffectView::<P, S, I>::Stop(
            w.slot->0,
            StopOutcomeView::Terminated,
        ));
    }
}

/// Whoever waits for the next stop gets exactly one outcome: the first arrival that is one clears
/// the slot, and whatever else arrives reaches nobody until the next registration.
pub proof fn law_one_outcome_per_registration<P, S, I>(
    w: Wiring<P, S, I>,
    arrivals: Seq<Arrival>,
)
    ensures
        count(all_effects(w, arrivals), tells_stop()) == if w.slot is Some && any_resolving(
            arrivals,
        ) {
            1nat
        } else {
            0nat
        },
        after_all(w, arrivals).slot == (if any_resolving(arrivals) {
            None
        } else {
            w.slot
        }),
    decreases arrivals.len(),
{
    if arrivals.len() > 0 {
        let head = arrivals.drop_last();
        law_one_outcome_per_registration(w, head);
        lemma_count_arrival(after_all(w, head), arrivals.last());
        lemma_count_add(
            all_effects(w, head),
            effects(after_all(w, head), arrivals.last()),
            tells_stop(),
        );
        if any_resolving(head) {
            let i = choose|i: int| 0 <= i < head.len() && resolving(#[trigger] head[i]);
            assert(resolving(arrivals[i]));
        }
        if resolving(arrivals.last()) {
            assert(resolving(arrivals[arrivals.len() - 1]));
        }
        if any_resolving(arrivals) && !resolving(arrivals.last()) {
            let i = choose|i: int| 0 <= i < arrivals.len() && resolving(#[trigger] arrivals[i]);
            assert(resolving(head[i]));
        }
    }
}

/// Every request is answered at most once, and none is lost: whatever arrives, those that were
/// answered and those that still wait are together as many as waited before.
pub proof fn law_requests_are_answered_once<P, S, I>(w: Wiring<P, S, I>, arrivals: Seq<Arrival>)
    requires
        id_map::ascending(w.pending),
    ensures
        count(all_effects(w, arrivals), answers_request()) + after_all(w, arrivals).pending.len()
            == w.pending.len(),
        id_map::ascending(after_all(w, arrivals).pending),
    decreases arrivals.len(),
{
    if arrivals.len() > 0 {
        let head = arrivals.drop_last();
        law_requests_are_answered_once(w, head);
        lemma_count_arrival(after_all(w, head), arrivals.last());
        lemma_count_add(
            all_effects(w, head),
            effects(after_all(w, head), arrivals.last()),
            answers_request(),
        );
    }
}

/// It makes no difference whether a response or the news that the debugger is initialized arrives
/// first: either way each makes the same happen, and things stand alike afterwards.
pub proof fn law_response_and_initialized_commute<P, S, I>(
    w: Wiring<P, S, I>,
    response: crate::wire::Response,
)
    ensures
        ({
            let answer = Arrival::Message(DapMessage::Response(response));
            let ready = Arrival::Message(DapMessage::Event(Event::Initialized));
            &&& after(after(w, answer), ready) == after(after(w, ready), answer)
            &&& effects(after(w, ready), answer) == effects(w, answer)
            &&& effects(after(w, answer), ready) == effects(w, ready)
        }),
{
}

/// A response answers only the one that waits for it: everyone else waits on, and a response that
/// nobody waits for changes nothing.
pub proof fn law_response_reaches_its_request_only<P, S, I>(
    w: Wiring<P, S, I>,
    response: crate::wire::Response,
    other: i64,
)
    requires
        id_map::ascending(w.pending),
        other != response.request_seq,
    ensures
        ({
            let next = read_loop::after_message(w, DapMessage::Response(response));
            let before = id_map::table(w.pending);
            let later = id_map::table(next.pending);
            &&& later.dom().contains(other) == before.dom().contains(other)
            &&& before.dom().contains(other) ==> later[other] == before[other]
            &&& !later.dom().contains(response.request_seq)
            &&& !before.dom().contains(response.request_seq) ==> next == w
        }),
{
    lemma_without(w.pending, response.request_seq);
}

} // verus!
