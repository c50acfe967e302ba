//! The reader's side of the protocol: what each message that arrives, and the end of the stream,
//! makes happen.

use vstd::prelude::*;

use crate::client::{PendingResult, Shared};
use crate::error::{BackendError, WireError};
use crate::id_map;
use crate::stop_waiter;
use crate::text;
use crate::types::{StopOutcome, StopOutcomeView};
use crate::wire::{DapMessage, Envelope, Event};

verus! {

/// A piece of program output.
#[derive(Debug, Clone, PartialEq, Eq)]
pub struct OutputChunk {
    pub category: String,
    pub text: String,
}

/// Something that the reader has to do.
#[derive(Debug)]
pub enum Effect<P, S, I> {
    /// Hand the result to the one that waits for a response.
    Answer(P, PendingResult),
    /// Hand the outcome to the one that waits for the next stop.
    Stop(S, StopOutcome),
    /// Wake the one that waits for the debugger to be initialized.
    Wake(I),
    /// Pass program output on.
    Output(OutputChunk),
    /// Tell the session that the connection ended, with the exit code if one is known.
    Terminated(Option<i64>),
    /// Write a line to the log.
    Log(String),
}

pub enum EffectView<P, S, I> {
    Answer(P, PendingResult),
    Stop(S, StopOutcomeView),
    Wake(I),
    Output(OutputChunk),
    Terminated(Option<i64>),
    Log(Seq<char>),
}

impl<P, S, I> View for Effect<P, S, I> {
    type V = EffectView<P, S, I>;

    open spec fn view(&self) -> EffectView<P, S, I> {
        match *self {
            Effect::Answer(waiter, result) => EffectView::Answer(waiter, result),
            Effect::Stop(waiter, outcome) => EffectView::Stop(waiter, outcome@),
            Effect::Wake(waiter) => EffectView::Wake(waiter),
            Effect::Output(chunk) => EffectView::Output(chunk),
            Effect::Terminated(code) => EffectView::Terminated(code),
            Effect::Log(line) => EffectView::Log(line@),
        }
    }
}

/// Whether the end of the connection is still to be told, and the exit code to tell with it.
#[derive(Debug)]
pub struct Sinks {
    pub open: bool,
    pub last_exit_code: Option<i64>,
}

impl Sinks {
    /// The signal that the connection ended, which is given only once.
    pub fn fire_terminated(&mut self) -> (signal: Option<Option<i64>>)
        ensures
            signal == (if old(self).open {
                Some(old(self).last_exit_code)
            } else {
                None
            }),
            *final(self) == (Sinks { open: false, ..*old(self) }),
    {
        if self.open {
            self.open = false;
            Some(self.last_exit_code)
        } else {
            None
        }
    }

    /// The debuggee exited with `code`.
    pub fn record_exit(&mut self, code: i64)
        ensures
            *final(self) == (Sinks { last_exit_code: Some(code), ..*old(self) }),
    {
        self.last_exit_code = Some(code);
    }
}

/// Whether the reader closed, and the error on which it did.
#[derive(Debug)]
pub struct CloseState {
    pub closed: bool,
    pub err: Option<String>,
}

impl CloseState {
    /// Closes on `err`, unless it was closed before.
    pub fn close_once(&mut self, err: &WireError) -> (first: bool)
        ensures
            first == !old(self).closed,
            first ==> final(self).closed && crate::model::view_opt(final(self).err) == Some(
                err@.text(),
            ),
            !first ==> *final(self) == *old(self),
    {
        if self.closed {
            false
        } else {
            self.closed = true;
            self.err = Some(err.to_string());
            true
        }
    }
}

/// What the reader reads and changes: who waits for what, and what is still to be told.
pub struct Wiring<P, S, I> {
    pub pending: Seq<(i64, P)>,
    pub slot: Option<S>,
    pub fired: bool,
    pub parked: Option<I>,
    pub open: bool,
    pub last_exit_code: Option<i64>,
}

/// The log line for a response that nobody waits for.
pub open spec fn no_waiter_line(request_seq: int) -> Seq<char> {
    "dap-client: no waiter for response to request seq "@ + text::signed_decimal(request_seq)
}

/// The log line for a message that is not known.
pub open spec fn unhandled_line(envelope: Envelope) -> Seq<char> {
    match (envelope.event, envelope.command) {
        (Some(event), _) => "dap-client: unhandled event: "@ + event@,
        (None, Some(command)) => "dap-client: unhandled message type "@ + envelope.ty@
            + " (command "@ + command@ + ")"@,
        (None, None) => "dap-client: unhandled message type: "@ + envelope.ty@,
    }
}

/// The name of an event that is only reported.
pub open spec fn informational_name(event: Event) -> Seq<char> {
    match event {
        Event::Thread => "thread"@,
        Event::Breakpoint => "breakpoint"@,
        Event::Process => "process"@,
        Event::Continued => "continued"@,
        Event::Module => "module"@,
        Event::Capabilities => "capabilities"@,
        _ => "informational"@,
    }
}

/// The log line for an event that is only reported.
pub open spec fn informational_line(event: Event) -> Seq<char> {
    "dap-client: informational event: "@ + informational_name(event)
}

/// Handing `outcome` to the one that waits for the next stop.
pub open spec fn stop_effects<P, S, I>(slot: Option<S>, outcome: StopOutcomeView) -> Seq<
    EffectView<P, S, I>,
> {
    match slot {
        Some(waiter) => seq![EffectView::Stop(waiter, outcome)],
        None => Seq::empty(),
    }
}

/// Telling the session that the connection ended.
pub open spec fn end_effects<P, S, I>(w: Wiring<P, S, I>) -> Seq<EffectView<P, S, I>> {
    if w.open {
        seq![EffectView::Terminated(w.last_exit_code)]
    } else {
        Seq::empty()
    }
}

/// What an event makes happen, in order.
pub open spec fn event_effects<P, S, I>(w: Wiring<P, S, I>, event: Event) -> Seq<
    EffectView<P, S, I>,
> {
    match event {
        Event::Stopped(stopped) => stop_effects(
            w.slot,
            StopOutcomeView::Stopped(stop_waiter::stop_info(stopped)),
        ),
        Event::Initialized => match w.parked {
            Some(waiter) => seq![EffectView::Wake(waiter)],
            None => Seq::empty(),
        },
        Event::Output(output) => seq![
            EffectView::Output(
                OutputChunk { category: output.body.category, text: output.body.output },
            ),
        ],
        Event::Exited(exited) => stop_effects(
            w.slot,
            StopOutcomeView::Exited { code: Some(exited.body.exit_code) },
        ),
        Event::Terminated => end_effects(w) + stop_effects::<P, S, I>(
            w.slot,
            StopOutcomeView::Terminated,
        ),
        _ => seq![EffectView::Log(informational_line(event))],
    }
}

/// How things stand after an event.
pub open spec fn after_event<P, S, I>(w: Wiring<P, S, I>, event: Event) -> Wiring<P, S, I> {
    match event {
        Event::Stopped(_) => Wiring { slot: None, ..w },
        Event::Initialized => Wiring { fired: true, parked: None, ..w },
        Event::Exited(exited) => Wiring {
            slot: None,
            last_exit_code: Some(exited.body.exit_code),
            ..w
        },
        Event::Terminated => Wiring { slot: None, open: false, ..w },
        _ => w,
    }
}

/// What a message makes happen, in order.
pub open spec fn message_effects<P, S, I>(w: Wiring<P, S, I>, message: DapMessage) -> Seq<
    EffectView<P, S, I>,
> {
    match message {
        DapMessage::Event(event) => event_effects(w, event),
        DapMessage::Response(response) => {
            let table = id_map::table(w.pending);
            if table.dom().contains(response.request_seq) {
                seq![
                    EffectView::Answer(
                        table[response.request_seq],
                        Ok::<DapMessage, BackendError>(message),
                    ),
                ]
            } else {
                seq![EffectView::Log(no_waiter_line(response.request_seq as int))]
            }
        },
        DapMessage::Other(envelope) => seq![EffectView::Log(unhandled_line(envelope))],
    }
}

/// How things stand after a message.
pub open spec fn after_message<P, S, I>(w: Wiring<P, S, I>, message: DapMessage) -> Wiring<
    P,
    S,
    I,
> {
    match message {
        DapMessage::Event(event) => after_event(w, event),
        DapMessage::Response(response) => Wiring {
            pending: id_map::without(w.pending, response.request_seq),
            ..w
        },
        DapMessage::Other(_) => w,
    }
}

/// How things stand after the end of the stream.
pub open spec fn after_end_of_stream<P, S, I>(w: Wiring<P, S, I>) -> Wiring<P, S, I> {
    Wiring { pending: Seq::empty(), slot: None, open: false, ..w }
}

/// What the end of the stream makes happen, in order: everyone that waits for a response hears
/// that the connection is closed, then the one that waits for a stop, then the session.
pub open spec fn end_of_stream_effects<P, S, I>(w: Wiring<P, S, I>) -> Seq<EffectView<P, S, I>> {
    Seq::new(
        w.pending.len(),
        |i: int|
            EffectView::<P, S, I>::Answer(
                w.pending[i].1,
                Err::<DapMessage, BackendError>(BackendError::Closed),
            ),
    ) + stop_effects::<P, S, I>(w.slot, StopOutcomeView::Terminated) + end_effects(w)
}

/// The log line for a response that nobody waits for.
pub fn log_no_waiter(request_seq: i64) -> (line: String)
    ensures
        line@ == no_waiter_line(request_seq as int),
{
    text::concat2(
        "dap-client: no waiter for response to request seq ",
        text::signed_decimal_text(request_seq).as_str(),
    )
}

/// The log line for a message that is not known.
pub fn log_unhandled(envelope: &Envelope) -> (line: String)
    ensures
        line@ == unhandled_line(*envelope),
{
    match (&envelope.event, &envelope.command) {
        (Some(event), _) => text::concat2("dap-client: unhandled event: ", event.as_str()),
        (None, Some(command)) => text::concat4(
            "dap-client: unhandled message type ",
            envelope.ty.as_str(),
            " (command ",
            command.as_str(),
        ).concat(")"),
        (None, None) => text::concat2("dap-client: unhandled message type: ", envelope.ty.as_str()),
    }
}

/// The log line for an event that is only reported.
pub fn log_informational(event: &Event) -> (line: String)
    ensures
        line@ == informational_line(*event),
{
    let name: &str = match event {
        Event::Thread => "thread",
        Event::Breakpoint => "breakpoint",
        Event::Process => "process",
        Event::Continued => "continued",
        Event::Module => "module",
        Event::Capabilities => "capabilities",
        _ => "informational",
    };
    text::concat2("dap-client: informational event: ", name)
}

/// The reader of one connection.
#[derive(Debug)]
pub struct ReadLoop {
    pub sinks: Sinks,
    pub close_state: CloseState,
}

/// How things stand.
pub open spec fn wiring<P, S, I>(reader: ReadLoop, shared: Shared<P, S, I>) -> Wiring<P, S, I> {
    Wiring {
        pending: shared.pending.entries@,
        slot: shared.stop_waiter.slot,
        fired: shared.initialized.fired,
        parked: shared.initialized.waiter,
        open: reader.sinks.open,
        last_exit_code: reader.sinks.last_exit_code,
    }
}

fn push_stop<P, S, I>(effects: &mut Vec<Effect<P, S, I>>, delivery: Option<(S, StopOutcome)>)
    ensures
        crate::model::views(final(effects)@) == crate::model::views(old(effects)@)
            + match stop_waiter::delivery_view(delivery) {
            Some((waiter, outcome)) => seq![EffectView::<P, S, I>::Stop(waiter, outcome)],
            None => Seq::empty(),
        },
{
    let ghost before = effects@;
    if let Some((waiter, outcome)) = delivery {
        effects.push(Effect::Stop(waiter, outcome));
    }
    assert(crate::model::views(effects@) =~= crate::model::views(before)
        + match stop_waiter::delivery_view(delivery) {
        Some((waiter, outcome)) => seq![EffectView::<P, S, I>::Stop(waiter, outcome)],
        None => Seq::empty(),
    });
}

impl ReadLoop {
    /// The reader that has read nothing.
    pub fn new() -> (reader: Self)
        ensures
            reader.sinks.open,
            reader.sinks.last_exit_code is None,
            !reader.close_state.closed,
            reader.close_state.err is None,
    {
        ReadLoop {
            sinks: Sinks { open: true, last_exit_code: None },
            close_state: CloseState { closed: false, err: None },
        }
    }

    fn end<P, S, I>(&mut self, effects: &mut Vec<Effect<P, S, I>>)
        ensures
            final(self).sinks == (Sinks { open: false, ..old(self).sinks }),
            final(self).close_state == old(self).close_state,
            crate::model::views(final(effects)@) == crate::model::views(old(effects)@) + if old(
                self,
            ).sinks.open {
                seq![EffectView::<P, S, I>::Terminated(old(self).sinks.last_exit_code)]
            } else {
                Seq::empty()
            },
    {
        let ghost before = effects@;
        let ghost open = self.sinks.open;
        let ghost code = self.sinks.last_exit_code;
        if let Some(code) = self.sinks.fire_terminated() {
            effects.push(Effect::Terminated(code));
        }
        assert(crate::model::views(effects@) =~= crate::model::views(before) + if open {
            seq![EffectView::<P, S, I>::Terminated(code)]
        } else {
            Seq::empty()
        });
    }

    /// Takes an event in.
    pub fn dispatch_event<P, S, I>(
        &mut self,
        shared: &mut Shared<P, S, I>,
        event: Event,
    ) -> (effects: Vec<Effect<P, S, I>>)
        requires
            old(shared).wf(),
        ensures
            final(shared).wf(),
            final(shared).seq == old(shared).seq,
            final(self).close_state == old(self).close_state,
            wiring(*final(self), *final(shared)) == after_event(
                wiring(*old(self), *old(shared)),
                event,
            ),
            crate::model::views(effects@) == event_effects(wiring(*old(self), *old(shared)), event),
    {
        let ghost w = wiring(*self, *shared);
        let mut effects: Vec<Effect<P, S, I>> = Vec::new();
        assert(crate::model::views(effects@) =~= Seq::<EffectView<P, S, I>>::empty());
        match event {
            Event::Stopped(stopped) => {
                let delivery = shared.stop_waiter.deliver(&stopped);
                push_stop(&mut effects, delivery);
            },
            Event::Initialized => {
                if let Some(waiter) = shared.signal_initialized() {
                    effects.push(Effect::Wake(waiter));
                }
            },
            Event::Output(output) => {
                effects.push(
                    Effect::Output(
                        OutputChunk { category: output.body.category, text: output.body.output },
                    ),
                );
            },
            Event::Exited(exited) => {
                let code: i64 = exited.body.exit_code;
                self.sinks.record_exit(code);
                let delivery = shared.stop_waiter.deliver_exit(code);
                push_stop(&mut effects, delivery);
            },
            Event::Terminated => {
                self.end(&mut effects);
                let delivery = shared.stop_waiter.cancel();
                push_stop(&mut effects, delivery);
            },
            Event::Thread
            | Event::Breakpoint
            | Event::Process
            | Event::Continued
            | Event::Module
            | Event::Capabilities => {
                effects.push(Effect::Log(log_informational(&event)));
            },
        }
        assert(crate::model::views(effects@) =~= event_effects(w, event));
        effects
    }

    /// Takes a message in.
    pub fn dispatch<P, S, I>(
        &mut self,
        shared: &mut Shared<P, S, I>,
        message: DapMessage,
    ) -> (effects: Vec<Effect<P, S, I>>)
        requires
            old(shared).wf(),
        ensures
            final(shared).wf(),
            final(shared).seq == old(shared).seq,
            final(self).close_state == old(self).close_state,
            wiring(*final(self), *final(shared)) == after_message(
                wiring(*old(self), *old(shared)),
                message,
            ),
            crate::model::views(effects@) == message_effects(
                wiring(*old(self), *old(shared)),
                message,
            ),
    {
        let ghost w = wiring(*self, *shared);
        match message {
            DapMessage::Event(event) => self.dispatch_event(shared, event),
            DapMessage::Response(response) => {
                let request_seq: i64 = response.request_seq;
                let mut effects: Vec<Effect<P, S, I>> = Vec::new();
                match shared.dispatch_response(request_seq, DapMessage::Response(response)) {
                    Some((waiter, result)) => {
                        effects.push(Effect::Answer(waiter, result));
                    },
                    None => {
                        effects.push(Effect::Log(log_no_waiter(request_seq)));
                    },
                }
                assert(crate::model::views(effects@) =~= message_effects(w, message));
                effects
            },
            DapMessage::Other(envelope) => {
                let mut effects: Vec<Effect<P, S, I>> = Vec::new();
                effects.push(Effect::Log(log_unhandled(&envelope)));
                assert(crate::model::views(effects@) =~= message_effects(w, message));
                effects
            },
        }
    }

    /// The stream ended or failed with `err`: nobody is left waiting, and the session hears of it
    /// unless it has already.
    pub fn recover<P, S, I>(&mut self, shared: &mut Shared<P, S, I>, err: &WireError) -> (effects:
        Vec<Effect<P, S, I>>)
        requires
            old(shared).wf(),
        ensures
            final(shared).wf(),
            final(shared).seq == old(shared).seq,
            wiring(*final(self), *final(shared)) == after_end_of_stream(
                wiring(*old(self), *old(shared)),
            ),
            final(self).close_state.closed,
            if old(self).close_state.closed {
                final(self).close_state == old(self).close_state
            } else {
                crate::model::view_opt(final(self).close_state.err) == Some(err@.text())
            },
            crate::model::views(effects@) == end_of_stream_effects(
                wiring(*old(self), *old(shared)),
            ),
    {
        let ghost w = wiring(*self, *shared);
        let _ = self.close_state.close_once(err);
        let cancelled = shared.cancel_all_pending(&BackendError::Closed);
        let ghost handed = cancelled@;
        let ghost answers = Seq::new(
            w.pending.len(),
            |i: int|
                EffectView::<P, S, I>::Answer(
                    w.pending[i].1,
                    Err::<DapMessage, BackendError>(BackendError::Closed),
                ),
        );
        let mut effects: Vec<Effect<P, S, I>> = Vec::new();
        for delivery in it: cancelled.into_iter()
            invariant
                it.seq() == handed,
                handed == crate::client::cancellations(w.pending, BackendError::Closed),
                answers == Seq::new(
                    w.pending.len(),
                    |i: int|
                        EffectView::<P, S, I>::Answer(
                            w.pending[i].1,
                            Err::<DapMessage, BackendError>(BackendError::Closed),
                        ),
                ),
                effects@.len() == it.index(),
                forall|j: int| 0 <= j < it.index() ==> (#[trigger] effects@[j])@ == answers[j],
        {
            let (waiter, result) = delivery;
            effects.push(Effect::Answer(waiter, result));
        }
        assert(crate::model::views(effects@) =~= answers);
        let delivery = shared.stop_waiter.cancel();
        push_stop(&mut effects, delivery);
        self.end(&mut effects);
        assert(crate::model::views(effects@) =~= end_of_stream_effects(w));
        effects
    }
}

} // verus!
