//! The single slot of the one that waits for the next stop.

use vstd::prelude::*;

use crate::types::{StopInfo, StopInfoView, StopOutcome, StopOutcomeView};
use crate::wire::StoppedEvent;

verus! {

/// What a stopped event says of the stop.
pub open spec fn stop_info(event: StoppedEvent) -> StopInfoView {
    StopInfoView {
        reason: event.body.reason@,
        thread_id: event.body.thread_id as int,
        description: event.body.description@,
        hit_breakpoint_ids: event.body.hit_breakpoint_ids@,
    }
}

/// An outcome and the waiter that is to get it.
pub open spec fn delivery_view<S>(delivery: Option<(S, StopOutcome)>) -> Option<
    (S, StopOutcomeView),
> {
    match delivery {
        Some((waiter, outcome)) => Some((waiter, outcome@)),
        None => None,
    }
}

/// What becomes of the outcome `outcome` when the slot is `slot`: the slot's waiter gets it.
pub open spec fn delivered<S>(slot: Option<S>, outcome: StopOutcomeView) -> Option<
    (S, StopOutcomeView),
> {
    match slot {
        Some(waiter) => Some((waiter, outcome)),
        None => None,
    }
}

/// What a stopped event says of the stop.
pub fn stop_info_from_event(event: &StoppedEvent) -> (info: StopInfo)
    ensures
        info@ == stop_info(*event),
{
    let info = StopInfo {
        reason: event.body.reason.clone(),
        thread_id: event.body.thread_id,
        description: event.body.description.clone(),
        hit_breakpoint_ids: event.body.hit_breakpoint_ids.clone(),
    };
    assert(info.hit_breakpoint_ids@ =~= event.body.hit_breakpoint_ids@);
    info
}

/// At most one waiter of type `S`, which gets exactly one outcome.
#[derive(Debug)]
pub struct StopWaiter<S> {
    pub slot: Option<S>,
}

impl<S> StopWaiter<S> {
    /// Nobody waits.
    pub fn new() -> (waiter: Self)
        ensures
            waiter.slot is None,
    {
        StopWaiter { slot: None }
    }

    /// Lets `waiter` wait. One that waited before is handed back, and gets nothing.
    pub fn register(&mut self, waiter: S) -> (replaced: Option<S>)
        ensures
            final(self).slot == Some(waiter),
            replaced == old(self).slot,
    {
        let replaced = self.slot.take();
        self.slot = Some(waiter);
        replaced
    }

    /// The debuggee stopped: the waiter, if there is one, gets the stop and is gone.
    pub fn deliver(&mut self, event: &StoppedEvent) -> (delivery: Option<(S, StopOutcome)>)
        ensures
            delivery_view(delivery) == delivered(
                old(self).slot,
                StopOutcomeView::Stopped(stop_info(*event)),
            ),
            final(self).slot is None,
    {
        self.send(StopOutcome::Stopped(stop_info_from_event(event)))
    }

    /// The debuggee exited: the waiter, if there is one, gets the code and is gone.
    pub fn deliver_exit(&mut self, exit_code: i64) -> (delivery: Option<(S, StopOutcome)>)
        ensures
            delivery_view(delivery) == delivered(
                old(self).slot,
                StopOutcomeView::Exited { code: Some(exit_code) },
            ),
            final(self).slot is None,
    {
        self.send(StopOutcome::Exited { code: Some(exit_code) })
    }

    /// The connection ended: the waiter, if there is one, hears of it and is gone.
    pub fn cancel(&mut self) -> (delivery: Option<(S, StopOutcome)>)
        ensures
            delivery_view(delivery) == delivered(old(self).slot, StopOutcomeView::Terminated),
            final(self).slot is None,
    {
        self.send(StopOutcome::Terminated)
    }

    fn send(&mut self, outcome: StopOutcome) -> (delivery: Option<(S, StopOutcome)>)
        ensures
            delivery_view(delivery) == delivered(old(self).slot, outcome@),
            final(self).slot is None,
    {
        match self.slot.take() {
            Some(waiter) => Some((waiter, outcome)),
            None => None,
        }
    }
}

impl<S> Default for StopWaiter<S> {
    /// Nobody waits.
    fn default() -> (waiter: Self)
        ensures
            waiter.slot is None,
    {
        StopWaiter::new()
    }
}

} // verus!
