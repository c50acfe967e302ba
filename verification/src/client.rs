//! The client's side of the protocol: numbering requests, and matching each response with the one
//! that waits for it.

use vstd::prelude::*;

use crate::error::{clone_backend_error, BackendError, BackendErrorView, WireError};
use crate::id_map::IdMap;
use crate::stop_waiter::StopWaiter;
use crate::wire::{DapMessage, Request};

verus! {

/// What the one that waits for a response gets: the response, or why there is none.
pub type PendingResult = Result<DapMessage, BackendError>;

/// The signal that the debugger is initialized: it fires once and for all, and one may wait for
/// it.
#[derive(Debug)]
pub struct InitializedSignal<I> {
    pub fired: bool,
    pub waiter: Option<I>,
}

/// What became of the wish to wait for the signal.
#[derive(Debug)]
pub enum InitializedWait<I> {
    /// The signal has fired already: there is nothing to wait for.
    Ready(I),
    /// The waiter is parked, in place of the one that may have been there.
    Parked(Option<I>),
}

impl<I> InitializedSignal<I> {
    /// The signal that has not fired.
    pub fn new() -> (signal: Self)
        ensures
            !signal.fired,
            signal.waiter is None,
    {
        InitializedSignal { fired: false, waiter: None }
    }

    /// Fires, and hands out the waiter that is to be woken.
    pub fn signal(&mut self) -> (woken: Option<I>)
        ensures
            final(self).fired,
            final(self).waiter is None,
            woken == old(self).waiter,
    {
        self.fired = true;
        self.waiter.take()
    }

    /// Parks `waiter` until the signal fires, unless it has.
    pub fn wait(&mut self, waiter: I) -> (outcome: InitializedWait<I>)
        ensures
            old(self).fired ==> outcome == InitializedWait::Ready(waiter) && *final(self) == *old(
                self,
            ),
            !old(self).fired ==> outcome == InitializedWait::Parked(old(self).waiter)
                && !final(self).fired && final(self).waiter == Some(waiter),
    {
        if self.fired {
            InitializedWait::Ready(waiter)
        } else {
            let replaced = self.waiter.take();
            self.waiter = Some(waiter);
            InitializedWait::Parked(replaced)
        }
    }
}

/// What the senders and the reader of one connection share: the number of the last request, who
/// waits for a response (a `P` each), who waits for the next stop (an `S`) and who for the
/// debugger to be initialized (an `I`).
#[derive(Debug)]
pub struct Shared<P, S, I> {
    pub seq: i64,
    pub pending: IdMap<P>,
    pub stop_waiter: StopWaiter<S>,
    pub initialized: InitializedSignal<I>,
}

impl<P, S, I> Shared<P, S, I> {
    /// Whoever waits for a response waits for that to a request which has been numbered.
    pub open spec fn wf(self) -> bool {
        &&& self.pending.wf()
        &&& 0 <= self.seq
        &&& forall|key: i64| #[trigger] self.pending@.dom().contains(key) ==> 1 <= key <= self.seq
    }

    /// Nothing sent, and nobody waiting.
    pub fn new() -> (shared: Self)
        ensures
            shared.wf(),
            shared.seq == 0,
            shared.pending@ == Map::<i64, P>::empty(),
            shared.stop_waiter.slot is None,
            !shared.initialized.fired,
            shared.initialized.waiter is None,
    {
        Shared {
            seq: 0,
            pending: IdMap::new(),
            stop_waiter: StopWaiter::new(),
            initialized: InitializedSignal::new(),
        }
    }

    /// The next number: one more than the last, the first being one.
    pub fn next_seq(&mut self) -> (seq: i64)
        requires
            old(self).wf(),
            old(self).seq < i64::MAX,
        ensures
            seq == old(self).seq + 1,
            *final(self) == (Shared { seq, ..*old(self) }),
            final(self).wf(),
            !final(self).pending@.dom().contains(seq),
    {
        let seq: i64 = self.seq + 1;
        self.seq = seq;
        seq
    }

    /// Lets `waiter` wait for the response to request `seq`. One that waited for it before is
    /// handed back.
    pub fn register_pending(&mut self, seq: i64, waiter: P) -> (replaced: Option<P>)
        requires
            old(self).wf(),
            1 <= seq <= old(self).seq,
        ensures
            final(self).wf(),
            final(self).pending@ == old(self).pending@.insert(seq, waiter),
            final(self).seq == old(self).seq,
            final(self).stop_waiter == old(self).stop_waiter,
            final(self).initialized == old(self).initialized,
            match replaced {
                Some(w) => old(self).pending@.dom().contains(seq) && w == old(self).pending@[seq],
                None => !old(self).pending@.dom().contains(seq),
            },
    {
        self.pending.insert(seq, waiter)
    }

    /// Takes out the one that waits for the response to request `seq`.
    pub fn remove_pending(&mut self, seq: i64) -> (removed: Option<P>)
        requires
            old(self).wf(),
        ensures
            final(self).wf(),
            final(self).pending@ == old(self).pending@.remove(seq),
            final(self).pending.entries@ == crate::id_map::without(old(self).pending.entries@, seq),
            final(self).seq == old(self).seq,
            final(self).stop_waiter == old(self).stop_waiter,
            final(self).initialized == old(self).initialized,
            match removed {
                Some(w) => old(self).pending@.dom().contains(seq) && w == old(self).pending@[seq],
                None => !old(self).pending@.dom().contains(seq),
            },
    {
        self.pending.remove(seq)
    }

    /// The response to request `seq` is `message`: the one that waits for it gets it and waits no
    /// more. Nothing is handed out when nobody waits for it.
    pub fn dispatch_response(&mut self, seq: i64, message: DapMessage) -> (delivery: Option<
        (P, PendingResult),
    >)
        requires
            old(self).wf(),
        ensures
            final(self).wf(),
            final(self).pending@ == old(self).pending@.remove(seq),
            final(self).pending.entries@ == crate::id_map::without(old(self).pending.entries@, seq),
            final(self).seq == old(self).seq,
            final(self).stop_waiter == old(self).stop_waiter,
            final(self).initialized == old(self).initialized,
            delivery == (if old(self).pending@.dom().contains(seq) {
                Some((old(self).pending@[seq], Ok::<DapMessage, BackendError>(message)))
            } else {
                None
            }),
    {
        match self.remove_pending(seq) {
            Some(waiter) => Some((waiter, Ok(message))),
            None => None,
        }
    }

    /// Everyone that waits for a response gets `err`, in the order of their requests, and nobody
    /// waits any more.
    pub fn cancel_all_pending(&mut self, err: &BackendError) -> (deliveries: Vec<
        (P, PendingResult),
    >)
        requires
            old(self).wf(),
        ensures
            final(self).wf(),
            final(self).pending@ == Map::<i64, P>::empty(),
            final(self).pending.entries@ == Seq::<(i64, P)>::empty(),
            final(self).seq == old(self).seq,
            final(self).stop_waiter == old(self).stop_waiter,
            final(self).initialized == old(self).initialized,
            deliveries@ == cancellations(old(self).pending.entries@, *err),
    {
        let mut cancelled: IdMap<P> = IdMap::new();
        std::mem::swap(&mut cancelled, &mut self.pending);
        let ghost entries = cancelled.entries@;
        let mut deliveries: Vec<(P, PendingResult)> = Vec::new();
        for entry in it: cancelled.entries.into_iter()
            invariant
                it.seq() == entries,
                deliveries@ == cancellations(entries, *err).take(it.index() as int),
        {
            let (_, waiter) = entry;
            deliveries.push((waiter, Err(clone_backend_error(err))));
            proof {
                let k = it.index() as int;
                let all = cancellations(entries, *err);
                assert(all.take(k + 1) =~= all.take(k).push(all[k]));
            }
        }
        assert(cancellations(entries, *err).take(entries.len() as int) =~= cancellations(
            entries,
            *err,
        ));
        deliveries
    }

    /// The debugger is initialized: the one that waits for it is handed out to be woken. Later
    /// signals change nothing.
    pub fn signal_initialized(&mut self) -> (woken: Option<I>)
        requires
            old(self).wf(),
        ensures
            final(self).wf(),
            final(self).initialized == (InitializedSignal::<I> { fired: true, waiter: None }),
            woken == old(self).initialized.waiter,
            final(self).pending == old(self).pending,
            final(self).seq == old(self).seq,
            final(self).stop_waiter == old(self).stop_waiter,
    {
        self.initialized.signal()
    }

    /// Parks `waiter` until the debugger is initialized, unless it is.
    pub fn wait_initialized(&mut self, waiter: I) -> (outcome: InitializedWait<I>)
        requires
            old(self).wf(),
        ensures
            final(self).wf(),
            old(self).initialized.fired ==> outcome == InitializedWait::Ready(waiter)
                && *final(self) == *old(self),
            !old(self).initialized.fired ==> outcome == InitializedWait::Parked(
                old(self).initialized.waiter,
            ) && final(self).initialized == (InitializedSignal {
                fired: false,
                waiter: Some(waiter),
            }),
            final(self).pending == old(self).pending,
            final(self).seq == old(self).seq,
            final(self).stop_waiter == old(self).stop_waiter,
    {
        self.initialized.wait(waiter)
    }

    /// How many wait for a response.
    pub fn pending_len(&self) -> (n: usize)
        requires
            self.wf(),
        ensures
            n == self.pending@.dom().len(),
    {
        self.pending.len()
    }

    /// Whether someone waits for the response to request `seq`.
    pub fn has_pending(&self, seq: i64) -> (found: bool)
        requires
            self.wf(),
        ensures
            found == self.pending@.dom().contains(seq),
    {
        self.pending.contains_key(seq)
    }

    /// Numbers `request` and lets `waiter` wait for its response. The numbered request is to be
    /// written.
    pub fn begin_send(&mut self, request: Request, waiter: P) -> (numbered: Request)
        requires
            old(self).wf(),
            old(self).seq < i64::MAX,
        ensures
            final(self).wf(),
            numbered == (Request { seq: (old(self).seq + 1) as i64, ..request }),
            !old(self).pending@.dom().contains(numbered.seq),
            final(self).pending@ == old(self).pending@.insert(numbered.seq, waiter),
            final(self).seq == numbered.seq,
            final(self).stop_waiter == old(self).stop_waiter,
            final(self).initialized == old(self).initialized,
    {
        let mut request = request;
        let seq = self.next_seq();
        request.set_seq(seq);
        let _ = self.register_pending(seq, waiter);
        request
    }

    /// Request `seq` could not be written because of `err`: nobody waits for its response any
    /// more, and its sender gets the error that is returned.
    pub fn fail_send(&mut self, seq: i64, err: &WireError) -> (failure: BackendError)
        requires
            old(self).wf(),
        ensures
            final(self).wf(),
            failure@ == BackendErrorView::Send(err@.text()),
            final(self).pending@ == old(self).pending@.remove(seq),
            final(self).pending.entries@ == crate::id_map::without(old(self).pending.entries@, seq),
            final(self).seq == old(self).seq,
            final(self).stop_waiter == old(self).stop_waiter,
            final(self).initialized == old(self).initialized,
    {
        let _ = self.remove_pending(seq);
        BackendError::Send(err.to_string())
    }
}

/// What is handed out when everyone in `entries` gets `err`.
pub open spec fn cancellations<P>(entries: Seq<(i64, P)>, err: BackendError) -> Seq<
    (P, PendingResult),
> {
    Seq::new(entries.len(), |i: int| (entries[i].1, Err::<DapMessage, BackendError>(err)))
}

/// What a sender makes of what it received: nothing received means that the connection is closed.
pub fn received(result: Option<PendingResult>) -> (outcome: PendingResult)
    ensures
        outcome == (match result {
            Some(r) => r,
            None => Err::<DapMessage, BackendError>(BackendError::Closed),
        }),
{
    match result {
        Some(r) => r,
        None => Err(BackendError::Closed),
    }
}

/// Takes request `seq` back when its sender gives up before the response is there.
#[derive(Debug)]
pub struct AbortGuard {
    pub seq: i64,
    pub armed: bool,
}

impl AbortGuard {
    /// The guard of request `seq`.
    pub fn new(seq: i64) -> (guard: Self)
        ensures
            guard.seq == seq,
            guard.armed,
    {
        AbortGuard { seq, armed: true }
    }

    /// The response is there: nothing is to be taken back.
    pub fn disarm(&mut self)
        ensures
            !final(self).armed,
            final(self).seq == old(self).seq,
    {
        self.armed = false;
    }

    /// Nobody waits for the response any more, unless the guard was disarmed. Whoever had been
    /// taken out already is of no consequence.
    pub fn release<P, S, I>(&self, shared: &mut Shared<P, S, I>) -> (removed: Option<P>)
        requires
            old(shared).wf(),
        ensures
            final(shared).wf(),
            !self.armed ==> *final(shared) == *old(shared) && removed is None,
            self.armed ==> final(shared).pending@ == old(shared).pending@.remove(self.seq),
            self.armed ==> match removed {
                Some(w) => old(shared).pending@.dom().contains(self.seq) && w
                    == old(shared).pending@[self.seq],
                None => !old(shared).pending@.dom().contains(self.seq),
            },
            final(shared).seq == old(shared).seq,
            final(shared).stop_waiter == old(shared).stop_waiter,
            final(shared).initialized == old(shared).initialized,
    {
        if self.armed {
            shared.remove_pending(self.seq)
        } else {
            None
        }
    }
}

/// Waiting for a response and for the debugger to be initialized, in whatever order they come.
#[derive(Debug)]
pub struct DualAwait {
    pub response: Option<PendingResult>,
    pub initialized: bool,
}

impl DualAwait {
    /// Both are still to come.
    pub fn new() -> (wait: Self)
        ensures
            wait.response is None,
            !wait.initialized,
    {
        DualAwait { response: None, initialized: false }
    }

    /// Whether both have come.
    pub open spec fn complete(self) -> bool {
        self.response is Some && self.initialized
    }

    /// Where things stand once the response came, or the news that none will come. Only the first
    /// counts.
    pub open spec fn with_response(self, result: Option<PendingResult>) -> Self {
        match (self.response, result) {
            (Some(_), _) => self,
            (None, Some(r)) => DualAwait { response: Some(r), ..self },
            (None, None) => DualAwait {
                response: Some(Err::<DapMessage, BackendError>(BackendError::Closed)),
                ..self
            },
        }
    }

    /// Where things stand once the debugger is initialized.
    pub open spec fn with_initialized(self) -> Self {
        DualAwait { initialized: true, ..self }
    }

    /// Whether both have come.
    pub fn is_complete(&self) -> (complete: bool)
        ensures
            complete == self.complete(),
    {
        self.response.is_some() && self.initialized
    }

    /// The response came. Only the first counts.
    pub fn on_response(&mut self, result: Option<PendingResult>)
        ensures
            *final(self) == old(self).with_response(result),
    {
        if self.response.is_none() {
            self.response = Some(received(result));
        }
    }

    /// The debugger is initialized.
    pub fn on_initialized(&mut self)
        ensures
            *final(self) == old(self).with_initialized(),
    {
        self.initialized = true;
    }

    /// The response, once both have come.
    pub fn finish(self) -> (result: PendingResult)
        requires
            self.complete(),
        ensures
            self.response == Some(result),
    {
        match self.response {
            Some(result) => result,
            None => Err(BackendError::Closed),
        }
    }
}

/// It makes no difference whether the response or the news that the debugger is initialized comes
/// first: both are needed, and the response is the result.
pub proof fn law_order_of_response_and_initialized(result: Option<PendingResult>)
    ensures
        ({
            let start = DualAwait { response: None, initialized: false };
            let one = start.with_response(result).with_initialized();
            let other = start.with_initialized().with_response(result);
            &&& one == other
            &&& one.complete()
            &&& !start.with_response(result).complete()
            &&& !start.with_initialized().complete()
            &&& one.response == Some(
                match result {
                    Some(r) => r,
                    None => Err::<DapMessage, BackendError>(BackendError::Closed),
                },
            )
        }),
{
}

/// A request that is taken back, because it could not be written or its sender gave up, leaves no
/// trace among those that wait: it is as if it had never been sent.
pub proof fn law_request_taken_back_leaves_no_trace<P>(pending: Map<i64, P>, seq: i64, waiter: P)
    requires
        !pending.dom().contains(seq),
    ensures
        pending.insert(seq, waiter).remove(seq) == pending,
{
    assert(pending.insert(seq, waiter).remove(seq) =~= pending);
}

} // verus!
