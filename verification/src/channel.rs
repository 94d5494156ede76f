//! The channel between operation tasks and the contract handler.
//!
//! Operation tasks put requests in; the handler takes them out in the order
//! they came, answers each under the identifier it was sent with, and may give
//! one outcome to several waiters. Every step is one call on the channel, so a
//! run of many tasks is an interleaving of such calls.

use vstd::prelude::*;
use std::collections::VecDeque;
use crate::assoc::{
    has_key, index_of, keys_unique, lemma_entry, lemma_push, lemma_remove, lemma_same_keys,
    lemma_update, to_map,
};
use crate::contract::ContractError;
use crate::event::{ContractHandlerEvent, EventId, EventView};

verus! {

/// What a registered waiter awaits and what it has been given.
pub struct WaiterView {
    /// The identifier whose outcome the waiter awaits: its own, or that of the
    /// request it listens to.
    pub target: EventId,
    /// The response delivered and not yet collected.
    pub inbox: Option<EventView>,
}

/// The channel as plain values.
pub struct ChannelView {
    /// The identifier that the next request gets.
    pub next_id: usize,
    /// Whether the handler has stopped.
    pub closed: bool,
    /// How long a waiter waits before it gives up, if it ever does.
    pub timeout: Option<u64>,
    /// The requests not yet taken by the handler, oldest first.
    pub requests: Seq<(EventId, EventView)>,
    /// The registered waiters, each under the identifier it was issued.
    pub waiters: Map<EventId, WaiterView>,
}

impl ChannelView {
    /// A channel on which nothing has happened yet.
    pub open spec fn fresh(timeout: Option<u64>) -> ChannelView {
        ChannelView {
            next_id: 0,
            closed: false,
            timeout,
            requests: Seq::empty(),
            waiters: Map::empty(),
        }
    }

    /// Identifiers in use were all issued, and queued requests stand in the
    /// order of their identifiers.
    pub open spec fn wf(self) -> bool {
        &&& forall|t: EventId| #[trigger] self.waiters.dom().contains(t) ==> t.0 < self.next_id
        &&& forall|i: int|
            0 <= i < self.requests.len() ==> (#[trigger] self.requests[i]).0.0 < self.next_id
        &&& forall|i: int, j: int|
            0 <= i < j < self.requests.len() ==> (#[trigger] self.requests[i]).0.0 < (
            #[trigger] self.requests[j]).0.0
    }

    /// Whether a waiter is registered under `ticket`.
    pub open spec fn is_waiting(self, ticket: EventId) -> bool {
        self.waiters.dom().contains(ticket)
    }

    /// Whether the waiter under `ticket` is registered and has no response yet.
    pub open spec fn is_pending(self, ticket: EventId) -> bool {
        self.is_waiting(ticket) && self.waiters[ticket].inbox is None
    }

    /// Whether the waiter under `ticket` listens to the request `id` of
    /// another and has no response yet.
    pub open spec fn hears(self, id: EventId, ticket: EventId) -> bool {
        self.is_pending(ticket) && ticket != id && self.waiters[ticket].target == id
    }

    /// The channel after a request was sent on it while open.
    pub open spec fn send(self, ev: EventView) -> ChannelView {
        let id = EventId(self.next_id);
        ChannelView {
            next_id: (self.next_id + 1) as usize,
            requests: self.requests.push((id, ev)),
            waiters: self.waiters.insert(id, WaiterView { target: id, inbox: None }),
            ..self
        }
    }

    /// The channel after the handler took the oldest request.
    pub open spec fn receive(self) -> ChannelView {
        ChannelView { requests: self.requests.drop_first(), ..self }
    }

    /// The channel after `ev` was sent in answer to the request `id`: the
    /// waiter under `id` has it, if it is still there and had none.
    pub open spec fn respond(self, id: EventId, ev: EventView) -> ChannelView {
        if self.is_pending(id) {
            ChannelView {
                waiters: self.waiters.insert(
                    id,
                    WaiterView { target: self.waiters[id].target, inbox: Some(ev) },
                ),
                ..self
            }
        } else {
            self
        }
    }

    /// The channel after `ev` was sent to all who listen to the request `id`.
    pub open spec fn broadcast(self, id: EventId, ev: EventView) -> ChannelView {
        ChannelView {
            waiters: Map::new(
                |t: EventId| self.waiters.dom().contains(t),
                |t: EventId|
                    if self.hears(id, t) {
                        WaiterView { target: id, inbox: Some(ev) }
                    } else {
                        self.waiters[t]
                    },
            ),
            ..self
        }
    }

    /// The channel after the waiter under `ticket` was made a listener to the
    /// request `target`, if it is still there and has no response.
    pub open spec fn subscribe(self, ticket: EventId, target: EventId) -> ChannelView {
        if self.is_pending(ticket) {
            ChannelView {
                waiters: self.waiters.insert(ticket, WaiterView { target, inbox: None }),
                ..self
            }
        } else {
            self
        }
    }

    /// The channel without the waiter under `ticket`.
    pub open spec fn cancel(self, ticket: EventId) -> ChannelView {
        ChannelView { waiters: self.waiters.remove(ticket), ..self }
    }

    /// The channel after the handler stopped.
    pub open spec fn close(self) -> ChannelView {
        ChannelView { closed: true, ..self }
    }

    /// Whether a waiter that has waited for `elapsed` has waited too long.
    pub open spec fn timed_out(self, elapsed: u64) -> bool {
        self.timeout matches Some(bound) && elapsed >= bound
    }

    /// What the waiter under `ticket` is told after waiting for `elapsed`: its
    /// response if one was delivered; else that the channel is closed, or that
    /// it waited too long; else nothing yet. A ticket that is not registered
    /// is told that the channel is closed.
    pub open spec fn answer(self, ticket: EventId, elapsed: u64) -> Result<
        Option<EventView>,
        ContractError,
    > {
        if !self.is_waiting(ticket) {
            Err(ContractError::ChannelClosed)
        } else if let Some(ev) = self.waiters[ticket].inbox {
            Ok(Some(ev))
        } else if self.closed {
            Err(ContractError::ChannelClosed)
        } else if self.timed_out(elapsed) {
            Err(ContractError::Timeout)
        } else {
            Ok(None)
        }
    }

    /// The channel after the waiter under `ticket` was told `answer`: it stays
    /// registered only while there is nothing to tell.
    pub open spec fn collect(self, ticket: EventId, elapsed: u64) -> ChannelView {
        if self.answer(ticket, elapsed) == Ok::<Option<EventView>, ContractError>(None) {
            self
        } else {
            self.cancel(ticket)
        }
    }
}

/// A registered waiter.
struct Waiter {
    ticket: EventId,
    target: EventId,
    inbox: Option<ContractHandlerEvent>,
}

impl Waiter {
    spec fn state(self) -> WaiterView {
        WaiterView {
            target: self.target,
            inbox: match self.inbox {
                Some(ev) => Some(ev@),
                None => None,
            },
        }
    }
}

spec fn waiter_pairs(waiters: Seq<Waiter>) -> Seq<(EventId, WaiterView)> {
    Seq::new(waiters.len(), |i: int| (waiters[i].ticket, waiters[i].state()))
}

spec fn request_views(requests: Seq<(EventId, ContractHandlerEvent)>) -> Seq<(EventId, EventView)> {
    Seq::new(requests.len(), |i: int| (requests[i].0, requests[i].1@))
}

/// What `poll_response` returned, as plain values.
pub open spec fn answer_view(answer: Result<Option<ContractHandlerEvent>, ContractError>) -> Result<
    Option<EventView>,
    ContractError,
> {
    match answer {
        Ok(Some(ev)) => Ok(Some(ev@)),
        Ok(None) => Ok(None),
        Err(e) => Err(e),
    }
}

/// A two-way channel that remembers who sent each request and gives the
/// response to the one who waits for it.
pub struct ContractHandlerChannel {
    next_id: usize,
    closed: bool,
    timeout: Option<u64>,
    requests: VecDeque<(EventId, ContractHandlerEvent)>,
    waiters: Vec<Waiter>,
}

impl View for ContractHandlerChannel {
    type V = ChannelView;

    closed spec fn view(&self) -> ChannelView {
        ChannelView {
            next_id: self.next_id,
            closed: self.closed,
            timeout: self.timeout,
            requests: request_views(self.requests@),
            waiters: to_map(waiter_pairs(self.waiters@)),
        }
    }
}

impl ContractHandlerChannel {
    /// Whether the channel is in order: no two waiters under one identifier,
    /// and `ChannelView::wf` of what it holds.
    pub closed spec fn wf(&self) -> bool {
        &&& keys_unique(waiter_pairs(self.waiters@))
        &&& self@.wf()
    }

    /// A channel in order holds values in order.
    pub proof fn lemma_view_wf(&self)
        requires
            self.wf(),
        ensures
            self@.wf(),
    {
    }

    /// An open channel without a bound on waiting.
    pub fn new() -> (channel: Self)
        ensures
            channel.wf(),
            channel@ == ChannelView::fresh(None),
    {
        let channel = ContractHandlerChannel {
            next_id: 0,
            closed: false,
            timeout: None,
            requests: VecDeque::new(),
            waiters: Vec::new(),
        };
        assert(channel@.requests =~= Seq::empty());
        assert(channel@.waiters =~= Map::empty());
        channel
    }

    /// An open channel on which a waiter gives up once it has waited `bound`.
    pub fn with_timeout(bound: u64) -> (channel: Self)
        ensures
            channel.wf(),
            channel@ == ChannelView::fresh(Some(bound)),
    {
        let channel = ContractHandlerChannel {
            next_id: 0,
            closed: false,
            timeout: Some(bound),
            requests: VecDeque::new(),
            waiters: Vec::new(),
        };
        assert(channel@.requests =~= Seq::empty());
        assert(channel@.waiters =~= Map::empty());
        channel
    }

    fn find_waiter(&self, ticket: EventId) -> (found: Option<usize>)
        requires
            self.wf(),
        ensures
            match found {
                Some(i) => i < self.waiters.len() && self.waiters[i as int].ticket == ticket
                    && self@.is_waiting(ticket)
                    && self@.waiters[ticket] == self.waiters[i as int].state(),
                None => !self@.is_waiting(ticket),
            },
    {
        let ghost pairs = waiter_pairs(self.waiters@);
        let mut i: usize = 0;
        while i < self.waiters.len()
            invariant
                i <= self.waiters.len(),
                pairs == waiter_pairs(self.waiters@),
                keys_unique(pairs),
                forall|j: int| 0 <= j < i ==> (#[trigger] pairs[j]).0 != ticket,
            decreases self.waiters.len() - i,
        {
            if self.waiters[i].ticket == ticket {
                proof {
                    assert(pairs[i as int].0 == ticket);
                    lemma_entry(pairs, i as int);
                }
                return Some(i);
            }
            assert(pairs[i as int].0 != ticket);
            i = i + 1;
        }
        assert(!has_key(pairs, ticket));
        None
    }
}

impl ContractHandlerChannel {
    /// Sends a request to the handler and registers the sender as the waiter
    /// for its response. Returns the identifier under which to collect the
    /// response with `poll_response`. Fails with `ChannelClosed`, and changes
    /// nothing, once the handler has stopped.
    pub fn send_to_handler(&mut self, ev: ContractHandlerEvent) -> (sent: Result<
        EventId,
        ContractError,
    >)
        requires
            old(self).wf(),
            old(self)@.next_id < usize::MAX,
        ensures
            final(self).wf(),
            old(self)@.closed ==> sent == Err::<EventId, ContractError>(
                ContractError::ChannelClosed,
            ) && final(self)@ == old(self)@,
            !old(self)@.closed ==> sent == Ok::<EventId, ContractError>(
                EventId(old(self)@.next_id),
            ) && final(self)@ == old(self)@.send(ev@),
    {
        if self.closed {
            return Err(ContractError::ChannelClosed);
        }
        let id = EventId(self.next_id);
        let ghost pairs = waiter_pairs(self.waiters@);
        let ghost queued = request_views(self.requests@);
        proof {
            if has_key(pairs, id) {
                let i = index_of(pairs, id);
                lemma_entry(pairs, i);
            }
            lemma_push(pairs, id, WaiterView { target: id, inbox: None });
        }
        self.next_id = self.next_id + 1;
        self.requests.push_back((id, ev));
        self.waiters.push(Waiter { ticket: id, target: id, inbox: None });
        proof {
            assert(waiter_pairs(self.waiters@) =~= pairs.push(
                (id, WaiterView { target: id, inbox: None }),
            ));
            assert(request_views(self.requests@) =~= queued.push((id, ev@)));
        }
        Ok(id)
    }

    /// Takes the oldest request that the handler has not taken yet. `Ok(None)`
    /// says that none is pending on an open channel; `ChannelClosed`, that
    /// none is pending and none will come.
    pub fn recv_from_listeners(&mut self) -> (received: Result<
        Option<(EventId, ContractHandlerEvent)>,
        ContractError,
    >)
        requires
            old(self).wf(),
        ensures
            final(self).wf(),
            match received {
                Ok(Some(request)) => old(self)@.requests.len() > 0 && (request.0, request.1@)
                    == old(self)@.requests[0] && final(self)@ == old(self)@.receive(),
                Ok(None) => old(self)@.requests.len() == 0 && !old(self)@.closed && final(self)@
                    == old(self)@,
                Err(e) => old(self)@.requests.len() == 0 && old(self)@.closed && e
                    == ContractError::ChannelClosed && final(self)@ == old(self)@,
            },
    {
        let ghost queued = request_views(self.requests@);
        match self.requests.pop_front() {
            Some(request) => {
                proof {
                    assert(request_views(self.requests@) =~= queued.drop_first());
                    assert((request.0, request.1@) == queued[0]);
                    let after = queued.drop_first();
                    assert forall|i: int| 0 <= i < after.len() implies (#[trigger] after[i]).0.0
                        < self.next_id by {
                        assert(after[i] == queued[i + 1]);
                    }
                    assert forall|i: int, j: int| 0 <= i < j < after.len() implies (
                    #[trigger] after[i]).0.0 < (#[trigger] after[j]).0.0 by {
                        assert(after[i] == queued[i + 1]);
                        assert(after[j] == queued[j + 1]);
                    }
                }
                Ok(Some(request))
            },
            None => {
                assert(request_views(self.requests@) =~= queued);
                if self.closed {
                    Err(ContractError::ChannelClosed)
                } else {
                    Ok(None)
                }
            },
        }
    }

    /// Gives `ev` to the waiter of the request `id` as its response. Returns
    /// whether it was delivered: it is not, and nothing changes, if that
    /// waiter has gone or has a response already.
    pub fn respond(&mut self, id: EventId, ev: ContractHandlerEvent) -> (delivered: bool)
        requires
            old(self).wf(),
        ensures
            final(self).wf(),
            delivered == old(self)@.is_pending(id),
            final(self)@ == old(self)@.respond(id, ev@),
    {
        match self.find_waiter(id) {
            Some(i) => {
                if self.waiters[i].inbox.is_none() {
                    let ghost pairs = waiter_pairs(self.waiters@);
                    let target = self.waiters[i].target;
                    let ghost state = WaiterView { target, inbox: Some(ev@) };
                    self.waiters.set(i, Waiter { ticket: id, target, inbox: Some(ev) });
                    proof {
                        lemma_update(pairs, i as int, state);
                        assert(waiter_pairs(self.waiters@) =~= pairs.update(i as int, (id, state)));
                    }
                    true
                } else {
                    false
                }
            },
            None => false,
        }
    }

    /// Gives a copy of `ev` to every waiter that listens to the request `id`
    /// of another and has no response yet. A listener that has gone is not
    /// missed: nothing is kept for it.
    pub fn send_to_listeners(&mut self, id: EventId, ev: ContractHandlerEvent)
        requires
            old(self).wf(),
        ensures
            final(self).wf(),
            final(self)@ == old(self)@.broadcast(id, ev@),
    {
        let ghost before = self.waiters@;
        let ghost pairs = waiter_pairs(before);
        let ghost start = self@;
        let mut i: usize = 0;
        while i < self.waiters.len()
            invariant
                i <= self.waiters.len(),
                self.waiters.len() == before.len(),
                pairs == waiter_pairs(before),
                keys_unique(pairs),
                start.waiters == to_map(pairs),
                self.next_id == start.next_id,
                self.closed == start.closed,
                self.timeout == start.timeout,
                request_views(self.requests@) == start.requests,
                forall|j: int| i <= j < before.len() ==> self.waiters[j] == before[j],
                forall|j: int|
                    0 <= j < i ==> (#[trigger] self.waiters[j]).ticket == before[j].ticket
                        && self.waiters[j].state() == (if start.hears(id, before[j].ticket) {
                        WaiterView { target: id, inbox: Some(ev@) }
                    } else {
                        before[j].state()
                    }),
            decreases self.waiters.len() - i,
        {
            let ticket = self.waiters[i].ticket;
            let target = self.waiters[i].target;
            proof {
                lemma_entry(pairs, i as int);
                assert(pairs[i as int] == (before[i as int].ticket, before[i as int].state()));
            }
            if target == id && ticket != id && self.waiters[i].inbox.is_none() {
                self.waiters.set(i, Waiter { ticket, target, inbox: Some(ev.clone()) });
            }
            i = i + 1;
        }
        proof {
            let after = waiter_pairs(self.waiters@);
            assert forall|j: int| 0 <= j < pairs.len() implies (#[trigger] pairs[j]).0
                == after[j].0 by {
                assert(self.waiters[j].ticket == before[j].ticket);
            }
            lemma_same_keys(pairs, after);
            let wanted = start.broadcast(id, ev@).waiters;
            assert forall|t: EventId| to_map(after).dom().contains(t) implies #[trigger] to_map(
                after,
            )[t] == wanted[t] by {
                let j = index_of(pairs, t);
                lemma_entry(pairs, j);
                assert(after[j].0 == t);
                lemma_entry(after, j);
                assert(self.waiters[j].ticket == before[j].ticket);
            }
            assert(to_map(after) =~= wanted);
        }
    }

    /// Makes the waiter under `ticket` a listener to the request `target`,
    /// whose outcome it will be given by `send_to_listeners`. Returns whether
    /// it was done: it is not, and nothing changes, if that waiter has gone or
    /// has a response already.
    pub fn subscribe(&mut self, ticket: EventId, target: EventId) -> (subscribed: bool)
        requires
            old(self).wf(),
        ensures
            final(self).wf(),
            subscribed == old(self)@.is_pending(ticket),
            final(self)@ == old(self)@.subscribe(ticket, target),
    {
        match self.find_waiter(ticket) {
            Some(i) => {
                if self.waiters[i].inbox.is_none() {
                    let ghost pairs = waiter_pairs(self.waiters@);
                    let ghost state = WaiterView { target, inbox: None };
                    self.waiters.set(i, Waiter { ticket, target, inbox: None });
                    proof {
                        lemma_update(pairs, i as int, state);
                        assert(waiter_pairs(self.waiters@) =~= pairs.update(
                            i as int,
                            (ticket, state),
                        ));
                    }
                    true
                } else {
                    false
                }
            },
            None => false,
        }
    }

    /// Takes the waiter under `ticket` off the channel, whatever it was given.
    /// No other waiter is touched, and the request stays with the handler.
    pub fn cancel(&mut self, ticket: EventId)
        requires
            old(self).wf(),
        ensures
            final(self).wf(),
            final(self)@ == old(self)@.cancel(ticket),
    {
        match self.find_waiter(ticket) {
            Some(i) => {
                let ghost pairs = waiter_pairs(self.waiters@);
                let _ = self.waiters.remove(i);
                proof {
                    lemma_remove(pairs, i as int);
                    assert(waiter_pairs(self.waiters@) =~= pairs.remove(i as int));
                }
            },
            None => {
                assert(self@.waiters.remove(ticket) =~= self@.waiters);
            },
        }
    }

    /// Records that the handler has stopped: nothing more can be sent, and
    /// waiters without a response are told so when they ask.
    pub fn close(&mut self)
        requires
            old(self).wf(),
        ensures
            final(self).wf(),
            final(self)@ == old(self)@.close(),
    {
        self.closed = true;
    }

    /// Tells the waiter under `ticket`, which has waited for `elapsed`, what
    /// `ChannelView::answer` says: its response, a failure, or `Ok(None)` for
    /// nothing yet. The waiter stays registered only in the last case.
    pub fn poll_response(&mut self, ticket: EventId, elapsed: u64) -> (answer: Result<
        Option<ContractHandlerEvent>,
        ContractError,
    >)
        requires
            old(self).wf(),
        ensures
            final(self).wf(),
            answer_view(answer) == old(self)@.answer(ticket, elapsed),
            final(self)@ == old(self)@.collect(ticket, elapsed),
    {
        let found = self.find_waiter(ticket);
        match found {
            None => {
                assert(self@.waiters.remove(ticket) =~= self@.waiters);
                Err(ContractError::ChannelClosed)
            },
            Some(i) => {
                let timed_out = match self.timeout {
                    Some(bound) => elapsed >= bound,
                    None => false,
                };
                if self.waiters[i].inbox.is_none() && !self.closed && !timed_out {
                    return Ok(None);
                }
                let ghost pairs = waiter_pairs(self.waiters@);
                let waiter = self.waiters.remove(i);
                proof {
                    lemma_remove(pairs, i as int);
                    assert(waiter_pairs(self.waiters@) =~= pairs.remove(i as int));
                }
                match waiter.inbox {
                    Some(ev) => Ok(Some(ev)),
                    None => {
                        if self.closed {
                            Err(ContractError::ChannelClosed)
                        } else {
                            Err(ContractError::Timeout)
                        }
                    },
                }
            },
        }
    }

    /// Whether the handler has stopped.
    pub fn is_closed(&self) -> (closed: bool)
        ensures
            closed == self@.closed,
    {
        self.closed
    }

    /// How long a waiter waits before it gives up, if it ever does.
    pub fn timeout(&self) -> (bound: Option<u64>)
        ensures
            bound == self@.timeout,
    {
        self.timeout
    }

    /// Whether the next request can still be given an identifier.
    pub fn can_send(&self) -> (free: bool)
        ensures
            free == (self@.next_id < usize::MAX),
    {
        self.next_id < usize::MAX
    }

    /// How many requests the handler has not taken yet.
    pub fn pending_requests(&self) -> (count: usize)
        ensures
            count == self@.requests.len(),
    {
        self.requests.len()
    }

    /// Whether a waiter is registered under `ticket`.
    pub fn is_waiting(&self, ticket: EventId) -> (waiting: bool)
        requires
            self.wf(),
        ensures
            waiting == self@.is_waiting(ticket),
    {
        self.find_waiter(ticket).is_some()
    }
}

} // verus!
