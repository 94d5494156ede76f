//! The contract handler: the one owner of the cached contracts and of their
//! states.
//!
//! The verifier and the byte store are services outside this library. The
//! handler never calls them. It says what is to be asked of them, and is told
//! what they answered: each function here takes the handler from one state to
//! the next and returns what the runtime around it has to do.

use vstd::prelude::*;
use std::collections::VecDeque;
use crate::assoc::{has_key, index_of, keys_unique, lemma_entry, lemma_push, lemma_remove, to_map};
use crate::channel::{ChannelView, ContractHandlerChannel};
use crate::contract::{
    copy_bytes, same_bytes, Contract, ContractError, ContractKey, ContractPutValue, ContractState,
    ContractView, PutValueView,
};
use crate::event::{ContractHandlerEvent, EventId, EventView};

verus! {

/// What the byte store said of a write.
#[derive(Clone, Copy, Debug, PartialEq, Eq, Structural)]
pub enum StoreWrite {
    /// The bytes are stored.
    Written,
    /// The store failed; nothing can be said of what it holds.
    Failed,
}

/// What the verifier said of a proposed update, as plain values.
pub enum VerdictView {
    Accept(Seq<u8>),
    Reject,
    Fault,
}

/// What the verifier said of a proposed update.
#[derive(Debug, PartialEq, Eq)]
pub enum VerifierOutcome {
    /// The update is valid and leads to this state.
    Accept(ContractState),
    /// The contract's logic refuses the update.
    Reject,
    /// The verifier could not run the contract.
    Fault,
}

impl View for VerifierOutcome {
    type V = VerdictView;

    open spec fn view(&self) -> VerdictView {
        match *self {
            VerifierOutcome::Accept(state) => VerdictView::Accept(state@),
            VerifierOutcome::Reject => VerdictView::Reject,
            VerifierOutcome::Fault => VerdictView::Fault,
        }
    }
}

/// A write that is under way or waits its turn, as plain values.
pub struct PutView {
    /// The request that asked for the write.
    pub id: EventId,
    /// The update it proposes.
    pub update: Seq<u8>,
    /// The state the verifier accepted, while it is being stored.
    pub accepted: Option<Seq<u8>>,
}

/// All that the handler holds of one contract, as plain values.
pub struct EntryView {
    /// The cached code.
    pub contract: ContractView,
    /// The current state, once a write has succeeded.
    pub state: Option<Seq<u8>>,
    /// The one write that is with the verifier or the store.
    pub in_flight: Option<PutView>,
    /// The writes that wait behind it, oldest first.
    pub queued: Seq<PutView>,
}

impl EntryView {
    /// The entry of a contract that was just cached.
    pub open spec fn cached(contract: ContractView) -> EntryView {
        EntryView { contract, state: None, in_flight: None, queued: Seq::empty() }
    }

    /// The request whose write proposes `update`, if one is under way or
    /// waiting: the one under way first, then the oldest that waits.
    pub open spec fn leader(self, update: Seq<u8>) -> Option<EventId> {
        match self.in_flight {
            Some(put) if put.update == update => Some(put.id),
            _ => first_with(self.queued, update),
        }
    }

    /// Nothing waits unless a write is under way, and what waits has not been
    /// to the verifier.
    pub open spec fn wf(self) -> bool {
        &&& self.in_flight is None ==> self.queued.len() == 0
        &&& forall|i: int| 0 <= i < self.queued.len() ==> (#[trigger] self.queued[i]).accepted is None
    }
}

/// The request of the first write in `puts` that proposes `update`.
pub open spec fn first_with(puts: Seq<PutView>, update: Seq<u8>) -> Option<EventId>
    decreases puts.len(),
{
    if puts.len() == 0 {
        None
    } else if puts[0].update == update {
        Some(puts[0].id)
    } else {
        first_with(puts.drop_first(), update)
    }
}

/// What the runtime is to do for the handler, as plain values.
pub enum ActionView {
    Idle,
    Verify { key: Seq<u8>, contract: ContractView, current: Option<Seq<u8>>, update: Seq<u8> },
    PersistState { key: Seq<u8>, state: Seq<u8> },
    PersistContract { id: EventId, contract: ContractView },
}

/// What the runtime is to do for the handler next.
#[derive(Debug, PartialEq, Eq)]
pub enum HandlerAction {
    /// Nothing.
    Idle,
    /// Ask the verifier whether `update` is valid for the contract in the state
    /// `current`, and hand its answer to `put_value`.
    Verify { key: ContractKey, contract: Contract, current: Option<ContractState>, update: Vec<u8> },
    /// Write `state` to the byte store under `key`, and hand the store's
    /// answer to `put_value`.
    PersistState { key: ContractKey, state: ContractState },
    /// Write `contract` to the byte store, and hand the store's answer to
    /// `cache_result`, with `id` and the contract.
    PersistContract { id: EventId, contract: Contract },
}

impl View for HandlerAction {
    type V = ActionView;

    open spec fn view(&self) -> ActionView {
        match *self {
            HandlerAction::Idle => ActionView::Idle,
            HandlerAction::Verify { key, contract, current, update } => ActionView::Verify {
                key: key@,
                contract: contract@,
                current: state_view(current),
                update: update@,
            },
            HandlerAction::PersistState { key, state } => ActionView::PersistState {
                key: key@,
                state: state@,
            },
            HandlerAction::PersistContract { id, contract } => ActionView::PersistContract {
                id,
                contract: contract@,
            },
        }
    }
}

/// What has happened to a write, as plain values.
pub enum PutEventView {
    Requested { id: EventId, update: Seq<u8> },
    Verified(VerdictView),
    Persisted(StoreWrite),
}

/// What has happened to a write.
#[derive(Debug, PartialEq, Eq)]
pub enum PutEvent {
    /// The request `id` asks to apply `update`.
    Requested { id: EventId, update: Vec<u8> },
    /// The verifier answered for the write that is under way.
    Verified(VerifierOutcome),
    /// The byte store answered for the write that is under way.
    Persisted(StoreWrite),
}

impl View for PutEvent {
    type V = PutEventView;

    open spec fn view(&self) -> PutEventView {
        match *self {
            PutEvent::Requested { id, update } => PutEventView::Requested { id, update: update@ },
            PutEvent::Verified(outcome) => PutEventView::Verified(outcome@),
            PutEvent::Persisted(write) => PutEventView::Persisted(write),
        }
    }
}

/// One step of a write, as plain values.
pub struct StepView {
    pub outcome: Option<Result<PutValueView, ContractError>>,
    pub action: ActionView,
}

/// One step of a write.
#[derive(Debug, PartialEq, Eq)]
pub struct PutStep {
    /// How a write ended at this step, if one did. Its waiters have been
    /// given this outcome.
    pub outcome: Option<Result<ContractPutValue, ContractError>>,
    /// What the runtime is to do next.
    pub action: HandlerAction,
}

impl View for PutStep {
    type V = StepView;

    open spec fn view(&self) -> StepView {
        StepView {
            outcome: match self.outcome {
                Some(Ok(value)) => Some(Ok(value@)),
                Some(Err(e)) => Some(Err(e)),
                None => None,
            },
            action: self.action@,
        }
    }
}

/// The handler as plain values.
pub struct HandlerView {
    /// The channel to the operation tasks.
    pub channel: ChannelView,
    /// What is held of each contract, by the bytes of its key.
    pub entries: Map<Seq<u8>, EntryView>,
}

impl HandlerView {
    /// A handler that holds no contract yet.
    pub open spec fn fresh(channel: ChannelView) -> HandlerView {
        HandlerView { channel, entries: Map::empty() }
    }

    /// Each contract stands under its own key, and each entry is in order.
    pub open spec fn entries_wf(self) -> bool {
        forall|key: Seq<u8>| #[trigger]
            self.entries.dom().contains(key) ==> self.entries[key].contract.key == key
                && self.entries[key].wf()
    }

    /// The channel and the entries are in order.
    pub open spec fn wf(self) -> bool {
        self.channel.wf() && self.entries_wf()
    }

    /// The cached code of the contract `key`, if there is any.
    pub open spec fn fetch(self, key: Seq<u8>) -> Option<ContractView> {
        if self.entries.dom().contains(key) {
            Some(self.entries[key].contract)
        } else {
            None
        }
    }

    /// The current state of the contract `key`, if it has one.
    pub open spec fn state_of(self, key: Seq<u8>) -> Option<Seq<u8>> {
        if self.entries.dom().contains(key) {
            self.entries[key].state
        } else {
            None
        }
    }

    /// Whether a write to the contract `key` is with the verifier or the store.
    pub open spec fn in_flight(self, key: Seq<u8>) -> bool {
        self.entries.dom().contains(key) && self.entries[key].in_flight is Some
    }

    /// The handler after `contract` was written to the store with the result
    /// `write`: cached if and only if the store holds it.
    pub open spec fn store(self, contract: ContractView, write: StoreWrite) -> HandlerView {
        if write == StoreWrite::Failed {
            self
        } else if self.entries.dom().contains(contract.key) {
            HandlerView {
                entries: self.entries.insert(
                    contract.key,
                    EntryView { contract, ..self.entries[contract.key] },
                ),
                ..self
            }
        } else {
            HandlerView {
                entries: self.entries.insert(contract.key, EntryView::cached(contract)),
                ..self
            }
        }
    }

    /// Whether the contract `key` can be dropped: it is held, and no write to
    /// it is under way.
    pub open spec fn can_invalidate(self, key: Seq<u8>) -> bool {
        self.entries.dom().contains(key) && self.entries[key].in_flight is None
    }

    /// The handler after the contract `key` was dropped, if it can be.
    pub open spec fn invalidate(self, key: Seq<u8>) -> HandlerView {
        if self.can_invalidate(key) {
            HandlerView { entries: self.entries.remove(key), ..self }
        } else {
            self
        }
    }

    /// A step that changes nothing and asks for nothing.
    pub open spec fn stay(self) -> (HandlerView, StepView) {
        (self, StepView { outcome: None, action: ActionView::Idle })
    }

    /// The step that refuses the request `id` with `error` at once.
    pub open spec fn refuse(self, id: EventId, error: ContractError) -> (HandlerView, StepView) {
        (
            HandlerView {
                channel: self.channel.respond(
                    id,
                    EventView::PushResponse { new_value: Err(error) },
                ),
                ..self
            },
            StepView { outcome: Some(Err(error)), action: ActionView::Idle },
        )
    }

    /// The step taken when the request `id` asks to apply `update` to the
    /// contract `key`.
    ///
    /// Without cached code the request is refused with `NotFound`; with an
    /// empty update, with `InvalidUpdate`. If no write to the contract is
    /// under way, this one goes to the verifier. If a write with the same
    /// update is under way or waiting, the request becomes a listener to it.
    /// Else the write waits behind the others.
    pub open spec fn put_requested(self, key: Seq<u8>, id: EventId, update: Seq<u8>) -> (
        HandlerView,
        StepView,
    ) {
        if !self.entries.dom().contains(key) {
            self.refuse(id, ContractError::NotFound)
        } else if update.len() == 0 {
            self.refuse(id, ContractError::InvalidUpdate)
        } else {
            let entry = self.entries[key];
            let put = PutView { id, update, accepted: None };
            if entry.in_flight is None {
                (
                    HandlerView {
                        entries: self.entries.insert(
                            key,
                            EntryView { in_flight: Some(put), ..entry },
                        ),
                        ..self
                    },
                    StepView {
                        outcome: None,
                        action: ActionView::Verify {
                            key,
                            contract: entry.contract,
                            current: entry.state,
                            update,
                        },
                    },
                )
            } else if let Some(leader) = entry.leader(update) {
                (
                    HandlerView { channel: self.channel.subscribe(id, leader), ..self },
                    StepView { outcome: None, action: ActionView::Idle },
                )
            } else {
                (
                    HandlerView {
                        entries: self.entries.insert(
                            key,
                            EntryView { queued: entry.queued.push(put), ..entry },
                        ),
                        ..self
                    },
                    StepView { outcome: None, action: ActionView::Idle },
                )
            }
        }
    }

    /// The step that ends the write under way for the contract `key` with
    /// `result`: the one who asked and all who listen are given the result,
    /// and the oldest write that waits, if any, goes to the verifier.
    pub open spec fn finish(self, key: Seq<u8>, result: Result<PutValueView, ContractError>) -> (
        HandlerView,
        StepView,
    )
        recommends
            self.in_flight(key),
    {
        let entry = self.entries[key];
        let done = entry.in_flight->0;
        let response = EventView::PushResponse { new_value: result };
        let channel = self.channel.respond(done.id, response).broadcast(done.id, response);
        if entry.queued.len() == 0 {
            (
                HandlerView {
                    channel,
                    entries: self.entries.insert(key, EntryView { in_flight: None, ..entry }),
                },
                StepView { outcome: Some(result), action: ActionView::Idle },
            )
        } else {
            let next = entry.queued[0];
            (
                HandlerView {
                    channel,
                    entries: self.entries.insert(
                        key,
                        EntryView {
                            in_flight: Some(next),
                            queued: entry.queued.drop_first(),
                            ..entry
                        },
                    ),
                },
                StepView {
                    outcome: Some(result),
                    action: ActionView::Verify {
                        key,
                        contract: entry.contract,
                        current: entry.state,
                        update: next.update,
                    },
                },
            )
        }
    }

    /// The step taken when the verifier has answered for the contract `key`.
    ///
    /// An accepted state goes to the byte store; nothing is changed in memory
    /// yet. A rejection ends the write with `InvalidUpdate`, a fault with
    /// `VerifierError`, and the state stays as it was. An answer that no write
    /// awaits is passed over.
    pub open spec fn put_verified(self, key: Seq<u8>, verdict: VerdictView) -> (
        HandlerView,
        StepView,
    ) {
        if !self.in_flight(key) || self.entries[key].in_flight->0.accepted is Some {
            self.stay()
        } else {
            let entry = self.entries[key];
            match verdict {
                VerdictView::Accept(state) => (
                    HandlerView {
                        entries: self.entries.insert(
                            key,
                            EntryView {
                                in_flight: Some(
                                    PutView { accepted: Some(state), ..entry.in_flight->0 },
                                ),
                                ..entry
                            },
                        ),
                        ..self
                    },
                    StepView {
                        outcome: None,
                        action: ActionView::PersistState { key, state },
                    },
                ),
                VerdictView::Reject => self.finish(key, Err(ContractError::InvalidUpdate)),
                VerdictView::Fault => self.finish(key, Err(ContractError::VerifierError)),
            }
        }
    }

    /// The step taken when the byte store has answered for the contract `key`.
    ///
    /// If the accepted state is stored, it becomes the contract's state and
    /// the write ends with it. If the store failed, the write ends with
    /// `StorageIO` and the state stays as it was. An answer that no write
    /// awaits is passed over.
    pub open spec fn put_persisted(self, key: Seq<u8>, write: StoreWrite) -> (
        HandlerView,
        StepView,
    ) {
        if !self.in_flight(key) || self.entries[key].in_flight->0.accepted is None {
            self.stay()
        } else {
            let entry = self.entries[key];
            let state = entry.in_flight->0.accepted->0;
            match write {
                StoreWrite::Written => (HandlerView {
                    entries: self.entries.insert(key, EntryView { state: Some(state), ..entry }),
                    ..self
                }).finish(key, Ok(PutValueView { key, state })),
                StoreWrite::Failed => self.finish(key, Err(ContractError::StorageIO)),
            }
        }
    }

    /// One step of the write path for the contract `key`.
    pub open spec fn put(self, key: Seq<u8>, event: PutEventView) -> (HandlerView, StepView) {
        match event {
            PutEventView::Requested { id, update } => self.put_requested(key, id, update),
            PutEventView::Verified(verdict) => self.put_verified(key, verdict),
            PutEventView::Persisted(write) => self.put_persisted(key, write),
        }
    }

    /// What the handler does with the request `id` that it took off the
    /// channel: a fetch is answered at once; a push takes the first step of
    /// the write path; a contract to cache goes to the byte store first.
    /// Anything else is no request, and is passed over.
    pub open spec fn handle(self, id: EventId, ev: EventView) -> (HandlerView, ActionView) {
        match ev {
            EventView::FetchQuery(key) => (
                HandlerView {
                    channel: self.channel.respond(
                        id,
                        EventView::FetchResponse { key, contract: Ok(self.fetch(key)) },
                    ),
                    ..self
                },
                ActionView::Idle,
            ),
            EventView::PushQuery { key, value } => {
                let (next, step) = self.put_requested(key, id, value);
                (next, step.action)
            },
            EventView::Cache(contract) => (self, ActionView::PersistContract { id, contract }),
            _ => (self, ActionView::Idle),
        }
    }

    /// The handler after the contract that the request `id` asked to cache
    /// was written to the store with the result `write`.
    pub open spec fn cache_result(self, id: EventId, contract: ContractView, write: StoreWrite)
        -> HandlerView {
        let stored = self.store(contract, write);
        HandlerView {
            channel: stored.channel.respond(id, EventView::CacheResult(store_result(write))),
            ..stored
        }
    }
}

/// What `store_contract` returns for what the store said.
pub open spec fn store_result(write: StoreWrite) -> Result<(), ContractError> {
    match write {
        StoreWrite::Written => Ok(()),
        StoreWrite::Failed => Err(ContractError::StorageIO),
    }
}

/// A write that is under way or waits its turn.
struct PutRecord {
    id: EventId,
    update: Vec<u8>,
    accepted: Option<ContractState>,
}

impl PutRecord {
    spec fn model(self) -> PutView {
        PutView { id: self.id, update: self.update@, accepted: state_view(self.accepted) }
    }
}

/// All that the handler holds of one contract.
struct ContractEntry {
    contract: Contract,
    state: Option<ContractState>,
    in_flight: Option<PutRecord>,
    queued: VecDeque<PutRecord>,
}

impl ContractEntry {
    spec fn model(self) -> EntryView {
        EntryView {
            contract: self.contract@,
            state: state_view(self.state),
            in_flight: match self.in_flight {
                Some(put) => Some(put.model()),
                None => None,
            },
            queued: put_views(self.queued@),
        }
    }
}

/// A state that may be missing, as plain values.
pub open spec fn state_view(state: Option<ContractState>) -> Option<Seq<u8>> {
    match state {
        Some(s) => Some(s@),
        None => None,
    }
}

/// A contract that may be missing, as plain values.
pub open spec fn contract_view(contract: Option<Contract>) -> Option<ContractView> {
    match contract {
        Some(c) => Some(c@),
        None => None,
    }
}

spec fn put_views(puts: Seq<PutRecord>) -> Seq<PutView> {
    Seq::new(puts.len(), |i: int| puts[i].model())
}

spec fn entry_pairs(entries: Seq<ContractEntry>) -> Seq<(Seq<u8>, EntryView)> {
    Seq::new(entries.len(), |i: int| (entries[i].contract@.key, entries[i].model()))
}

fn copy_state(state: &Option<ContractState>) -> (copy: Option<ContractState>)
    ensures
        state_view(copy) == state_view(*state),
{
    match state {
        Some(s) => Some(s.clone()),
        None => None,
    }
}

fn take_entry(entries: &mut Vec<ContractEntry>, i: usize) -> (entry: ContractEntry)
    requires
        keys_unique(entry_pairs(old(entries)@)),
        i < old(entries).len(),
    ensures
        entry == old(entries)@[i as int],
        keys_unique(entry_pairs(final(entries)@)),
        !has_key(entry_pairs(final(entries)@), entry.contract@.key),
        to_map(entry_pairs(final(entries)@)) == to_map(entry_pairs(old(entries)@)).remove(
            entry.contract@.key,
        ),
{
    let ghost pairs = entry_pairs(entries@);
    let entry = entries.remove(i);
    proof {
        lemma_remove(pairs, i as int);
        assert(entry_pairs(entries@) =~= pairs.remove(i as int));
    }
    entry
}

fn put_entry(entries: &mut Vec<ContractEntry>, entry: ContractEntry)
    requires
        keys_unique(entry_pairs(old(entries)@)),
        !has_key(entry_pairs(old(entries)@), entry.contract@.key),
    ensures
        keys_unique(entry_pairs(final(entries)@)),
        to_map(entry_pairs(final(entries)@)) == to_map(entry_pairs(old(entries)@)).insert(
            entry.contract@.key,
            entry.model(),
        ),
{
    let ghost pairs = entry_pairs(entries@);
    let ghost pair = (entry.contract@.key, entry.model());
    entries.push(entry);
    proof {
        lemma_push(pairs, pair.0, pair.1);
        assert(entry_pairs(entries@) =~= pairs.push(pair));
    }
}

/// The owner of the cached contracts and of their states, and the only one to
/// change them. It holds all of it in memory; what is to be kept goes to the
/// byte store by the runtime's hand.
pub struct MemoryContractHandler {
    channel: ContractHandlerChannel,
    entries: Vec<ContractEntry>,
}

impl View for MemoryContractHandler {
    type V = HandlerView;

    closed spec fn view(&self) -> HandlerView {
        HandlerView { channel: self.channel@, entries: to_map(entry_pairs(self.entries@)) }
    }
}

impl MemoryContractHandler {
    /// Whether the handler is in order: its channel is, no contract is held
    /// twice, and `HandlerView::wf` of what it holds.
    pub closed spec fn wf(&self) -> bool {
        &&& self.channel.wf()
        &&& keys_unique(entry_pairs(self.entries@))
        &&& self@.entries_wf()
    }

    /// A handler in order holds values in order.
    pub proof fn lemma_view_wf(&self)
        requires
            self.wf(),
        ensures
            self@.wf(),
    {
        self.channel.lemma_view_wf();
    }

    /// A handler on `channel` that holds no contract yet.
    pub fn new(channel: ContractHandlerChannel) -> (handler: Self)
        requires
            channel.wf(),
        ensures
            handler.wf(),
            handler@ == HandlerView::fresh(channel@),
    {
        let handler = MemoryContractHandler { channel, entries: Vec::new() };
        assert(handler@.entries =~= Map::empty());
        handler
    }

    /// The handler's end of the channel.
    pub fn channel(&self) -> (channel: &ContractHandlerChannel)
        requires
            self.wf(),
        ensures
            channel.wf(),
            channel@ == self@.channel,
    {
        &self.channel
    }

    fn find_entry(&self, key: &ContractKey) -> (found: Option<usize>)
        requires
            self.wf(),
        ensures
            match found {
                Some(i) => i < self.entries.len() && self.entries[i as int].contract@.key == key@
                    && self@.entries.dom().contains(key@)
                    && self@.entries[key@] == self.entries[i as int].model(),
                None => !self@.entries.dom().contains(key@),
            },
    {
        let ghost pairs = entry_pairs(self.entries@);
        let mut i: usize = 0;
        while i < self.entries.len()
            invariant
                i <= self.entries.len(),
                pairs == entry_pairs(self.entries@),
                keys_unique(pairs),
                forall|j: int| 0 <= j < i ==> (#[trigger] pairs[j]).0 != key@,
            decreases self.entries.len() - i,
        {
            if self.entries[i].contract.key().same(key) {
                proof {
                    assert(pairs[i as int].0 == key@);
                    lemma_entry(pairs, i as int);
                }
                return Some(i);
            }
            assert(pairs[i as int].0 != key@);
            i = i + 1;
        }
        assert(!has_key(pairs, key@));
        None
    }

    /// Returns a copy of the cached contract, or `None` if there is none. The
    /// answer comes from the cache alone, so this never fails.
    pub fn fetch_contract(&self, key: &ContractKey) -> (fetched: Result<
        Option<Contract>,
        ContractError,
    >)
        requires
            self.wf(),
        ensures
            fetched matches Ok(contract) && contract_view(contract) == self@.fetch(key@),
    {
        match self.find_entry(key) {
            Some(i) => Ok(Some(self.entries[i].contract.clone())),
            None => Ok(None),
        }
    }

    /// Returns a copy of the contract's current state, or `None` if it has
    /// none yet or is not held.
    pub fn fetch_state(&self, key: &ContractKey) -> (state: Option<ContractState>)
        requires
            self.wf(),
        ensures
            state_view(state) == self@.state_of(key@),
    {
        match self.find_entry(key) {
            Some(i) => copy_state(&self.entries[i].state),
            None => None,
        }
    }

    /// Caches `contract` once the byte store holds it: `write` is what the
    /// store said of writing it. After a failed write nothing is cached and
    /// `StorageIO` is returned. Code cached before under the same key is
    /// replaced; the contract's state and its writes are kept.
    pub fn store_contract(&mut self, contract: Contract, write: StoreWrite) -> (stored: Result<
        (),
        ContractError,
    >)
        requires
            old(self).wf(),
        ensures
            final(self).wf(),
            stored == store_result(write),
            final(self)@ == old(self)@.store(contract@, write),
    {
        match write {
            StoreWrite::Failed => Err(ContractError::StorageIO),
            StoreWrite::Written => {
                let ghost before = self@;
                match self.find_entry(contract.key()) {
                    Some(i) => {
                        let mut entry = take_entry(&mut self.entries, i);
                        entry.contract = contract;
                        put_entry(&mut self.entries, entry);
                        assert(self@.entries =~= before.store(contract@, write).entries);
                    },
                    None => {
                        proof {
                            let pairs = entry_pairs(self.entries@);
                            if has_key(pairs, contract@.key) {
                                lemma_entry(pairs, index_of(pairs, contract@.key));
                            }
                        }
                        let entry = ContractEntry {
                            contract,
                            state: None,
                            in_flight: None,
                            queued: VecDeque::new(),
                        };
                        assert(entry.model().queued =~= Seq::empty());
                        put_entry(&mut self.entries, entry);
                    },
                }
                Ok(())
            },
        }
    }

    /// Drops the contract `key` with its state, if it is held and no write to
    /// it is under way. Returns whether it was dropped.
    pub fn invalidate(&mut self, key: &ContractKey) -> (dropped: bool)
        requires
            old(self).wf(),
        ensures
            final(self).wf(),
            dropped == old(self)@.can_invalidate(key@),
            final(self)@ == old(self)@.invalidate(key@),
    {
        match self.find_entry(key) {
            Some(i) => {
                if self.entries[i].in_flight.is_none() {
                    let _ = take_entry(&mut self.entries, i);
                    true
                } else {
                    false
                }
            },
            None => false,
        }
    }
}

fn copy_outcome(outcome: &Result<ContractPutValue, ContractError>) -> (copy: Result<
    ContractPutValue,
    ContractError,
>)
    ensures
        outcome_view(copy) == outcome_view(*outcome),
{
    match outcome {
        Ok(value) => Ok(value.clone()),
        Err(e) => Err(*e),
    }
}

/// How a write ended, as plain values.
spec fn outcome_view(outcome: Result<ContractPutValue, ContractError>) -> Result<
    PutValueView,
    ContractError,
> {
    match outcome {
        Ok(value) => Ok(value@),
        Err(e) => Err(e),
    }
}

proof fn lemma_first_with_skip(puts: Seq<PutView>, update: Seq<u8>, i: int)
    requires
        0 <= i <= puts.len(),
        forall|j: int| 0 <= j < i ==> (#[trigger] puts[j]).update != update,
    ensures
        first_with(puts, update) == first_with(puts.subrange(i, puts.len() as int), update),
    decreases i,
{
    if i == 0 {
        assert(puts.subrange(0, puts.len() as int) =~= puts);
    } else {
        lemma_first_with_skip(puts, update, i - 1);
        let rest = puts.subrange(i - 1, puts.len() as int);
        assert(rest[0] == puts[i - 1]);
        assert(rest.drop_first() =~= puts.subrange(i, puts.len() as int));
    }
}

fn find_leader(entry: &ContractEntry, update: &Vec<u8>) -> (leader: Option<EventId>)
    ensures
        leader == entry.model().leader(update@),
{
    match &entry.in_flight {
        Some(put) => {
            if same_bytes(&put.update, update) {
                return Some(put.id);
            }
        },
        None => {},
    }
    let ghost puts = put_views(entry.queued@);
    let mut i: usize = 0;
    while i < entry.queued.len()
        invariant
            i <= entry.queued.len(),
            puts == put_views(entry.queued@),
            entry.model().leader(update@) == first_with(puts, update@),
            forall|j: int| 0 <= j < i ==> (#[trigger] puts[j]).update != update@,
        decreases entry.queued.len() - i,
    {
        if same_bytes(&entry.queued[i].update, update) {
            proof {
                lemma_first_with_skip(puts, update@, i as int);
                let rest = puts.subrange(i as int, puts.len() as int);
                assert(rest[0] == puts[i as int]);
            }
            return Some(entry.queued[i].id);
        }
        assert(puts[i as int].update != update@);
        i = i + 1;
    }
    proof {
        lemma_first_with_skip(puts, update@, puts.len() as int);
    }
    None
}

impl MemoryContractHandler {
    fn refuse(&mut self, id: EventId, error: ContractError) -> (step: PutStep)
        requires
            old(self).wf(),
        ensures
            final(self).wf(),
            (final(self)@, step@) == old(self)@.refuse(id, error),
    {
        let _ = self.channel.respond(id, ContractHandlerEvent::PushResponse { new_value: Err(error) });
        PutStep { outcome: Some(Err(error)), action: HandlerAction::Idle }
    }

    fn verify_action(entry: &ContractEntry, update: &Vec<u8>) -> (action: HandlerAction)
        ensures
            action@ == (ActionView::Verify {
                key: entry.contract@.key,
                contract: entry.contract@,
                current: state_view(entry.state),
                update: update@,
            }),
    {
        HandlerAction::Verify {
            key: entry.contract.key().clone(),
            contract: entry.contract.clone(),
            current: copy_state(&entry.state),
            update: copy_bytes(update),
        }
    }

    fn request_put(&mut self, key: &ContractKey, id: EventId, update: Vec<u8>) -> (step: PutStep)
        requires
            old(self).wf(),
        ensures
            final(self).wf(),
            (final(self)@, step@) == old(self)@.put_requested(key@, id, update@),
    {
        let found = self.find_entry(key);
        match found {
            None => self.refuse(id, ContractError::NotFound),
            Some(i) => {
                if update.len() == 0 {
                    return self.refuse(id, ContractError::InvalidUpdate);
                }
                let ghost before = self@;
                let ghost put = PutView { id, update: update@, accepted: None };
                if self.entries[i].in_flight.is_none() {
                    let action = Self::verify_action(&self.entries[i], &update);
                    let mut entry = take_entry(&mut self.entries, i);
                    entry.in_flight = Some(PutRecord { id, update, accepted: None });
                    put_entry(&mut self.entries, entry);
                    assert(self@.entries =~= before.put_requested(key@, id, put.update).0.entries);
                    PutStep { outcome: None, action }
                } else {
                    match find_leader(&self.entries[i], &update) {
                        Some(leader) => {
                            let _ = self.channel.subscribe(id, leader);
                            PutStep { outcome: None, action: HandlerAction::Idle }
                        },
                        None => {
                            let mut entry = take_entry(&mut self.entries, i);
                            let ghost queued = put_views(entry.queued@);
                            entry.queued.push_back(PutRecord { id, update, accepted: None });
                            assert(put_views(entry.queued@) =~= queued.push(put));
                            put_entry(&mut self.entries, entry);
                            assert(self@.entries =~= before.put_requested(
                                key@,
                                id,
                                put.update,
                            ).0.entries);
                            PutStep { outcome: None, action: HandlerAction::Idle }
                        },
                    }
                }
            },
        }
    }

    fn finish(
        &mut self,
        i: usize,
        install: Option<ContractState>,
        result: Result<ContractPutValue, ContractError>,
    ) -> (step: PutStep)
        requires
            old(self).wf(),
            i < old(self).entries.len(),
            old(self).entries[i as int].in_flight is Some,
        ensures
            final(self).wf(),
            (final(self)@, step@) == installed(
                old(self)@,
                old(self).entries[i as int].contract@.key,
                state_view(install),
            ).finish(old(self).entries[i as int].contract@.key, outcome_view(result)),
    {
        let ghost before = self@;
        let ghost key = self.entries[i as int].contract@.key;
        proof {
            lemma_entry(entry_pairs(self.entries@), i as int);
        }
        let mut entry = take_entry(&mut self.entries, i);
        match install {
            Some(state) => {
                entry.state = Some(state);
            },
            None => {},
        }
        let ghost middle = entry.model();
        let done = entry.in_flight.take().unwrap().id;
        let response = ContractHandlerEvent::PushResponse { new_value: copy_outcome(&result) };
        let _ = self.channel.respond(done, response.clone());
        self.channel.send_to_listeners(done, response);
        let ghost queued = put_views(entry.queued@);
        let action = match entry.queued.pop_front() {
            Some(next) => {
                let action = Self::verify_action(&entry, &next.update);
                assert(next.model() == queued[0]);
                entry.in_flight = Some(next);
                action
            },
            None => HandlerAction::Idle,
        };
        proof {
            if queued.len() > 0 {
                assert(put_views(entry.queued@) =~= queued.drop_first());
                assert forall|j: int| 0 <= j < queued.drop_first().len() implies (
                #[trigger] queued.drop_first()[j]).accepted is None by {
                    assert(queued.drop_first()[j] == queued[j + 1]);
                }
            } else {
                assert(put_views(entry.queued@) =~= queued);
            }
        }
        put_entry(&mut self.entries, entry);
        proof {
            let start = installed(before, key, state_view(install));
            assert(start.entries[key] == middle);
            assert(self@.entries =~= start.finish(key, outcome_view(result)).0.entries);
        }
        PutStep { outcome: Some(result), action }
    }

    fn verified(&mut self, key: &ContractKey, verdict: VerifierOutcome) -> (step: PutStep)
        requires
            old(self).wf(),
        ensures
            final(self).wf(),
            (final(self)@, step@) == old(self)@.put_verified(key@, verdict@),
    {
        let idle = PutStep { outcome: None, action: HandlerAction::Idle };
        let found = self.find_entry(key);
        match found {
            None => idle,
            Some(i) => {
                let awaited = match &self.entries[i].in_flight {
                    Some(put) => put.accepted.is_none(),
                    None => false,
                };
                if !awaited {
                    return idle;
                }
                let ghost before = self@;
                match verdict {
                    VerifierOutcome::Accept(state) => {
                        let action = HandlerAction::PersistState {
                            key: key.clone(),
                            state: state.clone(),
                        };
                        let mut entry = take_entry(&mut self.entries, i);
                        let put = entry.in_flight.take().unwrap();
                        entry.in_flight = Some(
                            PutRecord { id: put.id, update: put.update, accepted: Some(state) },
                        );
                        put_entry(&mut self.entries, entry);
                        assert(self@.entries =~= before.put_verified(key@, verdict@).0.entries);
                        PutStep { outcome: None, action }
                    },
                    VerifierOutcome::Reject => {
                        self.finish(i, None, Err(ContractError::InvalidUpdate))
                    },
                    VerifierOutcome::Fault => {
                        self.finish(i, None, Err(ContractError::VerifierError))
                    },
                }
            },
        }
    }

    fn persisted(&mut self, key: &ContractKey, write: StoreWrite) -> (step: PutStep)
        requires
            old(self).wf(),
        ensures
            final(self).wf(),
            (final(self)@, step@) == old(self)@.put_persisted(key@, write),
    {
        let idle = PutStep { outcome: None, action: HandlerAction::Idle };
        let found = self.find_entry(key);
        match found {
            None => idle,
            Some(i) => {
                let accepted = match &self.entries[i].in_flight {
                    Some(put) => copy_state(&put.accepted),
                    None => None,
                };
                match accepted {
                    None => idle,
                    Some(state) => {
                        match write {
                            StoreWrite::Written => {
                                let value = ContractPutValue::new(key.clone(), state.clone());
                                self.finish(i, Some(state), Ok(value))
                            },
                            StoreWrite::Failed => {
                                self.finish(i, None, Err(ContractError::StorageIO))
                            },
                        }
                    },
                }
            },
        }
    }

    /// Takes one step of the write path for the contract `key`: `event` says
    /// what has happened, the result says how a write ended, if one did, and
    /// what the runtime is to do next. `HandlerView::put` says which step is
    /// taken in each state.
    pub fn put_value(&mut self, key: &ContractKey, event: PutEvent) -> (step: PutStep)
        requires
            old(self).wf(),
        ensures
            final(self).wf(),
            (final(self)@, step@) == old(self)@.put(key@, event@),
    {
        match event {
            PutEvent::Requested { id, update } => self.request_put(key, id, update),
            PutEvent::Verified(verdict) => self.verified(key, verdict),
            PutEvent::Persisted(write) => self.persisted(key, write),
        }
    }
}

/// The handler with `state`, if there is one, made the state of the contract
/// `key`.
spec fn installed(handler: HandlerView, key: Seq<u8>, state: Option<Seq<u8>>)
    -> HandlerView {
    match state {
        Some(s) => HandlerView {
            entries: handler.entries.insert(
                key,
                EntryView { state: Some(s), ..handler.entries[key] },
            ),
            ..handler
        },
        None => handler,
    }
}

impl MemoryContractHandler {
    /// The handler's end of the channel, for the operation tasks to send on
    /// and to collect from. What they do there changes nothing else of the
    /// handler.
    pub fn channel_mut(&mut self) -> (channel: &mut ContractHandlerChannel)
        requires
            old(self).wf(),
        ensures
            channel.wf(),
            channel@ == old(self)@.channel,
            final(self)@ == (HandlerView { channel: final(channel)@, ..old(self)@ }),
            final(channel).wf() ==> final(self).wf(),
    {
        &mut self.channel
    }

    /// Does what `HandlerView::handle` says with the request `id`, which was
    /// taken off the channel, and returns what the runtime is to do next.
    pub fn handle_request(&mut self, id: EventId, ev: ContractHandlerEvent) -> (action:
        HandlerAction)
        requires
            old(self).wf(),
        ensures
            final(self).wf(),
            (final(self)@, action@) == old(self)@.handle(id, ev@),
    {
        match ev {
            ContractHandlerEvent::FetchQuery(key) => {
                let contract = match self.find_entry(&key) {
                    Some(i) => Some(self.entries[i].contract.clone()),
                    None => None,
                };
                let response = ContractHandlerEvent::FetchResponse { key, contract: Ok(contract) };
                let _ = self.channel.respond(id, response);
                HandlerAction::Idle
            },
            ContractHandlerEvent::PushQuery { key, value } => {
                let step = self.request_put(&key, id, value);
                step.action
            },
            ContractHandlerEvent::Cache(contract) => HandlerAction::PersistContract { id, contract },
            _ => HandlerAction::Idle,
        }
    }

    /// Ends the caching that the request `id` asked for: `write` is what the
    /// byte store said of writing `contract`. The contract is cached as
    /// `store_contract` does it, and the one who asked is given the result.
    pub fn cache_result(&mut self, id: EventId, contract: Contract, write: StoreWrite) -> (stored:
        Result<(), ContractError>)
        requires
            old(self).wf(),
        ensures
            final(self).wf(),
            stored == store_result(write),
            final(self)@ == old(self)@.cache_result(id, contract@, write),
    {
        let stored = self.store_contract(contract, write);
        let _ = self.channel.respond(id, ContractHandlerEvent::CacheResult(stored));
        stored
    }

    /// Takes the oldest request off the channel and handles it. `Ok(None)`
    /// says that no request is pending; `ChannelClosed`, that none is pending
    /// and the channel is closed.
    pub fn handle_next(&mut self) -> (handled: Result<Option<HandlerAction>, ContractError>)
        requires
            old(self).wf(),
        ensures
            final(self).wf(),
            match handled {
                Ok(Some(action)) => old(self)@.channel.requests.len() > 0 && (
                    final(self)@,
                    action@,
                ) == (HandlerView { channel: old(self)@.channel.receive(), ..old(self)@ }).handle(
                    old(self)@.channel.requests[0].0,
                    old(self)@.channel.requests[0].1,
                ),
                Ok(None) => old(self)@.channel.requests.len() == 0 && !old(self)@.channel.closed
                    && final(self)@ == old(self)@,
                Err(e) => old(self)@.channel.requests.len() == 0 && old(self)@.channel.closed
                    && e == ContractError::ChannelClosed && final(self)@ == old(self)@,
            },
    {
        let received = self.channel.recv_from_listeners();
        match received {
            Ok(Some(request)) => {
                let (id, ev) = request;
                Ok(Some(self.handle_request(id, ev)))
            },
            Ok(None) => Ok(None),
            Err(e) => Err(e),
        }
    }
}

} // verus!
