//! What holds of the channel and of the handler in every state, proved of the
//! models that their functions are specified by.

use vstd::prelude::*;
use crate::channel::ChannelView;
use crate::contract::{store_entry, ContractError, ContractView, CODE_NAMESPACE, STATE_NAMESPACE};
use crate::event::{EventId, EventView};
use crate::handler::{
    ActionView, EntryView, HandlerView, PutEventView, PutView, StoreWrite, VerdictView,
};

verus! {

/// A contract that was stored is fetched back as it was stored, and storing
/// it once more changes nothing.
pub proof fn law_store_then_fetch(handler: HandlerView, contract: ContractView)
    ensures
        handler.store(contract, StoreWrite::Written).fetch(contract.key) == Some(contract),
        handler.store(contract, StoreWrite::Written).store(contract, StoreWrite::Written)
            == handler.store(contract, StoreWrite::Written),
        handler.store(contract, StoreWrite::Failed) == handler,
{
    let once = handler.store(contract, StoreWrite::Written);
    let twice = once.store(contract, StoreWrite::Written);
    assert(twice.entries =~= once.entries);
}

/// A key that was never stored is fetched as `None`: a handler starts with no
/// contract, and no step but storing a contract under the key itself puts one
/// there.
pub proof fn law_absent_until_stored(
    handler: HandlerView,
    key: Seq<u8>,
    channel: ChannelView,
    contract: ContractView,
    write: StoreWrite,
    other: Seq<u8>,
    event: PutEventView,
    id: EventId,
    request: EventView,
)
    requires
        handler.fetch(key) is None,
        contract.key != key,
    ensures
        HandlerView::fresh(channel).fetch(key) is None,
        handler.store(contract, write).fetch(key) is None,
        handler.put(other, event).0.fetch(key) is None,
        handler.handle(id, request).0.fetch(key) is None,
        handler.cache_result(id, contract, write).fetch(key) is None,
        handler.invalidate(other).fetch(key) is None,
{
}

/// While a write to a contract is under way, a request to the same contract
/// starts no verification. If its update is that of a write under way or
/// waiting, it changes nothing of what the handler holds: it only becomes a
/// listener to that write, and no verification will be asked for it later.
pub proof fn law_single_flight(handler: HandlerView, key: Seq<u8>, id: EventId, update: Seq<u8>)
    requires
        handler.in_flight(key),
    ensures
        handler.put_requested(key, id, update).1.action == ActionView::Idle,
        handler.entries[key].leader(update) matches Some(leader) ==> {
            &&& handler.put_requested(key, id, update).0.entries == handler.entries
            &&& update.len() > 0 ==> handler.put_requested(key, id, update).0.channel
                == handler.channel.subscribe(id, leader)
        },
{
}

/// At most one write to a contract is with the verifier at a time: a step
/// asks for a verification only when none was awaited for the contract, or
/// when the step itself has just ended the write that was under way. After
/// it, the write that is under way is the one to verify.
pub proof fn law_one_verification_at_a_time(
    handler: HandlerView,
    key: Seq<u8>,
    event: PutEventView,
)
    requires
        handler.wf(),
        handler.put(key, event).1.action is Verify,
    ensures
        !handler.in_flight(key) || handler.put(key, event).1.outcome is Some,
        ({
            let (next, step) = handler.put(key, event);
            &&& step.action matches ActionView::Verify { key: asked, contract, current, update }
            &&& asked == key
            &&& next.in_flight(key)
            &&& next.entries[key].in_flight->0.update == update
            &&& next.entries[key].in_flight->0.accepted is None
            &&& next.fetch(key) == Some(contract)
            &&& next.state_of(key) == current
        }),
{
    if handler.in_flight(key) {
        let entry = handler.entries[key];
        if entry.queued.len() > 0 {
            assert(entry.queued[0].accepted is None);
        }
    }
}

/// Every step takes a handler that is in order to one that is in order.
pub proof fn law_steps_keep_order(
    handler: HandlerView,
    key: Seq<u8>,
    event: PutEventView,
    id: EventId,
    request: EventView,
    contract: ContractView,
    write: StoreWrite,
)
    requires
        handler.wf(),
    ensures
        handler.put(key, event).0.wf(),
        handler.handle(id, request).0.wf(),
        handler.store(contract, write).wf(),
        handler.cache_result(id, contract, write).wf(),
        handler.invalidate(key).wf(),
{
    lemma_put_keeps_order(handler, key, event);
    if let EventView::PushQuery { key: pushed, value } = request {
        lemma_put_keeps_order(handler, pushed, PutEventView::Requested { id, update: value });
    }
    let stored = handler.store(contract, write);
    assert(stored.entries_wf()) by {
        if handler.entries.dom().contains(contract.key) {
            assert(handler.entries[contract.key].wf());
        }
    }
}

proof fn lemma_put_keeps_order(handler: HandlerView, key: Seq<u8>, event: PutEventView)
    requires
        handler.wf(),
    ensures
        handler.put(key, event).0.wf(),
{
    let next = handler.put(key, event).0;
    if handler.entries.dom().contains(key) {
        let entry = handler.entries[key];
        assert(entry.wf());
        assert(entry.contract.key == key);
        let rest = entry.queued.drop_first();
        if entry.queued.len() > 0 {
            assert(entry.queued[0].accepted is None);
            assert forall|i: int| 0 <= i < rest.len() implies (#[trigger] rest[i]).accepted is None by {
                assert(rest[i] == entry.queued[i + 1]);
            }
        }
        if let PutEventView::Requested { id, update } = event {
            let more = entry.queued.push(PutView { id, update, accepted: None });
            assert forall|i: int| 0 <= i < more.len() implies (#[trigger] more[i]).accepted is None by {
                if i < entry.queued.len() {
                    assert(more[i] == entry.queued[i]);
                }
            }
        }
        assert(next.entries.dom().contains(key));
        assert(next.entries[key].wf());
        assert(next.entries[key].contract.key == key);
    }
    assert forall|any: Seq<u8>| #[trigger] next.entries.dom().contains(any) implies next.entries[any].contract.key
        == any && next.entries[any].wf() by {
        if any != key {
            assert(handler.entries.dom().contains(any));
            assert(next.entries[any] == handler.entries[any]);
        }
    }
    assert(next.channel.wf());
}

/// When a write ends, the one who asked for it and every listener to it that
/// still waits are given the same outcome: the one the step reports.
pub proof fn law_waiters_share_outcome(
    handler: HandlerView,
    key: Seq<u8>,
    event: PutEventView,
    listener: EventId,
)
    requires
        handler.in_flight(key),
        !(event is Requested),
        handler.put(key, event).1.outcome is Some,
    ensures
        ({
            let asker = handler.entries[key].in_flight->0.id;
            let (next, step) = handler.put(key, event);
            let response = EventView::PushResponse { new_value: step.outcome->0 };
            &&& handler.channel.is_pending(asker) ==> next.channel.waiters[asker].inbox == Some(
                response,
            )
            &&& handler.channel.hears(asker, listener) ==> next.channel.waiters[listener].inbox
                == Some(response)
        }),
{
}

/// A step for one contract is the same whatever the handler holds of another
/// contract, a write under way there included, and leaves the other alone.
/// So a write to a contract whose code is cached, and to which no write is
/// under way, goes to the verifier at once.
pub proof fn law_keys_independent(
    handler: HandlerView,
    key: Seq<u8>,
    event: PutEventView,
    other: Seq<u8>,
    entry: EntryView,
)
    requires
        key != other,
    ensures
        ({
            let elsewhere = HandlerView {
                entries: handler.entries.insert(other, entry),
                ..handler
            };
            &&& elsewhere.put(key, event).1 == handler.put(key, event).1
            &&& elsewhere.put(key, event).0.channel == handler.put(key, event).0.channel
            &&& elsewhere.put(key, event).0.entries == handler.put(key, event).0.entries.insert(
                other,
                entry,
            )
        }),
        event matches PutEventView::Requested { id, update } && handler.entries.dom().contains(key)
            && handler.entries[key].in_flight is None && update.len() > 0 ==> handler.put(
            key,
            event,
        ).1.action is Verify,
{
    let elsewhere = HandlerView { entries: handler.entries.insert(other, entry), ..handler };
    assert(elsewhere.entries[key] == handler.entries[key]);
    assert(elsewhere.put(key, event).0.entries =~= handler.put(key, event).0.entries.insert(
        other,
        entry,
    ));
}

/// A write goes its way whoever still waits for it: what a step does to the
/// contracts, what it asks of the runtime and how it ends do not depend on
/// the waiters of the channel, so a caller that has gone stops nothing.
pub proof fn law_write_needs_no_waiter(
    handler: HandlerView,
    channel: ChannelView,
    key: Seq<u8>,
    event: PutEventView,
)
    ensures
        ({
            let other = HandlerView { channel, ..handler };
            &&& other.put(key, event).0.entries == handler.put(key, event).0.entries
            &&& other.put(key, event).1 == handler.put(key, event).1
        }),
{
}

/// Only a state that the verifier accepted and the store holds becomes a
/// contract's state. After a rejection, a fault of the verifier or a failed
/// write, and while an accepted state is on its way to the store, every
/// contract has the state and the code it had.
pub proof fn law_state_kept_unless_written(
    handler: HandlerView,
    key: Seq<u8>,
    event: PutEventView,
    any: Seq<u8>,
)
    requires
        event != PutEventView::Persisted(StoreWrite::Written),
    ensures
        handler.put(key, event).0.state_of(any) == handler.state_of(any),
        handler.put(key, event).0.fetch(any) == handler.fetch(any),
        event == PutEventView::Verified(VerdictView::Reject) && handler.in_flight(key)
            && handler.entries[key].in_flight->0.accepted is None ==> handler.put(
            key,
            event,
        ).1.outcome == Some(Err::<crate::contract::PutValueView, ContractError>(ContractError::InvalidUpdate)),
{
}

/// The state that a write leaves is the one that the verifier accepted for
/// it, and it is the state of that contract alone.
pub proof fn law_written_state_was_accepted(handler: HandlerView, key: Seq<u8>, any: Seq<u8>)
    ensures
        ({
            let written = handler.put(key, PutEventView::Persisted(StoreWrite::Written)).0;
            &&& any != key ==> written.state_of(any) == handler.state_of(any)
            &&& written.fetch(any) == handler.fetch(any)
            &&& written.state_of(key) == (if handler.in_flight(key)
                && handler.entries[key].in_flight->0.accepted is Some {
                handler.entries[key].in_flight->0.accepted
            } else {
                handler.state_of(key)
            })
        }),
        handler.put(key, PutEventView::Verified(VerdictView::Reject)).0.state_of(key)
            == handler.state_of(key),
{
}

/// In the byte store no state stands under the name of any code, and two
/// contracts never share a name.
pub proof fn law_store_entries_apart(one: Seq<u8>, other: Seq<u8>, namespace: u8)
    ensures
        store_entry(CODE_NAMESPACE, one) != store_entry(STATE_NAMESPACE, other),
        one != other ==> store_entry(namespace, one) != store_entry(namespace, other),
{
    assert(store_entry(CODE_NAMESPACE, one)[0] != store_entry(STATE_NAMESPACE, other)[0]);
    let a = store_entry(namespace, one);
    let b = store_entry(namespace, other);
    if a == b {
        assert(a.len() == 1 + one.len());
        assert(b.len() == 1 + other.len());
        assert(a.subrange(1, a.len() as int) =~= one);
        assert(b.subrange(1, b.len() as int) =~= other);
    }
}

/// Identifiers are issued in rising order, and none is issued while a waiter
/// is registered under it.
pub proof fn law_fresh_ids(channel: ChannelView, first: EventView, second: EventView)
    requires
        channel.wf(),
        channel.next_id + 1 < usize::MAX,
    ensures
        !channel.is_waiting(EventId(channel.next_id)),
        channel.send(first).is_pending(EventId(channel.next_id)),
        channel.send(first).next_id > channel.next_id,
        channel.send(first).send(second).next_id > channel.send(first).next_id,
        channel.send(first).wf(),
{
    let id = EventId(channel.next_id);
    if channel.is_waiting(id) {
        assert(id.0 < channel.next_id);
    }
    let sent = channel.send(first);
    assert forall|i: int, j: int| 0 <= i < j < sent.requests.len() implies (
    #[trigger] sent.requests[i]).0.0 < (#[trigger] sent.requests[j]).0.0 by {
        if j < channel.requests.len() {
            assert(sent.requests[i] == channel.requests[i]);
            assert(sent.requests[j] == channel.requests[j]);
        } else {
            assert(sent.requests[i] == channel.requests[i]);
        }
    }
}

/// Every step takes a channel that is in order to one that is in order.
pub proof fn law_channel_steps_keep_order(
    channel: ChannelView,
    id: EventId,
    other: EventId,
    ev: EventView,
    elapsed: u64,
)
    requires
        channel.wf(),
    ensures
        channel.requests.len() > 0 ==> channel.receive().wf(),
        channel.respond(id, ev).wf(),
        channel.broadcast(id, ev).wf(),
        channel.subscribe(id, other).wf(),
        channel.cancel(id).wf(),
        channel.close().wf(),
        channel.collect(id, elapsed).wf(),
{
    if channel.requests.len() > 0 {
        let rest = channel.receive().requests;
        assert forall|i: int| 0 <= i < rest.len() implies (#[trigger] rest[i]).0.0
            < channel.next_id by {
            assert(rest[i] == channel.requests[i + 1]);
        }
        assert forall|i: int, j: int| 0 <= i < j < rest.len() implies (#[trigger] rest[i]).0.0 < (
        #[trigger] rest[j]).0.0 by {
            assert(rest[i] == channel.requests[i + 1]);
            assert(rest[j] == channel.requests[j + 1]);
        }
    }
}

/// A response reaches the waiter of the request it answers, and no other:
/// each of two waiters is told the response sent under its own identifier,
/// in whichever order the two were sent. A second response to one request
/// is not delivered.
pub proof fn law_correlation(
    channel: ChannelView,
    a: EventId,
    b: EventId,
    to_a: EventView,
    to_b: EventView,
    elapsed: u64,
)
    requires
        a != b,
        channel.is_pending(a),
    ensures
        channel.respond(a, to_a).answer(a, elapsed) == Ok::<Option<EventView>, ContractError>(
            Some(to_a),
        ),
        channel.respond(a, to_a).answer(b, elapsed) == channel.answer(b, elapsed),
        channel.respond(a, to_a).respond(b, to_b) == channel.respond(b, to_b).respond(a, to_a),
        channel.respond(a, to_a).respond(b, to_b).answer(a, elapsed) == Ok::<
            Option<EventView>,
            ContractError,
        >(Some(to_a)),
        channel.is_pending(b) ==> channel.respond(a, to_a).respond(b, to_b).answer(b, elapsed)
            == Ok::<Option<EventView>, ContractError>(Some(to_b)),
        channel.respond(a, to_a).respond(a, to_b) == channel.respond(a, to_a),
{
    let ab = channel.respond(a, to_a).respond(b, to_b);
    let ba = channel.respond(b, to_b).respond(a, to_a);
    assert(ab.waiters =~= ba.waiters);
}

/// A waiter is given at most one response: once it has one, no response, no
/// broadcast and no subscription changes what it is told.
pub proof fn law_delivered_once(
    channel: ChannelView,
    waiter: EventId,
    id: EventId,
    ev: EventView,
    elapsed: u64,
)
    requires
        channel.is_waiting(waiter),
        channel.waiters[waiter].inbox is Some,
    ensures
        channel.respond(id, ev).answer(waiter, elapsed) == channel.answer(waiter, elapsed),
        channel.broadcast(id, ev).answer(waiter, elapsed) == channel.answer(waiter, elapsed),
        channel.subscribe(waiter, id).answer(waiter, elapsed) == channel.answer(waiter, elapsed),
        channel.close().answer(waiter, elapsed) == channel.answer(waiter, elapsed),
        channel.answer(waiter, elapsed) == Ok::<Option<EventView>, ContractError>(
            channel.waiters[waiter].inbox,
        ),
{
}

/// Taking a waiter off the channel touches no other waiter: the others are
/// told what they would have been told, and are given what they would have
/// been given, by a response or as listeners. A response to the waiter that
/// has gone changes nothing.
pub proof fn law_cancellation(
    channel: ChannelView,
    gone: EventId,
    other: EventId,
    id: EventId,
    ev: EventView,
    elapsed: u64,
)
    requires
        gone != other,
    ensures
        channel.cancel(gone).answer(other, elapsed) == channel.answer(other, elapsed),
        channel.cancel(gone).respond(other, ev) == channel.respond(other, ev).cancel(gone),
        channel.cancel(gone).broadcast(id, ev) == channel.broadcast(id, ev).cancel(gone),
        channel.cancel(gone).respond(gone, ev) == channel.cancel(gone),
        channel.cancel(gone).requests == channel.requests,
{
    assert(channel.cancel(gone).respond(other, ev).waiters =~= channel.respond(other, ev).cancel(
        gone,
    ).waiters);
    assert(channel.cancel(gone).broadcast(id, ev).waiters =~= channel.broadcast(id, ev).cancel(
        gone,
    ).waiters);
}

} // verus!
