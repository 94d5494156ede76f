use locutus_node::channel::ContractHandlerChannel;
use locutus_node::contract::{
    copy_bytes, same_bytes, Contract, ContractError, ContractKey, ContractPutValue, ContractState,
};
use locutus_node::event::{ContractHandlerEvent, EventId};
use locutus_node::handler::{
    MemoryContractHandler, HandlerAction, PutEvent, PutStep, StoreWrite, VerifierOutcome,
};

fn key(name: &[u8]) -> ContractKey {
    ContractKey::new(name.to_vec())
}

fn contract(name: &[u8], code: &[u8]) -> Contract {
    Contract::new(key(name), code.to_vec(), vec![7, 7])
}

fn state(bytes: &[u8]) -> ContractState {
    ContractState::new(bytes.to_vec())
}

fn handler_with(contracts: &[Contract]) -> MemoryContractHandler {
    let mut handler = MemoryContractHandler::new(ContractHandlerChannel::new());
    for c in contracts {
        assert_eq!(handler.store_contract(c.clone(), StoreWrite::Written), Ok(()));
    }
    handler
}

fn push(handler: &mut MemoryContractHandler, name: &[u8], update: &[u8]) -> EventId {
    handler
        .channel_mut()
        .send_to_handler(ContractHandlerEvent::PushQuery { key: key(name), value: update.to_vec() })
        .unwrap()
}

fn requested(id: EventId, update: &[u8]) -> PutEvent {
    PutEvent::Requested { id, update: update.to_vec() }
}

fn verify(name: &[u8], code: &[u8], current: Option<&[u8]>, update: &[u8]) -> HandlerAction {
    HandlerAction::Verify {
        key: key(name),
        contract: contract(name, code),
        current: current.map(state),
        update: update.to_vec(),
    }
}

fn idle() -> PutStep {
    PutStep { outcome: None, action: HandlerAction::Idle }
}

fn pushed(name: &[u8], new_state: &[u8]) -> ContractHandlerEvent {
    ContractHandlerEvent::PushResponse {
        new_value: Ok(ContractPutValue::new(key(name), state(new_state))),
    }
}

fn failed(error: ContractError) -> ContractHandlerEvent {
    ContractHandlerEvent::PushResponse { new_value: Err(error) }
}

#[test]
fn stored_contract_is_fetched_back() {
    let mut handler = MemoryContractHandler::new(ContractHandlerChannel::new());
    let c = contract(b"K1", b"B1");
    assert_eq!(handler.store_contract(c.clone(), StoreWrite::Written), Ok(()));
    let fetched = handler.fetch_contract(&key(b"K1")).unwrap().unwrap();
    assert_eq!(fetched, c);
    assert_eq!(fetched.code(), &b"B1".to_vec());
    assert_eq!(fetched.parameters(), &vec![7u8, 7]);
    assert_eq!(fetched.key(), &key(b"K1"));
}

#[test]
fn key_never_stored_is_absent() {
    let handler = handler_with(&[contract(b"K1", b"B1")]);
    assert_eq!(handler.fetch_contract(&key(b"K2")), Ok(None));
    assert_eq!(handler.fetch_contract(&key(b"K")), Ok(None));
    assert_eq!(handler.fetch_contract(&key(b"")), Ok(None));
    assert_eq!(handler.fetch_state(&key(b"K2")), None);
    let empty = MemoryContractHandler::new(ContractHandlerChannel::new());
    assert_eq!(empty.fetch_contract(&key(b"K1")), Ok(None));
}

#[test]
fn failed_store_caches_nothing() {
    let mut handler = MemoryContractHandler::new(ContractHandlerChannel::new());
    assert_eq!(
        handler.store_contract(contract(b"K1", b"B1"), StoreWrite::Failed),
        Err(ContractError::StorageIO)
    );
    assert_eq!(handler.fetch_contract(&key(b"K1")), Ok(None));
}

#[test]
fn storing_twice_is_storing_once() {
    let mut handler = handler_with(&[contract(b"K1", b"B1"), contract(b"K2", b"B2")]);
    assert_eq!(handler.store_contract(contract(b"K1", b"B1"), StoreWrite::Written), Ok(()));
    assert_eq!(handler.fetch_contract(&key(b"K1")), Ok(Some(contract(b"K1", b"B1"))));
    assert_eq!(handler.fetch_contract(&key(b"K2")), Ok(Some(contract(b"K2", b"B2"))));
    assert!(handler.invalidate(&key(b"K1")));
    assert_eq!(handler.fetch_contract(&key(b"K1")), Ok(None));
}

#[test]
fn storing_again_keeps_the_state() {
    let mut handler = handler_with(&[contract(b"K1", b"B1")]);
    handler.put_value(&key(b"K1"), requested(EventId(0), b"U1"));
    handler.put_value(&key(b"K1"), PutEvent::Verified(VerifierOutcome::Accept(state(b"S1"))));
    handler.put_value(&key(b"K1"), PutEvent::Persisted(StoreWrite::Written));
    assert_eq!(handler.store_contract(contract(b"K1", b"B9"), StoreWrite::Written), Ok(()));
    assert_eq!(handler.fetch_contract(&key(b"K1")), Ok(Some(contract(b"K1", b"B9"))));
    assert_eq!(handler.fetch_state(&key(b"K1")), Some(state(b"S1")));
}

#[test]
fn put_without_cached_code_is_not_found() {
    let mut handler = handler_with(&[contract(b"K1", b"B1")]);
    let ticket = push(&mut handler, b"K2", b"U1");
    assert_eq!(handler.handle_next(), Ok(Some(HandlerAction::Idle)));
    assert_eq!(
        handler.channel_mut().poll_response(ticket, 0),
        Ok(Some(failed(ContractError::NotFound)))
    );
    let step = handler.put_value(&key(b"K3"), requested(EventId(50), b"U1"));
    assert_eq!(
        step,
        PutStep { outcome: Some(Err(ContractError::NotFound)), action: HandlerAction::Idle }
    );
}

#[test]
fn empty_update_is_invalid_before_any_verification() {
    let mut handler = handler_with(&[contract(b"K1", b"B1")]);
    let ticket = push(&mut handler, b"K1", b"");
    assert_eq!(handler.handle_next(), Ok(Some(HandlerAction::Idle)));
    assert_eq!(
        handler.channel_mut().poll_response(ticket, 0),
        Ok(Some(failed(ContractError::InvalidUpdate)))
    );
    let next = push(&mut handler, b"K1", b"U1");
    assert_eq!(handler.handle_next(), Ok(Some(verify(b"K1", b"B1", None, b"U1"))));
    assert_eq!(handler.channel_mut().poll_response(next, 0), Ok(None));
}

#[test]
fn missing_code_comes_before_an_empty_update() {
    let mut handler = MemoryContractHandler::new(ContractHandlerChannel::new());
    let step = handler.put_value(&key(b"K1"), requested(EventId(0), b""));
    assert_eq!(step.outcome, Some(Err(ContractError::NotFound)));
}

#[test]
fn accepted_update_becomes_the_state_once_stored() {
    let mut handler = handler_with(&[contract(b"K1", b"B1")]);
    let ticket = push(&mut handler, b"K1", b"U1");
    assert_eq!(handler.handle_next(), Ok(Some(verify(b"K1", b"B1", None, b"U1"))));
    let step =
        handler.put_value(&key(b"K1"), PutEvent::Verified(VerifierOutcome::Accept(state(b"S1"))));
    assert_eq!(
        step,
        PutStep {
            outcome: None,
            action: HandlerAction::PersistState { key: key(b"K1"), state: state(b"S1") },
        }
    );
    assert_eq!(handler.fetch_state(&key(b"K1")), None);
    assert_eq!(handler.channel_mut().poll_response(ticket, 0), Ok(None));
    let step = handler.put_value(&key(b"K1"), PutEvent::Persisted(StoreWrite::Written));
    assert_eq!(
        step,
        PutStep {
            outcome: Some(Ok(ContractPutValue::new(key(b"K1"), state(b"S1")))),
            action: HandlerAction::Idle,
        }
    );
    assert_eq!(handler.fetch_state(&key(b"K1")), Some(state(b"S1")));
    assert_eq!(handler.channel_mut().poll_response(ticket, 0), Ok(Some(pushed(b"K1", b"S1"))));
}

#[test]
fn rejected_update_leaves_the_state() {
    let mut handler = handler_with(&[contract(b"K1", b"B1")]);
    handler.put_value(&key(b"K1"), requested(EventId(90), b"U1"));
    handler.put_value(&key(b"K1"), PutEvent::Verified(VerifierOutcome::Accept(state(b"S1"))));
    handler.put_value(&key(b"K1"), PutEvent::Persisted(StoreWrite::Written));
    let ticket = push(&mut handler, b"K1", b"U2");
    assert_eq!(handler.handle_next(), Ok(Some(verify(b"K1", b"B1", Some(b"S1"), b"U2"))));
    let step = handler.put_value(&key(b"K1"), PutEvent::Verified(VerifierOutcome::Reject));
    assert_eq!(
        step,
        PutStep { outcome: Some(Err(ContractError::InvalidUpdate)), action: HandlerAction::Idle }
    );
    assert_eq!(handler.fetch_state(&key(b"K1")), Some(state(b"S1")));
    assert_eq!(handler.fetch_contract(&key(b"K1")), Ok(Some(contract(b"K1", b"B1"))));
    assert_eq!(
        handler.channel_mut().poll_response(ticket, 0),
        Ok(Some(failed(ContractError::InvalidUpdate)))
    );
}

#[test]
fn verifier_fault_fails_the_write_and_leaves_the_state() {
    let mut handler = handler_with(&[contract(b"K1", b"B1")]);
    let ticket = push(&mut handler, b"K1", b"U1");
    handler.handle_next().unwrap();
    let step = handler.put_value(&key(b"K1"), PutEvent::Verified(VerifierOutcome::Fault));
    assert_eq!(step.outcome, Some(Err(ContractError::VerifierError)));
    assert_eq!(step.action, HandlerAction::Idle);
    assert_eq!(handler.fetch_state(&key(b"K1")), None);
    assert_eq!(
        handler.channel_mut().poll_response(ticket, 0),
        Ok(Some(failed(ContractError::VerifierError)))
    );
}

#[test]
fn failed_write_fails_the_put_and_leaves_the_state() {
    let mut handler = handler_with(&[contract(b"K1", b"B1")]);
    let ticket = push(&mut handler, b"K1", b"U1");
    handler.handle_next().unwrap();
    handler.put_value(&key(b"K1"), PutEvent::Verified(VerifierOutcome::Accept(state(b"S1"))));
    let step = handler.put_value(&key(b"K1"), PutEvent::Persisted(StoreWrite::Failed));
    assert_eq!(step.outcome, Some(Err(ContractError::StorageIO)));
    assert_eq!(handler.fetch_state(&key(b"K1")), None);
    assert_eq!(
        handler.channel_mut().poll_response(ticket, 0),
        Ok(Some(failed(ContractError::StorageIO)))
    );
    let again = push(&mut handler, b"K1", b"U1");
    assert_eq!(handler.handle_next(), Ok(Some(verify(b"K1", b"B1", None, b"U1"))));
    assert_eq!(handler.channel_mut().poll_response(again, 0), Ok(None));
}

#[test]
fn same_update_in_flight_is_verified_once() {
    let mut handler = handler_with(&[contract(b"K1", b"B1")]);
    let first = push(&mut handler, b"K1", b"U1");
    let second = push(&mut handler, b"K1", b"U1");
    let third = push(&mut handler, b"K1", b"U1");
    assert_eq!(handler.handle_next(), Ok(Some(verify(b"K1", b"B1", None, b"U1"))));
    assert_eq!(handler.handle_next(), Ok(Some(HandlerAction::Idle)));
    assert_eq!(handler.handle_next(), Ok(Some(HandlerAction::Idle)));
    assert_eq!(handler.handle_next(), Ok(None));
    handler.put_value(&key(b"K1"), PutEvent::Verified(VerifierOutcome::Accept(state(b"S1"))));
    let step = handler.put_value(&key(b"K1"), PutEvent::Persisted(StoreWrite::Written));
    assert_eq!(step.action, HandlerAction::Idle);
    for ticket in [first, second, third] {
        assert_eq!(
            handler.channel_mut().poll_response(ticket, 0),
            Ok(Some(pushed(b"K1", b"S1")))
        );
    }
}

#[test]
fn concurrent_second_put_is_verified_once_for_both_callers() {
    let mut handler = MemoryContractHandler::new(ContractHandlerChannel::new());
    assert_eq!(handler.store_contract(contract(b"K1", b"B1"), StoreWrite::Written), Ok(()));
    let first = push(&mut handler, b"K1", b"U1");
    assert_eq!(handler.handle_next(), Ok(Some(verify(b"K1", b"B1", None, b"U1"))));
    handler.put_value(&key(b"K1"), PutEvent::Verified(VerifierOutcome::Accept(state(b"S1"))));
    handler.put_value(&key(b"K1"), PutEvent::Persisted(StoreWrite::Written));
    assert_eq!(handler.channel_mut().poll_response(first, 0), Ok(Some(pushed(b"K1", b"S1"))));

    let one = push(&mut handler, b"K1", b"U2");
    let two = push(&mut handler, b"K1", b"U2");
    let mut verifications = 0;
    while let Some(action) = handler.handle_next().unwrap() {
        if action != HandlerAction::Idle {
            assert_eq!(action, verify(b"K1", b"B1", Some(b"S1"), b"U2"));
            verifications += 1;
        }
    }
    assert_eq!(verifications, 1);
    let step =
        handler.put_value(&key(b"K1"), PutEvent::Verified(VerifierOutcome::Accept(state(b"S2"))));
    assert_eq!(step.action, HandlerAction::PersistState { key: key(b"K1"), state: state(b"S2") });
    let step = handler.put_value(&key(b"K1"), PutEvent::Persisted(StoreWrite::Written));
    assert_eq!(step.outcome, Some(Ok(ContractPutValue::new(key(b"K1"), state(b"S2")))));
    assert_eq!(step.action, HandlerAction::Idle);
    assert_eq!(handler.channel_mut().poll_response(one, 0), Ok(Some(pushed(b"K1", b"S2"))));
    assert_eq!(handler.channel_mut().poll_response(two, 0), Ok(Some(pushed(b"K1", b"S2"))));
    assert_eq!(handler.fetch_state(&key(b"K1")), Some(state(b"S2")));
}

#[test]
fn other_update_waits_for_the_one_in_flight() {
    let mut handler = handler_with(&[contract(b"K1", b"B1")]);
    let first = push(&mut handler, b"K1", b"U1");
    let second = push(&mut handler, b"K1", b"U2");
    let joins_second = push(&mut handler, b"K1", b"U2");
    assert_eq!(handler.handle_next(), Ok(Some(verify(b"K1", b"B1", None, b"U1"))));
    assert_eq!(handler.handle_next(), Ok(Some(HandlerAction::Idle)));
    assert_eq!(handler.handle_next(), Ok(Some(HandlerAction::Idle)));
    handler.put_value(&key(b"K1"), PutEvent::Verified(VerifierOutcome::Accept(state(b"S1"))));
    let step = handler.put_value(&key(b"K1"), PutEvent::Persisted(StoreWrite::Written));
    assert_eq!(step.outcome, Some(Ok(ContractPutValue::new(key(b"K1"), state(b"S1")))));
    assert_eq!(step.action, verify(b"K1", b"B1", Some(b"S1"), b"U2"));
    assert_eq!(handler.channel_mut().poll_response(first, 0), Ok(Some(pushed(b"K1", b"S1"))));
    assert_eq!(handler.channel_mut().poll_response(second, 0), Ok(None));
    let step = handler.put_value(&key(b"K1"), PutEvent::Verified(VerifierOutcome::Reject));
    assert_eq!(step.outcome, Some(Err(ContractError::InvalidUpdate)));
    assert_eq!(step.action, HandlerAction::Idle);
    for ticket in [second, joins_second] {
        assert_eq!(
            handler.channel_mut().poll_response(ticket, 0),
            Ok(Some(failed(ContractError::InvalidUpdate)))
        );
    }
    assert_eq!(handler.fetch_state(&key(b"K1")), Some(state(b"S1")));
}

#[test]
fn puts_on_distinct_keys_do_not_wait_for_each_other() {
    let mut handler = handler_with(&[contract(b"A", b"code a"), contract(b"B", b"code b")]);
    let on_a = push(&mut handler, b"A", b"U");
    let on_b = push(&mut handler, b"B", b"U");
    assert_eq!(handler.handle_next(), Ok(Some(verify(b"A", b"code a", None, b"U"))));
    assert_eq!(handler.handle_next(), Ok(Some(verify(b"B", b"code b", None, b"U"))));
    handler.put_value(&key(b"B"), PutEvent::Verified(VerifierOutcome::Accept(state(b"SB"))));
    handler.put_value(&key(b"B"), PutEvent::Persisted(StoreWrite::Written));
    assert_eq!(handler.channel_mut().poll_response(on_b, 0), Ok(Some(pushed(b"B", b"SB"))));
    assert_eq!(handler.channel_mut().poll_response(on_a, 0), Ok(None));
    assert_eq!(handler.fetch_state(&key(b"A")), None);
    assert_eq!(handler.fetch_state(&key(b"B")), Some(state(b"SB")));
}

#[test]
fn cancelled_caller_does_not_stop_the_write_or_the_others() {
    let mut handler = handler_with(&[contract(b"K1", b"B1")]);
    let asker = push(&mut handler, b"K1", b"U1");
    let listener = push(&mut handler, b"K1", b"U1");
    handler.handle_next().unwrap();
    handler.handle_next().unwrap();
    handler.channel_mut().cancel(asker);
    handler.put_value(&key(b"K1"), PutEvent::Verified(VerifierOutcome::Accept(state(b"S1"))));
    let step = handler.put_value(&key(b"K1"), PutEvent::Persisted(StoreWrite::Written));
    assert_eq!(step.outcome, Some(Ok(ContractPutValue::new(key(b"K1"), state(b"S1")))));
    assert_eq!(handler.fetch_state(&key(b"K1")), Some(state(b"S1")));
    assert_eq!(handler.channel_mut().poll_response(listener, 0), Ok(Some(pushed(b"K1", b"S1"))));
    assert_eq!(
        handler.channel_mut().poll_response(asker, 0),
        Err(ContractError::ChannelClosed)
    );
}

#[test]
fn answers_that_no_write_awaits_are_passed_over() {
    let mut handler = handler_with(&[contract(b"K1", b"B1")]);
    assert_eq!(handler.put_value(&key(b"K1"), PutEvent::Verified(VerifierOutcome::Reject)), idle());
    assert_eq!(handler.put_value(&key(b"K1"), PutEvent::Persisted(StoreWrite::Written)), idle());
    assert_eq!(handler.put_value(&key(b"K9"), PutEvent::Verified(VerifierOutcome::Fault)), idle());
    handler.put_value(&key(b"K1"), requested(EventId(3), b"U1"));
    assert_eq!(handler.put_value(&key(b"K1"), PutEvent::Persisted(StoreWrite::Written)), idle());
    handler.put_value(&key(b"K1"), PutEvent::Verified(VerifierOutcome::Accept(state(b"S1"))));
    assert_eq!(
        handler.put_value(&key(b"K1"), PutEvent::Verified(VerifierOutcome::Accept(state(b"S9")))),
        idle()
    );
    handler.put_value(&key(b"K1"), PutEvent::Persisted(StoreWrite::Written));
    assert_eq!(handler.fetch_state(&key(b"K1")), Some(state(b"S1")));
}

#[test]
fn fetch_query_is_answered_at_once() {
    let mut handler = handler_with(&[contract(b"K1", b"B1")]);
    let hit = handler
        .channel_mut()
        .send_to_handler(ContractHandlerEvent::FetchQuery(key(b"K1")))
        .unwrap();
    let miss = handler
        .channel_mut()
        .send_to_handler(ContractHandlerEvent::FetchQuery(key(b"K2")))
        .unwrap();
    assert_eq!(handler.handle_next(), Ok(Some(HandlerAction::Idle)));
    assert_eq!(handler.handle_next(), Ok(Some(HandlerAction::Idle)));
    assert_eq!(
        handler.channel_mut().poll_response(hit, 0),
        Ok(Some(ContractHandlerEvent::FetchResponse {
            key: key(b"K1"),
            contract: Ok(Some(contract(b"K1", b"B1"))),
        }))
    );
    assert_eq!(
        handler.channel_mut().poll_response(miss, 0),
        Ok(Some(ContractHandlerEvent::FetchResponse { key: key(b"K2"), contract: Ok(None) }))
    );
}

#[test]
fn cache_request_goes_to_the_store_first() {
    let mut handler = MemoryContractHandler::new(ContractHandlerChannel::new());
    let ticket = handler
        .channel_mut()
        .send_to_handler(ContractHandlerEvent::Cache(contract(b"K1", b"B1")))
        .unwrap();
    assert_eq!(
        handler.handle_next(),
        Ok(Some(HandlerAction::PersistContract { id: ticket, contract: contract(b"K1", b"B1") }))
    );
    assert_eq!(handler.fetch_contract(&key(b"K1")), Ok(None));
    assert_eq!(handler.cache_result(ticket, contract(b"K1", b"B1"), StoreWrite::Written), Ok(()));
    assert_eq!(handler.fetch_contract(&key(b"K1")), Ok(Some(contract(b"K1", b"B1"))));
    assert_eq!(
        handler.channel_mut().poll_response(ticket, 0),
        Ok(Some(ContractHandlerEvent::CacheResult(Ok(()))))
    );
}

#[test]
fn failed_cache_is_answered_with_the_failure() {
    let mut handler = MemoryContractHandler::new(ContractHandlerChannel::new());
    let ticket = handler
        .channel_mut()
        .send_to_handler(ContractHandlerEvent::Cache(contract(b"K1", b"B1")))
        .unwrap();
    handler.handle_next().unwrap();
    assert_eq!(
        handler.cache_result(ticket, contract(b"K1", b"B1"), StoreWrite::Failed),
        Err(ContractError::StorageIO)
    );
    assert_eq!(handler.fetch_contract(&key(b"K1")), Ok(None));
    assert_eq!(
        handler.channel_mut().poll_response(ticket, 0),
        Ok(Some(ContractHandlerEvent::CacheResult(Err(ContractError::StorageIO))))
    );
}

#[test]
fn response_sent_as_request_is_passed_over() {
    let mut handler = handler_with(&[contract(b"K1", b"B1")]);
    let ticket = handler
        .channel_mut()
        .send_to_handler(ContractHandlerEvent::CacheResult(Ok(())))
        .unwrap();
    assert_eq!(handler.handle_next(), Ok(Some(HandlerAction::Idle)));
    assert_eq!(handler.channel_mut().poll_response(ticket, 0), Ok(None));
}

#[test]
fn handler_on_closed_channel_stops() {
    let mut handler = MemoryContractHandler::new(ContractHandlerChannel::new());
    assert_eq!(handler.handle_next(), Ok(None));
    handler.channel_mut().close();
    assert!(handler.channel().is_closed());
    assert_eq!(handler.handle_next(), Err(ContractError::ChannelClosed));
}

#[test]
fn contract_in_flight_is_not_invalidated() {
    let mut handler = handler_with(&[contract(b"K1", b"B1")]);
    assert!(!handler.invalidate(&key(b"K2")));
    handler.put_value(&key(b"K1"), requested(EventId(0), b"U1"));
    assert!(!handler.invalidate(&key(b"K1")));
    handler.put_value(&key(b"K1"), PutEvent::Verified(VerifierOutcome::Accept(state(b"S1"))));
    handler.put_value(&key(b"K1"), PutEvent::Persisted(StoreWrite::Written));
    assert!(handler.invalidate(&key(b"K1")));
    assert_eq!(handler.fetch_contract(&key(b"K1")), Ok(None));
    assert_eq!(handler.fetch_state(&key(b"K1")), None);
}

#[test]
fn bytes_are_copied_and_compared() {
    let bytes = vec![1u8, 2, 3];
    assert_eq!(copy_bytes(&bytes), bytes);
    assert_eq!(copy_bytes(&Vec::new()), Vec::<u8>::new());
    assert!(same_bytes(&bytes, &vec![1, 2, 3]));
    assert!(!same_bytes(&bytes, &vec![1, 2, 4]));
    assert!(!same_bytes(&bytes, &vec![1, 2]));
    assert!(key(b"ab").same(&key(b"ab")));
    assert!(!key(b"ab").same(&key(b"ba")));
    assert_eq!(key(b"ab").as_bytes(), &b"ab".to_vec());
    assert_eq!(state(b"s").as_bytes(), &b"s".to_vec());
    let value = ContractPutValue::new(key(b"k"), state(b"s"));
    assert_eq!(value.key(), &key(b"k"));
    assert_eq!(value.state(), &state(b"s"));
    assert_eq!(value.clone(), value);
}

#[test]
fn store_entries_are_namespaced() {
    assert_eq!(key(b"ab").code_entry(), vec![0, b'a', b'b']);
    assert_eq!(key(b"ab").state_entry(), vec![1, b'a', b'b']);
    assert_eq!(key(b"").code_entry(), vec![0]);
    assert_ne!(key(&[1, 5]).code_entry(), key(&[5]).state_entry());
}
