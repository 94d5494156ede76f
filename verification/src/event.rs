//! The messages that travel between operation tasks and the contract handler.

use vstd::prelude::*;
use crate::contract::{
    copy_bytes, Contract, ContractError, ContractKey, ContractPutValue, ContractView,
    PutValueView,
};

verus! {

/// Names one request and the responses that answer it.
#[derive(Clone, Copy, Debug, PartialEq, Eq, Hash, Structural)]
pub struct EventId(pub usize);

/// What a message is, as plain values.
pub enum EventView {
    FetchQuery(Seq<u8>),
    FetchResponse { key: Seq<u8>, contract: Result<Option<ContractView>, ContractError> },
    PushQuery { key: Seq<u8>, value: Seq<u8> },
    PushResponse { new_value: Result<PutValueView, ContractError> },
    Cache(ContractView),
    CacheResult(Result<(), ContractError>),
}

/// A message to the contract handler, or from it.
#[derive(Debug, PartialEq, Eq)]
pub enum ContractHandlerEvent {
    /// Asks for a contract that this node is thought to hold.
    FetchQuery(ContractKey),
    /// Answers a `FetchQuery`.
    FetchResponse { key: ContractKey, contract: Result<Option<Contract>, ContractError> },
    /// Asks to put a new value into the contract.
    PushQuery { key: ContractKey, value: Vec<u8> },
    /// Answers a `PushQuery` with the value written, or with why none was.
    PushResponse { new_value: Result<ContractPutValue, ContractError> },
    /// Asks to cache a contract's code without writing a state.
    Cache(Contract),
    /// Answers a `Cache`.
    CacheResult(Result<(), ContractError>),
}

impl View for ContractHandlerEvent {
    type V = EventView;

    open spec fn view(&self) -> EventView {
        match *self {
            ContractHandlerEvent::FetchQuery(key) => EventView::FetchQuery(key@),
            ContractHandlerEvent::FetchResponse { key, contract } => EventView::FetchResponse {
                key: key@,
                contract: match contract {
                    Ok(Some(c)) => Ok(Some(c@)),
                    Ok(None) => Ok(None),
                    Err(e) => Err(e),
                },
            },
            ContractHandlerEvent::PushQuery { key, value } => EventView::PushQuery {
                key: key@,
                value: value@,
            },
            ContractHandlerEvent::PushResponse { new_value } => EventView::PushResponse {
                new_value: match new_value {
                    Ok(v) => Ok(v@),
                    Err(e) => Err(e),
                },
            },
            ContractHandlerEvent::Cache(contract) => EventView::Cache(contract@),
            ContractHandlerEvent::CacheResult(result) => EventView::CacheResult(result),
        }
    }
}

impl Clone for ContractHandlerEvent {
    fn clone(&self) -> (copy: Self)
        ensures
            copy@ == self@,
    {
        match self {
            ContractHandlerEvent::FetchQuery(key) => ContractHandlerEvent::FetchQuery(key.clone()),
            ContractHandlerEvent::FetchResponse { key, contract } => {
                let contract = match contract {
                    Ok(Some(c)) => Ok(Some(c.clone())),
                    Ok(None) => Ok(None),
                    Err(e) => Err(*e),
                };
                ContractHandlerEvent::FetchResponse { key: key.clone(), contract }
            },
            ContractHandlerEvent::PushQuery { key, value } => ContractHandlerEvent::PushQuery {
                key: key.clone(),
                value: copy_bytes(value),
            },
            ContractHandlerEvent::PushResponse { new_value } => {
                let new_value = match new_value {
                    Ok(v) => Ok(v.clone()),
                    Err(e) => Err(*e),
                };
                ContractHandlerEvent::PushResponse { new_value }
            },
            ContractHandlerEvent::Cache(contract) => ContractHandlerEvent::Cache(contract.clone()),
            ContractHandlerEvent::CacheResult(result) => ContractHandlerEvent::CacheResult(*result),
        }
    }
}

} // verus!
