//! Contracts, their keys and states, and the failures a handler reports.

use vstd::prelude::*;

verus! {

/// Copies a byte vector.
pub fn copy_bytes(bytes: &Vec<u8>) -> (copy: Vec<u8>)
    ensures
        copy@ == bytes@,
{
    let mut copy: Vec<u8> = Vec::new();
    let mut i: usize = 0;
    while i < bytes.len()
        invariant
            i <= bytes.len(),
            copy@ == bytes@.subrange(0, i as int),
        decreases bytes.len() - i,
    {
        copy.push(bytes[i]);
        i = i + 1;
    }
    assert(bytes@.subrange(0, bytes.len() as int) == bytes@);
    copy
}

/// Whether two byte vectors hold the same bytes.
pub fn same_bytes(left: &Vec<u8>, right: &Vec<u8>) -> (same: bool)
    ensures
        same == (left@ == right@),
{
    if left.len() != right.len() {
        return false;
    }
    let mut i: usize = 0;
    while i < left.len()
        invariant
            i <= left.len(),
            left.len() == right.len(),
            forall|j: int| 0 <= j < i ==> left@[j] == right@[j],
        decreases left.len() - i,
    {
        if left[i] != right[i] {
            return false;
        }
        i = i + 1;
    }
    assert(left@ =~= right@);
    true
}

/// The first byte of the names under which the byte store holds code.
pub const CODE_NAMESPACE: u8 = 0;

/// The first byte of the names under which the byte store holds states.
pub const STATE_NAMESPACE: u8 = 1;

/// The name of an entry of the byte store: its namespace, then the key.
pub open spec fn store_entry(namespace: u8, key: Seq<u8>) -> Seq<u8> {
    seq![namespace] + key
}

fn namespaced(namespace: u8, key: &Vec<u8>) -> (entry: Vec<u8>)
    ensures
        entry@ == store_entry(namespace, key@),
{
    let mut entry: Vec<u8> = Vec::new();
    entry.push(namespace);
    let mut i: usize = 0;
    while i < key.len()
        invariant
            i <= key.len(),
            entry@ == seq![namespace] + key@.subrange(0, i as int),
        decreases key.len() - i,
    {
        entry.push(key[i]);
        i = i + 1;
    }
    assert(key@.subrange(0, key.len() as int) == key@);
    entry
}

/// What can go wrong between an operation task and the contract handler.
#[derive(Clone, Copy, Debug, PartialEq, Eq, Structural)]
pub enum ContractError {
    /// No code is cached for the key.
    NotFound,
    /// The backing store failed on a read or a write.
    StorageIO,
    /// The verifier rejected the update, or the payload was malformed.
    InvalidUpdate,
    /// The verifier itself failed.
    VerifierError,
    /// The handler no longer runs.
    ChannelClosed,
    /// No response came within the configured bound.
    Timeout,
}

/// The identifier of a contract, derived from its code and parameters.
#[derive(Debug, PartialEq, Eq, Hash)]
pub struct ContractKey {
    bytes: Vec<u8>,
}

impl View for ContractKey {
    type V = Seq<u8>;

    closed spec fn view(&self) -> Seq<u8> {
        self.bytes@
    }
}

impl Clone for ContractKey {
    fn clone(&self) -> (copy: Self)
        ensures
            copy@ == self@,
    {
        ContractKey { bytes: copy_bytes(&self.bytes) }
    }
}

impl ContractKey {
    /// The key made of `bytes`.
    pub fn new(bytes: Vec<u8>) -> (key: Self)
        ensures
            key@ == bytes@,
    {
        ContractKey { bytes }
    }

    /// The bytes of the key.
    pub fn as_bytes(&self) -> (bytes: &Vec<u8>)
        ensures
            bytes@ == self@,
    {
        &self.bytes
    }

    /// The name under which the byte store holds the contract's code: the
    /// key's bytes in the namespace of code.
    pub fn code_entry(&self) -> (entry: Vec<u8>)
        ensures
            entry@ == store_entry(CODE_NAMESPACE, self@),
    {
        namespaced(CODE_NAMESPACE, &self.bytes)
    }

    /// The name under which the byte store holds the contract's state: the
    /// key's bytes in the namespace of states.
    pub fn state_entry(&self) -> (entry: Vec<u8>)
        ensures
            entry@ == store_entry(STATE_NAMESPACE, self@),
    {
        namespaced(STATE_NAMESPACE, &self.bytes)
    }

    /// Whether `other` names the same contract.
    pub fn same(&self, other: &ContractKey) -> (same: bool)
        ensures
            same == (self@ == other@),
    {
        same_bytes(&self.bytes, &other.bytes)
    }
}

/// What a contract is, as plain values.
pub struct ContractView {
    pub key: Seq<u8>,
    pub code: Seq<u8>,
    pub parameters: Seq<u8>,
}

/// Sandboxed code with its parameters, named by its key. Never changed once made.
#[derive(Debug, PartialEq, Eq)]
pub struct Contract {
    key: ContractKey,
    code: Vec<u8>,
    parameters: Vec<u8>,
}

impl View for Contract {
    type V = ContractView;

    closed spec fn view(&self) -> ContractView {
        ContractView { key: self.key@, code: self.code@, parameters: self.parameters@ }
    }
}

impl Clone for Contract {
    fn clone(&self) -> (copy: Self)
        ensures
            copy@ == self@,
    {
        Contract {
            key: self.key.clone(),
            code: copy_bytes(&self.code),
            parameters: copy_bytes(&self.parameters),
        }
    }
}

impl Contract {
    /// The contract with this key, code and parameters.
    pub fn new(key: ContractKey, code: Vec<u8>, parameters: Vec<u8>) -> (contract: Self)
        ensures
            contract@ == (ContractView { key: key@, code: code@, parameters: parameters@ }),
    {
        Contract { key, code, parameters }
    }

    /// The key that names this contract.
    pub fn key(&self) -> (key: &ContractKey)
        ensures
            key@ == self@.key,
    {
        &self.key
    }

    /// The contract's code.
    pub fn code(&self) -> (code: &Vec<u8>)
        ensures
            code@ == self@.code,
    {
        &self.code
    }

    /// The contract's parameters.
    pub fn parameters(&self) -> (parameters: &Vec<u8>)
        ensures
            parameters@ == self@.parameters,
    {
        &self.parameters
    }
}

/// The current value of a contract.
#[derive(Debug, PartialEq, Eq)]
pub struct ContractState {
    bytes: Vec<u8>,
}

impl View for ContractState {
    type V = Seq<u8>;

    closed spec fn view(&self) -> Seq<u8> {
        self.bytes@
    }
}

impl Clone for ContractState {
    fn clone(&self) -> (copy: Self)
        ensures
            copy@ == self@,
    {
        ContractState { bytes: copy_bytes(&self.bytes) }
    }
}

impl ContractState {
    /// The state made of `bytes`.
    pub fn new(bytes: Vec<u8>) -> (state: Self)
        ensures
            state@ == bytes@,
    {
        ContractState { bytes }
    }

    /// The bytes of the state.
    pub fn as_bytes(&self) -> (bytes: &Vec<u8>)
        ensures
            bytes@ == self@,
    {
        &self.bytes
    }
}

/// What a successful write is, as plain values.
pub struct PutValueView {
    pub key: Seq<u8>,
    pub state: Seq<u8>,
}

/// The result of a successful write: the contract written to and its new state,
/// which the caller hands on to its peers.
#[derive(Debug, PartialEq, Eq)]
pub struct ContractPutValue {
    key: ContractKey,
    state: ContractState,
}

impl View for ContractPutValue {
    type V = PutValueView;

    closed spec fn view(&self) -> PutValueView {
        PutValueView { key: self.key@, state: self.state@ }
    }
}

impl Clone for ContractPutValue {
    fn clone(&self) -> (copy: Self)
        ensures
            copy@ == self@,
    {
        ContractPutValue { key: self.key.clone(), state: self.state.clone() }
    }
}

impl ContractPutValue {
    /// The write of `state` to the contract named `key`.
    pub fn new(key: ContractKey, state: ContractState) -> (value: Self)
        ensures
            value@ == (PutValueView { key: key@, state: state@ }),
    {
        ContractPutValue { key, state }
    }

    /// The contract written to.
    pub fn key(&self) -> (key: &ContractKey)
        ensures
            key@ == self@.key,
    {
        &self.key
    }

    /// The state after the write.
    pub fn state(&self) -> (state: &ContractState)
        ensures
            state@ == self@.state,
    {
        &self.state
    }
}

} // verus!
