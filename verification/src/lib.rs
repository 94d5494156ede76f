//! Contract coordination for a peer-to-peer node: the contract handler, the
//! channel that ties operation tasks to it, and the data both exchange.

pub mod assoc;
pub mod channel;
pub mod config;
pub mod contract;
pub mod event;
pub mod handler;
pub mod laws;
pub mod mail;
pub mod message;
