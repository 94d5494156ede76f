//! The messages of the mail client.

use vstd::prelude::*;
use vstd::std_specs::cmp::{PartialEqSpecImpl, PartialOrdSpecImpl};
use vstd::std_specs::convert::FromSpecImpl;
use std::cmp::Ordering;

verus! {

/// A message as its author wrote it, once decrypted.
#[derive(Debug)]
pub struct DecryptedMessage {
    pub title: String,
    pub content: String,
    pub from: String,
    pub to: Vec<String>,
    pub cc: Vec<String>,
    /// When it was written, in seconds since 1970.
    pub time: i64,
}

/// A message as the inbox contract holds it.
#[derive(Debug)]
pub struct MessageModel {
    pub id: u64,
    pub content: DecryptedMessage,
}

/// A message as the client shows it. Two messages are the same message if
/// they have the same `id`, and messages are ordered by their `id`.
#[derive(Debug)]
pub struct Message {
    pub id: u64,
    pub from: String,
    pub title: String,
    pub content: String,
    pub read: bool,
}

impl From<MessageModel> for Message {
    fn from(value: MessageModel) -> (message: Message) {
        Message {
            id: value.id,
            from: value.content.from,
            title: value.content.title,
            content: value.content.content,
            read: false,
        }
    }
}

impl FromSpecImpl<MessageModel> for Message {
    open spec fn obeys_from_spec() -> bool {
        true
    }

    open spec fn from_spec(value: MessageModel) -> Message {
        Message {
            id: value.id,
            from: value.content.from,
            title: value.content.title,
            content: value.content.content,
            read: false,
        }
    }
}

impl PartialEq for Message {
    fn eq(&self, other: &Self) -> (same: bool) {
        self.id == other.id
    }
}

impl PartialEqSpecImpl for Message {
    open spec fn obeys_eq_spec() -> bool {
        true
    }

    open spec fn eq_spec(&self, other: &Self) -> bool {
        self.id == other.id
    }
}

impl PartialOrd for Message {
    fn partial_cmp(&self, other: &Self) -> (order: Option<Ordering>) {
        if self.id < other.id {
            Some(Ordering::Less)
        } else if self.id == other.id {
            Some(Ordering::Equal)
        } else {
            Some(Ordering::Greater)
        }
    }
}

impl PartialOrdSpecImpl for Message {
    open spec fn obeys_partial_cmp_spec() -> bool {
        true
    }

    open spec fn partial_cmp_spec(&self, other: &Self) -> Option<Ordering> {
        if self.id < other.id {
            Some(Ordering::Less)
        } else if self.id == other.id {
            Some(Ordering::Equal)
        } else {
            Some(Ordering::Greater)
        }
    }
}

} // verus!
