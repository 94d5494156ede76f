//! The state of the mail client: who is logged in, what the menu shows, and
//! where a message stands in the inbox.

use vstd::prelude::*;
use vstd::string::StringExecFns;
use rsa::pkcs1::DecodeRsaPrivateKey;
use rsa::{RsaPrivateKey, RsaPublicKey};
use crate::message::Message;

verus! {

/// A private RSA key, as the `rsa` crate holds it.
#[verifier::external_type_specification]
#[verifier::external_body]
pub struct ExRsaPrivateKey(RsaPrivateKey);

/// A public RSA key, as the `rsa` crate holds it.
#[verifier::external_type_specification]
#[verifier::external_body]
pub struct ExRsaPublicKey(RsaPublicKey);

/// Whether `RsaPrivateKey::from_pkcs1_pem` reads a key from the text.
pub uninterp spec fn pkcs1_pem_is_key(pem: Seq<char>) -> bool;

/// Calls `RsaPrivateKey::from_pkcs1_pem` and hands back the key, or `None`
/// where it failed. The contract only names when it succeeds; which texts
/// are keys is the outside crate's to say.
#[verifier::external_body]
fn private_key_from_pem(pem: &str) -> (key: Option<RsaPrivateKey>)
    ensures
        key is Some == pkcs1_pem_is_key(pem@),
{
    RsaPrivateKey::from_pkcs1_pem(pem).ok()
}

/// Calls `RsaPrivateKey::to_public_key`. Nothing is claimed of the key that
/// comes back.
#[verifier::external_body]
fn public_key_of(key: &RsaPrivateKey) -> (public: RsaPublicKey) {
    key.to_public_key()
}

/// One of the user's identities: an inbox and the key that others write to.
#[derive(Debug)]
pub struct Identity {
    pub id: usize,
    pub pub_key: RsaPublicKey,
}

impl Identity {
    /// The identity `id` with the public key that goes with the private key
    /// written in `pem`; `None` if `pem` holds no such key.
    pub fn from_pem(id: usize, pem: &str) -> (identity: Option<Identity>)
        ensures
            identity is Some == pkcs1_pem_is_key(pem@),
            identity matches Some(made) ==> made.id == id,
    {
        match private_key_from_pem(pem) {
            Some(key) => Some(Identity { id, pub_key: public_key_of(&key) }),
            None => None,
        }
    }
}

/// The user of the client.
pub struct User {
    pub logged: bool,
    pub active_id: Option<usize>,
    pub identities: Vec<Identity>,
    pub private_key: Option<RsaPrivateKey>,
}

impl User {
    /// The user who owns `key`: logged in, with the identities 0 and 1 that
    /// go with the key, and none of them chosen yet.
    pub fn with_key(key: RsaPrivateKey) -> (user: User)
        ensures
            user.logged,
            user.active_id is None,
            user.identities.len() == 2,
            user.identities[0].id == 0,
            user.identities[1].id == 1,
            user.private_key == Some(key),
    {
        let mut identities: Vec<Identity> = Vec::new();
        identities.push(Identity { id: 0, pub_key: public_key_of(&key) });
        identities.push(Identity { id: 1, pub_key: public_key_of(&key) });
        User { logged: true, active_id: None, identities, private_key: Some(key) }
    }

    /// The user whose private key is written in `pem`, as `with_key` makes
    /// it; `None` if `pem` holds no such key.
    pub fn new(pem: &str) -> (user: Option<User>)
        ensures
            user is Some == pkcs1_pem_is_key(pem@),
            user matches Some(u) ==> u.logged && u.active_id is None && u.identities.len() == 2
                && u.identities[0].id == 0 && u.identities[1].id == 1 && u.private_key is Some,
    {
        match private_key_from_pem(pem) {
            Some(key) => Some(User::with_key(key)),
            None => None,
        }
    }

    /// The identity that the user has chosen, if any.
    pub fn logged_id(&self) -> (identity: Option<&Identity>)
        ensures
            match self.active_id {
                Some(id) if id < self.identities.len() => identity == Some(
                    &self.identities[id as int],
                ),
                _ => identity is None,
            },
    {
        match self.active_id {
            Some(id) => {
                if id < self.identities.len() {
                    Some(&self.identities[id])
                } else {
                    None
                }
            },
            None => None,
        }
    }

    /// Chooses the identity at `id`.
    pub fn set_logged_id(&mut self, id: usize)
        requires
            id < old(self).identities.len(),
        ensures
            final(self).active_id == Some(id),
            final(self).logged == old(self).logged,
            final(self).identities == old(self).identities,
            final(self).private_key == old(self).private_key,
    {
        self.active_id = Some(id);
    }

    /// Logs the user out: no identity is chosen any more.
    pub fn log_out(&mut self)
        ensures
            !final(self).logged,
            final(self).active_id is None,
            final(self).identities == old(self).identities,
            final(self).private_key == old(self).private_key,
    {
        self.logged = false;
        self.active_id = None;
    }
}

/// What the client shows beside the menu.
#[derive(Clone, Copy, Debug, PartialEq, Eq, Structural)]
pub enum Pane {
    /// The message with this `id`, opened.
    Message(u64),
    /// The window in which a new message is written.
    NewMessage,
    /// The list of the messages received.
    Inbox,
}

/// What the user has selected in the menu.
#[derive(Clone, Copy, Debug, PartialEq, Eq, Structural)]
pub struct MenuSelection {
    pub email: Option<u64>,
    pub new_msg: bool,
}

impl Default for MenuSelection {
    fn default() -> (selection: Self)
        ensures
            selection == (MenuSelection { email: None, new_msg: false }),
    {
        MenuSelection { email: None, new_msg: false }
    }
}

impl MenuSelection {
    /// Opens the window for a new message, closing any open message; or
    /// closes that window if it is open.
    pub fn set_new_msg(&mut self)
        ensures
            *final(self) == (if old(self).new_msg {
                MenuSelection { email: old(self).email, new_msg: false }
            } else {
                MenuSelection { email: None, new_msg: true }
            }),
    {
        if self.new_msg {
            self.new_msg = false;
        } else {
            self.new_msg = true;
            self.email = None;
        }
    }

    /// Whether the window for a new message is open.
    pub fn new_msg(&self) -> (open: bool)
        ensures
            open == self.new_msg,
    {
        self.new_msg
    }

    /// Goes back to the list of the messages received.
    pub fn set_received(&mut self)
        ensures
            *final(self) == (MenuSelection { email: None, new_msg: false }),
    {
        self.email = None;
        self.new_msg = false;
    }

    /// Whether the list of the messages received is shown.
    pub fn received(&self) -> (shown: bool)
        ensures
            shown == (!self.new_msg && self.email is None),
    {
        !self.new_msg && self.email.is_none()
    }

    /// Opens the message with this `id`.
    pub fn open_email(&mut self, id: u64)
        ensures
            *final(self) == (MenuSelection { email: Some(id), new_msg: old(self).new_msg }),
    {
        self.email = Some(id);
    }

    /// Closes the open message, if any.
    pub fn close_email(&mut self)
        ensures
            *final(self) == (MenuSelection { email: None, new_msg: old(self).new_msg }),
    {
        self.email = None;
    }

    /// What the client shows: an open message comes before the window for a
    /// new message, and that before the list.
    pub fn pane(&self) -> (pane: Pane)
        ensures
            pane == (match self.email {
                Some(id) => Pane::Message(id),
                None => if self.new_msg {
                    Pane::NewMessage
                } else {
                    Pane::Inbox
                },
            }),
    {
        match self.email {
            Some(id) => Pane::Message(id),
            None => {
                if self.new_msg {
                    Pane::NewMessage
                } else {
                    Pane::Inbox
                }
            },
        }
    }

    /// The style class of the menu entry "Received": active unless a new
    /// message is being written.
    pub fn received_class(&self) -> (class: &'static str)
        ensures
            class@ == (if !self.new_msg {
                "is-active"@
            } else {
                ""@
            }),
    {
        if self.received() || !self.new_msg() {
            "is-active"
        } else {
            ""
        }
    }

    /// The style class of the menu entry "Write message": active while a new
    /// message is being written.
    pub fn write_msg_class(&self) -> (class: &'static str)
        ensures
            class@ == (if self.new_msg {
                "is-active"@
            } else {
                ""@
            }),
    {
        if self.new_msg() {
            "is-active"
        } else {
            ""
        }
    }
}

/// The style of the envelope beside a message in the list.
pub fn icon_style(read: bool) -> (style: &'static str)
    ensures
        style@ == (if read {
            "fa-regular fa-envelope"@
        } else {
            "fa-solid fa-envelope"@
        }),
{
    if read {
        "fa-regular fa-envelope"
    } else {
        "fa-solid fa-envelope"
    }
}

/// Whether the messages stand in the order of their `id`s.
pub open spec fn sorted_by_id(messages: Seq<Message>) -> bool {
    forall|i: int, j: int| 0 <= i <= j < messages.len() ==> messages[i].id <= messages[j].id
}

/// Finds the message with this `id` in an inbox that is sorted by `id`.
/// Returns a place where it stands, or `None` if no message has that `id`.
pub fn find_message(messages: &Vec<Message>, id: u64) -> (found: Option<usize>)
    requires
        sorted_by_id(messages@),
    ensures
        match found {
            Some(i) => i < messages.len() && messages[i as int].id == id,
            None => forall|i: int| 0 <= i < messages.len() ==> messages[i].id != id,
        },
{
    let mut low: usize = 0;
    let mut high: usize = messages.len();
    while low < high
        invariant
            low <= high <= messages.len(),
            sorted_by_id(messages@),
            forall|i: int| 0 <= i < low ==> messages[i].id < id,
            forall|i: int| high <= i < messages.len() ==> messages[i].id > id,
        decreases high - low,
    {
        let mid = low + (high - low) / 2;
        let at = messages[mid].id;
        if at == id {
            return Some(mid);
        } else if at < id {
            low = mid + 1;
        } else {
            high = mid;
        }
    }
    None
}

/// `text`, `count` times in a row.
pub open spec fn repeated(text: Seq<char>, count: nat) -> Seq<char>
    decreases count,
{
    if count == 0 {
        Seq::empty()
    } else {
        repeated(text, (count - 1) as nat) + text
    }
}

/// Writes `text` out `count` times in a row.
pub fn repeat_text(text: &str, count: usize) -> (all: String)
    ensures
        all@ == repeated(text@, count as nat),
{
    let mut all = String::new();
    let mut done: usize = 0;
    while done < count
        invariant
            done <= count,
            all@ == repeated(text@, done as nat),
        decreases count - done,
    {
        all.append(text);
        done = done + 1;
    }
    all
}

/// The two messages that the client shows for an identity when it runs
/// without a node: an unread one and a read one, from other senders for the
/// identity 0 than for the rest.
pub fn sample_messages(identity: usize) -> (messages: Vec<Message>)
    ensures
        messages.len() == 2,
        sorted_by_id(messages@),
        messages[0].id == 0 && !messages[0].read,
        messages[1].id == 1 && messages[1].read,
        messages[0].from@ == (if identity == 0 {
            "Ian's Other Account"@
        } else {
            "Ian Clarke"@
        }),
        messages[0].title@ == (if identity == 0 {
            "Unread email from Ian's Other Account"@
        } else {
            "Unread email from Ian"@
        }),
        messages[1].from@ == (if identity == 0 {
            "Mary"@
        } else {
            "Jane"@
        }),
        messages[1].title@ == (if identity == 0 {
            "Email from Mary"@
        } else {
            "Email from Jane"@
        }),
        forall|i: int|
            0 <= i < 2 ==> (#[trigger] messages[i]).content@ == repeated(
                "Lorem ipsum dolor sit amet, consectetur adipiscing elit..."@,
                10,
            ),
{
    let lorem = "Lorem ipsum dolor sit amet, consectetur adipiscing elit...";
    let (first_from, first_title, second_from, second_title) = if identity == 0 {
        ("Ian's Other Account", "Unread email from Ian's Other Account", "Mary", "Email from Mary")
    } else {
        ("Ian Clarke", "Unread email from Ian", "Jane", "Email from Jane")
    };
    let mut messages: Vec<Message> = Vec::new();
    messages.push(
        Message {
            id: 0,
            from: String::from_str(first_from),
            title: String::from_str(first_title),
            content: repeat_text(lorem, 10),
            read: false,
        },
    );
    messages.push(
        Message {
            id: 1,
            from: String::from_str(second_from),
            title: String::from_str(second_title),
            content: repeat_text(lorem, 10),
            read: true,
        },
    );
    messages
}

} // verus!
