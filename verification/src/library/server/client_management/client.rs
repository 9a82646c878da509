//! A client of the component-based server: the messages it exchanges and
//! its identity.  Its socket and channels are kept by the application.
use vstd::prelude::*;
use std::cmp::Ordering;
use uuid::Uuid;

verus! {

/// The messages a client can receive from the server.
#[derive(Debug)]
pub enum ClientMessage {
    Disconnect { id: String },
    Update { id: String },
    ServerMessage { id: String, msg: String },
    NewMessage { id: String, from_user_id: String, msg: String },
    NewgroupMessage { id: String, from_group_id: String, from_user_id: String, msg: String },
}

/// The messages a connected client can send to the server.
#[derive(Debug)]
pub enum ClientSocketMessage {
    Disconnect { id: String },
    SendMessage { id: String, to_user_id: String, msg: String },
}

impl Clone for ClientMessage {
    /// The same message.
    fn clone(&self) -> (r: Self)
        ensures
            r == *self,
    {
        match self {
            ClientMessage::Disconnect { id } => ClientMessage::Disconnect { id: id.clone() },
            ClientMessage::Update { id } => ClientMessage::Update { id: id.clone() },
            ClientMessage::ServerMessage { id, msg } => ClientMessage::ServerMessage {
                id: id.clone(),
                msg: msg.clone(),
            },
            ClientMessage::NewMessage { id, from_user_id, msg } => ClientMessage::NewMessage {
                id: id.clone(),
                from_user_id: from_user_id.clone(),
                msg: msg.clone(),
            },
            ClientMessage::NewgroupMessage { id, from_group_id, from_user_id, msg } => {
                ClientMessage::NewgroupMessage {
                    id: id.clone(),
                    from_group_id: from_group_id.clone(),
                    from_user_id: from_user_id.clone(),
                    msg: msg.clone(),
                }
            },
        }
    }
}

impl Clone for ClientSocketMessage {
    /// The same message.
    fn clone(&self) -> (r: Self)
        ensures
            r == *self,
    {
        match self {
            ClientSocketMessage::Disconnect { id } => ClientSocketMessage::Disconnect {
                id: id.clone(),
            },
            ClientSocketMessage::SendMessage { id, to_user_id, msg } => {
                ClientSocketMessage::SendMessage {
                    id: id.clone(),
                    to_user_id: to_user_id.clone(),
                    msg: msg.clone(),
                }
            },
        }
    }
}

/// The 128-bit value of the UUID that `uuid::Uuid::parse_str` reads from
/// `text` (its `as_u128`), or `None` when it refuses the text.
pub uninterp spec fn uuid_of_text(text: Seq<char>) -> Option<u128>;

/// Calls `uuid::Uuid::parse_str` and converts the UUID to its 128-bit value
/// with `Uuid::as_u128`.  The contract claims only that the result is the
/// value `uuid_of_text` names for the text.
#[verifier::external_body]
fn parse_uuid(text: &str) -> (r: Option<u128>)
    ensures
        r == uuid_of_text(text@),
{
    match Uuid::parse_str(text) {
        Ok(u) => Some(u.as_u128()),
        Err(_) => None,
    }
}

/// Calls `uuid::Uuid::new_v4` and returns its 128-bit value.  The value is
/// random; the contract claims only what holds of every outcome: `new_v4`
/// masks the random bits so that the version nibble is 4 and the variant
/// bits are those of RFC 4122 (`10`).
#[verifier::external_body]
fn random_uuid() -> (r: u128)
    ensures
        (r >> 76u128) & 0xfu128 == 4,
        (r >> 62u128) & 0x3u128 == 2,
{
    Uuid::new_v4().as_u128()
}

/// A connected user: its uuid (as the 128-bit value of the UUID, whose
/// numeric order is the order of UUIDs), its username and its address.
#[derive(Debug)]
pub struct Client {
    pub uuid: u128,
    pub username: String,
    pub address: String,
}

/// A client as the contracts see it: `(uuid, username, address)`.
pub type ClientRecord = (u128, Seq<char>, Seq<char>);

impl View for Client {
    type V = ClientRecord;

    open spec fn view(&self) -> ClientRecord {
        (self.uuid, self.username@, self.address@)
    }
}

impl Clone for Client {
    fn clone(&self) -> (r: Self)
        ensures
            r@ == self@,
    {
        Client { uuid: self.uuid, username: self.username.clone(), address: self.address.clone() }
    }
}

impl Client {
    /// A client whose uuid is given as text, which must be a UUID (see
    /// `try_new`).
    pub fn new(uuid: String, username: String, address: String) -> (r: Client)
        requires
            uuid_of_text(uuid@) is Some,
        ensures
            r@ == (uuid_of_text(uuid@)->0, username@, address@),
    {
        let id = parse_uuid(uuid.as_str()).unwrap();
        Client { uuid: id, username, address }
    }

    /// A client whose uuid is given as text, or `None` when the text is not
    /// a UUID.
    pub fn try_new(uuid: String, username: String, address: String) -> (r: Option<Client>)
        ensures
            r is Some <==> uuid_of_text(uuid@) is Some,
            r matches Some(c) ==> c@ == (uuid_of_text(uuid@)->0, username@, address@),
    {
        match parse_uuid(uuid.as_str()) {
            Some(_) => Some(Client::new(uuid, username, address)),
            None => None,
        }
    }
}

impl Default for Client {
    /// A generic client at `127.0.0.1` with a fresh random version-4 uuid.
    fn default() -> (r: Self)
        ensures
            r.username@ == "generic_client"@,
            r.address@ == "127.0.0.1"@,
            (r.uuid >> 76u128) & 0xfu128 == 4,
            (r.uuid >> 62u128) & 0x3u128 == 2,
    {
        Client {
            username: String::from_str("generic_client"),
            uuid: random_uuid(),
            address: String::from_str("127.0.0.1"),
        }
    }
}

impl PartialEq for Client {
    fn eq(&self, other: &Self) -> (r: bool) {
        self.uuid == other.uuid
    }
}

impl vstd::std_specs::cmp::PartialEqSpecImpl for Client {
    open spec fn obeys_eq_spec() -> bool {
        true
    }

    /// Clients are equal when their uuids are.
    open spec fn eq_spec(&self, other: &Client) -> bool {
        self.uuid == other.uuid
    }
}

impl PartialOrd for Client {
    fn partial_cmp(&self, other: &Self) -> (r: Option<Ordering>) {
        if self.uuid < other.uuid {
            Some(Ordering::Less)
        } else if self.uuid == other.uuid {
            Some(Ordering::Equal)
        } else {
            Some(Ordering::Greater)
        }
    }
}

impl vstd::std_specs::cmp::PartialOrdSpecImpl for Client {
    open spec fn obeys_partial_cmp_spec() -> bool {
        true
    }

    /// Clients are ordered by uuid.
    open spec fn partial_cmp_spec(&self, other: &Client) -> Option<Ordering> {
        if self.uuid < other.uuid {
            Some(Ordering::Less)
        } else if self.uuid == other.uuid {
            Some(Ordering::Equal)
        } else {
            Some(Ordering::Greater)
        }
    }
}

} // verus!
