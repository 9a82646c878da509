//! A client of the single-threaded server: what it does with a command read
//! from its connection and with a command the server sends it.  Reading,
//! writing and channels are left to the caller.
use vstd::prelude::*;
use crate::commands::{Commands, wire_text};
use crate::params::{ParamsView, lookup};
use crate::server::server_v3::ServerMessages;
use crate::wire::{CommandKind, CommandView};

verus! {

/// How many times a relayed command is sent before the client gives up.
pub const RELAY_ATTEMPTS: u8 = 3;

/// One piece of work a client decision calls for, as the contracts see it.
pub enum ClientEffect {
    /// Write this text on the client's connection.
    Send(Seq<char>),
    /// The client asks the server for the client list, answered on its
    /// connection.
    RequestUpdate,
    /// The client asks the server for the details of this uuid, answered
    /// on its connection.
    RequestInfo(Seq<char>),
    /// Tell the server that the client with this uuid disconnected.
    Disconnect(Seq<char>),
    /// Ask the server to shut down.
    ServerShutdown,
    /// Shut the client's connection down.
    Shutdown,
}

/// One piece of work a client decision calls for.
#[derive(Debug)]
pub enum ClientAction {
    /// Write this text on the client's connection.
    Send(String),
    /// Send this message to the server, with the client's connection when
    /// the server answers on it.
    ToServer(ServerMessages),
    /// Shut the client's connection down.
    Shutdown,
}

impl View for ClientAction {
    type V = ClientEffect;

    open spec fn view(&self) -> ClientEffect {
        match self {
            ClientAction::Send(s) => ClientEffect::Send(s@),
            ClientAction::ToServer(ServerMessages::RequestUpdate) => ClientEffect::RequestUpdate,
            ClientAction::ToServer(ServerMessages::RequestInfo(u)) => ClientEffect::RequestInfo(u@),
            ClientAction::ToServer(ServerMessages::Disconnect(u)) => ClientEffect::Disconnect(u@),
            ClientAction::ToServer(ServerMessages::Shutdown) => ClientEffect::ServerShutdown,
            ClientAction::Shutdown => ClientEffect::Shutdown,
        }
    }
}

/// The views of a list of client actions.
pub open spec fn client_effects(v: Seq<ClientAction>) -> Seq<ClientEffect> {
    v.map_values(|a: ClientAction| a@)
}

/// What a client does with what it read from its connection (`None`: the
/// read failed): a `Disconnect` tells the server and shuts the connection;
/// a `ClientUpdate` is acknowledged and forwarded to the server; a
/// `ClientInfo` asks the server about the uuid it names; everything else,
/// a failed read included, is answered with a bare `Error`.
pub open spec fn read_effects(uuid: Seq<char>, read: Option<CommandView>) -> Seq<ClientEffect> {
    match read {
        Some(c) => if c == (CommandKind::Disconnect, None::<ParamsView>) {
            seq![ClientEffect::Disconnect(uuid), ClientEffect::Shutdown]
        } else if c == (CommandKind::ClientUpdate, None::<ParamsView>) {
            seq![
                ClientEffect::Send(wire_text((CommandKind::Success, None))),
                ClientEffect::RequestUpdate,
            ]
        } else if c.0 == CommandKind::ClientInfo && c.1 is Some {
            seq![ClientEffect::RequestInfo(lookup(c.1->0, "uuid"@)->0)]
        } else {
            seq![ClientEffect::Send(wire_text((CommandKind::Error, None)))]
        },
        None => seq![ClientEffect::Send(wire_text((CommandKind::Error, None)))],
    }
}

/// The text a command from the server is relayed to the client as:
/// `ClientRemove` and `Client` commands with parameters are relayed, other
/// commands are not.
pub open spec fn relay_text(c: CommandView) -> Option<Seq<char>> {
    if (c.0 == CommandKind::ClientRemove || c.0 == CommandKind::Client) && c.1 is Some {
        Some(wire_text(c))
    } else {
        None
    }
}

/// What follows the client's answer to a relayed command.
#[derive(PartialEq, Eq, Structural, Clone, Copy, Debug)]
pub enum RelayNext {
    /// The client confirmed with a bare `Success`.
    Delivered,
    /// Send the command again; this many attempts remain.
    Resend(u8),
    /// No attempt remains: send the client a bare `Error`.
    GiveUp,
}

/// The profile of a client of the single-threaded server; its connection,
/// channels and heartbeat time are kept by the caller.
#[derive(Debug)]
pub struct Client {
    uuid: String,
    username: String,
    address: String,
}

impl Client {
    /// The client's uuid, username and address.
    pub closed spec fn profile(&self) -> (Seq<char>, Seq<char>, Seq<char>) {
        (self.uuid@, self.username@, self.address@)
    }

    /// A client with this uuid, username and address.
    pub fn new(uuid: &str, username: &str, address: &str) -> (r: Client)
        ensures
            r.profile() == (uuid@, username@, address@),
    {
        Client {
            uuid: String::from_str(uuid),
            username: String::from_str(username),
            address: String::from_str(address),
        }
    }

    /// The client's uuid.
    pub fn get_uuid(&self) -> (r: String)
        ensures
            r@ == self.profile().0,
    {
        self.uuid.clone()
    }

    /// The client's username.
    pub fn get_username(&self) -> (r: String)
        ensures
            r@ == self.profile().1,
    {
        self.username.clone()
    }

    /// The client's address.
    pub fn get_address(&self) -> (r: String)
        ensures
            r@ == self.profile().2,
    {
        self.address.clone()
    }

    /// What the client does with what it read from its connection (`None`:
    /// the read failed).  A `ClientInfo` with parameters must name a
    /// uuid.
    pub fn handle_read(&self, read: Option<&Commands>) -> (r: Vec<ClientAction>)
        requires
            read matches Some(c) ==> (c@.0 == CommandKind::ClientInfo && c@.1 is Some ==> lookup(
                c@.1->0,
                "uuid"@,
            ) is Some),
        ensures
            client_effects(r@) == read_effects(
                self.profile().0,
                match read {
                    Some(c) => Some(c@),
                    None => None,
                },
            ),
    {
        let mut r: Vec<ClientAction> = Vec::new();
        match read {
            Some(Commands::Disconnect(None)) => {
                r.push(ClientAction::ToServer(ServerMessages::Disconnect(self.uuid.clone())));
                r.push(ClientAction::Shutdown);
            },
            Some(Commands::ClientUpdate(None)) => {
                r.push(ClientAction::Send(Commands::Success(None).to_string()));
                r.push(ClientAction::ToServer(ServerMessages::RequestUpdate));
            },
            Some(Commands::ClientInfo(Some(params))) => {
                let uuid = params.get("uuid").unwrap();
                r.push(ClientAction::ToServer(ServerMessages::RequestInfo(uuid.clone())));
            },
            _ => {
                r.push(ClientAction::Send(Commands::Error(None).to_string()));
            },
        }
        assert(client_effects(r@) =~= read_effects(
            self.profile().0,
            match read {
                Some(c) => Some(c@),
                None => None,
            },
        ));
        r
    }
}

/// A client that reads a `ClientInfo` naming a uuid asks the server about
/// the client with that uuid, whichever client reads it.
pub proof fn law_client_info_asks_about_the_named_client(
    me: Seq<char>,
    other: Seq<char>,
    ps: ParamsView,
)
    requires
        lookup(ps, "uuid"@) is Some,
    ensures
        read_effects(me, Some((CommandKind::ClientInfo, Some(ps)))) == seq![
            ClientEffect::RequestInfo(lookup(ps, "uuid"@)->0),
        ],
        read_effects(me, Some((CommandKind::ClientInfo, Some(ps)))) == read_effects(
            other,
            Some((CommandKind::ClientInfo, Some(ps))),
        ),
{
}

/// The text to relay for a command the server sent the client, if it is
/// relayed.
pub fn relay_message(command: &Commands) -> (r: Option<String>)
    ensures
        match r {
            Some(t) => relay_text(command@) == Some(t@),
            None => relay_text(command@) is None,
        },
{
    match command {
        Commands::ClientRemove(Some(_)) => Some(command.to_string()),
        Commands::Client(Some(_)) => Some(command.to_string()),
        _ => None,
    }
}

/// After an attempt to relay a command: a bare `Success` answer delivers
/// it; otherwise it is sent again while attempts remain (`remaining`
/// counts this attempt), and given up when none does.
pub fn relay_answered(remaining: u8, answer: Option<&Commands>) -> (r: RelayNext)
    requires
        remaining >= 1,
    ensures
        r == if answer matches Some(c) && c@ == (CommandKind::Success, None::<ParamsView>) {
            RelayNext::Delivered
        } else if remaining - 1 < 1 {
            RelayNext::GiveUp
        } else {
            RelayNext::Resend((remaining - 1) as u8)
        },
{
    let success = match answer {
        Some(Commands::Success(None)) => true,
        _ => false,
    };
    if success {
        RelayNext::Delivered
    } else if remaining - 1 < 1 {
        RelayNext::GiveUp
    } else {
        RelayNext::Resend(remaining - 1)
    }
}

} // verus!
