//! A client of the threaded server: what it does with a command the server
//! sends on its channel and with a command read from its connection.
//! Reading, writing and channels are left to the caller.
use vstd::prelude::*;
use crate::commands::{Commands, wire_text};
use crate::params::{Params, ParamsView, lookup, params_insert};
use crate::server::server_v3::{client_params, law_client_params_describe_the_client, server_params};
use crate::wire::{CommandKind, CommandView};

verus! {

/// One piece of work a client decision calls for, as the contracts see it.
pub enum ProfileEffect {
    /// Write this text on the client's connection.
    Transmit(Seq<char>),
    /// Read the client's answer and, unless it is a `Success`, write a bare
    /// `Error`.
    ConfirmSuccess,
    /// Send this command to the client with this uuid.
    ToClient(Seq<char>, CommandView),
    /// Send this command, on behalf of the client with this uuid, to every
    /// client of the server.
    ToAllClients(Seq<char>, CommandView),
    /// Remove the client with this uuid from the server.
    Unregister(Seq<char>),
    /// Shut the client's connection down.
    Shutdown,
}

/// One piece of work a client decision calls for.
#[derive(Debug)]
pub enum ProfileAction {
    Transmit(String),
    ConfirmSuccess,
    ToClient(String, Commands),
    ToAllClients(String, Commands),
    Unregister(String),
    Shutdown,
}

impl View for ProfileAction {
    type V = ProfileEffect;

    open spec fn view(&self) -> ProfileEffect {
        match self {
            ProfileAction::Transmit(s) => ProfileEffect::Transmit(s@),
            ProfileAction::ConfirmSuccess => ProfileEffect::ConfirmSuccess,
            ProfileAction::ToClient(u, c) => ProfileEffect::ToClient(u@, c@),
            ProfileAction::ToAllClients(u, c) => ProfileEffect::ToAllClients(u@, c@),
            ProfileAction::Unregister(u) => ProfileEffect::Unregister(u@),
            ProfileAction::Shutdown => ProfileEffect::Shutdown,
        }
    }
}

/// The views of a list of actions.
pub open spec fn profile_effects(v: Seq<ProfileAction>) -> Seq<ProfileEffect> {
    v.map_values(|a: ProfileAction| a@)
}

/// The parameters naming only a uuid.
pub open spec fn uuid_params(uuid: Seq<char>) -> ParamsView {
    params_insert(Seq::empty(), "uuid"@, uuid)
}

/// When the command needs a `uuid` parameter, it has one.
pub open spec fn names_uuid_when_needed(c: CommandView, needs: bool) -> bool {
    needs ==> (c.1 is Some && lookup(c.1->0, "uuid"@) is Some)
}

/// The uuid a command's parameters name.
pub open spec fn named_uuid(c: CommandView) -> Seq<char> {
    lookup(c.1->0, "uuid"@)->0
}

/// What a client with profile `me` does with a command the server sent on
/// its channel: an `Info` with parameters and any `Success` are written to
/// the client; a `Client` with parameters is written and its confirmation
/// awaited; a `ClientRemove` with parameters is written as a `Client` with
/// the same parameters and its confirmation awaited; a `ClientUpdate` or
/// `ClientInfo` with parameters sends the client named by their uuid this
/// client's details (as a `Client`, resp. a `Success`); anything else is
/// ignored.
pub open spec fn channel_effects(
    me: (Seq<char>, Seq<char>, Seq<char>),
    c: CommandView,
) -> Seq<ProfileEffect> {
    match c.0 {
        CommandKind::Info => if c.1 is Some {
            seq![ProfileEffect::Transmit(wire_text(c))]
        } else {
            Seq::empty()
        },
        CommandKind::ClientUpdate => if c.1 is Some {
            seq![
                ProfileEffect::ToClient(
                    named_uuid(c),
                    (CommandKind::Client, Some(client_params(me))),
                ),
            ]
        } else {
            Seq::empty()
        },
        CommandKind::ClientInfo => if c.1 is Some {
            seq![
                ProfileEffect::ToClient(
                    named_uuid(c),
                    (CommandKind::Success, Some(client_params(me))),
                ),
            ]
        } else {
            Seq::empty()
        },
        CommandKind::ClientRemove => if c.1 is Some {
            seq![
                ProfileEffect::Transmit(wire_text((CommandKind::Client, c.1))),
                ProfileEffect::ConfirmSuccess,
            ]
        } else {
            Seq::empty()
        },
        CommandKind::Client => if c.1 is Some {
            seq![ProfileEffect::Transmit(wire_text(c)), ProfileEffect::ConfirmSuccess]
        } else {
            Seq::empty()
        },
        CommandKind::Success => seq![ProfileEffect::Transmit(wire_text(c))],
        _ => Seq::empty(),
    }
}

/// The channel commands whose handling reads a uuid from the parameters.
pub open spec fn channel_needs_uuid(c: CommandView) -> bool {
    (c.0 == CommandKind::ClientUpdate || c.0 == CommandKind::ClientInfo) && c.1 is Some
}

/// What a client with profile `me` does with a command read from its
/// connection, on a server with name `name` and author `author`: an `Info`
/// without parameters is answered with the server's name and owner; a
/// `Disconnect` without parameters unregisters the client, shuts its
/// connection and tells every client to remove it; a `ClientUpdate`
/// without parameters is acknowledged and passed to every client; a
/// `ClientInfo` with parameters asks the client named by their uuid for its
/// details; anything else is ignored.
pub open spec fn read_effects(
    me: (Seq<char>, Seq<char>, Seq<char>),
    name: Seq<char>,
    author: Seq<char>,
    c: CommandView,
) -> Seq<ProfileEffect> {
    if c == (CommandKind::Info, None::<ParamsView>) {
        seq![
            ProfileEffect::Transmit(
                wire_text((CommandKind::Success, Some(server_params(name, author)))),
            ),
        ]
    } else if c == (CommandKind::Disconnect, None::<ParamsView>) {
        seq![
            ProfileEffect::Unregister(me.0),
            ProfileEffect::Shutdown,
            ProfileEffect::ToAllClients(me.0, (CommandKind::ClientRemove, Some(uuid_params(me.0)))),
        ]
    } else if c == (CommandKind::ClientUpdate, None::<ParamsView>) {
        seq![
            ProfileEffect::Transmit(wire_text((CommandKind::Success, None))),
            ProfileEffect::ToAllClients(me.0, (CommandKind::ClientUpdate, Some(uuid_params(me.0)))),
        ]
    } else if c.0 == CommandKind::ClientInfo && c.1 is Some {
        seq![
            ProfileEffect::ToClient(
                named_uuid(c),
                (CommandKind::ClientInfo, Some(uuid_params(me.0))),
            ),
        ]
    } else {
        Seq::empty()
    }
}

/// Commands that name a uuid are addressed to the client with that uuid:
/// a `ClientInfo` read from the connection asks that client for its
/// details, and a `ClientUpdate` or `ClientInfo` from the channel sends that
/// client this client's details (its uuid among them), whichever client
/// handles them.
pub proof fn law_named_commands_go_to_the_named_client(
    me: (Seq<char>, Seq<char>, Seq<char>),
    name: Seq<char>,
    author: Seq<char>,
    ps: ParamsView,
)
    requires
        lookup(ps, "uuid"@) is Some,
    ensures
        read_effects(me, name, author, (CommandKind::ClientInfo, Some(ps))).len() == 1,
        read_effects(me, name, author, (CommandKind::ClientInfo, Some(ps)))[0] matches
            ProfileEffect::ToClient(u, _) && u == lookup(ps, "uuid"@)->0,
        channel_effects(me, (CommandKind::ClientUpdate, Some(ps))).len() == 1,
        channel_effects(me, (CommandKind::ClientUpdate, Some(ps)))[0] matches
            ProfileEffect::ToClient(u, c) && u == lookup(ps, "uuid"@)->0 && c.0
            == CommandKind::Client && lookup(c.1->0, "uuid"@) == Some(me.0),
        channel_effects(me, (CommandKind::ClientInfo, Some(ps))).len() == 1,
        channel_effects(me, (CommandKind::ClientInfo, Some(ps)))[0] matches
            ProfileEffect::ToClient(u, c) && u == lookup(ps, "uuid"@)->0 && c.0
            == CommandKind::Success && lookup(c.1->0, "uuid"@) == Some(me.0),
{
    law_client_params_describe_the_client(me);
}

/// The read commands whose handling reads a uuid from the parameters.
pub open spec fn read_needs_uuid(c: CommandView) -> bool {
    c.0 == CommandKind::ClientInfo && c.1 is Some
}

/// The parameters describing a client.
fn profile_params(uuid: &String, username: &String, address: &String) -> (r: Params)
    ensures
        r@ == client_params((uuid@, username@, address@)),
{
    let mut data = Params::new();
    data.insert(String::from_str("uuid"), uuid.clone());
    data.insert(String::from_str("name"), username.clone());
    data.insert(String::from_str("host"), address.clone());
    data
}

/// The parameters naming only `uuid`.
fn params_of_uuid(uuid: &String) -> (r: Params)
    ensures
        r@ == uuid_params(uuid@),
{
    let mut data = Params::new();
    data.insert(String::from_str("uuid"), uuid.clone());
    data
}

/// A client of the threaded server; its connection, channels and server
/// are kept by the caller.
#[derive(Debug)]
pub struct Client {
    pub connected: bool,
    pub uuid: String,
    pub username: String,
    pub address: String,
}

impl Client {
    /// The client's uuid, username and address.
    pub open spec fn profile(&self) -> (Seq<char>, Seq<char>, Seq<char>) {
        (self.uuid@, self.username@, self.address@)
    }

    /// A connected client with this uuid, username and address.
    pub fn new(uuid: &str, username: &str, address: &str) -> (r: Client)
        ensures
            r.connected,
            r.profile() == (uuid@, username@, address@),
    {
        Client {
            connected: true,
            uuid: String::from_str(uuid),
            username: String::from_str(username),
            address: String::from_str(address),
        }
    }

    /// The client's uuid.
    pub fn get_uuid(&self) -> (r: &String)
        ensures
            r@ == self.uuid@,
    {
        &self.uuid
    }

    /// The client's username.
    pub fn get_username(&self) -> (r: &String)
        ensures
            r@ == self.username@,
    {
        &self.username
    }

    /// The client's address.
    pub fn get_address(&self) -> (r: &String)
        ensures
            r@ == self.address@,
    {
        &self.address
    }

    /// What the client does with a command the server sent on its channel.
    pub fn handle_channel_command(&self, command: &Commands) -> (r: Vec<ProfileAction>)
        requires
            names_uuid_when_needed(command@, channel_needs_uuid(command@)),
        ensures
            profile_effects(r@) == channel_effects(self.profile(), command@),
    {
        let mut r: Vec<ProfileAction> = Vec::new();
        match command {
            Commands::Info(Some(_)) => {
                r.push(ProfileAction::Transmit(command.to_string()));
            },
            Commands::ClientUpdate(Some(params)) => {
                let uuid = params.get("uuid").unwrap();
                let data = profile_params(&self.uuid, &self.username, &self.address);
                r.push(ProfileAction::ToClient(uuid.clone(), Commands::Client(Some(data))));
            },
            Commands::ClientInfo(Some(params)) => {
                let uuid = params.get("uuid").unwrap();
                let data = profile_params(&self.uuid, &self.username, &self.address);
                r.push(ProfileAction::ToClient(uuid.clone(), Commands::Success(Some(data))));
            },
            Commands::ClientRemove(Some(params)) => {
                let relayed = Commands::Client(Some(params.clone()));
                r.push(ProfileAction::Transmit(relayed.to_string()));
                r.push(ProfileAction::ConfirmSuccess);
            },
            Commands::Client(Some(_)) => {
                r.push(ProfileAction::Transmit(command.to_string()));
                r.push(ProfileAction::ConfirmSuccess);
            },
            Commands::Success(_) => {
                r.push(ProfileAction::Transmit(command.to_string()));
            },
            _ => {},
        }
        assert(profile_effects(r@) =~= channel_effects(self.profile(), command@));
        r
    }

    /// What the client does with a command read from its connection, on a
    /// server with this name and author; a `Disconnect` also marks the
    /// client as no longer connected.
    pub fn handle_read(&mut self, command: &Commands, server_name: &String, server_author: &String) -> (r:
        Vec<ProfileAction>)
        requires
            names_uuid_when_needed(command@, read_needs_uuid(command@)),
        ensures
            final(self).profile() == old(self).profile(),
            final(self).connected == (old(self).connected && command@ != (
                CommandKind::Disconnect,
                None::<ParamsView>,
            )),
            profile_effects(r@) == read_effects(
                old(self).profile(),
                server_name@,
                server_author@,
                command@,
            ),
    {
        let mut r: Vec<ProfileAction> = Vec::new();
        match command {
            Commands::Info(None) => {
                let mut params = Params::new();
                params.insert(String::from_str("name"), server_name.clone());
                params.insert(String::from_str("owner"), server_author.clone());
                r.push(ProfileAction::Transmit(Commands::Success(Some(params)).to_string()));
            },
            Commands::Disconnect(None) => {
                self.connected = false;
                r.push(ProfileAction::Unregister(self.uuid.clone()));
                r.push(ProfileAction::Shutdown);
                let params = params_of_uuid(&self.uuid);
                r.push(
                    ProfileAction::ToAllClients(self.uuid.clone(), Commands::ClientRemove(Some(params))),
                );
            },
            Commands::ClientUpdate(None) => {
                r.push(ProfileAction::Transmit(Commands::Success(None).to_string()));
                let params = params_of_uuid(&self.uuid);
                r.push(
                    ProfileAction::ToAllClients(self.uuid.clone(), Commands::ClientUpdate(Some(params))),
                );
            },
            Commands::ClientInfo(Some(params)) => {
                let uuid = params.get("uuid").unwrap();
                let data = params_of_uuid(&self.uuid);
                r.push(ProfileAction::ToClient(uuid.clone(), Commands::ClientInfo(Some(data))));
            },
            _ => {},
        }
        assert(profile_effects(r@) =~= read_effects(
            old(self).profile(),
            server_name@,
            server_author@,
            command@,
        ));
        r
    }

    /// What follows reading the client's confirmation (`None`: the read
    /// failed): nothing after a `Success`, otherwise a bare `Error` to write.
    pub fn confirm_success(&self, answer: Option<&Commands>) -> (r: Option<String>)
        ensures
            match answer {
                Some(c) if c@.0 == CommandKind::Success => r is None,
                _ => r matches Some(t) && t@ == wire_text((CommandKind::Error, None)),
            },
    {
        match answer {
            Some(Commands::Success(_)) => None,
            _ => Some(Commands::Error(None).to_string()),
        }
    }

    /// Disconnects the client (the caller shuts its connection down).
    pub fn disconnect(&mut self)
        ensures
            !final(self).connected,
            final(self).profile() == old(self).profile(),
    {
        self.connected = false;
    }

    /// The error message `transmit_error` writes: `!error:`, followed by a
    /// space and `data` when `data` is not empty.
    pub fn error_message(&self, data: &String) -> (r: String)
        ensures
            r@ == if data@.len() == 0 {
                "!error:"@
            } else {
                "!error:"@ + " "@ + data@
            },
    {
        let mut error_message = String::from_str("!error:");
        if data.unicode_len() != 0 {
            error_message.append(" ");
            error_message.append(data.as_str());
        }
        error_message
    }
}

} // verus!
