//! The threaded server: its identity, its registered clients, and what its
//! server loop decides for messages and new connections.  The loop itself,
//! the sockets and the channels are left to the caller.
use vstd::prelude::*;
use crate::client_management::client_profile::{Client, ClientRegistry, ClientView, register};
use crate::commands::{Commands, wire_text};
use crate::params::{Params, ParamsView};
use crate::server::commands::client_update::{client_line, format_client_data};
use crate::server::server_v3::{
    Effect, ServerAction, connecting_client, effects, is_complete_connect, server_params,
};
use crate::wire::CommandKind;

pub use crate::server::server_v3::ServerMessages;

verus! {

/// What the server loop does after a message from its channel.
#[derive(Debug)]
pub enum LoopStep {
    /// Leave the loop: the server stops.
    Stop,
    /// Write these texts on the stream of the message, then go on.
    Continue(Vec<String>),
}

/// The line of every registered client, in registry order.
pub open spec fn client_lines(cs: Seq<ClientView>) -> Seq<Seq<char>> {
    cs.map_values(|c: ClientView| client_line(c.0, c.1, c.2))
}

/// A `Notify` of `c` for every registered client, in registry order.
pub open spec fn broadcast_effects(
    cs: Seq<ClientView>,
    c: crate::wire::CommandView,
) -> Seq<Effect> {
    cs.map_values(|x: ClientView| Effect::Notify(x.0, c))
}

/// The threaded server's identity and registered clients.
#[derive(Debug)]
pub struct Server {
    pub name: String,
    pub address: String,
    pub author: String,
    pub connected_clients: ClientRegistry,
}

impl Server {
    /// A server with no client.
    pub fn new(name: &str, address: &str, author: &str) -> (r: Server)
        ensures
            r.name@ == name@,
            r.address@ == address@,
            r.author@ == author@,
            r.connected_clients@ == Seq::<ClientView>::empty(),
    {
        Server {
            name: String::from_str(name),
            address: String::from_str(address),
            author: String::from_str(author),
            connected_clients: ClientRegistry::new(),
        }
    }

    /// The address the server listens on.
    pub fn get_address(&self) -> (r: String)
        ensures
            r@ == self.address@,
    {
        self.address.clone()
    }

    /// The greeting written on every new connection: a `Request` without
    /// parameters.
    pub fn greeting() -> (r: String)
        ensures
            r@ == wire_text((CommandKind::Request, None)),
    {
        Commands::Request(None).to_string()
    }

    /// What the server loop does with a message from its channel:
    /// `Shutdown` stops it; `RequestUpdate` writes the line of every
    /// registered client on the requester's stream; other messages are
    /// ignored.
    pub fn handle_message(&self, msg: &ServerMessages) -> (r: LoopStep)
        ensures
            match msg {
                ServerMessages::Shutdown => r is Stop,
                ServerMessages::RequestUpdate => r matches LoopStep::Continue(v) && v@.map_values(
                    |s: String| s@,
                ) == client_lines(self.connected_clients@),
                _ => r matches LoopStep::Continue(v) && v@.len() == 0,
            },
    {
        match msg {
            ServerMessages::Shutdown => LoopStep::Stop,
            ServerMessages::RequestUpdate => {
                let mut lines: Vec<String> = Vec::new();
                let n = self.connected_clients.len();
                let mut i: usize = 0;
                while i < n
                    invariant
                        n == self.connected_clients@.len(),
                        i <= n,
                        lines@.len() == i,
                        lines@.map_values(|s: String| s@) =~= client_lines(
                            self.connected_clients@,
                        ).subrange(0, i as int),
                    decreases n - i,
                {
                    let client = self.connected_clients.client_at(i);
                    let line = format_client_data(client.get_uuid(), client);
                    proof {
                        assert(client_lines(self.connected_clients@)[i as int] == line@);
                    }
                    let ghost prev = lines@;
                    lines.push(line);
                    proof {
                        let want = client_lines(self.connected_clients@).subrange(0, i + 1);
                        assert forall|j: int| 0 <= j < i + 1 implies lines@.map_values(
                            |s: String| s@,
                        )[j] == want[j] by {
                            if j < i {
                                assert(lines@[j] == prev[j]);
                                assert(prev.map_values(|s: String| s@)[j] == want[j]);
                            }
                        }
                        assert(lines@.map_values(|s: String| s@) =~= want);
                    }
                    i = i + 1;
                }
                assert(client_lines(self.connected_clients@).subrange(0, n as int) =~= client_lines(
                    self.connected_clients@,
                ));
                LoopStep::Continue(lines)
            },
            _ => LoopStep::Continue(Vec::new()),
        }
    }

    /// Handles the command a new connection sent after the greeting: a
    /// complete `Connect` registers the client; an `Info` without
    /// parameters is answered with the server's name and owner; anything
    /// else with a bare `Error`.  Returns the texts to write on the
    /// connection.  A `Connect` with parameters must carry the uuid, name
    /// and host.
    pub fn handle_connection_request(&mut self, command: &Commands) -> (r: Vec<String>)
        requires
            command@.0 == CommandKind::Connect && command@.1 is Some ==> is_complete_connect(
                command@,
            ),
        ensures
            final(self).name == old(self).name,
            final(self).address == old(self).address,
            final(self).author == old(self).author,
            if is_complete_connect(command@) {
                &&& final(self).connected_clients@ == register(
                    old(self).connected_clients@,
                    connecting_client(command@),
                )
                &&& r@.len() == 0
            } else if command@ == (CommandKind::Info, None::<ParamsView>) {
                &&& final(self).connected_clients@ == old(self).connected_clients@
                &&& r@.map_values(|s: String| s@) == seq![
                    wire_text(
                        (CommandKind::Info, Some(server_params(old(self).name@, old(self).author@))),
                    ),
                ]
            } else {
                &&& final(self).connected_clients@ == old(self).connected_clients@
                &&& r@.map_values(|s: String| s@) == seq![wire_text((CommandKind::Error, None))]
            },
    {
        let mut r: Vec<String> = Vec::new();
        match command {
            Commands::Connect(Some(data)) => {
                let uuid = data.get("uuid").unwrap();
                let username = data.get("name").unwrap();
                let address = data.get("host").unwrap();
                let client = Client {
                    uuid: uuid.clone(),
                    username: username.clone(),
                    address: address.clone(),
                };
                self.connected_clients.insert(client);
            },
            Commands::Info(None) => {
                r.push(self.get_info().to_string());
            },
            _ => {
                r.push(Commands::Error(None).to_string());
            },
        }
        assert(r@.map_values(|s: String| s@) =~= if is_complete_connect(command@) {
            Seq::<Seq<char>>::empty()
        } else if command@ == (CommandKind::Info, None::<ParamsView>) {
            seq![
                wire_text(
                    (CommandKind::Info, Some(server_params(old(self).name@, old(self).author@))),
                ),
            ]
        } else {
            seq![wire_text((CommandKind::Error, None))]
        });
        r
    }

    /// The server's details as an `Info` command with its name and owner
    /// (the caller sends it on the requester's channel).
    pub fn get_info(&self) -> (r: Commands)
        ensures
            r@ == (CommandKind::Info, Some(server_params(self.name@, self.author@))),
    {
        let mut params = Params::new();
        params.insert(String::from_str("name"), self.name.clone());
        params.insert(String::from_str("owner"), self.author.clone());
        Commands::Info(Some(params))
    }

    /// Sends `command` to every registered client: one `Notify` per client,
    /// in registry order.
    pub fn update_all_clients(&self, command: &Commands) -> (r: Vec<ServerAction>)
        ensures
            effects(r@) == broadcast_effects(self.connected_clients@, command@),
    {
        let mut r: Vec<ServerAction> = Vec::new();
        let n = self.connected_clients.len();
        let mut i: usize = 0;
        while i < n
            invariant
                n == self.connected_clients@.len(),
                i <= n,
                r@.len() == i,
                effects(r@) =~= broadcast_effects(self.connected_clients@, command@).subrange(
                    0,
                    i as int,
                ),
            decreases n - i,
        {
            let client = self.connected_clients.client_at(i);
            let action = ServerAction::Notify(client.get_uuid().clone(), command.clone());
            proof {
                assert(broadcast_effects(self.connected_clients@, command@)[i as int] == action@);
            }
            let ghost prev = r@;
            r.push(action);
            proof {
                let want = broadcast_effects(self.connected_clients@, command@).subrange(0, i + 1);
                assert forall|j: int| 0 <= j < i + 1 implies effects(r@)[j] == want[j] by {
                    if j < i {
                        assert(r@[j] == prev[j]);
                        assert(effects(prev)[j] == want[j]);
                    }
                }
                assert(effects(r@) =~= want);
            }
            i = i + 1;
        }
        assert(broadcast_effects(self.connected_clients@, command@).subrange(0, n as int)
            =~= broadcast_effects(self.connected_clients@, command@));
        r
    }
}

} // verus!
