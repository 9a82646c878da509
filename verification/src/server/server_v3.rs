//! The single-threaded server: its state, and what each tick decides for
//! the messages it receives and the connections it accepts.  Carrying out
//! the decisions (sockets, channels) is left to the caller.
use vstd::prelude::*;
use crate::client_management::client_profile::{
    Client, ClientRegistry, ClientView, find_client, lemma_register, register, unregister,
    uuids_distinct,
};
use crate::commands::{Commands, wire_text};
use crate::params::{Params, ParamsView, has_key, law_lookup_after_insert, lookup, params_insert};
use crate::wire::{CommandKind, CommandView};

verus! {

/// The life cycle of a server.
#[allow(non_camel_case_types)]
#[derive(PartialEq, Eq, Structural, Clone, Copy, Debug)]
pub enum ServerState {
    starting,
    started,
    stopping,
    stopped,
}

/// The messages a server receives from its clients and from itself.  A
/// request that is answered on a client's stream leaves the stream with the
/// caller, who sends the answer on it.
#[derive(Debug)]
pub enum ServerMessages {
    /// A client asks for the list of clients.
    RequestUpdate,
    /// A client asks for the details of the client with this uuid.
    RequestInfo(String),
    /// The client with this uuid disconnected.
    Disconnect(String),
    /// The server is asked to shut down.
    Shutdown,
}

/// One piece of work a decision calls for, as the contracts see it.
pub enum Effect {
    /// Write this text on the stream of the message or connection at hand.
    Reply(Seq<char>),
    /// Send this command on the channel of the client with this uuid.
    Notify(Seq<char>, CommandView),
}

/// One piece of work a decision calls for.
#[derive(Debug)]
pub enum ServerAction {
    /// Write this text on the stream of the message or connection at hand.
    Reply(String),
    /// Send this command on the channel of the client with this uuid.
    Notify(String, Commands),
}

impl View for ServerAction {
    type V = Effect;

    open spec fn view(&self) -> Effect {
        match self {
            ServerAction::Reply(s) => Effect::Reply(s@),
            ServerAction::Notify(u, c) => Effect::Notify(u@, c@),
        }
    }
}

/// The views of a list of actions.
pub open spec fn effects(v: Seq<ServerAction>) -> Seq<Effect> {
    v.map_values(|a: ServerAction| a@)
}

/// A `Disconnect` command without parameters for every registered client,
/// in registry order.
pub open spec fn shutdown_effects(cs: Seq<ClientView>) -> Seq<Effect>
    decreases cs.len(),
{
    if cs.len() == 0 {
        Seq::empty()
    } else {
        shutdown_effects(cs.drop_last()) + seq![
            Effect::Notify(cs.last().0, (CommandKind::Disconnect, None)),
        ]
    }
}

/// The parameters describing a client: its `uuid`, `name` and `host`.
pub open spec fn client_params(c: ClientView) -> ParamsView {
    params_insert(
        params_insert(params_insert(Seq::empty(), "uuid"@, c.0), "name"@, c.1),
        "host"@,
        c.2,
    )
}

/// The parameters describing a server: its `name` and `owner`.
pub open spec fn server_params(name: Seq<char>, owner: Seq<char>) -> ParamsView {
    params_insert(params_insert(Seq::empty(), "name"@, name), "owner"@, owner)
}

/// The answer to a request for the client with uuid `uuid`: a success with
/// the client's details, or a bare success when it is not registered.
pub open spec fn info_answer(cs: Seq<ClientView>, uuid: Seq<char>) -> Seq<char> {
    match find_client(cs, uuid) {
        Some(c) => wire_text((CommandKind::Success, Some(client_params(c)))),
        None => wire_text((CommandKind::Success, None)),
    }
}

/// A connection request carries a client's `uuid`, `name` and `host`.
pub open spec fn is_complete_connect(c: CommandView) -> bool {
    &&& c.0 == CommandKind::Connect
    &&& c.1 is Some
    &&& lookup(c.1->0, "uuid"@) is Some
    &&& lookup(c.1->0, "name"@) is Some
    &&& lookup(c.1->0, "host"@) is Some
}

/// The client a complete connection request describes.
pub open spec fn connecting_client(c: CommandView) -> ClientView {
    (lookup(c.1->0, "uuid"@)->0, lookup(c.1->0, "name"@)->0, lookup(c.1->0, "host"@)->0)
}

/// The registry after the server handled `ms` in order: each `Disconnect`
/// unregisters its uuid.
pub open spec fn clients_after(cs: Seq<ClientView>, ms: Seq<ServerMessages>) -> Seq<ClientView>
    decreases ms.len(),
{
    if ms.len() == 0 {
        cs
    } else {
        let before = clients_after(cs, ms.drop_last());
        match ms.last() {
            ServerMessages::Disconnect(u) => unregister(before, u@),
            _ => before,
        }
    }
}

/// The number of `Shutdown` messages in `ms`.
pub open spec fn shutdown_count(ms: Seq<ServerMessages>) -> nat
    decreases ms.len(),
{
    if ms.len() == 0 {
        0
    } else {
        shutdown_count(ms.drop_last()) + if ms.last() is Shutdown {
            1nat
        } else {
            0nat
        }
    }
}

/// The number of messages from clients (all but `Shutdown`) in `ms`.
pub open spec fn client_message_count(ms: Seq<ServerMessages>) -> nat
    decreases ms.len(),
{
    if ms.len() == 0 {
        0
    } else {
        client_message_count(ms.drop_last()) + if ms.last() is Shutdown {
            0nat
        } else {
            1nat
        }
    }
}

/// The server's state after handling `ms` from state `st`: a `Shutdown`
/// stops it, other messages leave the state as it is.
pub open spec fn state_after(st: ServerState, ms: Seq<ServerMessages>) -> ServerState
    decreases ms.len(),
{
    if ms.len() == 0 {
        st
    } else if ms.last() is Shutdown {
        ServerState::stopped
    } else {
        state_after(st, ms.drop_last())
    }
}

/// What handling `m` calls for while `cs` are registered.
pub open spec fn message_effects(cs: Seq<ClientView>, m: ServerMessages) -> Seq<Effect> {
    match m {
        ServerMessages::Shutdown => shutdown_effects(cs),
        ServerMessages::RequestInfo(uuid) => seq![Effect::Reply(info_answer(cs, uuid@))],
        _ => Seq::empty(),
    }
}

/// Whether a server with these counters and registered clients can handle
/// `m`: no counter is at its limit, and an update is asked for only while
/// no client is registered.
pub open spec fn handleable(s2s: usize, c2s: usize, cs: Seq<ClientView>, m: ServerMessages) -> bool {
    match m {
        ServerMessages::Shutdown => s2s < usize::MAX,
        ServerMessages::RequestUpdate => c2s < usize::MAX && cs.len() == 0,
        _ => c2s < usize::MAX,
    }
}

/// On shutdown every registered client, in registry order, is sent one
/// `Disconnect` without parameters.
pub proof fn law_shutdown_disconnects_everyone(cs: Seq<ClientView>)
    ensures
        shutdown_effects(cs).len() == cs.len(),
        forall|i: int|
            0 <= i < cs.len() ==> #[trigger] shutdown_effects(cs)[i] == Effect::Notify(
                cs[i].0,
                (CommandKind::Disconnect, None),
            ),
    decreases cs.len(),
{
    if cs.len() > 0 {
        law_shutdown_disconnects_everyone(cs.drop_last());
        assert forall|i: int| 0 <= i < cs.len() implies #[trigger] shutdown_effects(cs)[i]
            == Effect::Notify(cs[i].0, (CommandKind::Disconnect, None)) by {
            if i < cs.len() - 1 {
                assert(shutdown_effects(cs)[i] == shutdown_effects(cs.drop_last())[i]);
                assert(cs.drop_last()[i] == cs[i]);
            }
        }
    }
}

/// The details a server gives about a client name its uuid, its name and
/// its host.
pub proof fn law_client_params_describe_the_client(c: ClientView)
    ensures
        lookup(client_params(c), "uuid"@) == Some(c.0),
        lookup(client_params(c), "name"@) == Some(c.1),
        lookup(client_params(c), "host"@) == Some(c.2),
        client_params(c).len() == 3,
{
    reveal_strlit("uuid");
    reveal_strlit("name");
    reveal_strlit("host");
    let e: ParamsView = Seq::empty();
    law_lookup_after_insert(e, "uuid"@, c.0);
    let a = params_insert(e, "uuid"@, c.0);
    law_lookup_after_insert(a, "name"@, c.1);
    let b = params_insert(a, "name"@, c.1);
    law_lookup_after_insert(b, "host"@, c.2);
    assert("uuid"@[0] != "name"@[0] && "uuid"@[0] != "host"@[0] && "name"@[0] != "host"@[0]);
    assert(!has_key(e, "uuid"@));
    assert(a =~= seq![("uuid"@, c.0)]);
    assert(!has_key(a, "name"@)) by {
        if has_key(a, "name"@) {
            let i = choose|i: int| 0 <= i < a.len() && a[i].0 == "name"@;
            assert(a[i].0 == "uuid"@);
        }
    }
    assert(b =~= seq![("uuid"@, c.0), ("name"@, c.1)]);
    assert(!has_key(b, "host"@)) by {
        if has_key(b, "host"@) {
            let i = choose|i: int| 0 <= i < b.len() && b[i].0 == "host"@;
            assert(b[i].0 == "uuid"@ || b[i].0 == "name"@);
        }
    }
}

/// A complete connection request registers the client its parameters
/// describe: its uuid then finds a client with the name and host the
/// parameters give.
pub proof fn law_connect_registers_the_described_client(cs: Seq<ClientView>, c: CommandView)
    requires
        uuids_distinct(cs),
        is_complete_connect(c),
    ensures
        find_client(register(cs, connecting_client(c)), lookup(c.1->0, "uuid"@)->0) == Some(
            (
                lookup(c.1->0, "uuid"@)->0,
                lookup(c.1->0, "name"@)->0,
                lookup(c.1->0, "host"@)->0,
            ),
        ),
{
    lemma_register(cs, connecting_client(c));
}

/// A `Shutdown` can be handled whenever its counter has room, whatever
/// clients are registered; an update request whenever the client counter
/// has room and no client is registered; any other message from a client
/// whenever the client counter has room.
pub proof fn law_what_can_be_handled(
    s2s: usize,
    c2s: usize,
    cs: Seq<ClientView>,
    m: ServerMessages,
)
    ensures
        handleable(s2s, c2s, cs, ServerMessages::Shutdown) <==> s2s < usize::MAX,
        handleable(s2s, c2s, cs, ServerMessages::RequestUpdate) <==> c2s < usize::MAX && cs.len()
            == 0,
        !(m is Shutdown) && !(m is RequestUpdate) ==> (handleable(s2s, c2s, cs, m) <==> c2s
            < usize::MAX),
{
}

proof fn lemma_prefix_step(ms: Seq<ServerMessages>, i: int)
    requires
        0 <= i < ms.len(),
    ensures
        ms.take(i + 1).drop_last() == ms.take(i),
        ms.take(i + 1).last() == ms[i],
{
    assert(ms.take(i + 1).drop_last() =~= ms.take(i));
}

/// The server's state and metrics; its sockets and channels are kept by the
/// caller.
#[derive(Debug)]
pub struct Server {
    pub name: String,
    pub address: String,
    pub owner: String,
    pub state: ServerState,
    pub connected_clients: ClientRegistry,
    /// Requests from new connections.
    pub o2s_rqst: usize,
    /// Messages from clients.
    pub c2s_msgs: usize,
    /// Messages from the server itself.
    pub s2s_msgs: usize,
    /// Messages to clients.
    pub s2c_msgs: usize,
}

impl Server {
    /// The registered clients.
    pub open spec fn clients(&self) -> Seq<ClientView> {
        self.connected_clients@
    }

    /// A stopped server with no client and zeroed metrics.
    pub fn new(name: &str, address: &str, author: &str) -> (r: Server)
        ensures
            r.name@ == name@,
            r.address@ == address@,
            r.owner@ == author@,
            r.state == ServerState::stopped,
            r.clients() == Seq::<ClientView>::empty(),
            r.o2s_rqst == 0 && r.c2s_msgs == 0 && r.s2s_msgs == 0 && r.s2c_msgs == 0,
    {
        Server {
            name: String::from_str(name),
            address: String::from_str(address),
            owner: String::from_str(author),
            state: ServerState::stopped,
            connected_clients: ClientRegistry::new(),
            o2s_rqst: 0,
            c2s_msgs: 0,
            s2s_msgs: 0,
            s2c_msgs: 0,
        }
    }

    /// The server's name.
    pub fn get_name(&self) -> (r: String)
        ensures
            r@ == self.name@,
    {
        self.name.clone()
    }

    /// The server's address.
    pub fn get_address(&self) -> (r: String)
        ensures
            r@ == self.address@,
    {
        self.address.clone()
    }

    /// The server's owner.
    pub fn get_owner(&self) -> (r: String)
        ensures
            r@ == self.owner@,
    {
        self.owner.clone()
    }

    /// The number of registered clients.
    pub fn client_count(&self) -> (n: usize)
        ensures
            n == self.clients().len(),
    {
        self.connected_clients.len()
    }

    /// The registered client with this uuid.
    pub fn get_client(&self, uuid: &str) -> (r: Option<&Client>)
        ensures
            match r {
                Some(c) => find_client(self.clients(), uuid@) == Some(c@),
                None => find_client(self.clients(), uuid@) is None,
            },
    {
        self.connected_clients.get(uuid)
    }

    /// The server has bound its listener: it is started.  Its identity,
    /// clients and metrics are unchanged.
    pub fn start(&mut self)
        ensures
            final(self).state == ServerState::started,
            final(self).clients() == old(self).clients(),
            final(self).name == old(self).name,
            final(self).address == old(self).address,
            final(self).owner == old(self).owner,
            final(self).o2s_rqst == old(self).o2s_rqst,
            final(self).c2s_msgs == old(self).c2s_msgs,
            final(self).s2s_msgs == old(self).s2s_msgs,
            final(self).s2c_msgs == old(self).s2c_msgs,
    {
        self.state = ServerState::started;
    }

    /// The server is asked to stop: it is stopping until it handles the
    /// `Shutdown` that the caller also sends itself.  Its identity, clients
    /// and metrics are unchanged.
    pub fn stop(&mut self)
        ensures
            final(self).state == ServerState::stopping,
            final(self).clients() == old(self).clients(),
            final(self).name == old(self).name,
            final(self).address == old(self).address,
            final(self).owner == old(self).owner,
            final(self).o2s_rqst == old(self).o2s_rqst,
            final(self).c2s_msgs == old(self).c2s_msgs,
            final(self).s2s_msgs == old(self).s2s_msgs,
            final(self).s2c_msgs == old(self).s2c_msgs,
    {
        self.state = ServerState::stopping;
    }

    /// The greeting written on every new connection: a `Request` without
    /// parameters.
    pub fn greeting() -> (r: String)
        ensures
            r@ == wire_text((CommandKind::Request, None)),
    {
        Commands::Request(None).to_string()
    }

    /// Handles one message from the server's channel.  `Shutdown` sends
    /// every client a `Disconnect` and completes the stop: the server is
    /// stopped; `RequestInfo`
    /// answers with the details of the requested client; `Disconnect`
    /// unregisters the client.  A registered client of this server has no
    /// text form to answer `RequestUpdate` with, so an update is handled
    /// only while no client is registered (it is then answered with
    /// nothing).
    pub fn handle_message(&mut self, msg: &ServerMessages) -> (r: Vec<ServerAction>)
        requires
            msg is Shutdown ==> old(self).s2s_msgs < usize::MAX,
            !(msg is Shutdown) ==> old(self).c2s_msgs < usize::MAX,
            msg is RequestUpdate ==> old(self).clients().len() == 0,
        ensures
            final(self).name == old(self).name,
            final(self).address == old(self).address,
            final(self).owner == old(self).owner,
            final(self).o2s_rqst == old(self).o2s_rqst,
            final(self).s2c_msgs == old(self).s2c_msgs,
            match msg {
                ServerMessages::Shutdown => {
                    &&& final(self).s2s_msgs == old(self).s2s_msgs + 1
                    &&& final(self).c2s_msgs == old(self).c2s_msgs
                    &&& final(self).state == ServerState::stopped
                    &&& final(self).clients() == old(self).clients()
                    &&& effects(r@) == shutdown_effects(old(self).clients())
                },
                ServerMessages::RequestUpdate => {
                    &&& final(self).c2s_msgs == old(self).c2s_msgs + 1
                    &&& final(self).s2s_msgs == old(self).s2s_msgs
                    &&& final(self).state == old(self).state
                    &&& final(self).clients() == old(self).clients()
                    &&& r@.len() == 0
                },
                ServerMessages::RequestInfo(uuid) => {
                    &&& final(self).c2s_msgs == old(self).c2s_msgs + 1
                    &&& final(self).s2s_msgs == old(self).s2s_msgs
                    &&& final(self).state == old(self).state
                    &&& final(self).clients() == old(self).clients()
                    &&& effects(r@) == seq![Effect::Reply(info_answer(old(self).clients(), uuid@))]
                },
                ServerMessages::Disconnect(uuid) => {
                    &&& final(self).c2s_msgs == old(self).c2s_msgs + 1
                    &&& final(self).s2s_msgs == old(self).s2s_msgs
                    &&& final(self).state == old(self).state
                    &&& final(self).clients() == unregister(old(self).clients(), uuid@)
                    &&& r@.len() == 0
                },
            },
    {
        let mut r: Vec<ServerAction> = Vec::new();
        match msg {
            ServerMessages::Shutdown => {
                self.s2s_msgs = self.s2s_msgs + 1;
                let n = self.connected_clients.len();
                let mut i: usize = 0;
                assert(effects(r@) =~= shutdown_effects(self.clients().subrange(0, 0)));
                while i < n
                    invariant
                        n == self.clients().len(),
                        i <= n,
                        effects(r@) == shutdown_effects(self.clients().subrange(0, i as int)),
                    decreases n - i,
                {
                    let client = self.connected_clients.client_at(i);
                    r.push(ServerAction::Notify(client.get_uuid().clone(), Commands::Disconnect(None)));
                    proof {
                        let sub = self.clients().subrange(0, i + 1);
                        assert(sub.drop_last() =~= self.clients().subrange(0, i as int));
                        assert(effects(r@) =~= shutdown_effects(sub));
                    }
                    i = i + 1;
                }
                assert(self.clients().subrange(0, n as int) =~= self.clients());
                self.state = ServerState::stopped;
            },
            ServerMessages::RequestUpdate => {
                self.c2s_msgs = self.c2s_msgs + 1;
            },
            ServerMessages::RequestInfo(uuid) => {
                self.c2s_msgs = self.c2s_msgs + 1;
                let answer = match self.connected_clients.get(uuid.as_str()) {
                    Some(client) => {
                        let mut params = Params::new();
                        params.insert(String::from_str("uuid"), client.get_uuid().clone());
                        params.insert(String::from_str("name"), client.get_username().clone());
                        params.insert(String::from_str("host"), client.get_address().clone());
                        Commands::Success(Some(params)).to_string()
                    },
                    None => Commands::Success(None).to_string(),
                };
                r.push(ServerAction::Reply(answer));
                assert(effects(r@) =~= seq![Effect::Reply(info_answer(old(self).clients(), uuid@))]);
            },
            ServerMessages::Disconnect(uuid) => {
                self.c2s_msgs = self.c2s_msgs + 1;
                let _ = self.connected_clients.remove(uuid.as_str());
            },
        }
        r
    }

    /// Handles the messages of a tick in order, as `handle_message` does,
    /// and returns what each handled message calls for.  It stops before
    /// the first message it cannot handle (`handleable`), so the messages
    /// handled are the first `r.len()`.  Over the tick the `Shutdown`s
    /// count into `s2s_msgs`, the other messages into `c2s_msgs`, and no
    /// counter decreases.
    pub fn handle_messages(&mut self, msgs: &Vec<ServerMessages>) -> (r: Vec<Vec<ServerAction>>)
        ensures
            r@.len() <= msgs@.len(),
            r@.len() < msgs@.len() ==> !handleable(
                final(self).s2s_msgs,
                final(self).c2s_msgs,
                final(self).clients(),
                msgs@[r@.len() as int],
            ),
            r@.len() < msgs@.len() ==> match msgs@[r@.len() as int] {
                ServerMessages::Shutdown => final(self).s2s_msgs == usize::MAX,
                ServerMessages::RequestUpdate => final(self).c2s_msgs == usize::MAX
                    || final(self).clients().len() > 0,
                _ => final(self).c2s_msgs == usize::MAX,
            },
            final(self).name == old(self).name,
            final(self).address == old(self).address,
            final(self).owner == old(self).owner,
            final(self).o2s_rqst == old(self).o2s_rqst,
            final(self).s2c_msgs == old(self).s2c_msgs,
            final(self).s2s_msgs == old(self).s2s_msgs + shutdown_count(msgs@.take(r@.len() as int)),
            final(self).c2s_msgs == old(self).c2s_msgs + client_message_count(
                msgs@.take(r@.len() as int),
            ),
            old(self).s2s_msgs <= final(self).s2s_msgs,
            old(self).c2s_msgs <= final(self).c2s_msgs,
            final(self).state == state_after(old(self).state, msgs@.take(r@.len() as int)),
            final(self).clients() == clients_after(old(self).clients(), msgs@.take(r@.len() as int)),
            forall|i: int|
                0 <= i < r@.len() ==> effects(#[trigger] r@[i]@) == message_effects(
                    clients_after(old(self).clients(), msgs@.take(i)),
                    msgs@[i],
                ),
    {
        let ghost cs0 = self.clients();
        let ghost st0 = self.state;
        let ghost s2s0 = self.s2s_msgs;
        let ghost c2s0 = self.c2s_msgs;
        let mut r: Vec<Vec<ServerAction>> = Vec::new();
        let n = msgs.len();
        let mut i: usize = 0;
        let mut blocked = false;
        assert(msgs@.take(0) =~= Seq::<ServerMessages>::empty());
        while i < n && !blocked
            invariant
                n == msgs@.len(),
                i <= n,
                r@.len() == i,
                blocked ==> i < n && !handleable(
                    self.s2s_msgs,
                    self.c2s_msgs,
                    self.clients(),
                    msgs@[i as int],
                ),
                self.name == old(self).name,
                self.address == old(self).address,
                self.owner == old(self).owner,
                self.o2s_rqst == old(self).o2s_rqst,
                self.s2c_msgs == old(self).s2c_msgs,
                cs0 == old(self).clients(),
                st0 == old(self).state,
                s2s0 == old(self).s2s_msgs,
                c2s0 == old(self).c2s_msgs,
                self.s2s_msgs == s2s0 + shutdown_count(msgs@.take(i as int)),
                self.c2s_msgs == c2s0 + client_message_count(msgs@.take(i as int)),
                self.state == state_after(st0, msgs@.take(i as int)),
                self.clients() == clients_after(cs0, msgs@.take(i as int)),
                forall|j: int|
                    0 <= j < i ==> effects(#[trigger] r@[j]@) == message_effects(
                        clients_after(cs0, msgs@.take(j)),
                        msgs@[j],
                    ),
            decreases n - i + if blocked {
                0int
            } else {
                1int
            },
        {
            let m = &msgs[i];
            let ok = match m {
                ServerMessages::Shutdown => self.s2s_msgs < usize::MAX,
                ServerMessages::RequestUpdate => self.c2s_msgs < usize::MAX
                    && self.connected_clients.len() == 0,
                _ => self.c2s_msgs < usize::MAX,
            };
            if ok {
                let ghost before = self.clients();
                let actions = self.handle_message(m);
                proof {
                    lemma_prefix_step(msgs@, i as int);
                }
                let ghost prev = r@;
                r.push(actions);
                proof {
                    assert forall|j: int| 0 <= j < i + 1 implies effects(#[trigger] r@[j]@)
                        == message_effects(clients_after(cs0, msgs@.take(j)), msgs@[j]) by {
                        if j < i {
                            assert(r@[j] == prev[j]);
                        }
                    }
                }
                i = i + 1;
            } else {
                blocked = true;
            }
        }
        r
    }

    /// Handles the command a new connection sent after the greeting, or
    /// the failed read of it (`None`).  A complete `Connect` registers the
    /// client; an `Info` without parameters is answered with the server's
    /// name and owner; anything else that was read is answered with a bare
    /// `Error`.  A `Connect` with parameters must carry the uuid, name and
    /// host.
    pub fn handle_connection_request(&mut self, command: Option<&Commands>) -> (r: Vec<
        ServerAction,
    >)
        requires
            old(self).o2s_rqst < usize::MAX,
            command matches Some(c) ==> (c@.0 == CommandKind::Connect && c@.1 is Some
                ==> is_complete_connect(c@)),
        ensures
            final(self).name == old(self).name,
            final(self).address == old(self).address,
            final(self).owner == old(self).owner,
            final(self).state == old(self).state,
            final(self).c2s_msgs == old(self).c2s_msgs,
            final(self).s2s_msgs == old(self).s2s_msgs,
            final(self).s2c_msgs == old(self).s2c_msgs,
            match command {
                None => {
                    &&& final(self).o2s_rqst == old(self).o2s_rqst
                    &&& final(self).clients() == old(self).clients()
                    &&& r@.len() == 0
                },
                Some(c) => if is_complete_connect(c@) {
                    &&& final(self).o2s_rqst == old(self).o2s_rqst + 1
                    &&& final(self).clients() == register(old(self).clients(), connecting_client(c@))
                    &&& r@.len() == 0
                } else if c@ == (CommandKind::Info, None::<ParamsView>) {
                    &&& final(self).o2s_rqst == old(self).o2s_rqst + 1
                    &&& final(self).clients() == old(self).clients()
                    &&& effects(r@) == seq![
                        Effect::Reply(
                            wire_text(
                                (
                                    CommandKind::Info,
                                    Some(server_params(old(self).name@, old(self).owner@)),
                                ),
                            ),
                        ),
                    ]
                } else {
                    &&& final(self).o2s_rqst == old(self).o2s_rqst
                    &&& final(self).clients() == old(self).clients()
                    &&& effects(r@) == seq![Effect::Reply(wire_text((CommandKind::Error, None)))]
                },
            },
    {
        let mut r: Vec<ServerAction> = Vec::new();
        match command {
            None => {},
            Some(Commands::Connect(Some(data))) => {
                self.o2s_rqst = self.o2s_rqst + 1;
                let uuid = data.get("uuid").unwrap();
                let username = data.get("name").unwrap();
                let address = data.get("host").unwrap();
                let client = Client {
                    uuid: uuid.clone(),
                    username: username.clone(),
                    address: address.clone(),
                };
                self.connected_clients.insert(client);
            },
            Some(Commands::Info(None)) => {
                self.o2s_rqst = self.o2s_rqst + 1;
                let mut params = Params::new();
                params.insert(String::from_str("name"), self.name.clone());
                params.insert(String::from_str("owner"), self.owner.clone());
                r.push(ServerAction::Reply(Commands::Info(Some(params)).to_string()));
                assert(effects(r@) =~= seq![
                    Effect::Reply(
                        wire_text(
                            (
                                CommandKind::Info,
                                Some(server_params(old(self).name@, old(self).owner@)),
                            ),
                        ),
                    ),
                ]);
            },
            Some(_) => {
                r.push(ServerAction::Reply(Commands::Error(None).to_string()));
                assert(effects(r@) =~= seq![Effect::Reply(wire_text((CommandKind::Error, None)))]);
            },
        }
        r
    }
}

} // verus!
