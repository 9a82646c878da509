//! The commands a client sends, the commands the server relays, and what
//! the server does for each: the decisions are here, the socket work is
//! done by whoever carries out the returned actions.
pub mod client_update;
pub mod connect;
pub mod disconnect;
pub mod info;

use vstd::prelude::*;
use crate::client_management::client_profile::{
    ClientRegistry, ClientView, find_client, lemma_register, lemma_unregister, register, unregister,
    uuids_distinct,
};
use crate::server::commands::client_info::{client_data_text, client_data};
use self::client_update::{client_line, format_client_data};
use self::info::get_server_info;

verus! {

/// The commands a client may send.
#[derive(PartialEq, Eq, Structural, Clone, Copy, Debug)]
pub enum Commands {
    Info,
    Connect,
    Disconnect,
    ClientUpdate,
    ClientInfo,
    Unknown,
}

/// The commands the server relays to other clients.
#[derive(PartialEq, Eq, Structural, Clone, Copy, Debug)]
pub enum OutboundCommands {
    Client,
    ClientRemove,
    Unknown,
}

/// What the server expects back from a client after sending it something.
#[derive(PartialEq, Eq, Structural, Clone, Copy, Debug)]
pub enum InboundReturns {
    Success,
    Error,
}

/// What the server answers a client.
#[derive(PartialEq, Eq, Structural, Clone, Copy, Debug)]
pub enum OutboundReturns {
    Success,
    Error,
}

/// One piece of socket work, as the contracts see it.
pub enum Step {
    /// Write the text to the client's stream.
    Transmit(Seq<char>),
    /// Append the text to the queue of messages for the other clients.
    Queue(Seq<char>),
    /// Read the client's answer, writing the text again while the read
    /// would block.
    AwaitSuccess(Seq<char>),
}

/// One piece of socket work.
#[derive(Debug)]
pub enum Action {
    Transmit(String),
    Queue(String),
    AwaitSuccess(String),
}

impl View for Action {
    type V = Step;

    open spec fn view(&self) -> Step {
        match self {
            Action::Transmit(s) => Step::Transmit(s@),
            Action::Queue(s) => Step::Queue(s@),
            Action::AwaitSuccess(s) => Step::AwaitSuccess(s@),
        }
    }
}

/// The views of a list of actions.
pub open spec fn steps(v: Seq<Action>) -> Seq<Step> {
    v.map_values(|a: Action| a@)
}

/// `!success:`, followed by a space and `data` when `data` is not empty.
pub open spec fn success_text(data: Seq<char>) -> Seq<char> {
    if data.len() == 0 {
        "!success:"@
    } else {
        "!success:"@ + " "@ + data
    }
}

/// The steps that send every registered client's line, each awaiting the
/// client's success answer.
pub open spec fn update_steps(cs: Seq<ClientView>) -> Seq<Step>
    decreases cs.len(),
{
    if cs.len() == 0 {
        Seq::empty()
    } else {
        update_steps(cs.drop_last()) + seq![
            Step::Transmit(client_line(cs.last().0, cs.last().1, cs.last().2)),
            Step::AwaitSuccess(client_line(cs.last().0, cs.last().1, cs.last().2)),
        ]
    }
}

/// The message relayed to the other clients when a client connects.
pub open spec fn connect_notice(username: Seq<char>, uuid: Seq<char>, address: Seq<char>) -> Seq<
    char,
> {
    "!client: "@ + uuid + " address:"@ + address + " "@ + username
}

/// The message relayed to the other clients when a client disconnects.
pub open spec fn disconnect_notice(uuid: Seq<char>) -> Seq<char> {
    "!clientRemove: "@ + uuid
}

/// The fields a command needs: the connect fields are `[_, username, uuid]`,
/// the disconnect and client-info fields `[_, uuid]`.
pub open spec fn has_fields(c: Commands, data: Seq<Seq<char>>) -> bool {
    match c {
        Commands::Connect => data.len() >= 3,
        Commands::Disconnect => data.len() >= 2,
        Commands::ClientInfo => data.len() >= 2,
        _ => true,
    }
}

/// The registry after a client command.
pub open spec fn registry_after(
    c: Commands,
    data: Seq<Seq<char>>,
    address: Seq<char>,
    cs: Seq<ClientView>,
) -> Seq<ClientView> {
    match c {
        Commands::Connect => register(cs, (data[2], data[1], address)),
        Commands::Disconnect => unregister(cs, data[1]),
        _ => cs,
    }
}

/// The socket work for a client command, given the registry before it.
pub open spec fn command_steps(
    c: Commands,
    data: Seq<Seq<char>>,
    address: Seq<char>,
    cs: Seq<ClientView>,
) -> Seq<Step> {
    match c {
        Commands::Info => seq![Step::Transmit(success_text("Server-01"@ + " "@ + "mickyb18"@))],
        Commands::Connect => seq![
            Step::Queue(connect_notice(data[1], data[2], address)),
            Step::Transmit("!success:"@),
        ],
        Commands::Disconnect => seq![
            Step::Queue(disconnect_notice(data[1])),
            Step::Transmit("!success:"@),
        ],
        Commands::ClientUpdate => update_steps(cs) + seq![
            Step::Transmit("!success:"@),
            Step::AwaitSuccess("!success:"@),
        ],
        Commands::ClientInfo => seq![Step::Transmit(client_data_text(cs, data[1]))],
        Commands::Unknown => Seq::empty(),
    }
}

/// A `Connect` registers the client whose uuid and username its fields
/// give, at the connection's address; a `Disconnect` leaves no client with
/// the uuid its field gives; the other commands leave the registry as it is.
pub proof fn law_connect_registers_and_disconnect_removes(
    c: Commands,
    data: Seq<Seq<char>>,
    address: Seq<char>,
    cs: Seq<ClientView>,
)
    requires
        uuids_distinct(cs),
        has_fields(c, data),
    ensures
        c == Commands::Connect ==> find_client(registry_after(c, data, address, cs), data[2])
            == Some((data[2], data[1], address)),
        c == Commands::Disconnect ==> find_client(registry_after(c, data, address, cs), data[1]) is None,
        c != Commands::Connect && c != Commands::Disconnect ==> registry_after(c, data, address, cs)
            == cs,
{
    if c == Commands::Connect {
        lemma_register(cs, (data[2], data[1], address));
    }
    if c == Commands::Disconnect {
        lemma_unregister(cs, data[1]);
    }
}

/// The socket work for relaying a command to a client.
pub open spec fn outbound_steps(c: OutboundCommands, data: Seq<char>) -> Seq<Step> {
    match c {
        OutboundCommands::Unknown => Seq::empty(),
        _ => seq![Step::Transmit(data), Step::AwaitSuccess(data)],
    }
}

/// How a read of the client's answer ended.
#[derive(PartialEq, Eq, Structural, Clone, Copy, Debug)]
pub enum ReadOutcome {
    /// Some bytes were read.
    Received,
    /// The read timed out (`WouldBlock`).
    WouldBlock,
    /// The read failed otherwise.
    Failed,
}

/// What to do after a read of the client's answer.
#[derive(PartialEq, Eq, Structural, Clone, Copy, Debug)]
pub enum ReadStep {
    /// The answer arrived.
    Done,
    /// Write the text again and read once more.
    Retransmit,
    /// Give up: the connection failed.
    Fail,
}

/// `!success:`, followed by a space and `data` when `data` is not empty.
pub fn success_message(data: &String) -> (r: String)
    ensures
        r@ == success_text(data@),
{
    let mut message = String::from_str("!success:");
    if data.unicode_len() != 0 {
        message.append(" ");
        message.append(data.as_str());
    }
    message
}

impl OutboundReturns {
    /// The answer to send, if any: a success carries `data`, an error sends
    /// nothing.
    pub fn execute(&self, data: &String) -> (r: Option<String>)
        ensures
            match self {
                OutboundReturns::Success => r matches Some(m) && m@ == success_text(data@),
                OutboundReturns::Error => r is None,
            },
    {
        match self {
            OutboundReturns::Success => Some(success_message(data)),
            OutboundReturns::Error => None,
        }
    }
}

impl InboundReturns {
    /// The decision after reading a client's answer: awaiting a success,
    /// a received answer ends the wait, a timed-out read asks for the data to
    /// be written again, and any other failure ends the connection; awaiting
    /// an error, nothing is awaited.
    pub fn execute(&self, outcome: ReadOutcome) -> (r: ReadStep)
        ensures
            r == match self {
                InboundReturns::Success => match outcome {
                    ReadOutcome::Received => ReadStep::Done,
                    ReadOutcome::WouldBlock => ReadStep::Retransmit,
                    ReadOutcome::Failed => ReadStep::Fail,
                },
                InboundReturns::Error => ReadStep::Done,
            },
    {
        match self {
            InboundReturns::Success => match outcome {
                ReadOutcome::Received => ReadStep::Done,
                ReadOutcome::WouldBlock => ReadStep::Retransmit,
                ReadOutcome::Failed => ReadStep::Fail,
            },
            InboundReturns::Error => ReadStep::Done,
        }
    }
}

impl OutboundCommands {
    /// The socket work for relaying `data` to a client: write it and await
    /// the client's success; nothing for an unknown command.
    pub fn execute(&self, data: &String) -> (r: Vec<Action>)
        ensures
            steps(r@) == outbound_steps(*self, data@),
    {
        let mut r: Vec<Action> = Vec::new();
        match self {
            OutboundCommands::Unknown => {},
            _ => {
                r.push(Action::Transmit(data.clone()));
                r.push(Action::AwaitSuccess(data.clone()));
            },
        }
        assert(steps(r@) =~= outbound_steps(*self, data@));
        r
    }
}

impl Commands {
    /// Executes a client command against the registry and returns the
    /// socket work it calls for.  `data` holds the fields of the message and
    /// `address` the client's address.
    pub fn execute(&self, data: &Vec<String>, address: &String, clients: &mut ClientRegistry) -> (r:
        Vec<Action>)
        requires
            has_fields(*self, data@.map_values(|s: String| s@)),
        ensures
            final(clients)@ == registry_after(
                *self,
                data@.map_values(|s: String| s@),
                address@,
                old(clients)@,
            ),
            steps(r@) == command_steps(
                *self,
                data@.map_values(|s: String| s@),
                address@,
                old(clients)@,
            ),
    {
        let ghost fields = data@.map_values(|s: String| s@);
        let mut r: Vec<Action> = Vec::new();
        match self {
            Commands::Info => {
                let server_details = get_server_info();
                r.push(Action::Transmit(success_message(&server_details)));
            },
            Commands::Connect => {
                assert(fields[1] == data@[1]@ && fields[2] == data@[2]@);
                connect::add_client(clients, &data[1], &data[2], address);
                let mut message = String::from_str("!client: ");
                message.append(data[2].as_str());
                message.append(" address:");
                message.append(address.as_str());
                message.append(" ");
                message.append(data[1].as_str());
                r.push(Action::Queue(message));
                r.push(Action::Transmit(String::from_str("!success:")));
            },
            Commands::Disconnect => {
                assert(fields[1] == data@[1]@);
                disconnect::remove_client(clients, &data[1]);
                let mut message = String::from_str("!clientRemove: ");
                message.append(data[1].as_str());
                r.push(Action::Queue(message));
                r.push(Action::Transmit(String::from_str("!success:")));
            },
            Commands::ClientUpdate => {
                r = update_actions(clients);
                r.push(Action::Transmit(String::from_str("!success:")));
                r.push(Action::AwaitSuccess(String::from_str("!success:")));
            },
            Commands::ClientInfo => {
                assert(fields[1] == data@[1]@);
                r.push(Action::Transmit(client_data(clients, data[1].as_str())));
            },
            Commands::Unknown => {},
        }
        assert(steps(r@) =~= command_steps(*self, fields, address@, old(clients)@));
        r
    }
}

/// Sends every registered client's line, awaiting each client's success.
fn update_actions(clients: &ClientRegistry) -> (r: Vec<Action>)
    ensures
        steps(r@) == update_steps(clients@),
{
    let mut r: Vec<Action> = Vec::new();
    let n = clients.len();
    let mut i: usize = 0;
    assert(steps(r@) =~= update_steps(clients@.subrange(0, 0)));
    while i < n
        invariant
            n == clients@.len(),
            i <= n,
            steps(r@) == update_steps(clients@.subrange(0, i as int)),
        decreases n - i,
    {
        let client = clients.client_at(i);
        let line = format_client_data(client.get_uuid(), client);
        r.push(Action::Transmit(line.clone()));
        r.push(Action::AwaitSuccess(line));
        proof {
            let sub = clients@.subrange(0, i + 1);
            assert(sub.drop_last() =~= clients@.subrange(0, i as int));
            assert(steps(r@) =~= update_steps(sub));
        }
        i = i + 1;
    }
    assert(clients@.subrange(0, n as int) =~= clients@);
    r
}

} // verus!
