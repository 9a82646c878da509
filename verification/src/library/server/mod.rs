//! The component-based server: the messages its components send it and
//! what it does with them.
pub mod client_management;
pub mod network_manager;

use vstd::prelude::*;
use self::client_management::{ClientManager, records, sorted_by_uuid, with_uuid};
use self::client_management::client::{Client, ClientRecord};
use self::client_management::traits::TClientManager;

verus! {

/// The messages the server's components send it.
#[derive(Debug)]
pub enum ServerMessages {
    ClientConnected(Client),
    ClientDisconnected(u128),
}

/// The component-based server: its client manager.  Its network manager
/// and channel are kept by the application.
#[derive(Debug)]
pub struct Server {
    pub client_manager: ClientManager,
}

impl Server {
    /// A server with no client.
    pub fn new() -> (r: Server)
        ensures
            records(r.client_manager.clients@) == Seq::<ClientRecord>::empty(),
    {
        Server { client_manager: ClientManager::new() }
    }

    /// Handles one message: a connected client is only reported (the caller
    /// logs it) and leaves the client manager as it is; a disconnected one
    /// is passed to the manager's removal, which sorts the clients by uuid,
    /// stably, and keeps them all.
    pub fn handle_message(&mut self, message: ServerMessages)
        ensures
            match message {
                ServerMessages::ClientConnected(_) => final(self).client_manager.clients@
                    == old(self).client_manager.clients@,
                ServerMessages::ClientDisconnected(_) => {
                    &&& sorted_by_uuid(records(final(self).client_manager.clients@))
                    &&& forall|u: u128| #[trigger] with_uuid(
                        records(final(self).client_manager.clients@),
                        u,
                    ) == with_uuid(records(old(self).client_manager.clients@), u)
                    &&& records(final(self).client_manager.clients@).to_multiset() == records(
                        old(self).client_manager.clients@,
                    ).to_multiset()
                },
            },
    {
        match message {
            ServerMessages::ClientConnected(_) => {},
            ServerMessages::ClientDisconnected(uuid) => {
                self.client_manager.remove_client(uuid);
            },
        }
    }
}

} // verus!
