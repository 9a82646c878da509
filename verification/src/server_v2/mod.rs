//! The second server design: its commands, its clients and the registry of
//! connected clients.
pub mod client_v2;
pub mod commands_v2;

use vstd::prelude::*;
use crate::client_management::client_profile::{Client, ClientRegistry, ClientView, has_uuid, register};
use self::client_v2::ClientV2;

verus! {

/// The second server design's identity and registered clients; its
/// channel, thread pool and running clients are kept by the application.
#[derive(Debug)]
pub struct Serverv2 {
    pub name: String,
    pub host: String,
    pub owner: String,
    pub connected_clients: ClientRegistry,
}

impl Serverv2 {
    /// A server with no client.
    pub fn new(name: String, host: String, owner: String) -> (r: Serverv2)
        ensures
            r.name@ == name@,
            r.host@ == host@,
            r.owner@ == owner@,
            r.connected_clients@ == Seq::<ClientView>::empty(),
    {
        Serverv2 { name, host, owner, connected_clients: ClientRegistry::new() }
    }

    /// Registers a client under its uuid; a uuid that is already
    /// registered is refused with `!exists:` and changes nothing.
    pub fn add_client(&mut self, client: &ClientV2) -> (r: Result<(), &'static str>)
        ensures
            has_uuid(old(self).connected_clients@, client.uuid@) ==> {
                &&& r matches Err(e) && e@ == "!exists:"@
                &&& final(self).connected_clients@ == old(self).connected_clients@
            },
            !has_uuid(old(self).connected_clients@, client.uuid@) ==> {
                &&& r is Ok
                &&& final(self).connected_clients@ == register(
                    old(self).connected_clients@,
                    (client.uuid@, client.username@, client.address@),
                )
            },
            final(self).name == old(self).name,
            final(self).host == old(self).host,
            final(self).owner == old(self).owner,
    {
        if self.connected_clients.contains_key(client.uuid.as_str()) {
            return Err("!exists:");
        }
        self.connected_clients.insert(
            Client {
                uuid: client.uuid.clone(),
                username: client.username.clone(),
                address: client.address.clone(),
            },
        );
        Ok(())
    }
}

} // verus!
