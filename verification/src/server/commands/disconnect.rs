//! Unregistering a disconnected client.
use vstd::prelude::*;
use crate::client_management::client_profile::{Client, ClientRegistry, has_uuid, unregister};

verus! {

/// Removes `client`, which must be registered, from the registry.
pub fn remove_client(clients: &mut ClientRegistry, client: &Client)
    requires
        has_uuid(old(clients)@, client@.0),
    ensures
        final(clients)@ == unregister(old(clients)@, client@.0),
{
    let _ = clients.remove(client.get_uuid().as_str());
}

} // verus!
