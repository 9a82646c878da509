//! Registering a connected client.
use vstd::prelude::*;
use crate::client_management::client_profile::{Client, ClientRegistry, register};

verus! {

/// Registers a copy of `client` under its uuid.
pub fn add_client(clients: &mut ClientRegistry, client: &Client)
    ensures
        final(clients)@ == register(old(clients)@, client@),
{
    clients.insert(client.clone());
}

} // verus!
