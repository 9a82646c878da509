//! Registering a client that connects.
use vstd::prelude::*;
use crate::client_management::client_profile::{Client, ClientRegistry, register};

verus! {

/// Registers the client `username` with `uuid` and `address` under its uuid.
pub fn add_client(clients: &mut ClientRegistry, username: &String, uuid: &String, address: &String)
    ensures
        final(clients)@ == register(old(clients)@, (uuid@, username@, address@)),
{
    let client = create_client_profile(username, uuid, address);
    clients.insert(client);
}

/// The profile of a client.
fn create_client_profile(username: &String, uuid: &String, address: &String) -> (r: Client)
    ensures
        r@ == (uuid@, username@, address@),
{
    Client { uuid: uuid.clone(), username: username.clone(), address: address.clone() }
}

} // verus!
