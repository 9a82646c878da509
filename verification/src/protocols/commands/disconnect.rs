//! Unregistering a client that disconnects.
use vstd::prelude::*;
use crate::client_management::client_profile::{ClientRegistry, unregister};

verus! {

/// Removes the client registered under `uuid`, if any.
pub fn remove_client(clients: &mut ClientRegistry, uuid: &String)
    ensures
        final(clients)@ == unregister(old(clients)@, uuid@),
{
    let _ = clients.remove(uuid.as_str());
}

} // verus!
