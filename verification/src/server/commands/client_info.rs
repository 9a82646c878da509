//! Answering a request for one client's details.
use vstd::prelude::*;
use crate::client_management::client_profile::{ClientRegistry, ClientView, find_client};
use crate::params::{Params, lookup};

verus! {

/// The answer about the client with uuid `uuid`: its details, or
/// `client not online`.
pub open spec fn client_data_text(cs: Seq<ClientView>, uuid: Seq<char>) -> Seq<char> {
    match find_client(cs, uuid) {
        Some(c) => "!success:"@ + " uuid:"@ + c.0 + " host:"@ + c.2 + " username:"@ + c.1,
        None => "client not online"@,
    }
}

/// The answer about the client registered under `uuid`.
pub fn client_data(clients: &ClientRegistry, uuid: &str) -> (r: String)
    ensures
        r@ == client_data_text(clients@, uuid@),
{
    match clients.get(uuid) {
        Some(data) => {
            let mut message = String::from_str("!success:");
            message.append(" uuid:");
            message.append(data.get_uuid().as_str());
            message.append(" host:");
            message.append(data.get_address().as_str());
            message.append(" username:");
            message.append(data.get_username().as_str());
            message
        },
        None => String::from_str("client not online"),
    }
}

/// The answer about the client whose uuid the request parameters name
/// (they must name one).
pub fn get_client_data(clients: &ClientRegistry, data: &Params) -> (r: String)
    requires
        lookup(data@, "uuid"@) is Some,
    ensures
        r@ == client_data_text(clients@, lookup(data@, "uuid"@)->0),
{
    let uuid = data.get("uuid").unwrap();
    client_data(clients, uuid.as_str())
}

} // verus!
