//! The line that describes one registered client.
use vstd::prelude::*;
use crate::client_management::client_profile::Client;

verus! {

/// `!client: name:"<username>" uuid:<uuid> host:"<address>"`.
pub open spec fn client_line(uuid: Seq<char>, username: Seq<char>, address: Seq<char>) -> Seq<
    char,
> {
    "!client: name:\""@ + username + "\" uuid:"@ + uuid + " host:\""@ + address + "\""@
}

/// The line that describes `client`, registered under `uuid`.
pub fn format_client_data(uuid: &String, client: &Client) -> (r: String)
    ensures
        r@ == client_line(uuid@, client@.1, client@.2),
{
    let mut out = String::from_str("!client: name:\"");
    out.append(client.get_username().as_str());
    out.append("\" uuid:");
    out.append(uuid.as_str());
    out.append(" host:\"");
    out.append(client.get_address().as_str());
    out.append("\"");
    out
}

} // verus!
