//! The server's self-description.
use vstd::prelude::*;

verus! {

/// The server details sent in answer to `!info:`: its name and its owner.
pub fn get_server_info() -> (r: String)
    ensures
        r@ == "Server-01"@ + " "@ + "mickyb18"@,
{
    let mut server_details = String::new();
    let server_name = String::from_str("Server-01");
    let server_owner = String::from_str("mickyb18");
    server_details.append(server_name.as_str());
    server_details.append(" ");
    server_details.append(server_owner.as_str());
    assert(Seq::<char>::empty() + "Server-01"@ =~= "Server-01"@);
    server_details
}

} // verus!
