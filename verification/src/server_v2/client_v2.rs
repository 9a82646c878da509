//! A client of the second server design: its identity.  Its connection,
//! channel and server reference are kept by the application.
use vstd::prelude::*;

verus! {

/// A client of the second server design.
#[derive(Debug)]
pub struct ClientV2 {
    pub uuid: String,
    pub username: String,
    pub address: String,
}

impl ClientV2 {
    /// A client with this uuid, username and address.
    pub fn new(uuid: &String, username: &String, address: &String) -> (r: ClientV2)
        ensures
            r.uuid@ == uuid@,
            r.username@ == username@,
            r.address@ == address@,
    {
        ClientV2 { uuid: uuid.clone(), username: username.clone(), address: address.clone() }
    }
}

} // verus!
