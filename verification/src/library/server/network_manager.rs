//! The network side of the component-based server: the address it listens
//! on.  The listener itself, and the (still empty) set of network messages,
//! are kept by the application.
use vstd::prelude::*;

verus! {

/// The address the network manager listens on for `port`: all interfaces.
pub fn listen_address(port: &String) -> (r: String)
    ensures
        r@ == "0.0.0.0:"@ + port@,
{
    let mut address = String::from_str("0.0.0.0:");
    address.append(port.as_str());
    address
}

} // verus!
