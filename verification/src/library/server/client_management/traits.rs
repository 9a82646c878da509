//! What a manager of clients offers.
use vstd::prelude::*;
use crate::library::server::client_management::client::ClientMessage;

verus! {

/// A manager of connected clients, identified by their 128-bit uuid.
pub trait TClientManager<TClient, TClientMessage> {
    fn add_client(&mut self, client: TClient);

    fn remove_client(&mut self, uuid: u128);

    fn send_message_to_client(&self, uuid: u128, msg: ClientMessage);
}

} // verus!
