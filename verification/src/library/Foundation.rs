//! The roles that components of the server library take on: receiving
//! messages and sharing time.  (The ownership roles, whose methods pass
//! `std::sync::Weak` references, are declared by the application.)
use vstd::prelude::*;

verus! {

/// A component that receives messages of type `M`.
pub trait IMessagable<M> {
    fn send_message(&self, msg: M);
}

/// A component that does a share of work each time it is ticked.
pub trait ICooperative {
    fn tick(&self);
}

} // verus!
