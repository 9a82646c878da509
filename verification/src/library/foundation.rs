//! The roles of the component-based server: receiving messages and sharing
//! time.
use vstd::prelude::*;

verus! {

/// A component that receives messages of type `M`.
pub trait IMessagable<M> {
    fn send_message(&self, msg: M);
}

/// A component that does a share of work each time it is ticked.
pub trait ICooperative {
    fn tick(&self);
}

} // verus!
