//! The updates the server's view controller is told about; the view itself
//! is drawn by the application.
use vstd::prelude::*;

verus! {

/// An update to show in the server's view.
#[derive(PartialEq, Eq, Structural, Clone, Copy, Debug)]
pub enum UpdateTypes {
    AddClient(),
}

} // verus!
