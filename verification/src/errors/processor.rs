use vstd::prelude::*;

verus! {

/// What can go wrong while routing.
#[derive(Debug)]
pub enum ProcessorError {
    /// The office with this identifier could not be obtained for a change.
    CannotBorrowCustoms(u128),
    /// No office is connected, so there is none to send anything to.
    NoCustomsConnected,
}

} // verus!
