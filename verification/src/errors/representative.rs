use vstd::prelude::*;

verus! {

/// What can go wrong on a representative's side.
#[derive(Debug)]
pub enum RepresentativeError {
    /// No service request with this identifier was received.
    ServiceNotFound(u128),
    /// No client with this identifier is known.
    ClientNotFound(u128),
    /// The client with this identifier could not be obtained for a change.
    ClientWriteLocked(u128),
}

} // verus!
