use vstd::prelude::*;

verus! {

/// What can go wrong on a client's side.
#[derive(Debug)]
pub enum ClientError {
    /// The client already holds a billing with this identifier.
    BillingExists(u128),
}

} // verus!
