use vstd::prelude::*;

verus! {

/// What can go wrong with a declaration.
#[derive(Debug)]
pub enum DeclarationError {
    /// No declaration with this identifier is held where it was looked for.
    DeclarationNotFound(u128),
    /// A field of the declaration with this identifier holds a value that
    /// cannot be accepted.
    InvalidField { id: u128, field: String, value: String },
    /// The declaration has an empty text field or a zero number.
    DeclarationNotComplete(u128),
    /// The declaration is in another state than the operation needs; the
    /// text names the state found.
    IncorrectState(u128, String),
}

} // verus!
