use vstd::prelude::*;

verus! {

/// What can go wrong in a store of records.
#[derive(Debug)]
pub enum DbError {
    /// No record with this identifier is in the table.
    SelectNotFound { id: u128, table: String },
    /// There is no table of this name.
    TableNotFound(String),
    /// No record with this identifier was there to delete.
    DeleteNotFound { table: String, id: u128 },
}

} // verus!
