//! The written form of what the system keeps, and what a store's answer
//! means.
use vstd::prelude::*;
use crate::errors::db::DbError;
use crate::utils::HasId;

pub mod surreal_structs;

verus! {

/// Whether an error says that no record was found under `id` in `table`.
pub open spec fn is_select_not_found(e: DbError, id: u128, table: Seq<char>) -> bool {
    e matches DbError::SelectNotFound { id: i, table: t } && i == id && t@ == table
}

/// What a store's answer to a lookup under `id` in `table` means: the entry
/// that was found, with `id` set as its identifier and nothing else
/// changed, or the error that says none was found.
pub fn selected<T: HasId>(found: Option<T>, table: &str, id: u128) -> (r: Result<T, DbError>)
    ensures
        match r {
            Ok(entry) => found is Some && entry.spec_id() == id && entry.same_but_id(&found->0),
            Err(e) => found is None && is_select_not_found(e, id, table@),
        },
{
    match found {
        Some(entry) => {
            let mut entry = entry;
            *entry.id() = id;
            Ok(entry)
        },
        None => Err(DbError::SelectNotFound { id, table: table.to_owned() }),
    }
}

/// What a store's answer to a deletion under `id` in `table` means: the
/// entry that was deleted, as it was, or the error that says none was
/// found.
pub fn deleted<T>(found: Option<T>, table: &str, id: u128) -> (r: Result<T, DbError>)
    ensures
        match r {
            Ok(entry) => found == Some(entry),
            Err(e) => found is None && is_select_not_found(e, id, table@),
        },
{
    match found {
        Some(entry) => Ok(entry),
        None => Err(DbError::SelectNotFound { id, table: table.to_owned() }),
    }
}

} // verus!
