//! Error values, one enum per part of the system, and one that holds any
//! of them.
use vstd::prelude::*;
use self::client::ClientError;
use self::db::DbError;
use self::declaration::DeclarationError;
use self::processor::ProcessorError;
use self::representative::RepresentativeError;

pub mod client;
pub mod db;
pub mod declaration;
pub mod processor;
pub mod representative;

verus! {

/// Any error of the system, for operations that cross its parts.
#[derive(Debug)]
pub enum AnyError {
    Declaration(DeclarationError),
    Processor(ProcessorError),
    Client(ClientError),
    Representative(RepresentativeError),
    Db(DbError),
}

} // verus!
