//! Customs declarations, their lifecycle, and the offices that process them.
pub mod ambient;
pub mod errors;
pub mod models;
pub mod repository;
pub mod utils;
