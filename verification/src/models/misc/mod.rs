pub mod location;
pub mod timestamp;
