pub mod customs;
pub mod declaration;
pub mod misc;
pub mod participants;
pub mod processor;
