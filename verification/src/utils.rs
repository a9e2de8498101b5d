//! Error taxonomy and the append-only event sink.

pub mod errors;
pub mod events;
