//! Request framing, reply decoding and the supported operations.

pub mod client;
pub mod json;
pub mod laws;
pub mod transport;
pub mod types;
