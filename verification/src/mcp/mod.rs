//! The Model Context Protocol client: message framing, request numbering
//! and the decisions taken while waiting for a reply.

pub mod protocol;
pub mod transport;
