//! What a client reads off a reply.

pub mod handler;
