//! A time-synchronisation exchange in the style of NTP: the 48-byte packet
//! and its codec, the client's one-shot request, and the server's reply.

pub mod client;
pub mod clock;
pub mod error;
pub mod packet;
pub mod response;
pub mod server;
