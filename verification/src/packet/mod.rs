//! The fixed 48-byte packet and its encoding.

pub mod endian;
pub mod laws;
pub mod types;

pub use types::{LiVnMode, NtpPacket, PacketView};
