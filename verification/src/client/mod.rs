//! The client's side of the exchange: its options, and the one request
//! that it makes.

pub mod builder;
pub mod sender;

pub use builder::{ClientBuilder, ClientConfig};
pub use sender::NtpClient;
