//! The options of a client, and the builder that sets them one by one.

use crate::client::sender::NtpClient;
use crate::clock::duration_of_secs;
use crate::error::NtpError;
use std::time::Duration;
use vstd::prelude::*;

verus! {

pub type ServerAddress = [u8; 4];

pub type ServerPort = u16;

/// Where a client sends its request, and how long it waits for the reply.
#[derive(Debug, Clone, Copy)]
pub struct ClientConfig {
    /// The server's address, as four octets.
    pub server: ServerAddress,
    /// The server's port.
    pub port: ServerPort,
    /// The longest wait for a reply.
    pub timeout: Duration,
}

impl ClientConfig {
    /// The options that nobody has set: address 0.0.0.0, port 123, and
    /// five seconds of patience.
    pub open spec fn is_default(self) -> bool {
        &&& self.server@ == seq![0u8, 0u8, 0u8, 0u8]
        &&& self.port == 123
        &&& self.timeout == duration_of_secs(5)
    }

    /// The options before any is set.
    pub fn new() -> (config: Self)
        ensures
            config.is_default(),
    {
        ClientConfig { server: [0, 0, 0, 0], port: 123, timeout: Duration::from_secs(5) }
    }
}

/// Collects the options of a client. Each setter replaces one option and
/// keeps the others.
pub struct ClientBuilder {
    config: ClientConfig,
}

impl View for ClientBuilder {
    type V = ClientConfig;

    /// The options as they stand.
    closed spec fn view(&self) -> ClientConfig {
        self.config
    }
}

impl ClientBuilder {
    /// A builder with no option set.
    pub fn new() -> (builder: Self)
        ensures
            builder@.is_default(),
    {
        ClientBuilder { config: ClientConfig::new() }
    }

    /// Sets the server's address.
    pub fn server(self, server: ServerAddress) -> (builder: Self)
        ensures
            builder@ == (ClientConfig { server, ..self@ }),
    {
        let mut builder = self;
        builder.config.server = server;
        builder
    }

    /// Sets the server's port.
    pub fn port(self, port: ServerPort) -> (builder: Self)
        ensures
            builder@ == (ClientConfig { port, ..self@ }),
    {
        let mut builder = self;
        builder.config.port = port;
        builder
    }

    /// Sets the longest wait for a reply.
    pub fn timeout(self, timeout: Duration) -> (builder: Self)
        ensures
            builder@ == (ClientConfig { timeout, ..self@ }),
    {
        let mut builder = self;
        builder.config.timeout = timeout;
        builder
    }

    /// The client with the options as they stand. This never fails.
    pub fn build(self) -> (built: Result<NtpClient, NtpError>)
        ensures
            match built {
                Ok(client) => client@ == self@,
                Err(_) => false,
            },
    {
        NtpClient::new(self.config)
    }
}

} // verus!
