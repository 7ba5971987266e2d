//! The client and the course of its one request.

use crate::client::builder::{ClientConfig, ServerAddress, ServerPort};
use crate::clock::is_clock_timestamp;
use crate::error::NtpError;
use crate::packet::laws::law_parse_of_wire;
use crate::packet::{NtpPacket, PacketView};
use std::time::Duration;
use vstd::prelude::*;

verus! {

/// How far one request has come. The last three states are final.
#[derive(Debug, Clone, Copy, PartialEq, Eq, Structural)]
pub enum ExchangeState {
    /// Nothing was sent yet.
    Idle,
    /// The request is out, and the reply is awaited.
    Sent,
    /// A reply came and was decoded.
    Received,
    /// The wait ran out before any datagram came.
    TimedOut,
    /// A datagram came that is no packet.
    Rejected,
}

/// What can happen to a request.
#[derive(Debug, Clone, Copy)]
pub enum ExchangeEvent<'a> {
    /// The caller asks for the time.
    Start,
    /// A datagram of these bytes arrived on the client's endpoint.
    Datagram(&'a [u8]),
    /// The wait for a reply ran out.
    DeadlineElapsed,
}

/// What the one who runs the exchange has to do next.
#[derive(Debug)]
pub enum ExchangeAction {
    /// Send `data` from a fresh local endpoint to `server` at `port`, then
    /// wait for one datagram, for `timeout` at most.
    Send { data: [u8; 48], server: ServerAddress, port: ServerPort, timeout: Duration },
    /// End the request with this outcome.
    Finish(Result<NtpPacket, NtpError>),
    /// Nothing: the event does not concern the request in this state.
    Nothing,
}

impl ExchangeState {
    /// Whether the request is over.
    pub open spec fn is_final(self) -> bool {
        self is Received || self is TimedOut || self is Rejected
    }

    /// The state after `event`. A request is sent once, one datagram
    /// decides it, and a final state stays.
    pub open spec fn after(self, event: ExchangeEvent) -> ExchangeState {
        match (self, event) {
            (ExchangeState::Idle, ExchangeEvent::Start) => ExchangeState::Sent,
            (ExchangeState::Sent, ExchangeEvent::Datagram(bytes)) => if bytes@.len() < 48 {
                ExchangeState::Rejected
            } else {
                ExchangeState::Received
            },
            (ExchangeState::Sent, ExchangeEvent::DeadlineElapsed) => ExchangeState::TimedOut,
            _ => self,
        }
    }
}

/// A client with its options fixed.
pub struct NtpClient {
    config: ClientConfig,
}

impl View for NtpClient {
    type V = ClientConfig;

    /// The options that the client was made with.
    closed spec fn view(&self) -> ClientConfig {
        self.config
    }
}

impl NtpClient {
    /// A client with the options `config`. This never fails.
    pub fn new(config: ClientConfig) -> (made: Result<Self, NtpError>)
        ensures
            match made {
                Ok(client) => client@ == config,
                Err(_) => false,
            },
    {
        Ok(NtpClient { config })
    }

    /// The options that the client was made with.
    pub fn config(&self) -> (config: &ClientConfig)
        ensures
            *config == self@,
    {
        &self.config
    }

    /// One step of a request: the state after `event`, and what to do.
    ///
    /// On `Start` in `Idle`, a fresh request is stamped with the system
    /// clock and handed out to be sent to the server of the options. In
    /// `Sent`, a datagram of 48 bytes or more ends the request with the
    /// packet in its first 48 bytes, a shorter one with `InvalidResponse`,
    /// and the end of the wait with `Timeout`. Whether the datagram
    /// answers the request, or comes from the server, is not looked at.
    /// Any other event changes nothing and asks for nothing.
    pub fn step(&self, state: ExchangeState, event: ExchangeEvent) -> (next: (
        ExchangeState,
        ExchangeAction,
    ))
        ensures
            next.0 == state.after(event),
            match next.1 {
                ExchangeAction::Send { data, server, port, timeout } => {
                    let request = PacketView::parse(data@);
                    &&& state is Idle
                    &&& event is Start
                    &&& server == self@.server
                    &&& port == self@.port
                    &&& timeout == self@.timeout
                    &&& is_clock_timestamp(request.tx_timestamp)
                    &&& data@ == PacketView::request(request.tx_timestamp).wire()
                },
                ExchangeAction::Finish(Ok(packet)) => {
                    &&& state is Sent
                    &&& event matches ExchangeEvent::Datagram(bytes)
                    &&& bytes@.len() >= 48
                    &&& packet@ == PacketView::parse(bytes@)
                },
                ExchangeAction::Finish(Err(e)) => {
                    &&& state is Sent
                    &&& match event {
                        ExchangeEvent::Datagram(bytes) => bytes@.len() < 48 && e is InvalidResponse,
                        ExchangeEvent::DeadlineElapsed => e is Timeout,
                        ExchangeEvent::Start => false,
                    }
                },
                ExchangeAction::Nothing => {
                    &&& !(state is Idle && event is Start)
                    &&& !(state is Sent && !(event is Start))
                },
            },
    {
        match state {
            ExchangeState::Idle => match event {
                ExchangeEvent::Start => {
                    let packet = NtpPacket::new();
                    let data = packet.to_bytes();
                    proof {
                        packet.lemma_view_fits();
                        law_parse_of_wire(packet@);
                    }
                    (
                        ExchangeState::Sent,
                        ExchangeAction::Send {
                            data,
                            server: self.config.server,
                            port: self.config.port,
                            timeout: self.config.timeout,
                        },
                    )
                },
                _ => (state, ExchangeAction::Nothing),
            },
            ExchangeState::Sent => match event {
                ExchangeEvent::Start => (state, ExchangeAction::Nothing),
                ExchangeEvent::Datagram(bytes) => match NtpPacket::from_bytes(bytes) {
                    Ok(packet) => (ExchangeState::Received, ExchangeAction::Finish(Ok(packet))),
                    Err(e) => (ExchangeState::Rejected, ExchangeAction::Finish(Err(e))),
                },
                ExchangeEvent::DeadlineElapsed => (
                    ExchangeState::TimedOut,
                    ExchangeAction::Finish(Err(NtpError::Timeout)),
                ),
            },
            _ => (state, ExchangeAction::Nothing),
        }
    }
}

/// A request that is over stays as it is: no event sends anything again
/// or takes in another datagram.
pub proof fn law_final_state_stays(state: ExchangeState, event: ExchangeEvent)
    requires
        state.is_final(),
    ensures
        state.after(event) == state,
{
}

} // verus!
