//! The server's side of the exchange: what to send back for a datagram.

pub mod handler;

use crate::clock::is_clock_timestamp;
use crate::error::NtpError;
use crate::packet::laws::law_parse_of_wire;
use crate::packet::PacketView;
use crate::server::handler::{handle_request, reply_view};
use vstd::prelude::*;

verus! {

/// The bytes to send back to the sender of `datagram`: the encoded reply
/// to the request in it. For a datagram that is no request, the error to
/// report; nothing is sent back then.
pub fn reply_datagram(datagram: &[u8]) -> (answer: Result<[u8; 48], NtpError>)
    ensures
        match answer {
            Ok(bytes) => {
                let sent = PacketView::parse(bytes@);
                &&& datagram@.len() >= 48
                &&& is_clock_timestamp(sent.recv_timestamp)
                &&& is_clock_timestamp(sent.tx_timestamp)
                &&& bytes@ == reply_view(
                    PacketView::parse(datagram@),
                    sent.recv_timestamp,
                    sent.tx_timestamp,
                ).wire()
            },
            Err(e) => datagram@.len() < 48 && e is InvalidResponse,
        },
{
    match handle_request(datagram) {
        Ok(reply) => {
            proof {
                reply.lemma_view_fits();
                law_parse_of_wire(reply@);
            }
            Ok(reply.to_bytes())
        },
        Err(e) => Err(e),
    }
}

} // verus!
