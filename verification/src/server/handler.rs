//! The server's answer to one request.

use crate::clock::{current_ntp_time, is_clock_timestamp};
use crate::error::NtpError;
use crate::packet::laws::law_parse_of_wire;
use crate::packet::types::{lemma_lead_byte_packs, lemma_lead_byte_unpacks};
use crate::packet::{LiVnMode, NtpPacket, PacketView};
use vstd::prelude::*;

verus! {

/// The tag by which this server names its reference: `NTP1` in ASCII.
pub const REFERENCE_ID: u32 = 0x4E54_5031;

/// The reply to `request` by a server that received it at
/// `recv_timestamp` and answers at `tx_timestamp`. It is in server mode
/// with the leap indicator and the version of the request, at stratum 2,
/// and gives the request's transmit timestamp back as its originate and
/// its reference timestamp.
pub open spec fn reply_view(request: PacketView, recv_timestamp: nat, tx_timestamp: nat)
    -> PacketView {
    PacketView {
        leap: request.leap,
        version: request.version,
        mode: 4,
        stratum: 2,
        poll: 4,
        precision: -6,
        root_delay: 0,
        root_dispersion: 0,
        ref_id: 0x4E54_5031,
        ref_timestamp: request.tx_timestamp,
        orig_timestamp: request.tx_timestamp,
        recv_timestamp,
        tx_timestamp,
    }
}

/// Decodes the request in `buf` and builds the reply to it. The system
/// clock is read twice, first for the receive and then for the transmit
/// timestamp. A datagram of fewer than 48 bytes is refused, and nothing
/// else is.
pub fn handle_request(buf: &[u8]) -> (handled: Result<NtpPacket, NtpError>)
    ensures
        match handled {
            Ok(reply) => {
                &&& buf@.len() >= 48
                &&& is_clock_timestamp(reply@.recv_timestamp)
                &&& is_clock_timestamp(reply@.tx_timestamp)
                &&& reply@ == reply_view(
                    PacketView::parse(buf@),
                    reply@.recv_timestamp,
                    reply@.tx_timestamp,
                )
            },
            Err(e) => buf@.len() < 48 && e is InvalidResponse,
        },
{
    let received_packet = match NtpPacket::from_bytes(buf) {
        Ok(packet) => packet,
        Err(e) => {
            return Err(e);
        },
    };
    let recv_timestamp: u64 = current_ntp_time();
    let tx_timestamp: u64 = current_ntp_time();
    Ok(reply_to(&received_packet, recv_timestamp, tx_timestamp))
}

/// The reply to `request` with the two timestamps of the server given.
pub fn reply_to(request: &NtpPacket, recv_timestamp: u64, tx_timestamp: u64) -> (reply: NtpPacket)
    ensures
        reply@ == reply_view(request@, recv_timestamp as nat, tx_timestamp as nat),
{
    let mut response = NtpPacket::request(tx_timestamp);
    let (li, vn, _) = request.li_vn_mode.components();
    response.li_vn_mode = LiVnMode::new(li, vn, 4);
    response.stratum = 2;
    response.ref_id = generate_ref_id();
    response.ref_timestamp = request.tx_timestamp;
    response.orig_timestamp = request.tx_timestamp;
    response.recv_timestamp = recv_timestamp;
    proof {
        lemma_lead_byte_unpacks(request.li_vn_mode@);
        lemma_lead_byte_packs(li as nat, vn as nat, 4);
    }
    response
}

/// The reference identifier of every reply.
pub fn generate_ref_id() -> (id: u32)
    ensures
        id == REFERENCE_ID,
{
    REFERENCE_ID
}

/// The reply to a request that says it was sent at `T` has `T` as its
/// originate and as its reference timestamp, stratum 2 and mode 4,
/// whatever leap indicator, version and mode the request has; the first
/// two it hands back unchanged.
pub proof fn law_reply_echoes_request(request: NtpPacket, recv_timestamp: nat, tx_timestamp: nat)
    ensures
        ({
            let reply = reply_view(
                PacketView::parse(request@.wire()),
                recv_timestamp,
                tx_timestamp,
            );
            &&& reply.orig_timestamp == request.tx_timestamp
            &&& reply.ref_timestamp == request.tx_timestamp
            &&& reply.stratum == 2
            &&& reply.mode == 4
            &&& reply.leap == request@.leap
            &&& reply.version == request@.version
        }),
{
    request.lemma_view_fits();
    law_parse_of_wire(request@);
}

} // verus!
