//! The times of a reply, as Unix seconds.

use crate::clock::{has_unix_time, is_unix_time, ntp_to_unix, unix_from_ntp};
use crate::error::NtpError;
use crate::packet::NtpPacket;
use vstd::prelude::*;

verus! {

/// The three times that a reply reports, each in whole Unix seconds.
#[derive(Debug, Clone, Copy, PartialEq, Eq, Structural)]
pub struct ResponseTimes {
    /// When the client sent the request, by the client's clock.
    pub originate: u64,
    /// When the server received it, by the server's clock.
    pub receive: u64,
    /// When the server sent the reply, by the server's clock.
    pub transmit: u64,
}

/// Whether the originate, receive and transmit timestamps of `packet` all
/// fall in 1970 or later.
pub open spec fn has_unix_times(packet: NtpPacket) -> bool {
    &&& has_unix_time(packet.orig_timestamp as nat)
    &&& has_unix_time(packet.recv_timestamp as nat)
    &&& has_unix_time(packet.tx_timestamp as nat)
}

/// Whether `process_response` can be asked about `packet`.
pub fn can_process(packet: &NtpPacket) -> (yes: bool)
    ensures
        yes == has_unix_times(*packet),
{
    is_unix_time(packet.orig_timestamp) && is_unix_time(packet.recv_timestamp) && is_unix_time(
        packet.tx_timestamp,
    )
}

/// The originate, receive and transmit times of the reply `packet`, as
/// Unix seconds. This never fails.
pub fn process_response(packet: &NtpPacket) -> (processed: Result<ResponseTimes, NtpError>)
    requires
        has_unix_times(*packet),
    ensures
        match processed {
            Ok(times) => {
                &&& times.originate == unix_from_ntp(packet.orig_timestamp as nat)
                &&& times.receive == unix_from_ntp(packet.recv_timestamp as nat)
                &&& times.transmit == unix_from_ntp(packet.tx_timestamp as nat)
            },
            Err(_) => false,
        },
{
    let originate: u64 = ntp_to_unix(packet.orig_timestamp);
    let receive: u64 = ntp_to_unix(packet.recv_timestamp);
    let transmit: u64 = ntp_to_unix(packet.tx_timestamp);
    Ok(ResponseTimes { originate, receive, transmit })
}

} // verus!
