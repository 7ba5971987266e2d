use ntp_exchange::clock::unix_to_ntp;
use ntp_exchange::packet::NtpPacket;
use ntp_exchange::response::handler::{can_process, process_response, ResponseTimes};
use ntp_exchange::server::handler::reply_to;

#[test]
fn times_of_a_reply_in_unix_seconds() {
    let request = NtpPacket::request(unix_to_ntp(1_700_000_000));
    let reply = reply_to(&request, unix_to_ntp(1_700_000_001), unix_to_ntp(1_700_000_002));
    assert!(can_process(&reply));
    let times = process_response(&reply).unwrap();
    assert_eq!(
        times,
        ResponseTimes { originate: 1_700_000_000, receive: 1_700_000_001, transmit: 1_700_000_002 }
    );
}

#[test]
fn fraction_of_a_second_is_dropped() {
    let mut reply = NtpPacket::request(0x83AA_7E80_FFFF_FFFF);
    reply.orig_timestamp = 0x83AA_7E81_8000_0000;
    reply.recv_timestamp = 0xFFFF_FFFF_FFFF_FFFF;
    assert!(can_process(&reply));
    let times = process_response(&reply).unwrap();
    assert_eq!(times.originate, 1);
    assert_eq!(times.receive, 0xFFFF_FFFF - 2_208_988_800);
    assert_eq!(times.transmit, 0);
}

#[test]
fn times_before_1970_cannot_be_processed() {
    let request = NtpPacket::request(unix_to_ntp(1_700_000_000));
    assert!(!can_process(&request));
    let mut reply = reply_to(&request, unix_to_ntp(5), unix_to_ntp(6));
    assert!(can_process(&reply));
    reply.recv_timestamp = 0x83AA_7E7F_FFFF_FFFF;
    assert!(!can_process(&reply));
    reply.recv_timestamp = unix_to_ntp(5);
    reply.tx_timestamp = 0;
    assert!(!can_process(&reply));
    reply.tx_timestamp = unix_to_ntp(6);
    reply.orig_timestamp = 1;
    assert!(!can_process(&reply));
}
