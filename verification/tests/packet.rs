use ntp_exchange::error::NtpError;
use ntp_exchange::packet::{LiVnMode, NtpPacket};

fn sample() -> NtpPacket {
    NtpPacket {
        li_vn_mode: LiVnMode::new(2, 3, 5),
        stratum: 7,
        poll: -3,
        precision: -20,
        root_delay: 0x0102_0304,
        root_dispersion: 0xA0B0_C0D0,
        ref_id: 0x4E54_5031,
        ref_timestamp: 0x1112_1314_1516_1718,
        orig_timestamp: 0x2122_2324_2526_2728,
        recv_timestamp: 0x3132_3334_3536_3738,
        tx_timestamp: 0xF1F2_F3F4_F5F6_F7F8,
    }
}

#[test]
fn lead_byte_of_a_client_request() {
    let lead = LiVnMode::new(0, 4, 3);
    assert_eq!(lead.to_byte(), 0b00_100_011);
    assert_eq!(lead.to_byte(), 0x23);
    assert_eq!(lead.components(), (0, 4, 3));
}

#[test]
fn lead_byte_packs_and_unpacks_every_triple() {
    let mut seen = [false; 256];
    for li in 0u8..4 {
        for vn in 0u8..8 {
            for mode in 0u8..8 {
                let lead = LiVnMode::new(li, vn, mode);
                assert_eq!(lead.components(), (li, vn, mode));
                assert_eq!(lead.to_byte(), li * 64 + vn * 8 + mode);
                assert!(!seen[lead.to_byte() as usize]);
                seen[lead.to_byte() as usize] = true;
            }
        }
    }
    assert!(seen.iter().all(|s| *s));
}

#[test]
fn lead_byte_drops_bits_beyond_the_widths() {
    let lead = LiVnMode::new(7, 9, 12);
    assert_eq!(lead.components(), (3, 1, 4));
    assert_eq!(LiVnMode::new(4, 8, 8).to_byte(), 0);
    assert_eq!(LiVnMode::new(255, 255, 255).to_byte(), 255);
}

#[test]
fn every_byte_is_a_lead_byte() {
    for b in 0u8..=255 {
        let lead = LiVnMode::try_from(b).unwrap();
        assert_eq!(lead.to_byte(), b);
        let (li, vn, mode) = lead.components();
        assert_eq!(li, b >> 6);
        assert_eq!(vn, (b >> 3) & 7);
        assert_eq!(mode, b & 7);
        assert_eq!(LiVnMode::new(li, vn, mode), lead);
    }
}

#[test]
fn request_has_the_fixed_fields() {
    let p = NtpPacket::request(0x0000_0001_0000_0000);
    assert_eq!(p.li_vn_mode.components(), (0, 4, 3));
    assert_eq!(p.stratum, 0);
    assert_eq!(p.poll, 4);
    assert_eq!(p.precision, -6);
    assert_eq!(p.root_delay, 0);
    assert_eq!(p.root_dispersion, 0);
    assert_eq!(p.ref_id, 0);
    assert_eq!(p.ref_timestamp, 0);
    assert_eq!(p.orig_timestamp, 0);
    assert_eq!(p.recv_timestamp, 0);
    assert_eq!(p.tx_timestamp, 0x0000_0001_0000_0000);
}

#[test]
fn new_request_is_stamped_by_the_clock() {
    let p = NtpPacket::new();
    assert_eq!(p.li_vn_mode.components(), (0, 4, 3));
    assert_eq!(p.stratum, 0);
    assert_eq!(p.poll, 4);
    assert_eq!(p.precision, -6);
    assert_eq!(p.root_delay, 0);
    assert_eq!(p.root_dispersion, 0);
    assert_eq!(p.ref_id, 0);
    assert_eq!(p.ref_timestamp, 0);
    assert_eq!(p.orig_timestamp, 0);
    assert_eq!(p.recv_timestamp, 0);
    assert_eq!(p.tx_timestamp & 0xFFFF_FFFF, 0);
    assert_ne!(p.tx_timestamp, 0);
    assert_eq!(NtpPacket::request(p.tx_timestamp), p);
}

#[test]
fn encode_client_request_scenario() {
    let p = NtpPacket {
        li_vn_mode: LiVnMode::new(0, 4, 3),
        stratum: 0,
        poll: 4,
        precision: -6,
        root_delay: 0,
        root_dispersion: 0,
        ref_id: 0,
        ref_timestamp: 0,
        orig_timestamp: 0,
        recv_timestamp: 0,
        tx_timestamp: 0x0000_0001_0000_0000,
    };
    let bytes = p.to_bytes();
    assert_eq!(bytes.len(), 48);
    assert_eq!(bytes[0], 0x23);
    assert_eq!(bytes[1], 0);
    assert_eq!(bytes[2], 4);
    assert_eq!(bytes[3], 0xFA);
    assert!(bytes[4..40].iter().all(|b| *b == 0));
    assert_eq!(&bytes[40..48], &[0x00, 0x00, 0x00, 0x01, 0x00, 0x00, 0x00, 0x00]);
}

#[test]
fn encode_places_every_field_big_endian() {
    let bytes = sample().to_bytes();
    let expected: [u8; 48] = [
        0x9D, 0x07, 0xFD, 0xEC, 0x01, 0x02, 0x03, 0x04, 0xA0, 0xB0, 0xC0, 0xD0, 0x4E, 0x54, 0x50,
        0x31, 0x11, 0x12, 0x13, 0x14, 0x15, 0x16, 0x17, 0x18, 0x21, 0x22, 0x23, 0x24, 0x25, 0x26,
        0x27, 0x28, 0x31, 0x32, 0x33, 0x34, 0x35, 0x36, 0x37, 0x38, 0xF1, 0xF2, 0xF3, 0xF4, 0xF5,
        0xF6, 0xF7, 0xF8,
    ];
    assert_eq!(bytes, expected);
}

#[test]
fn decode_reads_every_field_big_endian() {
    let mut bytes = [0u8; 48];
    for (i, b) in bytes.iter_mut().enumerate() {
        *b = (i as u8) + 0x80;
    }
    let p = NtpPacket::from_bytes(&bytes).unwrap();
    assert_eq!(p.li_vn_mode.to_byte(), 0x80);
    assert_eq!(p.li_vn_mode.components(), (2, 0, 0));
    assert_eq!(p.stratum, 0x81);
    assert_eq!(p.poll, -126);
    assert_eq!(p.precision, -125);
    assert_eq!(p.root_delay, 0x8485_8687);
    assert_eq!(p.root_dispersion, 0x8889_8A8B);
    assert_eq!(p.ref_id, 0x8C8D_8E8F);
    assert_eq!(p.ref_timestamp, 0x9091_9293_9495_9697);
    assert_eq!(p.orig_timestamp, 0x9899_9A9B_9C9D_9E9F);
    assert_eq!(p.recv_timestamp, 0xA0A1_A2A3_A4A5_A6A7);
    assert_eq!(p.tx_timestamp, 0xA8A9_AAAB_ACAD_AEAF);
}

#[test]
fn decode_after_encode_gives_the_packet_again() {
    let p = sample();
    assert_eq!(NtpPacket::from_bytes(&p.to_bytes()).unwrap(), p);
    let q = NtpPacket::request(u64::MAX);
    assert_eq!(NtpPacket::from_bytes(&q.to_bytes()).unwrap(), q);
    for (poll, precision) in [(-128i8, 127i8), (127, -128), (0, -1), (-1, 0)] {
        let r = NtpPacket {
            li_vn_mode: LiVnMode::new(3, 7, 7),
            stratum: 255,
            poll,
            precision,
            root_delay: u32::MAX,
            root_dispersion: 1,
            ref_id: 0x8000_0000,
            ref_timestamp: 1,
            orig_timestamp: 0x8000_0000_0000_0000,
            recv_timestamp: u64::MAX,
            tx_timestamp: 0,
        };
        assert_eq!(NtpPacket::from_bytes(&r.to_bytes()).unwrap(), r);
    }
}

#[test]
fn encode_after_decode_gives_the_bytes_again() {
    let mut bytes = [0u8; 48];
    for (i, b) in bytes.iter_mut().enumerate() {
        *b = (i as u8).wrapping_mul(37).wrapping_add(11);
    }
    let p = NtpPacket::from_bytes(&bytes).unwrap();
    assert_eq!(p.to_bytes(), bytes);
    let ones = [0xFFu8; 48];
    assert_eq!(NtpPacket::from_bytes(&ones).unwrap().to_bytes(), ones);
}

#[test]
fn decode_refuses_every_short_buffer() {
    for len in 0..48usize {
        let buf = vec![0xABu8; len];
        assert!(matches!(NtpPacket::from_bytes(&buf), Err(NtpError::InvalidResponse)));
    }
    let bytes = sample().to_bytes();
    assert!(matches!(NtpPacket::from_bytes(&bytes[..47]), Err(NtpError::InvalidResponse)));
    assert!(matches!(NtpPacket::from_bytes(&[]), Err(NtpError::InvalidResponse)));
}

#[test]
fn decode_reads_only_the_first_48_bytes() {
    let p = sample();
    let mut long = p.to_bytes().to_vec();
    long.extend_from_slice(&[0xEE; 20]);
    assert_eq!(NtpPacket::from_bytes(&long).unwrap(), p);
}

#[test]
fn decode_takes_any_48_bytes() {
    assert!(NtpPacket::from_bytes(&[0u8; 48]).is_ok());
    assert!(NtpPacket::from_bytes(&[0xFFu8; 48]).is_ok());
    let p = NtpPacket::from_bytes(&[0xFFu8; 48]).unwrap();
    assert_eq!(p.li_vn_mode.components(), (3, 7, 7));
    assert_eq!(p.poll, -1);
    assert_eq!(p.root_delay, u32::MAX);
    assert_eq!(p.tx_timestamp, u64::MAX);
}
