//! The packet as a value, its leading byte, and its 48 bytes on the wire.

use crate::clock::{current_ntp_time, is_clock_timestamp};
use crate::error::NtpError;
use crate::packet::endian::{
    be_bytes, be_value, lemma_be_bytes_len, read_u32, read_u64, write_u32, write_u64,
};
use vstd::prelude::*;
use vstd::std_specs::convert::TryFromSpecImpl;

verus! {

pub type LeapIndicator = u8;

pub type VersionNumber = u8;

pub type Mode = u8;

pub type Stratum = u8;

pub type Poll = i8;

pub type Precision = i8;

pub type RootDelay = u32;

pub type RootDispersion = u32;

pub type ReferenceID = u32;

pub type Timestamp = u64;

/// The length of a packet on the wire, in bytes.
pub const PACKET_LEN: usize = 48;

/// The leading byte for a leap indicator, a version and a mode: two bits,
/// three bits and three bits from the top. Of each number only what fits
/// its bits is kept.
pub open spec fn pack(leap: nat, version: nat, mode: nat) -> nat {
    (leap % 4) * 64 + (version % 8) * 8 + mode % 8
}

/// The leap indicator in the leading byte `lead`.
pub open spec fn leap_of(lead: nat) -> nat {
    lead / 64
}

/// The version number in the leading byte `lead`.
pub open spec fn version_of(lead: nat) -> nat {
    (lead / 8) % 8
}

/// The mode in the leading byte `lead`.
pub open spec fn mode_of(lead: nat) -> nat {
    lead % 8
}

/// The byte that stands for the signed number `x` in two's complement.
pub open spec fn byte_of_signed(x: int) -> u8 {
    (x % 256) as u8
}

/// The signed number that the byte `b` stands for in two's complement.
pub open spec fn signed_of_byte(b: u8) -> int {
    if b < 128 {
        b as int
    } else {
        b - 256
    }
}

/// The leading byte of a packet: leap indicator, version and mode in one.
/// Every byte is the leading byte of exactly one such triple.
#[derive(Debug, PartialEq, Eq, Structural)]
pub struct LiVnMode(u8);

impl View for LiVnMode {
    type V = u8;

    /// The byte as it stands on the wire.
    closed spec fn view(&self) -> u8 {
        self.0
    }
}

impl LiVnMode {
    /// The leading byte whose wire form is `lead`.
    pub closed spec fn of_byte(lead: u8) -> LiVnMode {
        LiVnMode(lead)
    }

    /// The leap indicator, 0 to 3.
    pub open spec fn leap(&self) -> nat {
        leap_of(self@ as nat)
    }

    /// The version number, 0 to 7.
    pub open spec fn version(&self) -> nat {
        version_of(self@ as nat)
    }

    /// The mode, 0 to 7.
    pub open spec fn mode(&self) -> nat {
        mode_of(self@ as nat)
    }

    /// A leading byte is known by its wire form.
    pub proof fn lemma_known_by_byte(self, lead: u8)
        ensures
            Self::of_byte(lead)@ == lead,
            self@ == lead <==> self == Self::of_byte(lead),
    {
    }

    /// Packs the three numbers into the leading byte. Bits of a number
    /// beyond its width are dropped.
    pub fn new(li: LeapIndicator, vn: VersionNumber, mode: Mode) -> (lead: Self)
        ensures
            lead@ == pack(li as nat, vn as nat, mode as nat),
    {
        let value: u8 = ((li & 0x3) << 6) | ((vn & 0x7) << 3) | (mode & 0x7);
        assert(value == (li % 4) * 64 + (vn % 8) * 8 + mode % 8) by (bit_vector)
            requires
                value == ((li & 0x3) << 6) | ((vn & 0x7) << 3) | (mode & 0x7),
        ;
        LiVnMode(value)
    }

    /// The byte as it stands on the wire.
    pub fn to_byte(&self) -> (lead: u8)
        ensures
            lead == self@,
    {
        self.0
    }

    /// Leap indicator, version and mode, in this order.
    pub fn components(&self) -> (parts: (LeapIndicator, VersionNumber, Mode))
        ensures
            parts.0 == self.leap(),
            parts.1 == self.version(),
            parts.2 == self.mode(),
    {
        let lead: u8 = self.0;
        let li: u8 = (lead >> 6) & 0x3;
        let vn: u8 = (lead >> 3) & 0x7;
        let mode: u8 = lead & 0x7;
        assert(li == lead / 64 && vn == (lead / 8) % 8 && mode == lead % 8) by (bit_vector)
            requires
                li == (lead >> 6) & 0x3,
                vn == (lead >> 3) & 0x7,
                mode == lead & 0x7,
        ;
        (li, vn, mode)
    }
}

impl TryFrom<u8> for LiVnMode {
    type Error = NtpError;

    /// Every byte is a leading byte: this never fails.
    fn try_from(value: u8) -> (lead: Result<Self, NtpError>)
        ensures
            lead matches Ok(byte) && byte@ == value,
    {
        Ok(LiVnMode(value))
    }
}

impl TryFromSpecImpl<u8> for LiVnMode {
    open spec fn obeys_try_from_spec() -> bool {
        true
    }

    open spec fn try_from_spec(value: u8) -> Result<Self, NtpError> {
        Ok(LiVnMode::of_byte(value))
    }
}

/// A packet as thirteen numbers: what `NtpPacket` holds, with the leading
/// byte taken apart.
pub struct PacketView {
    pub leap: nat,
    pub version: nat,
    pub mode: nat,
    pub stratum: nat,
    pub poll: int,
    pub precision: int,
    pub root_delay: nat,
    pub root_dispersion: nat,
    pub ref_id: nat,
    pub ref_timestamp: nat,
    pub orig_timestamp: nat,
    pub recv_timestamp: nat,
    pub tx_timestamp: nat,
}

impl PacketView {
    /// Every number lies within the width that the wire has for it.
    pub open spec fn fits(self) -> bool {
        &&& self.leap < 4
        &&& self.version < 8
        &&& self.mode < 8
        &&& self.stratum < 0x100
        &&& -128 <= self.poll < 128
        &&& -128 <= self.precision < 128
        &&& self.root_delay < 0x1_0000_0000
        &&& self.root_dispersion < 0x1_0000_0000
        &&& self.ref_id < 0x1_0000_0000
        &&& self.ref_timestamp < 0x1_0000_0000_0000_0000
        &&& self.orig_timestamp < 0x1_0000_0000_0000_0000
        &&& self.recv_timestamp < 0x1_0000_0000_0000_0000
        &&& self.tx_timestamp < 0x1_0000_0000_0000_0000
    }

    /// The 48 bytes of the packet on the wire: the leading byte, stratum,
    /// poll and precision in one byte each, then three numbers of four
    /// bytes and four timestamps of eight, each most significant byte
    /// first.
    pub open spec fn wire(self) -> Seq<u8> {
        seq![
            pack(self.leap, self.version, self.mode) as u8,
            (self.stratum % 0x100) as u8,
            byte_of_signed(self.poll),
            byte_of_signed(self.precision),
        ] + be_bytes(self.root_delay, 4) + be_bytes(self.root_dispersion, 4) + be_bytes(
            self.ref_id,
            4,
        ) + be_bytes(self.ref_timestamp, 8) + be_bytes(self.orig_timestamp, 8) + be_bytes(
            self.recv_timestamp,
            8,
        ) + be_bytes(self.tx_timestamp, 8)
    }

    /// The packet that the first 48 bytes of `bytes` stand for.
    pub open spec fn parse(bytes: Seq<u8>) -> PacketView {
        PacketView {
            leap: leap_of(bytes[0] as nat),
            version: version_of(bytes[0] as nat),
            mode: mode_of(bytes[0] as nat),
            stratum: bytes[1] as nat,
            poll: signed_of_byte(bytes[2]),
            precision: signed_of_byte(bytes[3]),
            root_delay: be_value(bytes.subrange(4, 8)),
            root_dispersion: be_value(bytes.subrange(8, 12)),
            ref_id: be_value(bytes.subrange(12, 16)),
            ref_timestamp: be_value(bytes.subrange(16, 24)),
            orig_timestamp: be_value(bytes.subrange(24, 32)),
            recv_timestamp: be_value(bytes.subrange(32, 40)),
            tx_timestamp: be_value(bytes.subrange(40, 48)),
        }
    }

    /// A client's request that is sent at the timestamp `tx_timestamp`:
    /// no leap warning, version 4, client mode, and every other time zero.
    pub open spec fn request(tx_timestamp: nat) -> PacketView {
        PacketView {
            leap: 0,
            version: 4,
            mode: 3,
            stratum: 0,
            poll: 4,
            precision: -6,
            root_delay: 0,
            root_dispersion: 0,
            ref_id: 0,
            ref_timestamp: 0,
            orig_timestamp: 0,
            recv_timestamp: 0,
            tx_timestamp,
        }
    }
}

/// One packet of the exchange. Request and reply have the same form.
#[derive(Debug, PartialEq, Eq, Structural)]
pub struct NtpPacket {
    pub li_vn_mode: LiVnMode,
    pub stratum: Stratum,
    pub poll: Poll,
    pub precision: Precision,
    pub root_delay: RootDelay,
    pub root_dispersion: RootDispersion,
    pub ref_id: ReferenceID,
    pub ref_timestamp: Timestamp,
    pub orig_timestamp: Timestamp,
    pub recv_timestamp: Timestamp,
    pub tx_timestamp: Timestamp,
}

impl View for NtpPacket {
    type V = PacketView;

    open spec fn view(&self) -> PacketView {
        PacketView {
            leap: self.li_vn_mode.leap(),
            version: self.li_vn_mode.version(),
            mode: self.li_vn_mode.mode(),
            stratum: self.stratum as nat,
            poll: self.poll as int,
            precision: self.precision as int,
            root_delay: self.root_delay as nat,
            root_dispersion: self.root_dispersion as nat,
            ref_id: self.ref_id as nat,
            ref_timestamp: self.ref_timestamp as nat,
            orig_timestamp: self.orig_timestamp as nat,
            recv_timestamp: self.recv_timestamp as nat,
            tx_timestamp: self.tx_timestamp as nat,
        }
    }
}

/// Puts the four bytes of `n` at `buf[at..at + 4]`.
fn put_u32(buf: &mut [u8; 48], at: usize, n: u32)
    requires
        at + 4 <= 48,
    ensures
        final(buf)@ == old(buf)@.subrange(0, at as int) + be_bytes(n as nat, 4) + old(
            buf,
        )@.subrange(at + 4, 48),
{
    let whole: &mut [u8] = buf;
    let (_, rest) = whole.split_at_mut(at);
    let (field, _) = rest.split_at_mut(4);
    write_u32(field, n);
    proof {
        lemma_be_bytes_len(n as nat, 4);
    }
}

/// Puts the eight bytes of `n` at `buf[at..at + 8]`.
fn put_u64(buf: &mut [u8; 48], at: usize, n: u64)
    requires
        at + 8 <= 48,
    ensures
        final(buf)@ == old(buf)@.subrange(0, at as int) + be_bytes(n as nat, 8) + old(
            buf,
        )@.subrange(at + 8, 48),
{
    let whole: &mut [u8] = buf;
    let (_, rest) = whole.split_at_mut(at);
    let (field, _) = rest.split_at_mut(8);
    write_u64(field, n);
    proof {
        lemma_be_bytes_len(n as nat, 8);
    }
}

impl NtpPacket {
    /// A packet is known by its view: two packets with the same thirteen
    /// numbers are the same packet.
    pub proof fn lemma_known_by_view(self, other: NtpPacket)
        requires
            self@ == other@,
        ensures
            self == other,
    {
        lemma_lead_byte_unpacks(self.li_vn_mode@);
        lemma_lead_byte_unpacks(other.li_vn_mode@);
    }

    /// The view of a packet fits the wire.
    pub proof fn lemma_view_fits(self)
        ensures
            self@.fits(),
    {
    }

    /// A fresh request, stamped with the present second of the system
    /// clock.
    pub fn new() -> (packet: Self)
        ensures
            is_clock_timestamp(packet@.tx_timestamp),
            packet@ == PacketView::request(packet@.tx_timestamp),
    {
        NtpPacket::request(current_ntp_time())
    }

    /// A fresh request that says it was sent at `tx_timestamp`.
    pub fn request(tx_timestamp: Timestamp) -> (packet: Self)
        ensures
            packet@ == PacketView::request(tx_timestamp as nat),
    {
        NtpPacket {
            li_vn_mode: LiVnMode::new(0, 4, 3),
            stratum: 0,
            poll: 4,
            precision: -6,
            root_delay: 0,
            root_dispersion: 0,
            ref_id: 0,
            ref_timestamp: 0,
            orig_timestamp: 0,
            recv_timestamp: 0,
            tx_timestamp,
        }
    }

    /// The packet on the wire. This never fails.
    pub fn to_bytes(&self) -> (out: [u8; 48])
        ensures
            out@ == self@.wire(),
    {
        let mut buf = [0u8; 48];
        buf[0] = self.li_vn_mode.to_byte();
        buf[1] = self.stratum;
        buf[2] = self.poll as u8;
        buf[3] = self.precision as u8;
        put_u32(&mut buf, 4, self.root_delay);
        put_u32(&mut buf, 8, self.root_dispersion);
        put_u32(&mut buf, 12, self.ref_id);
        put_u64(&mut buf, 16, self.ref_timestamp);
        put_u64(&mut buf, 24, self.orig_timestamp);
        put_u64(&mut buf, 32, self.recv_timestamp);
        put_u64(&mut buf, 40, self.tx_timestamp);
        proof {
            let poll: i8 = self.poll;
            let precision: i8 = self.precision;
            assert(poll as u8 == byte_of_signed(poll as int)) by {
                lemma_signed_byte(poll);
            }
            assert(precision as u8 == byte_of_signed(precision as int)) by {
                lemma_signed_byte(precision);
            }
            lemma_lead_byte_unpacks(self.li_vn_mode@);
            lemma_be_bytes_len(self.root_delay as nat, 4);
            lemma_be_bytes_len(self.root_dispersion as nat, 4);
            lemma_be_bytes_len(self.ref_id as nat, 4);
            lemma_be_bytes_len(self.ref_timestamp as nat, 8);
            lemma_be_bytes_len(self.orig_timestamp as nat, 8);
            lemma_be_bytes_len(self.recv_timestamp as nat, 8);
            lemma_be_bytes_len(self.tx_timestamp as nat, 8);
            assert(buf@ =~= self@.wire());
        }
        buf
    }

    /// Reads a packet from the first 48 bytes of `buf`. Fewer bytes are
    /// refused; any 48 bytes are some packet.
    pub fn from_bytes(buf: &[u8]) -> (parsed: Result<Self, NtpError>)
        ensures
            match parsed {
                Ok(packet) => buf@.len() >= 48 && packet@ == PacketView::parse(buf@),
                Err(e) => buf@.len() < 48 && e is InvalidResponse,
            },
    {
        if buf.len() < PACKET_LEN {
            return Err(NtpError::InvalidResponse);
        }
        let li_vn_mode = match LiVnMode::try_from(buf[0]) {
            Ok(lead) => lead,
            Err(e) => {
                return Err(e);
            },
        };
        let poll: i8 = buf[2] as i8;
        let precision: i8 = buf[3] as i8;
        proof {
            lemma_byte_signed(buf[2]);
            lemma_byte_signed(buf[3]);
            li_vn_mode.lemma_known_by_byte(buf@[0]);
            assert forall|from: int, to: int| 0 <= from <= to <= 48 implies (#[trigger] buf@.subrange(
                from,
                to,
            )).subrange(0, to - from) == buf@.subrange(from, to) by {
                assert(buf@.subrange(from, to).subrange(0, to - from) =~= buf@.subrange(from, to));
            }
        }
        Ok(
            NtpPacket {
                li_vn_mode,
                stratum: buf[1],
                poll,
                precision,
                root_delay: read_u32(&buf[4..8]),
                root_dispersion: read_u32(&buf[8..12]),
                ref_id: read_u32(&buf[12..16]),
                ref_timestamp: read_u64(&buf[16..24]),
                orig_timestamp: read_u64(&buf[24..32]),
                recv_timestamp: read_u64(&buf[32..40]),
                tx_timestamp: read_u64(&buf[40..48]),
            },
        )
    }
}

/// Taking a leading byte apart and packing the parts gives the byte again.
pub proof fn lemma_lead_byte_unpacks(lead: u8)
    ensures
        pack(leap_of(lead as nat), version_of(lead as nat), mode_of(lead as nat)) == lead,
        leap_of(lead as nat) < 4,
        version_of(lead as nat) < 8,
        mode_of(lead as nat) < 8,
{
}

/// Packing three numbers that fit and taking the byte apart gives the
/// numbers again.
pub proof fn lemma_lead_byte_packs(leap: nat, version: nat, mode: nat)
    requires
        leap < 4,
        version < 8,
        mode < 8,
    ensures
        pack(leap, version, mode) < 0x100,
        leap_of(pack(leap, version, mode)) == leap,
        version_of(pack(leap, version, mode)) == version,
        mode_of(pack(leap, version, mode)) == mode,
{
}

/// A signed number as a byte is the number in two's complement.
proof fn lemma_signed_byte(x: i8)
    ensures
        x as u8 == byte_of_signed(x as int),
{
    assert(x >= 0 ==> x as u8 == x) by (bit_vector);
    assert(x < 0 ==> x as u8 == x + 256) by (bit_vector);
}

/// A byte as a signed number is what the byte stands for in two's
/// complement.
proof fn lemma_byte_signed(b: u8)
    ensures
        b as i8 == signed_of_byte(b),
{
    assert(b < 128 ==> b as i8 == b) by (bit_vector);
    assert(b >= 128 ==> b as i8 == b - 256) by (bit_vector);
}

} // verus!
