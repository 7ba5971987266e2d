//! What holds between encoding and decoding.

use crate::packet::endian::{
    be_bytes, lemma_be_bytes_len, lemma_be_bytes_of_value, lemma_be_value_bound,
    lemma_be_value_of_bytes, lemma_span_values,
};
use crate::packet::types::{
    byte_of_signed, lemma_lead_byte_packs, lemma_lead_byte_unpacks, pack, signed_of_byte,
    NtpPacket, PacketView,
};
use vstd::prelude::*;

verus! {

/// A packet is 48 bytes on the wire, whatever it holds.
pub proof fn lemma_wire_len(v: PacketView)
    ensures
        v.wire().len() == 48,
{
    lemma_be_bytes_len(v.root_delay, 4);
    lemma_be_bytes_len(v.root_dispersion, 4);
    lemma_be_bytes_len(v.ref_id, 4);
    lemma_be_bytes_len(v.ref_timestamp, 8);
    lemma_be_bytes_len(v.orig_timestamp, 8);
    lemma_be_bytes_len(v.recv_timestamp, 8);
    lemma_be_bytes_len(v.tx_timestamp, 8);
}

/// Where each number of a packet stands on the wire.
pub proof fn lemma_wire_layout(v: PacketView)
    ensures
        v.wire().len() == 48,
        v.wire()[0] == pack(v.leap, v.version, v.mode) as u8,
        v.wire()[1] == (v.stratum % 0x100) as u8,
        v.wire()[2] == byte_of_signed(v.poll),
        v.wire()[3] == byte_of_signed(v.precision),
        v.wire().subrange(4, 8) == be_bytes(v.root_delay, 4),
        v.wire().subrange(8, 12) == be_bytes(v.root_dispersion, 4),
        v.wire().subrange(12, 16) == be_bytes(v.ref_id, 4),
        v.wire().subrange(16, 24) == be_bytes(v.ref_timestamp, 8),
        v.wire().subrange(24, 32) == be_bytes(v.orig_timestamp, 8),
        v.wire().subrange(32, 40) == be_bytes(v.recv_timestamp, 8),
        v.wire().subrange(40, 48) == be_bytes(v.tx_timestamp, 8),
{
    lemma_wire_len(v);
    lemma_be_bytes_len(v.root_delay, 4);
    lemma_be_bytes_len(v.root_dispersion, 4);
    lemma_be_bytes_len(v.ref_id, 4);
    lemma_be_bytes_len(v.ref_timestamp, 8);
    lemma_be_bytes_len(v.orig_timestamp, 8);
    lemma_be_bytes_len(v.recv_timestamp, 8);
    lemma_be_bytes_len(v.tx_timestamp, 8);
    let w = v.wire();
    assert(w.subrange(4, 8) =~= be_bytes(v.root_delay, 4));
    assert(w.subrange(8, 12) =~= be_bytes(v.root_dispersion, 4));
    assert(w.subrange(12, 16) =~= be_bytes(v.ref_id, 4));
    assert(w.subrange(16, 24) =~= be_bytes(v.ref_timestamp, 8));
    assert(w.subrange(24, 32) =~= be_bytes(v.orig_timestamp, 8));
    assert(w.subrange(32, 40) =~= be_bytes(v.recv_timestamp, 8));
    assert(w.subrange(40, 48) =~= be_bytes(v.tx_timestamp, 8));
}

/// Decoding what was encoded gives the same numbers again, for every
/// packet whose numbers fit the widths of the wire.
pub proof fn law_parse_of_wire(v: PacketView)
    requires
        v.fits(),
    ensures
        PacketView::parse(v.wire()) == v,
{
    lemma_wire_layout(v);
    lemma_lead_byte_packs(v.leap, v.version, v.mode);
    lemma_span_values();
    lemma_be_value_of_bytes(v.root_delay, 4);
    lemma_be_value_of_bytes(v.root_dispersion, 4);
    lemma_be_value_of_bytes(v.ref_id, 4);
    lemma_be_value_of_bytes(v.ref_timestamp, 8);
    lemma_be_value_of_bytes(v.orig_timestamp, 8);
    lemma_be_value_of_bytes(v.recv_timestamp, 8);
    lemma_be_value_of_bytes(v.tx_timestamp, 8);
    assert(signed_of_byte(byte_of_signed(v.poll)) == v.poll);
    assert(signed_of_byte(byte_of_signed(v.precision)) == v.precision);
}

/// Encoding what was decoded gives the same 48 bytes again, and what is
/// decoded always fits the widths of the wire.
pub proof fn law_wire_of_parse(bytes: Seq<u8>)
    requires
        bytes.len() == 48,
    ensures
        PacketView::parse(bytes).fits(),
        PacketView::parse(bytes).wire() == bytes,
{
    let v = PacketView::parse(bytes);
    lemma_lead_byte_unpacks(bytes[0]);
    lemma_span_values();
    lemma_be_value_bound(bytes.subrange(4, 8));
    lemma_be_value_bound(bytes.subrange(8, 12));
    lemma_be_value_bound(bytes.subrange(12, 16));
    lemma_be_value_bound(bytes.subrange(16, 24));
    lemma_be_value_bound(bytes.subrange(24, 32));
    lemma_be_value_bound(bytes.subrange(32, 40));
    lemma_be_value_bound(bytes.subrange(40, 48));
    lemma_be_bytes_of_value(bytes.subrange(4, 8));
    lemma_be_bytes_of_value(bytes.subrange(8, 12));
    lemma_be_bytes_of_value(bytes.subrange(12, 16));
    lemma_be_bytes_of_value(bytes.subrange(16, 24));
    lemma_be_bytes_of_value(bytes.subrange(24, 32));
    lemma_be_bytes_of_value(bytes.subrange(32, 40));
    lemma_be_bytes_of_value(bytes.subrange(40, 48));
    assert(byte_of_signed(signed_of_byte(bytes[2])) == bytes[2]);
    assert(byte_of_signed(signed_of_byte(bytes[3])) == bytes[3]);
    lemma_wire_layout(v);
    assert(v.wire() =~= bytes) by {
        let w = v.wire();
        assert forall|i: int| 0 <= i < 48 implies w[i] == bytes[i] by {
            if 4 <= i < 8 {
                assert(w[i] == w.subrange(4, 8)[i - 4]);
                assert(bytes[i] == bytes.subrange(4, 8)[i - 4]);
            } else if 8 <= i < 12 {
                assert(w[i] == w.subrange(8, 12)[i - 8]);
                assert(bytes[i] == bytes.subrange(8, 12)[i - 8]);
            } else if 12 <= i < 16 {
                assert(w[i] == w.subrange(12, 16)[i - 12]);
                assert(bytes[i] == bytes.subrange(12, 16)[i - 12]);
            } else if 16 <= i < 24 {
                assert(w[i] == w.subrange(16, 24)[i - 16]);
                assert(bytes[i] == bytes.subrange(16, 24)[i - 16]);
            } else if 24 <= i < 32 {
                assert(w[i] == w.subrange(24, 32)[i - 24]);
                assert(bytes[i] == bytes.subrange(24, 32)[i - 24]);
            } else if 32 <= i < 40 {
                assert(w[i] == w.subrange(32, 40)[i - 32]);
                assert(bytes[i] == bytes.subrange(32, 40)[i - 32]);
            } else if 40 <= i < 48 {
                assert(w[i] == w.subrange(40, 48)[i - 40]);
                assert(bytes[i] == bytes.subrange(40, 48)[i - 40]);
            }
        }
    }
}

/// Round trip: the bytes that `to_bytes` gives for a packet are read by
/// `from_bytes` as that packet.
pub proof fn law_round_trip(packet: NtpPacket, decoded: NtpPacket)
    requires
        decoded@ == PacketView::parse(packet@.wire()),
    ensures
        packet@.wire().len() == 48,
        decoded == packet,
{
    lemma_wire_len(packet@);
    packet.lemma_view_fits();
    law_parse_of_wire(packet@);
    decoded.lemma_known_by_view(packet);
}

} // verus!
