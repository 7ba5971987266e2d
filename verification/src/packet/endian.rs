//! Numbers in network byte order: what a run of bytes spells, and the
//! calls that read and write such runs.

use byteorder::{BigEndian, ByteOrder};
use vstd::arithmetic::div_mod::{lemma_breakdown, lemma_fundamental_div_mod};
use vstd::prelude::*;

verus! {

/// How many different numbers `n` bytes can spell: 256 to the power `n`.
pub open spec fn span(n: nat) -> nat
    decreases n,
{
    if n == 0 {
        1
    } else {
        256 * span((n - 1) as nat)
    }
}

/// The number that `b` spells, most significant byte first.
pub open spec fn be_value(b: Seq<u8>) -> nat
    decreases b.len(),
{
    if b.len() == 0 {
        0
    } else {
        be_value(b.drop_last()) * 256 + b.last() as nat
    }
}

/// The `n` bytes that spell `v`, most significant byte first. What of `v`
/// does not fit into `n` bytes is dropped from the top.
pub open spec fn be_bytes(v: nat, n: nat) -> Seq<u8>
    decreases n,
{
    if n == 0 {
        Seq::empty()
    } else {
        be_bytes(v / 256, (n - 1) as nat).push((v % 256) as u8)
    }
}

/// Four bytes span the 32-bit numbers, eight bytes the 64-bit numbers.
pub proof fn lemma_span_values()
    ensures
        span(4) == 0x1_0000_0000,
        span(8) == 0x1_0000_0000_0000_0000,
{
    reveal_with_fuel(span, 9);
}

/// `be_bytes` gives exactly as many bytes as it was asked for.
pub proof fn lemma_be_bytes_len(v: nat, n: nat)
    ensures
        be_bytes(v, n).len() == n,
    decreases n,
{
    if n > 0 {
        lemma_be_bytes_len(v / 256, (n - 1) as nat);
    }
}

/// What a run of bytes spells is below the span of its length.
pub proof fn lemma_be_value_bound(b: Seq<u8>)
    ensures
        be_value(b) < span(b.len()),
    decreases b.len(),
{
    if b.len() > 0 {
        lemma_be_value_bound(b.drop_last());
    }
}

/// Reading back what was written gives the number again, less what did
/// not fit.
pub proof fn lemma_be_value_of_bytes(v: nat, n: nat)
    ensures
        be_value(be_bytes(v, n)) == v % span(n),
    decreases n,
{
    if n == 0 {
    } else {
        let rest: nat = (n - 1) as nat;
        let head = be_bytes(v / 256, rest);
        lemma_be_value_of_bytes(v / 256, rest);
        assert(be_bytes(v, n).drop_last() =~= head);
        assert(span(rest) > 0) by {
            lemma_span_positive(rest);
        }
        lemma_breakdown(v as int, 256, span(rest) as int);
        assert(span(n) == 256 * span(rest));
    }
}

/// Writing what was read gives the same bytes again.
pub proof fn lemma_be_bytes_of_value(b: Seq<u8>)
    ensures
        be_bytes(be_value(b), b.len()) == b,
    decreases b.len(),
{
    if b.len() == 0 {
        assert(be_bytes(be_value(b), 0) =~= b);
    } else {
        let front = b.drop_last();
        let v: nat = be_value(b);
        lemma_be_bytes_of_value(front);
        lemma_fundamental_div_mod(v as int, 256);
        assert(v / 256 == be_value(front) && v % 256 == b.last()) by {
            lemma_div_mod_unique(v as int, be_value(front) as int, b.last() as int);
        }
        assert(be_bytes(v, b.len()) =~= front.push(b.last()));
        assert(front.push(b.last()) =~= b);
    }
}

/// `byteorder::BigEndian::read_u32`: the number that the first four bytes
/// of `buf` spell, most significant byte first. It panics on fewer than
/// four bytes, so they are required.
#[verifier::external_body]
pub(crate) fn read_u32(buf: &[u8]) -> (n: u32)
    requires
        buf@.len() >= 4,
    ensures
        n == be_value(buf@.subrange(0, 4)),
{
    BigEndian::read_u32(buf)
}

/// `byteorder::BigEndian::read_u64`: the number that the first eight bytes
/// of `buf` spell, most significant byte first. It panics on fewer than
/// eight bytes, so they are required.
#[verifier::external_body]
pub(crate) fn read_u64(buf: &[u8]) -> (n: u64)
    requires
        buf@.len() >= 8,
    ensures
        n == be_value(buf@.subrange(0, 8)),
{
    BigEndian::read_u64(buf)
}

/// `byteorder::BigEndian::write_u32`: the first four bytes of `buf` become
/// those that spell `n`, most significant byte first, and the rest of
/// `buf` stays as it was. It panics on fewer than four bytes, so they are
/// required.
#[verifier::external_body]
pub(crate) fn write_u32(buf: &mut [u8], n: u32)
    requires
        old(buf)@.len() >= 4,
    ensures
        final(buf)@ == be_bytes(n as nat, 4) + old(buf)@.subrange(4, old(buf)@.len() as int),
{
    BigEndian::write_u32(buf, n)
}

/// `byteorder::BigEndian::write_u64`: the first eight bytes of `buf`
/// become those that spell `n`, most significant byte first, and the rest
/// of `buf` stays as it was. It panics on fewer than eight bytes, so they
/// are required.
#[verifier::external_body]
pub(crate) fn write_u64(buf: &mut [u8], n: u64)
    requires
        old(buf)@.len() >= 8,
    ensures
        final(buf)@ == be_bytes(n as nat, 8) + old(buf)@.subrange(8, old(buf)@.len() as int),
{
    BigEndian::write_u64(buf, n)
}

proof fn lemma_span_positive(n: nat)
    ensures
        span(n) > 0,
    decreases n,
{
    if n > 0 {
        lemma_span_positive((n - 1) as nat);
    }
}

proof fn lemma_div_mod_unique(v: int, q: int, r: int)
    requires
        v == q * 256 + r,
        0 <= r < 256,
    ensures
        v / 256 == q,
        v % 256 == r,
{
}

} // verus!
