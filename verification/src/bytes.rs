//! Fixed-width integers on the wire.

use vstd::bytes::{spec_u64_from_le_bytes, spec_u64_to_le_bytes};
use vstd::prelude::*;

verus! {

/// The two bytes of a 16-bit number, low byte first.
pub open spec fn le16(n: u16) -> Seq<u8> {
    seq![(n % 256) as u8, (n / 256) as u8]
}

/// The 16-bit number whose low byte is `low` and whose high byte is `high`.
pub open spec fn join16(low: u8, high: u8) -> u16 {
    (low + 256 * high) as u16
}

/// The two bytes of a 16-bit number, high byte first.
pub open spec fn be16(n: u16) -> Seq<u8> {
    seq![(n / 256) as u8, (n % 256) as u8]
}

/// The eight bytes of a 64-bit number, low byte first.
pub open spec fn le64(n: u64) -> Seq<u8> {
    spec_u64_to_le_bytes(n)
}

/// The 64-bit number that eight bytes spell, low byte first.
pub open spec fn from_le64(bytes: Seq<u8>) -> u64 {
    spec_u64_from_le_bytes(bytes)
}

/// Splitting a 16-bit number into its bytes and joining them gives the number back.
pub proof fn join16_of_split(n: u16)
    ensures
        join16(le16(n)[0], le16(n)[1]) == n,
        join16(be16(n)[1], be16(n)[0]) == n,
{
}

/// Eight bytes are written for a 64-bit number, and reading them gives the number back.
pub proof fn le64_round_trip(n: u64)
    ensures
        le64(n).len() == 8,
        from_le64(le64(n)) == n,
{
    vstd::bytes::lemma_auto_spec_u64_to_from_le_bytes();
}

/// Joins two bytes to a 16-bit number.
pub fn u16_of(low: u8, high: u8) -> (n: u16)
    ensures
        n == join16(low, high),
{
    low as u16 + 256 * high as u16
}

/// Appends a 16-bit number, low byte first.
pub fn put_u16_le(out: &mut Vec<u8>, n: u16)
    ensures
        final(out)@ == old(out)@ + le16(n),
{
    out.push((n % 256) as u8);
    out.push((n / 256) as u8);
    assert(out@ =~= old(out)@ + le16(n));
}

/// Appends a 16-bit number, high byte first.
pub fn put_u16_be(out: &mut Vec<u8>, n: u16)
    ensures
        final(out)@ == old(out)@ + be16(n),
{
    out.push((n / 256) as u8);
    out.push((n % 256) as u8);
    assert(out@ =~= old(out)@ + be16(n));
}

/// Appends a run of bytes.
pub fn put_bytes(out: &mut Vec<u8>, bytes: &[u8])
    ensures
        final(out)@ == old(out)@ + bytes@,
{
    out.extend_from_slice(bytes);
    assert(out@ =~= old(out)@ + bytes@);
}

/// Appends a 64-bit number, low byte first.
pub fn put_u64_le(out: &mut Vec<u8>, n: u64)
    ensures
        final(out)@ == old(out)@ + le64(n),
{
    let bytes: Vec<u8> = vstd::bytes::u64_to_le_bytes(n);
    put_bytes(out, bytes.as_slice());
}

} // verus!
