//! Byte orders of the integers on the wire.

use vstd::prelude::*;

verus! {

/// The low byte of `n`.
pub open spec fn byte(n: int) -> u8 {
    (n % 256) as u8
}

/// `n` as two bytes, least significant first.
pub open spec fn le16(n: int) -> Seq<u8> {
    seq![byte(n), byte(n / 256)]
}

/// `n` as two bytes, most significant first.
pub open spec fn be16(n: int) -> Seq<u8> {
    seq![byte(n / 256), byte(n)]
}

/// `n` as four bytes, most significant first.
pub open spec fn be32(n: int) -> Seq<u8> {
    be16(n / 65536) + be16(n)
}

/// `n` as eight bytes, most significant first.
pub open spec fn be64(n: int) -> Seq<u8> {
    be32(n / 0x1_0000_0000) + be32(n)
}

/// The number that two bytes hold, least significant first.
pub open spec fn le16_value(low: u8, high: u8) -> int {
    low + 256 * high
}

/// Reading two bytes back gives the number that was written.
pub proof fn lemma_le16_round_trip(n: int)
    requires
        0 <= n < 65536,
    ensures
        le16_value(le16(n)[0], le16(n)[1]) == n,
{
}

/// Writing the number that two bytes hold gives the two bytes back.
pub proof fn lemma_le16_of_value(low: u8, high: u8)
    ensures
        le16(le16_value(low, high)) == seq![low, high],
{
    assert(le16(le16_value(low, high)) =~= seq![low, high]);
}

/// Appends `n`, least significant byte first.
pub fn push_le16(out: &mut Vec<u8>, n: u16)
    ensures
        final(out)@ == old(out)@ + le16(n as int),
{
    out.push((n % 256) as u8);
    out.push((n / 256) as u8);
    assert(out@ =~= old(out)@ + le16(n as int));
}

/// The number that two bytes hold, least significant first.
pub fn read_le16(low: u8, high: u8) -> (n: u16)
    ensures
        n == le16_value(low, high),
{
    low as u16 + 256 * (high as u16)
}

/// Appends a run of bytes.
pub fn push_all(out: &mut Vec<u8>, data: &[u8])
    ensures
        final(out)@ == old(out)@ + data@,
{
    out.extend_from_slice(data);
    assert(out@ =~= old(out)@ + data@);
}

/// The contents of a list of byte strings.
pub open spec fn views(list: Seq<Vec<u8>>) -> Seq<Seq<u8>> {
    Seq::new(list.len(), |i: int| list[i]@)
}

} // verus!
