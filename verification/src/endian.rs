//! Scalars on the wire.
//!
//! Register values, nonces and the CRC16 travel big-endian; the three scalar
//! fields of a job travel little-endian.
use vstd::prelude::*;

verus! {

/// The four bytes of `value`, most significant first.
pub open spec fn spec_be_bytes(value: u32) -> Seq<u8> {
    seq![
        (value / 0x100_0000) as u8,
        (value / 0x1_0000 % 0x100) as u8,
        (value / 0x100 % 0x100) as u8,
        (value % 0x100) as u8,
    ]
}

/// The four bytes of `value`, least significant first.
pub open spec fn spec_le_bytes(value: u32) -> Seq<u8> {
    seq![
        (value % 0x100) as u8,
        (value / 0x100 % 0x100) as u8,
        (value / 0x1_0000 % 0x100) as u8,
        (value / 0x100_0000) as u8,
    ]
}

/// The two bytes of `value`, most significant first.
pub open spec fn spec_be_bytes_u16(value: u16) -> Seq<u8> {
    seq![(value / 0x100) as u8, (value % 0x100) as u8]
}

/// The number that four bytes spell, most significant first.
pub open spec fn spec_be_u32(bytes: Seq<u8>) -> u32
    recommends
        bytes.len() == 4,
{
    (bytes[0] * 0x100_0000 + bytes[1] * 0x1_0000 + bytes[2] * 0x100 + bytes[3]) as u32
}

/// A number is what its big-endian bytes spell.
pub proof fn lemma_be_bytes_spell(value: u32)
    ensures
        spec_be_u32(spec_be_bytes(value)) == value,
{
    let q1 = value / 0x100;
    let q2 = value / 0x1_0000;
    let q3 = value / 0x100_0000;
    assert(q2 == q1 / 0x100);
    assert(q3 == q2 / 0x100);
    assert(value == q3 * 0x100_0000 + (q2 % 0x100) * 0x1_0000 + (q1 % 0x100) * 0x100 + value
        % 0x100);
}

/// Four bytes are the big-endian bytes of the number that they spell.
pub proof fn lemma_be_spelled_bytes(bytes: Seq<u8>)
    requires
        bytes.len() == 4,
    ensures
        spec_be_bytes(spec_be_u32(bytes)) == bytes,
{
    let value = spec_be_u32(bytes);
    assert(value == bytes[0] * 0x100_0000 + bytes[1] * 0x1_0000 + bytes[2] * 0x100 + bytes[3]);
    assert(value / 0x100 == bytes[0] * 0x1_0000 + bytes[1] * 0x100 + bytes[2]);
    assert(value / 0x1_0000 == bytes[0] * 0x100 + bytes[1]);
    assert(value / 0x100_0000 == bytes[0]);
    assert(spec_be_bytes(value) =~= bytes);
}

/// The little-endian bytes of a number are its big-endian bytes in reverse.
pub proof fn lemma_le_is_be_reversed(value: u32)
    ensures
        spec_le_bytes(value) == spec_be_bytes(value).reverse(),
{
    assert(spec_le_bytes(value) =~= spec_be_bytes(value).reverse());
}

/// The four bytes of `value`, most significant first.
pub fn be_bytes(value: u32) -> (bytes: [u8; 4])
    ensures
        bytes@ == spec_be_bytes(value),
{
    let bytes = [
        (value / 0x100_0000) as u8,
        (value / 0x1_0000 % 0x100) as u8,
        (value / 0x100 % 0x100) as u8,
        (value % 0x100) as u8,
    ];
    assert(bytes@ =~= spec_be_bytes(value));
    bytes
}

/// The four bytes of `value`, least significant first.
pub fn le_bytes(value: u32) -> (bytes: [u8; 4])
    ensures
        bytes@ == spec_le_bytes(value),
{
    let bytes = [
        (value % 0x100) as u8,
        (value / 0x100 % 0x100) as u8,
        (value / 0x1_0000 % 0x100) as u8,
        (value / 0x100_0000) as u8,
    ];
    assert(bytes@ =~= spec_le_bytes(value));
    bytes
}

/// The two bytes of `value`, most significant first.
pub fn be_bytes_u16(value: u16) -> (bytes: [u8; 2])
    ensures
        bytes@ == spec_be_bytes_u16(value),
{
    let bytes = [(value / 0x100) as u8, (value % 0x100) as u8];
    assert(bytes@ =~= spec_be_bytes_u16(value));
    bytes
}

/// The number that the four bytes of `bytes` from `at` on spell, most
/// significant first.
pub fn be_u32(bytes: &[u8], at: usize) -> (value: u32)
    requires
        at + 4 <= bytes@.len(),
    ensures
        value == spec_be_u32(bytes@.subrange(at as int, at + 4)),
{
    (bytes[at] as u32) * 0x100_0000 + (bytes[at + 1] as u32) * 0x1_0000 + (bytes[at + 2] as u32)
        * 0x100 + (bytes[at + 3] as u32)
}

} // verus!
