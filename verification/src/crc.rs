//! Frame checksums.
//!
//! Short control frames end in a CRC5, job frames in a CRC16. Both are
//! computed by the `crc_any` crate; their values are known to the verifier
//! only through [`crc_u8_of`] and [`crc16_ccitt_false_of`].
use crc_any::{CRCu16, CRCu8};
use vstd::arithmetic::power2::{lemma2_to64, pow2};
use vstd::prelude::*;

verus! {

/// The checksum that a `crc_any::CRCu8` built from the five parameters holds
/// after digesting `data`.
pub uninterp spec fn crc_u8_of(
    poly: u8,
    bits: u8,
    initial: u8,
    final_xor: u8,
    reflect: bool,
    data: Seq<u8>,
) -> u8;

/// The checksum that `crc_any::CRCu16::crc16ccitt_false()` holds after
/// digesting `data`.
pub uninterp spec fn crc16_ccitt_false_of(data: Seq<u8>) -> u16;

/// The CRC5 of the protocol: polynomial `0x05`, five bits wide, initial value
/// `0x1F`, no final XOR, not reflected.
pub open spec fn spec_crc5(data: Seq<u8>) -> u8 {
    crc_u8_of(0x05, 5, 0x1f, 0x00, false, data)
}

/// The CRC16 of the protocol: CRC-16/CCITT-FALSE.
pub open spec fn spec_crc16(data: Seq<u8>) -> u16 {
    crc16_ccitt_false_of(data)
}

/// Runs `CRCu8::create_crc`, `digest` and `get_crc` of `crc_any` in turn.
///
/// Trusted: the result is a function of the arguments alone, and `get_crc`
/// masks it to the low `bits` bits. `create_crc` asserts `0 < bits <= 8`.
#[verifier::external_body]
fn crc_u8(poly: u8, bits: u8, initial: u8, final_xor: u8, reflect: bool, data: &[u8]) -> (crc: u8)
    requires
        0 < bits <= 8,
    ensures
        crc == crc_u8_of(poly, bits, initial, final_xor, reflect, data@),
        (crc as nat) < pow2(bits as nat),
{
    let mut crc = CRCu8::create_crc(poly, bits, initial, final_xor, reflect);
    crc.digest(data);
    crc.get_crc()
}

/// Runs `CRCu16::crc16ccitt_false`, `digest` and `get_crc` of `crc_any` in
/// turn.
///
/// Trusted: the result is a function of the digested bytes alone.
#[verifier::external_body]
fn crc16_ccitt_false(data: &[u8]) -> (crc: u16)
    ensures
        crc == crc16_ccitt_false_of(data@),
{
    let mut crc = CRCu16::crc16ccitt_false();
    crc.digest(data);
    crc.get_crc()
}

/// CRC5 of `bytes`, right-aligned in a byte.
pub fn crc5(bytes: &[u8]) -> (crc: u8)
    ensures
        crc == spec_crc5(bytes@),
        crc < 32,
{
    proof {
        lemma2_to64();
    }
    crc_u8(0x05, 5, 0x1f, 0x00, false, bytes)
}

/// CRC16 of `bytes`.
pub fn crc16(bytes: &[u8]) -> (crc: u16)
    ensures
        crc == spec_crc16(bytes@),
{
    crc16_ccitt_false(bytes)
}

} // verus!
