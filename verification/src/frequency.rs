//! Output frequency of a PLL.
//!
//! A PLL multiplies its input clock by the feedback divider and divides it by
//! the reference divider and the two post dividers. Frequencies are carried
//! as `fugit::HertzU32`, whose raw value is the number of hertz.
use fugit::HertzU32;
use vstd::prelude::*;

verus! {

/// Makes `fugit::Rate` known as a type whose inside is not looked at.
#[verifier::external_type_specification]
#[verifier::external_body]
#[verifier::reject_recursive_types(T)]
pub struct ExRate<T, const NOM: u32, const DENOM: u32>(fugit::Rate<T, NOM, DENOM>);

/// The number of hertz that a `fugit::HertzU32` holds.
pub uninterp spec fn hertz_raw(freq: HertzU32) -> u32;

/// Calls `fugit::Rate::raw`.
///
/// Trusted: the result is the raw value that the rate holds.
#[verifier::external_body]
pub(crate) fn hertz_to_raw(freq: &HertzU32) -> (hz: u32)
    ensures
        hz == hertz_raw(*freq),
{
    freq.raw()
}

/// Calls `fugit::Rate::from_raw`.
///
/// Trusted: the rate made holds `hz` as its raw value.
#[verifier::external_body]
pub(crate) fn hertz_from_raw(hz: u32) -> (freq: HertzU32)
    ensures
        hertz_raw(freq) == hz,
{
    HertzU32::from_raw(hz)
}

/// Whether the output frequency can be computed: no divider is zero and the
/// input clock times the feedback divider fits in 32 bits.
pub open spec fn pll_output_defined(
    clki_hz: u32,
    fbdiv: u16,
    refdiv: u8,
    postdiv1: u8,
    postdiv2: u8,
) -> bool {
    &&& refdiv != 0
    &&& postdiv1 != 0
    &&& postdiv2 != 0
    &&& clki_hz * fbdiv <= u32::MAX
}

/// The output frequency in hertz: the input clock times the feedback
/// divider, over the product of the other three dividers, rounded down.
pub open spec fn spec_pll_output_hz(
    clki_hz: u32,
    fbdiv: u16,
    refdiv: u8,
    postdiv1: u8,
    postdiv2: u8,
) -> int {
    (clki_hz * fbdiv) / (refdiv * postdiv1 * postdiv2)
}

/// The product of the three dividers is positive where none is zero, and
/// fits in 32 bits.
proof fn lemma_divider_product(refdiv: u8, postdiv1: u8, postdiv2: u8)
    ensures
        0 <= refdiv * postdiv1 <= 0xfe01,
        0 <= refdiv * postdiv1 * postdiv2 <= 0xfd_02ff,
        refdiv != 0 && postdiv1 != 0 && postdiv2 != 0 ==> refdiv * postdiv1 * postdiv2 > 0,
{
    let r = refdiv as int;
    let p = postdiv1 as int;
    let q = postdiv2 as int;
    assert(0 <= r * p <= 255 * 255) by (nonlinear_arith)
        requires
            0 <= r <= 255,
            0 <= p <= 255,
    ;
    let rp = r * p;
    assert(0 <= rp * q <= 0xfe01 * 255) by (nonlinear_arith)
        requires
            0 <= rp <= 0xfe01,
            0 <= q <= 255,
    ;
    assert(r != 0 && p != 0 && q != 0 ==> r * p * q > 0) by (nonlinear_arith)
        requires
            0 <= r,
            0 <= p,
            0 <= q,
    ;
}

/// Output frequency of a PLL in hertz.
pub fn pll_output_hz(clki_hz: u32, fbdiv: u16, refdiv: u8, postdiv1: u8, postdiv2: u8) -> (hz: u32)
    requires
        pll_output_defined(clki_hz, fbdiv, refdiv, postdiv1, postdiv2),
    ensures
        hz == spec_pll_output_hz(clki_hz, fbdiv, refdiv, postdiv1, postdiv2),
{
    proof {
        lemma_divider_product(refdiv, postdiv1, postdiv2);
    }
    clki_hz * (fbdiv as u32) / ((refdiv as u32) * (postdiv1 as u32) * (postdiv2 as u32))
}

/// Output frequency of a PLL in hertz, or `None` where it cannot be computed.
pub fn checked_pll_output_hz(
    clki_hz: u32,
    fbdiv: u16,
    refdiv: u8,
    postdiv1: u8,
    postdiv2: u8,
) -> (hz: Option<u32>)
    ensures
        hz is Some <==> pll_output_defined(clki_hz, fbdiv, refdiv, postdiv1, postdiv2),
        hz matches Some(v) ==> v == spec_pll_output_hz(clki_hz, fbdiv, refdiv, postdiv1, postdiv2),
{
    if refdiv == 0 || postdiv1 == 0 || postdiv2 == 0 {
        return None;
    }
    match clki_hz.checked_mul(fbdiv as u32) {
        Some(_) => Some(pll_output_hz(clki_hz, fbdiv, refdiv, postdiv1, postdiv2)),
        None => None,
    }
}

} // verus!
