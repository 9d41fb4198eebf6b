//! Bit fields of raw register values.
//!
//! A field is a mask and the offset of its lowest bit. Reading a field keeps
//! the masked bits and moves them down; writing it clears the masked bits and
//! puts the new value, moved up and masked, in their place. A flag is a field
//! that is tested, raised and lowered as a whole.
use vstd::arithmetic::power2::pow2;
use vstd::bits::{lemma_u32_shr_is_div, lemma_u8_shr_is_div};
use vstd::prelude::*;

verus! {

/// The field of `raw` under `mask`, moved down by `offset`.
pub open spec fn field_u32(raw: u32, mask: u32, offset: u8) -> u32 {
    (raw & mask) >> (offset as u32)
}

/// `raw` with the field under `mask` replaced by `value`, truncated to the field.
pub open spec fn with_field_u32(raw: u32, mask: u32, offset: u8, value: u32) -> u32 {
    (raw & !mask) | ((value << (offset as u32)) & mask)
}

/// Whether every bit of `mask` is set in `raw`.
pub open spec fn flag_u32(raw: u32, mask: u32) -> bool {
    raw & mask == mask
}

/// `raw` with every bit of `mask` set.
pub open spec fn with_flag_u32(raw: u32, mask: u32) -> u32 {
    raw | mask
}

/// `raw` with every bit of `mask` cleared.
pub open spec fn without_flag_u32(raw: u32, mask: u32) -> u32 {
    raw & !mask
}

/// The field of `raw` under `mask`, moved down by `offset`.
pub open spec fn field_u8(raw: u8, mask: u8, offset: u8) -> u8 {
    (raw & mask) >> offset
}

/// `raw` with the field under `mask` replaced by `value`, truncated to the field.
pub open spec fn with_field_u8(raw: u8, mask: u8, offset: u8, value: u8) -> u8 {
    (raw & !mask) | ((value << offset) & mask)
}

/// Whether every bit of `mask` is set in `raw`.
pub open spec fn flag_u8(raw: u8, mask: u8) -> bool {
    raw & mask == mask
}

/// `raw` with every bit of `mask` set.
pub open spec fn with_flag_u8(raw: u8, mask: u8) -> u8 {
    raw | mask
}

/// `raw` with every bit of `mask` cleared.
pub open spec fn without_flag_u8(raw: u8, mask: u8) -> u8 {
    raw & !mask
}

/// A field just written reads back as the value written, truncated to the
/// width of the field.
pub proof fn lemma_field_read_back_u32(raw: u32, mask: u32, offset: u8, value: u32)
    by (bit_vector)
    requires
        offset < 32,
    ensures
        field_u32(with_field_u32(raw, mask, offset, value), mask, offset) == value & (mask >> (
        offset as u32)),
{
}

/// Writing a field changes no bit outside its mask.
pub proof fn lemma_field_keeps_rest_u32(raw: u32, mask: u32, offset: u8, value: u32)
    by (bit_vector)
    ensures
        with_field_u32(raw, mask, offset, value) & !mask == raw & !mask,
{
}

/// Of two writes to one field the later one wins; writing the same value
/// twice is writing it once.
pub proof fn lemma_field_last_write_wins_u32(
    raw: u32,
    mask: u32,
    offset: u8,
    first: u32,
    second: u32,
)
    by (bit_vector)
    ensures
        with_field_u32(with_field_u32(raw, mask, offset, first), mask, offset, second)
            == with_field_u32(raw, mask, offset, second),
{
}

/// Writing a field leaves every field with a disjoint mask as it was.
pub proof fn lemma_field_leaves_others_u32(
    raw: u32,
    mask: u32,
    offset: u8,
    value: u32,
    other_mask: u32,
    other_offset: u8,
)
    by (bit_vector)
    requires
        mask & other_mask == 0,
    ensures
        field_u32(with_field_u32(raw, mask, offset, value), other_mask, other_offset) == field_u32(
            raw,
            other_mask,
            other_offset,
        ),
        flag_u32(with_field_u32(raw, mask, offset, value), other_mask) == flag_u32(raw, other_mask),
{
}

/// A field is never larger than its mask moved down.
pub proof fn lemma_field_bound_u32(raw: u32, mask: u32, offset: u8)
    by (bit_vector)
    requires
        offset < 32,
    ensures
        field_u32(raw, mask, offset) <= mask >> (offset as u32),
{
}

/// A raised flag reads as set, a lowered one as clear, and neither touches a
/// bit outside the mask.
pub proof fn lemma_flag_u32(raw: u32, mask: u32)
    by (bit_vector)
    ensures
        flag_u32(with_flag_u32(raw, mask), mask),
        mask != 0 ==> !flag_u32(without_flag_u32(raw, mask), mask),
        with_flag_u32(raw, mask) & !mask == raw & !mask,
        without_flag_u32(raw, mask) & !mask == raw & !mask,
        flag_u32(raw, mask) ==> with_flag_u32(raw, mask) == raw,
        raw & mask == 0 ==> without_flag_u32(raw, mask) == raw,
{
}

/// A field just written reads back as the value written, truncated to the
/// width of the field.
pub proof fn lemma_field_read_back_u8(raw: u8, mask: u8, offset: u8, value: u8)
    by (bit_vector)
    requires
        offset < 8,
    ensures
        field_u8(with_field_u8(raw, mask, offset, value), mask, offset) == value & (mask >> offset),
{
}

/// Writing a field changes no bit outside its mask.
pub proof fn lemma_field_keeps_rest_u8(raw: u8, mask: u8, offset: u8, value: u8)
    by (bit_vector)
    ensures
        with_field_u8(raw, mask, offset, value) & !mask == raw & !mask,
{
}

/// Of two writes to one field the later one wins; writing the same value
/// twice is writing it once.
pub proof fn lemma_field_last_write_wins_u8(raw: u8, mask: u8, offset: u8, first: u8, second: u8)
    by (bit_vector)
    ensures
        with_field_u8(with_field_u8(raw, mask, offset, first), mask, offset, second)
            == with_field_u8(raw, mask, offset, second),
{
}

/// Writing a field leaves every field with a disjoint mask as it was.
pub proof fn lemma_field_leaves_others_u8(
    raw: u8,
    mask: u8,
    offset: u8,
    value: u8,
    other_mask: u8,
    other_offset: u8,
)
    by (bit_vector)
    requires
        mask & other_mask == 0,
    ensures
        field_u8(with_field_u8(raw, mask, offset, value), other_mask, other_offset) == field_u8(
            raw,
            other_mask,
            other_offset,
        ),
        flag_u8(with_field_u8(raw, mask, offset, value), other_mask) == flag_u8(raw, other_mask),
{
}

/// A field is never larger than its mask moved down.
pub proof fn lemma_field_bound_u8(raw: u8, mask: u8, offset: u8)
    by (bit_vector)
    requires
        offset < 8,
    ensures
        field_u8(raw, mask, offset) <= mask >> offset,
{
}

/// A raised flag reads as set, a lowered one as clear, and neither touches a
/// bit outside the mask.
pub proof fn lemma_flag_u8(raw: u8, mask: u8)
    by (bit_vector)
    ensures
        flag_u8(with_flag_u8(raw, mask), mask),
        mask != 0 ==> !flag_u8(without_flag_u8(raw, mask), mask),
        with_flag_u8(raw, mask) & !mask == raw & !mask,
        without_flag_u8(raw, mask) & !mask == raw & !mask,
        flag_u8(raw, mask) ==> with_flag_u8(raw, mask) == raw,
        raw & mask == 0 ==> without_flag_u8(raw, mask) == raw,
{
}

/// Reads the field of `raw` under `mask`.
pub fn get_field_u32(raw: u32, mask: u32, offset: u8) -> (value: u32)
    requires
        offset < 32,
    ensures
        value == field_u32(raw, mask, offset),
        value <= mask as nat / pow2(offset as nat),
{
    proof {
        lemma_field_bound_u32(raw, mask, offset);
        lemma_u32_shr_is_div(mask, offset as u32);
    }
    (raw & mask) >> (offset as u32)
}

/// Writes `value` into the field of `raw` under `mask`.
pub fn set_field_u32(raw: u32, mask: u32, offset: u8, value: u32) -> (updated: u32)
    requires
        offset < 32,
    ensures
        updated == with_field_u32(raw, mask, offset, value),
        field_u32(updated, mask, offset) == value & ((mask as nat / pow2(offset as nat)) as u32),
        updated & !mask == raw & !mask,
{
    proof {
        lemma_field_read_back_u32(raw, mask, offset, value);
        lemma_field_keeps_rest_u32(raw, mask, offset, value);
        lemma_u32_shr_is_div(mask, offset as u32);
    }
    (raw & !mask) | ((value << (offset as u32)) & mask)
}

/// Reads the field of `raw` under `mask`.
pub fn get_field_u8(raw: u8, mask: u8, offset: u8) -> (value: u8)
    requires
        offset < 8,
    ensures
        value == field_u8(raw, mask, offset),
        value <= mask as nat / pow2(offset as nat),
{
    proof {
        lemma_field_bound_u8(raw, mask, offset);
        lemma_u8_shr_is_div(mask, offset);
    }
    (raw & mask) >> offset
}

/// Writes `value` into the field of `raw` under `mask`.
pub fn set_field_u8(raw: u8, mask: u8, offset: u8, value: u8) -> (updated: u8)
    requires
        offset < 8,
    ensures
        updated == with_field_u8(raw, mask, offset, value),
        field_u8(updated, mask, offset) == value & ((mask as nat / pow2(offset as nat)) as u8),
        updated & !mask == raw & !mask,
{
    proof {
        lemma_field_read_back_u8(raw, mask, offset, value);
        lemma_field_keeps_rest_u8(raw, mask, offset, value);
        lemma_u8_shr_is_div(mask, offset);
    }
    (raw & !mask) | ((value << offset) & mask)
}

} // verus!
