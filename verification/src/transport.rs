//! Bit fields of a register byte.
//!
//! A field is a run of neighbouring bits of one register. Changing it takes a
//! read of the register, a merge of the new field into the byte that was
//! read, and a write of the merged byte.

use vstd::prelude::*;

verus! {

/// Whether bit `bit` of `byte` is set.
pub open spec fn bit_of(byte: u8, bit: u8) -> bool {
    (byte >> bit) & 1 == 1
}

/// The byte whose set bits are `mask_end ..= mask_start`.
pub open spec fn field_mask(mask_start: usize, mask_end: usize) -> u8 {
    (0xffu8 >> ((7 - mask_start) as u8)) & (0xffu8 << (mask_end as u8))
}

/// `current` with the field `mask_end ..= mask_start` replaced by the low
/// bits of `value`: what is written back to a register that read as
/// `current`.
pub open spec fn merged(current: u8, value: u8, mask_start: usize, mask_end: usize) -> u8 {
    let mask = field_mask(mask_start, mask_end);
    (current & !mask) | ((value << (mask_end as u8)) & mask)
}

/// The byte to write back to a register that read as `current`, so that its
/// bits `mask_end ..= mask_start` hold `value` and its other bits stay as they
/// are. Bits of `value` that do not fit the field are dropped.
pub fn i2c_write_bits(current: u8, value: u8, mask_start: usize, mask_end: usize) -> (byte: u8)
    requires
        mask_end <= mask_start < 8,
    ensures
        byte == merged(current, value, mask_start, mask_end),
{
    let above: u8 = (7 - mask_start) as u8;
    let below: u8 = mask_end as u8;
    let mask: u8 = (0xffu8 >> above) & (0xffu8 << below);
    (current & !mask) | ((value << below) & mask)
}

/// Bit by bit, a merged byte takes the bits of the field from `value`, counted
/// from the low end of the field, and every other bit from `current`.
pub proof fn lemma_merged_bits(current: u8, value: u8, mask_start: usize, mask_end: usize, bit: u8)
    requires
        mask_end <= mask_start < 8,
        bit < 8,
    ensures
        mask_end <= bit <= mask_start ==> bit_of(merged(current, value, mask_start, mask_end), bit)
            == bit_of(value, (bit - mask_end) as u8),
        !(mask_end <= bit <= mask_start) ==> bit_of(
            merged(current, value, mask_start, mask_end),
            bit,
        ) == bit_of(current, bit),
{
    let high: u8 = mask_start as u8;
    let low: u8 = mask_end as u8;
    let above: u8 = (7 - mask_start) as u8;
    assert(above == 7 - high);
    let mask: u8 = (0xffu8 >> above) & (0xffu8 << low);
    let byte: u8 = (current & !mask) | ((value << low) & mask);
    assert(byte == merged(current, value, mask_start, mask_end));
    assert(low <= bit && bit <= high ==> ((byte >> bit) & 1 == 1) == ((value >> ((bit - low) as u8))
        & 1 == 1)) by (bit_vector)
        requires
            low <= high,
            high < 8,
            bit < 8,
            above == 7 - high,
            mask == (0xffu8 >> above) & (0xffu8 << low),
            byte == (current & !mask) | ((value << low) & mask),
    ;
    assert(!(low <= bit && bit <= high) ==> ((byte >> bit) & 1 == 1) == ((current >> bit) & 1 == 1))
        by (bit_vector)
        requires
            low <= high,
            high < 8,
            bit < 8,
            above == 7 - high,
            mask == (0xffu8 >> above) & (0xffu8 << low),
            byte == (current & !mask) | ((value << low) & mask),
    ;
}

} // verus!
