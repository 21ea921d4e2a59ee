//! Bit-field extraction from 32-bit words.

use vstd::prelude::*;

verus! {

/// A word with the low `width` bits set and all others clear.
pub open spec fn low_mask(width: u32) -> u32 {
    if width >= 32 {
        0xffff_ffffu32
    } else {
        !(0xffff_ffffu32 << width)
    }
}

/// The bits `lo..=hi` of `word`, moved down to bit 0 and zero-extended.
pub open spec fn bits_unsigned(word: u32, lo: u32, hi: u32) -> u32 {
    (word >> lo) & low_mask((hi - lo + 1) as u32)
}

/// Reads the low `width` bits of `value` as a two's complement number of that
/// width and widens it to 32 bits: when bit `width - 1` is set, every bit
/// above it is set too.
pub open spec fn sign_extend(value: u32, width: u32) -> u32 {
    if 0 < width < 32 && (value >> ((width - 1) as u32)) & 1 == 1 {
        value | !low_mask(width)
    } else {
        value
    }
}

/// The bits `lo..=hi` of `word`, moved down to bit 0 and sign-extended from
/// the topmost bit of the field.
pub open spec fn bits_signed(word: u32, lo: u32, hi: u32) -> u32 {
    sign_extend(bits_unsigned(word, lo, hi), (hi - lo + 1) as u32)
}

/// `word` with the bits `lo..=hi` replaced by the low bits of `field`.
pub open spec fn with_bits(word: u32, lo: u32, hi: u32, field: u32) -> u32 {
    let mask = low_mask((hi - lo + 1) as u32);
    (word & !(mask << lo)) | ((field & mask) << lo)
}

/// The number that a 32-bit pattern stands for in two's complement.
pub open spec fn signed_value(x: u32) -> int {
    if x < 0x8000_0000 {
        x as int
    } else {
        x as int - 0x1_0000_0000
    }
}

/// The sum of two words modulo 2^32.
pub open spec fn wrapping_sum(a: u32, b: u32) -> u32 {
    ((a + b) % 0x1_0000_0000) as u32
}

/// The difference of two words modulo 2^32.
pub open spec fn wrapping_difference(a: u32, b: u32) -> u32 {
    ((a - b) % 0x1_0000_0000) as u32
}

/// `value` shifted right by `amount` bits with its sign bit copied into the
/// vacated positions.
pub open spec fn arithmetic_shift_right(value: u32, amount: u32) -> u32 {
    sign_extend(value >> amount, (32 - amount) as u32)
}

/// Adds two words modulo 2^32.
pub fn add_wrapping(a: u32, b: u32) -> (sum: u32)
    ensures
        sum == wrapping_sum(a, b),
{
    a.wrapping_add(b)
}

/// Subtracts two words modulo 2^32.
pub fn sub_wrapping(a: u32, b: u32) -> (difference: u32)
    ensures
        difference == wrapping_difference(a, b),
{
    a.wrapping_sub(b)
}

/// Shifts `value` right by `amount` bits, keeping its sign.
pub fn shift_right_arithmetic(value: u32, amount: u32) -> (shifted: u32)
    requires
        amount < 32,
    ensures
        shifted == arithmetic_shift_right(value, amount),
{
    extend_sign(value >> amount, 32 - amount)
}

/// Extracts the inclusive bit range `lo..=hi` of `word`, zero-extended.
pub fn get_bits(word: u32, lo: u32, hi: u32) -> (field: u32)
    requires
        lo <= hi <= 31,
    ensures
        field == bits_unsigned(word, lo, hi),
{
    let width: u32 = hi - lo + 1;
    let mask: u32 = if width >= 32 {
        0xffff_ffffu32
    } else {
        !(0xffff_ffffu32 << width)
    };
    (word >> lo) & mask
}

/// Widens the two's complement number held in the low `width` bits of
/// `value` to 32 bits.
pub fn extend_sign(value: u32, width: u32) -> (extended: u32)
    requires
        1 <= width <= 32,
    ensures
        extended == sign_extend(value, width),
{
    if width < 32 && (value >> (width - 1)) & 1 == 1 {
        assert(!(!(0xffff_ffffu32 << width)) == 0xffff_ffffu32 << width) by (bit_vector);
        value | (0xffff_ffffu32 << width)
    } else {
        value
    }
}

/// Extracts the inclusive bit range `lo..=hi` of `word` and sign-extends it
/// from the topmost bit of the field; the result is the 32-bit pattern.
pub fn get_bits_extended(word: u32, lo: u32, hi: u32) -> (field: u32)
    requires
        lo <= hi <= 31,
    ensures
        field == bits_signed(word, lo, hi),
{
    extend_sign(get_bits(word, lo, hi), hi - lo + 1)
}

/// Reinterprets a 32-bit pattern as a signed number.
pub fn to_signed(x: u32) -> (value: i32)
    ensures
        value as int == signed_value(x),
{
    assert((x as i32) as int == if x < 0x8000_0000u32 {
        x as int
    } else {
        x as int - 0x1_0000_0000
    }) by (bit_vector);
    #[verifier::truncate]
    (x as i32)
}

/// Extracts the inclusive bit range `lo..=hi` of `word` as a signed number,
/// sign-extended from the topmost bit of the field.
pub fn get_bits_signed(word: u32, lo: u32, hi: u32) -> (field: i32)
    requires
        lo <= hi <= 31,
    ensures
        field as int == signed_value(bits_signed(word, lo, hi)),
{
    to_signed(get_bits_extended(word, lo, hi))
}

/// The arithmetic shift is the shift of the signed number: the word read as
/// a two's complement number, shifted, and read as a bit pattern again.
pub proof fn lemma_arithmetic_shift_signed(value: u32, amount: u32)
    requires
        amount < 32,
    ensures
        arithmetic_shift_right(value, amount) == ((value as i32) >> amount) as u32,
{
    assert(arithmetic_shift_right(value, amount) == ((value as i32) >> amount) as u32)
        by (bit_vector)
        requires
            amount < 32,
    ;
}

/// An extracted field is smaller than two to the power of its width; the
/// bounds are spelled out for the widths that instruction fields have.
pub proof fn lemma_field_bound(word: u32, lo: u32, hi: u32)
    requires
        lo <= hi <= 31,
    ensures
        hi - lo + 1 == 1 ==> bits_unsigned(word, lo, hi) < 2,
        hi - lo + 1 == 3 ==> bits_unsigned(word, lo, hi) < 8,
        hi - lo + 1 == 5 ==> bits_unsigned(word, lo, hi) < 32,
        hi - lo + 1 == 7 ==> bits_unsigned(word, lo, hi) < 128,
        hi - lo + 1 == 8 ==> bits_unsigned(word, lo, hi) < 256,
{
    let shifted = word >> lo;
    assert((shifted & !(0xffff_ffffu32 << 1u32)) < 2 && (shifted & !(0xffff_ffffu32 << 3u32)) < 8
        && (shifted & !(0xffff_ffffu32 << 5u32)) < 32 && (shifted & !(0xffff_ffffu32 << 7u32))
        < 128 && (shifted & !(0xffff_ffffu32 << 8u32)) < 256) by (bit_vector);
}

/// The heart of the round trip: whatever the rest of the word holds, the
/// field read back is the low `width` bits of the field that was placed.
proof fn lemma_field_read_back(word: u32, lo: u32, width: u32, field: u32)
    by (bit_vector)
    requires
        1 <= width <= 32,
        lo <= 32 - width,
    ensures
        ({
            let mask = if width >= 32 { 0xffff_ffffu32 } else { !(0xffff_ffffu32 << width) };
            (((word & !(mask << lo)) | ((field & mask) << lo)) >> lo) & mask == field & mask
        }),
{
}

/// Placing a field into the bits `lo..=hi` of any word and extracting the
/// same range again gives the field back: zero-extended, the low bits of the
/// field; sign-extended, the field itself whenever it is the sign extension
/// of its own low bits.
pub proof fn lemma_extract_placed_field(word: u32, lo: u32, hi: u32, field: u32)
    requires
        lo <= hi <= 31,
    ensures
        bits_unsigned(with_bits(word, lo, hi, field), lo, hi) == field & low_mask(
            (hi - lo + 1) as u32,
        ),
        field & low_mask((hi - lo + 1) as u32) == field ==> bits_unsigned(
            with_bits(word, lo, hi, field),
            lo,
            hi,
        ) == field,
        sign_extend(field & low_mask((hi - lo + 1) as u32), (hi - lo + 1) as u32) == field
            ==> bits_signed(with_bits(word, lo, hi, field), lo, hi) == field,
{
    lemma_field_read_back(word, lo, (hi - lo + 1) as u32, field);
}

} // verus!
