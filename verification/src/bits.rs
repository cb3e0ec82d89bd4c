//! Byte and flag arithmetic shared by the CPU and the memory map.
//!
//! The Sharp LR35902 keeps its status flags in the upper nibble of the `F`
//! register: bit 7 is Zero, bit 6 Subtract (negative), bit 5 Half carry and
//! bit 4 Carry. Register pairs such as `HL` are read high byte first.
use vstd::prelude::*;

verus! {

/// Bit mask of the Zero flag in `F`.
pub const FLAG_ZERO: u8 = 0x80;

/// Bit mask of the Subtract flag in `F`.
pub const FLAG_NEGATIVE: u8 = 0x40;

/// Bit mask of the Half carry flag in `F`.
pub const FLAG_HALF_CARRY: u8 = 0x20;

/// Bit mask of the Carry flag in `F`.
pub const FLAG_CARRY: u8 = 0x10;

/// `x` reduced modulo 256, as a byte.
pub open spec fn wrap8(x: int) -> u8 {
    (x % 256) as u8
}

/// `x` reduced modulo 65536, as a word.
pub open spec fn wrap16(x: int) -> u16 {
    (x % 65536) as u16
}

/// The 16-bit value of the register pair `hi:lo`.
pub open spec fn pair(hi: u8, lo: u8) -> u16 {
    (hi * 256 + lo) as u16
}

/// The upper byte of a word.
pub open spec fn high_byte(w: u16) -> u8 {
    (w / 256) as u8
}

/// The lower byte of a word.
pub open spec fn low_byte(w: u16) -> u8 {
    (w % 256) as u8
}

/// The signed value of a byte read as two's complement.
pub open spec fn signed8(b: u8) -> int {
    if b < 128 {
        b as int
    } else {
        b - 256
    }
}

/// `f` with the bits of `mask` set when `on` holds and cleared otherwise.
pub open spec fn set_bits(f: u8, mask: u8, on: bool) -> u8 {
    if on {
        f | mask
    } else {
        f & !mask
    }
}

/// `f` with the bits of `mask` set to `value` when one is given.
pub open spec fn apply_flag(f: u8, mask: u8, value: Option<bool>) -> u8 {
    match value {
        Some(on) => set_bits(f, mask, on),
        None => f,
    }
}

/// The flag register after an update that sets each given flag and keeps
/// each flag that is given as `None`.
pub open spec fn with_flags(
    f: u8,
    zero: Option<bool>,
    carry: Option<bool>,
    negative: Option<bool>,
    half_carry: Option<bool>,
) -> u8 {
    apply_flag(
        apply_flag(apply_flag(apply_flag(f, FLAG_ZERO, zero), FLAG_NEGATIVE, negative), FLAG_HALF_CARRY, half_carry),
        FLAG_CARRY,
        carry,
    )
}

/// Whether the Zero flag is set in `f`.
pub open spec fn zero_flag(f: u8) -> bool {
    f & FLAG_ZERO != 0
}

/// Whether the Subtract flag is set in `f`.
pub open spec fn negative_flag(f: u8) -> bool {
    f & FLAG_NEGATIVE != 0
}

/// Whether the Half carry flag is set in `f`.
pub open spec fn half_carry_flag(f: u8) -> bool {
    f & FLAG_HALF_CARRY != 0
}

/// Whether the Carry flag is set in `f`.
pub open spec fn carry_flag(f: u8) -> bool {
    f & FLAG_CARRY != 0
}

/// The flag that a `Some` sets, or the old flag for `None`.
pub open spec fn flag_after(old: bool, value: Option<bool>) -> bool {
    match value {
        Some(on) => on,
        None => old,
    }
}

/// Combining two bytes with a shift and an or gives the pair's value.
pub proof fn lemma_pair(hi: u8, lo: u8)
    ensures
        ((hi as u16) << 8u16) | (lo as u16) == pair(hi, lo),
        high_byte(pair(hi, lo)) == hi,
        low_byte(pair(hi, lo)) == lo,
{
    assert(((hi as u16) << 8u16) | (lo as u16) == (hi as u16) * 256 + (lo as u16)) by (bit_vector);
}

/// Shifting and masking a word gives its two bytes.
pub proof fn lemma_split(w: u16)
    ensures
        (w >> 8u16) as u8 == high_byte(w),
        (w & 0xFFu16) as u8 == low_byte(w),
        pair(high_byte(w), low_byte(w)) == w,
{
    assert((w >> 8u16) == w / 256) by (bit_vector);
    assert((w & 0xFFu16) == w % 256) by (bit_vector);
}

/// The flag tests that shift a flag down to bit 0.
pub proof fn lemma_flag_tests(f: u8)
    ensures
        ((f & 0x80) >> 7u8 == 1) == zero_flag(f),
        ((f & 0x10) >> 4u8 == 1) == carry_flag(f),
{
    assert(((f & 0x80) >> 7u8 == 1) == (f & 0x80 != 0)) by (bit_vector);
    assert(((f & 0x10) >> 4u8 == 1) == (f & 0x10 != 0)) by (bit_vector);
}

/// The fields of an opcode that shifts and masks take out.
pub proof fn lemma_opcode_fields(opcode: u8)
    ensures
        opcode >> 6u8 == opcode / 64,
        (opcode >> 3u8) & 0b111 == (opcode / 8) % 8,
        opcode & 0b111 == opcode % 8,
{
    assert(opcode >> 6u8 == opcode / 64) by (bit_vector);
    assert((opcode >> 3u8) & 0b111 == (opcode / 8) % 8) by (bit_vector);
    assert(opcode & 0b111 == opcode % 8) by (bit_vector);
}

/// A nibble of a byte is at most 15.
pub proof fn lemma_nibbles(x: u8)
    ensures
        x & 0x0F <= 0x0F,
        x >> 4u8 <= 0x0F,
{
    assert(x & 0x0F <= 0x0F && x >> 4u8 <= 0x0F) by (bit_vector);
}

/// The low twelve and the low four bits of a word are at most 0x0FFF and
/// 0x0F.
pub proof fn lemma_low_bits16(x: u16)
    ensures
        x & 0x0FFF <= 0x0FFF,
        x & 0x0F <= 0x0F,
{
    assert(x & 0x0FFF <= 0x0FFF && x & 0x0F <= 0x0F) by (bit_vector);
}

/// Setting or clearing one flag bit leaves the other seven bits alone.
proof fn lemma_set_bits(f: u8, on: bool)
    ensures
        (set_bits(f, 0x80, on) & 0x80 != 0) == on,
        set_bits(f, 0x80, on) & 0x7F == f & 0x7F,
        (set_bits(f, 0x40, on) & 0x40 != 0) == on,
        set_bits(f, 0x40, on) & 0xBF == f & 0xBF,
        (set_bits(f, 0x20, on) & 0x20 != 0) == on,
        set_bits(f, 0x20, on) & 0xDF == f & 0xDF,
        (set_bits(f, 0x10, on) & 0x10 != 0) == on,
        set_bits(f, 0x10, on) & 0xEF == f & 0xEF,
{
    assert((f | 0x80u8) & 0x80 != 0 && (f | 0x80u8) & 0x7F == f & 0x7F) by (bit_vector);
    assert((f & !0x80u8) & 0x80 == 0 && (f & !0x80u8) & 0x7F == f & 0x7F) by (bit_vector);
    assert((f | 0x40u8) & 0x40 != 0 && (f | 0x40u8) & 0xBF == f & 0xBF) by (bit_vector);
    assert((f & !0x40u8) & 0x40 == 0 && (f & !0x40u8) & 0xBF == f & 0xBF) by (bit_vector);
    assert((f | 0x20u8) & 0x20 != 0 && (f | 0x20u8) & 0xDF == f & 0xDF) by (bit_vector);
    assert((f & !0x20u8) & 0x20 == 0 && (f & !0x20u8) & 0xDF == f & 0xDF) by (bit_vector);
    assert((f | 0x10u8) & 0x10 != 0 && (f | 0x10u8) & 0xEF == f & 0xEF) by (bit_vector);
    assert((f & !0x10u8) & 0x10 == 0 && (f & !0x10u8) & 0xEF == f & 0xEF) by (bit_vector);
}

/// Bits outside a mask decide the flags that the mask leaves alone.
proof fn lemma_masked_bits(x: u8, y: u8)
    ensures
        x & 0x7F == y & 0x7F ==> (x & 0x40 == y & 0x40 && x & 0x20 == y & 0x20 && x & 0x10 == y & 0x10 && x & 0x0F == y & 0x0F),
        x & 0xBF == y & 0xBF ==> (x & 0x80 == y & 0x80 && x & 0x20 == y & 0x20 && x & 0x10 == y & 0x10 && x & 0x0F == y & 0x0F),
        x & 0xDF == y & 0xDF ==> (x & 0x80 == y & 0x80 && x & 0x40 == y & 0x40 && x & 0x10 == y & 0x10 && x & 0x0F == y & 0x0F),
        x & 0xEF == y & 0xEF ==> (x & 0x80 == y & 0x80 && x & 0x40 == y & 0x40 && x & 0x20 == y & 0x20 && x & 0x0F == y & 0x0F),
{
    assert(x & 0x7F == y & 0x7F ==> (x & 0x40 == y & 0x40 && x & 0x20 == y & 0x20 && x & 0x10 == y & 0x10 && x & 0x0F == y & 0x0F)) by (bit_vector);
    assert(x & 0xBF == y & 0xBF ==> (x & 0x80 == y & 0x80 && x & 0x20 == y & 0x20 && x & 0x10 == y & 0x10 && x & 0x0F == y & 0x0F)) by (bit_vector);
    assert(x & 0xDF == y & 0xDF ==> (x & 0x80 == y & 0x80 && x & 0x40 == y & 0x40 && x & 0x10 == y & 0x10 && x & 0x0F == y & 0x0F)) by (bit_vector);
    assert(x & 0xEF == y & 0xEF ==> (x & 0x80 == y & 0x80 && x & 0x40 == y & 0x40 && x & 0x20 == y & 0x20 && x & 0x0F == y & 0x0F)) by (bit_vector);
}

/// A flag update sets exactly the flags it is given, keeps every flag it is
/// not given, and never touches the lower nibble of `F`.
pub proof fn lemma_with_flags(
    f: u8,
    zero: Option<bool>,
    carry: Option<bool>,
    negative: Option<bool>,
    half_carry: Option<bool>,
)
    ensures
        zero_flag(with_flags(f, zero, carry, negative, half_carry)) == flag_after(zero_flag(f), zero),
        carry_flag(with_flags(f, zero, carry, negative, half_carry)) == flag_after(carry_flag(f), carry),
        negative_flag(with_flags(f, zero, carry, negative, half_carry)) == flag_after(negative_flag(f), negative),
        half_carry_flag(with_flags(f, zero, carry, negative, half_carry)) == flag_after(half_carry_flag(f), half_carry),
        with_flags(f, zero, carry, negative, half_carry) & 0x0F == f & 0x0F,
{
    let f1 = apply_flag(f, FLAG_ZERO, zero);
    let f2 = apply_flag(f1, FLAG_NEGATIVE, negative);
    let f3 = apply_flag(f2, FLAG_HALF_CARRY, half_carry);
    let f4 = apply_flag(f3, FLAG_CARRY, carry);
    if let Some(on) = zero {
        lemma_set_bits(f, on);
        lemma_masked_bits(f1, f);
    }
    if let Some(on) = negative {
        lemma_set_bits(f1, on);
        lemma_masked_bits(f2, f1);
    }
    if let Some(on) = half_carry {
        lemma_set_bits(f2, on);
        lemma_masked_bits(f3, f2);
    }
    if let Some(on) = carry {
        lemma_set_bits(f3, on);
        lemma_masked_bits(f4, f3);
    }
}

/// Every flag update, and flipping the Carry flag, keeps the lower nibble
/// of `F`.
pub proof fn lemma_low_nibble_kept()
    ensures
        forall|f: u8, zero: Option<bool>, carry: Option<bool>, negative: Option<bool>, half_carry: Option<bool>|
            #[trigger] with_flags(f, zero, carry, negative, half_carry) & 0x0F == f & 0x0F,
        forall|f: u8| #[trigger] (f ^ 0x10) & 0x0F == f & 0x0F,
{
    assert forall|f: u8, zero: Option<bool>, carry: Option<bool>, negative: Option<bool>, half_carry: Option<bool>|
        #[trigger] with_flags(f, zero, carry, negative, half_carry) & 0x0F == f & 0x0F by {
        lemma_with_flags(f, zero, carry, negative, half_carry);
    }
    assert forall|f: u8| #[trigger] (f ^ 0x10) & 0x0F == f & 0x0F by {
        assert((f ^ 0x10) & 0x0F == f & 0x0F) by (bit_vector);
    }
}

} // verus!
