use vstd::prelude::*;

use super::registers::FlagsRegister;

verus! {

/// The value that a carry or a borrow brings into an operation.
pub open spec fn carry_value(carry_in: bool) -> int {
    if carry_in {
        1
    } else {
        0
    }
}

/// The 8-bit sum `a + operand + carry_in`, wrapped.
pub open spec fn add8(a: u8, operand: u8, carry_in: bool) -> u8 {
    ((a + operand + carry_value(carry_in)) % 256) as u8
}

/// The flags after an 8-bit addition: zero where the wrapped sum is zero,
/// half-carry where the low nibbles carry into bit 4, carry where the sum
/// does not fit in eight bits.
pub open spec fn add8_flags(a: u8, operand: u8, carry_in: bool) -> FlagsRegister {
    FlagsRegister {
        zero: add8(a, operand, carry_in) == 0,
        subtract: false,
        half_carry: a % 16 + operand % 16 + carry_value(carry_in) > 15,
        carry: a + operand + carry_value(carry_in) > 255,
    }
}

/// The 8-bit difference `a - operand - carry_in`, wrapped.
pub open spec fn sub8(a: u8, operand: u8, carry_in: bool) -> u8 {
    ((a - operand - carry_value(carry_in)) % 256) as u8
}

/// The flags after an 8-bit subtraction: zero where the wrapped difference
/// is zero, half-carry where the low nibble borrows from bit 4, carry where
/// the whole subtraction borrows.
pub open spec fn sub8_flags(a: u8, operand: u8, carry_in: bool) -> FlagsRegister {
    FlagsRegister {
        zero: sub8(a, operand, carry_in) == 0,
        subtract: true,
        half_carry: a % 16 < operand % 16 + carry_value(carry_in),
        carry: a < operand + carry_value(carry_in),
    }
}

/// The flags after a bitwise operation with the given result: zero where
/// the result is zero, half-carry as the operation fixes it, the others
/// clear.
pub open spec fn logic_flags(result: u8, half_carry: bool) -> FlagsRegister {
    FlagsRegister { zero: result == 0, subtract: false, half_carry, carry: false }
}

/// The 16-bit sum `hl + operand`, wrapped.
pub open spec fn add16(hl: u16, operand: u16) -> u16 {
    ((hl + operand) % 0x10000) as u16
}

/// The flags after a 16-bit addition to HL: zero is kept, half-carry is the
/// carry out of bit 11, carry the carry out of bit 15.
pub open spec fn add16_flags(hl: u16, operand: u16, flags: FlagsRegister) -> FlagsRegister {
    FlagsRegister {
        zero: flags.zero,
        subtract: false,
        half_carry: hl % 0x1000 + operand % 0x1000 > 0xFFF,
        carry: hl + operand > 0xFFFF,
    }
}

/// The number that a byte stands for in two's complement.
pub open spec fn signed(offset: u8) -> int {
    if offset < 128 {
        offset as int
    } else {
        offset - 256
    }
}

/// The 16-bit sum of `sp` and the sign-extended `offset`, wrapped.
pub open spec fn add_signed(sp: u16, offset: u8) -> u16 {
    ((sp + signed(offset)) % 0x10000) as u16
}

/// The flags after adding a signed offset to the stack pointer: zero and
/// subtract clear, half-carry and carry taken from the unsigned addition of
/// the offset to the low byte of `sp`.
pub open spec fn add_signed_flags(sp: u16, offset: u8) -> FlagsRegister {
    FlagsRegister {
        zero: false,
        subtract: false,
        half_carry: sp % 16 + offset % 16 > 15,
        carry: sp % 256 + offset > 255,
    }
}

/// Masking a byte keeps its low nibble.
pub proof fn lemma_low_nibble(value: u8)
    ensures
        value & 0xF == value % 16,
{
    assert(value & 0xF == value % 16) by (bit_vector);
}

/// Masking a word keeps its low nibble, its low byte or its low twelve bits.
pub proof fn lemma_low_bits(value: u16)
    ensures
        value & 0xF == value % 16,
        value & 0xFF == value % 256,
        value & 0xFFF == value % 0x1000,
{
    assert(value & 0xF == value % 16 && value & 0xFF == value % 256 && value & 0xFFF == value
        % 0x1000) by (bit_vector);
}

/// Or-ing a byte into the high page gives the address `0xFF00 + offset`.
pub proof fn lemma_high_page(offset: u8)
    ensures
        0xFF00u16 | (offset as u16) == 0xFF00 + offset,
{
    let wide = offset as u16;
    assert(wide < 256 ==> 0xFF00u16 | wide == 0xFF00 + wide) by (bit_vector);
}

} // verus!
