//! The instruction set as state transformers: for each instruction, the
//! CPU state that it leaves, and the condition under which it completes.
//!
//! An instruction completes when the program counter and stack pointer
//! stay within 16 bits as it moves them, and every byte it reads or writes
//! is one that the memory map can serve.
use vstd::prelude::*;
use crate::bits;
use crate::mmu::{self, MemState};

verus! {

/// The state of the CPU and of everything behind its memory map.
#[verifier::ext_equal]
pub struct CpuState {
    pub a: u8,
    pub b: u8,
    pub c: u8,
    pub d: u8,
    pub e: u8,
    pub f: u8,
    pub h: u8,
    pub l: u8,
    pub pc: u16,
    pub sp: u16,
    pub ime: bool,
    pub halted: bool,
    pub cycles: u16,
    pub mem: MemState,
}

impl CpuState {
    pub open spec fn hl(self) -> u16 {
        bits::pair(self.h, self.l)
    }

    pub open spec fn bc(self) -> u16 {
        bits::pair(self.b, self.c)
    }

    pub open spec fn de(self) -> u16 {
        bits::pair(self.d, self.e)
    }

    /// The byte at `address`.
    pub open spec fn read(self, address: int) -> u8 {
        self.mem.read(address as u16)
    }

    /// Whether the byte at `address` can be read.
    pub open spec fn readable(self, address: int) -> bool {
        0 <= address <= 0xFFFF && self.mem.readable(address as u16)
    }

    /// Whether the byte at `address` can be written.
    pub open spec fn writable(self, address: int) -> bool {
        0 <= address <= 0xFFFF && self.mem.writable(address as u16)
    }

    /// The state with `value` written to `address`.
    pub open spec fn write(self, address: int, value: u8) -> CpuState {
        CpuState { mem: self.mem.write(address as u16, value), ..self }
    }

    /// The byte after the opcode, at `pc + 1`.
    pub open spec fn imm8(self) -> u8 {
        self.read(self.pc + 1)
    }

    /// The word after the opcode, low byte first, at `pc + 1`.
    pub open spec fn imm16(self) -> u16 {
        bits::pair(self.read(self.pc + 2), self.read(self.pc + 1))
    }

    pub open spec fn zero(self) -> bool {
        bits::zero_flag(self.f)
    }

    pub open spec fn carry(self) -> bool {
        bits::carry_flag(self.f)
    }

    pub open spec fn half_carry(self) -> bool {
        bits::half_carry_flag(self.f)
    }

    pub open spec fn negative(self) -> bool {
        bits::negative_flag(self.f)
    }

    /// The carry flag as a number, 0 or 1.
    pub open spec fn carry_bit(self) -> u8 {
        if self.carry() {
            1
        } else {
            0
        }
    }

    /// Whether the program counter can move `length` bytes forward.
    pub open spec fn fits(self, length: int) -> bool {
        self.pc + length <= 0xFFFF
    }

    /// Whether the opcode is followed by `count` readable bytes and the
    /// program counter can move past them.
    pub open spec fn operands_ok(self, count: int) -> bool {
        &&& self.fits(count + 1)
        &&& count >= 1 ==> self.readable(self.pc + 1)
        &&& count >= 2 ==> self.readable(self.pc + 2)
    }

    /// The state with the program counter moved `length` bytes forward and
    /// the instruction's cycle count recorded.
    pub open spec fn advance(self, length: int, cycles: u16) -> CpuState {
        CpuState { pc: (self.pc + length) as u16, cycles, ..self }
    }

    /// The state with the flags updated.
    pub open spec fn flags(
        self,
        zero: Option<bool>,
        carry: Option<bool>,
        negative: Option<bool>,
        half_carry: Option<bool>,
    ) -> CpuState {
        CpuState { f: bits::with_flags(self.f, zero, carry, negative, half_carry), ..self }
    }

    /// Whether two bytes can be pushed: the stack pointer can move down two
    /// and both bytes can be written, the second after the first.
    pub open spec fn can_push(self, hi: u8) -> bool {
        &&& self.sp >= 2
        &&& self.writable(self.sp - 1)
        &&& self.write(self.sp - 1, hi).writable(self.sp - 2)
    }

    /// The state with `hi` and then `lo` pushed on the stack.
    pub open spec fn push(self, hi: u8, lo: u8) -> CpuState {
        let s = CpuState { sp: (self.sp - 2) as u16, ..self };
        s.write(s.sp + 1, hi).write(s.sp as int, lo)
    }

    /// Whether two bytes can be popped off the stack.
    pub open spec fn can_pop(self) -> bool {
        &&& self.sp <= 0xFFFD
        &&& self.readable(self.sp + 1)
        &&& self.readable(self.sp as int)
    }

    /// The word on top of the stack, low byte first.
    pub open spec fn top(self) -> u16 {
        bits::pair(self.read(self.sp + 1), self.read(self.sp as int))
    }
}

// ---------------------------------------------------------------------
// Control of the CPU

pub open spec fn nop(s: CpuState) -> CpuState {
    s.advance(1, 4)
}

pub open spec fn halt(s: CpuState) -> CpuState {
    CpuState { halted: true, ..s.advance(1, 4) }
}

pub open spec fn ei(s: CpuState) -> CpuState {
    CpuState { ime: true, ..s.advance(1, 4) }
}

pub open spec fn di(s: CpuState) -> CpuState {
    CpuState { ime: false, ..s.advance(1, 4) }
}

// ---------------------------------------------------------------------
// Increments and decrements

/// `register` plus one, wrapping.
pub open spec fn inc_value(register: u8) -> u8 {
    bits::wrap8(register + 1)
}

/// `register` minus one, wrapping.
pub open spec fn dec_value(register: u8) -> u8 {
    bits::wrap8(register - 1)
}

/// The flags of an 8-bit increment of `register`.
pub open spec fn inc_flags(s: CpuState, register: u8) -> CpuState {
    s.flags(Some(inc_value(register) == 0), None, Some(false), Some((register & 0x0F) == 0x0F))
}

/// The flags of an 8-bit decrement of `register`.
pub open spec fn dec_flags(s: CpuState, register: u8) -> CpuState {
    s.flags(Some(dec_value(register) == 0), None, Some(true), Some((register & 0x0F) == 0x00))
}

/// An 8-bit increment of a register; the register is set by the caller.
pub open spec fn inc_r_u8(s: CpuState, register: u8) -> CpuState {
    inc_flags(s, register).advance(1, 4)
}

/// An 8-bit decrement of a register; the register is set by the caller.
pub open spec fn dec_r_u8(s: CpuState, register: u8) -> CpuState {
    dec_flags(s, register).advance(1, 4)
}

/// A 16-bit increment or decrement of a register pair leaves the flags.
pub open spec fn step_r_u16(s: CpuState) -> CpuState {
    s.advance(1, 8)
}

pub open spec fn inc_sp(s: CpuState) -> CpuState {
    CpuState { sp: bits::wrap16(s.sp + 1), ..s.advance(1, 8) }
}

pub open spec fn dec_sp(s: CpuState) -> CpuState {
    CpuState { sp: bits::wrap16(s.sp - 1), ..s.advance(1, 8) }
}

pub open spec fn inc_m_hl(s: CpuState) -> CpuState {
    let value = s.read(s.hl() as int);
    inc_flags(s, value).write(s.hl() as int, inc_value(value)).advance(1, 12)
}

pub open spec fn dec_m_hl(s: CpuState) -> CpuState {
    let value = s.read(s.hl() as int);
    dec_flags(s, value).write(s.hl() as int, dec_value(value)).advance(1, 12)
}

pub open spec fn can_modify_m_hl(s: CpuState) -> bool {
    s.fits(1) && s.readable(s.hl() as int) && s.writable(s.hl() as int)
}

// ---------------------------------------------------------------------
// Arithmetic and logic on A

/// `A` plus `value` plus `carry_in`, with the flags of the addition.
pub open spec fn add_to_a(s: CpuState, value: u8, carry_in: u8) -> CpuState {
    let sum = s.a + value + carry_in;
    CpuState {
        a: bits::wrap8(sum),
        ..s.flags(
            Some(bits::wrap8(sum) == 0),
            Some(sum > 0xFF),
            Some(false),
            Some((s.a & 0xF) + (value & 0xF) + carry_in > 0xF),
        )
    }
}

/// The flags of `A` minus `value` minus `carry_in`.
pub open spec fn sub_flags(s: CpuState, value: u8, carry_in: u8) -> CpuState {
    let difference = s.a - value - carry_in;
    s.flags(
        Some(bits::wrap8(difference) == 0),
        Some(difference < 0),
        Some(true),
        Some((s.a & 0xF) < (value & 0xF) + carry_in),
    )
}

/// `A` minus `value` minus `carry_in`, with the flags of the subtraction.
pub open spec fn sub_from_a(s: CpuState, value: u8, carry_in: u8) -> CpuState {
    CpuState { a: bits::wrap8(s.a - value - carry_in), ..sub_flags(s, value, carry_in) }
}

pub open spec fn and_a(s: CpuState, value: u8) -> CpuState {
    let r = s.a & value;
    CpuState { a: r, ..s.flags(Some(r == 0), Some(false), Some(false), Some(true)) }
}

pub open spec fn xor_a(s: CpuState, value: u8) -> CpuState {
    let r = s.a ^ value;
    CpuState { a: r, ..s.flags(Some(r == 0), Some(false), Some(false), Some(false)) }
}

pub open spec fn or_a(s: CpuState, value: u8) -> CpuState {
    let r = s.a | value;
    CpuState { a: r, ..s.flags(Some(r == 0), Some(false), Some(false), Some(false)) }
}

/// The byte at the address in `HL`.
pub open spec fn m_hl(s: CpuState) -> u8 {
    s.read(s.hl() as int)
}

pub open spec fn add_a_r_u8(s: CpuState, register: u8) -> CpuState {
    add_to_a(s, register, 0).advance(1, 4)
}

pub open spec fn add_a_m_hl(s: CpuState) -> CpuState {
    add_to_a(s, m_hl(s), 0).advance(1, 8)
}

pub open spec fn add_a_u8(s: CpuState) -> CpuState {
    add_to_a(s, s.imm8(), 0).advance(2, 8)
}

pub open spec fn adc_a_r_u8(s: CpuState, register: u8) -> CpuState {
    add_to_a(s, register, s.carry_bit()).advance(1, 4)
}

pub open spec fn adc_a_m_hl(s: CpuState) -> CpuState {
    add_to_a(s, m_hl(s), s.carry_bit()).advance(1, 8)
}

pub open spec fn adc_a_u8(s: CpuState) -> CpuState {
    add_to_a(s, s.imm8(), s.carry_bit()).advance(2, 8)
}

pub open spec fn sub_a_r_u8(s: CpuState, register: u8) -> CpuState {
    sub_from_a(s, register, 0).advance(1, 4)
}

pub open spec fn sub_a_m_hl(s: CpuState) -> CpuState {
    sub_from_a(s, m_hl(s), 0).advance(1, 8)
}

pub open spec fn sub_a_u8(s: CpuState) -> CpuState {
    sub_from_a(s, s.imm8(), 0).advance(2, 8)
}

pub open spec fn sbc_a_r_u8(s: CpuState, register: u8) -> CpuState {
    sub_from_a(s, register, s.carry_bit()).advance(1, 4)
}

pub open spec fn sbc_a_m_hl(s: CpuState) -> CpuState {
    sub_from_a(s, m_hl(s), s.carry_bit()).advance(1, 8)
}

pub open spec fn sbc_a_u8(s: CpuState) -> CpuState {
    sub_from_a(s, s.imm8(), s.carry_bit()).advance(2, 8)
}

pub open spec fn and_a_r_u8(s: CpuState, register: u8) -> CpuState {
    and_a(s, register).advance(1, 4)
}

pub open spec fn and_a_m_hl(s: CpuState) -> CpuState {
    and_a(s, m_hl(s)).advance(1, 8)
}

/// AND with an immediate byte; the program counter moves past the byte.
pub open spec fn and_a_u8(s: CpuState) -> CpuState {
    and_a(s, s.imm8()).advance(2, 8)
}

pub open spec fn xor_a_r_u8(s: CpuState, register: u8) -> CpuState {
    xor_a(s, register).advance(1, 4)
}

pub open spec fn xor_a_m_hl(s: CpuState) -> CpuState {
    xor_a(s, m_hl(s)).advance(1, 8)
}

pub open spec fn xor_a_u8(s: CpuState) -> CpuState {
    xor_a(s, s.imm8()).advance(2, 8)
}

pub open spec fn or_a_r_u8(s: CpuState, register: u8) -> CpuState {
    or_a(s, register).advance(1, 4)
}

pub open spec fn or_a_m_hl(s: CpuState) -> CpuState {
    or_a(s, m_hl(s)).advance(1, 8)
}

pub open spec fn or_a_u8(s: CpuState) -> CpuState {
    or_a(s, s.imm8()).advance(2, 8)
}

pub open spec fn cp_a_r_u8(s: CpuState, register: u8) -> CpuState {
    sub_flags(s, register, 0).advance(1, 4)
}

pub open spec fn cp_a_m_hl(s: CpuState) -> CpuState {
    sub_flags(s, m_hl(s), 0).advance(1, 8)
}

pub open spec fn cp_a_u8(s: CpuState) -> CpuState {
    sub_flags(s, s.imm8(), 0).advance(2, 8)
}

// ---------------------------------------------------------------------
// 16-bit arithmetic

/// `HL` plus `value`, with the flags of a 16-bit addition.
pub open spec fn add_to_hl(s: CpuState, value: u16) -> CpuState {
    let sum = s.hl() + value;
    let r = bits::wrap16(sum);
    CpuState {
        h: bits::high_byte(r),
        l: bits::low_byte(r),
        ..s.flags(
            None,
            Some(sum > 0xFFFF),
            Some(false),
            Some((s.hl() & 0x0FFF) + (value & 0x0FFF) > 0x0FFF),
        )
    }.advance(1, 8)
}

pub open spec fn add_hl_r_u16(s: CpuState, register1: u8, register2: u8) -> CpuState {
    add_to_hl(s, bits::pair(register1, register2))
}

pub open spec fn add_hl_sp(s: CpuState) -> CpuState {
    add_to_hl(s, s.sp)
}

/// The signed offset after the opcode, as the 16-bit value it adds.
pub open spec fn offset16(s: CpuState) -> u16 {
    bits::wrap16(bits::signed8(s.imm8()))
}

/// The flags of `SP` plus the signed offset after the opcode.
pub open spec fn sp_offset_flags(s: CpuState) -> CpuState {
    let value = offset16(s);
    s.flags(
        Some(false),
        Some(s.sp + value > 0xFFFF),
        Some(false),
        Some((s.sp & 0x0F) + (value & 0x0F) > 0x0F),
    )
}

/// `SP` plus the signed offset after the opcode.
pub open spec fn sp_plus_offset(s: CpuState) -> u16 {
    bits::wrap16(s.sp + offset16(s))
}

pub open spec fn add_sp_i8(s: CpuState) -> CpuState {
    CpuState { sp: sp_plus_offset(s), ..sp_offset_flags(s) }.advance(2, 16)
}

pub open spec fn ld_hl_sp_plus_i8(s: CpuState) -> CpuState {
    let r = sp_plus_offset(s);
    CpuState { h: bits::high_byte(r), l: bits::low_byte(r), ..sp_offset_flags(s) }.advance(2, 12)
}

// ---------------------------------------------------------------------
// Loads

pub open spec fn ld_b(s: CpuState, value: u8) -> CpuState {
    CpuState { b: value, ..s }
}

pub open spec fn ld_c(s: CpuState, value: u8) -> CpuState {
    CpuState { c: value, ..s }
}

pub open spec fn ld_d(s: CpuState, value: u8) -> CpuState {
    CpuState { d: value, ..s }
}

pub open spec fn ld_e(s: CpuState, value: u8) -> CpuState {
    CpuState { e: value, ..s }
}

pub open spec fn ld_h(s: CpuState, value: u8) -> CpuState {
    CpuState { h: value, ..s }
}

pub open spec fn ld_l(s: CpuState, value: u8) -> CpuState {
    CpuState { l: value, ..s }
}

pub open spec fn ld_a(s: CpuState, value: u8) -> CpuState {
    CpuState { a: value, ..s }
}

/// Storing `value` at the address in `HL`.
pub open spec fn ld_m_hl_r_u8(s: CpuState, value: u8) -> CpuState {
    s.write(s.hl() as int, value).advance(1, 8)
}

/// Loading a register from the address in `HL` moves on and takes 8
/// cycles; the register itself is set by the caller.
pub open spec fn ld_r_u8_m_hl(s: CpuState) -> CpuState {
    s.advance(1, 8)
}

pub open spec fn ld_m_hl_u8(s: CpuState) -> CpuState {
    s.write(s.hl() as int, s.imm8()).advance(2, 12)
}

pub open spec fn ld_bc_u16(s: CpuState) -> CpuState {
    CpuState { c: s.read(s.pc + 1), b: s.read(s.pc + 2), ..s }.advance(3, 12)
}

pub open spec fn ld_de_u16(s: CpuState) -> CpuState {
    CpuState { e: s.read(s.pc + 1), d: s.read(s.pc + 2), ..s }.advance(3, 12)
}

pub open spec fn ld_hl_u16(s: CpuState) -> CpuState {
    CpuState { l: s.read(s.pc + 1), h: s.read(s.pc + 2), ..s }.advance(3, 12)
}

pub open spec fn ld_sp_u16(s: CpuState) -> CpuState {
    CpuState { sp: s.imm16(), ..s }.advance(3, 12)
}

pub open spec fn ld_m_r_u16_a(s: CpuState, register1: u8, register2: u8) -> CpuState {
    s.write(bits::pair(register1, register2) as int, s.a).advance(1, 8)
}

pub open spec fn ld_a_m_r_u16(s: CpuState, register1: u8, register2: u8) -> CpuState {
    CpuState { a: s.read(bits::pair(register1, register2) as int), ..s }.advance(1, 8)
}

/// The state with `HL` set to `value`.
pub open spec fn set_hl(s: CpuState, value: u16) -> CpuState {
    CpuState { h: bits::high_byte(value), l: bits::low_byte(value), ..s }
}

pub open spec fn ld_a_hl_inc(s: CpuState) -> CpuState {
    set_hl(CpuState { a: m_hl(s), ..s }, bits::wrap16(s.hl() + 1)).advance(1, 8)
}

pub open spec fn ld_hl_inc_a(s: CpuState) -> CpuState {
    set_hl(s.write(s.hl() as int, s.a), bits::wrap16(s.hl() + 1)).advance(1, 8)
}

pub open spec fn ld_a_hl_dec(s: CpuState) -> CpuState {
    set_hl(CpuState { a: m_hl(s), ..s }, bits::wrap16(s.hl() - 1)).advance(1, 8)
}

pub open spec fn ld_hl_dec_a(s: CpuState) -> CpuState {
    set_hl(s.write(s.hl() as int, s.a), bits::wrap16(s.hl() - 1)).advance(1, 8)
}

pub open spec fn ld_m_u16_sp(s: CpuState) -> CpuState {
    let address = s.imm16();
    s.write(address as int, bits::low_byte(s.sp)).write(address + 1, bits::high_byte(s.sp)).advance(3, 20)
}

pub open spec fn can_ld_m_u16_sp(s: CpuState) -> bool {
    let address = s.imm16();
    &&& s.operands_ok(2)
    &&& s.fits(3)
    &&& s.writable(address as int)
    &&& address < 0xFFFF
    &&& s.write(address as int, bits::low_byte(s.sp)).writable(address + 1)
}

pub open spec fn ld_sp_hl(s: CpuState) -> CpuState {
    CpuState { sp: s.hl(), ..s }.advance(1, 8)
}

pub open spec fn ld_ff00_plus_u8_a(s: CpuState) -> CpuState {
    s.write(0xFF00 + s.imm8(), s.a).advance(2, 12)
}

pub open spec fn ld_a_ff00_plus_u8(s: CpuState) -> CpuState {
    CpuState { a: s.read(0xFF00 + s.imm8()), ..s }.advance(2, 12)
}

pub open spec fn ld_ff00_plus_c_a(s: CpuState) -> CpuState {
    s.write(0xFF00 + s.c, s.a).advance(1, 8)
}

pub open spec fn ld_a_ff00_plus_c(s: CpuState) -> CpuState {
    CpuState { a: s.read(0xFF00 + s.c), ..s }.advance(1, 8)
}

pub open spec fn ld_a_u16(s: CpuState) -> CpuState {
    CpuState { a: s.read(s.imm16() as int), ..s }.advance(3, 16)
}

pub open spec fn ld_u16_a(s: CpuState) -> CpuState {
    s.write(s.imm16() as int, s.a).advance(3, 16)
}

// ---------------------------------------------------------------------
// Jumps, calls and returns

/// A relative jump lands at the address of the jump instruction itself
/// plus the signed offset.
pub open spec fn jr_target(s: CpuState) -> u16 {
    bits::wrap16(s.pc + bits::signed8(s.imm8()))
}

/// A relative jump, taken or not.
pub open spec fn jr_when(s: CpuState, taken: bool) -> CpuState {
    if taken {
        CpuState { pc: jr_target(s), cycles: 12, ..s }
    } else {
        s.advance(2, 8)
    }
}

pub open spec fn can_jr_when(s: CpuState, taken: bool) -> bool {
    &&& s.fits(1)
    &&& s.readable(s.pc + 1)
    &&& !taken ==> s.fits(2)
}

/// An absolute jump, taken or not.
pub open spec fn jp_when(s: CpuState, taken: bool) -> CpuState {
    if taken {
        CpuState { pc: s.imm16(), cycles: 16, ..s }
    } else {
        s.advance(3, 12)
    }
}

pub open spec fn can_jp_when(s: CpuState, taken: bool) -> bool {
    if taken {
        s.fits(2) && s.readable(s.pc + 1) && s.readable(s.pc + 2)
    } else {
        s.fits(3)
    }
}

pub open spec fn jp_hl(s: CpuState) -> CpuState {
    CpuState { pc: s.hl(), cycles: 4, ..s }
}

/// The state after the return address `pc + 3` is pushed for a call.
pub open spec fn call_pushed(s: CpuState) -> CpuState {
    let ret = (s.pc + 3) as u16;
    CpuState { pc: ret, ..s }.push(bits::high_byte(ret), bits::low_byte(ret))
}

/// A call, taken or not: the return address is pushed and the program
/// counter takes the operand, the word after the opcode.
pub open spec fn call_when(s: CpuState, taken: bool) -> CpuState {
    if taken {
        CpuState { pc: s.imm16(), cycles: 24, ..call_pushed(s) }
    } else {
        s.advance(3, 12)
    }
}

pub open spec fn can_call_when(s: CpuState, taken: bool) -> bool {
    &&& s.fits(3)
    &&& taken ==> {
        let ret = (s.pc + 3) as u16;
        &&& s.readable(s.pc + 1)
        &&& s.readable(s.pc + 2)
        &&& CpuState { pc: ret, ..s }.can_push(bits::high_byte(ret))
    }
}

/// A return, taken or not, taking `cycles` when taken.
pub open spec fn ret_when(s: CpuState, taken: bool, cycles: u16) -> CpuState {
    if taken {
        CpuState { pc: s.top(), sp: (s.sp + 2) as u16, cycles, ..s }
    } else {
        s.advance(1, 8)
    }
}

pub open spec fn can_ret_when(s: CpuState, taken: bool) -> bool {
    if taken {
        s.can_pop()
    } else {
        s.fits(1)
    }
}

pub open spec fn reti(s: CpuState) -> CpuState {
    CpuState { ime: true, ..ret_when(s, true, 16) }
}

pub open spec fn rst(s: CpuState, address: u16) -> CpuState {
    let ret = (s.pc + 1) as u16;
    CpuState { pc: address, cycles: 16, ..CpuState { pc: ret, ..s }.push(bits::high_byte(ret), bits::low_byte(ret)) }
}

pub open spec fn can_rst(s: CpuState) -> bool {
    let ret = (s.pc + 1) as u16;
    s.fits(1) && CpuState { pc: ret, ..s }.can_push(bits::high_byte(ret))
}

// ---------------------------------------------------------------------
// The stack

/// Popping a register pair: `hi` from `SP + 1`, `lo` from `SP`.
pub open spec fn popped(s: CpuState) -> CpuState {
    CpuState { sp: (s.sp + 2) as u16, ..s }.advance(1, 12)
}

pub open spec fn pop_bc(s: CpuState) -> CpuState {
    CpuState { b: s.read(s.sp + 1), c: s.read(s.sp as int), ..popped(s) }
}

pub open spec fn pop_de(s: CpuState) -> CpuState {
    CpuState { d: s.read(s.sp + 1), e: s.read(s.sp as int), ..popped(s) }
}

pub open spec fn pop_hl(s: CpuState) -> CpuState {
    CpuState { h: s.read(s.sp + 1), l: s.read(s.sp as int), ..popped(s) }
}

/// Popping `AF` takes the four flags from the popped byte and keeps the
/// lower nibble of `F`.
pub open spec fn pop_af(s: CpuState) -> CpuState {
    let flags = s.read(s.sp as int);
    CpuState {
        a: s.read(s.sp + 1),
        ..popped(
            s.flags(
                Some(flags & 0x80 != 0),
                Some(flags & 0x10 != 0),
                Some(flags & 0x40 != 0),
                Some(flags & 0x20 != 0),
            ),
        )
    }
}

pub open spec fn can_pop(s: CpuState) -> bool {
    s.can_pop() && s.fits(1)
}

/// Pushing the register pair `hi:lo`.
pub open spec fn push_pair(s: CpuState, hi: u8, lo: u8) -> CpuState {
    s.push(hi, lo).advance(1, 16)
}

pub open spec fn can_push_pair(s: CpuState, hi: u8) -> bool {
    s.can_push(hi) && s.fits(1)
}

// ---------------------------------------------------------------------
// Rotates, shifts and bits

/// The flags after a rotate or shift that leaves `result` with `carry`.
pub open spec fn shift_flags(s: CpuState, result: u8, carry: bool) -> CpuState {
    s.flags(Some(result == 0), Some(carry), Some(false), Some(false))
}

/// The carry flag of `F` in bit 0.
pub open spec fn carry_in_low(f: u8) -> u8 {
    (f & 0x10) >> 4u8
}

/// The carry flag of `F` in bit 7.
pub open spec fn carry_in_high(f: u8) -> u8 {
    (f & 0x10) << 3u8
}

pub open spec fn rlc_value(v: u8) -> u8 {
    (v << 1u8) | (v >> 7u8)
}

pub open spec fn rrc_value(v: u8) -> u8 {
    (v >> 1u8) | ((v & 1) << 7u8)
}

pub open spec fn rl_value(v: u8, f: u8) -> u8 {
    (v << 1u8) | carry_in_low(f)
}

pub open spec fn rr_value(v: u8, f: u8) -> u8 {
    (v >> 1u8) | carry_in_high(f)
}

pub open spec fn sla_value(v: u8) -> u8 {
    v << 1u8
}

pub open spec fn sra_value(v: u8) -> u8 {
    (v >> 1u8) | (v & 0x80)
}

pub open spec fn swap_value(v: u8) -> u8 {
    (v >> 4u8) | (v << 4u8)
}

pub open spec fn srl_value(v: u8) -> u8 {
    v >> 1u8
}

/// Whether bit 7 of `v` is set, the bit that a left rotate or shift moves
/// out.
pub open spec fn out_left(v: u8) -> bool {
    (v >> 7u8) != 0
}

/// Whether bit 0 of `v` is set, the bit that a right rotate or shift moves
/// out.
pub open spec fn out_right(v: u8) -> bool {
    (v & 1) != 0
}

/// The rotates of `A`, which clear the Zero flag.
pub open spec fn rotate_a(s: CpuState, result: u8, carry: bool) -> CpuState {
    CpuState { a: result, ..s.flags(Some(false), Some(carry), Some(false), Some(false)) }.advance(
        1,
        4,
    )
}

pub open spec fn rlca(s: CpuState) -> CpuState {
    rotate_a(s, rlc_value(s.a), out_left(s.a))
}

pub open spec fn rrca(s: CpuState) -> CpuState {
    rotate_a(s, rrc_value(s.a), out_right(s.a))
}

pub open spec fn rla(s: CpuState) -> CpuState {
    rotate_a(s, rl_value(s.a, s.f), out_left(s.a))
}

pub open spec fn rra(s: CpuState) -> CpuState {
    rotate_a(s, rr_value(s.a, s.f), out_right(s.a))
}

/// A rotate or shift of a register; the register is set by the caller.
pub open spec fn shift_r(s: CpuState, result: u8, carry: bool) -> CpuState {
    shift_flags(s, result, carry).advance(1, 8)
}

/// A rotate or shift of the byte at the address in `HL`.
pub open spec fn shift_m_hl(s: CpuState, result: u8, carry: bool) -> CpuState {
    shift_flags(s, result, carry).write(s.hl() as int, result).advance(1, 16)
}

pub open spec fn rlc(s: CpuState, register: u8) -> CpuState {
    shift_r(s, rlc_value(register), out_left(register))
}

pub open spec fn rrc(s: CpuState, register: u8) -> CpuState {
    shift_r(s, rrc_value(register), out_right(register))
}

pub open spec fn rl(s: CpuState, register: u8) -> CpuState {
    shift_r(s, rl_value(register, s.f), out_left(register))
}

pub open spec fn rr(s: CpuState, register: u8) -> CpuState {
    shift_r(s, rr_value(register, s.f), out_right(register))
}

pub open spec fn sla(s: CpuState, register: u8) -> CpuState {
    shift_r(s, sla_value(register), out_left(register))
}

pub open spec fn sra(s: CpuState, register: u8) -> CpuState {
    shift_r(s, sra_value(register), out_right(register))
}

pub open spec fn swap(s: CpuState, register: u8) -> CpuState {
    shift_r(s, swap_value(register), false)
}

pub open spec fn srl(s: CpuState, register: u8) -> CpuState {
    shift_r(s, srl_value(register), out_right(register))
}

pub open spec fn rlc_m_hl(s: CpuState) -> CpuState {
    shift_m_hl(s, rlc_value(m_hl(s)), out_left(m_hl(s)))
}

pub open spec fn rrc_m_hl(s: CpuState) -> CpuState {
    shift_m_hl(s, rrc_value(m_hl(s)), out_right(m_hl(s)))
}

pub open spec fn rl_m_hl(s: CpuState) -> CpuState {
    shift_m_hl(s, rl_value(m_hl(s), s.f), out_left(m_hl(s)))
}

pub open spec fn rr_m_hl(s: CpuState) -> CpuState {
    shift_m_hl(s, rr_value(m_hl(s), s.f), out_right(m_hl(s)))
}

pub open spec fn sla_m_hl(s: CpuState) -> CpuState {
    shift_m_hl(s, sla_value(m_hl(s)), out_left(m_hl(s)))
}

pub open spec fn sra_m_hl(s: CpuState) -> CpuState {
    shift_m_hl(s, sra_value(m_hl(s)), out_right(m_hl(s)))
}

pub open spec fn swap_m_hl(s: CpuState) -> CpuState {
    shift_m_hl(s, swap_value(m_hl(s)), false)
}

pub open spec fn srl_m_hl(s: CpuState) -> CpuState {
    shift_m_hl(s, srl_value(m_hl(s)), out_right(m_hl(s)))
}

/// The mask of bit `bit`.
pub open spec fn bit_mask(bit: u8) -> u8 {
    1u8 << bit
}

/// The flags of testing bit `bit` of `value`: the Zero flag is set when
/// the tested bit is 0.
pub open spec fn bit_test(s: CpuState, bit: u8, value: u8) -> CpuState {
    s.flags(Some((value & bit_mask(bit)) == 0), None, Some(false), Some(true))
}

pub open spec fn bit_n_r_u8(s: CpuState, bit: u8, register: u8) -> CpuState {
    bit_test(s, bit, register).advance(1, 8)
}

pub open spec fn bit_n_m_hl(s: CpuState, bit: u8) -> CpuState {
    bit_test(s, bit, m_hl(s)).advance(1, 12)
}

pub open spec fn res_value(bit: u8, value: u8) -> u8 {
    value & !bit_mask(bit)
}

pub open spec fn set_value(bit: u8, value: u8) -> u8 {
    value | bit_mask(bit)
}

/// Setting or clearing a bit of a register; the register is set by the
/// caller.
pub open spec fn bit_op_r(s: CpuState) -> CpuState {
    s.advance(1, 8)
}

pub open spec fn res_n_m_hl(s: CpuState, bit: u8) -> CpuState {
    s.write(s.hl() as int, res_value(bit, m_hl(s))).advance(1, 16)
}

pub open spec fn set_n_m_hl(s: CpuState, bit: u8) -> CpuState {
    s.write(s.hl() as int, set_value(bit, m_hl(s))).advance(1, 16)
}

// ---------------------------------------------------------------------
// Flags and decimal adjust

/// The correction that decimal adjust adds to or subtracts from `A`.
pub open spec fn daa_correction(s: CpuState) -> u8 {
    let low = s.half_carry() || (s.a & 0x0F) > 0x09;
    let high = s.carry() || (s.a >> 4u8) > 0x09;
    if low && high {
        0x66
    } else if low {
        0x06
    } else if high {
        0x60
    } else {
        0
    }
}

pub open spec fn daa(s: CpuState) -> CpuState {
    let correction = daa_correction(s);
    let a = if s.negative() {
        bits::wrap8(s.a - correction)
    } else {
        bits::wrap8(s.a + correction)
    };
    CpuState {
        a,
        ..s.flags(Some(a == 0), Some(s.carry() || (s.a >> 4u8) > 0x09), None, Some(false))
    }.advance(1, 4)
}

pub open spec fn cpl(s: CpuState) -> CpuState {
    CpuState { a: !s.a, ..s.flags(None, None, Some(true), Some(true)) }.advance(1, 4)
}

pub open spec fn scf(s: CpuState) -> CpuState {
    s.flags(None, Some(true), Some(false), Some(false)).advance(1, 4)
}

pub open spec fn ccf(s: CpuState) -> CpuState {
    CpuState { f: s.f ^ 0x10, ..s }.flags(None, None, Some(false), Some(false)).advance(1, 4)
}


// ---------------------------------------------------------------------
// Laws of the instruction set

/// A register pair pushed on a stack in plain RAM is popped back whole,
/// and the stack pointer returns to where it was.
pub proof fn law_push_then_pop(s: CpuState, hi: u8, lo: u8)
    requires
        s.mem.well_sized(),
        s.sp >= 2,
        mmu::is_plain_ram((s.sp - 1) as u16),
        mmu::is_plain_ram((s.sp - 2) as u16),
        s.pc + 2 <= 0xFFFF,
    ensures
        can_push_pair(s, hi),
        can_pop(push_pair(s, hi, lo)),
        pop_bc(push_pair(s, hi, lo)).b == hi,
        pop_bc(push_pair(s, hi, lo)).c == lo,
        pop_bc(push_pair(s, hi, lo)).sp == s.sp,
{
    let t = CpuState { sp: (s.sp - 2) as u16, ..s };
    let hi_addr = (s.sp - 1) as u16;
    let lo_addr = (s.sp - 2) as u16;
    mmu::law_ram_read_after_write(t.mem, hi_addr, lo_addr, hi);
    let m1 = t.mem.write(hi_addr, hi);
    mmu::law_ram_read_after_write(m1, lo_addr, hi_addr, lo);
}

/// A call followed by a return comes back to the instruction after the
/// call, with the stack pointer where it was, when the stack is in plain
/// RAM.
pub proof fn law_call_then_ret(s: CpuState)
    requires
        s.mem.well_sized(),
        s.sp >= 2,
        mmu::is_plain_ram((s.sp - 1) as u16),
        mmu::is_plain_ram((s.sp - 2) as u16),
        s.pc + 3 <= 0xFFFF,
    ensures
        can_ret_when(call_when(s, true), true),
        ret_when(call_when(s, true), true, 16).pc == s.pc + 3,
        ret_when(call_when(s, true), true, 16).sp == s.sp,
{
    let ret = (s.pc + 3) as u16;
    let t = CpuState { pc: ret, sp: (s.sp - 2) as u16, ..s };
    let hi_addr = (s.sp - 1) as u16;
    let lo_addr = (s.sp - 2) as u16;
    mmu::law_ram_read_after_write(t.mem, hi_addr, lo_addr, bits::high_byte(ret));
    let m1 = t.mem.write(hi_addr, bits::high_byte(ret));
    mmu::law_ram_read_after_write(m1, lo_addr, hi_addr, bits::low_byte(ret));
    bits::lemma_split(ret);
}

/// A restart followed by a return comes back to the instruction after the
/// restart, with the stack pointer where it was, when the stack is in plain
/// RAM.
pub proof fn law_rst_then_ret(s: CpuState, address: u16)
    requires
        s.mem.well_sized(),
        s.sp >= 2,
        mmu::is_plain_ram((s.sp - 1) as u16),
        mmu::is_plain_ram((s.sp - 2) as u16),
        s.pc + 1 <= 0xFFFF,
    ensures
        can_rst(s),
        can_ret_when(rst(s, address), true),
        ret_when(rst(s, address), true, 16).pc == s.pc + 1,
        ret_when(rst(s, address), true, 16).sp == s.sp,
{
    let ret = (s.pc + 1) as u16;
    let t = CpuState { pc: ret, sp: (s.sp - 2) as u16, ..s };
    let hi_addr = (s.sp - 1) as u16;
    let lo_addr = (s.sp - 2) as u16;
    mmu::law_ram_read_after_write(t.mem, hi_addr, lo_addr, bits::high_byte(ret));
    let m1 = t.mem.write(hi_addr, bits::high_byte(ret));
    mmu::law_ram_read_after_write(m1, lo_addr, hi_addr, bits::low_byte(ret));
    bits::lemma_split(ret);
}

/// The byte operations that undo each other: an increment and a
/// decrement, a rotate left and a rotate right, two nibble swaps, two
/// complements.
pub proof fn law_inverse_byte_operations(v: u8)
    ensures
        dec_value(inc_value(v)) == v,
        inc_value(dec_value(v)) == v,
        rrc_value(rlc_value(v)) == v,
        rlc_value(rrc_value(v)) == v,
        swap_value(swap_value(v)) == v,
        !(!v) == v,
{
    assert(rrc_value(rlc_value(v)) == v && rlc_value(rrc_value(v)) == v) by (bit_vector);
    assert(swap_value(swap_value(v)) == v && !(!v) == v) by (bit_vector);
}

/// Complementing `A` twice gives `A` back.
pub proof fn law_cpl_twice(s: CpuState)
    ensures
        cpl(cpl(s)).a == s.a,
{
    law_inverse_byte_operations(s.a);
}

/// `XOR A` clears `A` and sets only the Zero flag.
pub proof fn law_xor_a_clears(s: CpuState)
    ensures
        xor_a(s, s.a).a == 0,
        xor_a(s, s.a).zero(),
        !xor_a(s, s.a).carry(),
        !xor_a(s, s.a).negative(),
        !xor_a(s, s.a).half_carry(),
{
    let v = s.a;
    assert(v ^ v == 0) by (bit_vector);
    bits::lemma_with_flags(s.f, Some(true), Some(false), Some(false), Some(false));
}

} // verus!
