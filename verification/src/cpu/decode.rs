//! The decoding of opcodes: which instruction each of the 256 opcodes and
//! each of the 256 opcodes after the 0xCB prefix carries out.
//!
//! An opcode splits into the fields `x` (bits 7-6), `y` (bits 5-3) and `z`
//! (bits 2-0). Register operands are numbered B, C, D, E, H, L, (HL), A.
use vstd::prelude::*;
use crate::bits;
use super::isa::{self, CpuState};

verus! {

/// Bits 7-6 of an opcode.
pub open spec fn field_x(opcode: u8) -> u8 {
    opcode / 64
}

/// Bits 5-3 of an opcode.
pub open spec fn field_y(opcode: u8) -> u8 {
    (opcode / 8) % 8
}

/// Bits 2-0 of an opcode.
pub open spec fn field_z(opcode: u8) -> u8 {
    opcode % 8
}

/// The value of register operand `i` (not 6, which names `(HL)`).
pub open spec fn reg(s: CpuState, i: u8) -> u8 {
    if i == 0 {
        s.b
    } else if i == 1 {
        s.c
    } else if i == 2 {
        s.d
    } else if i == 3 {
        s.e
    } else if i == 4 {
        s.h
    } else if i == 5 {
        s.l
    } else {
        s.a
    }
}

/// The state with register operand `i` (not 6) set to `value`.
pub open spec fn with_reg(s: CpuState, i: u8, value: u8) -> CpuState {
    if i == 0 {
        CpuState { b: value, ..s }
    } else if i == 1 {
        CpuState { c: value, ..s }
    } else if i == 2 {
        CpuState { d: value, ..s }
    } else if i == 3 {
        CpuState { e: value, ..s }
    } else if i == 4 {
        CpuState { h: value, ..s }
    } else if i == 5 {
        CpuState { l: value, ..s }
    } else {
        CpuState { a: value, ..s }
    }
}

/// The condition of a conditional jump, call or return: NZ, Z, NC or C.
pub open spec fn condition(s: CpuState, y: u8) -> bool {
    if y == 0 {
        !s.zero()
    } else if y == 1 {
        s.zero()
    } else if y == 2 {
        !s.carry()
    } else {
        s.carry()
    }
}

/// A 16-bit register pair after an increment (`up`) or decrement.
pub open spec fn stepped(value: u16, up: bool) -> u16 {
    if up {
        bits::wrap16(value + 1)
    } else {
        bits::wrap16(value - 1)
    }
}

// ---------------------------------------------------------------------
// Opcodes 0x00 - 0x3F

pub open spec fn exec_00(s: CpuState, y: u8, z: u8) -> CpuState {
    if z == 0 {
        if y == 0 || y == 2 {
            isa::nop(s)
        } else if y == 1 {
            isa::ld_m_u16_sp(s)
        } else if y == 3 {
            isa::jr_when(s, true)
        } else {
            isa::jr_when(s, condition(s, (y - 4) as u8))
        }
    } else if z == 1 {
        if y == 0 {
            isa::ld_bc_u16(s)
        } else if y == 1 {
            isa::add_hl_r_u16(s, s.b, s.c)
        } else if y == 2 {
            isa::ld_de_u16(s)
        } else if y == 3 {
            isa::add_hl_r_u16(s, s.d, s.e)
        } else if y == 4 {
            isa::ld_hl_u16(s)
        } else if y == 5 {
            isa::add_hl_r_u16(s, s.h, s.l)
        } else if y == 6 {
            isa::ld_sp_u16(s)
        } else {
            isa::add_hl_sp(s)
        }
    } else if z == 2 {
        if y == 0 {
            isa::ld_m_r_u16_a(s, s.b, s.c)
        } else if y == 1 {
            isa::ld_a_m_r_u16(s, s.b, s.c)
        } else if y == 2 {
            isa::ld_m_r_u16_a(s, s.d, s.e)
        } else if y == 3 {
            isa::ld_a_m_r_u16(s, s.d, s.e)
        } else if y == 4 {
            isa::ld_hl_inc_a(s)
        } else if y == 5 {
            isa::ld_a_hl_inc(s)
        } else if y == 6 {
            isa::ld_hl_dec_a(s)
        } else {
            isa::ld_a_hl_dec(s)
        }
    } else if z == 3 {
        let up = y % 2 == 0;
        if y <= 1 {
            let r = stepped(s.bc(), up);
            CpuState { b: bits::high_byte(r), c: bits::low_byte(r), ..isa::step_r_u16(s) }
        } else if y <= 3 {
            let r = stepped(s.de(), up);
            CpuState { d: bits::high_byte(r), e: bits::low_byte(r), ..isa::step_r_u16(s) }
        } else if y <= 5 {
            let r = stepped(s.hl(), up);
            CpuState { h: bits::high_byte(r), l: bits::low_byte(r), ..isa::step_r_u16(s) }
        } else if y == 6 {
            isa::inc_sp(s)
        } else {
            isa::dec_sp(s)
        }
    } else if z == 4 {
        if y == 6 {
            isa::inc_m_hl(s)
        } else {
            with_reg(isa::inc_r_u8(s, reg(s, y)), y, isa::inc_value(reg(s, y)))
        }
    } else if z == 5 {
        if y == 6 {
            isa::dec_m_hl(s)
        } else {
            with_reg(isa::dec_r_u8(s, reg(s, y)), y, isa::dec_value(reg(s, y)))
        }
    } else if z == 6 {
        if y == 6 {
            isa::ld_m_hl_u8(s)
        } else {
            with_reg(s, y, s.imm8()).advance(2, 8)
        }
    } else {
        if y == 0 {
            isa::rlca(s)
        } else if y == 1 {
            isa::rrca(s)
        } else if y == 2 {
            isa::rla(s)
        } else if y == 3 {
            isa::rra(s)
        } else if y == 4 {
            isa::daa(s)
        } else if y == 5 {
            isa::cpl(s)
        } else if y == 6 {
            isa::scf(s)
        } else {
            isa::ccf(s)
        }
    }
}

pub open spec fn can_00(s: CpuState, y: u8, z: u8) -> bool {
    if z == 0 {
        if y == 0 || y == 2 {
            s.fits(1)
        } else if y == 1 {
            isa::can_ld_m_u16_sp(s)
        } else if y == 3 {
            isa::can_jr_when(s, true)
        } else {
            isa::can_jr_when(s, condition(s, (y - 4) as u8))
        }
    } else if z == 1 {
        if y % 2 == 0 {
            s.operands_ok(2)
        } else {
            s.fits(1)
        }
    } else if z == 2 {
        let address: int = if y <= 1 {
            s.bc() as int
        } else if y <= 3 {
            s.de() as int
        } else {
            s.hl() as int
        };
        s.fits(1) && if y % 2 == 0 {
            s.writable(address)
        } else {
            s.readable(address)
        }
    } else if z == 3 {
        s.fits(1)
    } else if z == 4 || z == 5 {
        if y == 6 {
            isa::can_modify_m_hl(s)
        } else {
            s.fits(1)
        }
    } else if z == 6 {
        s.operands_ok(1) && (y == 6 ==> s.writable(s.hl() as int))
    } else {
        s.fits(1)
    }
}

// ---------------------------------------------------------------------
// Opcodes 0x40 - 0x7F

pub open spec fn exec_01(s: CpuState, y: u8, z: u8) -> CpuState {
    if z == 6 {
        if y == 6 {
            isa::halt(s)
        } else {
            with_reg(isa::ld_r_u8_m_hl(s), y, isa::m_hl(s))
        }
    } else if y == 6 {
        isa::ld_m_hl_r_u8(s, reg(s, z))
    } else {
        with_reg(s, y, reg(s, z)).advance(1, 4)
    }
}

pub open spec fn can_01(s: CpuState, y: u8, z: u8) -> bool {
    &&& s.fits(1)
    &&& z == 6 && y != 6 ==> s.readable(s.hl() as int)
    &&& z != 6 && y == 6 ==> s.writable(s.hl() as int)
}

// ---------------------------------------------------------------------
// Opcodes 0x80 - 0xBF

/// Arithmetic or logic operation `y` on `A` and a register value.
pub open spec fn alu_r(s: CpuState, y: u8, value: u8) -> CpuState {
    if y == 0 {
        isa::add_a_r_u8(s, value)
    } else if y == 1 {
        isa::adc_a_r_u8(s, value)
    } else if y == 2 {
        isa::sub_a_r_u8(s, value)
    } else if y == 3 {
        isa::sbc_a_r_u8(s, value)
    } else if y == 4 {
        isa::and_a_r_u8(s, value)
    } else if y == 5 {
        isa::xor_a_r_u8(s, value)
    } else if y == 6 {
        isa::or_a_r_u8(s, value)
    } else {
        isa::cp_a_r_u8(s, value)
    }
}

/// Arithmetic or logic operation `y` on `A` and the byte at `HL`.
pub open spec fn alu_m_hl(s: CpuState, y: u8) -> CpuState {
    if y == 0 {
        isa::add_a_m_hl(s)
    } else if y == 1 {
        isa::adc_a_m_hl(s)
    } else if y == 2 {
        isa::sub_a_m_hl(s)
    } else if y == 3 {
        isa::sbc_a_m_hl(s)
    } else if y == 4 {
        isa::and_a_m_hl(s)
    } else if y == 5 {
        isa::xor_a_m_hl(s)
    } else if y == 6 {
        isa::or_a_m_hl(s)
    } else {
        isa::cp_a_m_hl(s)
    }
}

/// Arithmetic or logic operation `y` on `A` and the byte after the opcode.
pub open spec fn alu_u8(s: CpuState, y: u8) -> CpuState {
    if y == 0 {
        isa::add_a_u8(s)
    } else if y == 1 {
        isa::adc_a_u8(s)
    } else if y == 2 {
        isa::sub_a_u8(s)
    } else if y == 3 {
        isa::sbc_a_u8(s)
    } else if y == 4 {
        isa::and_a_u8(s)
    } else if y == 5 {
        isa::xor_a_u8(s)
    } else if y == 6 {
        isa::or_a_u8(s)
    } else {
        isa::cp_a_u8(s)
    }
}

pub open spec fn exec_10(s: CpuState, y: u8, z: u8) -> CpuState {
    if z == 6 {
        alu_m_hl(s, y)
    } else {
        alu_r(s, y, reg(s, z))
    }
}

pub open spec fn can_10(s: CpuState, y: u8, z: u8) -> bool {
    s.fits(1) && (z == 6 ==> s.readable(s.hl() as int))
}

// ---------------------------------------------------------------------
// Opcodes 0xC0 - 0xFF

/// Whether an opcode with `x` = 3 names no instruction.
pub open spec fn is_illegal_11(y: u8, z: u8) -> bool {
    ||| z == 3 && 1 <= y <= 5
    ||| z == 4 && y >= 4
    ||| z == 5 && (y == 3 || y == 5 || y == 7)
}

pub open spec fn exec_11(s: CpuState, y: u8, z: u8) -> CpuState {
    if z == 0 {
        if y <= 3 {
            isa::ret_when(s, condition(s, y), 20)
        } else if y == 4 {
            isa::ld_ff00_plus_u8_a(s)
        } else if y == 5 {
            isa::add_sp_i8(s)
        } else if y == 6 {
            isa::ld_a_ff00_plus_u8(s)
        } else {
            isa::ld_hl_sp_plus_i8(s)
        }
    } else if z == 1 {
        if y == 0 {
            isa::pop_bc(s)
        } else if y == 1 {
            isa::ret_when(s, true, 16)
        } else if y == 2 {
            isa::pop_de(s)
        } else if y == 3 {
            isa::reti(s)
        } else if y == 4 {
            isa::pop_hl(s)
        } else if y == 5 {
            isa::jp_hl(s)
        } else if y == 6 {
            isa::pop_af(s)
        } else {
            isa::ld_sp_hl(s)
        }
    } else if z == 2 {
        if y <= 3 {
            isa::jp_when(s, condition(s, y))
        } else if y == 4 {
            isa::ld_ff00_plus_c_a(s)
        } else if y == 5 {
            isa::ld_u16_a(s)
        } else if y == 6 {
            isa::ld_a_ff00_plus_c(s)
        } else {
            isa::ld_a_u16(s)
        }
    } else if z == 3 {
        if y == 0 {
            isa::jp_when(s, true)
        } else if y == 6 {
            isa::di(s)
        } else {
            isa::ei(s)
        }
    } else if z == 4 {
        isa::call_when(s, condition(s, y))
    } else if z == 5 {
        if y == 0 {
            isa::push_pair(s, s.b, s.c)
        } else if y == 1 {
            isa::call_when(s, true)
        } else if y == 2 {
            isa::push_pair(s, s.d, s.e)
        } else if y == 4 {
            isa::push_pair(s, s.h, s.l)
        } else {
            isa::push_pair(s, s.a, s.f)
        }
    } else if z == 6 {
        alu_u8(s, y)
    } else {
        isa::rst(s, (y * 8) as u16)
    }
}

pub open spec fn can_11(s: CpuState, y: u8, z: u8) -> bool {
    if is_illegal_11(y, z) {
        false
    } else if z == 0 {
        if y <= 3 {
            isa::can_ret_when(s, condition(s, y))
        } else if y == 4 {
            s.operands_ok(1) && s.writable(0xFF00 + s.imm8())
        } else if y == 6 {
            s.operands_ok(1) && s.readable(0xFF00 + s.imm8())
        } else {
            s.operands_ok(1)
        }
    } else if z == 1 {
        if y == 1 || y == 3 {
            isa::can_ret_when(s, true)
        } else if y == 5 {
            true
        } else if y == 7 {
            s.fits(1)
        } else {
            isa::can_pop(s)
        }
    } else if z == 2 {
        if y <= 3 {
            isa::can_jp_when(s, condition(s, y))
        } else if y == 4 {
            s.fits(1) && s.writable(0xFF00 + s.c)
        } else if y == 5 {
            s.operands_ok(2) && s.writable(s.imm16() as int)
        } else if y == 6 {
            s.fits(1) && s.readable(0xFF00 + s.c)
        } else {
            s.operands_ok(2) && s.readable(s.imm16() as int)
        }
    } else if z == 3 {
        if y == 0 {
            isa::can_jp_when(s, true)
        } else {
            s.fits(1)
        }
    } else if z == 4 {
        isa::can_call_when(s, condition(s, y))
    } else if z == 5 {
        if y == 0 {
            isa::can_push_pair(s, s.b)
        } else if y == 1 {
            isa::can_call_when(s, true)
        } else if y == 2 {
            isa::can_push_pair(s, s.d)
        } else if y == 4 {
            isa::can_push_pair(s, s.h)
        } else {
            isa::can_push_pair(s, s.a)
        }
    } else if z == 6 {
        s.operands_ok(1)
    } else {
        isa::can_rst(s)
    }
}

/// The instruction of an opcode without prefix.
pub open spec fn unprefixed(s: CpuState, opcode: u8) -> CpuState {
    let x = field_x(opcode);
    let y = field_y(opcode);
    let z = field_z(opcode);
    if x == 0 {
        exec_00(s, y, z)
    } else if x == 1 {
        exec_01(s, y, z)
    } else if x == 2 {
        exec_10(s, y, z)
    } else {
        exec_11(s, y, z)
    }
}

pub open spec fn can_unprefixed(s: CpuState, opcode: u8) -> bool {
    let x = field_x(opcode);
    let y = field_y(opcode);
    let z = field_z(opcode);
    if x == 0 {
        can_00(s, y, z)
    } else if x == 1 {
        can_01(s, y, z)
    } else if x == 2 {
        can_10(s, y, z)
    } else {
        can_11(s, y, z)
    }
}

// ---------------------------------------------------------------------
// Opcodes after the 0xCB prefix

/// The rotate or shift `y` of a value.
pub open spec fn rotated(y: u8, value: u8, f: u8) -> u8 {
    if y == 0 {
        isa::rlc_value(value)
    } else if y == 1 {
        isa::rrc_value(value)
    } else if y == 2 {
        isa::rl_value(value, f)
    } else if y == 3 {
        isa::rr_value(value, f)
    } else if y == 4 {
        isa::sla_value(value)
    } else if y == 5 {
        isa::sra_value(value)
    } else if y == 6 {
        isa::swap_value(value)
    } else {
        isa::srl_value(value)
    }
}

/// The rotate or shift `y` of a register, flags and all.
pub open spec fn rotate_r(s: CpuState, y: u8, value: u8) -> CpuState {
    if y == 0 {
        isa::rlc(s, value)
    } else if y == 1 {
        isa::rrc(s, value)
    } else if y == 2 {
        isa::rl(s, value)
    } else if y == 3 {
        isa::rr(s, value)
    } else if y == 4 {
        isa::sla(s, value)
    } else if y == 5 {
        isa::sra(s, value)
    } else if y == 6 {
        isa::swap(s, value)
    } else {
        isa::srl(s, value)
    }
}

/// The rotate or shift `y` of the byte at `HL`.
pub open spec fn rotate_m_hl(s: CpuState, y: u8) -> CpuState {
    if y == 0 {
        isa::rlc_m_hl(s)
    } else if y == 1 {
        isa::rrc_m_hl(s)
    } else if y == 2 {
        isa::rl_m_hl(s)
    } else if y == 3 {
        isa::rr_m_hl(s)
    } else if y == 4 {
        isa::sla_m_hl(s)
    } else if y == 5 {
        isa::sra_m_hl(s)
    } else if y == 6 {
        isa::swap_m_hl(s)
    } else {
        isa::srl_m_hl(s)
    }
}

pub open spec fn exec_cb_00(s: CpuState, y: u8, z: u8) -> CpuState {
    if z == 6 {
        rotate_m_hl(s, y)
    } else {
        with_reg(rotate_r(s, y, reg(s, z)), z, rotated(y, reg(s, z), s.f))
    }
}

pub open spec fn exec_cb_01(s: CpuState, y: u8, z: u8) -> CpuState {
    if z == 6 {
        isa::bit_n_m_hl(s, y)
    } else {
        isa::bit_n_r_u8(s, y, reg(s, z))
    }
}

pub open spec fn exec_cb_10(s: CpuState, y: u8, z: u8) -> CpuState {
    if z == 6 {
        isa::res_n_m_hl(s, y)
    } else {
        with_reg(isa::bit_op_r(s), z, isa::res_value(y, reg(s, z)))
    }
}

pub open spec fn exec_cb_11(s: CpuState, y: u8, z: u8) -> CpuState {
    if z == 6 {
        isa::set_n_m_hl(s, y)
    } else {
        with_reg(isa::bit_op_r(s), z, isa::set_value(y, reg(s, z)))
    }
}

/// Whether a prefixed instruction that only reads its operand completes.
pub open spec fn can_cb_read(s: CpuState, y: u8, z: u8) -> bool {
    s.fits(1) && (z == 6 ==> s.readable(s.hl() as int))
}

/// Whether a prefixed instruction that rewrites its operand completes.
pub open spec fn can_cb_modify(s: CpuState, y: u8, z: u8) -> bool {
    if z == 6 {
        isa::can_modify_m_hl(s)
    } else {
        s.fits(1)
    }
}

/// The condition under which a prefixed instruction completes.
pub open spec fn can_prefixed(s: CpuState, opcode: u8) -> bool {
    if field_x(opcode) == 1 {
        can_cb_read(s, field_y(opcode), field_z(opcode))
    } else {
        can_cb_modify(s, field_y(opcode), field_z(opcode))
    }
}

/// The instruction of an opcode after the 0xCB prefix.
pub open spec fn prefixed(s: CpuState, opcode: u8) -> CpuState {
    let x = field_x(opcode);
    let y = field_y(opcode);
    let z = field_z(opcode);
    if x == 0 {
        exec_cb_00(s, y, z)
    } else if x == 1 {
        exec_cb_01(s, y, z)
    } else if x == 2 {
        exec_cb_10(s, y, z)
    } else {
        exec_cb_11(s, y, z)
    }
}

/// The state once the prefix byte has been passed over.
pub open spec fn past_prefix(s: CpuState) -> CpuState {
    CpuState { pc: (s.pc + 1) as u16, ..s }
}

/// The instruction that follows the 0xCB prefix.
#[verifier::opaque]
pub open spec fn cb_instruction(s: CpuState) -> CpuState {
    let t = past_prefix(s);
    prefixed(t, t.read(t.pc as int))
}

/// Whether the instruction that follows the 0xCB prefix completes.
#[verifier::opaque]
pub open spec fn can_cb_instruction(s: CpuState) -> bool {
    let t = past_prefix(s);
    &&& s.fits(1)
    &&& t.readable(t.pc as int)
    &&& can_prefixed(t, t.read(t.pc as int))
}

/// The instruction that `opcode` starts.
pub open spec fn execute(s: CpuState, opcode: u8) -> CpuState {
    if opcode != 0xCB {
        unprefixed(s, opcode)
    } else {
        cb_instruction(s)
    }
}

/// Whether the instruction that `opcode` starts completes: it is one of the
/// instruction set, and it stays within the program counter's range and
/// the memory that it reaches.
pub open spec fn can_execute(s: CpuState, opcode: u8) -> bool {
    if opcode != 0xCB {
        can_unprefixed(s, opcode)
    } else {
        can_cb_instruction(s)
    }
}

// ---------------------------------------------------------------------
// Interrupts and the fetch-execute cycle

/// The interrupts that are both requested and enabled.
pub open spec fn pending_interrupts(s: CpuState) -> u8 {
    s.mem.interrupt_flag & s.mem.interrupt_enable & 0b00011111
}

/// Whether the CPU takes an interrupt before the next instruction.
pub open spec fn takes_interrupt(s: CpuState) -> bool {
    s.ime && pending_interrupts(s) != 0
}

/// The state after an interrupt is taken, if one is: the program counter
/// is pushed, the highest-priority requested interrupt (by the flag
/// register alone) is acknowledged, and the CPU jumps to its vector with
/// interrupts disabled.
pub open spec fn interrupt_taken(s: CpuState) -> CpuState {
    if !takes_interrupt(s) {
        s
    } else {
        let flag = s.mem.interrupt_flag;
        let t = s.push(bits::high_byte(s.pc), bits::low_byte(s.pc));
        if flag & 0b00000001 != 0 {
            CpuState { pc: 0x0040, ime: false, ..t.write(0xFF0F, flag & !0b00000001u8) }
        } else if flag & 0b00000010 != 0 {
            CpuState { pc: 0x0048, ime: false, ..t.write(0xFF0F, flag & !0b00000010u8) }
        } else if flag & 0b00000100 != 0 {
            CpuState { pc: 0x0050, ime: false, ..t.write(0xFF0F, flag & !0b00000100u8) }
        } else if flag & 0b00001000 != 0 {
            CpuState { pc: 0x0058, ime: false, ..t.write(0xFF0F, flag & !0b00001000u8) }
        } else if flag & 0b00010000 != 0 {
            CpuState { pc: 0x0060, ime: false, ..t.write(0xFF0F, flag & !0b00010000u8) }
        } else {
            t
        }
    }
}

/// Whether taking an interrupt, if one is taken, completes.
pub open spec fn can_take_interrupt(s: CpuState) -> bool {
    takes_interrupt(s) ==> s.can_push(bits::high_byte(s.pc))
}

/// Whether the CPU is halted with no interrupt both requested and enabled:
/// it then waits and runs nothing.
pub open spec fn waiting(s: CpuState) -> bool {
    s.halted && pending_interrupts(s) == 0
}

/// The CPU running again: a halted CPU wakes once an interrupt is both
/// requested and enabled, whether or not interrupts are enabled.
pub open spec fn awake(s: CpuState) -> CpuState {
    CpuState { halted: false, ..s }
}

/// The state that a step which cannot complete leaves: the CPU is awake,
/// and the interrupt, if one is due and can be taken, has been taken.
pub open spec fn failed_tick(s: CpuState) -> CpuState {
    if can_take_interrupt(awake(s)) {
        interrupt_taken(awake(s))
    } else {
        awake(s)
    }
}

/// One step of the CPU. A waiting CPU changes nothing but lets four cycles
/// pass; otherwise it wakes, takes an interrupt if one is due, then fetches
/// and executes the next instruction.
#[verifier::opaque]
pub open spec fn tick(s: CpuState) -> CpuState {
    if waiting(s) {
        CpuState { cycles: 4, ..s }
    } else {
        let t = interrupt_taken(awake(s));
        execute(t, t.read(t.pc as int))
    }
}

/// Whether one step of the CPU completes.
#[verifier::opaque]
pub open spec fn can_tick(s: CpuState) -> bool {
    waiting(s) || {
        let t = interrupt_taken(awake(s));
        &&& can_take_interrupt(awake(s))
        &&& t.readable(t.pc as int)
        &&& can_execute(t, t.read(t.pc as int))
    }
}

// ---------------------------------------------------------------------
// The lower nibble of F

proof fn lemma_low_nibble_00(s: CpuState, y: u8, z: u8)
    ensures
        exec_00(s, y, z).f & 0x0F == s.f & 0x0F,
{
    bits::lemma_low_nibble_kept();
}

proof fn lemma_low_nibble_01(s: CpuState, y: u8, z: u8)
    ensures
        exec_01(s, y, z).f & 0x0F == s.f & 0x0F,
{
    bits::lemma_low_nibble_kept();
}

proof fn lemma_low_nibble_10(s: CpuState, y: u8, z: u8)
    ensures
        exec_10(s, y, z).f & 0x0F == s.f & 0x0F,
{
    bits::lemma_low_nibble_kept();
}

proof fn lemma_low_nibble_11(s: CpuState, y: u8, z: u8)
    ensures
        exec_11(s, y, z).f & 0x0F == s.f & 0x0F,
{
    bits::lemma_low_nibble_kept();
}

proof fn lemma_low_nibble_prefixed(s: CpuState, opcode: u8)
    ensures
        prefixed(s, opcode).f & 0x0F == s.f & 0x0F,
{
    bits::lemma_low_nibble_kept();
}

/// No instruction changes the lower nibble of `F`: every instruction
/// changes `F` only through its four flags, so a lower nibble of zero stays
/// zero.
pub proof fn law_low_nibble_of_f(s: CpuState, opcode: u8)
    ensures
        execute(s, opcode).f & 0x0F == s.f & 0x0F,
{
    let x = field_x(opcode);
    let y = field_y(opcode);
    let z = field_z(opcode);
    lemma_low_nibble_00(s, y, z);
    lemma_low_nibble_01(s, y, z);
    lemma_low_nibble_10(s, y, z);
    lemma_low_nibble_11(s, y, z);
    reveal(cb_instruction);
    let t = past_prefix(s);
    lemma_low_nibble_prefixed(t, t.read(t.pc as int));
}

/// A step of the CPU keeps the lower nibble of `F`, interrupt or not.
pub proof fn law_low_nibble_of_f_across_steps(s: CpuState)
    ensures
        tick(s).f & 0x0F == s.f & 0x0F,
{
    reveal(tick);
    let t = interrupt_taken(awake(s));
    law_low_nibble_of_f(t, t.read(t.pc as int));
}

/// A halted CPU with no interrupt both requested and enabled waits: a step
/// completes, changes no register and no memory, and only lets four cycles
/// pass. Once such an interrupt is requested, the step wakes the CPU, takes
/// the interrupt if interrupts are on, and runs the next instruction.
pub proof fn law_halted_cpu_waits(s: CpuState)
    ensures
        waiting(s) ==> tick(s) == (CpuState { cycles: 4, ..s }) && can_tick(s),
        !waiting(s) ==> tick(s) == execute(
            interrupt_taken(awake(s)),
            interrupt_taken(awake(s)).read(interrupt_taken(awake(s)).pc as int),
        ),
{
    reveal(tick);
    reveal(can_tick);
}

} // verus!
