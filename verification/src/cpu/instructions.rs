//! The instructions of the CPU. Each carries out one opcode on the CPU
//! state; its contract gives the state it leaves by the transformer of the
//! same name in `isa`, and its `requires` the condition under which it
//! completes.
use vstd::prelude::*;
use crate::bits;
use super::CPU;
use super::isa::{self, CpuState};

verus! {

pub fn nop(cpu: &mut CPU)
    requires
        old(cpu)@.fits(1),
    ensures
        final(cpu)@ == isa::nop(old(cpu)@),
{
    cpu.set_cycles(4);
    cpu.pc += 1;
}

/// Stops the CPU; here it does no more than `nop`.
pub fn stop(cpu: &mut CPU)
    requires
        old(cpu)@.fits(1),
    ensures
        final(cpu)@ == isa::nop(old(cpu)@),
{
    cpu.set_cycles(4);
    cpu.pc += 1;
}

pub fn halt(cpu: &mut CPU)
    requires
        old(cpu)@.fits(1),
    ensures
        final(cpu)@ == isa::halt(old(cpu)@),
{
    cpu.halted = true;
    cpu.set_cycles(4);
    cpu.pc += 1;
}

pub fn inc_r_u8(cpu: &mut CPU, register: u8) -> (result: u8)
    requires
        old(cpu)@.fits(1),
    ensures
        result == isa::inc_value(register),
        final(cpu)@ == isa::inc_r_u8(old(cpu)@, register),
{
    let half_carry = (register & 0x0F) == 0x0F;
    let result = register.wrapping_add(1);
    let zero = result == 0;
    cpu.update_flags(Some(zero), None, Some(false), Some(half_carry));
    cpu.set_cycles(4);
    cpu.pc += 1;
    result
}

pub fn dec_r_u8(cpu: &mut CPU, register: u8) -> (result: u8)
    requires
        old(cpu)@.fits(1),
    ensures
        result == isa::dec_value(register),
        final(cpu)@ == isa::dec_r_u8(old(cpu)@, register),
{
    let half_carry = (register & 0x0F) == 0x00;
    let result = register.wrapping_sub(1);
    let zero = result == 0;
    cpu.update_flags(Some(zero), None, Some(true), Some(half_carry));
    cpu.set_cycles(4);
    cpu.pc += 1;
    result
}

pub fn inc_r_u16(cpu: &mut CPU, register1: u8, register2: u8) -> (result: (u8, u8))
    requires
        old(cpu)@.fits(1),
    ensures
        result.0 == bits::high_byte(bits::wrap16(bits::pair(register1, register2) + 1)),
        result.1 == bits::low_byte(bits::wrap16(bits::pair(register1, register2) + 1)),
        final(cpu)@ == isa::step_r_u16(old(cpu)@),
{
    proof {
        bits::lemma_pair(register1, register2);
    }
    let combined = ((register1 as u16) << 8) | (register2 as u16);
    let result = combined.wrapping_add(1);
    proof {
        bits::lemma_split(result);
        let p = bits::pair(register1, register2) as int;
        assert(result == bits::wrap16(p + 1)) by {
            if p + 1 > 0xFFFF {
                assert((p + 1) % 65536 == 0);
            } else if p + 1 < 0 {
                assert((p + 1) % 65536 == 0xFFFF);
            } else {
                assert((p + 1) % 65536 == p + 1);
            }
        }
    }
    let new_register1 = (result >> 8) as u8;
    let new_register2 = (result & 0xFF) as u8;
    cpu.pc += 1;
    cpu.set_cycles(8);
    (new_register1, new_register2)
}

pub fn dec_r_u16(cpu: &mut CPU, register1: u8, register2: u8) -> (result: (u8, u8))
    requires
        old(cpu)@.fits(1),
    ensures
        result.0 == bits::high_byte(bits::wrap16(bits::pair(register1, register2) - 1)),
        result.1 == bits::low_byte(bits::wrap16(bits::pair(register1, register2) - 1)),
        final(cpu)@ == isa::step_r_u16(old(cpu)@),
{
    proof {
        bits::lemma_pair(register1, register2);
    }
    let combined = ((register1 as u16) << 8) | (register2 as u16);
    let result = combined.wrapping_sub(1);
    proof {
        bits::lemma_split(result);
        let p = bits::pair(register1, register2) as int;
        assert(result == bits::wrap16(p - 1)) by {
            if p - 1 > 0xFFFF {
                assert((p - 1) % 65536 == 0);
            } else if p - 1 < 0 {
                assert((p - 1) % 65536 == 0xFFFF);
            } else {
                assert((p - 1) % 65536 == p - 1);
            }
        }
    }
    let new_register1 = (result >> 8) as u8;
    let new_register2 = (result & 0xFF) as u8;
    cpu.pc += 1;
    cpu.set_cycles(8);
    (new_register1, new_register2)
}

pub fn inc_sp(cpu: &mut CPU)
    requires
        old(cpu)@.fits(1),
    ensures
        final(cpu)@ == isa::inc_sp(old(cpu)@),
{
    cpu.sp = cpu.sp.wrapping_add(1);
    cpu.set_cycles(8);
    cpu.pc += 1;
}

pub fn dec_sp(cpu: &mut CPU)
    requires
        old(cpu)@.fits(1),
    ensures
        final(cpu)@ == isa::dec_sp(old(cpu)@),
{
    cpu.sp = cpu.sp.wrapping_sub(1);
    cpu.set_cycles(8);
    cpu.pc += 1;
}

pub fn inc_m_hl(cpu: &mut CPU)
    requires
        isa::can_modify_m_hl(old(cpu)@),
    ensures
        final(cpu)@ == isa::inc_m_hl(old(cpu)@),
{
    let address = cpu.hl();
    let value = cpu.mmu.read_byte(address);
    let half_carry = (value & 0x0F) == 0x0F;
    let result = value.wrapping_add(1);
    let zero = result == 0;
    cpu.update_flags(Some(zero), None, Some(false), Some(half_carry));
    cpu.mmu.write_byte(address, result);
    cpu.set_cycles(12);
    cpu.pc += 1;
}

pub fn dec_m_hl(cpu: &mut CPU)
    requires
        isa::can_modify_m_hl(old(cpu)@),
    ensures
        final(cpu)@ == isa::dec_m_hl(old(cpu)@),
{
    let address = cpu.hl();
    let value = cpu.mmu.read_byte(address);
    let half_carry = (value & 0x0F) == 0x00;
    let result = value.wrapping_sub(1);
    let zero = result == 0;
    cpu.update_flags(Some(zero), None, Some(true), Some(half_carry));
    cpu.mmu.write_byte(address, result);
    cpu.set_cycles(12);
    cpu.pc += 1;
}

pub fn add_a_r_u8(cpu: &mut CPU, register: u8)
    requires
        old(cpu)@.fits(1),
    ensures
        final(cpu)@ == isa::add_a_r_u8(old(cpu)@, register),
{
    let carry_flag: u8 = 0;
    add_to_a(cpu, register, carry_flag);
    cpu.set_cycles(4);
    cpu.pc += 1;
}

pub fn add_a_m_hl(cpu: &mut CPU)
    requires
        old(cpu)@.fits(1),
        old(cpu)@.readable(old(cpu)@.hl() as int),
    ensures
        final(cpu)@ == isa::add_a_m_hl(old(cpu)@),
{
    let address = cpu.hl();
    let value = cpu.mmu.read_byte(address);
    let carry_flag: u8 = 0;
    add_to_a(cpu, value, carry_flag);
    cpu.set_cycles(8);
    cpu.pc += 1;
}

pub fn add_a_u8(cpu: &mut CPU)
    requires
        old(cpu)@.operands_ok(1),
    ensures
        final(cpu)@ == isa::add_a_u8(old(cpu)@),
{
    let value = cpu.mmu.fetch_u8(cpu.pc + 1);
    let carry_flag: u8 = 0;
    add_to_a(cpu, value, carry_flag);
    cpu.set_cycles(8);
    cpu.pc += 2;
}

pub fn add_hl_r_u16(cpu: &mut CPU, register1: u8, register2: u8)
    requires
        old(cpu)@.fits(1),
    ensures
        final(cpu)@ == isa::add_hl_r_u16(old(cpu)@, register1, register2),
{
    proof {
        bits::lemma_pair(register1, register2);
    }
    let combined2 = ((register1 as u16) << 8) | (register2 as u16);
    add_to_hl(cpu, combined2);
}

pub fn add_hl_sp(cpu: &mut CPU)
    requires
        old(cpu)@.fits(1),
    ensures
        final(cpu)@ == isa::add_hl_sp(old(cpu)@),
{
    let sp = cpu.sp;
    add_to_hl(cpu, sp);
}

pub fn add_sp_i8(cpu: &mut CPU)
    requires
        old(cpu)@.operands_ok(1),
    ensures
        final(cpu)@ == isa::add_sp_i8(old(cpu)@),
{
    let offset = cpu.mmu.fetch_i8(cpu.pc + 1);
    let result = sp_plus_offset(cpu, offset);
    cpu.set_cycles(16);
    cpu.sp = result;
    cpu.pc += 2;
}

pub fn adc_a_r_u8(cpu: &mut CPU, register: u8)
    requires
        old(cpu)@.fits(1),
    ensures
        final(cpu)@ == isa::adc_a_r_u8(old(cpu)@, register),
{
    let carry_flag: u8 = cpu.carry_bit();
    add_to_a(cpu, register, carry_flag);
    cpu.set_cycles(4);
    cpu.pc += 1;
}

pub fn adc_a_m_hl(cpu: &mut CPU)
    requires
        old(cpu)@.fits(1),
        old(cpu)@.readable(old(cpu)@.hl() as int),
    ensures
        final(cpu)@ == isa::adc_a_m_hl(old(cpu)@),
{
    let address = cpu.hl();
    let value = cpu.mmu.read_byte(address);
    let carry_flag: u8 = cpu.carry_bit();
    add_to_a(cpu, value, carry_flag);
    cpu.set_cycles(8);
    cpu.pc += 1;
}

pub fn adc_a_u8(cpu: &mut CPU)
    requires
        old(cpu)@.operands_ok(1),
    ensures
        final(cpu)@ == isa::adc_a_u8(old(cpu)@),
{
    let value = cpu.mmu.fetch_u8(cpu.pc + 1);
    let carry_flag: u8 = cpu.carry_bit();
    add_to_a(cpu, value, carry_flag);
    cpu.set_cycles(8);
    cpu.pc += 2;
}

pub fn sub_a_r_u8(cpu: &mut CPU, register: u8)
    requires
        old(cpu)@.fits(1),
    ensures
        final(cpu)@ == isa::sub_a_r_u8(old(cpu)@, register),
{
    let carry_flag: u8 = 0;
    sub_from_a(cpu, register, carry_flag);
    cpu.set_cycles(4);
    cpu.pc += 1;
}

pub fn sub_a_m_hl(cpu: &mut CPU)
    requires
        old(cpu)@.fits(1),
        old(cpu)@.readable(old(cpu)@.hl() as int),
    ensures
        final(cpu)@ == isa::sub_a_m_hl(old(cpu)@),
{
    let address = cpu.hl();
    let value = cpu.mmu.read_byte(address);
    let carry_flag: u8 = 0;
    sub_from_a(cpu, value, carry_flag);
    cpu.set_cycles(8);
    cpu.pc += 1;
}

pub fn sub_a_u8(cpu: &mut CPU)
    requires
        old(cpu)@.operands_ok(1),
    ensures
        final(cpu)@ == isa::sub_a_u8(old(cpu)@),
{
    let value = cpu.mmu.fetch_u8(cpu.pc + 1);
    let carry_flag: u8 = 0;
    sub_from_a(cpu, value, carry_flag);
    cpu.set_cycles(8);
    cpu.pc += 2;
}

pub fn sbc_a_r_u8(cpu: &mut CPU, register: u8)
    requires
        old(cpu)@.fits(1),
    ensures
        final(cpu)@ == isa::sbc_a_r_u8(old(cpu)@, register),
{
    let carry_flag: u8 = cpu.carry_bit();
    sub_from_a(cpu, register, carry_flag);
    cpu.set_cycles(4);
    cpu.pc += 1;
}

pub fn sbc_a_m_hl(cpu: &mut CPU)
    requires
        old(cpu)@.fits(1),
        old(cpu)@.readable(old(cpu)@.hl() as int),
    ensures
        final(cpu)@ == isa::sbc_a_m_hl(old(cpu)@),
{
    let address = cpu.hl();
    let value = cpu.mmu.read_byte(address);
    let carry_flag: u8 = cpu.carry_bit();
    sub_from_a(cpu, value, carry_flag);
    cpu.set_cycles(8);
    cpu.pc += 1;
}

pub fn sbc_a_u8(cpu: &mut CPU)
    requires
        old(cpu)@.operands_ok(1),
    ensures
        final(cpu)@ == isa::sbc_a_u8(old(cpu)@),
{
    let value = cpu.mmu.fetch_u8(cpu.pc + 1);
    let carry_flag: u8 = cpu.carry_bit();
    sub_from_a(cpu, value, carry_flag);
    cpu.set_cycles(8);
    cpu.pc += 2;
}

pub fn and_a_r_u8(cpu: &mut CPU, register: u8)
    requires
        old(cpu)@.fits(1),
    ensures
        final(cpu)@ == isa::and_a_r_u8(old(cpu)@, register),
{
    and_a(cpu, register);
    cpu.set_cycles(4);
    cpu.pc += 1;
}

pub fn and_a_m_hl(cpu: &mut CPU)
    requires
        old(cpu)@.fits(1),
        old(cpu)@.readable(old(cpu)@.hl() as int),
    ensures
        final(cpu)@ == isa::and_a_m_hl(old(cpu)@),
{
    let address = cpu.hl();
    let value = cpu.mmu.read_byte(address);
    and_a(cpu, value);
    cpu.set_cycles(8);
    cpu.pc += 1;
}

pub fn and_a_u8(cpu: &mut CPU)
    requires
        old(cpu)@.operands_ok(1),
    ensures
        final(cpu)@ == isa::and_a_u8(old(cpu)@),
{
    let value = cpu.mmu.fetch_u8(cpu.pc + 1);
    and_a(cpu, value);
    cpu.set_cycles(8);
    cpu.pc += 2;
}

pub fn xor_a_r_u8(cpu: &mut CPU, register: u8)
    requires
        old(cpu)@.fits(1),
    ensures
        final(cpu)@ == isa::xor_a_r_u8(old(cpu)@, register),
{
    xor_a(cpu, register);
    cpu.set_cycles(4);
    cpu.pc += 1;
}

pub fn xor_a_m_hl(cpu: &mut CPU)
    requires
        old(cpu)@.fits(1),
        old(cpu)@.readable(old(cpu)@.hl() as int),
    ensures
        final(cpu)@ == isa::xor_a_m_hl(old(cpu)@),
{
    let address = cpu.hl();
    let value = cpu.mmu.read_byte(address);
    xor_a(cpu, value);
    cpu.set_cycles(8);
    cpu.pc += 1;
}

pub fn xor_a_u8(cpu: &mut CPU)
    requires
        old(cpu)@.operands_ok(1),
    ensures
        final(cpu)@ == isa::xor_a_u8(old(cpu)@),
{
    let value = cpu.mmu.fetch_u8(cpu.pc + 1);
    xor_a(cpu, value);
    cpu.set_cycles(8);
    cpu.pc += 2;
}

pub fn or_a_r_u8(cpu: &mut CPU, register: u8)
    requires
        old(cpu)@.fits(1),
    ensures
        final(cpu)@ == isa::or_a_r_u8(old(cpu)@, register),
{
    or_a(cpu, register);
    cpu.set_cycles(4);
    cpu.pc += 1;
}

pub fn or_a_m_hl(cpu: &mut CPU)
    requires
        old(cpu)@.fits(1),
        old(cpu)@.readable(old(cpu)@.hl() as int),
    ensures
        final(cpu)@ == isa::or_a_m_hl(old(cpu)@),
{
    let address = cpu.hl();
    let value = cpu.mmu.read_byte(address);
    or_a(cpu, value);
    cpu.set_cycles(8);
    cpu.pc += 1;
}

pub fn or_a_u8(cpu: &mut CPU)
    requires
        old(cpu)@.operands_ok(1),
    ensures
        final(cpu)@ == isa::or_a_u8(old(cpu)@),
{
    let value = cpu.mmu.fetch_u8(cpu.pc + 1);
    or_a(cpu, value);
    cpu.set_cycles(8);
    cpu.pc += 2;
}

pub fn cp_a_r_u8(cpu: &mut CPU, register: u8)
    requires
        old(cpu)@.fits(1),
    ensures
        final(cpu)@ == isa::cp_a_r_u8(old(cpu)@, register),
{
    compare_a(cpu, register);
    cpu.set_cycles(4);
    cpu.pc += 1;
}

pub fn cp_a_m_hl(cpu: &mut CPU)
    requires
        old(cpu)@.fits(1),
        old(cpu)@.readable(old(cpu)@.hl() as int),
    ensures
        final(cpu)@ == isa::cp_a_m_hl(old(cpu)@),
{
    let address = cpu.hl();
    let value = cpu.mmu.read_byte(address);
    compare_a(cpu, value);
    cpu.set_cycles(8);
    cpu.pc += 1;
}

pub fn cp_a_u8(cpu: &mut CPU)
    requires
        old(cpu)@.operands_ok(1),
    ensures
        final(cpu)@ == isa::cp_a_u8(old(cpu)@),
{
    let value = cpu.mmu.fetch_u8(cpu.pc + 1);
    compare_a(cpu, value);
    cpu.set_cycles(8);
    cpu.pc += 2;
}

pub fn ld_b_r_u8(cpu: &mut CPU, register: u8)
    requires
        old(cpu)@.fits(1),
    ensures
        final(cpu)@ == isa::ld_b(old(cpu)@, register).advance(1, 4),
{
    cpu.b = register;
    cpu.set_cycles(4);
    cpu.pc += 1;
}

pub fn ld_c_r_u8(cpu: &mut CPU, register: u8)
    requires
        old(cpu)@.fits(1),
    ensures
        final(cpu)@ == isa::ld_c(old(cpu)@, register).advance(1, 4),
{
    cpu.c = register;
    cpu.set_cycles(4);
    cpu.pc += 1;
}

pub fn ld_d_r_u8(cpu: &mut CPU, register: u8)
    requires
        old(cpu)@.fits(1),
    ensures
        final(cpu)@ == isa::ld_d(old(cpu)@, register).advance(1, 4),
{
    cpu.d = register;
    cpu.set_cycles(4);
    cpu.pc += 1;
}

pub fn ld_e_r_u8(cpu: &mut CPU, register: u8)
    requires
        old(cpu)@.fits(1),
    ensures
        final(cpu)@ == isa::ld_e(old(cpu)@, register).advance(1, 4),
{
    cpu.e = register;
    cpu.set_cycles(4);
    cpu.pc += 1;
}

pub fn ld_h_r_u8(cpu: &mut CPU, register: u8)
    requires
        old(cpu)@.fits(1),
    ensures
        final(cpu)@ == isa::ld_h(old(cpu)@, register).advance(1, 4),
{
    cpu.h = register;
    cpu.set_cycles(4);
    cpu.pc += 1;
}

pub fn ld_l_r_u8(cpu: &mut CPU, register: u8)
    requires
        old(cpu)@.fits(1),
    ensures
        final(cpu)@ == isa::ld_l(old(cpu)@, register).advance(1, 4),
{
    cpu.l = register;
    cpu.set_cycles(4);
    cpu.pc += 1;
}

pub fn ld_a_r_u8(cpu: &mut CPU, register: u8)
    requires
        old(cpu)@.fits(1),
    ensures
        final(cpu)@ == isa::ld_a(old(cpu)@, register).advance(1, 4),
{
    cpu.a = register;
    cpu.set_cycles(4);
    cpu.pc += 1;
}

pub fn ld_b_u8(cpu: &mut CPU)
    requires
        old(cpu)@.operands_ok(1),
    ensures
        final(cpu)@ == isa::ld_b(old(cpu)@, old(cpu)@.imm8()).advance(2, 8),
{
    cpu.b = cpu.mmu.fetch_u8(cpu.pc + 1);
    cpu.set_cycles(8);
    cpu.pc += 2;
}

pub fn ld_c_u8(cpu: &mut CPU)
    requires
        old(cpu)@.operands_ok(1),
    ensures
        final(cpu)@ == isa::ld_c(old(cpu)@, old(cpu)@.imm8()).advance(2, 8),
{
    cpu.c = cpu.mmu.fetch_u8(cpu.pc + 1);
    cpu.set_cycles(8);
    cpu.pc += 2;
}

pub fn ld_d_u8(cpu: &mut CPU)
    requires
        old(cpu)@.operands_ok(1),
    ensures
        final(cpu)@ == isa::ld_d(old(cpu)@, old(cpu)@.imm8()).advance(2, 8),
{
    cpu.d = cpu.mmu.fetch_u8(cpu.pc + 1);
    cpu.set_cycles(8);
    cpu.pc += 2;
}

pub fn ld_e_u8(cpu: &mut CPU)
    requires
        old(cpu)@.operands_ok(1),
    ensures
        final(cpu)@ == isa::ld_e(old(cpu)@, old(cpu)@.imm8()).advance(2, 8),
{
    cpu.e = cpu.mmu.fetch_u8(cpu.pc + 1);
    cpu.set_cycles(8);
    cpu.pc += 2;
}

pub fn ld_h_u8(cpu: &mut CPU)
    requires
        old(cpu)@.operands_ok(1),
    ensures
        final(cpu)@ == isa::ld_h(old(cpu)@, old(cpu)@.imm8()).advance(2, 8),
{
    cpu.h = cpu.mmu.fetch_u8(cpu.pc + 1);
    cpu.set_cycles(8);
    cpu.pc += 2;
}

pub fn ld_l_u8(cpu: &mut CPU)
    requires
        old(cpu)@.operands_ok(1),
    ensures
        final(cpu)@ == isa::ld_l(old(cpu)@, old(cpu)@.imm8()).advance(2, 8),
{
    cpu.l = cpu.mmu.fetch_u8(cpu.pc + 1);
    cpu.set_cycles(8);
    cpu.pc += 2;
}

pub fn ld_a_u8(cpu: &mut CPU)
    requires
        old(cpu)@.operands_ok(1),
    ensures
        final(cpu)@ == isa::ld_a(old(cpu)@, old(cpu)@.imm8()).advance(2, 8),
{
    cpu.a = cpu.mmu.fetch_u8(cpu.pc + 1);
    cpu.set_cycles(8);
    cpu.pc += 2;
}

pub fn ld_m_hl_u8(cpu: &mut CPU)
    requires
        old(cpu)@.operands_ok(1),
        old(cpu)@.writable(old(cpu)@.hl() as int),
    ensures
        final(cpu)@ == isa::ld_m_hl_u8(old(cpu)@),
{
    let value = cpu.mmu.fetch_u8(cpu.pc + 1);
    let address = cpu.hl();
    cpu.mmu.write_byte(address, value);
    cpu.set_cycles(12);
    cpu.pc += 2;
}

pub fn ld_bc_u16(cpu: &mut CPU)
    requires
        old(cpu)@.operands_ok(2),
    ensures
        final(cpu)@ == isa::ld_bc_u16(old(cpu)@),
{
    cpu.c = cpu.mmu.fetch_u8(cpu.pc + 1);
    cpu.b = cpu.mmu.fetch_u8(cpu.pc + 2);
    cpu.set_cycles(12);
    cpu.pc += 3;
}

pub fn ld_de_u16(cpu: &mut CPU)
    requires
        old(cpu)@.operands_ok(2),
    ensures
        final(cpu)@ == isa::ld_de_u16(old(cpu)@),
{
    cpu.e = cpu.mmu.fetch_u8(cpu.pc + 1);
    cpu.d = cpu.mmu.fetch_u8(cpu.pc + 2);
    cpu.set_cycles(12);
    cpu.pc += 3;
}

pub fn ld_hl_u16(cpu: &mut CPU)
    requires
        old(cpu)@.operands_ok(2),
    ensures
        final(cpu)@ == isa::ld_hl_u16(old(cpu)@),
{
    cpu.l = cpu.mmu.fetch_u8(cpu.pc + 1);
    cpu.h = cpu.mmu.fetch_u8(cpu.pc + 2);
    cpu.set_cycles(12);
    cpu.pc += 3;
}

pub fn ld_sp_u16(cpu: &mut CPU)
    requires
        old(cpu)@.operands_ok(2),
    ensures
        final(cpu)@ == isa::ld_sp_u16(old(cpu)@),
{
    cpu.sp = fetch_u16(cpu);
    cpu.set_cycles(12);
    cpu.pc += 3;
}

pub fn ld_m_r_u16_a(cpu: &mut CPU, register1: u8, register2: u8)
    requires
        old(cpu)@.fits(1),
        old(cpu)@.writable(bits::pair(register1, register2) as int),
    ensures
        final(cpu)@ == isa::ld_m_r_u16_a(old(cpu)@, register1, register2),
{
    proof {
        bits::lemma_pair(register1, register2);
    }
    let address = ((register1 as u16) << 8) | (register2 as u16);
    let a = cpu.a;
    cpu.mmu.write_byte(address, a);
    cpu.set_cycles(8);
    cpu.pc += 1;
}

pub fn ld_a_m_r_u16(cpu: &mut CPU, register1: u8, register2: u8)
    requires
        old(cpu)@.fits(1),
        old(cpu)@.readable(bits::pair(register1, register2) as int),
    ensures
        final(cpu)@ == isa::ld_a_m_r_u16(old(cpu)@, register1, register2),
{
    proof {
        bits::lemma_pair(register1, register2);
    }
    let address = ((register1 as u16) << 8) | (register2 as u16);
    cpu.a = cpu.mmu.read_byte(address);
    cpu.set_cycles(8);
    cpu.pc += 1;
}

pub fn ld_a_hl_inc(cpu: &mut CPU)
    requires
        old(cpu)@.fits(1),
        old(cpu)@.readable(old(cpu)@.hl() as int),
    ensures
        final(cpu)@ == isa::ld_a_hl_inc(old(cpu)@),
{
    let address = cpu.hl();
    cpu.a = cpu.mmu.read_byte(address);
    let next_address = address.wrapping_add(1);
    set_hl(cpu, next_address);
    cpu.set_cycles(8);
    cpu.pc += 1;
}

pub fn ld_hl_inc_a(cpu: &mut CPU)
    requires
        old(cpu)@.fits(1),
        old(cpu)@.writable(old(cpu)@.hl() as int),
    ensures
        final(cpu)@ == isa::ld_hl_inc_a(old(cpu)@),
{
    let address = cpu.hl();
    let a = cpu.a;
    cpu.mmu.write_byte(address, a);
    let next_address = address.wrapping_add(1);
    set_hl(cpu, next_address);
    cpu.set_cycles(8);
    cpu.pc += 1;
}

pub fn ld_a_hl_dec(cpu: &mut CPU)
    requires
        old(cpu)@.fits(1),
        old(cpu)@.readable(old(cpu)@.hl() as int),
    ensures
        final(cpu)@ == isa::ld_a_hl_dec(old(cpu)@),
{
    let address = cpu.hl();
    cpu.a = cpu.mmu.read_byte(address);
    let next_address = address.wrapping_sub(1);
    set_hl(cpu, next_address);
    cpu.set_cycles(8);
    cpu.pc += 1;
}

pub fn ld_hl_dec_a(cpu: &mut CPU)
    requires
        old(cpu)@.fits(1),
        old(cpu)@.writable(old(cpu)@.hl() as int),
    ensures
        final(cpu)@ == isa::ld_hl_dec_a(old(cpu)@),
{
    let address = cpu.hl();
    let a = cpu.a;
    cpu.mmu.write_byte(address, a);
    let next_address = address.wrapping_sub(1);
    set_hl(cpu, next_address);
    cpu.set_cycles(8);
    cpu.pc += 1;
}

pub fn ld_m_hl_r_u8(cpu: &mut CPU, register: u8)
    requires
        old(cpu)@.fits(1),
        old(cpu)@.writable(old(cpu)@.hl() as int),
    ensures
        final(cpu)@ == isa::ld_m_hl_r_u8(old(cpu)@, register),
{
    let address = cpu.hl();
    cpu.mmu.write_byte(address, register);
    cpu.set_cycles(8);
    cpu.pc += 1;
}

pub fn ld_r_u8_m_hl(cpu: &mut CPU) -> (value: u8)
    requires
        old(cpu)@.fits(1),
        old(cpu)@.readable(old(cpu)@.hl() as int),
    ensures
        value == isa::m_hl(old(cpu)@),
        final(cpu)@ == isa::ld_r_u8_m_hl(old(cpu)@),
{
    let address = cpu.hl();
    let value = cpu.mmu.read_byte(address);
    cpu.set_cycles(8);
    cpu.pc += 1;
    value
}

pub fn ld_m_u16_sp(cpu: &mut CPU)
    requires
        isa::can_ld_m_u16_sp(old(cpu)@),
    ensures
        final(cpu)@ == isa::ld_m_u16_sp(old(cpu)@),
{
    let address = fetch_u16(cpu);
    proof {
        bits::lemma_split(cpu.sp);
    }
    let lower_byte = (cpu.sp & 0xFF) as u8;
    let upper_byte = (cpu.sp >> 8) as u8;
    cpu.mmu.write_byte(address, lower_byte);
    cpu.mmu.write_byte(address + 1, upper_byte);
    cpu.set_cycles(20);
    cpu.pc += 3;
}

pub fn ld_sp_hl(cpu: &mut CPU)
    requires
        old(cpu)@.fits(1),
    ensures
        final(cpu)@ == isa::ld_sp_hl(old(cpu)@),
{
    cpu.sp = cpu.hl();
    cpu.set_cycles(8);
    cpu.pc += 1;
}

pub fn ld_ff00_plus_u8_a(cpu: &mut CPU)
    requires
        old(cpu)@.operands_ok(1),
        old(cpu)@.writable(0xFF00 + old(cpu)@.imm8()),
    ensures
        final(cpu)@ == isa::ld_ff00_plus_u8_a(old(cpu)@),
{
    let value = cpu.mmu.fetch_u8(cpu.pc + 1) as u16;
    let address = 0xFF00 + value;
    let a = cpu.a;
    cpu.mmu.write_byte(address, a);
    cpu.set_cycles(12);
    cpu.pc += 2;
}

pub fn ld_a_ff00_plus_u8(cpu: &mut CPU)
    requires
        old(cpu)@.operands_ok(1),
        old(cpu)@.readable(0xFF00 + old(cpu)@.imm8()),
    ensures
        final(cpu)@ == isa::ld_a_ff00_plus_u8(old(cpu)@),
{
    let value = cpu.mmu.fetch_u8(cpu.pc + 1) as u16;
    let address = 0xFF00 + value;
    cpu.a = cpu.mmu.read_byte(address);
    cpu.set_cycles(12);
    cpu.pc += 2;
}

pub fn ld_ff00_plus_c_a(cpu: &mut CPU)
    requires
        old(cpu)@.fits(1),
        old(cpu)@.writable(0xFF00 + old(cpu)@.c),
    ensures
        final(cpu)@ == isa::ld_ff00_plus_c_a(old(cpu)@),
{
    let value = cpu.c as u16;
    let address = 0xFF00 + value;
    let a = cpu.a;
    cpu.mmu.write_byte(address, a);
    cpu.set_cycles(8);
    cpu.pc += 1;
}

pub fn ld_a_ff00_plus_c(cpu: &mut CPU)
    requires
        old(cpu)@.fits(1),
        old(cpu)@.readable(0xFF00 + old(cpu)@.c),
    ensures
        final(cpu)@ == isa::ld_a_ff00_plus_c(old(cpu)@),
{
    let value = cpu.c as u16;
    let address = 0xFF00 + value;
    cpu.a = cpu.mmu.read_byte(address);
    cpu.set_cycles(8);
    cpu.pc += 1;
}

pub fn ld_a_u16(cpu: &mut CPU)
    requires
        old(cpu)@.operands_ok(2),
        old(cpu)@.readable(old(cpu)@.imm16() as int),
    ensures
        final(cpu)@ == isa::ld_a_u16(old(cpu)@),
{
    let address = fetch_u16(cpu);
    cpu.a = cpu.mmu.read_byte(address);
    cpu.set_cycles(16);
    cpu.pc += 3;
}

pub fn ld_u16_a(cpu: &mut CPU)
    requires
        old(cpu)@.operands_ok(2),
        old(cpu)@.writable(old(cpu)@.imm16() as int),
    ensures
        final(cpu)@ == isa::ld_u16_a(old(cpu)@),
{
    let address = fetch_u16(cpu);
    let a = cpu.a;
    cpu.mmu.write_byte(address, a);
    cpu.set_cycles(16);
    cpu.pc += 3;
}

pub fn ld_hl_sp_plus_i8(cpu: &mut CPU)
    requires
        old(cpu)@.operands_ok(1),
    ensures
        final(cpu)@ == isa::ld_hl_sp_plus_i8(old(cpu)@),
{
    let offset = cpu.mmu.fetch_i8(cpu.pc + 1);
    let result = sp_plus_offset(cpu, offset);
    set_hl(cpu, result);
    cpu.set_cycles(12);
    cpu.pc += 2;
}

pub fn jr_i8(cpu: &mut CPU)
    requires
        isa::can_jr_when(old(cpu)@, true),
    ensures
        final(cpu)@ == isa::jr_when(old(cpu)@, true),
{
    let offset = cpu.mmu.fetch_i8(cpu.pc + 1);
    let result = jump_target(cpu.pc, offset);
    cpu.set_cycles(12);
    cpu.pc = result;
}

pub fn jr_nz_i8(cpu: &mut CPU)
    requires
        isa::can_jr_when(old(cpu)@, !old(cpu)@.zero()),
    ensures
        final(cpu)@ == isa::jr_when(old(cpu)@, !old(cpu)@.zero()),
{
    let offset = cpu.mmu.fetch_i8(cpu.pc + 1);
    proof {
        bits::lemma_flag_tests(cpu.f);
    }
    if (cpu.f & 0x80) >> 7 != 1 {
        let result = jump_target(cpu.pc, offset);
        cpu.set_cycles(12);
        cpu.pc = result;
    } else {
        cpu.set_cycles(8);
        cpu.pc += 2;
    }
}

pub fn jr_z_i8(cpu: &mut CPU)
    requires
        isa::can_jr_when(old(cpu)@, old(cpu)@.zero()),
    ensures
        final(cpu)@ == isa::jr_when(old(cpu)@, old(cpu)@.zero()),
{
    let offset = cpu.mmu.fetch_i8(cpu.pc + 1);
    proof {
        bits::lemma_flag_tests(cpu.f);
    }
    if (cpu.f & 0x80) >> 7 == 1 {
        let result = jump_target(cpu.pc, offset);
        cpu.set_cycles(12);
        cpu.pc = result;
    } else {
        cpu.set_cycles(8);
        cpu.pc += 2;
    }
}

pub fn jr_nc_i8(cpu: &mut CPU)
    requires
        isa::can_jr_when(old(cpu)@, !old(cpu)@.carry()),
    ensures
        final(cpu)@ == isa::jr_when(old(cpu)@, !old(cpu)@.carry()),
{
    let offset = cpu.mmu.fetch_i8(cpu.pc + 1);
    proof {
        bits::lemma_flag_tests(cpu.f);
    }
    if (cpu.f & 0x10) >> 4 != 1 {
        let result = jump_target(cpu.pc, offset);
        cpu.set_cycles(12);
        cpu.pc = result;
    } else {
        cpu.set_cycles(8);
        cpu.pc += 2;
    }
}

pub fn jr_c_i8(cpu: &mut CPU)
    requires
        isa::can_jr_when(old(cpu)@, old(cpu)@.carry()),
    ensures
        final(cpu)@ == isa::jr_when(old(cpu)@, old(cpu)@.carry()),
{
    let offset = cpu.mmu.fetch_i8(cpu.pc + 1);
    proof {
        bits::lemma_flag_tests(cpu.f);
    }
    if (cpu.f & 0x10) >> 4 == 1 {
        let result = jump_target(cpu.pc, offset);
        cpu.set_cycles(12);
        cpu.pc = result;
    } else {
        cpu.set_cycles(8);
        cpu.pc += 2;
    }
}

pub fn jp_hl(cpu: &mut CPU)
    ensures
        final(cpu)@ == isa::jp_hl(old(cpu)@),
{
    cpu.set_cycles(4);
    cpu.pc = cpu.hl();
}

pub fn jp_u16(cpu: &mut CPU)
    requires
        isa::can_jp_when(old(cpu)@, true),
    ensures
        final(cpu)@ == isa::jp_when(old(cpu)@, true),
{
    cpu.set_cycles(16);
    cpu.pc = fetch_u16(cpu);
}

pub fn jp_nz_u16(cpu: &mut CPU)
    requires
        isa::can_jp_when(old(cpu)@, !old(cpu)@.zero()),
    ensures
        final(cpu)@ == isa::jp_when(old(cpu)@, !old(cpu)@.zero()),
{
    proof {
        bits::lemma_flag_tests(cpu.f);
    }
    if (cpu.f & 0x80) >> 7 != 1 {
        cpu.set_cycles(16);
        cpu.pc = fetch_u16(cpu);
    } else {
        cpu.set_cycles(12);
        cpu.pc += 3;
    }
}

pub fn jp_z_u16(cpu: &mut CPU)
    requires
        isa::can_jp_when(old(cpu)@, old(cpu)@.zero()),
    ensures
        final(cpu)@ == isa::jp_when(old(cpu)@, old(cpu)@.zero()),
{
    proof {
        bits::lemma_flag_tests(cpu.f);
    }
    if (cpu.f & 0x80) >> 7 == 1 {
        cpu.set_cycles(16);
        cpu.pc = fetch_u16(cpu);
    } else {
        cpu.set_cycles(12);
        cpu.pc += 3;
    }
}

pub fn jp_nc_u16(cpu: &mut CPU)
    requires
        isa::can_jp_when(old(cpu)@, !old(cpu)@.carry()),
    ensures
        final(cpu)@ == isa::jp_when(old(cpu)@, !old(cpu)@.carry()),
{
    proof {
        bits::lemma_flag_tests(cpu.f);
    }
    if (cpu.f & 0x10) >> 4 != 1 {
        cpu.set_cycles(16);
        cpu.pc = fetch_u16(cpu);
    } else {
        cpu.set_cycles(12);
        cpu.pc += 3;
    }
}

pub fn jp_c_u16(cpu: &mut CPU)
    requires
        isa::can_jp_when(old(cpu)@, old(cpu)@.carry()),
    ensures
        final(cpu)@ == isa::jp_when(old(cpu)@, old(cpu)@.carry()),
{
    proof {
        bits::lemma_flag_tests(cpu.f);
    }
    if (cpu.f & 0x10) >> 4 == 1 {
        cpu.set_cycles(16);
        cpu.pc = fetch_u16(cpu);
    } else {
        cpu.set_cycles(12);
        cpu.pc += 3;
    }
}

pub fn pop_bc(cpu: &mut CPU)
    requires
        isa::can_pop(old(cpu)@),
    ensures
        final(cpu)@ == isa::pop_bc(old(cpu)@),
{
    cpu.b = cpu.mmu.fetch_u8(cpu.sp + 1);
    cpu.c = cpu.mmu.fetch_u8(cpu.sp);
    cpu.sp += 2;
    cpu.set_cycles(12);
    cpu.pc += 1;
}

pub fn pop_de(cpu: &mut CPU)
    requires
        isa::can_pop(old(cpu)@),
    ensures
        final(cpu)@ == isa::pop_de(old(cpu)@),
{
    cpu.d = cpu.mmu.fetch_u8(cpu.sp + 1);
    cpu.e = cpu.mmu.fetch_u8(cpu.sp);
    cpu.sp += 2;
    cpu.set_cycles(12);
    cpu.pc += 1;
}

pub fn pop_hl(cpu: &mut CPU)
    requires
        isa::can_pop(old(cpu)@),
    ensures
        final(cpu)@ == isa::pop_hl(old(cpu)@),
{
    cpu.h = cpu.mmu.fetch_u8(cpu.sp + 1);
    cpu.l = cpu.mmu.fetch_u8(cpu.sp);
    cpu.sp += 2;
    cpu.set_cycles(12);
    cpu.pc += 1;
}

pub fn pop_af(cpu: &mut CPU)
    requires
        isa::can_pop(old(cpu)@),
    ensures
        final(cpu)@ == isa::pop_af(old(cpu)@),
{
    cpu.a = cpu.mmu.fetch_u8(cpu.sp + 1);
    let f = cpu.mmu.fetch_u8(cpu.sp);
    cpu.update_flags(Some(f & 0x80 != 0), Some(f & 0x10 != 0), Some(f & 0x40 != 0), Some(f & 0x20 != 0));
    cpu.sp += 2;
    cpu.set_cycles(12);
    cpu.pc += 1;
}

pub fn push_bc(cpu: &mut CPU)
    requires
        isa::can_push_pair(old(cpu)@, old(cpu)@.b),
    ensures
        final(cpu)@ == isa::push_pair(old(cpu)@, old(cpu)@.b, old(cpu)@.c),
{
    let hi = cpu.b;
    let lo = cpu.c;
    cpu.push(hi, lo);
    cpu.set_cycles(16);
    cpu.pc += 1;
}

pub fn push_de(cpu: &mut CPU)
    requires
        isa::can_push_pair(old(cpu)@, old(cpu)@.d),
    ensures
        final(cpu)@ == isa::push_pair(old(cpu)@, old(cpu)@.d, old(cpu)@.e),
{
    let hi = cpu.d;
    let lo = cpu.e;
    cpu.push(hi, lo);
    cpu.set_cycles(16);
    cpu.pc += 1;
}

pub fn push_hl(cpu: &mut CPU)
    requires
        isa::can_push_pair(old(cpu)@, old(cpu)@.h),
    ensures
        final(cpu)@ == isa::push_pair(old(cpu)@, old(cpu)@.h, old(cpu)@.l),
{
    let hi = cpu.h;
    let lo = cpu.l;
    cpu.push(hi, lo);
    cpu.set_cycles(16);
    cpu.pc += 1;
}

pub fn push_af(cpu: &mut CPU)
    requires
        isa::can_push_pair(old(cpu)@, old(cpu)@.a),
    ensures
        final(cpu)@ == isa::push_pair(old(cpu)@, old(cpu)@.a, old(cpu)@.f),
{
    let hi = cpu.a;
    let lo = cpu.f;
    cpu.push(hi, lo);
    cpu.set_cycles(16);
    cpu.pc += 1;
}

/// Pushes the address of the next instruction and jumps to the operand.
pub fn call_u16(cpu: &mut CPU)
    requires
        isa::can_call_when(old(cpu)@, true),
    ensures
        final(cpu)@ == isa::call_when(old(cpu)@, true),
{
    let target = fetch_u16(cpu);
    cpu.pc += 3;
    call_pushed(cpu, target);
}

pub fn call_nz_u16(cpu: &mut CPU)
    requires
        isa::can_call_when(old(cpu)@, !old(cpu)@.zero()),
    ensures
        final(cpu)@ == isa::call_when(old(cpu)@, !old(cpu)@.zero()),
{
    proof {
        bits::lemma_flag_tests(cpu.f);
    }
    if (cpu.f & 0x80) >> 7 != 1 {
        let target = fetch_u16(cpu);
        cpu.pc += 3;
        call_pushed(cpu, target);
    } else {
        cpu.pc += 3;
        cpu.set_cycles(12);
    }
}

pub fn call_z_u16(cpu: &mut CPU)
    requires
        isa::can_call_when(old(cpu)@, old(cpu)@.zero()),
    ensures
        final(cpu)@ == isa::call_when(old(cpu)@, old(cpu)@.zero()),
{
    proof {
        bits::lemma_flag_tests(cpu.f);
    }
    if (cpu.f & 0x80) >> 7 == 1 {
        let target = fetch_u16(cpu);
        cpu.pc += 3;
        call_pushed(cpu, target);
    } else {
        cpu.pc += 3;
        cpu.set_cycles(12);
    }
}

pub fn call_nc_u16(cpu: &mut CPU)
    requires
        isa::can_call_when(old(cpu)@, !old(cpu)@.carry()),
    ensures
        final(cpu)@ == isa::call_when(old(cpu)@, !old(cpu)@.carry()),
{
    proof {
        bits::lemma_flag_tests(cpu.f);
    }
    if (cpu.f & 0x10) >> 4 != 1 {
        let target = fetch_u16(cpu);
        cpu.pc += 3;
        call_pushed(cpu, target);
    } else {
        cpu.pc += 3;
        cpu.set_cycles(12);
    }
}

pub fn call_c_u16(cpu: &mut CPU)
    requires
        isa::can_call_when(old(cpu)@, old(cpu)@.carry()),
    ensures
        final(cpu)@ == isa::call_when(old(cpu)@, old(cpu)@.carry()),
{
    proof {
        bits::lemma_flag_tests(cpu.f);
    }
    if (cpu.f & 0x10) >> 4 == 1 {
        let target = fetch_u16(cpu);
        cpu.pc += 3;
        call_pushed(cpu, target);
    } else {
        cpu.pc += 3;
        cpu.set_cycles(12);
    }
}

pub fn ret(cpu: &mut CPU)
    requires
        isa::can_ret_when(old(cpu)@, true),
    ensures
        final(cpu)@ == isa::ret_when(old(cpu)@, true, 16),
{
    cpu.set_cycles(16);
    cpu.pc = pop_word(cpu);
}

pub fn reti(cpu: &mut CPU)
    requires
        isa::can_ret_when(old(cpu)@, true),
    ensures
        final(cpu)@ == isa::reti(old(cpu)@),
{
    cpu.set_cycles(16);
    cpu.pc = pop_word(cpu);
    cpu.ime = true;
}

pub fn ret_nz(cpu: &mut CPU)
    requires
        isa::can_ret_when(old(cpu)@, !old(cpu)@.zero()),
    ensures
        final(cpu)@ == isa::ret_when(old(cpu)@, !old(cpu)@.zero(), 20),
{
    proof {
        bits::lemma_flag_tests(cpu.f);
    }
    if (cpu.f & 0x80) >> 7 != 1 {
        cpu.set_cycles(20);
        cpu.pc = pop_word(cpu);
    } else {
        cpu.set_cycles(8);
        cpu.pc += 1;
    }
}

pub fn ret_z(cpu: &mut CPU)
    requires
        isa::can_ret_when(old(cpu)@, old(cpu)@.zero()),
    ensures
        final(cpu)@ == isa::ret_when(old(cpu)@, old(cpu)@.zero(), 20),
{
    proof {
        bits::lemma_flag_tests(cpu.f);
    }
    if (cpu.f & 0x80) >> 7 == 1 {
        cpu.set_cycles(20);
        cpu.pc = pop_word(cpu);
    } else {
        cpu.set_cycles(8);
        cpu.pc += 1;
    }
}

pub fn ret_nc(cpu: &mut CPU)
    requires
        isa::can_ret_when(old(cpu)@, !old(cpu)@.carry()),
    ensures
        final(cpu)@ == isa::ret_when(old(cpu)@, !old(cpu)@.carry(), 20),
{
    proof {
        bits::lemma_flag_tests(cpu.f);
    }
    if (cpu.f & 0x10) >> 4 != 1 {
        cpu.set_cycles(20);
        cpu.pc = pop_word(cpu);
    } else {
        cpu.set_cycles(8);
        cpu.pc += 1;
    }
}

pub fn ret_c(cpu: &mut CPU)
    requires
        isa::can_ret_when(old(cpu)@, old(cpu)@.carry()),
    ensures
        final(cpu)@ == isa::ret_when(old(cpu)@, old(cpu)@.carry(), 20),
{
    proof {
        bits::lemma_flag_tests(cpu.f);
    }
    if (cpu.f & 0x10) >> 4 == 1 {
        cpu.set_cycles(20);
        cpu.pc = pop_word(cpu);
    } else {
        cpu.set_cycles(8);
        cpu.pc += 1;
    }
}

pub fn rst(cpu: &mut CPU, address: u16)
    requires
        isa::can_rst(old(cpu)@),
    ensures
        final(cpu)@ == isa::rst(old(cpu)@, address),
{
    cpu.pc += 1;
    proof {
        bits::lemma_split(cpu.pc);
    }
    let lower_byte = (cpu.pc & 0xFF) as u8;
    let upper_byte = (cpu.pc >> 8) as u8;
    cpu.push(upper_byte, lower_byte);
    cpu.set_cycles(16);
    cpu.pc = address;
}

pub fn rlca(cpu: &mut CPU)
    requires
        old(cpu)@.fits(1),
    ensures
        final(cpu)@ == isa::rlca(old(cpu)@),
{
    let carry_flag = cpu.a >> 7;
    cpu.a = (cpu.a << 1) | carry_flag;
    let carry = carry_flag != 0;
    cpu.update_flags(Some(false), Some(carry), Some(false), Some(false));
    cpu.set_cycles(4);
    cpu.pc += 1;
}

pub fn rrca(cpu: &mut CPU)
    requires
        old(cpu)@.fits(1),
    ensures
        final(cpu)@ == isa::rrca(old(cpu)@),
{
    let carry_flag = cpu.a & 1;
    cpu.a = (cpu.a >> 1) | (carry_flag << 7);
    let carry = carry_flag != 0;
    cpu.update_flags(Some(false), Some(carry), Some(false), Some(false));
    cpu.set_cycles(4);
    cpu.pc += 1;
}

pub fn rla(cpu: &mut CPU)
    requires
        old(cpu)@.fits(1),
    ensures
        final(cpu)@ == isa::rla(old(cpu)@),
{
    let carry_flag = cpu.a >> 7;
    cpu.a = (cpu.a << 1) | ((cpu.f & 0x10) >> 4);
    let carry = carry_flag != 0;
    cpu.update_flags(Some(false), Some(carry), Some(false), Some(false));
    cpu.set_cycles(4);
    cpu.pc += 1;
}

pub fn rra(cpu: &mut CPU)
    requires
        old(cpu)@.fits(1),
    ensures
        final(cpu)@ == isa::rra(old(cpu)@),
{
    let carry_flag = cpu.a & 1;
    cpu.a = (cpu.a >> 1) | ((cpu.f & 0x10) << 3);
    let carry = carry_flag != 0;
    cpu.update_flags(Some(false), Some(carry), Some(false), Some(false));
    cpu.set_cycles(4);
    cpu.pc += 1;
}

pub fn daa(cpu: &mut CPU)
    requires
        old(cpu)@.fits(1),
    ensures
        final(cpu)@ == isa::daa(old(cpu)@),
{
    let low = cpu.f & 0x20 != 0 || (cpu.a & 0x0F) > 0x09;
    let high = cpu.f & 0x10 != 0 || (cpu.a >> 4) > 0x09;
    let correction: u8 = if low && high {
        0x66
    } else if low {
        0x06
    } else if high {
        0x60
    } else {
        0
    };
    let carry = high;
    if cpu.f & 0x40 != 0 {
        cpu.a = cpu.a.wrapping_sub(correction);
    } else {
        cpu.a = cpu.a.wrapping_add(correction);
    }
    let zero = cpu.a == 0;
    cpu.update_flags(Some(zero), Some(carry), None, Some(false));
    cpu.set_cycles(4);
    cpu.pc += 1;
}

pub fn cpl(cpu: &mut CPU)
    requires
        old(cpu)@.fits(1),
    ensures
        final(cpu)@ == isa::cpl(old(cpu)@),
{
    cpu.a = !cpu.a;
    cpu.update_flags(None, None, Some(true), Some(true));
    cpu.set_cycles(4);
    cpu.pc += 1;
}

pub fn scf(cpu: &mut CPU)
    requires
        old(cpu)@.fits(1),
    ensures
        final(cpu)@ == isa::scf(old(cpu)@),
{
    cpu.update_flags(None, Some(true), Some(false), Some(false));
    cpu.set_cycles(4);
    cpu.pc += 1;
}

pub fn ccf(cpu: &mut CPU)
    requires
        old(cpu)@.fits(1),
    ensures
        final(cpu)@ == isa::ccf(old(cpu)@),
{
    cpu.f ^= 0x10;
    cpu.update_flags(None, None, Some(false), Some(false));
    cpu.set_cycles(4);
    cpu.pc += 1;
}

pub fn ei(cpu: &mut CPU)
    requires
        old(cpu)@.fits(1),
    ensures
        final(cpu)@ == isa::ei(old(cpu)@),
{
    cpu.ime = true;
    cpu.set_cycles(4);
    cpu.pc += 1;
}

pub fn di(cpu: &mut CPU)
    requires
        old(cpu)@.fits(1),
    ensures
        final(cpu)@ == isa::di(old(cpu)@),
{
    cpu.ime = false;
    cpu.set_cycles(4);
    cpu.pc += 1;
}

pub fn rlc(cpu: &mut CPU, register: u8) -> (result: u8)
    requires
        old(cpu)@.fits(1),
    ensures
        result == isa::rlc_value(register),
        final(cpu)@ == isa::rlc(old(cpu)@, register),
{
    let carry_flag = register >> 7;
    let result = (register << 1) | carry_flag;
    let carry = carry_flag != 0;
    let zero = result == 0;
    cpu.update_flags(Some(zero), Some(carry), Some(false), Some(false));
    cpu.set_cycles(8);
    cpu.pc += 1;
    result
}

pub fn rlc_m_hl(cpu: &mut CPU)
    requires
        isa::can_modify_m_hl(old(cpu)@),
    ensures
        final(cpu)@ == isa::rlc_m_hl(old(cpu)@),
{
    let address = cpu.hl();
    let value = cpu.mmu.read_byte(address);
    let carry_flag = value >> 7;
    let result = (value << 1) | carry_flag;
    let carry = carry_flag != 0;
    let zero = result == 0;
    cpu.update_flags(Some(zero), Some(carry), Some(false), Some(false));
    cpu.mmu.write_byte(address, result);
    cpu.set_cycles(16);
    cpu.pc += 1;
}

pub fn rrc(cpu: &mut CPU, register: u8) -> (result: u8)
    requires
        old(cpu)@.fits(1),
    ensures
        result == isa::rrc_value(register),
        final(cpu)@ == isa::rrc(old(cpu)@, register),
{
    let carry_flag = register & 1;
    let result = (register >> 1) | (carry_flag << 7);
    let carry = carry_flag != 0;
    let zero = result == 0;
    cpu.update_flags(Some(zero), Some(carry), Some(false), Some(false));
    cpu.set_cycles(8);
    cpu.pc += 1;
    result
}

pub fn rrc_m_hl(cpu: &mut CPU)
    requires
        isa::can_modify_m_hl(old(cpu)@),
    ensures
        final(cpu)@ == isa::rrc_m_hl(old(cpu)@),
{
    let address = cpu.hl();
    let value = cpu.mmu.read_byte(address);
    let carry_flag = value & 1;
    let result = (value >> 1) | (carry_flag << 7);
    let carry = carry_flag != 0;
    let zero = result == 0;
    cpu.update_flags(Some(zero), Some(carry), Some(false), Some(false));
    cpu.mmu.write_byte(address, result);
    cpu.set_cycles(16);
    cpu.pc += 1;
}

pub fn rl(cpu: &mut CPU, register: u8) -> (result: u8)
    requires
        old(cpu)@.fits(1),
    ensures
        result == isa::rl_value(register, old(cpu)@.f),
        final(cpu)@ == isa::rl(old(cpu)@, register),
{
    let carry_flag = register >> 7;
    let result = (register << 1) | ((cpu.f & 0x10) >> 4);
    let carry = carry_flag != 0;
    let zero = result == 0;
    cpu.update_flags(Some(zero), Some(carry), Some(false), Some(false));
    cpu.set_cycles(8);
    cpu.pc += 1;
    result
}

pub fn rl_m_hl(cpu: &mut CPU)
    requires
        isa::can_modify_m_hl(old(cpu)@),
    ensures
        final(cpu)@ == isa::rl_m_hl(old(cpu)@),
{
    let address = cpu.hl();
    let value = cpu.mmu.read_byte(address);
    let carry_flag = value >> 7;
    let result = (value << 1) | ((cpu.f & 0x10) >> 4);
    let carry = carry_flag != 0;
    let zero = result == 0;
    cpu.update_flags(Some(zero), Some(carry), Some(false), Some(false));
    cpu.mmu.write_byte(address, result);
    cpu.set_cycles(16);
    cpu.pc += 1;
}

pub fn rr(cpu: &mut CPU, register: u8) -> (result: u8)
    requires
        old(cpu)@.fits(1),
    ensures
        result == isa::rr_value(register, old(cpu)@.f),
        final(cpu)@ == isa::rr(old(cpu)@, register),
{
    let carry_flag = register & 1;
    let result = (register >> 1) | ((cpu.f & 0x10) << 3);
    let carry = carry_flag != 0;
    let zero = result == 0;
    cpu.update_flags(Some(zero), Some(carry), Some(false), Some(false));
    cpu.set_cycles(8);
    cpu.pc += 1;
    result
}

pub fn rr_m_hl(cpu: &mut CPU)
    requires
        isa::can_modify_m_hl(old(cpu)@),
    ensures
        final(cpu)@ == isa::rr_m_hl(old(cpu)@),
{
    let address = cpu.hl();
    let value = cpu.mmu.read_byte(address);
    let carry_flag = value & 1;
    let result = (value >> 1) | ((cpu.f & 0x10) << 3);
    let carry = carry_flag != 0;
    let zero = result == 0;
    cpu.update_flags(Some(zero), Some(carry), Some(false), Some(false));
    cpu.mmu.write_byte(address, result);
    cpu.set_cycles(16);
    cpu.pc += 1;
}

pub fn sla(cpu: &mut CPU, register: u8) -> (result: u8)
    requires
        old(cpu)@.fits(1),
    ensures
        result == isa::sla_value(register),
        final(cpu)@ == isa::sla(old(cpu)@, register),
{
    let carry_flag = register >> 7;
    let result = register << 1;
    let carry = carry_flag != 0;
    let zero = result == 0;
    cpu.update_flags(Some(zero), Some(carry), Some(false), Some(false));
    cpu.set_cycles(8);
    cpu.pc += 1;
    result
}

pub fn sla_m_hl(cpu: &mut CPU)
    requires
        isa::can_modify_m_hl(old(cpu)@),
    ensures
        final(cpu)@ == isa::sla_m_hl(old(cpu)@),
{
    let address = cpu.hl();
    let value = cpu.mmu.read_byte(address);
    let carry_flag = value >> 7;
    let result = value << 1;
    let carry = carry_flag != 0;
    let zero = result == 0;
    cpu.update_flags(Some(zero), Some(carry), Some(false), Some(false));
    cpu.mmu.write_byte(address, result);
    cpu.set_cycles(16);
    cpu.pc += 1;
}

pub fn sra(cpu: &mut CPU, register: u8) -> (result: u8)
    requires
        old(cpu)@.fits(1),
    ensures
        result == isa::sra_value(register),
        final(cpu)@ == isa::sra(old(cpu)@, register),
{
    let carry_flag = register & 1;
    let result = register >> 1 | register & 0x80;
    let carry = carry_flag != 0;
    let zero = result == 0;
    cpu.update_flags(Some(zero), Some(carry), Some(false), Some(false));
    cpu.set_cycles(8);
    cpu.pc += 1;
    result
}

pub fn sra_m_hl(cpu: &mut CPU)
    requires
        isa::can_modify_m_hl(old(cpu)@),
    ensures
        final(cpu)@ == isa::sra_m_hl(old(cpu)@),
{
    let address = cpu.hl();
    let value = cpu.mmu.read_byte(address);
    let carry_flag = value & 1;
    let result = value >> 1 | value & 0x80;
    let carry = carry_flag != 0;
    let zero = result == 0;
    cpu.update_flags(Some(zero), Some(carry), Some(false), Some(false));
    cpu.mmu.write_byte(address, result);
    cpu.set_cycles(16);
    cpu.pc += 1;
}

pub fn swap(cpu: &mut CPU, register: u8) -> (result: u8)
    requires
        old(cpu)@.fits(1),
    ensures
        result == isa::swap_value(register),
        final(cpu)@ == isa::swap(old(cpu)@, register),
{
    let result = register >> 4 | register << 4;
    let zero = result == 0;
    cpu.update_flags(Some(zero), Some(false), Some(false), Some(false));
    cpu.set_cycles(8);
    cpu.pc += 1;
    result
}

pub fn swap_m_hl(cpu: &mut CPU)
    requires
        isa::can_modify_m_hl(old(cpu)@),
    ensures
        final(cpu)@ == isa::swap_m_hl(old(cpu)@),
{
    let address = cpu.hl();
    let value = cpu.mmu.read_byte(address);
    let result = value >> 4 | value << 4;
    let zero = result == 0;
    cpu.update_flags(Some(zero), Some(false), Some(false), Some(false));
    cpu.mmu.write_byte(address, result);
    cpu.set_cycles(16);
    cpu.pc += 1;
}

pub fn srl(cpu: &mut CPU, register: u8) -> (result: u8)
    requires
        old(cpu)@.fits(1),
    ensures
        result == isa::srl_value(register),
        final(cpu)@ == isa::srl(old(cpu)@, register),
{
    let carry_flag = register & 1;
    let result = register >> 1;
    let carry = carry_flag != 0;
    let zero = result == 0;
    cpu.update_flags(Some(zero), Some(carry), Some(false), Some(false));
    cpu.set_cycles(8);
    cpu.pc += 1;
    result
}

pub fn srl_m_hl(cpu: &mut CPU)
    requires
        isa::can_modify_m_hl(old(cpu)@),
    ensures
        final(cpu)@ == isa::srl_m_hl(old(cpu)@),
{
    let address = cpu.hl();
    let value = cpu.mmu.read_byte(address);
    let carry_flag = value & 1;
    let result = value >> 1;
    let carry = carry_flag != 0;
    let zero = result == 0;
    cpu.update_flags(Some(zero), Some(carry), Some(false), Some(false));
    cpu.mmu.write_byte(address, result);
    cpu.set_cycles(16);
    cpu.pc += 1;
}

/// Tests bit `bit` of `register`; the Zero flag is set when the bit is 0.
pub fn bit_n_r_u8(cpu: &mut CPU, bit: u8, register: u8)
    requires
        old(cpu)@.fits(1),
        bit < 8,
    ensures
        final(cpu)@ == isa::bit_n_r_u8(old(cpu)@, bit, register),
{
    let zero = (register & (1 << bit)) == 0;
    cpu.update_flags(Some(zero), None, Some(false), Some(true));
    cpu.set_cycles(8);
    cpu.pc += 1;
}

/// Tests bit `bit` of the byte at `HL`; the Zero flag is set when the bit is 0.
pub fn bit_n_m_hl(cpu: &mut CPU, bit: u8)
    requires
        old(cpu)@.fits(1),
        bit < 8,
        old(cpu)@.readable(old(cpu)@.hl() as int),
    ensures
        final(cpu)@ == isa::bit_n_m_hl(old(cpu)@, bit),
{
    let address = cpu.hl();
    let value = cpu.mmu.read_byte(address);
    let zero = (value & (1 << bit)) == 0;
    cpu.update_flags(Some(zero), None, Some(false), Some(true));
    cpu.set_cycles(12);
    cpu.pc += 1;
}

pub fn res_n_r_u8(cpu: &mut CPU, bit: u8, register: u8) -> (result: u8)
    requires
        old(cpu)@.fits(1),
        bit < 8,
    ensures
        result == isa::res_value(bit, register),
        final(cpu)@ == isa::bit_op_r(old(cpu)@),
{
    cpu.pc += 1;
    cpu.set_cycles(8);
    register & !(1 << bit)
}

pub fn res_n_m_hl(cpu: &mut CPU, bit: u8)
    requires
        bit < 8,
        isa::can_modify_m_hl(old(cpu)@),
    ensures
        final(cpu)@ == isa::res_n_m_hl(old(cpu)@, bit),
{
    let address = cpu.hl();
    let value = cpu.mmu.read_byte(address);
    let result = value & !(1 << bit);
    cpu.mmu.write_byte(address, result);
    cpu.set_cycles(16);
    cpu.pc += 1;
}

pub fn set_n_r_u8(cpu: &mut CPU, bit: u8, register: u8) -> (result: u8)
    requires
        old(cpu)@.fits(1),
        bit < 8,
    ensures
        result == isa::set_value(bit, register),
        final(cpu)@ == isa::bit_op_r(old(cpu)@),
{
    cpu.pc += 1;
    cpu.set_cycles(8);
    register | 1 << bit
}

pub fn set_n_m_hl(cpu: &mut CPU, bit: u8)
    requires
        bit < 8,
        isa::can_modify_m_hl(old(cpu)@),
    ensures
        final(cpu)@ == isa::set_n_m_hl(old(cpu)@, bit),
{
    let address = cpu.hl();
    let value = cpu.mmu.read_byte(address);
    let result = value | 1 << bit;
    cpu.mmu.write_byte(address, result);
    cpu.set_cycles(16);
    cpu.pc += 1;
}

// ---------------------------------------------------------------------
// Steps shared by several instructions

/// Adds `value` and `carry_in` to `A`, setting the flags of the addition.
fn add_to_a(cpu: &mut CPU, value: u8, carry_in: u8)
    requires
        carry_in <= 1,
    ensures
        final(cpu)@ == isa::add_to_a(old(cpu)@, value, carry_in),
{
    proof {
        bits::lemma_nibbles(cpu.a);
        bits::lemma_nibbles(value);
    }
    let sum: u16 = cpu.a as u16 + value as u16 + carry_in as u16;
    let result = (sum % 256) as u8;
    let carry = sum > 0xFF;
    let zero = result == 0;
    let half_carry = (cpu.a & 0xF) + (value & 0xF) + carry_in > 0xF;
    cpu.update_flags(Some(zero), Some(carry), Some(false), Some(half_carry));
    cpu.a = result;
}

/// Sets the flags of `A` minus `value` minus `carry_in` and returns the
/// difference.
fn subtract(cpu: &mut CPU, value: u8, carry_in: u8) -> (result: u8)
    requires
        carry_in <= 1,
    ensures
        result == bits::wrap8(old(cpu)@.a - value - carry_in),
        final(cpu)@ == isa::sub_flags(old(cpu)@, value, carry_in),
{
    proof {
        bits::lemma_nibbles(cpu.a);
        bits::lemma_nibbles(value);
    }
    let difference: i16 = cpu.a as i16 - value as i16 - carry_in as i16;
    let result: u8 = if difference < 0 {
        (difference + 256) as u8
    } else {
        difference as u8
    };
    let carry = difference < 0;
    let zero = result == 0;
    let half_carry = (cpu.a & 0xF) < (value & 0xF) + carry_in;
    cpu.update_flags(Some(zero), Some(carry), Some(true), Some(half_carry));
    result
}

/// Subtracts `value` and `carry_in` from `A`, setting the flags.
fn sub_from_a(cpu: &mut CPU, value: u8, carry_in: u8)
    requires
        carry_in <= 1,
    ensures
        final(cpu)@ == isa::sub_from_a(old(cpu)@, value, carry_in),
{
    cpu.a = subtract(cpu, value, carry_in);
}

/// Compares `A` with `value`: the flags of the subtraction, `A` kept.
fn compare_a(cpu: &mut CPU, value: u8)
    ensures
        final(cpu)@ == isa::sub_flags(old(cpu)@, value, 0),
{
    subtract(cpu, value, 0);
}

fn and_a(cpu: &mut CPU, value: u8)
    ensures
        final(cpu)@ == isa::and_a(old(cpu)@, value),
{
    cpu.a &= value;
    let zero = cpu.a == 0;
    let half_carry = true;
    cpu.update_flags(Some(zero), Some(false), Some(false), Some(half_carry));
}

fn xor_a(cpu: &mut CPU, value: u8)
    ensures
        final(cpu)@ == isa::xor_a(old(cpu)@, value),
{
    cpu.a ^= value;
    let zero = cpu.a == 0;
    cpu.update_flags(Some(zero), Some(false), Some(false), Some(false));
}

fn or_a(cpu: &mut CPU, value: u8)
    ensures
        final(cpu)@ == isa::or_a(old(cpu)@, value),
{
    cpu.a |= value;
    let zero = cpu.a == 0;
    cpu.update_flags(Some(zero), Some(false), Some(false), Some(false));
}

/// Adds `value` to `HL`, setting the flags of a 16-bit addition.
fn add_to_hl(cpu: &mut CPU, value: u16)
    requires
        old(cpu)@.fits(1),
    ensures
        final(cpu)@ == isa::add_to_hl(old(cpu)@, value),
{
    let combined1 = cpu.hl();
    proof {
        bits::lemma_low_bits16(combined1);
        bits::lemma_low_bits16(value);
    }
    let sum: u32 = combined1 as u32 + value as u32;
    let result = (sum % 65536) as u16;
    let carry = sum > 0xFFFF;
    let half_carry = (combined1 & 0x0FFF) + (value & 0x0FFF) > 0x0FFF;
    cpu.update_flags(None, Some(carry), Some(false), Some(half_carry));
    cpu.set_cycles(8);
    set_hl(cpu, result);
    cpu.pc += 1;
}

/// Sets `HL` to `value`.
fn set_hl(cpu: &mut CPU, value: u16)
    ensures
        final(cpu)@ == isa::set_hl(old(cpu)@, value),
{
    proof {
        bits::lemma_split(value);
    }
    cpu.h = (value >> 8) as u8;
    cpu.l = (value & 0xFF) as u8;
}

/// The word after the opcode, low byte first.
fn fetch_u16(cpu: &CPU) -> (word: u16)
    requires
        cpu@.fits(2),
        cpu@.readable(cpu@.pc + 1),
        cpu@.readable(cpu@.pc + 2),
    ensures
        word == cpu@.imm16(),
{
    let high = cpu.mmu.fetch_u8(cpu.pc + 2);
    let low = cpu.mmu.fetch_u8(cpu.pc + 1);
    proof {
        bits::lemma_pair(high, low);
    }
    ((high as u16) << 8) | (low as u16)
}

/// Pops the word on top of the stack, low byte first.
fn pop_word(cpu: &mut CPU) -> (word: u16)
    requires
        old(cpu)@.can_pop(),
    ensures
        word == old(cpu)@.top(),
        final(cpu)@ == (CpuState { sp: (old(cpu)@.sp + 2) as u16, ..old(cpu)@ }),
{
    let high = cpu.mmu.fetch_u8(cpu.sp + 1);
    let low = cpu.mmu.fetch_u8(cpu.sp);
    proof {
        bits::lemma_pair(high, low);
    }
    cpu.sp += 2;
    ((high as u16) << 8) | (low as u16)
}

/// The 16-bit value that a signed offset adds.
fn offset_value(offset: i8) -> (value: u16)
    ensures
        value == bits::wrap16(offset as int),
{
    if offset < 0 {
        (65536 + offset as i32) as u16
    } else {
        offset as u16
    }
}

/// `pc` plus a signed offset, wrapping.
fn jump_target(pc: u16, offset: i8) -> (target: u16)
    ensures
        target == bits::wrap16(pc + offset),
{
    let value = offset_value(offset);
    ((pc as u32 + value as u32) % 65536) as u16
}

/// `SP` plus a signed offset, setting the flags of the addition.
fn sp_plus_offset(cpu: &mut CPU, offset: i8) -> (result: u16)
    requires
        offset as int == bits::signed8(old(cpu)@.imm8()),
    ensures
        result == isa::sp_plus_offset(old(cpu)@),
        final(cpu)@ == isa::sp_offset_flags(old(cpu)@),
{
    let signed_value = offset_value(offset);
    proof {
        bits::lemma_low_bits16(cpu.sp);
        bits::lemma_low_bits16(signed_value);
    }
    let sum: u32 = cpu.sp as u32 + signed_value as u32;
    let result = (sum % 65536) as u16;
    let carry = sum > 0xFFFF;
    let half_carry = (cpu.sp & 0x0F) + (signed_value & 0x0F) > 0x0F;
    cpu.update_flags(Some(false), Some(carry), Some(false), Some(half_carry));
    result
}

/// Pushes the return address in `pc` and jumps to `target`, the operand
/// of the call.
fn call_pushed(cpu: &mut CPU, target: u16)
    requires
        old(cpu)@.pc >= 3,
        isa::can_call_when(CpuState { pc: (old(cpu)@.pc - 3) as u16, ..old(cpu)@ }, true),
        target == (CpuState { pc: (old(cpu)@.pc - 3) as u16, ..old(cpu)@ }).imm16(),
    ensures
        final(cpu)@ == isa::call_when(CpuState { pc: (old(cpu)@.pc - 3) as u16, ..old(cpu)@ }, true),
{
    proof {
        bits::lemma_split(cpu.pc);
    }
    let lower_byte = (cpu.pc & 0xFF) as u8;
    let upper_byte = (cpu.pc >> 8) as u8;
    cpu.push(upper_byte, lower_byte);
    cpu.set_cycles(24);
    cpu.pc = target;
}

impl CPU {
    /// The carry flag as a number, 0 or 1.
    fn carry_bit(&self) -> (bit: u8)
        ensures
            bit == self@.carry_bit(),
    {
        if self.f & 0x10 != 0 {
            1
        } else {
            0
        }
    }
}

} // verus!
