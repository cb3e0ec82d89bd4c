//! Tests, made before a step, of whether the step completes: whether the
//! next instruction is one of the instruction set and stays within the
//! program counter's range, the stack pointer's range and the memory that
//! the map can serve.
use vstd::prelude::*;
use crate::bits;
use super::CPU;
use super::decode;
use super::isa::{self, CpuState};

verus! {

impl CPU {
    /// Whether the program counter can move `length` bytes forward.
    fn fits(&self, length: u16) -> (ok: bool)
        ensures
            ok == self@.fits(length as int),
    {
        self.pc as u32 + length as u32 <= 0xFFFF
    }

    /// Whether the byte at `address` can be read.
    fn readable_at(&self, address: u32) -> (ok: bool)
        ensures
            ok == self@.readable(address as int),
    {
        address <= 0xFFFF && self.mmu.is_readable(address as u16)
    }

    /// Whether the byte at `address` can be written.
    fn writable_at(&self, address: u32) -> (ok: bool)
        ensures
            ok == self@.writable(address as int),
    {
        address <= 0xFFFF && self.mmu.is_writable(address as u16)
    }

    /// Whether the opcode is followed by `count` readable bytes and the
    /// program counter can move past them.
    fn operands_ok(&self, count: u16) -> (ok: bool)
        requires
            1 <= count <= 2,
        ensures
            ok == self@.operands_ok(count as int),
    {
        self.fits(count + 1) && self.readable_at(self.pc as u32 + 1) && (count < 2
            || self.readable_at(self.pc as u32 + 2))
    }

    /// The byte after the opcode.
    fn imm8(&self) -> (value: u8)
        requires
            self@.operands_ok(1),
        ensures
            value == self@.imm8(),
    {
        self.mmu.fetch_u8(self.pc + 1)
    }

    /// The word after the opcode.
    fn imm16(&self) -> (value: u16)
        requires
            self@.operands_ok(2),
        ensures
            value == self@.imm16(),
    {
        let high = self.mmu.fetch_u8(self.pc + 2);
        let low = self.mmu.fetch_u8(self.pc + 1);
        proof {
            bits::lemma_pair(high, low);
        }
        ((high as u16) << 8) | (low as u16)
    }

    /// Whether `hi` and a second byte can be pushed.
    fn can_push_byte(&self, hi: u8) -> (ok: bool)
        ensures
            ok == self@.can_push(hi),
    {
        if self.sp < 2 || !self.mmu.is_writable(self.sp - 1) {
            false
        } else {
            self.mmu.writable_after(self.sp - 1, hi, self.sp - 2)
        }
    }

    fn can_modify_m_hl(&self) -> (ok: bool)
        ensures
            ok == isa::can_modify_m_hl(self@),
    {
        let hl = self.hl();
        self.fits(1) && self.mmu.is_readable(hl) && self.mmu.is_writable(hl)
    }

    fn can_jr_when(&self, taken: bool) -> (ok: bool)
        ensures
            ok == isa::can_jr_when(self@, taken),
    {
        self.fits(1) && self.readable_at(self.pc as u32 + 1) && (taken || self.fits(2))
    }

    fn can_jp_when(&self, taken: bool) -> (ok: bool)
        ensures
            ok == isa::can_jp_when(self@, taken),
    {
        if taken {
            self.fits(2) && self.readable_at(self.pc as u32 + 1) && self.readable_at(
                self.pc as u32 + 2,
            )
        } else {
            self.fits(3)
        }
    }

    fn can_call_when(&self, taken: bool) -> (ok: bool)
        ensures
            ok == isa::can_call_when(self@, taken),
    {
        if !self.fits(3) {
            return false;
        }
        if !taken {
            return true;
        }
        let ret = self.pc + 3;
        proof {
            bits::lemma_split(ret);
        }
        let hi = (ret >> 8) as u8;
        if !self.readable_at(self.pc as u32 + 1) || !self.readable_at(self.pc as u32 + 2) {
            return false;
        }
        if self.sp < 2 || !self.mmu.is_writable(self.sp - 1) {
            return false;
        }
        self.mmu.writable_after(self.sp - 1, hi, self.sp - 2)
    }

    fn can_ret_when(&self, taken: bool) -> (ok: bool)
        ensures
            ok == isa::can_ret_when(self@, taken),
    {
        if taken {
            self.sp <= 0xFFFD && self.mmu.is_readable(self.sp + 1) && self.mmu.is_readable(self.sp)
        } else {
            self.fits(1)
        }
    }

    fn can_rst(&self) -> (ok: bool)
        ensures
            ok == isa::can_rst(self@),
    {
        if !self.fits(1) {
            return false;
        }
        let ret = self.pc + 1;
        proof {
            bits::lemma_split(ret);
        }
        let hi = (ret >> 8) as u8;
        self.can_push_byte(hi)
    }

    fn can_pop(&self) -> (ok: bool)
        ensures
            ok == isa::can_pop(self@),
    {
        self.can_ret_when(true) && self.fits(1)
    }

    fn can_push_pair(&self, hi: u8) -> (ok: bool)
        ensures
            ok == isa::can_push_pair(self@, hi),
    {
        self.can_push_byte(hi) && self.fits(1)
    }

    fn can_ld_m_u16_sp(&self) -> (ok: bool)
        ensures
            ok == isa::can_ld_m_u16_sp(self@),
    {
        if !self.operands_ok(2) || !self.fits(3) {
            return false;
        }
        let address = self.imm16();
        if !self.mmu.is_writable(address) || address == 0xFFFF {
            return false;
        }
        proof {
            bits::lemma_split(self.sp);
        }
        let lower_byte = (self.sp & 0xFF) as u8;
        self.mmu.writable_after(address, lower_byte, address + 1)
    }

    /// The condition of a conditional instruction: NZ, Z, NC or C.
    fn condition(&self, y: u8) -> (holds: bool)
        ensures
            holds == decode::condition(self@, y),
    {
        if y == 0 {
            self.f & 0x80 == 0
        } else if y == 1 {
            self.f & 0x80 != 0
        } else if y == 2 {
            self.f & 0x10 == 0
        } else {
            self.f & 0x10 != 0
        }
    }

    fn can_00(&self, y: u8, z: u8) -> (ok: bool)
        requires
            y < 8,
            z < 8,
        ensures
            ok == decode::can_00(self@, y, z),
    {
        if z == 0 {
            if y == 0 || y == 2 {
                self.fits(1)
            } else if y == 1 {
                self.can_ld_m_u16_sp()
            } else if y == 3 {
                self.can_jr_when(true)
            } else {
                self.can_jr_when(self.condition(y - 4))
            }
        } else if z == 1 {
            if y % 2 == 0 {
                self.operands_ok(2)
            } else {
                self.fits(1)
            }
        } else if z == 2 {
            proof {
                bits::lemma_pair(self.b, self.c);
                bits::lemma_pair(self.d, self.e);
            }
            let address: u16 = if y <= 1 {
                ((self.b as u16) << 8) | (self.c as u16)
            } else if y <= 3 {
                ((self.d as u16) << 8) | (self.e as u16)
            } else {
                self.hl()
            };
            self.fits(1) && if y % 2 == 0 {
                self.mmu.is_writable(address)
            } else {
                self.mmu.is_readable(address)
            }
        } else if z == 3 {
            self.fits(1)
        } else if z == 4 || z == 5 {
            if y == 6 {
                self.can_modify_m_hl()
            } else {
                self.fits(1)
            }
        } else if z == 6 {
            self.operands_ok(1) && (y != 6 || self.mmu.is_writable(self.hl()))
        } else {
            self.fits(1)
        }
    }

    fn can_01(&self, y: u8, z: u8) -> (ok: bool)
        ensures
            ok == decode::can_01(self@, y, z),
    {
        self.fits(1) && (!(z == 6 && y != 6) || self.mmu.is_readable(self.hl())) && (!(z != 6
            && y == 6) || self.mmu.is_writable(self.hl()))
    }

    fn can_10(&self, y: u8, z: u8) -> (ok: bool)
        ensures
            ok == decode::can_10(self@, y, z),
    {
        self.fits(1) && (z != 6 || self.mmu.is_readable(self.hl()))
    }

    fn can_11(&self, y: u8, z: u8) -> (ok: bool)
        requires
            y < 8,
            z < 8,
        ensures
            ok == decode::can_11(self@, y, z),
    {
        if (z == 3 && 1 <= y && y <= 5) || (z == 4 && y >= 4) || (z == 5 && (y == 3 || y == 5
            || y == 7)) {
            false
        } else if z == 0 {
            if y <= 3 {
                self.can_ret_when(self.condition(y))
            } else if y == 4 {
                self.operands_ok(1) && self.mmu.is_writable(0xFF00 + self.imm8() as u16)
            } else if y == 6 {
                self.operands_ok(1) && self.mmu.is_readable(0xFF00 + self.imm8() as u16)
            } else {
                self.operands_ok(1)
            }
        } else if z == 1 {
            if y == 1 || y == 3 {
                self.can_ret_when(true)
            } else if y == 5 {
                true
            } else if y == 7 {
                self.fits(1)
            } else {
                self.can_pop()
            }
        } else if z == 2 {
            if y <= 3 {
                self.can_jp_when(self.condition(y))
            } else if y == 4 {
                self.fits(1) && self.mmu.is_writable(0xFF00 + self.c as u16)
            } else if y == 5 {
                self.operands_ok(2) && self.mmu.is_writable(self.imm16())
            } else if y == 6 {
                self.fits(1) && self.mmu.is_readable(0xFF00 + self.c as u16)
            } else {
                self.operands_ok(2) && self.mmu.is_readable(self.imm16())
            }
        } else if z == 3 {
            if y == 0 {
                self.can_jp_when(true)
            } else {
                self.fits(1)
            }
        } else if z == 4 {
            self.can_call_when(self.condition(y))
        } else if z == 5 {
            if y == 0 {
                self.can_push_pair(self.b)
            } else if y == 1 {
                self.can_call_when(true)
            } else if y == 2 {
                self.can_push_pair(self.d)
            } else if y == 4 {
                self.can_push_pair(self.h)
            } else {
                self.can_push_pair(self.a)
            }
        } else if z == 6 {
            self.operands_ok(1)
        } else {
            self.can_rst()
        }
    }

    /// Whether the instruction that `opcode` starts completes.
    pub fn can_execute(&self, opcode: u8) -> (ok: bool)
        ensures
            ok == decode::can_execute(self@, opcode),
    {
        proof {
            bits::lemma_opcode_fields(opcode);
            reveal(decode::can_cb_instruction);
        }
        let x = opcode >> 6;
        let y = (opcode >> 3) & 0b111;
        let z = opcode & 0b111;
        if opcode != 0xCB {
            if x == 0 {
                self.can_00(y, z)
            } else if x == 1 {
                self.can_01(y, z)
            } else if x == 2 {
                self.can_10(y, z)
            } else {
                self.can_11(y, z)
            }
        } else {
            if !self.fits(1) || !self.mmu.is_readable(self.pc + 1) {
                return false;
            }
            let next = self.mmu.fetch_instruction(self.pc + 1);
            proof {
                bits::lemma_opcode_fields(next);
            }
            let next_x = next >> 6;
            let next_z = next & 0b111;
            let ghost t = decode::past_prefix(self@);
            assert(t.hl() == self@.hl());
            if next_z != 6 {
                self.pc as u32 + 2 <= 0xFFFF
            } else if next_x == 1 {
                self.pc as u32 + 2 <= 0xFFFF && self.mmu.is_readable(self.hl())
            } else {
                self.pc as u32 + 2 <= 0xFFFF && self.mmu.is_readable(self.hl())
                    && self.mmu.is_writable(self.hl())
            }
        }
    }

    /// Takes one step, as `tick` does, when the step completes; tells
    /// whether it did.
    pub fn try_tick(&mut self) -> (ok: bool)
        ensures
            ok == decode::can_tick(old(self)@),
            ok ==> final(self)@ == decode::tick(old(self)@),
            !ok ==> final(self)@ == decode::failed_tick(old(self)@),
    {
        proof {
            reveal(decode::tick);
            reveal(decode::can_tick);
        }
        if self.waits() {
            self.set_cycles(4);
            return true;
        }
        self.halted = false;
        if !self.can_take_interrupt() {
            return false;
        }
        self.handle_interrupts();
        if !self.mmu.is_readable(self.pc) {
            return false;
        }
        let opcode = self.mmu.fetch_instruction(self.pc);
        if !self.can_execute(opcode) {
            return false;
        }
        self.execute(opcode);
        true
    }

    /// Whether taking an interrupt, if one is due, completes.
    pub fn can_take_interrupt(&self) -> (ok: bool)
        ensures
            ok == decode::can_take_interrupt(self@),
    {
        let interrupt_flag = self.mmu.read_byte(0xFF0F);
        let interrupt_enable = self.mmu.read_byte(0xFFFF);
        if !self.ime || interrupt_flag & interrupt_enable & 0b00011111 == 0 {
            return true;
        }
        proof {
            bits::lemma_split(self.pc);
        }
        self.can_push_byte((self.pc >> 8) as u8)
    }
}

} // verus!
