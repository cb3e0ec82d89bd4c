//! The Sharp LR35902 CPU: its registers, interrupt handling and the
//! decoding of opcodes into the instructions of `instructions`.
use vstd::prelude::*;
use crate::bits;
use crate::mmu::MMU;

mod check;
pub mod decode;
pub mod instructions;
pub mod isa;

use isa::CpuState;

verus! {

/// The address that each interrupt jumps to.
#[allow(non_camel_case_types)]
pub enum INTERRUPT_ADDRESS {
    VBlank,  // Address for Vertical Blank interrupt
    LCDStat,  // Address for LCD Status interrupt
    Timer,  // Address for Timer interrupt
    Serial,  // Address for Serial I/O interrupt
    Joypad,  // Address for Joypad interrupt
}

impl INTERRUPT_ADDRESS {
    pub open spec fn spec_address(self) -> u16 {
        match self {
            INTERRUPT_ADDRESS::VBlank => 0x0040,
            INTERRUPT_ADDRESS::LCDStat => 0x0048,
            INTERRUPT_ADDRESS::Timer => 0x0050,
            INTERRUPT_ADDRESS::Serial => 0x0058,
            INTERRUPT_ADDRESS::Joypad => 0x0060,
        }
    }

    pub fn address(self) -> (address: u16)
        ensures
            address == self.spec_address(),
    {
        match self {
            INTERRUPT_ADDRESS::VBlank => 0x0040,
            INTERRUPT_ADDRESS::LCDStat => 0x0048,
            INTERRUPT_ADDRESS::Timer => 0x0050,
            INTERRUPT_ADDRESS::Serial => 0x0058,
            INTERRUPT_ADDRESS::Joypad => 0x0060,
        }
    }
}

/// The bit of each interrupt in the interrupt flag and enable registers.
#[allow(non_camel_case_types)]
pub enum INTERRUPT_FLAG {
    VBlank,  // Flag bit for Vertical Blank interrupt
    LCDStat,  // Flag bit for LCD Status interrupt
    Timer,  // Flag bit for Timer interrupt
    Serial,  // Flag bit for Serial I/O interrupt
    Joypad,  // Flag bit for Joypad interrupt
}

impl INTERRUPT_FLAG {
    pub open spec fn spec_value(self) -> u8 {
        match self {
            INTERRUPT_FLAG::VBlank => 0b00000001,
            INTERRUPT_FLAG::LCDStat => 0b00000010,
            INTERRUPT_FLAG::Timer => 0b00000100,
            INTERRUPT_FLAG::Serial => 0b00001000,
            INTERRUPT_FLAG::Joypad => 0b00010000,
        }
    }

    pub fn value(self) -> (value: u8)
        ensures
            value == self.spec_value(),
    {
        match self {
            INTERRUPT_FLAG::VBlank => 0b00000001,
            INTERRUPT_FLAG::LCDStat => 0b00000010,
            INTERRUPT_FLAG::Timer => 0b00000100,
            INTERRUPT_FLAG::Serial => 0b00001000,
            INTERRUPT_FLAG::Joypad => 0b00010000,
        }
    }
}

/// The eight restart vectors of the `RST` instructions.
pub enum RST {
    Rst00H,
    Rst08H,
    Rst10H,
    Rst18H,
    Rst20H,
    Rst28H,
    Rst30H,
    Rst38H,
}

impl RST {
    pub open spec fn spec_address(self) -> u16 {
        match self {
            RST::Rst00H => 0x0000,
            RST::Rst08H => 0x0008,
            RST::Rst10H => 0x0010,
            RST::Rst18H => 0x0018,
            RST::Rst20H => 0x0020,
            RST::Rst28H => 0x0028,
            RST::Rst30H => 0x0030,
            RST::Rst38H => 0x0038,
        }
    }

    pub fn address(self) -> (address: u16)
        ensures
            address == self.spec_address(),
    {
        match self {
            RST::Rst00H => 0x0000,
            RST::Rst08H => 0x0008,
            RST::Rst10H => 0x0010,
            RST::Rst18H => 0x0018,
            RST::Rst20H => 0x0020,
            RST::Rst28H => 0x0028,
            RST::Rst30H => 0x0030,
            RST::Rst38H => 0x0038,
        }
    }
}

pub struct CPU {
    pub a: u8,  // Accumulator register. Used in arithmetic and logic operations.
    pub b: u8,  // General-purpose register B. Often paired with C as BC.
    pub c: u8,  // General-purpose register C. Often paired with B as BC.
    pub d: u8,  // General-purpose register D. Often paired with E as DE.
    pub e: u8,  // General-purpose register E. Often paired with D as DE.
    pub f: u8,  // Flag register. Contains status flags (Zero, Subtract, Half Carry, Carry).
    pub h: u8,  // General-purpose register H. Often paired with L as HL.
    pub l: u8,  // General-purpose register L. Often paired with H as HL.
    pub pc: u16,  // Program Counter. Points to the next instruction to be executed in memory.
    pub sp: u16,  // Stack Pointer. Points to the top of the stack.
    pub ime: bool,  // Interrupt Master Enable flag. Controls the global interrupt enable/disable state.
    pub halted: bool,  // Halt flag. Indicates if the CPU is in a halted state, waiting for an interrupt.
    pub cycles: u16,  // Cycles number. Stores the number of cycles executed by the last instruction.
    pub mmu: MMU,  // Memory Management Unit. Manages access to different memory regions.
}

impl View for CPU {
    type V = CpuState;

    open spec fn view(&self) -> CpuState {
        CpuState {
            a: self.a,
            b: self.b,
            c: self.c,
            d: self.d,
            e: self.e,
            f: self.f,
            h: self.h,
            l: self.l,
            pc: self.pc,
            sp: self.sp,
            ime: self.ime,
            halted: self.halted,
            cycles: self.cycles,
            mem: self.mmu@,
        }
    }
}

impl CPU {
    pub fn new(mmu: MMU) -> (cpu: Self)
        ensures
            cpu@ == (CpuState {
                a: 0,
                b: 0,
                c: 0,
                d: 0,
                e: 0,
                f: 0,
                h: 0,
                l: 0,
                pc: 0,
                sp: 0,
                ime: false,
                halted: false,
                cycles: 0,
                mem: mmu@,
            }),
    {
        CPU {
            a: 0,
            b: 0,
            c: 0,
            d: 0,
            e: 0,
            f: 0,
            h: 0,
            l: 0,
            pc: 0,
            sp: 0,
            ime: false,
            halted: false,
            cycles: 0,
            mmu,
        }
    }

    pub fn set_cycles(&mut self, cycles: u16)
        ensures
            final(self)@ == (CpuState { cycles, ..old(self)@ }),
    {
        self.cycles = cycles;
    }

    pub fn get_cycles(&self) -> (cycles: u16)
        ensures
            cycles == self@.cycles,
    {
        self.cycles
    }

    /// Requests `interrupt` by setting its bits in the interrupt flag
    /// register.
    pub fn request_interrupt(&mut self, interrupt: u8)
        ensures
            final(self)@ == (CpuState { mem: old(self)@.mem.requested(interrupt), ..old(self)@ }),
    {
        let current_interrupt_flag = self.mmu.read_byte(0xFF0F);
        let new_interrupt_flag = current_interrupt_flag | interrupt;
        self.mmu.write_byte(0xFF0F, new_interrupt_flag);
        assert(self@.mem =~= old(self)@.mem.requested(interrupt));
    }

    /// Sets each flag that is given and keeps each flag given as `None`.
    fn update_flags(
        &mut self,
        zero: Option<bool>,
        carry: Option<bool>,
        negative: Option<bool>,
        half_carry: Option<bool>,
    )
        ensures
            final(self)@ == old(self)@.flags(zero, carry, negative, half_carry),
    {
        if let Some(z) = zero {
            if z {
                self.f |= 0x80;
            } else {
                self.f &= !0x80;
            }
        }
        if let Some(n) = negative {
            if n {
                self.f |= 0x40;
            } else {
                self.f &= !0x40;
            }
        }
        if let Some(h) = half_carry {
            if h {
                self.f |= 0x20;
            } else {
                self.f &= !0x20;
            }
        }
        if let Some(c) = carry {
            if c {
                self.f |= 0x10;
            } else {
                self.f &= !0x10;
            }
        }
    }

    /// The value of the register pair `HL`.
    fn hl(&self) -> (hl: u16)
        ensures
            hl == self@.hl(),
    {
        proof {
            bits::lemma_pair(self.h, self.l);
        }
        ((self.h as u16) << 8) | (self.l as u16)
    }

    /// Pushes `hi` and then `lo` on the stack.
    fn push(&mut self, hi: u8, lo: u8)
        requires
            old(self)@.can_push(hi),
        ensures
            final(self)@ == old(self)@.push(hi, lo),
    {
        self.sp -= 2;
        self.mmu.write_byte(self.sp + 1, hi);
        self.mmu.write_byte(self.sp, lo);
    }
    /// One step: a halted CPU with no interrupt both requested and enabled
    /// waits, letting four cycles pass; otherwise the CPU wakes, takes a due
    /// interrupt, and runs the instruction at `pc`.
    pub fn tick(&mut self)
        requires
            decode::can_tick(old(self)@),
        ensures
            final(self)@ == decode::tick(old(self)@),
    {
        proof {
            reveal(decode::tick);
            reveal(decode::can_tick);
        }
        if self.waits() {
            self.set_cycles(4);
            return;
        }
        self.halted = false;
        self.handle_interrupts();
        let opcode = self.mmu.fetch_instruction(self.pc);
        self.execute(opcode);
    }

    /// Whether the CPU is halted with no interrupt both requested and
    /// enabled.
    fn waits(&self) -> (waiting: bool)
        ensures
            waiting == decode::waiting(self@),
    {
        if !self.halted {
            return false;
        }
        let interrupt_flag = self.mmu.read_byte(0xFF0F);
        let interrupt_enable = self.mmu.read_byte(0xFFFF);
        interrupt_flag & interrupt_enable & 0b00011111 == 0
    }

    pub fn execute(&mut self, opcode: u8)
        requires
            decode::can_execute(old(self)@, opcode),
        ensures
            final(self)@ == decode::execute(old(self)@, opcode),
    {
        proof {
            reveal(decode::cb_instruction);
            reveal(decode::can_cb_instruction);
        }
        if opcode != 0xCB {
            self.execute_not_prefixed_instruction(opcode);
        } else {
            self.pc += 1;
            let new_opcode = self.mmu.fetch_instruction(self.pc);
            self.execute_prefixed_instruction(new_opcode);
        }
    }

    /// Takes the highest-priority requested interrupt when interrupts are
    /// enabled and one is both requested and enabled; tells whether one
    /// was taken.
    fn handle_interrupts(&mut self) -> (taken: bool)
        requires
            decode::can_take_interrupt(old(self)@),
        ensures
            taken == decode::takes_interrupt(old(self)@),
            final(self)@ == decode::interrupt_taken(old(self)@),
    {
        if !self.ime {
            return false;
        }
        let interrupt_flag = self.mmu.read_byte(0xFF0F);
        let interrupt_enable = self.mmu.read_byte(0xFFFF);
        let is_enabled_interrupts = interrupt_flag & interrupt_enable & 0b00011111;
        if is_enabled_interrupts == 0 {
            return false;
        }
        proof {
            bits::lemma_split(self.pc);
        }
        let upper_byte = (self.pc >> 8) as u8;
        let lower_byte = (self.pc & 0xFF) as u8;
        self.push(upper_byte, lower_byte);
        if interrupt_flag & INTERRUPT_FLAG::VBlank.value() != 0 {
            self.mmu.write_byte(0xFF0F, interrupt_flag & !INTERRUPT_FLAG::VBlank.value());
            self.pc = INTERRUPT_ADDRESS::VBlank.address();
            self.ime = false;
        } else if interrupt_flag & INTERRUPT_FLAG::LCDStat.value() != 0 {
            self.mmu.write_byte(0xFF0F, interrupt_flag & !INTERRUPT_FLAG::LCDStat.value());
            self.pc = INTERRUPT_ADDRESS::LCDStat.address();
            self.ime = false;
        } else if interrupt_flag & INTERRUPT_FLAG::Timer.value() != 0 {
            self.mmu.write_byte(0xFF0F, interrupt_flag & !INTERRUPT_FLAG::Timer.value());
            self.pc = INTERRUPT_ADDRESS::Timer.address();
            self.ime = false;
        } else if interrupt_flag & INTERRUPT_FLAG::Serial.value() != 0 {
            self.mmu.write_byte(0xFF0F, interrupt_flag & !INTERRUPT_FLAG::Serial.value());
            self.pc = INTERRUPT_ADDRESS::Serial.address();
            self.ime = false;
        } else if interrupt_flag & INTERRUPT_FLAG::Joypad.value() != 0 {
            self.mmu.write_byte(0xFF0F, interrupt_flag & !INTERRUPT_FLAG::Joypad.value());
            self.pc = INTERRUPT_ADDRESS::Joypad.address();
            self.ime = false;
        }
        true
    }

    fn execute_not_prefixed_instruction(&mut self, opcode: u8)
        requires
            decode::can_unprefixed(old(self)@, opcode),
        ensures
            final(self)@ == decode::unprefixed(old(self)@, opcode),
    {
        proof {
            bits::lemma_opcode_fields(opcode);
        }
        let bits_7_6 = opcode >> 6;
        match bits_7_6 {
            0 => self.execute_not_prefixed_instruction_starting_with_00(opcode),
            1 => self.execute_not_prefixed_instruction_starting_with_01(opcode),
            2 => self.execute_not_prefixed_instruction_starting_with_10(opcode),
            _ => self.execute_not_prefixed_instruction_starting_with_11(opcode),
        }
    }

    fn execute_prefixed_instruction(&mut self, opcode: u8)
        requires
            decode::can_prefixed(old(self)@, opcode),
        ensures
            final(self)@ == decode::prefixed(old(self)@, opcode),
    {
        proof {
            bits::lemma_opcode_fields(opcode);
        }
        let bits_7_6 = opcode >> 6;
        match bits_7_6 {
            0 => self.execute_prefixed_instruction_starting_with_00(opcode),
            1 => self.execute_prefixed_instruction_starting_with_01(opcode),
            2 => self.execute_prefixed_instruction_starting_with_10(opcode),
            _ => self.execute_prefixed_instruction_starting_with_11(opcode),
        }
    }

    fn execute_not_prefixed_instruction_starting_with_00(&mut self, opcode: u8)
        requires
            decode::field_x(opcode) == 0,
            decode::can_00(old(self)@, decode::field_y(opcode), decode::field_z(opcode)),
        ensures
            final(self)@ == decode::exec_00(old(self)@, decode::field_y(opcode), decode::field_z(opcode)),
    {
        proof {
            bits::lemma_opcode_fields(opcode);
        }
        let bits_5_4_3 = (opcode >> 3) & 0b111;
        let bits_2_1_0 = opcode & 0b111;
        match bits_2_1_0 {
            0 => {
                match bits_5_4_3 {
                    0 => {  // NOP
                        instructions::nop(self);
                    },
                    1 => {  // LD (nn), SP
                        instructions::ld_m_u16_sp(self);
                    },
                    2 => {  // STOP
                        instructions::stop(self);
                    },
                    3 => {  // JR d
                        instructions::jr_i8(self);
                    },
                    4 => {  // JR NZ, d
                        instructions::jr_nz_i8(self);
                    },
                    5 => {  // JR Z, d
                        instructions::jr_z_i8(self);
                    },
                    6 => {  // JR NC, d
                        instructions::jr_nc_i8(self);
                    },
                    _ => {  // JR C, d
                        instructions::jr_c_i8(self);
                    },
                }
            },
            1 => {
                match bits_5_4_3 {
                    0 => {  // LD BC, nn
                        instructions::ld_bc_u16(self);
                    },
                    1 => {  // ADD HL, BC
                        let register_b = self.b;
                        let register_c = self.c;
                        instructions::add_hl_r_u16(self, register_b, register_c);
                    },
                    2 => {  // LD DE, nn
                        instructions::ld_de_u16(self);
                    },
                    3 => {  // ADD HL, DE
                        let register_d = self.d;
                        let register_e = self.e;
                        instructions::add_hl_r_u16(self, register_d, register_e);
                    },
                    4 => {  // LD HL, nn
                        instructions::ld_hl_u16(self);
                    },
                    5 => {  // ADD HL, HL
                        let register_h = self.h;
                        let register_l = self.l;
                        instructions::add_hl_r_u16(self, register_h, register_l);
                    },
                    6 => {  // LD SP, nn
                        instructions::ld_sp_u16(self);
                    },
                    _ => {  // ADD HL, SP
                        instructions::add_hl_sp(self);
                    },
                }
            },
            2 => {
                match bits_5_4_3 {
                    0 => {  // LD (BC), A
                        let register_b = self.b;
                        let register_c = self.c;
                        instructions::ld_m_r_u16_a(self, register_b, register_c);
                    },
                    1 => {  // LD A, (BC)
                        let register_b = self.b;
                        let register_c = self.c;
                        instructions::ld_a_m_r_u16(self, register_b, register_c);
                    },
                    2 => {  // LD (DE), A
                        let register_d = self.d;
                        let register_e = self.e;
                        instructions::ld_m_r_u16_a(self, register_d, register_e);
                    },
                    3 => {  // LD A, (DE)
                        let register_d = self.d;
                        let register_e = self.e;
                        instructions::ld_a_m_r_u16(self, register_d, register_e);
                    },
                    4 => {  // LD (HL+), A
                        instructions::ld_hl_inc_a(self);
                    },
                    5 => {  // LD A, (HL+)
                        instructions::ld_a_hl_inc(self);
                    },
                    6 => {  // LD (HL-), A
                        instructions::ld_hl_dec_a(self);
                    },
                    _ => {  // LD A, (HL-)
                        instructions::ld_a_hl_dec(self);
                    },
                }
            },
            3 => {
                match bits_5_4_3 {
                    0 => {  // INC BC
                        let register_b = self.b;
                        let register_c = self.c;
                        let (high, low) = instructions::inc_r_u16(self, register_b, register_c);
                        self.b = high;
                        self.c = low;
                    },
                    1 => {  // DEC BC
                        let register_b = self.b;
                        let register_c = self.c;
                        let (high, low) = instructions::dec_r_u16(self, register_b, register_c);
                        self.b = high;
                        self.c = low;
                    },
                    2 => {  // INC DE
                        let register_d = self.d;
                        let register_e = self.e;
                        let (high, low) = instructions::inc_r_u16(self, register_d, register_e);
                        self.d = high;
                        self.e = low;
                    },
                    3 => {  // DEC DE
                        let register_d = self.d;
                        let register_e = self.e;
                        let (high, low) = instructions::dec_r_u16(self, register_d, register_e);
                        self.d = high;
                        self.e = low;
                    },
                    4 => {  // INC HL
                        let register_h = self.h;
                        let register_l = self.l;
                        let (high, low) = instructions::inc_r_u16(self, register_h, register_l);
                        self.h = high;
                        self.l = low;
                    },
                    5 => {  // DEC HL
                        let register_h = self.h;
                        let register_l = self.l;
                        let (high, low) = instructions::dec_r_u16(self, register_h, register_l);
                        self.h = high;
                        self.l = low;
                    },
                    6 => {  // INC SP
                        instructions::inc_sp(self);
                    },
                    _ => {  // DEC SP
                        instructions::dec_sp(self);
                    },
                }
            },
            4 => {
                match bits_5_4_3 {
                    0 => {  // INC B
                        let register_b = self.b;
                        self.b = instructions::inc_r_u8(self, register_b);
                    },
                    1 => {  // INC C
                        let register_c = self.c;
                        self.c = instructions::inc_r_u8(self, register_c);
                    },
                    2 => {  // INC D
                        let register_d = self.d;
                        self.d = instructions::inc_r_u8(self, register_d);
                    },
                    3 => {  // INC E
                        let register_e = self.e;
                        self.e = instructions::inc_r_u8(self, register_e);
                    },
                    4 => {  // INC H
                        let register_h = self.h;
                        self.h = instructions::inc_r_u8(self, register_h);
                    },
                    5 => {  // INC L
                        let register_l = self.l;
                        self.l = instructions::inc_r_u8(self, register_l);
                    },
                    6 => {  // INC (HL)
                        instructions::inc_m_hl(self);
                    },
                    _ => {  // INC A
                        let register_a = self.a;
                        self.a = instructions::inc_r_u8(self, register_a);
                    },
                }
            },
            5 => {
                match bits_5_4_3 {
                    0 => {  // DEC B
                        let register_b = self.b;
                        self.b = instructions::dec_r_u8(self, register_b);
                    },
                    1 => {  // DEC C
                        let register_c = self.c;
                        self.c = instructions::dec_r_u8(self, register_c);
                    },
                    2 => {  // DEC D
                        let register_d = self.d;
                        self.d = instructions::dec_r_u8(self, register_d);
                    },
                    3 => {  // DEC E
                        let register_e = self.e;
                        self.e = instructions::dec_r_u8(self, register_e);
                    },
                    4 => {  // DEC H
                        let register_h = self.h;
                        self.h = instructions::dec_r_u8(self, register_h);
                    },
                    5 => {  // DEC L
                        let register_l = self.l;
                        self.l = instructions::dec_r_u8(self, register_l);
                    },
                    6 => {  // DEC (HL)
                        instructions::dec_m_hl(self);
                    },
                    _ => {  // DEC A
                        let register_a = self.a;
                        self.a = instructions::dec_r_u8(self, register_a);
                    },
                }
            },
            6 => {
                match bits_5_4_3 {
                    0 => {  // LD B, n
                        instructions::ld_b_u8(self);
                    },
                    1 => {  // LD C, n
                        instructions::ld_c_u8(self);
                    },
                    2 => {  // LD D, n
                        instructions::ld_d_u8(self);
                    },
                    3 => {  // LD E, n
                        instructions::ld_e_u8(self);
                    },
                    4 => {  // LD H, n
                        instructions::ld_h_u8(self);
                    },
                    5 => {  // LD L, n
                        instructions::ld_l_u8(self);
                    },
                    6 => {  // LD (HL), n
                        instructions::ld_m_hl_u8(self);
                    },
                    _ => {  // LD A, n
                        instructions::ld_a_u8(self);
                    },
                }
            },
            _ => {
                match bits_5_4_3 {
                    0 => {  // RLCA
                        instructions::rlca(self);
                    },
                    1 => {  // RRCA
                        instructions::rrca(self);
                    },
                    2 => {  // RLA
                        instructions::rla(self);
                    },
                    3 => {  // RRA
                        instructions::rra(self);
                    },
                    4 => {  // DAA
                        instructions::daa(self);
                    },
                    5 => {  // CPL
                        instructions::cpl(self);
                    },
                    6 => {  // SCF
                        instructions::scf(self);
                    },
                    _ => {  // CCF
                        instructions::ccf(self);
                    },
                }
            },
        }
    }

    fn execute_not_prefixed_instruction_starting_with_01(&mut self, opcode: u8)
        requires
            decode::field_x(opcode) == 1,
            decode::can_01(old(self)@, decode::field_y(opcode), decode::field_z(opcode)),
        ensures
            final(self)@ == decode::exec_01(old(self)@, decode::field_y(opcode), decode::field_z(opcode)),
    {
        proof {
            bits::lemma_opcode_fields(opcode);
        }
        let bits_5_4_3 = (opcode >> 3) & 0b111;
        let bits_2_1_0 = opcode & 0b111;
        match bits_2_1_0 {
            0 => {
                let register_b = self.b;
                match bits_5_4_3 {
                    0 => {  // LD B, B
                        instructions::ld_b_r_u8(self, register_b);
                    },
                    1 => {  // LD C, B
                        instructions::ld_c_r_u8(self, register_b);
                    },
                    2 => {  // LD D, B
                        instructions::ld_d_r_u8(self, register_b);
                    },
                    3 => {  // LD E, B
                        instructions::ld_e_r_u8(self, register_b);
                    },
                    4 => {  // LD H, B
                        instructions::ld_h_r_u8(self, register_b);
                    },
                    5 => {  // LD L, B
                        instructions::ld_l_r_u8(self, register_b);
                    },
                    6 => {  // LD (HL), B
                        instructions::ld_m_hl_r_u8(self, register_b);
                    },
                    _ => {  // LD A, B
                        instructions::ld_a_r_u8(self, register_b);
                    },
                }
            },
            1 => {
                let register_c = self.c;
                match bits_5_4_3 {
                    0 => {  // LD B, C
                        instructions::ld_b_r_u8(self, register_c);
                    },
                    1 => {  // LD C, C
                        instructions::ld_c_r_u8(self, register_c);
                    },
                    2 => {  // LD D, C
                        instructions::ld_d_r_u8(self, register_c);
                    },
                    3 => {  // LD E, C
                        instructions::ld_e_r_u8(self, register_c);
                    },
                    4 => {  // LD H, C
                        instructions::ld_h_r_u8(self, register_c);
                    },
                    5 => {  // LD L, C
                        instructions::ld_l_r_u8(self, register_c);
                    },
                    6 => {  // LD (HL), C
                        instructions::ld_m_hl_r_u8(self, register_c);
                    },
                    _ => {  // LD A, C
                        instructions::ld_a_r_u8(self, register_c);
                    },
                }
            },
            2 => {
                let register_d = self.d;
                match bits_5_4_3 {
                    0 => {  // LD B, D
                        instructions::ld_b_r_u8(self, register_d);
                    },
                    1 => {  // LD C, D
                        instructions::ld_c_r_u8(self, register_d);
                    },
                    2 => {  // LD D, D
                        instructions::ld_d_r_u8(self, register_d);
                    },
                    3 => {  // LD E, D
                        instructions::ld_e_r_u8(self, register_d);
                    },
                    4 => {  // LD H, D
                        instructions::ld_h_r_u8(self, register_d);
                    },
                    5 => {  // LD L, D
                        instructions::ld_l_r_u8(self, register_d);
                    },
                    6 => {  // LD (HL), D
                        instructions::ld_m_hl_r_u8(self, register_d);
                    },
                    _ => {  // LD A, D
                        instructions::ld_a_r_u8(self, register_d);
                    },
                }
            },
            3 => {
                let register_e = self.e;
                match bits_5_4_3 {
                    0 => {  // LD B, E
                        instructions::ld_b_r_u8(self, register_e);
                    },
                    1 => {  // LD C, E
                        instructions::ld_c_r_u8(self, register_e);
                    },
                    2 => {  // LD D, E
                        instructions::ld_d_r_u8(self, register_e);
                    },
                    3 => {  // LD E, E
                        instructions::ld_e_r_u8(self, register_e);
                    },
                    4 => {  // LD H, E
                        instructions::ld_h_r_u8(self, register_e);
                    },
                    5 => {  // LD L, E
                        instructions::ld_l_r_u8(self, register_e);
                    },
                    6 => {  // LD (HL), E
                        instructions::ld_m_hl_r_u8(self, register_e);
                    },
                    _ => {  // LD A, E
                        instructions::ld_a_r_u8(self, register_e);
                    },
                }
            },
            4 => {
                let register_h = self.h;
                match bits_5_4_3 {
                    0 => {  // LD B, H
                        instructions::ld_b_r_u8(self, register_h);
                    },
                    1 => {  // LD C, H
                        instructions::ld_c_r_u8(self, register_h);
                    },
                    2 => {  // LD D, H
                        instructions::ld_d_r_u8(self, register_h);
                    },
                    3 => {  // LD E, H
                        instructions::ld_e_r_u8(self, register_h);
                    },
                    4 => {  // LD H, H
                        instructions::ld_h_r_u8(self, register_h);
                    },
                    5 => {  // LD L, H
                        instructions::ld_l_r_u8(self, register_h);
                    },
                    6 => {  // LD (HL), H
                        instructions::ld_m_hl_r_u8(self, register_h);
                    },
                    _ => {  // LD A, H
                        instructions::ld_a_r_u8(self, register_h);
                    },
                }
            },
            5 => {
                let register_l = self.l;
                match bits_5_4_3 {
                    0 => {  // LD B, L
                        instructions::ld_b_r_u8(self, register_l);
                    },
                    1 => {  // LD C, L
                        instructions::ld_c_r_u8(self, register_l);
                    },
                    2 => {  // LD D, L
                        instructions::ld_d_r_u8(self, register_l);
                    },
                    3 => {  // LD E, L
                        instructions::ld_e_r_u8(self, register_l);
                    },
                    4 => {  // LD H, L
                        instructions::ld_h_r_u8(self, register_l);
                    },
                    5 => {  // LD L, L
                        instructions::ld_l_r_u8(self, register_l);
                    },
                    6 => {  // LD (HL), L
                        instructions::ld_m_hl_r_u8(self, register_l);
                    },
                    _ => {  // LD A, L
                        instructions::ld_a_r_u8(self, register_l);
                    },
                }
            },
            6 => {
                match bits_5_4_3 {
                    0 => {  // LD B, (HL)
                        self.b = instructions::ld_r_u8_m_hl(self);
                    },
                    1 => {  // LD C, (HL)
                        self.c = instructions::ld_r_u8_m_hl(self);
                    },
                    2 => {  // LD D, (HL)
                        self.d = instructions::ld_r_u8_m_hl(self);
                    },
                    3 => {  // LD E, (HL)
                        self.e = instructions::ld_r_u8_m_hl(self);
                    },
                    4 => {  // LD H, (HL)
                        self.h = instructions::ld_r_u8_m_hl(self);
                    },
                    5 => {  // LD L, (HL)
                        self.l = instructions::ld_r_u8_m_hl(self);
                    },
                    6 => {  // HALT
                        instructions::halt(self);
                    },
                    _ => {  // LD A, (HL)
                        self.a = instructions::ld_r_u8_m_hl(self);
                    },
                }
            },
            _ => {
                let register_a = self.a;
                match bits_5_4_3 {
                    0 => {  // LD B, A
                        instructions::ld_b_r_u8(self, register_a);
                    },
                    1 => {  // LD C, A
                        instructions::ld_c_r_u8(self, register_a);
                    },
                    2 => {  // LD D, A
                        instructions::ld_d_r_u8(self, register_a);
                    },
                    3 => {  // LD E, A
                        instructions::ld_e_r_u8(self, register_a);
                    },
                    4 => {  // LD H, A
                        instructions::ld_h_r_u8(self, register_a);
                    },
                    5 => {  // LD L, A
                        instructions::ld_l_r_u8(self, register_a);
                    },
                    6 => {  // LD (HL), A
                        instructions::ld_m_hl_r_u8(self, register_a);
                    },
                    _ => {  // LD A, A
                        instructions::ld_a_r_u8(self, register_a);
                    },
                }
            },
        }
    }

    fn execute_not_prefixed_instruction_starting_with_10(&mut self, opcode: u8)
        requires
            decode::field_x(opcode) == 2,
            decode::can_10(old(self)@, decode::field_y(opcode), decode::field_z(opcode)),
        ensures
            final(self)@ == decode::exec_10(old(self)@, decode::field_y(opcode), decode::field_z(opcode)),
    {
        proof {
            bits::lemma_opcode_fields(opcode);
        }
        let bits_5_4_3 = (opcode >> 3) & 0b111;
        let bits_2_1_0 = opcode & 0b111;
        match bits_2_1_0 {
            0 => {
                let register_b = self.b;
                match bits_5_4_3 {
                    0 => {  // ADD A, B
                        instructions::add_a_r_u8(self, register_b);
                    },
                    1 => {  // ADC A, B
                        instructions::adc_a_r_u8(self, register_b);
                    },
                    2 => {  // SUB A, B
                        instructions::sub_a_r_u8(self, register_b);
                    },
                    3 => {  // SBC A, B
                        instructions::sbc_a_r_u8(self, register_b);
                    },
                    4 => {  // AND A, B
                        instructions::and_a_r_u8(self, register_b);
                    },
                    5 => {  // XOR A, B
                        instructions::xor_a_r_u8(self, register_b);
                    },
                    6 => {  // OR A, B
                        instructions::or_a_r_u8(self, register_b);
                    },
                    _ => {  // CP A, B
                        instructions::cp_a_r_u8(self, register_b);
                    },
                }
            },
            1 => {
                let register_c = self.c;
                match bits_5_4_3 {
                    0 => {  // ADD A, C
                        instructions::add_a_r_u8(self, register_c);
                    },
                    1 => {  // ADC A, C
                        instructions::adc_a_r_u8(self, register_c);
                    },
                    2 => {  // SUB A, C
                        instructions::sub_a_r_u8(self, register_c);
                    },
                    3 => {  // SBC A, C
                        instructions::sbc_a_r_u8(self, register_c);
                    },
                    4 => {  // AND A, C
                        instructions::and_a_r_u8(self, register_c);
                    },
                    5 => {  // XOR A, C
                        instructions::xor_a_r_u8(self, register_c);
                    },
                    6 => {  // OR A, C
                        instructions::or_a_r_u8(self, register_c);
                    },
                    _ => {  // CP A, C
                        instructions::cp_a_r_u8(self, register_c);
                    },
                }
            },
            2 => {
                let register_d = self.d;
                match bits_5_4_3 {
                    0 => {  // ADD A, D
                        instructions::add_a_r_u8(self, register_d);
                    },
                    1 => {  // ADC A, D
                        instructions::adc_a_r_u8(self, register_d);
                    },
                    2 => {  // SUB A, D
                        instructions::sub_a_r_u8(self, register_d);
                    },
                    3 => {  // SBC A, D
                        instructions::sbc_a_r_u8(self, register_d);
                    },
                    4 => {  // AND A, D
                        instructions::and_a_r_u8(self, register_d);
                    },
                    5 => {  // XOR A, D
                        instructions::xor_a_r_u8(self, register_d);
                    },
                    6 => {  // OR A, D
                        instructions::or_a_r_u8(self, register_d);
                    },
                    _ => {  // CP A, D
                        instructions::cp_a_r_u8(self, register_d);
                    },
                }
            },
            3 => {
                let register_e = self.e;
                match bits_5_4_3 {
                    0 => {  // ADD A, E
                        instructions::add_a_r_u8(self, register_e);
                    },
                    1 => {  // ADC A, E
                        instructions::adc_a_r_u8(self, register_e);
                    },
                    2 => {  // SUB A, E
                        instructions::sub_a_r_u8(self, register_e);
                    },
                    3 => {  // SBC A, E
                        instructions::sbc_a_r_u8(self, register_e);
                    },
                    4 => {  // AND A, E
                        instructions::and_a_r_u8(self, register_e);
                    },
                    5 => {  // XOR A, E
                        instructions::xor_a_r_u8(self, register_e);
                    },
                    6 => {  // OR A, E
                        instructions::or_a_r_u8(self, register_e);
                    },
                    _ => {  // CP A, E
                        instructions::cp_a_r_u8(self, register_e);
                    },
                }
            },
            4 => {
                let register_h = self.h;
                match bits_5_4_3 {
                    0 => {  // ADD A, H
                        instructions::add_a_r_u8(self, register_h);
                    },
                    1 => {  // ADC A, H
                        instructions::adc_a_r_u8(self, register_h);
                    },
                    2 => {  // SUB A, H
                        instructions::sub_a_r_u8(self, register_h);
                    },
                    3 => {  // SBC A, H
                        instructions::sbc_a_r_u8(self, register_h);
                    },
                    4 => {  // AND A, H
                        instructions::and_a_r_u8(self, register_h);
                    },
                    5 => {  // XOR A, H
                        instructions::xor_a_r_u8(self, register_h);
                    },
                    6 => {  // OR A, H
                        instructions::or_a_r_u8(self, register_h);
                    },
                    _ => {  // CP A, H
                        instructions::cp_a_r_u8(self, register_h);
                    },
                }
            },
            5 => {
                let register_l = self.l;
                match bits_5_4_3 {
                    0 => {  // ADD A, L
                        instructions::add_a_r_u8(self, register_l);
                    },
                    1 => {  // ADC A, L
                        instructions::adc_a_r_u8(self, register_l);
                    },
                    2 => {  // SUB A, L
                        instructions::sub_a_r_u8(self, register_l);
                    },
                    3 => {  // SBC A, L
                        instructions::sbc_a_r_u8(self, register_l);
                    },
                    4 => {  // AND A, L
                        instructions::and_a_r_u8(self, register_l);
                    },
                    5 => {  // XOR A, L
                        instructions::xor_a_r_u8(self, register_l);
                    },
                    6 => {  // OR A, L
                        instructions::or_a_r_u8(self, register_l);
                    },
                    _ => {  // CP A, L
                        instructions::cp_a_r_u8(self, register_l);
                    },
                }
            },
            6 => {
                match bits_5_4_3 {
                    0 => {  // ADD A, (HL)
                        instructions::add_a_m_hl(self);
                    },
                    1 => {  // ADC A, (HL)
                        instructions::adc_a_m_hl(self);
                    },
                    2 => {  // SUB A, (HL)
                        instructions::sub_a_m_hl(self);
                    },
                    3 => {  // SBC A, (HL)
                        instructions::sbc_a_m_hl(self);
                    },
                    4 => {  // AND A, (HL)
                        instructions::and_a_m_hl(self);
                    },
                    5 => {  // XOR A, (HL)
                        instructions::xor_a_m_hl(self);
                    },
                    6 => {  // OR A, (HL)
                        instructions::or_a_m_hl(self);
                    },
                    _ => {  // CP A, (HL)
                        instructions::cp_a_m_hl(self);
                    },
                }
            },
            _ => {
                let register_a = self.a;
                match bits_5_4_3 {
                    0 => {  // ADD A, A
                        instructions::add_a_r_u8(self, register_a);
                    },
                    1 => {  // ADC A, A
                        instructions::adc_a_r_u8(self, register_a);
                    },
                    2 => {  // SUB A, A
                        instructions::sub_a_r_u8(self, register_a);
                    },
                    3 => {  // SBC A, A
                        instructions::sbc_a_r_u8(self, register_a);
                    },
                    4 => {  // AND A, A
                        instructions::and_a_r_u8(self, register_a);
                    },
                    5 => {  // XOR A, A
                        instructions::xor_a_r_u8(self, register_a);
                    },
                    6 => {  // OR A, A
                        instructions::or_a_r_u8(self, register_a);
                    },
                    _ => {  // CP A, A
                        instructions::cp_a_r_u8(self, register_a);
                    },
                }
            },
        }
    }

    fn execute_not_prefixed_instruction_starting_with_11(&mut self, opcode: u8)
        requires
            decode::field_x(opcode) == 3,
            decode::can_11(old(self)@, decode::field_y(opcode), decode::field_z(opcode)),
        ensures
            final(self)@ == decode::exec_11(old(self)@, decode::field_y(opcode), decode::field_z(opcode)),
    {
        proof {
            bits::lemma_opcode_fields(opcode);
        }
        let bits_5_4_3 = (opcode >> 3) & 0b111;
        let bits_2_1_0 = opcode & 0b111;
        match bits_2_1_0 {
            0 => {
                match bits_5_4_3 {
                    0 => {  // RET NZ
                        instructions::ret_nz(self);
                    },
                    1 => {  // RET Z
                        instructions::ret_z(self);
                    },
                    2 => {  // RET NC
                        instructions::ret_nc(self);
                    },
                    3 => {  // RET C
                        instructions::ret_c(self);
                    },
                    4 => {  // LD (0xFF00+n), A
                        instructions::ld_ff00_plus_u8_a(self);
                    },
                    5 => {  // ADD SP, d
                        instructions::add_sp_i8(self);
                    },
                    6 => {  // LD A, (0xFF00+n)
                        instructions::ld_a_ff00_plus_u8(self);
                    },
                    _ => {  // LD HL, SP+d
                        instructions::ld_hl_sp_plus_i8(self);
                    },
                }
            },
            1 => {
                match bits_5_4_3 {
                    0 => {  // POP BC
                        instructions::pop_bc(self);
                    },
                    1 => {  // RET
                        instructions::ret(self);
                    },
                    2 => {  // POP DE
                        instructions::pop_de(self);
                    },
                    3 => {  // RETI
                        instructions::reti(self);
                    },
                    4 => {  // POP HL
                        instructions::pop_hl(self);
                    },
                    5 => {  // JP HL
                        instructions::jp_hl(self);
                    },
                    6 => {  // POP AF
                        instructions::pop_af(self);
                    },
                    _ => {  // LD SP, HL
                        instructions::ld_sp_hl(self);
                    },
                }
            },
            2 => {
                match bits_5_4_3 {
                    0 => {  // JP NZ, nn
                        instructions::jp_nz_u16(self);
                    },
                    1 => {  // JP Z, nn
                        instructions::jp_z_u16(self);
                    },
                    2 => {  // JP NC, nn
                        instructions::jp_nc_u16(self);
                    },
                    3 => {  // JP C, nn
                        instructions::jp_c_u16(self);
                    },
                    4 => {  // LD (0xFF00+C), A
                        instructions::ld_ff00_plus_c_a(self);
                    },
                    5 => {  // LD (nn), A
                        instructions::ld_u16_a(self);
                    },
                    6 => {  // LD A, (0xFF00+C)
                        instructions::ld_a_ff00_plus_c(self);
                    },
                    _ => {  // LD A, (nn)
                        instructions::ld_a_u16(self);
                    },
                }
            },
            3 => {
                match bits_5_4_3 {
                    0 => {  // JP nn
                        instructions::jp_u16(self);
                    },
                    1 => {  // no instruction
                        proof {
                            assert(false);
                        }
                    },
                    2 => {  // no instruction
                        proof {
                            assert(false);
                        }
                    },
                    3 => {  // no instruction
                        proof {
                            assert(false);
                        }
                    },
                    4 => {  // no instruction
                        proof {
                            assert(false);
                        }
                    },
                    5 => {  // no instruction
                        proof {
                            assert(false);
                        }
                    },
                    6 => {  // DI
                        instructions::di(self);
                    },
                    _ => {  // EI
                        instructions::ei(self);
                    },
                }
            },
            4 => {
                match bits_5_4_3 {
                    0 => {  // CALL NZ, nn
                        instructions::call_nz_u16(self);
                    },
                    1 => {  // CALL Z, nn
                        instructions::call_z_u16(self);
                    },
                    2 => {  // CALL NC, nn
                        instructions::call_nc_u16(self);
                    },
                    3 => {  // CALL C, nn
                        instructions::call_c_u16(self);
                    },
                    4 => {  // no instruction
                        proof {
                            assert(false);
                        }
                    },
                    5 => {  // no instruction
                        proof {
                            assert(false);
                        }
                    },
                    6 => {  // no instruction
                        proof {
                            assert(false);
                        }
                    },
                    _ => {  // no instruction
                        proof {
                            assert(false);
                        }
                    },
                }
            },
            5 => {
                match bits_5_4_3 {
                    0 => {  // PUSH BC
                        instructions::push_bc(self);
                    },
                    1 => {  // CALL nn
                        instructions::call_u16(self);
                    },
                    2 => {  // PUSH DE
                        instructions::push_de(self);
                    },
                    3 => {  // no instruction
                        proof {
                            assert(false);
                        }
                    },
                    4 => {  // PUSH HL
                        instructions::push_hl(self);
                    },
                    5 => {  // no instruction
                        proof {
                            assert(false);
                        }
                    },
                    6 => {  // PUSH AF
                        instructions::push_af(self);
                    },
                    _ => {  // no instruction
                        proof {
                            assert(false);
                        }
                    },
                }
            },
            6 => {
                match bits_5_4_3 {
                    0 => {  // ADD A, n
                        instructions::add_a_u8(self);
                    },
                    1 => {  // ADC A, n
                        instructions::adc_a_u8(self);
                    },
                    2 => {  // SUB A, n
                        instructions::sub_a_u8(self);
                    },
                    3 => {  // SBC A, n
                        instructions::sbc_a_u8(self);
                    },
                    4 => {  // AND A, n
                        instructions::and_a_u8(self);
                    },
                    5 => {  // XOR A, n
                        instructions::xor_a_u8(self);
                    },
                    6 => {  // OR A, n
                        instructions::or_a_u8(self);
                    },
                    _ => {  // CP A, n
                        instructions::cp_a_u8(self);
                    },
                }
            },
            _ => {
                match bits_5_4_3 {
                    0 => {  // RST 00h
                        instructions::rst(self, RST::Rst00H.address());
                    },
                    1 => {  // RST 08h
                        instructions::rst(self, RST::Rst08H.address());
                    },
                    2 => {  // RST 10h
                        instructions::rst(self, RST::Rst10H.address());
                    },
                    3 => {  // RST 18h
                        instructions::rst(self, RST::Rst18H.address());
                    },
                    4 => {  // RST 20h
                        instructions::rst(self, RST::Rst20H.address());
                    },
                    5 => {  // RST 28h
                        instructions::rst(self, RST::Rst28H.address());
                    },
                    6 => {  // RST 30h
                        instructions::rst(self, RST::Rst30H.address());
                    },
                    _ => {  // RST 38h
                        instructions::rst(self, RST::Rst38H.address());
                    },
                }
            },
        }
    }

    fn execute_prefixed_instruction_starting_with_00(&mut self, opcode: u8)
        requires
            decode::field_x(opcode) == 0,
            decode::can_cb_modify(old(self)@, decode::field_y(opcode), decode::field_z(opcode)),
        ensures
            final(self)@ == decode::exec_cb_00(old(self)@, decode::field_y(opcode), decode::field_z(opcode)),
    {
        proof {
            bits::lemma_opcode_fields(opcode);
        }
        let bits_5_4_3 = (opcode >> 3) & 0b111;
        let bits_2_1_0 = opcode & 0b111;
        match bits_2_1_0 {
            0 => {
                let register_b = self.b;
                match bits_5_4_3 {
                    0 => {  // RLC B
                        self.b = instructions::rlc(self, register_b);
                    },
                    1 => {  // RRC B
                        self.b = instructions::rrc(self, register_b);
                    },
                    2 => {  // RL B
                        self.b = instructions::rl(self, register_b);
                    },
                    3 => {  // RR B
                        self.b = instructions::rr(self, register_b);
                    },
                    4 => {  // SLA B
                        self.b = instructions::sla(self, register_b);
                    },
                    5 => {  // SRA B
                        self.b = instructions::sra(self, register_b);
                    },
                    6 => {  // SWAP B
                        self.b = instructions::swap(self, register_b);
                    },
                    _ => {  // SRL B
                        self.b = instructions::srl(self, register_b);
                    },
                }
            },
            1 => {
                let register_c = self.c;
                match bits_5_4_3 {
                    0 => {  // RLC C
                        self.c = instructions::rlc(self, register_c);
                    },
                    1 => {  // RRC C
                        self.c = instructions::rrc(self, register_c);
                    },
                    2 => {  // RL C
                        self.c = instructions::rl(self, register_c);
                    },
                    3 => {  // RR C
                        self.c = instructions::rr(self, register_c);
                    },
                    4 => {  // SLA C
                        self.c = instructions::sla(self, register_c);
                    },
                    5 => {  // SRA C
                        self.c = instructions::sra(self, register_c);
                    },
                    6 => {  // SWAP C
                        self.c = instructions::swap(self, register_c);
                    },
                    _ => {  // SRL C
                        self.c = instructions::srl(self, register_c);
                    },
                }
            },
            2 => {
                let register_d = self.d;
                match bits_5_4_3 {
                    0 => {  // RLC D
                        self.d = instructions::rlc(self, register_d);
                    },
                    1 => {  // RRC D
                        self.d = instructions::rrc(self, register_d);
                    },
                    2 => {  // RL D
                        self.d = instructions::rl(self, register_d);
                    },
                    3 => {  // RR D
                        self.d = instructions::rr(self, register_d);
                    },
                    4 => {  // SLA D
                        self.d = instructions::sla(self, register_d);
                    },
                    5 => {  // SRA D
                        self.d = instructions::sra(self, register_d);
                    },
                    6 => {  // SWAP D
                        self.d = instructions::swap(self, register_d);
                    },
                    _ => {  // SRL D
                        self.d = instructions::srl(self, register_d);
                    },
                }
            },
            3 => {
                let register_e = self.e;
                match bits_5_4_3 {
                    0 => {  // RLC E
                        self.e = instructions::rlc(self, register_e);
                    },
                    1 => {  // RRC E
                        self.e = instructions::rrc(self, register_e);
                    },
                    2 => {  // RL E
                        self.e = instructions::rl(self, register_e);
                    },
                    3 => {  // RR E
                        self.e = instructions::rr(self, register_e);
                    },
                    4 => {  // SLA E
                        self.e = instructions::sla(self, register_e);
                    },
                    5 => {  // SRA E
                        self.e = instructions::sra(self, register_e);
                    },
                    6 => {  // SWAP E
                        self.e = instructions::swap(self, register_e);
                    },
                    _ => {  // SRL E
                        self.e = instructions::srl(self, register_e);
                    },
                }
            },
            4 => {
                let register_h = self.h;
                match bits_5_4_3 {
                    0 => {  // RLC H
                        self.h = instructions::rlc(self, register_h);
                    },
                    1 => {  // RRC H
                        self.h = instructions::rrc(self, register_h);
                    },
                    2 => {  // RL H
                        self.h = instructions::rl(self, register_h);
                    },
                    3 => {  // RR H
                        self.h = instructions::rr(self, register_h);
                    },
                    4 => {  // SLA H
                        self.h = instructions::sla(self, register_h);
                    },
                    5 => {  // SRA H
                        self.h = instructions::sra(self, register_h);
                    },
                    6 => {  // SWAP H
                        self.h = instructions::swap(self, register_h);
                    },
                    _ => {  // SRL H
                        self.h = instructions::srl(self, register_h);
                    },
                }
            },
            5 => {
                let register_l = self.l;
                match bits_5_4_3 {
                    0 => {  // RLC L
                        self.l = instructions::rlc(self, register_l);
                    },
                    1 => {  // RRC L
                        self.l = instructions::rrc(self, register_l);
                    },
                    2 => {  // RL L
                        self.l = instructions::rl(self, register_l);
                    },
                    3 => {  // RR L
                        self.l = instructions::rr(self, register_l);
                    },
                    4 => {  // SLA L
                        self.l = instructions::sla(self, register_l);
                    },
                    5 => {  // SRA L
                        self.l = instructions::sra(self, register_l);
                    },
                    6 => {  // SWAP L
                        self.l = instructions::swap(self, register_l);
                    },
                    _ => {  // SRL L
                        self.l = instructions::srl(self, register_l);
                    },
                }
            },
            6 => {
                match bits_5_4_3 {
                    0 => {  // RLC (HL)
                        instructions::rlc_m_hl(self);
                    },
                    1 => {  // RRC (HL)
                        instructions::rrc_m_hl(self);
                    },
                    2 => {  // RL (HL)
                        instructions::rl_m_hl(self);
                    },
                    3 => {  // RR (HL)
                        instructions::rr_m_hl(self);
                    },
                    4 => {  // SLA (HL)
                        instructions::sla_m_hl(self);
                    },
                    5 => {  // SRA (HL)
                        instructions::sra_m_hl(self);
                    },
                    6 => {  // SWAP (HL)
                        instructions::swap_m_hl(self);
                    },
                    _ => {  // SRL (HL)
                        instructions::srl_m_hl(self);
                    },
                }
            },
            _ => {
                let register_a = self.a;
                match bits_5_4_3 {
                    0 => {  // RLC A
                        self.a = instructions::rlc(self, register_a);
                    },
                    1 => {  // RRC A
                        self.a = instructions::rrc(self, register_a);
                    },
                    2 => {  // RL A
                        self.a = instructions::rl(self, register_a);
                    },
                    3 => {  // RR A
                        self.a = instructions::rr(self, register_a);
                    },
                    4 => {  // SLA A
                        self.a = instructions::sla(self, register_a);
                    },
                    5 => {  // SRA A
                        self.a = instructions::sra(self, register_a);
                    },
                    6 => {  // SWAP A
                        self.a = instructions::swap(self, register_a);
                    },
                    _ => {  // SRL A
                        self.a = instructions::srl(self, register_a);
                    },
                }
            },
        }
    }

    fn execute_prefixed_instruction_starting_with_01(&mut self, opcode: u8)
        requires
            decode::field_x(opcode) == 1,
            decode::can_cb_read(old(self)@, decode::field_y(opcode), decode::field_z(opcode)),
        ensures
            final(self)@ == decode::exec_cb_01(old(self)@, decode::field_y(opcode), decode::field_z(opcode)),
    {
        proof {
            bits::lemma_opcode_fields(opcode);
        }
        let bits_5_4_3 = (opcode >> 3) & 0b111;
        let bits_2_1_0 = opcode & 0b111;
        match bits_2_1_0 {
            0 => {
                let register_b = self.b;
                match bits_5_4_3 {
                    0 => {  // BIT 0, B
                        instructions::bit_n_r_u8(self, 0, register_b);
                    },
                    1 => {  // BIT 1, B
                        instructions::bit_n_r_u8(self, 1, register_b);
                    },
                    2 => {  // BIT 2, B
                        instructions::bit_n_r_u8(self, 2, register_b);
                    },
                    3 => {  // BIT 3, B
                        instructions::bit_n_r_u8(self, 3, register_b);
                    },
                    4 => {  // BIT 4, B
                        instructions::bit_n_r_u8(self, 4, register_b);
                    },
                    5 => {  // BIT 5, B
                        instructions::bit_n_r_u8(self, 5, register_b);
                    },
                    6 => {  // BIT 6, B
                        instructions::bit_n_r_u8(self, 6, register_b);
                    },
                    _ => {  // BIT 7, B
                        instructions::bit_n_r_u8(self, 7, register_b);
                    },
                }
            },
            1 => {
                let register_c = self.c;
                match bits_5_4_3 {
                    0 => {  // BIT 0, C
                        instructions::bit_n_r_u8(self, 0, register_c);
                    },
                    1 => {  // BIT 1, C
                        instructions::bit_n_r_u8(self, 1, register_c);
                    },
                    2 => {  // BIT 2, C
                        instructions::bit_n_r_u8(self, 2, register_c);
                    },
                    3 => {  // BIT 3, C
                        instructions::bit_n_r_u8(self, 3, register_c);
                    },
                    4 => {  // BIT 4, C
                        instructions::bit_n_r_u8(self, 4, register_c);
                    },
                    5 => {  // BIT 5, C
                        instructions::bit_n_r_u8(self, 5, register_c);
                    },
                    6 => {  // BIT 6, C
                        instructions::bit_n_r_u8(self, 6, register_c);
                    },
                    _ => {  // BIT 7, C
                        instructions::bit_n_r_u8(self, 7, register_c);
                    },
                }
            },
            2 => {
                let register_d = self.d;
                match bits_5_4_3 {
                    0 => {  // BIT 0, D
                        instructions::bit_n_r_u8(self, 0, register_d);
                    },
                    1 => {  // BIT 1, D
                        instructions::bit_n_r_u8(self, 1, register_d);
                    },
                    2 => {  // BIT 2, D
                        instructions::bit_n_r_u8(self, 2, register_d);
                    },
                    3 => {  // BIT 3, D
                        instructions::bit_n_r_u8(self, 3, register_d);
                    },
                    4 => {  // BIT 4, D
                        instructions::bit_n_r_u8(self, 4, register_d);
                    },
                    5 => {  // BIT 5, D
                        instructions::bit_n_r_u8(self, 5, register_d);
                    },
                    6 => {  // BIT 6, D
                        instructions::bit_n_r_u8(self, 6, register_d);
                    },
                    _ => {  // BIT 7, D
                        instructions::bit_n_r_u8(self, 7, register_d);
                    },
                }
            },
            3 => {
                let register_e = self.e;
                match bits_5_4_3 {
                    0 => {  // BIT 0, E
                        instructions::bit_n_r_u8(self, 0, register_e);
                    },
                    1 => {  // BIT 1, E
                        instructions::bit_n_r_u8(self, 1, register_e);
                    },
                    2 => {  // BIT 2, E
                        instructions::bit_n_r_u8(self, 2, register_e);
                    },
                    3 => {  // BIT 3, E
                        instructions::bit_n_r_u8(self, 3, register_e);
                    },
                    4 => {  // BIT 4, E
                        instructions::bit_n_r_u8(self, 4, register_e);
                    },
                    5 => {  // BIT 5, E
                        instructions::bit_n_r_u8(self, 5, register_e);
                    },
                    6 => {  // BIT 6, E
                        instructions::bit_n_r_u8(self, 6, register_e);
                    },
                    _ => {  // BIT 7, E
                        instructions::bit_n_r_u8(self, 7, register_e);
                    },
                }
            },
            4 => {
                let register_h = self.h;
                match bits_5_4_3 {
                    0 => {  // BIT 0, H
                        instructions::bit_n_r_u8(self, 0, register_h);
                    },
                    1 => {  // BIT 1, H
                        instructions::bit_n_r_u8(self, 1, register_h);
                    },
                    2 => {  // BIT 2, H
                        instructions::bit_n_r_u8(self, 2, register_h);
                    },
                    3 => {  // BIT 3, H
                        instructions::bit_n_r_u8(self, 3, register_h);
                    },
                    4 => {  // BIT 4, H
                        instructions::bit_n_r_u8(self, 4, register_h);
                    },
                    5 => {  // BIT 5, H
                        instructions::bit_n_r_u8(self, 5, register_h);
                    },
                    6 => {  // BIT 6, H
                        instructions::bit_n_r_u8(self, 6, register_h);
                    },
                    _ => {  // BIT 7, H
                        instructions::bit_n_r_u8(self, 7, register_h);
                    },
                }
            },
            5 => {
                let register_l = self.l;
                match bits_5_4_3 {
                    0 => {  // BIT 0, L
                        instructions::bit_n_r_u8(self, 0, register_l);
                    },
                    1 => {  // BIT 1, L
                        instructions::bit_n_r_u8(self, 1, register_l);
                    },
                    2 => {  // BIT 2, L
                        instructions::bit_n_r_u8(self, 2, register_l);
                    },
                    3 => {  // BIT 3, L
                        instructions::bit_n_r_u8(self, 3, register_l);
                    },
                    4 => {  // BIT 4, L
                        instructions::bit_n_r_u8(self, 4, register_l);
                    },
                    5 => {  // BIT 5, L
                        instructions::bit_n_r_u8(self, 5, register_l);
                    },
                    6 => {  // BIT 6, L
                        instructions::bit_n_r_u8(self, 6, register_l);
                    },
                    _ => {  // BIT 7, L
                        instructions::bit_n_r_u8(self, 7, register_l);
                    },
                }
            },
            6 => {
                match bits_5_4_3 {
                    0 => {  // BIT 0, (HL)
                        instructions::bit_n_m_hl(self, 0);
                    },
                    1 => {  // BIT 1, (HL)
                        instructions::bit_n_m_hl(self, 1);
                    },
                    2 => {  // BIT 2, (HL)
                        instructions::bit_n_m_hl(self, 2);
                    },
                    3 => {  // BIT 3, (HL)
                        instructions::bit_n_m_hl(self, 3);
                    },
                    4 => {  // BIT 4, (HL)
                        instructions::bit_n_m_hl(self, 4);
                    },
                    5 => {  // BIT 5, (HL)
                        instructions::bit_n_m_hl(self, 5);
                    },
                    6 => {  // BIT 6, (HL)
                        instructions::bit_n_m_hl(self, 6);
                    },
                    _ => {  // BIT 7, (HL)
                        instructions::bit_n_m_hl(self, 7);
                    },
                }
            },
            _ => {
                let register_a = self.a;
                match bits_5_4_3 {
                    0 => {  // BIT 0, A
                        instructions::bit_n_r_u8(self, 0, register_a);
                    },
                    1 => {  // BIT 1, A
                        instructions::bit_n_r_u8(self, 1, register_a);
                    },
                    2 => {  // BIT 2, A
                        instructions::bit_n_r_u8(self, 2, register_a);
                    },
                    3 => {  // BIT 3, A
                        instructions::bit_n_r_u8(self, 3, register_a);
                    },
                    4 => {  // BIT 4, A
                        instructions::bit_n_r_u8(self, 4, register_a);
                    },
                    5 => {  // BIT 5, A
                        instructions::bit_n_r_u8(self, 5, register_a);
                    },
                    6 => {  // BIT 6, A
                        instructions::bit_n_r_u8(self, 6, register_a);
                    },
                    _ => {  // BIT 7, A
                        instructions::bit_n_r_u8(self, 7, register_a);
                    },
                }
            },
        }
    }

    fn execute_prefixed_instruction_starting_with_10(&mut self, opcode: u8)
        requires
            decode::field_x(opcode) == 2,
            decode::can_cb_modify(old(self)@, decode::field_y(opcode), decode::field_z(opcode)),
        ensures
            final(self)@ == decode::exec_cb_10(old(self)@, decode::field_y(opcode), decode::field_z(opcode)),
    {
        proof {
            bits::lemma_opcode_fields(opcode);
        }
        let bits_5_4_3 = (opcode >> 3) & 0b111;
        let bits_2_1_0 = opcode & 0b111;
        match bits_2_1_0 {
            0 => {
                let register_b = self.b;
                match bits_5_4_3 {
                    0 => {  // RES 0, B
                        self.b = instructions::res_n_r_u8(self, 0, register_b);
                    },
                    1 => {  // RES 1, B
                        self.b = instructions::res_n_r_u8(self, 1, register_b);
                    },
                    2 => {  // RES 2, B
                        self.b = instructions::res_n_r_u8(self, 2, register_b);
                    },
                    3 => {  // RES 3, B
                        self.b = instructions::res_n_r_u8(self, 3, register_b);
                    },
                    4 => {  // RES 4, B
                        self.b = instructions::res_n_r_u8(self, 4, register_b);
                    },
                    5 => {  // RES 5, B
                        self.b = instructions::res_n_r_u8(self, 5, register_b);
                    },
                    6 => {  // RES 6, B
                        self.b = instructions::res_n_r_u8(self, 6, register_b);
                    },
                    _ => {  // RES 7, B
                        self.b = instructions::res_n_r_u8(self, 7, register_b);
                    },
                }
            },
            1 => {
                let register_c = self.c;
                match bits_5_4_3 {
                    0 => {  // RES 0, C
                        self.c = instructions::res_n_r_u8(self, 0, register_c);
                    },
                    1 => {  // RES 1, C
                        self.c = instructions::res_n_r_u8(self, 1, register_c);
                    },
                    2 => {  // RES 2, C
                        self.c = instructions::res_n_r_u8(self, 2, register_c);
                    },
                    3 => {  // RES 3, C
                        self.c = instructions::res_n_r_u8(self, 3, register_c);
                    },
                    4 => {  // RES 4, C
                        self.c = instructions::res_n_r_u8(self, 4, register_c);
                    },
                    5 => {  // RES 5, C
                        self.c = instructions::res_n_r_u8(self, 5, register_c);
                    },
                    6 => {  // RES 6, C
                        self.c = instructions::res_n_r_u8(self, 6, register_c);
                    },
                    _ => {  // RES 7, C
                        self.c = instructions::res_n_r_u8(self, 7, register_c);
                    },
                }
            },
            2 => {
                let register_d = self.d;
                match bits_5_4_3 {
                    0 => {  // RES 0, D
                        self.d = instructions::res_n_r_u8(self, 0, register_d);
                    },
                    1 => {  // RES 1, D
                        self.d = instructions::res_n_r_u8(self, 1, register_d);
                    },
                    2 => {  // RES 2, D
                        self.d = instructions::res_n_r_u8(self, 2, register_d);
                    },
                    3 => {  // RES 3, D
                        self.d = instructions::res_n_r_u8(self, 3, register_d);
                    },
                    4 => {  // RES 4, D
                        self.d = instructions::res_n_r_u8(self, 4, register_d);
                    },
                    5 => {  // RES 5, D
                        self.d = instructions::res_n_r_u8(self, 5, register_d);
                    },
                    6 => {  // RES 6, D
                        self.d = instructions::res_n_r_u8(self, 6, register_d);
                    },
                    _ => {  // RES 7, D
                        self.d = instructions::res_n_r_u8(self, 7, register_d);
                    },
                }
            },
            3 => {
                let register_e = self.e;
                match bits_5_4_3 {
                    0 => {  // RES 0, E
                        self.e = instructions::res_n_r_u8(self, 0, register_e);
                    },
                    1 => {  // RES 1, E
                        self.e = instructions::res_n_r_u8(self, 1, register_e);
                    },
                    2 => {  // RES 2, E
                        self.e = instructions::res_n_r_u8(self, 2, register_e);
                    },
                    3 => {  // RES 3, E
                        self.e = instructions::res_n_r_u8(self, 3, register_e);
                    },
                    4 => {  // RES 4, E
                        self.e = instructions::res_n_r_u8(self, 4, register_e);
                    },
                    5 => {  // RES 5, E
                        self.e = instructions::res_n_r_u8(self, 5, register_e);
                    },
                    6 => {  // RES 6, E
                        self.e = instructions::res_n_r_u8(self, 6, register_e);
                    },
                    _ => {  // RES 7, E
                        self.e = instructions::res_n_r_u8(self, 7, register_e);
                    },
                }
            },
            4 => {
                let register_h = self.h;
                match bits_5_4_3 {
                    0 => {  // RES 0, H
                        self.h = instructions::res_n_r_u8(self, 0, register_h);
                    },
                    1 => {  // RES 1, H
                        self.h = instructions::res_n_r_u8(self, 1, register_h);
                    },
                    2 => {  // RES 2, H
                        self.h = instructions::res_n_r_u8(self, 2, register_h);
                    },
                    3 => {  // RES 3, H
                        self.h = instructions::res_n_r_u8(self, 3, register_h);
                    },
                    4 => {  // RES 4, H
                        self.h = instructions::res_n_r_u8(self, 4, register_h);
                    },
                    5 => {  // RES 5, H
                        self.h = instructions::res_n_r_u8(self, 5, register_h);
                    },
                    6 => {  // RES 6, H
                        self.h = instructions::res_n_r_u8(self, 6, register_h);
                    },
                    _ => {  // RES 7, H
                        self.h = instructions::res_n_r_u8(self, 7, register_h);
                    },
                }
            },
            5 => {
                let register_l = self.l;
                match bits_5_4_3 {
                    0 => {  // RES 0, L
                        self.l = instructions::res_n_r_u8(self, 0, register_l);
                    },
                    1 => {  // RES 1, L
                        self.l = instructions::res_n_r_u8(self, 1, register_l);
                    },
                    2 => {  // RES 2, L
                        self.l = instructions::res_n_r_u8(self, 2, register_l);
                    },
                    3 => {  // RES 3, L
                        self.l = instructions::res_n_r_u8(self, 3, register_l);
                    },
                    4 => {  // RES 4, L
                        self.l = instructions::res_n_r_u8(self, 4, register_l);
                    },
                    5 => {  // RES 5, L
                        self.l = instructions::res_n_r_u8(self, 5, register_l);
                    },
                    6 => {  // RES 6, L
                        self.l = instructions::res_n_r_u8(self, 6, register_l);
                    },
                    _ => {  // RES 7, L
                        self.l = instructions::res_n_r_u8(self, 7, register_l);
                    },
                }
            },
            6 => {
                match bits_5_4_3 {
                    0 => {  // RES 0, (HL)
                        instructions::res_n_m_hl(self, 0);
                    },
                    1 => {  // RES 1, (HL)
                        instructions::res_n_m_hl(self, 1);
                    },
                    2 => {  // RES 2, (HL)
                        instructions::res_n_m_hl(self, 2);
                    },
                    3 => {  // RES 3, (HL)
                        instructions::res_n_m_hl(self, 3);
                    },
                    4 => {  // RES 4, (HL)
                        instructions::res_n_m_hl(self, 4);
                    },
                    5 => {  // RES 5, (HL)
                        instructions::res_n_m_hl(self, 5);
                    },
                    6 => {  // RES 6, (HL)
                        instructions::res_n_m_hl(self, 6);
                    },
                    _ => {  // RES 7, (HL)
                        instructions::res_n_m_hl(self, 7);
                    },
                }
            },
            _ => {
                let register_a = self.a;
                match bits_5_4_3 {
                    0 => {  // RES 0, A
                        self.a = instructions::res_n_r_u8(self, 0, register_a);
                    },
                    1 => {  // RES 1, A
                        self.a = instructions::res_n_r_u8(self, 1, register_a);
                    },
                    2 => {  // RES 2, A
                        self.a = instructions::res_n_r_u8(self, 2, register_a);
                    },
                    3 => {  // RES 3, A
                        self.a = instructions::res_n_r_u8(self, 3, register_a);
                    },
                    4 => {  // RES 4, A
                        self.a = instructions::res_n_r_u8(self, 4, register_a);
                    },
                    5 => {  // RES 5, A
                        self.a = instructions::res_n_r_u8(self, 5, register_a);
                    },
                    6 => {  // RES 6, A
                        self.a = instructions::res_n_r_u8(self, 6, register_a);
                    },
                    _ => {  // RES 7, A
                        self.a = instructions::res_n_r_u8(self, 7, register_a);
                    },
                }
            },
        }
    }

    fn execute_prefixed_instruction_starting_with_11(&mut self, opcode: u8)
        requires
            decode::field_x(opcode) == 3,
            decode::can_cb_modify(old(self)@, decode::field_y(opcode), decode::field_z(opcode)),
        ensures
            final(self)@ == decode::exec_cb_11(old(self)@, decode::field_y(opcode), decode::field_z(opcode)),
    {
        proof {
            bits::lemma_opcode_fields(opcode);
        }
        let bits_5_4_3 = (opcode >> 3) & 0b111;
        let bits_2_1_0 = opcode & 0b111;
        match bits_2_1_0 {
            0 => {
                let register_b = self.b;
                match bits_5_4_3 {
                    0 => {  // SET 0, B
                        self.b = instructions::set_n_r_u8(self, 0, register_b);
                    },
                    1 => {  // SET 1, B
                        self.b = instructions::set_n_r_u8(self, 1, register_b);
                    },
                    2 => {  // SET 2, B
                        self.b = instructions::set_n_r_u8(self, 2, register_b);
                    },
                    3 => {  // SET 3, B
                        self.b = instructions::set_n_r_u8(self, 3, register_b);
                    },
                    4 => {  // SET 4, B
                        self.b = instructions::set_n_r_u8(self, 4, register_b);
                    },
                    5 => {  // SET 5, B
                        self.b = instructions::set_n_r_u8(self, 5, register_b);
                    },
                    6 => {  // SET 6, B
                        self.b = instructions::set_n_r_u8(self, 6, register_b);
                    },
                    _ => {  // SET 7, B
                        self.b = instructions::set_n_r_u8(self, 7, register_b);
                    },
                }
            },
            1 => {
                let register_c = self.c;
                match bits_5_4_3 {
                    0 => {  // SET 0, C
                        self.c = instructions::set_n_r_u8(self, 0, register_c);
                    },
                    1 => {  // SET 1, C
                        self.c = instructions::set_n_r_u8(self, 1, register_c);
                    },
                    2 => {  // SET 2, C
                        self.c = instructions::set_n_r_u8(self, 2, register_c);
                    },
                    3 => {  // SET 3, C
                        self.c = instructions::set_n_r_u8(self, 3, register_c);
                    },
                    4 => {  // SET 4, C
                        self.c = instructions::set_n_r_u8(self, 4, register_c);
                    },
                    5 => {  // SET 5, C
                        self.c = instructions::set_n_r_u8(self, 5, register_c);
                    },
                    6 => {  // SET 6, C
                        self.c = instructions::set_n_r_u8(self, 6, register_c);
                    },
                    _ => {  // SET 7, C
                        self.c = instructions::set_n_r_u8(self, 7, register_c);
                    },
                }
            },
            2 => {
                let register_d = self.d;
                match bits_5_4_3 {
                    0 => {  // SET 0, D
                        self.d = instructions::set_n_r_u8(self, 0, register_d);
                    },
                    1 => {  // SET 1, D
                        self.d = instructions::set_n_r_u8(self, 1, register_d);
                    },
                    2 => {  // SET 2, D
                        self.d = instructions::set_n_r_u8(self, 2, register_d);
                    },
                    3 => {  // SET 3, D
                        self.d = instructions::set_n_r_u8(self, 3, register_d);
                    },
                    4 => {  // SET 4, D
                        self.d = instructions::set_n_r_u8(self, 4, register_d);
                    },
                    5 => {  // SET 5, D
                        self.d = instructions::set_n_r_u8(self, 5, register_d);
                    },
                    6 => {  // SET 6, D
                        self.d = instructions::set_n_r_u8(self, 6, register_d);
                    },
                    _ => {  // SET 7, D
                        self.d = instructions::set_n_r_u8(self, 7, register_d);
                    },
                }
            },
            3 => {
                let register_e = self.e;
                match bits_5_4_3 {
                    0 => {  // SET 0, E
                        self.e = instructions::set_n_r_u8(self, 0, register_e);
                    },
                    1 => {  // SET 1, E
                        self.e = instructions::set_n_r_u8(self, 1, register_e);
                    },
                    2 => {  // SET 2, E
                        self.e = instructions::set_n_r_u8(self, 2, register_e);
                    },
                    3 => {  // SET 3, E
                        self.e = instructions::set_n_r_u8(self, 3, register_e);
                    },
                    4 => {  // SET 4, E
                        self.e = instructions::set_n_r_u8(self, 4, register_e);
                    },
                    5 => {  // SET 5, E
                        self.e = instructions::set_n_r_u8(self, 5, register_e);
                    },
                    6 => {  // SET 6, E
                        self.e = instructions::set_n_r_u8(self, 6, register_e);
                    },
                    _ => {  // SET 7, E
                        self.e = instructions::set_n_r_u8(self, 7, register_e);
                    },
                }
            },
            4 => {
                let register_h = self.h;
                match bits_5_4_3 {
                    0 => {  // SET 0, H
                        self.h = instructions::set_n_r_u8(self, 0, register_h);
                    },
                    1 => {  // SET 1, H
                        self.h = instructions::set_n_r_u8(self, 1, register_h);
                    },
                    2 => {  // SET 2, H
                        self.h = instructions::set_n_r_u8(self, 2, register_h);
                    },
                    3 => {  // SET 3, H
                        self.h = instructions::set_n_r_u8(self, 3, register_h);
                    },
                    4 => {  // SET 4, H
                        self.h = instructions::set_n_r_u8(self, 4, register_h);
                    },
                    5 => {  // SET 5, H
                        self.h = instructions::set_n_r_u8(self, 5, register_h);
                    },
                    6 => {  // SET 6, H
                        self.h = instructions::set_n_r_u8(self, 6, register_h);
                    },
                    _ => {  // SET 7, H
                        self.h = instructions::set_n_r_u8(self, 7, register_h);
                    },
                }
            },
            5 => {
                let register_l = self.l;
                match bits_5_4_3 {
                    0 => {  // SET 0, L
                        self.l = instructions::set_n_r_u8(self, 0, register_l);
                    },
                    1 => {  // SET 1, L
                        self.l = instructions::set_n_r_u8(self, 1, register_l);
                    },
                    2 => {  // SET 2, L
                        self.l = instructions::set_n_r_u8(self, 2, register_l);
                    },
                    3 => {  // SET 3, L
                        self.l = instructions::set_n_r_u8(self, 3, register_l);
                    },
                    4 => {  // SET 4, L
                        self.l = instructions::set_n_r_u8(self, 4, register_l);
                    },
                    5 => {  // SET 5, L
                        self.l = instructions::set_n_r_u8(self, 5, register_l);
                    },
                    6 => {  // SET 6, L
                        self.l = instructions::set_n_r_u8(self, 6, register_l);
                    },
                    _ => {  // SET 7, L
                        self.l = instructions::set_n_r_u8(self, 7, register_l);
                    },
                }
            },
            6 => {
                match bits_5_4_3 {
                    0 => {  // SET 0, (HL)
                        instructions::set_n_m_hl(self, 0);
                    },
                    1 => {  // SET 1, (HL)
                        instructions::set_n_m_hl(self, 1);
                    },
                    2 => {  // SET 2, (HL)
                        instructions::set_n_m_hl(self, 2);
                    },
                    3 => {  // SET 3, (HL)
                        instructions::set_n_m_hl(self, 3);
                    },
                    4 => {  // SET 4, (HL)
                        instructions::set_n_m_hl(self, 4);
                    },
                    5 => {  // SET 5, (HL)
                        instructions::set_n_m_hl(self, 5);
                    },
                    6 => {  // SET 6, (HL)
                        instructions::set_n_m_hl(self, 6);
                    },
                    _ => {  // SET 7, (HL)
                        instructions::set_n_m_hl(self, 7);
                    },
                }
            },
            _ => {
                let register_a = self.a;
                match bits_5_4_3 {
                    0 => {  // SET 0, A
                        self.a = instructions::set_n_r_u8(self, 0, register_a);
                    },
                    1 => {  // SET 1, A
                        self.a = instructions::set_n_r_u8(self, 1, register_a);
                    },
                    2 => {  // SET 2, A
                        self.a = instructions::set_n_r_u8(self, 2, register_a);
                    },
                    3 => {  // SET 3, A
                        self.a = instructions::set_n_r_u8(self, 3, register_a);
                    },
                    4 => {  // SET 4, A
                        self.a = instructions::set_n_r_u8(self, 4, register_a);
                    },
                    5 => {  // SET 5, A
                        self.a = instructions::set_n_r_u8(self, 5, register_a);
                    },
                    6 => {  // SET 6, A
                        self.a = instructions::set_n_r_u8(self, 6, register_a);
                    },
                    _ => {  // SET 7, A
                        self.a = instructions::set_n_r_u8(self, 7, register_a);
                    },
                }
            },
        }
    }
}

} // verus!
