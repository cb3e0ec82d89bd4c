//! The boot program that is mapped over 0x0000 - 0x00FF until the program
//! writes 1 to 0xFF50.
use vstd::prelude::*;
use crate::cpu::decode;
use crate::cpu::isa::{self, CpuState};
use crate::emulator;
use crate::mmu;

verus! {

pub struct BOOTROM {
    boot_enabled: bool,
    boot_rom: [u8; 256],
}

/// The 256 bytes of the boot program: it sets the stack pointer to 0xFFFE,
/// jumps to 0x00FC, and there writes 1 to 0xFF50 to unmap itself, landing
/// on the cartridge's entry point at 0x0100.
pub open spec fn boot_program() -> Seq<u8> {
    Seq::new(
        256,
        |i: int|
            if i == 0x00 {
                0x31u8
            } else if i == 0x01 {
                0xFEu8
            } else if i == 0x02 {
                0xFFu8
            } else if i == 0x03 {
                0xC3u8
            } else if i == 0x04 {
                0xFCu8
            } else if i == 0xFC {
                0x3Eu8
            } else if i == 0xFD {
                0x01u8
            } else if i == 0xFE {
                0xE0u8
            } else if i == 0xFF {
                0x50u8
            } else {
                0x00u8
            },
    )
}

impl BOOTROM {
    /// The bytes that the boot ROM holds.
    pub closed spec fn contents(&self) -> Seq<u8> {
        self.boot_rom@
    }

    /// Whether the boot ROM is mapped over the start of the cartridge ROM.
    pub closed spec fn enabled(&self) -> bool {
        self.boot_enabled
    }

    /// The boot ROM holds 256 bytes.
    pub proof fn lemma_size(&self)
        ensures
            self.contents().len() == 256,
    {
    }

    pub fn new() -> (rom: Self)
        ensures
            rom.enabled(),
            rom.contents() == boot_program(),
    {
        let mut bootrom_contents: [u8; 256] = [0x00;256];
        bootrom_contents[0x00] = 0x31;
        bootrom_contents[0x01] = 0xFE;
        bootrom_contents[0x02] = 0xFF;
        bootrom_contents[0x03] = 0xC3;
        bootrom_contents[0x04] = 0xFC;
        bootrom_contents[0x05] = 0x00;
        bootrom_contents[0xFC] = 0x3E;
        bootrom_contents[0xFD] = 0x01;
        bootrom_contents[0xFE] = 0xE0;
        bootrom_contents[0xFF] = 0x50;
        let rom = BOOTROM { boot_enabled: true, boot_rom: bootrom_contents };
        assert(rom.contents() =~= boot_program());
        rom
    }

    pub fn read_byte(&self, address: u16) -> (r: u8)
        requires
            address < 256,
        ensures
            r == self.contents()[address as int],
    {
        self.boot_rom[address as usize]
    }

    /// Whether the boot ROM is mapped.
    pub fn is_enabled(&self) -> (enabled: bool)
        ensures
            enabled == self.enabled(),
    {
        self.boot_enabled
    }

    pub fn disable(&mut self)
        ensures
            !final(self).enabled(),
            final(self).contents() == old(self).contents(),
    {
        self.boot_enabled = false;
    }
}

/// Whether `s` runs the boot program: interrupts off, not halted, and the
/// boot ROM mapped.
pub open spec fn in_boot(s: CpuState) -> bool {
    &&& !s.ime
    &&& !s.halted
    &&& s.mem.boot_enabled
    &&& s.mem.boot == boot_program()
}

/// A step of a CPU that is not halted and has interrupts off runs the
/// instruction at `pc`.
proof fn lemma_plain_tick(s: CpuState, opcode: u8)
    requires
        !s.ime,
        !s.halted,
        s.readable(s.pc as int),
        s.read(s.pc as int) == opcode,
    ensures
        decode::tick(s) == decode::execute(s, opcode),
        decode::can_tick(s) == decode::can_execute(s, opcode),
{
    reveal(decode::tick);
    reveal(decode::can_tick);
    assert(decode::awake(s) == s);
}

/// `LD SP,0xFFFE` at 0x0000.
#[verifier::spinoff_prover]
proof fn lemma_boot_step_1(s: CpuState)
    requires
        in_boot(s),
        s.pc == 0,
    ensures
        decode::can_tick(s),
        decode::tick(s) == (CpuState { pc: 3, sp: 0xFFFE, cycles: 12, ..s }),
{
    assert(s.read(0) == 0x31);
    assert(s.read(1) == 0xFE);
    assert(s.read(2) == 0xFF);
    lemma_plain_tick(s, 0x31);
    assert(decode::field_x(0x31) == 0 && decode::field_y(0x31) == 6 && decode::field_z(0x31) == 1);
    assert(decode::execute(s, 0x31) == decode::exec_00(s, 6, 1));
    assert(decode::can_execute(s, 0x31) == decode::can_00(s, 6, 1));
}

/// `JP 0x00FC` at 0x0003.
#[verifier::spinoff_prover]
proof fn lemma_boot_step_2(s: CpuState)
    requires
        in_boot(s),
        s.pc == 3,
    ensures
        decode::can_tick(s),
        decode::tick(s) == (CpuState { pc: 0xFC, cycles: 16, ..s }),
{
    assert(s.read(3) == 0xC3);
    assert(s.read(4) == 0xFC);
    assert(s.read(5) == 0x00);
    lemma_plain_tick(s, 0xC3);
    assert(decode::field_x(0xC3) == 3 && decode::field_y(0xC3) == 0 && decode::field_z(0xC3) == 3);
    assert(decode::execute(s, 0xC3) == decode::exec_11(s, 0, 3));
    assert(decode::can_execute(s, 0xC3) == decode::can_11(s, 0, 3));
}

/// `LD A,0x01` at 0x00FC.
#[verifier::spinoff_prover]
proof fn lemma_boot_step_3(s: CpuState)
    requires
        in_boot(s),
        s.pc == 0xFC,
    ensures
        decode::can_tick(s),
        decode::tick(s) == (CpuState { pc: 0xFE, a: 1, cycles: 8, ..s }),
{
    assert(s.read(0xFC) == 0x3E);
    assert(s.read(0xFD) == 0x01);
    lemma_plain_tick(s, 0x3E);
    assert(decode::field_x(0x3E) == 0 && decode::field_y(0x3E) == 7 && decode::field_z(0x3E) == 6);
    assert(decode::execute(s, 0x3E) == decode::exec_00(s, 7, 6));
    assert(decode::can_execute(s, 0x3E) == decode::can_00(s, 7, 6));
}

/// `LDH (0x50),A` at 0x00FE.
#[verifier::spinoff_prover]
proof fn lemma_boot_step_4(s: CpuState)
    requires
        in_boot(s),
        s.pc == 0xFE,
    ensures
        decode::can_tick(s),
        decode::tick(s) == (CpuState { pc: 0x0100, cycles: 12, mem: s.mem.write(0xFF50, s.a), ..s }),
{
    assert(s.read(0xFE) == 0xE0);
    assert(s.read(0xFF) == 0x50);
    lemma_plain_tick(s, 0xE0);
    lemma_execute_ldh(s);
    assert(s.imm8() == 0x50);
    assert(s.writable(0xFF50));
}

/// The opcode 0xE0 is `LDH (n),A`.
#[verifier::spinoff_prover]
proof fn lemma_execute_ldh(s: CpuState)
    ensures
        decode::execute(s, 0xE0) == isa::ld_ff00_plus_u8_a(s),
        decode::can_execute(s, 0xE0) == (s.operands_ok(1) && s.writable(0xFF00 + s.imm8())),
{
    assert(decode::field_x(0xE0) == 3 && decode::field_y(0xE0) == 4 && decode::field_z(0xE0) == 0);
    assert(decode::execute(s, 0xE0) == decode::exec_11(s, 4, 0));
    assert(decode::can_execute(s, 0xE0) == decode::can_11(s, 4, 0));
}

/// The boot program hands over to the cartridge in four steps of the CPU:
/// it sets the stack pointer to 0xFFFE, jumps to 0x00FC, loads 1 into `A`
/// and writes it to 0xFF50. Each step completes; after them the program
/// counter is at the cartridge's entry point 0x0100, the boot ROM is off
/// the map, so that the cartridge shows through below 0x0100, the
/// cartridge is as it was, and the last step took 12 cycles.
pub proof fn law_boot_hand_off(
    cartridge_type: u8,
    rom: Seq<u8>,
    ram_size: Option<u32>,
    saved_ram: Option<Seq<u8>>,
)
    ensures
        ({
            let s0 = emulator::power_on_state(cartridge_type, rom, ram_size, saved_ram);
            let s4 = decode::tick(decode::tick(decode::tick(decode::tick(s0))));
            &&& decode::can_tick(s0)
            &&& decode::can_tick(decode::tick(s0))
            &&& decode::can_tick(decode::tick(decode::tick(s0)))
            &&& decode::can_tick(decode::tick(decode::tick(decode::tick(s0))))
            &&& s4.pc == 0x0100
            &&& s4.sp == 0xFFFE
            &&& s4.a == 0x01
            &&& s4.cycles == 12
            &&& !s4.mem.boot_enabled
            &&& s4.mem.mbc == s0.mem.mbc
            &&& forall|address: u16|
                address <= 0x7FFF ==> #[trigger] s4.mem.read(address) == s4.mem.mbc.read(address)
        }),
{
    let s0 = emulator::power_on_state(cartridge_type, rom, ram_size, saved_ram);
    lemma_boot_step_1(s0);
    let s1 = decode::tick(s0);
    lemma_boot_step_2(s1);
    let s2 = decode::tick(s1);
    lemma_boot_step_3(s2);
    let s3 = decode::tick(s2);
    lemma_boot_step_4(s3);
    let s4 = decode::tick(s3);
    assert forall|address: u16| address <= 0x7FFF implies #[trigger] s4.mem.read(address)
        == s4.mem.mbc.read(address) by {
        mmu::law_boot_rom_unmapped(s3.mem, address, 0, 0);
    }
}

} // verus!
