use crabboy::cartridge::CARTRIDGE;
use crabboy::cpu::instructions;
use crabboy::cpu::{CPU, INTERRUPT_ADDRESS, INTERRUPT_FLAG, RST};
use crabboy::mmu::MMU;

/// A CPU with a blank ROM cartridge, the boot ROM unmapped, the stack at
/// 0xDFF0 and `program` in work RAM at 0xC000, where the program counter
/// points.
fn cpu_with(program: &[u8]) -> CPU {
    let mut rom = vec![0u8; 0x8000];
    rom[0x0147] = 0x00;
    let mut cpu = CPU::new(MMU::new(CARTRIDGE::new(rom, None)));
    cpu.mmu.write_byte(0xFF50, 0x01);
    for (i, b) in program.iter().enumerate() {
        cpu.mmu.write_byte(0xC000 + i as u16, *b);
    }
    cpu.pc = 0xC000;
    cpu.sp = 0xDFF0;
    cpu
}

fn run(cpu: &mut CPU) {
    let opcode = cpu.mmu.fetch_instruction(cpu.pc);
    assert!(cpu.can_execute(opcode), "opcode {:#04x} at {:#06x}", opcode, cpu.pc);
    cpu.execute(opcode);
}

#[test]
fn inc_a_adds_one() {
    let mut cpu = cpu_with(&[0x3C]);
    cpu.a = 10;
    run(&mut cpu);
    assert_eq!(cpu.a, 11);
    assert_eq!(cpu.pc, 0xC001);
    assert_eq!(cpu.get_cycles(), 4);
    assert_eq!(cpu.f & 0x80, 0);
}

#[test]
fn inc_wraps_and_sets_zero_and_half_carry() {
    let mut cpu = cpu_with(&[0x04]);
    cpu.b = 0xFF;
    cpu.f = 0x10;
    run(&mut cpu);
    assert_eq!(cpu.b, 0);
    // Zero and half carry set, subtract clear, carry kept.
    assert_eq!(cpu.f, 0xB0);
}

#[test]
fn dec_sets_subtract_flag() {
    let mut cpu = cpu_with(&[0x0D]);
    cpu.c = 0x10;
    run(&mut cpu);
    assert_eq!(cpu.c, 0x0F);
    assert_eq!(cpu.f, 0x60);
}

#[test]
fn ld_immediate_and_register_moves() {
    let mut cpu = cpu_with(&[0x3E, 0x42, 0x47, 0x21, 0x34, 0x12, 0x77, 0x7E]);
    run(&mut cpu); // LD A,0x42
    run(&mut cpu); // LD B,A
    run(&mut cpu); // LD HL,0x1234
    assert_eq!((cpu.a, cpu.b, cpu.h, cpu.l), (0x42, 0x42, 0x12, 0x34));
    cpu.h = 0xC1;
    cpu.l = 0x00;
    run(&mut cpu); // LD (HL),A
    assert_eq!(cpu.mmu.read_byte(0xC100), 0x42);
    cpu.a = 0;
    run(&mut cpu); // LD A,(HL)
    assert_eq!(cpu.a, 0x42);
    assert_eq!(cpu.pc, 0xC008);
}

#[test]
fn push_then_pop_restores_the_pair() {
    let mut cpu = cpu_with(&[0xC5, 0xD1]);
    cpu.b = 0x12;
    cpu.c = 0x34;
    run(&mut cpu); // PUSH BC
    assert_eq!(cpu.sp, 0xDFEE);
    assert_eq!(cpu.mmu.read_byte(0xDFEF), 0x12);
    assert_eq!(cpu.mmu.read_byte(0xDFEE), 0x34);
    run(&mut cpu); // POP DE
    assert_eq!((cpu.d, cpu.e), (0x12, 0x34));
    assert_eq!(cpu.sp, 0xDFF0);
}

#[test]
fn pop_af_keeps_only_the_flag_bits() {
    let mut cpu = cpu_with(&[0xF1]);
    cpu.mmu.write_byte(0xDFF0, 0xFF);
    cpu.mmu.write_byte(0xDFF1, 0x99);
    cpu.f = 0x00;
    run(&mut cpu);
    assert_eq!(cpu.a, 0x99);
    assert_eq!(cpu.f, 0xF0);
}

#[test]
fn call_jumps_to_its_operand_and_ret_comes_back() {
    let mut cpu = cpu_with(&[0xCD, 0x10, 0xC0]);
    cpu.mmu.write_byte(0xC010, 0xC9);
    run(&mut cpu); // CALL 0xC010
    assert_eq!(cpu.pc, 0xC010);
    assert_eq!(cpu.sp, 0xDFEE);
    assert_eq!(cpu.mmu.read_byte(0xDFEF), 0xC0);
    assert_eq!(cpu.mmu.read_byte(0xDFEE), 0x03);
    assert_eq!(cpu.get_cycles(), 24);
    run(&mut cpu); // RET
    assert_eq!(cpu.pc, 0xC003);
    assert_eq!(cpu.sp, 0xDFF0);
}

#[test]
fn conditional_jumps_follow_the_flags() {
    let mut cpu = cpu_with(&[0xC2, 0x00, 0xC1]);
    cpu.f = 0x80;
    run(&mut cpu); // JP NZ: not taken
    assert_eq!(cpu.pc, 0xC003);
    assert_eq!(cpu.get_cycles(), 12);
    cpu.pc = 0xC000;
    cpu.f = 0x00;
    run(&mut cpu); // JP NZ: taken
    assert_eq!(cpu.pc, 0xC100);
    assert_eq!(cpu.get_cycles(), 16);
}

#[test]
fn relative_jump_adds_the_offset_to_its_own_address() {
    let mut cpu = cpu_with(&[0x18, 0x10]);
    run(&mut cpu);
    assert_eq!(cpu.pc, 0xC010);
    assert_eq!(cpu.get_cycles(), 12);
    let mut cpu = cpu_with(&[0x18, 0xFE]);
    run(&mut cpu);
    assert_eq!(cpu.pc, 0xBFFE);
    let mut cpu = cpu_with(&[0x20, 0x05]);
    cpu.f = 0x80;
    run(&mut cpu); // JR NZ: not taken
    assert_eq!(cpu.pc, 0xC002);
    assert_eq!(cpu.get_cycles(), 8);
}

#[test]
fn rst_pushes_the_next_address_and_jumps_to_its_vector() {
    let mut cpu = cpu_with(&[0xEF]);
    run(&mut cpu); // RST 28H
    assert_eq!(cpu.pc, 0x0028);
    assert_eq!(cpu.mmu.read_byte(0xDFEF), 0xC0);
    assert_eq!(cpu.mmu.read_byte(0xDFEE), 0x01);
}

#[test]
fn add_then_daa_gives_decimal() {
    let mut cpu = cpu_with(&[0xC6, 0x27, 0x27]);
    cpu.a = 0x15;
    run(&mut cpu); // ADD A,0x27
    assert_eq!(cpu.a, 0x3C);
    run(&mut cpu); // DAA
    assert_eq!(cpu.a, 0x42);
    assert_eq!(cpu.f & 0x10, 0);
}

#[test]
fn sub_and_compare_set_carry_on_borrow() {
    let mut cpu = cpu_with(&[0xD6, 0x20, 0xFE, 0x10]);
    cpu.a = 0x10;
    run(&mut cpu); // SUB 0x20
    assert_eq!(cpu.a, 0xF0);
    assert_eq!(cpu.f, 0x50);
    run(&mut cpu); // CP 0x10
    assert_eq!(cpu.a, 0xF0);
    assert_eq!(cpu.f & 0x40, 0x40);
    assert_eq!(cpu.f & 0x10, 0);
}

#[test]
fn xor_a_clears_a() {
    let mut cpu = cpu_with(&[0xAF]);
    cpu.a = 0x5A;
    cpu.f = 0x70;
    run(&mut cpu);
    assert_eq!(cpu.a, 0);
    assert_eq!(cpu.f, 0x80);
}

#[test]
fn and_immediate_moves_the_counter_past_its_operand() {
    let mut cpu = cpu_with(&[0xE6, 0x0F]);
    cpu.a = 0x3C;
    run(&mut cpu);
    assert_eq!(cpu.a, 0x0C);
    assert_eq!(cpu.f, 0x20);
    assert_eq!(cpu.pc, 0xC002);
    assert_eq!(cpu.get_cycles(), 8);
}

#[test]
fn cpl_twice_restores_a() {
    let mut cpu = cpu_with(&[0x2F, 0x2F]);
    cpu.a = 0x35;
    run(&mut cpu);
    assert_eq!(cpu.a, 0xCA);
    assert_eq!(cpu.f & 0x60, 0x60);
    run(&mut cpu);
    assert_eq!(cpu.a, 0x35);
}

#[test]
fn rotates_through_and_around_the_carry() {
    let mut cpu = cpu_with(&[0x07, 0x17]);
    cpu.a = 0x85;
    run(&mut cpu); // RLCA
    assert_eq!(cpu.a, 0x0B);
    assert_eq!(cpu.f, 0x10);
    run(&mut cpu); // RLA: the carry comes in at bit 0
    assert_eq!(cpu.a, 0x17);
    assert_eq!(cpu.f, 0x00);
}

#[test]
fn prefixed_swap_and_bit() {
    let mut cpu = cpu_with(&[0xCB, 0x37, 0xCB, 0x47, 0xCB, 0xC7]);
    cpu.a = 0xAB;
    run(&mut cpu); // SWAP A
    assert_eq!(cpu.a, 0xBA);
    assert_eq!(cpu.pc, 0xC002);
    run(&mut cpu); // BIT 0,A: bit 0 is clear, so Zero is set
    assert_eq!(cpu.f & 0x80, 0x80);
    assert_eq!(cpu.f & 0x20, 0x20);
    run(&mut cpu); // SET 0,A
    assert_eq!(cpu.a, 0xBB);
    assert_eq!(cpu.pc, 0xC006);
}

#[test]
fn sixteen_bit_arithmetic() {
    let mut cpu = cpu_with(&[0x09, 0x03, 0x3B]);
    cpu.h = 0x0F;
    cpu.l = 0xFF;
    cpu.b = 0x00;
    cpu.c = 0x01;
    run(&mut cpu); // ADD HL,BC
    assert_eq!((cpu.h, cpu.l), (0x10, 0x00));
    assert_eq!(cpu.f & 0x20, 0x20);
    run(&mut cpu); // INC BC
    assert_eq!((cpu.b, cpu.c), (0x00, 0x02));
    run(&mut cpu); // DEC SP
    assert_eq!(cpu.sp, 0xDFEF);
}

#[test]
fn di_ei_and_halt() {
    let mut cpu = cpu_with(&[0xFB, 0xF3, 0x76]);
    run(&mut cpu);
    assert!(cpu.ime);
    run(&mut cpu);
    assert!(!cpu.ime);
    run(&mut cpu);
    assert!(cpu.halted);
}

#[test]
fn illegal_opcodes_cannot_execute() {
    let mut cpu = cpu_with(&[0xD3]);
    for opcode in [0xD3u8, 0xDB, 0xDD, 0xE3, 0xE4, 0xEB, 0xEC, 0xED, 0xF4, 0xFC, 0xFD] {
        assert!(!cpu.can_execute(opcode), "opcode {:#04x}", opcode);
    }
    assert!(!cpu.try_tick());
    assert!(cpu.can_execute(0x00));
}

#[test]
fn tick_takes_a_requested_interrupt_before_the_next_instruction() {
    let mut cpu = cpu_with(&[0x00]);
    cpu.ime = true;
    cpu.mmu.write_byte(0xFFFF, INTERRUPT_FLAG::Timer.value());
    cpu.request_interrupt(INTERRUPT_FLAG::Timer.value());
    assert!(cpu.can_take_interrupt());
    cpu.tick();
    // The interrupt vector holds a NOP in the blank ROM.
    assert_eq!(cpu.pc, INTERRUPT_ADDRESS::Timer.address() + 1);
    assert!(!cpu.ime);
    assert_eq!(cpu.sp, 0xDFEE);
    assert_eq!(cpu.mmu.read_byte(0xDFEF), 0xC0);
    assert_eq!(cpu.mmu.read_byte(0xDFEE), 0x00);
    assert_eq!(cpu.mmu.read_byte(0xFF0F), 0x00);
}

#[test]
fn disabled_interrupts_wait() {
    let mut cpu = cpu_with(&[0x00]);
    cpu.mmu.write_byte(0xFFFF, 0x01);
    cpu.request_interrupt(INTERRUPT_FLAG::VBlank.value());
    assert!(cpu.try_tick());
    assert_eq!(cpu.pc, 0xC001);
    assert_eq!(cpu.mmu.read_byte(0xFF0F), 0x01);
}

#[test]
fn interrupt_and_restart_tables() {
    assert_eq!(INTERRUPT_ADDRESS::VBlank.address(), 0x0040);
    assert_eq!(INTERRUPT_ADDRESS::LCDStat.address(), 0x0048);
    assert_eq!(INTERRUPT_ADDRESS::Timer.address(), 0x0050);
    assert_eq!(INTERRUPT_ADDRESS::Serial.address(), 0x0058);
    assert_eq!(INTERRUPT_ADDRESS::Joypad.address(), 0x0060);
    assert_eq!(INTERRUPT_FLAG::VBlank.value(), 0x01);
    assert_eq!(INTERRUPT_FLAG::LCDStat.value(), 0x02);
    assert_eq!(INTERRUPT_FLAG::Timer.value(), 0x04);
    assert_eq!(INTERRUPT_FLAG::Serial.value(), 0x08);
    assert_eq!(INTERRUPT_FLAG::Joypad.value(), 0x10);
    assert_eq!(RST::Rst00H.address(), 0x0000);
    assert_eq!(RST::Rst38H.address(), 0x0038);
}

#[test]
fn instruction_functions_can_be_called_directly() {
    let mut cpu = cpu_with(&[]);
    let r = instructions::inc_r_u8(&mut cpu, 0x0F);
    assert_eq!(r, 0x10);
    assert_eq!(cpu.f & 0x20, 0x20);
    let (hi, lo) = instructions::inc_r_u16(&mut cpu, 0x12, 0xFF);
    assert_eq!((hi, lo), (0x13, 0x00));
    instructions::nop(&mut cpu);
    assert_eq!(cpu.get_cycles(), 4);
    cpu.set_cycles(99);
    assert_eq!(cpu.get_cycles(), 99);
}

#[test]
fn rst_then_ret_comes_back() {
    let mut cpu = cpu_with(&[0xFF]);
    run(&mut cpu); // RST 38H
    assert_eq!(cpu.pc, 0x0038);
    // Put a RET where the vector lands: the cartridge is ROM, so return
    // by hand through the same stack with RET from work RAM.
    cpu.mmu.write_byte(0xC100, 0xC9);
    cpu.pc = 0xC100;
    run(&mut cpu);
    assert_eq!(cpu.pc, 0xC001);
    assert_eq!(cpu.sp, 0xDFF0);
}

#[test]
fn byte_operations_undo_each_other() {
    // INC B then DEC B; RLC C then RRC C; SWAP D twice.
    let mut cpu = cpu_with(&[0x04, 0x05, 0xCB, 0x01, 0xCB, 0x09, 0xCB, 0x32, 0xCB, 0x32]);
    cpu.b = 0x7F;
    cpu.c = 0x81;
    cpu.d = 0x1E;
    run(&mut cpu);
    assert_eq!(cpu.b, 0x80);
    run(&mut cpu);
    assert_eq!(cpu.b, 0x7F);
    run(&mut cpu);
    assert_eq!(cpu.c, 0x03);
    run(&mut cpu);
    assert_eq!(cpu.c, 0x81);
    run(&mut cpu);
    assert_eq!(cpu.d, 0xE1);
    run(&mut cpu);
    assert_eq!(cpu.d, 0x1E);
}

#[test]
fn bit_clears_zero_when_the_bit_is_set() {
    let mut cpu = cpu_with(&[0xCB, 0x40, 0xCB, 0x7E]);
    cpu.b = 0x01;
    run(&mut cpu); // BIT 0,B
    assert_eq!(cpu.f & 0x80, 0);
    cpu.h = 0xC1;
    cpu.l = 0x00;
    cpu.mmu.write_byte(0xC100, 0x7F);
    run(&mut cpu); // BIT 7,(HL)
    assert_eq!(cpu.f & 0x80, 0x80);
    assert_eq!(cpu.get_cycles(), 12);
}

#[test]
fn conditional_call_not_taken_skips_its_operand() {
    let mut cpu = cpu_with(&[0xC4, 0x00, 0xC1]);
    cpu.f = 0x80;
    run(&mut cpu); // CALL NZ: not taken
    assert_eq!(cpu.pc, 0xC003);
    assert_eq!(cpu.sp, 0xDFF0);
    assert_eq!(cpu.get_cycles(), 12);
    cpu.pc = 0xC000;
    cpu.f = 0x00;
    run(&mut cpu); // CALL NZ: taken
    assert_eq!(cpu.pc, 0xC100);
    assert_eq!(cpu.sp, 0xDFEE);
}

#[test]
fn a_halted_cpu_waits_until_an_interrupt_is_requested() {
    let mut cpu = cpu_with(&[0x76, 0x00, 0x00]);
    cpu.mmu.write_byte(0xFFFF, 0x04);
    cpu.tick(); // HALT
    assert!(cpu.halted);
    assert_eq!(cpu.pc, 0xC001);
    for _ in 0..10 {
        assert!(cpu.try_tick());
        assert!(cpu.halted);
        assert_eq!(cpu.pc, 0xC001);
        assert_eq!(cpu.sp, 0xDFF0);
        assert_eq!(cpu.get_cycles(), 4);
    }
    // An interrupt that is requested but not enabled does not wake it.
    cpu.request_interrupt(0x01);
    cpu.tick();
    assert!(cpu.halted);
    assert_eq!(cpu.pc, 0xC001);
    // With interrupts off, an enabled request wakes it and the program
    // goes on after the HALT.
    cpu.request_interrupt(0x04);
    cpu.tick();
    assert!(!cpu.halted);
    assert_eq!(cpu.pc, 0xC002);
    assert_eq!(cpu.mmu.read_byte(0xFF0F), 0x05);
}

#[test]
fn a_halted_cpu_with_interrupts_on_takes_the_interrupt() {
    let mut cpu = cpu_with(&[0x76]);
    cpu.ime = true;
    cpu.mmu.write_byte(0xFFFF, 0x04);
    cpu.tick(); // HALT
    cpu.tick();
    assert!(cpu.halted);
    cpu.request_interrupt(0x04);
    cpu.tick();
    assert!(!cpu.halted);
    assert!(!cpu.ime);
    // The vector holds a NOP in the blank ROM.
    assert_eq!(cpu.pc, 0x0051);
    assert_eq!(cpu.mmu.read_byte(0xDFEF), 0xC0);
    assert_eq!(cpu.mmu.read_byte(0xDFEE), 0x01);
}

#[test]
fn the_boot_program_hands_over_in_four_steps() {
    let mut rom = vec![0u8; 0x8000];
    rom[0x0000] = 0xAA;
    let mut cpu = CPU::new(MMU::new(CARTRIDGE::new(rom, None)));
    assert_eq!(cpu.mmu.read_byte(0x0000), 0x31);
    for _ in 0..4 {
        assert!(cpu.try_tick());
    }
    assert_eq!(cpu.pc, 0x0100);
    assert_eq!(cpu.sp, 0xFFFE);
    assert_eq!(cpu.a, 0x01);
    assert_eq!(cpu.get_cycles(), 12);
    assert_eq!(cpu.mmu.read_byte(0x0000), 0xAA);
}

#[test]
fn instructions_keep_the_low_nibble_of_f() {
    let mut cpu = cpu_with(&[0xAF, 0x3F, 0xCB, 0x47]);
    cpu.f = 0x05;
    cpu.a = 0x12;
    run(&mut cpu); // XOR A
    assert_eq!(cpu.f, 0x85);
    run(&mut cpu); // CCF
    assert_eq!(cpu.f, 0x95);
    run(&mut cpu); // BIT 0,A
    assert_eq!(cpu.f & 0x0F, 0x05);
}
