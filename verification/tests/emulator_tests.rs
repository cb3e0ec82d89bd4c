use crabboy::api::{
    load, load_rom, render, render_frame, set_buttons, set_buttons_state, unload,
    unload_emulator,
};
use crabboy::cartridge::CARTRIDGE;
use crabboy::emulator::{EmulationFault, EMULATOR};
use crabboy::ppu::WHITE;

/// A 32 KiB ROM of the given type and RAM size code with `program` at the
/// entry point 0x0100.
fn rom_with_program(cartridge_type: u8, ram_code: u8, program: &[u8]) -> Vec<u8> {
    let mut rom = vec![0u8; 0x8000];
    rom[0x0147] = cartridge_type;
    rom[0x0149] = ram_code;
    for (i, b) in program.iter().enumerate() {
        rom[0x0100 + i] = *b;
    }
    rom
}

/// JP 0x0100: spin forever.
const SPIN: [u8; 3] = [0xC3, 0x00, 0x01];

fn fault_of(result: Option<Result<Vec<u32>, EmulationFault>>) -> EmulationFault {
    match result {
        Some(Err(fault)) => fault,
        Some(Ok(_)) => panic!("a frame was finished"),
        None => panic!("no game was loaded"),
    }
}

#[test]
fn a_frame_is_rendered_with_the_display_off() {
    let mut instance: Option<EMULATOR> = None;
    load_rom(&mut instance, rom_with_program(0x00, 0x00, &SPIN), None);
    let screen = render_frame(&mut instance).unwrap().ok().unwrap();
    assert_eq!(screen.len(), 160 * 144);
    assert!(screen.iter().all(|p| *p == 0));
    assert!(instance.is_some());
}

#[test]
fn blank_video_memory_shows_palette_colour_zero() {
    let program = [
        0x3E, 0xE4, // LD A,0xE4
        0xE0, 0x47, // LDH (0x47),A
        0x3E, 0x91, // LD A,0x91
        0xE0, 0x40, // LDH (0x40),A
        0xC3, 0x08, 0x01, // JP 0x0108
    ];
    let mut instance: Option<EMULATOR> = None;
    load_rom(&mut instance, rom_with_program(0x00, 0x00, &program), None);
    render_frame(&mut instance).unwrap().ok().unwrap();
    let screen = render_frame(&mut instance).unwrap().ok().unwrap();
    assert!(screen.iter().all(|p| *p == WHITE));
}

#[test]
fn an_illegal_opcode_is_an_instruction_fault() {
    let mut instance: Option<EMULATOR> = None;
    load_rom(&mut instance, rom_with_program(0x00, 0x00, &[0xD3]), None);
    assert!(matches!(fault_of(render_frame(&mut instance)), EmulationFault::Instruction));
}

#[test]
fn a_transfer_from_video_memory_is_a_transfer_fault() {
    let program = [
        0x3E, 0x80, // LD A,0x80
        0xE0, 0x46, // LDH (0x46),A
        0xC3, 0x04, 0x01, // JP 0x0104
    ];
    let mut instance: Option<EMULATOR> = None;
    load_rom(&mut instance, rom_with_program(0x00, 0x00, &program), None);
    assert!(matches!(fault_of(render_frame(&mut instance)), EmulationFault::Transfer));
}

#[test]
fn a_line_number_below_the_screen_is_a_video_fault() {
    let program = [
        0x3E, 0x91, // LD A,0x91: display on
        0xE0, 0x40, // LDH (0x40),A
        0x3E, 0xC8, // LD A,200
        0xE0, 0x44, // LDH (0x44),A
        0xC3, 0x04, 0x01, // JP 0x0104
    ];
    let mut instance: Option<EMULATOR> = None;
    load_rom(&mut instance, rom_with_program(0x00, 0x00, &program), None);
    assert!(matches!(fault_of(render_frame(&mut instance)), EmulationFault::Video));
}

#[test]
fn a_timer_counter_that_outgrows_its_range_is_a_timer_fault() {
    let program = [
        0x3E, 0x05, // LD A,0x05: timer on, a step every 16 cycles
        0xE0, 0x07, // LDH (0x07),A
        0x08, 0x00, 0xC0, // LD (0xC000),SP: 20 cycles
        0xC3, 0x04, 0x01, // JP 0x0104: 16 cycles
    ];
    let mut instance: Option<EMULATOR> = None;
    load_rom(&mut instance, rom_with_program(0x00, 0x00, &program), None);
    let mut frames = 0;
    loop {
        match render_frame(&mut instance).unwrap() {
            Ok(_) => frames += 1,
            Err(fault) => {
                assert!(matches!(fault, EmulationFault::Timer));
                break;
            }
        }
        assert!(frames < 100);
    }
    assert!(frames > 0);
}

#[test]
fn unloading_gives_back_the_saved_ram_of_a_battery_cartridge() {
    let mut instance: Option<EMULATOR> = None;
    let saved = vec![5u8; 0x2000];
    load_rom(&mut instance, rom_with_program(0x03, 0x02, &SPIN), Some(saved.clone()));
    assert_eq!(unload_emulator(&mut instance), Some(saved));
    assert!(instance.is_none());
}

#[test]
fn a_battery_cartridge_without_save_starts_with_zeroed_ram() {
    let mut instance: Option<EMULATOR> = None;
    load_rom(&mut instance, rom_with_program(0x13, 0x03, &SPIN), None);
    assert_eq!(unload_emulator(&mut instance), Some(vec![0u8; 0x8000]));
}

#[test]
fn a_cartridge_without_battery_saves_nothing() {
    let mut instance: Option<EMULATOR> = None;
    load_rom(&mut instance, rom_with_program(0x02, 0x02, &SPIN), Some(vec![1u8; 0x2000]));
    assert_eq!(unload_emulator(&mut instance), None);
}

#[test]
fn without_a_game_nothing_runs() {
    let mut instance: Option<EMULATOR> = None;
    assert!(render_frame(&mut instance).is_none());
    assert_eq!(unload_emulator(&mut instance), None);
    set_buttons_state(&mut instance, vec![0; 8]);
    assert!(instance.is_none());
}

/// Selects the direction keys, opens the cartridge RAM and keeps copying
/// the joypad register to 0xA000.
const JOYPAD_COPY: [u8; 17] = [
    0x3E, 0x20, // LD A,0x20
    0xE0, 0x00, // LDH (0x00),A
    0x3E, 0x0A, // LD A,0x0A
    0xEA, 0x00, 0x00, // LD (0x0000),A: RAM on
    0xF0, 0x00, // LDH A,(0x00)
    0xEA, 0x00, 0xA0, // LD (0xA000),A
    0xC3, 0x09, 0x01, // JP 0x0109
];

#[test]
fn button_states_reach_the_program() {
    let mut instance: Option<EMULATOR> = None;
    load_rom(&mut instance, rom_with_program(0x03, 0x02, &JOYPAD_COPY), None);
    // Up pressed, the rest released.
    set_buttons_state(&mut instance, vec![0, 1, 1, 1, 1, 1, 1, 1]);
    render_frame(&mut instance).unwrap().ok().unwrap();
    let ram = unload_emulator(&mut instance).unwrap();
    assert_eq!(ram[0], 0b1110_1011);
}

#[test]
fn button_states_of_the_wrong_length_are_ignored() {
    let mut instance: Option<EMULATOR> = None;
    load_rom(&mut instance, rom_with_program(0x03, 0x02, &JOYPAD_COPY), None);
    set_buttons_state(&mut instance, vec![0, 0, 0, 0, 0, 0, 0]);
    render_frame(&mut instance).unwrap().ok().unwrap();
    let ram = unload_emulator(&mut instance).unwrap();
    assert_eq!(ram[0], 0b1110_1111);
}

#[test]
fn the_short_names_do_the_same() {
    let mut instance: Option<EMULATOR> = None;
    load(&mut instance, rom_with_program(0x03, 0x02, &JOYPAD_COPY), None);
    set_buttons(&mut instance, vec![1, 1, 1, 0, 1, 1, 1, 1]);
    let screen = render(&mut instance).unwrap().ok().unwrap();
    assert_eq!(screen.len(), 23040);
    let ram = unload(&mut instance).unwrap();
    // Right pressed.
    assert_eq!(ram[0], 0b1110_1110);
    assert!(instance.is_none());
}

#[test]
fn the_console_can_be_driven_directly() {
    let mut rom = rom_with_program(0x09, 0x01, &SPIN);
    rom[0x0134] = b'G';
    let cartridge = CARTRIDGE::new(rom, Some(vec![8u8; 0x800]));
    assert_eq!(cartridge.decode_title(), "G");
    let mut emulator = EMULATOR::new(cartridge);
    emulator.set_button_states(0, 0, 0, 0, 0, 0, 0, 0);
    assert_eq!(emulator.render_frame().ok().unwrap().len(), 23040);
    assert_eq!(emulator.save_ram(), Some(vec![8u8; 0x800]));
}
