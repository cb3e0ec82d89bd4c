use crabboy::apu::APU;
use crabboy::bootrom::BOOTROM;
use crabboy::joypad::{JOYPAD, INTERRUPT_JOYPAD};
use crabboy::ppu::{PPU, INTERRUPT_VBLANK, INTERRUPT_LCD_STAT, WHITE};
use crabboy::timer::{TIMER, INTERRUPT_TIMER};

#[test]
fn interrupt_bits_of_the_devices() {
    assert_eq!(INTERRUPT_VBLANK, 0b0000_0001);
    assert_eq!(INTERRUPT_LCD_STAT, 0b0000_0010);
    assert_eq!(INTERRUPT_TIMER, 0b0000_0100);
    assert_eq!(INTERRUPT_JOYPAD, 0b0001_0000);
}

#[test]
fn apu_registers_read_back() {
    let mut apu = APU::new();
    assert_eq!(apu.read_byte(0xFF26), 0);
    for address in 0xFF10u16..=0xFF26 {
        if address == 0xFF15 || address == 0xFF1F {
            continue;
        }
        apu.write_byte(address, address as u8);
    }
    for address in 0xFF30u16..=0xFF3F {
        apu.write_byte(address, !(address as u8));
    }
    for address in 0xFF10u16..=0xFF26 {
        if address == 0xFF15 || address == 0xFF1F {
            continue;
        }
        assert_eq!(apu.read_byte(address), address as u8);
    }
    for address in 0xFF30u16..=0xFF3F {
        assert_eq!(apu.read_byte(address), !(address as u8));
    }
}

#[test]
fn boot_rom_holds_the_start_program() {
    let mut rom = BOOTROM::new();
    assert!(rom.is_enabled());
    assert_eq!(rom.read_byte(0x00), 0x31);
    assert_eq!(rom.read_byte(0x01), 0xFE);
    assert_eq!(rom.read_byte(0x02), 0xFF);
    assert_eq!(rom.read_byte(0x03), 0xC3);
    assert_eq!(rom.read_byte(0x04), 0xFC);
    assert_eq!(rom.read_byte(0x05), 0x00);
    assert_eq!(rom.read_byte(0x10), 0x00);
    assert_eq!(rom.read_byte(0xFC), 0x3E);
    assert_eq!(rom.read_byte(0xFD), 0x01);
    assert_eq!(rom.read_byte(0xFE), 0xE0);
    assert_eq!(rom.read_byte(0xFF), 0x50);
    rom.disable();
    assert!(!rom.is_enabled());
    assert_eq!(rom.read_byte(0x00), 0x31);
}

#[test]
fn timer_div_counts_every_256_cycles_and_clears_on_write() {
    let mut timer = TIMER::new();
    for _ in 0..64 {
        assert!(!timer.tick(4));
    }
    assert_eq!(timer.read_byte(0xFF04), 0);
    // DIV shows the high byte of the divider word.
    for _ in 0..254 {
        timer.add_cycles(256);
    }
    assert_eq!(timer.read_byte(0xFF04), 0);
    timer.add_cycles(200);
    timer.add_cycles(56);
    assert_eq!(timer.read_byte(0xFF04), 1);
    timer.write_byte(0xFF04, 0x77);
    assert_eq!(timer.read_byte(0xFF04), 0);
}

#[test]
fn timer_registers_read_back() {
    let mut timer = TIMER::new();
    timer.write_byte(0xFF05, 0x12);
    timer.write_byte(0xFF06, 0x34);
    timer.write_byte(0xFF07, 0x05);
    assert_eq!(timer.read_byte(0xFF05), 0x12);
    assert_eq!(timer.read_byte(0xFF06), 0x34);
    assert_eq!(timer.read_byte(0xFF07), 0x05);
}

#[test]
fn tima_counts_at_the_selected_rate_and_reloads_on_overflow() {
    let mut timer = TIMER::new();
    timer.write_byte(0xFF06, 0xAB);
    timer.write_byte(0xFF05, 0xFE);
    // Enabled, one step every 16 cycles.
    timer.write_byte(0xFF07, 0b101);
    assert!(!timer.tick(8));
    assert_eq!(timer.read_byte(0xFF05), 0xFE);
    assert!(!timer.tick(8));
    assert_eq!(timer.read_byte(0xFF05), 0xFF);
    assert!(timer.tick(16));
    assert_eq!(timer.read_byte(0xFF05), 0xAB);
}

#[test]
fn tima_stands_still_while_disabled() {
    let mut timer = TIMER::new();
    timer.write_byte(0xFF05, 0x10);
    timer.write_byte(0xFF07, 0b001);
    for _ in 0..100 {
        assert!(!timer.tick(16));
    }
    assert_eq!(timer.read_byte(0xFF05), 0x10);
    assert!(timer.can_count(16));
}

#[test]
fn timer_clock_select_1024_cycles() {
    let mut timer = TIMER::new();
    timer.write_byte(0xFF07, 0b100);
    for _ in 0..255 {
        timer.tick(4);
    }
    assert_eq!(timer.read_byte(0xFF05), 0);
    timer.tick(4);
    assert_eq!(timer.read_byte(0xFF05), 1);
}

#[test]
fn joypad_reports_pressed_buttons_of_the_selected_group() {
    let mut joypad = JOYPAD::new();
    assert_eq!(joypad.read_byte(), 0xFF);
    assert!(!joypad.is_any_group_active());
    joypad.set_button_state(0b0000_0100, true); // Up
    joypad.set_button_state(0b0001_0000, true); // A
    joypad.write_byte(0x20);
    assert!(joypad.is_any_group_active());
    assert_eq!(joypad.read_byte(), 0b1110_1011);
    joypad.write_byte(0x10);
    assert_eq!(joypad.read_byte(), 0b1101_1110);
    joypad.write_byte(0x30);
    assert_eq!(joypad.read_byte(), 0b1100_1010);
    joypad.write_byte(0x00);
    assert!(!joypad.is_any_group_active());
    assert_eq!(joypad.read_byte(), 0xFF);
    joypad.set_button_state(0b0000_0100, false);
    joypad.write_byte(0x20);
    assert_eq!(joypad.read_byte(), 0b1110_1111);
}

#[test]
fn joypad_interrupt_follows_a_change_while_a_group_is_selected() {
    let mut joypad = JOYPAD::new();
    joypad.set_button_state(0b1000_0000, true);
    // No group selected: the change is noticed but not reported.
    assert!(!joypad.check_for_interrupt());
    assert!(!joypad.joypad_state_has_changed());
    joypad.write_byte(0x10);
    joypad.set_button_state(0b1000_0000, false);
    assert!(joypad.check_for_interrupt());
    assert!(!joypad.check_for_interrupt());
    joypad.set_button_state(0b0000_0001, true);
    assert!(joypad.joypad_state_has_changed());
    assert!(!joypad.joypad_state_has_changed());
}

#[test]
fn ppu_registers_and_memories_read_back() {
    let mut ppu = PPU::new();
    let addresses = [0x8000u16, 0x9FFF, 0xFE00, 0xFE9F, 0xFF40, 0xFF41, 0xFF42, 0xFF43,
        0xFF44, 0xFF45, 0xFF46, 0xFF47, 0xFF48, 0xFF49, 0xFF4A, 0xFF4B];
    for (i, address) in addresses.iter().enumerate() {
        ppu.write_byte(*address, 0x10 + i as u8);
    }
    for (i, address) in addresses.iter().enumerate() {
        assert_eq!(ppu.read_byte(*address), 0x10 + i as u8);
    }
    assert!(ppu.is_dma_pending());
    assert_eq!(ppu.dma_source_page(), 0x1A);
    ppu.dma_transfer(&vec![0x99u8; 160]);
    assert!(!ppu.is_dma_pending());
    assert_eq!(ppu.read_byte(0xFE00), 0x99);
    assert_eq!(ppu.read_byte(0xFE9F), 0x99);
}

#[test]
fn ppu_display_enable_is_bit_seven_of_lcdc() {
    let mut ppu = PPU::new();
    assert!(!ppu.is_display_enabled());
    ppu.write_byte(0xFF40, 0x80);
    assert!(ppu.is_display_enabled());
}

#[test]
fn a_frame_takes_154_lines_of_456_cycles() {
    let mut ppu = PPU::new();
    ppu.write_byte(0xFF40, 0x91);
    ppu.write_byte(0xFF47, 0xE4);
    let mut vblanks = 0;
    let mut cycles: u32 = 0;
    while !ppu.is_frame_ready() {
        assert!(ppu.can_tick(4));
        let requests = ppu.tick(4);
        if requests & INTERRUPT_VBLANK != 0 {
            vblanks += 1;
            assert_eq!(ppu.read_byte(0xFF44), 144);
        }
        cycles += 4;
    }
    assert_eq!(vblanks, 1);
    assert_eq!(cycles, 154 * 456);
    assert_eq!(ppu.read_byte(0xFF44), 0);
    ppu.reset_frame_ready();
    assert!(!ppu.is_frame_ready());
    // Blank video memory shows colour 0 of the palette everywhere.
    let screen = ppu.get_screen_buffer();
    assert_eq!(screen.len(), 160 * 144);
    assert!(screen.iter().all(|p| *p == screen[0]));
}

#[test]
fn stat_interrupt_on_hblank_when_enabled() {
    let mut ppu = PPU::new();
    ppu.write_byte(0xFF41, 0x08);
    let mut stat_requests = 0;
    for _ in 0..(456 / 4) {
        if ppu.tick(4) & INTERRUPT_LCD_STAT != 0 {
            stat_requests += 1;
        }
    }
    assert_eq!(stat_requests, 1);
    assert_eq!(ppu.read_byte(0xFF44), 1);
}

#[test]
fn background_tile_is_drawn_with_the_palette() {
    let mut ppu = PPU::new();
    // Tile 0 in the 0x8000 area: first row all colour 3; the tile map is
    // all tile 0.
    ppu.write_byte(0x8000, 0xFF);
    ppu.write_byte(0x8001, 0xFF);
    // Colour 3 shows shade 1, colour 0 shade 0.
    ppu.write_byte(0xFF47, 0b0100_0000);
    ppu.write_byte(0xFF40, 0x91);
    ppu.render_scanline();
    let screen = ppu.get_screen_buffer();
    assert_eq!(screen[0], 0x00AAAAAA);
    assert_eq!(screen[159], 0x00AAAAAA);
    assert_eq!(screen[160], 0);
    ppu.render_background();
    assert_eq!(ppu.get_screen_buffer(), screen);
    // Scrolling down one line shows the tile's second row, colour 0.
    ppu.write_byte(0xFF42, 1);
    ppu.render_background();
    assert_eq!(ppu.get_screen_buffer()[0], WHITE);
}

#[test]
fn buttons_pressed_by_name_change_only_a_selected_group() {
    let mut joypad = JOYPAD::new();
    // Both groups selected at start.
    joypad.press_button("A");
    joypad.write_byte(0x10);
    assert_eq!(joypad.read_byte(), 0b1101_1110);
    // 0x20 deselects the direction keys: pressing Up is ignored.
    joypad.write_byte(0x20);
    joypad.press_button("Up");
    assert_eq!(joypad.read_byte(), 0b1110_1111);
    // An unknown name changes nothing.
    joypad.write_byte(0x00);
    joypad.press_button("Select ");
    joypad.press_button("a");
    joypad.press_button("Down");
    joypad.press_button("Start");
    joypad.write_byte(0x30);
    assert_eq!(joypad.read_byte(), 0b1100_0110);
    joypad.write_byte(0x00);
    joypad.press_button("A");
    joypad.release_button("A");
    joypad.release_button("Down");
    joypad.write_byte(0x30);
    assert_eq!(joypad.read_byte(), 0b1100_0111);
}
