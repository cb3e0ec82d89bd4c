use crabboy::cartridge::CARTRIDGE;
use crabboy::mmu::MMU;

fn mmu_with(cartridge_type: u8, ram_code: u8) -> MMU {
    let mut rom = vec![0u8; 0x8000];
    for (i, b) in rom.iter_mut().enumerate() {
        *b = (i % 251) as u8;
    }
    rom[0x0147] = cartridge_type;
    rom[0x0149] = ram_code;
    MMU::new(CARTRIDGE::new(rom, None))
}

#[test]
fn boot_rom_is_mapped_until_0xff50_is_written() {
    let mut mmu = mmu_with(0x00, 0x00);
    assert_eq!(mmu.read_byte(0x0000), 0x31);
    assert_eq!(mmu.read_byte(0x00FF), 0x50);
    assert_eq!(mmu.read_byte(0x0100), (0x0100 % 251) as u8);
    mmu.write_byte(0xFF50, 0x02);
    assert_eq!(mmu.read_byte(0x0000), 0x31);
    mmu.write_byte(0xFF50, 0x01);
    assert_eq!(mmu.read_byte(0x0000), 0);
    assert_eq!(mmu.read_byte(0x00FF), (0x00FF % 251) as u8);
}

#[test]
fn work_ram_is_mirrored_at_0xe000() {
    let mut mmu = mmu_with(0x00, 0x00);
    mmu.write_byte(0xC123, 0xAB);
    assert_eq!(mmu.read_byte(0xC123), 0xAB);
    assert_eq!(mmu.read_byte(0xE123), 0xAB);
    mmu.write_byte(0xFDFF, 0xCD);
    assert_eq!(mmu.read_byte(0xDDFF), 0xCD);
    assert_eq!(mmu.read_byte(0xDFFF), 0);
}

#[test]
fn high_ram_and_interrupt_registers_read_back() {
    let mut mmu = mmu_with(0x00, 0x00);
    mmu.write_byte(0xFF80, 1);
    mmu.write_byte(0xFFFE, 2);
    mmu.write_byte(0xFF0F, 0x05);
    mmu.write_byte(0xFFFF, 0x1F);
    assert_eq!(mmu.read_byte(0xFF80), 1);
    assert_eq!(mmu.read_byte(0xFFFE), 2);
    assert_eq!(mmu.read_byte(0xFF0F), 0x05);
    assert_eq!(mmu.read_byte(0xFFFF), 0x1F);
    mmu.request_interrupt(0x10);
    assert_eq!(mmu.read_byte(0xFF0F), 0x15);
}

#[test]
fn devices_answer_at_their_addresses() {
    let mut mmu = mmu_with(0x00, 0x00);
    // Video RAM and OAM.
    mmu.write_byte(0x8000, 0x11);
    mmu.write_byte(0xFE9F, 0x22);
    assert_eq!(mmu.read_byte(0x8000), 0x11);
    assert_eq!(mmu.read_byte(0xFE9F), 0x22);
    // LCD registers.
    mmu.write_byte(0xFF47, 0xE4);
    assert_eq!(mmu.read_byte(0xFF47), 0xE4);
    // Sound registers and wave RAM.
    mmu.write_byte(0xFF10, 0x80);
    mmu.write_byte(0xFF3F, 0x9A);
    assert_eq!(mmu.read_byte(0xFF10), 0x80);
    assert_eq!(mmu.read_byte(0xFF3F), 0x9A);
    // Timer: any write to DIV clears it.
    mmu.write_byte(0xFF06, 0x42);
    assert_eq!(mmu.read_byte(0xFF06), 0x42);
    mmu.write_byte(0xFF04, 0x99);
    assert_eq!(mmu.read_byte(0xFF04), 0);
    // Plain I/O storage and the unusable area.
    mmu.write_byte(0xFF01, 0x33);
    mmu.write_byte(0xFF7F, 0x44);
    mmu.write_byte(0xFEA0, 0x55);
    assert_eq!(mmu.read_byte(0xFF01), 0x33);
    assert_eq!(mmu.read_byte(0xFF7F), 0x44);
    assert_eq!(mmu.read_byte(0xFEA0), 0x55);
}

#[test]
fn joypad_register_shows_the_selected_group() {
    let mut mmu = mmu_with(0x00, 0x00);
    assert_eq!(mmu.read_byte(0xFF00), 0xFF);
    mmu.set_button_state(0b0000_0001, true);
    // Bit 5 set, bit 4 clear deselects the direction keys and selects the
    // action keys in this register's reading of the bits.
    mmu.write_byte(0xFF00, 0x20);
    assert_eq!(mmu.read_byte(0xFF00), 0b1110_1110);
    mmu.write_byte(0xFF00, 0x10);
    assert_eq!(mmu.read_byte(0xFF00), 0b1101_1111);
}

#[test]
fn cartridge_ram_goes_through_the_controller() {
    let mut mmu = mmu_with(0x03, 0x02);
    mmu.write_byte(0x0000, 0x0A);
    mmu.write_byte(0xA000, 0x5A);
    assert_eq!(mmu.read_byte(0xA000), 0x5A);
    let saved = mmu.save_ram().unwrap();
    assert_eq!(saved.len(), 0x2000);
    assert_eq!(saved[0], 0x5A);
}

#[test]
fn fetches_read_program_bytes() {
    let mut mmu = mmu_with(0x00, 0x00);
    mmu.write_byte(0xC000, 0x3E);
    mmu.write_byte(0xC001, 0xFE);
    assert_eq!(mmu.fetch_instruction(0xC000), 0x3E);
    assert_eq!(mmu.fetch_u8(0xC001), 0xFE);
    assert_eq!(mmu.fetch_i8(0xC001), -2);
    assert_eq!(mmu.fetch_i8(0xC000), 0x3E);
}

#[test]
fn dma_copies_a_page_into_oam() {
    let mut mmu = mmu_with(0x00, 0x00);
    for i in 0..160u16 {
        mmu.write_byte(0xC100 + i, i as u8 ^ 0x5A);
    }
    mmu.write_byte(0xFF46, 0xC1);
    assert!(mmu.dma_ok());
    mmu.dma_transfer();
    for i in 0..160u16 {
        assert_eq!(mmu.read_byte(0xFE00 + i), i as u8 ^ 0x5A);
    }
}

#[test]
fn dma_from_video_memory_is_refused() {
    let mut mmu = mmu_with(0x00, 0x00);
    mmu.write_byte(0xFF46, 0x80);
    assert!(!mmu.dma_ok());
}

#[test]
fn readability_follows_the_memory_map() {
    let mut mmu = mmu_with(0x00, 0x00);
    assert!(mmu.is_readable(0xC000));
    assert!(mmu.is_readable(0x7FFF));
    // No cartridge RAM behind 0xA000 on a plain ROM: reads give 0.
    assert!(mmu.is_readable(0xA000));
    assert_eq!(mmu.read_byte(0xA000), 0);
    // Between the sound registers there is nothing to read.
    assert!(!mmu.is_readable(0xFF15));
    assert!(!mmu.is_writable(0xFF1F));
    assert!(mmu.is_writable(0xFF27));
    mmu.write_byte(0xFF27, 0x12);
    assert_eq!(mmu.read_byte(0xFF27), 0x12);
}

#[test]
fn screen_buffer_has_one_pixel_per_dot() {
    let mmu = mmu_with(0x00, 0x00);
    let screen = mmu.get_screen_buffer();
    assert_eq!(screen.len(), 160 * 144);
    assert!(!mmu.is_frame_ready());
}
