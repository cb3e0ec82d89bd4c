use crabboy::cartridge::CARTRIDGE;

fn rom_with_header(cartridge_type: u8, ram_code: u8, title: &[u8]) -> Vec<u8> {
    let mut rom = vec![0u8; 0x8000];
    for (i, b) in title.iter().enumerate() {
        rom[0x0134 + i] = *b;
    }
    rom[0x0147] = cartridge_type;
    rom[0x0148] = 0x00;
    rom[0x0149] = ram_code;
    rom
}

#[test]
fn header_fields_are_read_from_their_offsets() {
    let mut rom = rom_with_header(0x03, 0x02, b"TETRIS");
    rom[0x0100] = 0x00;
    rom[0x0101] = 0xC3;
    rom[0x0102] = 0x50;
    rom[0x0103] = 0x01;
    rom[0x0143] = 0x80;
    rom[0x0144] = 0x30;
    rom[0x0145] = 0x31;
    rom[0x0146] = 0x03;
    rom[0x0148] = 0x01;
    rom[0x014A] = 0x01;
    rom[0x014B] = 0x33;
    rom[0x014C] = 0x02;
    rom[0x014D] = 0xAB;
    rom[0x014E] = 0xCD;
    rom[0x014F] = 0xEF;
    let cartridge = CARTRIDGE::new(rom.clone(), None);
    assert_eq!(cartridge.rom, rom);
    assert_eq!(cartridge.entry_point, [0x00, 0xC3, 0x50, 0x01]);
    assert_eq!(&cartridge.title[..6], b"TETRIS");
    assert_eq!(cartridge.cgb_flag, 0x80);
    assert_eq!(cartridge.new_licensee_code, [0x30, 0x31]);
    assert_eq!(cartridge.sgb_flag, 0x03);
    assert_eq!(cartridge.cartridge_type, 0x03);
    assert_eq!(cartridge.rom_size, 0x01);
    assert_eq!(cartridge.ram_size, Some(8 * 1024));
    assert_eq!(cartridge.destination_code, 0x01);
    assert_eq!(cartridge.old_licensee_code, 0x33);
    assert_eq!(cartridge.mask_rom_version_number, 0x02);
    assert_eq!(cartridge.header_checksum, 0xAB);
    assert_eq!(cartridge.global_checksum, [0xCD, 0xEF]);
    assert_eq!(cartridge.saved_ram, None);
}

#[test]
fn ram_size_codes_are_decoded_to_bytes() {
    let expected = [
        (0x00u8, None),
        (0x01, Some(2048u32)),
        (0x02, Some(8192)),
        (0x03, Some(32768)),
        (0x04, Some(131072)),
        (0x05, Some(65536)),
        (0x06, None),
        (0xFF, None),
    ];
    for (code, size) in expected {
        let cartridge = CARTRIDGE::new(rom_with_header(0x00, code, b""), None);
        assert_eq!(cartridge.ram_size, size, "code {:#x}", code);
    }
}

#[test]
fn saved_ram_is_kept() {
    let cartridge = CARTRIDGE::new(rom_with_header(0x03, 0x02, b""), Some(vec![7; 8192]));
    assert_eq!(cartridge.saved_ram, Some(vec![7; 8192]));
}

#[test]
fn title_stops_at_first_zero_byte() {
    let cartridge = CARTRIDGE::new(rom_with_header(0x00, 0x00, b"TETRIS"), None);
    assert_eq!(cartridge.decode_title(), "TETRIS");
}

#[test]
fn title_of_full_length_has_fifteen_characters() {
    let cartridge = CARTRIDGE::new(rom_with_header(0x00, 0x00, b"ABCDEFGHIJKLMNO"), None);
    assert_eq!(cartridge.decode_title(), "ABCDEFGHIJKLMNO");
}

#[test]
fn empty_title_decodes_to_empty_string() {
    let cartridge = CARTRIDGE::new(rom_with_header(0x00, 0x00, b""), None);
    assert_eq!(cartridge.decode_title(), "");
}

#[test]
fn header_of_minimal_length_is_accepted() {
    let mut rom = vec![0u8; 0x0150];
    rom[0x0134] = b'A';
    let cartridge = CARTRIDGE::new(rom, None);
    assert_eq!(cartridge.decode_title(), "A");
}
