use crabboy::cartridge::CARTRIDGE;
use crabboy::mbc::{create_mbc, MbcKind, MemoryBankController, MBC, MBC1, MBC3, MBC5, NMBC};

/// A ROM of `banks` banks of 16 KiB whose every byte holds its bank number.
fn banked_rom(banks: usize) -> Vec<u8> {
    let mut rom = vec![0u8; banks * 0x4000];
    for bank in 0..banks {
        for i in 0..0x4000 {
            rom[bank * 0x4000 + i] = bank as u8;
        }
    }
    rom
}

#[test]
fn plain_rom_reads_rom_and_ram() {
    let mut rom = vec![0u8; 0x8000];
    rom[0x1234] = 0x56;
    let mut mbc = NMBC::new(rom, Some(0x2000), false, None);
    assert_eq!(mbc.read_byte(0x1234), 0x56);
    assert_eq!(mbc.read_byte(0xA010), 0);
    mbc.write_byte(0xA010, 0x99);
    assert_eq!(mbc.read_byte(0xA010), 0x99);
    assert_eq!(mbc.save_ram(), None);
}

#[test]
fn plain_rom_without_ram_reads_zero_and_ignores_writes() {
    let mut mbc = NMBC::new(vec![0u8; 0x8000], None, false, None);
    mbc.write_byte(0xA000, 0x12);
    assert_eq!(mbc.read_byte(0xA000), 0);
    assert_eq!(mbc.save_ram(), None);
}

#[test]
fn battery_ram_starts_from_the_save_and_is_saved() {
    let saved = vec![0x42u8; 0x2000];
    let mut mbc = NMBC::new(vec![0u8; 0x8000], Some(0x2000), true, Some(saved.clone()));
    assert_eq!(mbc.read_byte(0xA123), 0x42);
    mbc.write_byte(0xA000, 0x01);
    let mut expected = saved;
    expected[0] = 0x01;
    assert_eq!(mbc.save_ram(), Some(expected));
}

#[test]
fn battery_ram_without_save_starts_zeroed() {
    let mbc = MBC1::new(banked_rom(4), Some(0x2000), true, None);
    assert_eq!(mbc.save_ram(), Some(vec![0u8; 0x2000]));
}

#[test]
fn ram_without_battery_ignores_the_save() {
    let mbc = MBC1::new(banked_rom(4), Some(0x2000), false, Some(vec![9u8; 0x2000]));
    assert_eq!(mbc.save_ram(), None);
}

#[test]
fn mbc1_switches_rom_banks_and_maps_bank_zero_to_one() {
    let mut mbc = MBC1::new(banked_rom(8), None, false, None);
    assert_eq!(mbc.read_byte(0x0000), 0);
    assert_eq!(mbc.read_byte(0x4000), 1);
    mbc.write_byte(0x2000, 0x05);
    assert_eq!(mbc.read_byte(0x4000), 5);
    assert_eq!(mbc.read_byte(0x7FFF), 5);
    assert_eq!(mbc.read_byte(0x3FFF), 0);
    mbc.write_byte(0x2000, 0x00);
    assert_eq!(mbc.read_byte(0x4000), 1);
    // Only the low five bits select the bank.
    mbc.write_byte(0x3000, 0x23);
    assert_eq!(mbc.read_byte(0x4000), 3);
}

#[test]
fn mbc1_ram_is_reachable_only_while_enabled() {
    let mut mbc = MBC1::new(banked_rom(2), Some(0x8000), true, None);
    mbc.write_byte(0xA000, 0x77);
    assert_eq!(mbc.read_byte(0xA000), 0);
    mbc.write_byte(0x0000, 0x0A);
    mbc.write_byte(0xA000, 0x77);
    assert_eq!(mbc.read_byte(0xA000), 0x77);
    // A second RAM bank.
    mbc.write_byte(0x4000, 0x01);
    assert_eq!(mbc.read_byte(0xA000), 0);
    mbc.write_byte(0xA000, 0x88);
    mbc.write_byte(0x4000, 0x00);
    assert_eq!(mbc.read_byte(0xA000), 0x77);
    // Any low nibble but 0xA shuts the RAM.
    mbc.write_byte(0x1000, 0x1B);
    assert_eq!(mbc.read_byte(0xA000), 0);
    mbc.write_byte(0xA000, 0x11);
    mbc.write_byte(0x0000, 0xFA);
    assert_eq!(mbc.read_byte(0xA000), 0x77);
    let saved = mbc.save_ram().unwrap();
    assert_eq!(saved[0], 0x77);
    assert_eq!(saved[0x2000], 0x88);
}

#[test]
fn mbc1_reads_zero_outside_rom_and_ram() {
    let mbc = MBC1::new(banked_rom(2), None, false, None);
    assert_eq!(mbc.read_byte(0xC000), 0);
}

#[test]
fn mbc3_uses_seven_bank_bits() {
    let mut mbc = MBC3::new(banked_rom(128), Some(0x2000), false, None);
    mbc.write_byte(0x2000, 0x45);
    assert_eq!(mbc.read_byte(0x4000), 0x45);
    mbc.write_byte(0x2000, 0x80);
    assert_eq!(mbc.read_byte(0x4000), 1);
    mbc.write_byte(0x0000, 0x0A);
    mbc.write_byte(0xBFFF, 0x3C);
    assert_eq!(mbc.read_byte(0xBFFF), 0x3C);
    assert_eq!(mbc.save_ram(), None);
}

#[test]
fn mbc5_uses_nine_bank_bits_and_allows_bank_zero() {
    let mut rom = vec![0u8; 0x4000 * 0x102];
    rom[0x4000 * 0x101] = 0xAB;
    rom[0x4000 * 0x02] = 0xCD;
    let mut mbc = MBC5::new(rom, None, false, None);
    mbc.write_byte(0x2000, 0x01);
    mbc.write_byte(0x3000, 0x01);
    assert_eq!(mbc.read_byte(0x4000), 0xAB);
    mbc.write_byte(0x3000, 0x00);
    mbc.write_byte(0x2000, 0x02);
    assert_eq!(mbc.read_byte(0x4000), 0xCD);
    mbc.write_byte(0x2000, 0x00);
    assert_eq!(mbc.read_byte(0x4000), 0x00);
}

#[test]
fn mbc5_has_sixteen_ram_banks() {
    let mut mbc = MBC5::new(vec![0u8; 0x8000], Some(0x20000), true, None);
    mbc.write_byte(0x0000, 0x0A);
    mbc.write_byte(0x4000, 0x0F);
    mbc.write_byte(0xA000, 0x5A);
    mbc.write_byte(0x4000, 0x00);
    assert_eq!(mbc.read_byte(0xA000), 0);
    mbc.write_byte(0x4000, 0x0F);
    assert_eq!(mbc.read_byte(0xA000), 0x5A);
    assert_eq!(mbc.save_ram().unwrap()[0xF * 0x2000], 0x5A);
}

fn cartridge_of_type(cartridge_type: u8) -> CARTRIDGE {
    let mut rom = vec![0u8; 0x8000];
    rom[0x0147] = cartridge_type;
    rom[0x0149] = 0x02;
    CARTRIDGE::new(rom, Some(vec![3u8; 0x2000]))
}

#[test]
fn cartridge_types_select_their_controllers() {
    let kinds = [
        (0x00u8, MbcKind::NoMbc, false),
        (0x08, MbcKind::NoMbc, false),
        (0x09, MbcKind::NoMbc, true),
        (0x01, MbcKind::Mbc1, false),
        (0x02, MbcKind::Mbc1, false),
        (0x03, MbcKind::Mbc1, true),
        (0x11, MbcKind::Mbc3, false),
        (0x12, MbcKind::Mbc3, false),
        (0x13, MbcKind::Mbc3, true),
        (0x19, MbcKind::Mbc5, false),
        (0x1A, MbcKind::Mbc5, false),
        (0x1B, MbcKind::Mbc5, true),
    ];
    for (cartridge_type, kind, battery) in kinds {
        let mbc = create_mbc(cartridge_of_type(cartridge_type));
        let same_kind = matches!(
            (mbc.kind(), kind),
            (MbcKind::NoMbc, MbcKind::NoMbc)
                | (MbcKind::Mbc1, MbcKind::Mbc1)
                | (MbcKind::Mbc3, MbcKind::Mbc3)
                | (MbcKind::Mbc5, MbcKind::Mbc5)
        );
        assert!(same_kind, "type {:#x}", cartridge_type);
        if battery {
            assert_eq!(mbc.save_ram(), Some(vec![3u8; 0x2000]), "type {:#x}", cartridge_type);
        } else {
            assert_eq!(mbc.save_ram(), None, "type {:#x}", cartridge_type);
        }
    }
}

#[test]
fn controller_enum_forwards_reads_and_writes() {
    let mut mbc: MemoryBankController = create_mbc(cartridge_of_type(0x03));
    mbc.write_byte(0x0000, 0x0A);
    assert_eq!(mbc.read_byte(0xA000), 3);
    mbc.write_byte(0xA000, 0x44);
    assert_eq!(mbc.read_byte(0xA000), 0x44);
}
