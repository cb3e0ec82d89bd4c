//! Memory bank controllers: the cartridge hardware that maps ROM banks into
//! 0x4000 - 0x7FFF and external RAM banks into 0xA000 - 0xBFFF, and takes
//! its commands from writes to the ROM area.
use vstd::prelude::*;
use crate::cartridge::CARTRIDGE;

verus! {

/// The kinds of controller that a cartridge may carry.
pub enum MbcKind {
    NoMbc,
    Mbc1,
    Mbc3,
    Mbc5,
}

/// The bank registers of a controller: the ones that decide which ROM and
/// RAM bytes an address reaches.
#[derive(Clone, Copy)]
pub struct BankControl {
    pub rom_bank: u16,
    pub ram_bank: u8,
    pub ram_enabled: bool,
}

/// The state of a memory bank controller and of the memory behind it.
#[verifier::ext_equal]
pub struct MbcState {
    pub kind: MbcKind,
    pub rom: Seq<u8>,
    pub ram: Option<Seq<u8>>,
    /// Whether the RAM is kept by a battery, so that it is saved.
    pub ram_battery: bool,
    pub rom_bank: u16,
    pub ram_bank: u8,
    pub mode: bool,
    pub ram_enabled: bool,
}

/// Whether `address` lies in the external RAM window.
pub open spec fn is_ram_address(address: u16) -> bool {
    0xA000 <= address <= 0xBFFF
}

/// The RAM that a controller starts with: none without a size, a saved one
/// when the RAM has a battery and a save is given, and zeros otherwise.
pub open spec fn initial_ram(
    ram_size: Option<usize>,
    included_ram_battery: bool,
    saved_ram: Option<Seq<u8>>,
) -> Option<Seq<u8>> {
    match ram_size {
        None => None,
        Some(size) => if included_ram_battery && saved_ram is Some {
            saved_ram
        } else {
            Some(Seq::new(size as nat, |i: int| 0u8))
        },
    }
}

impl MbcState {
    /// The bank registers.
    pub open spec fn bank_control(self) -> BankControl {
        BankControl { rom_bank: self.rom_bank, ram_bank: self.ram_bank, ram_enabled: self.ram_enabled }
    }

    /// The state with the bank registers of `control`.
    pub open spec fn with_bank_control(self, control: BankControl) -> MbcState {
        MbcState {
            rom_bank: control.rom_bank,
            ram_bank: control.ram_bank,
            ram_enabled: control.ram_enabled,
            ..self
        }
    }

    /// Whether two states have the same kind, ROM and size of RAM, which
    /// with the bank registers decide what can be read and written.
    pub open spec fn same_layout(self, other: MbcState) -> bool {
        &&& self.kind == other.kind
        &&& self.rom == other.rom
        &&& (self.ram is Some <==> other.ram is Some)
        &&& self.ram is Some ==> self.ram->0.len() == other.ram->0.len()
    }

    /// Whether the banked controllers let the program reach the RAM now.
    pub open spec fn ram_reachable(self) -> bool {
        self.ram_enabled && self.ram is Some
    }

    /// The index into ROM that `address` (below 0x8000) reaches.
    pub open spec fn rom_index(self, address: u16) -> int {
        match self.kind {
            MbcKind::NoMbc => address as int,
            _ => if address <= 0x3FFF {
                address as int
            } else {
                self.rom_bank * 0x4000 + (address - 0x4000)
            },
        }
    }

    /// The index into RAM that `address` (in the RAM window) reaches.
    pub open spec fn ram_index(self, address: u16) -> int {
        match self.kind {
            MbcKind::NoMbc => address - 0xA000,
            _ => self.ram_bank * 0x2000 + (address - 0xA000),
        }
    }

    /// Whether a read of `address` stays inside the memory it reaches.
    pub open spec fn readable(self, address: u16) -> bool {
        if address <= 0x7FFF {
            self.rom_index(address) < self.rom.len()
        } else if is_ram_address(address) {
            match self.kind {
                MbcKind::NoMbc => self.ram is Some ==> self.ram_index(address) < self.ram->0.len(),
                _ => self.ram_reachable() ==> self.ram_index(address) < self.ram->0.len(),
            }
        } else {
            !(self.kind is NoMbc)
        }
    }

    /// What a read of `address` gives.
    pub open spec fn read(self, address: u16) -> u8 {
        if address <= 0x7FFF {
            self.rom[self.rom_index(address)]
        } else if is_ram_address(address) {
            let reachable = match self.kind {
                MbcKind::NoMbc => self.ram is Some,
                _ => self.ram_reachable(),
            };
            if reachable {
                self.ram->0[self.ram_index(address)]
            } else {
                0
            }
        } else {
            0
        }
    }

    /// Whether a write of `address` stays inside the memory it reaches.
    pub open spec fn writable(self, address: u16) -> bool {
        match self.kind {
            MbcKind::NoMbc => self.ram is Some ==> address >= 0xA000 && self.ram_index(address)
                < self.ram->0.len(),
            _ => is_ram_address(address) && self.ram_reachable() ==> self.ram_index(address)
                < self.ram->0.len(),
        }
    }

    /// The state with the RAM byte that `address` reaches set to `value`.
    pub open spec fn with_ram(self, address: u16, value: u8) -> MbcState {
        MbcState { ram: Some(self.ram->0.update(self.ram_index(address), value)), ..self }
    }

    /// The controller after the program writes `value` to `address`.
    pub open spec fn written(self, address: u16, value: u8) -> MbcState {
        match self.kind {
            MbcKind::NoMbc => if self.ram is Some {
                self.with_ram(address, value)
            } else {
                self
            },
            MbcKind::Mbc1 => if address <= 0x1FFF {
                MbcState { ram_enabled: (value & 0x0F) == 0x0A, ..self }
            } else if address <= 0x3FFF {
                let bank = value & 0x1F;
                MbcState {
                    rom_bank: if bank == 0 {
                        1
                    } else {
                        bank as u16
                    },
                    ..self
                }
            } else if address <= 0x5FFF {
                MbcState { ram_bank: value & 0x03, ..self }
            } else if address <= 0x7FFF {
                MbcState { mode: (value & 0x01) != 0, ..self }
            } else if is_ram_address(address) && self.ram_reachable() {
                self.with_ram(address, value)
            } else {
                self
            },
            MbcKind::Mbc3 => if address <= 0x1FFF {
                MbcState { ram_enabled: (value & 0x0F) == 0x0A, ..self }
            } else if address <= 0x3FFF {
                let bank = value & 0x7F;
                MbcState {
                    rom_bank: if bank == 0 {
                        1
                    } else {
                        bank as u16
                    },
                    ..self
                }
            } else if address <= 0x5FFF {
                MbcState { ram_bank: value & 0x03, ..self }
            } else if is_ram_address(address) && self.ram_reachable() {
                self.with_ram(address, value)
            } else {
                self
            },
            MbcKind::Mbc5 => if address <= 0x1FFF {
                MbcState { ram_enabled: (value & 0x0F) == 0x0A, ..self }
            } else if address <= 0x2FFF {
                MbcState { rom_bank: (self.rom_bank & 0x100) | (value as u16), ..self }
            } else if address <= 0x3FFF {
                MbcState {
                    rom_bank: (self.rom_bank & 0xFF) | (((value as u16) & 0x01) << 8u16),
                    ..self
                }
            } else if address <= 0x5FFF {
                MbcState { ram_bank: value & 0x0F, ..self }
            } else if is_ram_address(address) && self.ram_reachable() {
                self.with_ram(address, value)
            } else {
                self
            },
        }
    }

    /// The RAM that a save gives: the RAM when a battery keeps it.
    pub open spec fn saved(self) -> Option<Seq<u8>> {
        if self.ram_battery {
            self.ram
        } else {
            None
        }
    }
}

/// A memory bank controller, as the memory map sees it.
pub trait MBC: View<V = MbcState> {
    fn read_byte(&self, address: u16) -> (r: u8)
        requires
            self@.readable(address),
        ensures
            r == self@.read(address),
    ;

    fn write_byte(&mut self, address: u16, value: u8)
        requires
            old(self)@.writable(address),
        ensures
            final(self)@ == old(self)@.written(address, value),
    ;

    fn save_ram(&self) -> (saved: Option<Vec<u8>>)
        ensures
            saved matches Some(ram) ==> self@.saved() == Some(ram@),
            saved is None ==> self@.saved() is None,
    ;
}

/// The view of an optional RAM.
pub open spec fn ram_view(ram: Option<Vec<u8>>) -> Option<Seq<u8>> {
    match ram {
        Some(r) => Some(r@),
        None => None,
    }
}

/// Makes the RAM that a controller starts with.
fn make_ram(ram_size: Option<usize>, included_ram_battery: bool, saved_ram: Option<Vec<u8>>) -> (ram:
    Option<Vec<u8>>)
    ensures
        ram_view(ram) == initial_ram(ram_size, included_ram_battery, ram_view(saved_ram)),
{
    let ram = match (ram_size, included_ram_battery, saved_ram) {
        (None, _, _) => None,
        (Some(size), false, _) => Some(vec![0; size]),
        (Some(_), true, Some(data)) => Some(data),
        (Some(size), true, None) => Some(vec![0; size]),
    };
    proof {
        if ram is Some && !(included_ram_battery && saved_ram is Some) {
            assert(ram->0@ =~= Seq::new(ram_size->0 as nat, |i: int| 0u8));
        }
    }
    ram
}

/// Copies the RAM out for saving.
fn copy_ram(ram: &Option<Vec<u8>>) -> (copy: Option<Vec<u8>>)
    ensures
        ram_view(copy) == ram_view(*ram),
{
    match ram {
        Some(r) => Some(r.clone()),
        None => None,
    }
}

pub struct NMBC {
    rom: Vec<u8>,
    ram: Option<Vec<u8>>,
    ram_battery: bool,
}

impl View for NMBC {
    type V = MbcState;

    closed spec fn view(&self) -> MbcState {
        MbcState {
            kind: MbcKind::NoMbc,
            rom: self.rom@,
            ram: ram_view(self.ram),
            ram_battery: self.ram_battery,
            rom_bank: 0,
            ram_bank: 0,
            mode: false,
            ram_enabled: false,
        }
    }
}

impl NMBC {
    /// Every value of the type is a controller of its own kind.
    pub proof fn lemma_kind(&self)
        ensures
            self@.kind is NoMbc,
    {
    }

    pub fn new(
        rom: Vec<u8>,
        ram_size: Option<usize>,
        included_ram_battery: bool,
        saved_ram: Option<Vec<u8>>,
    ) -> (mbc: Self)
        ensures
            mbc@ == (MbcState {
                kind: MbcKind::NoMbc,
                rom: rom@,
                ram: initial_ram(ram_size, included_ram_battery, ram_view(saved_ram)),
                ram_battery: included_ram_battery,
                rom_bank: 0,
                ram_bank: 0,
                mode: false,
                ram_enabled: false,
            }),
    {
        let ram = make_ram(ram_size, included_ram_battery, saved_ram);
        NMBC { rom, ram, ram_battery: included_ram_battery }
    }
}

impl MBC for NMBC {
    fn read_byte(&self, address: u16) -> (r: u8) {
        if address <= 0x7FFF {
            self.rom[address as usize]
        } else {
            match &self.ram {
                Some(ram) => ram[(address - 0xA000) as usize],
                None => 0,
            }
        }
    }

    fn write_byte(&mut self, address: u16, value: u8) {
        if let Some(ram) = &mut self.ram {
            ram[(address - 0xA000) as usize] = value;
        }
    }

    fn save_ram(&self) -> (saved: Option<Vec<u8>>) {
        if self.ram_battery {
            copy_ram(&self.ram)
        } else {
            None
        }
    }
}

pub struct MBC1 {
    rom: Vec<u8>,
    ram: Option<Vec<u8>>,
    ram_battery: bool,
    rom_bank: u8,
    ram_bank: u8,
    mode: bool,
    ram_enabled: bool,
}

impl View for MBC1 {
    type V = MbcState;

    closed spec fn view(&self) -> MbcState {
        MbcState {
            kind: MbcKind::Mbc1,
            rom: self.rom@,
            ram: ram_view(self.ram),
            ram_battery: self.ram_battery,
            rom_bank: self.rom_bank as u16,
            ram_bank: self.ram_bank,
            mode: self.mode,
            ram_enabled: self.ram_enabled,
        }
    }
}

impl MBC1 {
    /// Every value of the type is a controller of its own kind.
    pub proof fn lemma_kind(&self)
        ensures
            self@.kind is Mbc1,
    {
    }

    pub fn new(
        rom: Vec<u8>,
        ram_size: Option<usize>,
        included_ram_battery: bool,
        saved_ram: Option<Vec<u8>>,
    ) -> (mbc: Self)
        ensures
            mbc@ == (MbcState {
                kind: MbcKind::Mbc1,
                rom: rom@,
                ram: initial_ram(ram_size, included_ram_battery, ram_view(saved_ram)),
                ram_battery: included_ram_battery,
                rom_bank: 1,
                ram_bank: 0,
                mode: false,
                ram_enabled: false,
            }),
    {
        let ram = make_ram(ram_size, included_ram_battery, saved_ram);
        MBC1 {
            rom,
            ram,
            ram_battery: included_ram_battery,
            rom_bank: 1,
            ram_bank: 0,
            mode: false,
            ram_enabled: false,
        }
    }
}

impl MBC for MBC1 {
    fn read_byte(&self, address: u16) -> (r: u8) {
        if address <= 0x3FFF {
            self.rom[address as usize]
        } else if address <= 0x7FFF {
            let bank_offset = (self.rom_bank as usize) * 0x4000;
            let bank_address = address as usize - 0x4000;
            self.rom[bank_offset + bank_address]
        } else if 0xA000 <= address && address <= 0xBFFF {
            if self.ram_enabled {
                match &self.ram {
                    Some(ram) => {
                        let bank_offset = (self.ram_bank as usize) * 0x2000;
                        let bank_address = address as usize - 0xA000;
                        ram[bank_offset + bank_address]
                    },
                    None => 0,
                }
            } else {
                0
            }
        } else {
            0
        }
    }

    fn write_byte(&mut self, address: u16, value: u8) {
        if address <= 0x1FFF {
            self.ram_enabled = (value & 0x0F) == 0x0A;
        } else if address <= 0x3FFF {
            let bank = value & 0x1F;
            self.rom_bank = if bank == 0 { 1 } else { bank };
        } else if address <= 0x5FFF {
            self.ram_bank = value & 0x03;
        } else if address <= 0x7FFF {
            self.mode = (value & 0x01) != 0;
        } else if 0xA000 <= address && address <= 0xBFFF {
            if self.ram_enabled {
                if let Some(ram) = &mut self.ram {
                    let bank_offset = (self.ram_bank as usize) * 0x2000;
                    let bank_address = address as usize - 0xA000;
                    ram[bank_offset + bank_address] = value;
                }
            }
        }
    }

    fn save_ram(&self) -> (saved: Option<Vec<u8>>) {
        if self.ram_battery {
            copy_ram(&self.ram)
        } else {
            None
        }
    }
}

pub struct MBC3 {
    rom: Vec<u8>,
    ram: Option<Vec<u8>>,
    ram_battery: bool,
    rom_bank: u8,
    ram_bank: u8,
    ram_enabled: bool,
}

impl View for MBC3 {
    type V = MbcState;

    closed spec fn view(&self) -> MbcState {
        MbcState {
            kind: MbcKind::Mbc3,
            rom: self.rom@,
            ram: ram_view(self.ram),
            ram_battery: self.ram_battery,
            rom_bank: self.rom_bank as u16,
            ram_bank: self.ram_bank,
            mode: false,
            ram_enabled: self.ram_enabled,
        }
    }
}

impl MBC3 {
    /// Every value of the type is a controller of its own kind.
    pub proof fn lemma_kind(&self)
        ensures
            self@.kind is Mbc3,
    {
    }

    pub fn new(
        rom: Vec<u8>,
        ram_size: Option<usize>,
        included_ram_battery: bool,
        saved_ram: Option<Vec<u8>>,
    ) -> (mbc: Self)
        ensures
            mbc@ == (MbcState {
                kind: MbcKind::Mbc3,
                rom: rom@,
                ram: initial_ram(ram_size, included_ram_battery, ram_view(saved_ram)),
                ram_battery: included_ram_battery,
                rom_bank: 1,
                ram_bank: 0,
                mode: false,
                ram_enabled: false,
            }),
    {
        let ram = make_ram(ram_size, included_ram_battery, saved_ram);
        MBC3 {
            rom,
            ram,
            ram_battery: included_ram_battery,
            rom_bank: 1,
            ram_bank: 0,
            ram_enabled: false,
        }
    }
}

impl MBC for MBC3 {
    fn read_byte(&self, address: u16) -> (r: u8) {
        if address <= 0x3FFF {
            self.rom[address as usize]
        } else if address <= 0x7FFF {
            let bank_offset = (self.rom_bank as usize) * 0x4000;
            let bank_address = address as usize - 0x4000;
            self.rom[bank_offset + bank_address]
        } else if 0xA000 <= address && address <= 0xBFFF {
            if self.ram_enabled {
                match &self.ram {
                    Some(ram) => {
                        let bank_offset = (self.ram_bank as usize) * 0x2000;
                        let bank_address = address as usize - 0xA000;
                        ram[bank_offset + bank_address]
                    },
                    None => 0,
                }
            } else {
                0
            }
        } else {
            0
        }
    }

    fn write_byte(&mut self, address: u16, value: u8) {
        if address <= 0x1FFF {
            self.ram_enabled = (value & 0x0F) == 0x0A;
        } else if address <= 0x3FFF {
            let bank = value & 0x7F;
            self.rom_bank = if bank == 0 { 1 } else { bank };
        } else if address <= 0x5FFF {
            self.ram_bank = value & 0x03;
        } else if 0xA000 <= address && address <= 0xBFFF {
            if self.ram_enabled {
                if let Some(ram) = &mut self.ram {
                    let bank_offset = (self.ram_bank as usize) * 0x2000;
                    let bank_address = address as usize - 0xA000;
                    ram[bank_offset + bank_address] = value;
                }
            }
        }
    }

    fn save_ram(&self) -> (saved: Option<Vec<u8>>) {
        if self.ram_battery {
            copy_ram(&self.ram)
        } else {
            None
        }
    }
}

pub struct MBC5 {
    rom: Vec<u8>,
    ram: Option<Vec<u8>>,
    ram_battery: bool,
    rom_bank: u16,
    ram_bank: u8,
    ram_enabled: bool,
}

impl View for MBC5 {
    type V = MbcState;

    closed spec fn view(&self) -> MbcState {
        MbcState {
            kind: MbcKind::Mbc5,
            rom: self.rom@,
            ram: ram_view(self.ram),
            ram_battery: self.ram_battery,
            rom_bank: self.rom_bank,
            ram_bank: self.ram_bank,
            mode: false,
            ram_enabled: self.ram_enabled,
        }
    }
}

impl MBC5 {
    /// Every value of the type is a controller of its own kind.
    pub proof fn lemma_kind(&self)
        ensures
            self@.kind is Mbc5,
    {
    }

    pub fn new(
        rom: Vec<u8>,
        ram_size: Option<usize>,
        included_ram_battery: bool,
        saved_ram: Option<Vec<u8>>,
    ) -> (mbc: Self)
        ensures
            mbc@ == (MbcState {
                kind: MbcKind::Mbc5,
                rom: rom@,
                ram: initial_ram(ram_size, included_ram_battery, ram_view(saved_ram)),
                ram_battery: included_ram_battery,
                rom_bank: 1,
                ram_bank: 0,
                mode: false,
                ram_enabled: false,
            }),
    {
        let ram = make_ram(ram_size, included_ram_battery, saved_ram);
        MBC5 {
            rom,
            ram,
            ram_battery: included_ram_battery,
            rom_bank: 1,
            ram_bank: 0,
            ram_enabled: false,
        }
    }
}

impl MBC for MBC5 {
    fn read_byte(&self, address: u16) -> (r: u8) {
        if address <= 0x3FFF {
            self.rom[address as usize]
        } else if address <= 0x7FFF {
            let bank_offset = (self.rom_bank as usize) * 0x4000;
            let bank_address = address as usize - 0x4000;
            self.rom[bank_offset + bank_address]
        } else if 0xA000 <= address && address <= 0xBFFF {
            if self.ram_enabled {
                match &self.ram {
                    Some(ram) => {
                        let bank_offset = (self.ram_bank as usize) * 0x2000;
                        let bank_address = address as usize - 0xA000;
                        ram[bank_offset + bank_address]
                    },
                    None => 0,
                }
            } else {
                0
            }
        } else {
            0
        }
    }

    fn write_byte(&mut self, address: u16, value: u8) {
        if address <= 0x1FFF {
            self.ram_enabled = (value & 0x0F) == 0x0A;
        } else if address <= 0x2FFF {
            self.rom_bank = (self.rom_bank & 0x100) | (value as u16);
        } else if address <= 0x3FFF {
            self.rom_bank = (self.rom_bank & 0xFF) | ((value as u16 & 0x01) << 8);
        } else if address <= 0x5FFF {
            self.ram_bank = value & 0x0F;
        } else if 0xA000 <= address && address <= 0xBFFF {
            if self.ram_enabled {
                if let Some(ram) = &mut self.ram {
                    let bank_offset = (self.ram_bank as usize) * 0x2000;
                    let bank_address = address as usize - 0xA000;
                    ram[bank_offset + bank_address] = value;
                }
            }
        }
    }

    fn save_ram(&self) -> (saved: Option<Vec<u8>>) {
        if self.ram_battery {
            copy_ram(&self.ram)
        } else {
            None
        }
    }
}

/// Whether a cartridge of type `cartridge_type` (header byte 0x0147) is one
/// that this emulator supports: ROM only, MBC1, MBC3 or MBC5, each with or
/// without RAM and battery.
pub open spec fn is_supported_type(cartridge_type: u8) -> bool {
    cartridge_type == 0x00 || cartridge_type == 0x08 || cartridge_type == 0x09 || cartridge_type
        == 0x01 || cartridge_type == 0x02 || cartridge_type == 0x03 || cartridge_type == 0x11
        || cartridge_type == 0x12 || cartridge_type == 0x13 || cartridge_type == 0x19
        || cartridge_type == 0x1A || cartridge_type == 0x1B
}

/// Whether the console has the controller that `cartridge_type` names.
pub fn is_supported_cartridge_type(cartridge_type: u8) -> (supported: bool)
    ensures
        supported == is_supported_type(cartridge_type),
{
    match cartridge_type {
        0x00 | 0x08 | 0x09 | 0x01 | 0x02 | 0x03 | 0x11 | 0x12 | 0x13 | 0x19 | 0x1A | 0x1B => true,
        _ => false,
    }
}

/// The controller that a cartridge type carries.
pub open spec fn kind_of(cartridge_type: u8) -> MbcKind {
    if cartridge_type == 0x00 || cartridge_type == 0x08 || cartridge_type == 0x09 {
        MbcKind::NoMbc
    } else if cartridge_type == 0x01 || cartridge_type == 0x02 || cartridge_type == 0x03 {
        MbcKind::Mbc1
    } else if cartridge_type == 0x11 || cartridge_type == 0x12 || cartridge_type == 0x13 {
        MbcKind::Mbc3
    } else {
        MbcKind::Mbc5
    }
}

/// Whether a cartridge type carries external RAM.
pub open spec fn has_ram(cartridge_type: u8) -> bool {
    !(cartridge_type == 0x00 || cartridge_type == 0x01 || cartridge_type == 0x11 || cartridge_type
        == 0x19)
}

/// Whether a cartridge type keeps its RAM with a battery.
pub open spec fn has_battery(cartridge_type: u8) -> bool {
    cartridge_type == 0x09 || cartridge_type == 0x03 || cartridge_type == 0x13 || cartridge_type
        == 0x1B
}

/// The controller state that a freshly inserted cartridge gives.
pub open spec fn initial_state(
    cartridge_type: u8,
    rom: Seq<u8>,
    ram_size: Option<u32>,
    saved_ram: Option<Seq<u8>>,
) -> MbcState {
    let kind = kind_of(cartridge_type);
    let size: Option<usize> = if has_ram(cartridge_type) && ram_size is Some {
        Some(ram_size->0 as usize)
    } else {
        None
    };
    MbcState {
        kind,
        rom,
        ram: initial_ram(size, has_battery(cartridge_type), saved_ram),
        ram_battery: has_battery(cartridge_type),
        rom_bank: if kind is NoMbc {
            0
        } else {
            1
        },
        ram_bank: 0,
        mode: false,
        ram_enabled: false,
    }
}

/// The controller of the cartridge in the slot, whichever kind it is.
pub enum MemoryBankController {
    NoMbc(NMBC),
    Mbc1(MBC1),
    Mbc3(MBC3),
    Mbc5(MBC5),
}

impl View for MemoryBankController {
    type V = MbcState;

    open spec fn view(&self) -> MbcState {
        match self {
            MemoryBankController::NoMbc(m) => m@,
            MemoryBankController::Mbc1(m) => m@,
            MemoryBankController::Mbc3(m) => m@,
            MemoryBankController::Mbc5(m) => m@,
        }
    }
}

impl MBC for MemoryBankController {
    fn read_byte(&self, address: u16) -> (r: u8) {
        match self {
            MemoryBankController::NoMbc(m) => m.read_byte(address),
            MemoryBankController::Mbc1(m) => m.read_byte(address),
            MemoryBankController::Mbc3(m) => m.read_byte(address),
            MemoryBankController::Mbc5(m) => m.read_byte(address),
        }
    }

    fn write_byte(&mut self, address: u16, value: u8) {
        match self {
            MemoryBankController::NoMbc(m) => m.write_byte(address, value),
            MemoryBankController::Mbc1(m) => m.write_byte(address, value),
            MemoryBankController::Mbc3(m) => m.write_byte(address, value),
            MemoryBankController::Mbc5(m) => m.write_byte(address, value),
        }
    }

    fn save_ram(&self) -> (saved: Option<Vec<u8>>) {
        match self {
            MemoryBankController::NoMbc(m) => m.save_ram(),
            MemoryBankController::Mbc1(m) => m.save_ram(),
            MemoryBankController::Mbc3(m) => m.save_ram(),
            MemoryBankController::Mbc5(m) => m.save_ram(),
        }
    }
}

/// Builds the controller that the cartridge's header names, holding the
/// cartridge's ROM and its saved RAM.
pub fn create_mbc(cartridge: CARTRIDGE) -> (mbc: MemoryBankController)
    requires
        is_supported_type(cartridge.cartridge_type),
    ensures
        mbc@ == initial_state(
            cartridge.cartridge_type,
            cartridge.rom@,
            cartridge.ram_size,
            ram_view(cartridge.saved_ram),
        ),
{
    let ram_size: Option<usize> = match cartridge.ram_size {
        Some(size) => Some(size as usize),
        None => None,
    };
    let cartridge_type = cartridge.cartridge_type;
    let rom = cartridge.rom;
    let saved_ram = cartridge.saved_ram;
    match cartridge_type {
        0x00 => MemoryBankController::NoMbc(NMBC::new(rom, None, false, saved_ram)),  // ROM
        0x08 => MemoryBankController::NoMbc(NMBC::new(rom, ram_size, false, saved_ram)),  // ROM + RAM
        0x09 => MemoryBankController::NoMbc(NMBC::new(rom, ram_size, true, saved_ram)),  // ROM + RAM + BATTERY
        0x01 => MemoryBankController::Mbc1(MBC1::new(rom, None, false, saved_ram)),  // MBC1
        0x02 => MemoryBankController::Mbc1(MBC1::new(rom, ram_size, false, saved_ram)),  // MBC1 + RAM
        0x03 => MemoryBankController::Mbc1(MBC1::new(rom, ram_size, true, saved_ram)),  // MBC1 + RAM + BATTERY
        0x11 => MemoryBankController::Mbc3(MBC3::new(rom, None, false, saved_ram)),  // MBC3
        0x12 => MemoryBankController::Mbc3(MBC3::new(rom, ram_size, false, saved_ram)),  // MBC3 + RAM
        0x13 => MemoryBankController::Mbc3(MBC3::new(rom, ram_size, true, saved_ram)),  // MBC3 + RAM + BATTERY
        0x19 => MemoryBankController::Mbc5(MBC5::new(rom, None, false, saved_ram)),  // MBC5
        0x1A => MemoryBankController::Mbc5(MBC5::new(rom, ram_size, false, saved_ram)),  // MBC5 + RAM
        _ => MemoryBankController::Mbc5(MBC5::new(rom, ram_size, true, saved_ram)),  // MBC5 + RAM + BATTERY
    }
}

/// A write keeps the layout of the controller.
pub proof fn lemma_written_layout(m: MbcState, address: u16, value: u8)
    requires
        m.writable(address),
    ensures
        m.same_layout(m.written(address, value)),
{
}

/// States of the same layout and bank registers allow the same reads and
/// writes, and a write leaves them with the same bank registers.
pub proof fn lemma_layout_decides(m1: MbcState, m2: MbcState, address: u16, value: u8)
    requires
        m1.same_layout(m2),
        m1.bank_control() == m2.bank_control(),
    ensures
        m1.readable(address) == m2.readable(address),
        m1.writable(address) == m2.writable(address),
        m1.written(address, value).bank_control() == m2.written(address, value).bank_control(),
{
}

/// RAM that the program can reach reads back the byte written to it.
pub proof fn law_ram_read_after_write(m: MbcState, address: u16, value: u8)
    requires
        is_ram_address(address),
        m.writable(address),
        m.kind is NoMbc ==> m.ram is Some,
        !(m.kind is NoMbc) ==> m.ram_reachable(),
    ensures
        m.written(address, value).read(address) == value,
{
}

/// On a banked controller a write to 0x0000 - 0x1FFF opens the RAM when
/// the low nibble of the value is 0xA and shuts it otherwise; shut RAM
/// reads 0 and ignores writes.
pub proof fn law_ram_enable(m: MbcState, command: u16, value: u8, address: u16, data: u8)
    requires
        !(m.kind is NoMbc),
        command <= 0x1FFF,
        is_ram_address(address),
    ensures
        m.written(command, value).ram_enabled == ((value & 0x0F) == 0x0A),
        (value & 0x0F) != 0x0A ==> m.written(command, value).read(address) == 0,
        (value & 0x0F) != 0x0A ==> m.written(command, value).written(address, data) == m.written(
            command,
            value,
        ),
{
}

/// On a banked controller whose current RAM bank exists, RAM opened by a
/// write of a value with low nibble 0xA to 0x0000 - 0x1FFF can be written
/// and reads back what was written.
pub proof fn law_opened_ram_reads_back(
    m: MbcState,
    command: u16,
    value: u8,
    address: u16,
    data: u8,
)
    requires
        !(m.kind is NoMbc),
        command <= 0x1FFF,
        value & 0x0F == 0x0A,
        is_ram_address(address),
        m.ram is Some,
        (m.ram_bank + 1) * 0x2000 <= m.ram->0.len(),
    ensures
        m.written(command, value).writable(address),
        m.written(command, value).written(address, data).read(address) == data,
{
}

/// A write of `value` to 0x4000 - 0x5FFF selects RAM bank `value & 0x03`
/// on MBC1 and MBC3 and `value & 0x0F` on MBC5: with the RAM open, a later
/// write of `data` to 0xA000 + `offset` lands at RAM index
/// `bank * 0x2000 + offset` and changes no other byte, and reads back at
/// that address.
pub proof fn law_ram_bank_select(m: MbcState, select: u16, value: u8, offset: u16, data: u8)
    requires
        m.kind is Mbc1 || m.kind is Mbc3 || m.kind is Mbc5,
        m.ram_enabled,
        m.ram is Some,
        m.ram->0.len() >= if m.kind is Mbc5 {
            0x20000int
        } else {
            0x8000int
        },
        0x4000 <= select <= 0x5FFF,
        offset < 0x2000,
    ensures
        ({
            let bank: int = if m.kind is Mbc5 {
                (value % 16) as int
            } else {
                (value % 4) as int
            };
            let t = m.written(select, value);
            &&& t.writable((0xA000 + offset) as u16)
            &&& t.written((0xA000 + offset) as u16, data).ram == Some(
                m.ram->0.update(bank * 0x2000 + offset, data),
            )
            &&& t.written((0xA000 + offset) as u16, data).read((0xA000 + offset) as u16) == data
        }),
{
    assert(value & 0x03 == value % 4) by (bit_vector);
    assert(value & 0x0F == value % 16) by (bit_vector);
}

/// MBC1 and MBC3 never map ROM bank 0 at 0x4000 - 0x7FFF: selecting it
/// selects bank 1.
pub proof fn law_bank_zero_selects_one(m: MbcState, address: u16, value: u8)
    requires
        m.kind is Mbc1 || m.kind is Mbc3,
        0x2000 <= address <= 0x3FFF,
    ensures
        m.written(address, value).rom_bank >= 1,
        (m.kind is Mbc1 && value & 0x1F == 0) ==> m.written(address, value).rom_bank == 1,
        (m.kind is Mbc3 && value & 0x7F == 0) ==> m.written(address, value).rom_bank == 1,
{
}

impl MemoryBankController {
    /// The kind of the controller.
    pub fn kind(&self) -> (kind: MbcKind)
        ensures
            kind == self@.kind,
    {
        match self {
            MemoryBankController::NoMbc(_) => MbcKind::NoMbc,
            MemoryBankController::Mbc1(_) => MbcKind::Mbc1,
            MemoryBankController::Mbc3(_) => MbcKind::Mbc3,
            MemoryBankController::Mbc5(_) => MbcKind::Mbc5,
        }
    }

    /// The size of the ROM and of the RAM, if there is RAM.
    fn sizes(&self) -> (sizes: (usize, Option<usize>))
        ensures
            sizes.0 == self@.rom.len(),
            sizes.1 is Some <==> self@.ram is Some,
            sizes.1 is Some ==> sizes.1->0 == self@.ram->0.len(),
    {
        match self {
            MemoryBankController::NoMbc(m) => (m.rom.len(), match &m.ram { Some(r) => Some(r.len()), None => None }),
            MemoryBankController::Mbc1(m) => (m.rom.len(), match &m.ram { Some(r) => Some(r.len()), None => None }),
            MemoryBankController::Mbc3(m) => (m.rom.len(), match &m.ram { Some(r) => Some(r.len()), None => None }),
            MemoryBankController::Mbc5(m) => (m.rom.len(), match &m.ram { Some(r) => Some(r.len()), None => None }),
        }
    }

    /// The bank registers.
    pub fn bank_control(&self) -> (control: BankControl)
        ensures
            control == self@.bank_control(),
    {
        match self {
            MemoryBankController::NoMbc(_) => BankControl { rom_bank: 0, ram_bank: 0, ram_enabled: false },
            MemoryBankController::Mbc1(m) => BankControl { rom_bank: m.rom_bank as u16, ram_bank: m.ram_bank, ram_enabled: m.ram_enabled },
            MemoryBankController::Mbc3(m) => BankControl { rom_bank: m.rom_bank as u16, ram_bank: m.ram_bank, ram_enabled: m.ram_enabled },
            MemoryBankController::Mbc5(m) => BankControl { rom_bank: m.rom_bank, ram_bank: m.ram_bank, ram_enabled: m.ram_enabled },
        }
    }

    /// Whether `address` could be read with the bank registers of `control`.
    pub fn readable_with(&self, control: BankControl, address: u16) -> (readable: bool)
        ensures
            readable == self@.with_bank_control(control).readable(address),
    {
        let kind = self.kind();
        let (rom_len, ram_len) = self.sizes();
        if address <= 0x7FFF {
            let index: usize = match kind {
                MbcKind::NoMbc => address as usize,
                _ => if address <= 0x3FFF {
                    address as usize
                } else {
                    control.rom_bank as usize * 0x4000 + (address as usize - 0x4000)
                },
            };
            index < rom_len
        } else if 0xA000 <= address && address <= 0xBFFF {
            match kind {
                MbcKind::NoMbc => match ram_len {
                    Some(n) => (address as usize - 0xA000) < n,
                    None => true,
                },
                _ => match ram_len {
                    Some(n) => !control.ram_enabled || control.ram_bank as usize * 0x2000 + (
                    address as usize - 0xA000) < n,
                    None => true,
                },
            }
        } else {
            match kind {
                MbcKind::NoMbc => false,
                _ => true,
            }
        }
    }

    /// Whether `address` could be written with the bank registers of
    /// `control`.
    pub fn writable_with(&self, control: BankControl, address: u16) -> (writable: bool)
        ensures
            writable == self@.with_bank_control(control).writable(address),
    {
        let kind = self.kind();
        let (_, ram_len) = self.sizes();
        match kind {
            MbcKind::NoMbc => match ram_len {
                Some(n) => address >= 0xA000 && (address as usize - 0xA000) < n,
                None => true,
            },
            _ => if 0xA000 <= address && address <= 0xBFFF && control.ram_enabled {
                match ram_len {
                    Some(n) => control.ram_bank as usize * 0x2000 + (address as usize - 0xA000) < n,
                    None => true,
                }
            } else {
                true
            },
        }
    }

    /// The bank registers after `value` is written to `address`, starting
    /// from those of `control`.
    pub fn bank_control_after(&self, control: BankControl, address: u16, value: u8) -> (after:
        BankControl)
        ensures
            after == self@.with_bank_control(control).written(address, value).bank_control(),
    {
        let kind = self.kind();
        match kind {
            MbcKind::NoMbc => control,
            MbcKind::Mbc1 => if address <= 0x1FFF {
                BankControl { ram_enabled: (value & 0x0F) == 0x0A, ..control }
            } else if address <= 0x3FFF {
                let bank = value & 0x1F;
                BankControl {
                    rom_bank: if bank == 0 {
                        1
                    } else {
                        bank as u16
                    },
                    ..control
                }
            } else if address <= 0x5FFF {
                BankControl { ram_bank: value & 0x03, ..control }
            } else {
                control
            },
            MbcKind::Mbc3 => if address <= 0x1FFF {
                BankControl { ram_enabled: (value & 0x0F) == 0x0A, ..control }
            } else if address <= 0x3FFF {
                let bank = value & 0x7F;
                BankControl {
                    rom_bank: if bank == 0 {
                        1
                    } else {
                        bank as u16
                    },
                    ..control
                }
            } else if address <= 0x5FFF {
                BankControl { ram_bank: value & 0x03, ..control }
            } else {
                control
            },
            MbcKind::Mbc5 => if address <= 0x1FFF {
                BankControl { ram_enabled: (value & 0x0F) == 0x0A, ..control }
            } else if address <= 0x2FFF {
                BankControl { rom_bank: (control.rom_bank & 0x100) | (value as u16), ..control }
            } else if address <= 0x3FFF {
                BankControl {
                    rom_bank: (control.rom_bank & 0xFF) | ((value as u16 & 0x01) << 8),
                    ..control
                }
            } else if address <= 0x5FFF {
                BankControl { ram_bank: value & 0x0F, ..control }
            } else {
                control
            },
        }
    }
}

} // verus!
