//! The memory map: which device answers each of the 65536 addresses that
//! the CPU reads and writes.
//!
//! | Addresses     | Device                                        |
//! |---------------|-----------------------------------------------|
//! | 0x0000-0x7FFF | cartridge ROM (boot ROM over 0x0000-0x00FF)   |
//! | 0x8000-0x9FFF | video RAM                                     |
//! | 0xA000-0xBFFF | cartridge RAM                                 |
//! | 0xC000-0xDFFF | work RAM, mirrored at 0xE000-0xFDFF           |
//! | 0xFE00-0xFE9F | object attribute memory                       |
//! | 0xFEA0-0xFEFF | unusable area                                 |
//! | 0xFF00        | joypad                                        |
//! | 0xFF04-0xFF07 | timer                                         |
//! | 0xFF0F        | interrupt flags                               |
//! | 0xFF10-0xFF3F | sound                                         |
//! | 0xFF40-0xFF4B | LCD registers                                 |
//! | 0xFF80-0xFFFE | high RAM                                      |
//! | 0xFFFF        | interrupt enable                              |
//!
//! The other I/O addresses are plain storage; a write of 1 to 0xFF50
//! unmaps the boot ROM.
use vstd::prelude::*;
use crate::apu::{self, APU};
use crate::bootrom::{self, BOOTROM};
use crate::cartridge::CARTRIDGE;
use crate::joypad::{JOYPAD, JoypadState};
use crate::mbc::{self, BankControl, MBC, MbcState, MemoryBankController};
use crate::ppu::{self, PPU, PpuState};
use crate::timer::{TIMER, TimerState};

verus! {

pub struct MMU {
    mbc: MemoryBankController,
    joypad: JOYPAD,
    timer: TIMER,
    apu: APU,
    ppu: PPU,
    bootrom: BOOTROM,
    wram: [u8; 8192],  // Work RAM (0xC000 - 0xDFFF)
    hram: [u8; 127],  // High RAM (0xFF80 - 0xFFFE)
    io: [u8; 71],  // IO
    unusable_area: [u8; 96],
    interrupt_flag: u8,  // Interrupt Flag
    interrupt_enable: u8,  // Interrupt Enable Register
}

/// The state of everything behind the memory map.
#[verifier::ext_equal]
pub struct MemState {
    pub mbc: MbcState,
    pub joypad: JoypadState,
    pub timer: TimerState,
    pub apu: Map<u16, u8>,
    pub ppu: PpuState,
    pub boot_enabled: bool,
    pub boot: Seq<u8>,
    pub wram: Seq<u8>,
    pub hram: Seq<u8>,
    pub io: Seq<u8>,
    pub unusable: Seq<u8>,
    pub interrupt_flag: u8,
    pub interrupt_enable: u8,
}

/// The switches of the memory map that decide which bytes an address
/// reaches: whether the boot ROM is mapped and the bank registers.
#[derive(Clone, Copy)]
pub struct MapControl {
    pub boot_enabled: bool,
    pub bank: BankControl,
}

/// The address of the interrupt flag register.
pub const INTERRUPT_FLAG_ADDRESS: u16 = 0xFF0F;

/// The address of the interrupt enable register.
pub const INTERRUPT_ENABLE_ADDRESS: u16 = 0xFFFF;

/// Whether `address` is served by the picture processing unit itself, so
/// that the unit cannot copy from it into OAM.
pub open spec fn is_dma_blocked_page(page: u8) -> bool {
    (0x80 <= page <= 0x9F) || page == 0xFE || page == 0xFF
}

impl MemState {
    /// The switches that decide which bytes an address reaches.
    pub open spec fn control(self) -> MapControl {
        MapControl { boot_enabled: self.boot_enabled, bank: self.mbc.bank_control() }
    }

    /// The state with the switches of `control`.
    pub open spec fn with_control(self, control: MapControl) -> MemState {
        MemState {
            boot_enabled: control.boot_enabled,
            mbc: self.mbc.with_bank_control(control.bank),
            ..self
        }
    }

    /// Whether two states have the same cartridge layout.
    pub open spec fn same_layout(self, other: MemState) -> bool {
        self.mbc.same_layout(other.mbc)
    }

    /// Whether the boot ROM answers at `address`.
    pub open spec fn boot_maps(self, address: u16) -> bool {
        address <= 0x00FF && self.boot_enabled
    }

    /// Whether a read of `address` completes: reads of cartridge memory
    /// stay inside it, and the sound unit answers only at its registers.
    pub open spec fn readable(self, address: u16) -> bool {
        if address <= 0x7FFF {
            self.boot_maps(address) || self.mbc.readable(address)
        } else if mbc::is_ram_address(address) {
            self.mbc.readable(address)
        } else if 0xFF10 <= address <= 0xFF3F {
            apu::is_apu_address(address) || (0xFF27 <= address <= 0xFF2F)
        } else {
            true
        }
    }

    /// What a read of `address` gives.
    pub open spec fn read(self, address: u16) -> u8 {
        if address <= 0x7FFF {
            if self.boot_maps(address) {
                self.boot[address as int]
            } else {
                self.mbc.read(address)
            }
        } else if address <= 0x9FFF {
            self.ppu.register(address)
        } else if address <= 0xBFFF {
            self.mbc.read(address)
        } else if address <= 0xDFFF {
            self.wram[address - 0xC000]
        } else if address <= 0xFDFF {
            self.wram[address - 0xE000]
        } else if address <= 0xFE9F {
            self.ppu.register(address)
        } else if address <= 0xFEFF {
            self.unusable[address - 0xFEA0]
        } else if address == 0xFF00 {
            self.joypad.register()
        } else if address <= 0xFF03 {
            self.io[address - 0xFF01]
        } else if address <= 0xFF07 {
            self.timer.register(address)
        } else if address <= 0xFF0E {
            self.io[address - 0xFF08 + 3]
        } else if address == 0xFF0F {
            self.interrupt_flag
        } else if address <= 0xFF26 {
            self.apu[address]
        } else if address <= 0xFF2F {
            self.io[address - 0xFF27 + 10]
        } else if address <= 0xFF3F {
            self.apu[address]
        } else if address <= 0xFF4B {
            self.ppu.register(address)
        } else if address <= 0xFF7F {
            self.io[address - 0xFF4C + 19]
        } else if address <= 0xFFFE {
            self.hram[address - 0xFF80]
        } else {
            self.interrupt_enable
        }
    }

    /// Whether a write of `address` completes: writes of cartridge memory
    /// stay inside it, and the sound unit answers only at its registers.
    pub open spec fn writable(self, address: u16) -> bool {
        if address <= 0x7FFF || mbc::is_ram_address(address) {
            self.mbc.writable(address)
        } else if 0xFF10 <= address <= 0xFF3F {
            apu::is_apu_address(address) || (0xFF27 <= address <= 0xFF2F)
        } else {
            true
        }
    }

    /// The state after the program writes `value` to `address`.
    pub open spec fn write(self, address: u16, value: u8) -> MemState {
        if address <= 0x7FFF {
            MemState { mbc: self.mbc.written(address, value), ..self }
        } else if address <= 0x9FFF {
            MemState { ppu: self.ppu.written(address, value), ..self }
        } else if address <= 0xBFFF {
            MemState { mbc: self.mbc.written(address, value), ..self }
        } else if address <= 0xDFFF {
            MemState { wram: self.wram.update(address - 0xC000, value), ..self }
        } else if address <= 0xFDFF {
            MemState { wram: self.wram.update(address - 0xE000, value), ..self }
        } else if address <= 0xFE9F {
            MemState { ppu: self.ppu.written(address, value), ..self }
        } else if address <= 0xFEFF {
            MemState { unusable: self.unusable.update(address - 0xFEA0, value), ..self }
        } else if address == 0xFF00 {
            MemState { joypad: self.joypad.written(value), ..self }
        } else if address <= 0xFF03 {
            MemState { io: self.io.update(address - 0xFF01, value), ..self }
        } else if address <= 0xFF07 {
            MemState { timer: self.timer.written(address, value), ..self }
        } else if address <= 0xFF0E {
            MemState { io: self.io.update(address - 0xFF08 + 3, value), ..self }
        } else if address == 0xFF0F {
            MemState { interrupt_flag: value, ..self }
        } else if address <= 0xFF26 {
            MemState { apu: self.apu.insert(address, value), ..self }
        } else if address <= 0xFF2F {
            MemState { io: self.io.update(address - 0xFF27 + 10, value), ..self }
        } else if address <= 0xFF3F {
            MemState { apu: self.apu.insert(address, value), ..self }
        } else if address <= 0xFF4B {
            MemState { ppu: self.ppu.written(address, value), ..self }
        } else if address == 0xFF50 {
            if value == 0x01 {
                MemState { boot_enabled: false, ..self }
            } else {
                self
            }
        } else if address <= 0xFF7F {
            MemState { io: self.io.update(address - 0xFF4C + 19, value), ..self }
        } else if address <= 0xFFFE {
            MemState { hram: self.hram.update(address - 0xFF80, value), ..self }
        } else {
            MemState { interrupt_enable: value, ..self }
        }
    }

    /// The state with the interrupts of `mask` requested.
    pub open spec fn requested(self, mask: u8) -> MemState {
        MemState { interrupt_flag: self.interrupt_flag | mask, ..self }
    }

    /// Whether a transfer into OAM, if one is asked for, can read its
    /// source: the page is not served by the picture unit itself and every
    /// byte of it can be read.
    pub open spec fn dma_readable(self) -> bool {
        self.ppu.dma_pending ==> !is_dma_blocked_page(self.ppu.dma) && forall|i: int|
            0 <= i < 160 ==> #[trigger] self.readable((self.ppu.dma * 256 + i) as u16)
    }

    /// The 160 bytes that a transfer into OAM copies.
    pub open spec fn dma_block(self) -> Seq<u8> {
        Seq::new(160, |i: int| self.read((self.ppu.dma * 256 + i) as u16))
    }

    /// The state after a transfer into OAM, if one was asked for.
    pub open spec fn dma_done(self) -> MemState {
        MemState { ppu: self.ppu.transferred(self.dma_block()), ..self }
    }
}

/// Whether `address` reaches plain RAM: work RAM, its mirror, or high RAM.
pub open spec fn is_plain_ram(address: u16) -> bool {
    (0xC000 <= address <= 0xFDFF) || (0xFF80 <= address <= 0xFFFE)
}

/// The RAM cell that a plain RAM address reaches: an address of the
/// mirror reaches the work RAM cell 0x2000 below it, and high RAM follows
/// work RAM.
pub open spec fn ram_cell(address: u16) -> int {
    if address <= 0xDFFF {
        address - 0xC000
    } else if address <= 0xFDFF {
        address - 0xE000
    } else {
        0x2000 + (address - 0xFF80)
    }
}

impl MemState {
    /// Whether the memories have the sizes of the hardware, as those of
    /// every memory map have.
    pub open spec fn well_sized(self) -> bool {
        &&& self.wram.len() == 8192
        &&& self.hram.len() == 127
        &&& self.io.len() == 71
        &&& self.unusable.len() == 96
        &&& self.boot.len() == 256
    }
}

/// A write to plain RAM can always be made and is read back, and it
/// leaves every other RAM cell as it was.
pub proof fn law_ram_read_after_write(m: MemState, address: u16, other: u16, value: u8)
    requires
        m.well_sized(),
        is_plain_ram(address),
        is_plain_ram(other),
    ensures
        m.writable(address),
        m.readable(address),
        m.write(address, value).read(address) == value,
        ram_cell(other) != ram_cell(address) ==> m.write(address, value).read(other) == m.read(
            other,
        ),
{
}

/// The area at 0xE000 - 0xFDFF mirrors work RAM: each address reads the
/// byte 0x2000 below it.
pub proof fn law_echo_ram(m: MemState, address: u16)
    requires
        0xE000 <= address <= 0xFDFF,
    ensures
        m.read(address) == m.read((address - 0x2000) as u16),
{
}

/// Writing 1 to 0xFF50 takes the boot ROM off the map, so that the
/// cartridge shows through below 0x0100, and no later write maps it back.
pub proof fn law_boot_rom_unmapped(m: MemState, address: u16, later: u16, value: u8)
    requires
        address <= 0x7FFF,
    ensures
        !m.write(0xFF50, 1).boot_enabled,
        m.write(0xFF50, 1).read(address) == m.mbc.read(address),
        !m.boot_enabled ==> !m.write(later, value).boot_enabled,
{
}

/// A write of `page` to 0xFF46 followed by the transfer copies the 160
/// bytes from `page * 0x100` into OAM, in order, and the transfer is then
/// done.
pub proof fn law_dma_copies_page(m: MemState, page: u8)
    ensures
        m.write(0xFF46, page).dma_done().ppu.oam.len() == 160,
        forall|i: int|
            0 <= i < 160 ==> #[trigger] m.write(0xFF46, page).dma_done().ppu.oam[i] == m.write(
                0xFF46,
                page,
            ).read((page * 256 + i) as u16),
        !m.write(0xFF46, page).dma_done().ppu.dma_pending,
{
}

/// A write keeps the cartridge layout.
pub proof fn lemma_write_layout(m: MemState, address: u16, value: u8)
    requires
        m.writable(address),
    ensures
        m.same_layout(m.write(address, value)),
{
    if address <= 0x7FFF || mbc::is_ram_address(address) {
        mbc::lemma_written_layout(m.mbc, address, value);
    }
}

/// States of the same layout and switches allow the same reads and
/// writes, and a write leaves them with the same switches.
pub proof fn lemma_layout_decides(m1: MemState, m2: MemState, address: u16, value: u8)
    requires
        m1.same_layout(m2),
        m1.control() == m2.control(),
    ensures
        m1.readable(address) == m2.readable(address),
        m1.writable(address) == m2.writable(address),
        m1.write(address, value).control() == m2.write(address, value).control(),
{
    mbc::lemma_layout_decides(m1.mbc, m2.mbc, address, value);
}

/// Setting the switches keeps the layout.
pub proof fn lemma_with_control_layout(m: MemState, control: MapControl)
    ensures
        m.same_layout(m.with_control(control)),
        m.with_control(control).control() == control,
        m.with_control(m.control()) == m,
{
}

impl View for MMU {
    type V = MemState;

    closed spec fn view(&self) -> MemState {
        MemState {
            mbc: self.mbc@,
            joypad: self.joypad@,
            timer: self.timer@,
            apu: self.apu@,
            ppu: self.ppu@,
            boot_enabled: self.bootrom.enabled(),
            boot: self.bootrom.contents(),
            wram: self.wram@,
            hram: self.hram@,
            io: self.io@,
            unusable: self.unusable_area@,
            interrupt_flag: self.interrupt_flag,
            interrupt_enable: self.interrupt_enable,
        }
    }
}

/// The memory map as it is when the console is switched on with
/// `cartridge` in its slot.
pub open spec fn initial_memory(
    cartridge_type: u8,
    rom: Seq<u8>,
    ram_size: Option<u32>,
    saved_ram: Option<Seq<u8>>,
) -> MemState {
    MemState {
        mbc: mbc::initial_state(cartridge_type, rom, ram_size, saved_ram),
        joypad: JoypadState {
            buttons: 0xFF,
            select_direction_keys: true,
            select_action_keys: true,
            previous_buttons: 0xFF,
        },
        timer: TimerState { div: 0, tima: 0, tma: 0, tac: 0, div_counter: 0, tima_counter: 0 },
        apu: Map::new(|a: u16| apu::is_apu_address(a), |a: u16| 0u8),
        ppu: PpuState {
            lcdc: 0,
            stat: 0,
            scy: 0,
            scx: 0,
            ly: 0,
            lyc: 0,
            dma: 0,
            bgp: 0,
            obp0: 0,
            obp1: 0,
            wy: 0,
            wx: 0,
            vram: Seq::new(8192, |i: int| 0u8),
            oam: Seq::new(160, |i: int| 0u8),
            dma_pending: false,
            screen: Seq::new(23040, |i: int| 0u32),
            mode: ppu::MODE_OAM_SEARCH,
            cycles: 0,
            frame_ready: false,
        },
        boot_enabled: true,
        boot: bootrom::boot_program(),
        wram: Seq::new(8192, |i: int| 0u8),
        hram: Seq::new(127, |i: int| 0u8),
        io: Seq::new(71, |i: int| 0u8),
        unusable: Seq::new(96, |i: int| 0u8),
        interrupt_flag: 0,
        interrupt_enable: 0,
    }
}

impl MMU {
    pub fn new(cartridge: CARTRIDGE) -> (mmu: Self)
        requires
            mbc::is_supported_type(cartridge.cartridge_type),
        ensures
            mmu@ == initial_memory(
                cartridge.cartridge_type,
                cartridge.rom@,
                cartridge.ram_size,
                mbc::ram_view(cartridge.saved_ram),
            ),
    {
        let mmu = MMU {
            mbc: mbc::create_mbc(cartridge),
            wram: [0;8192],
            hram: [0;127],
            io: [0;71],
            unusable_area: [0;96],
            interrupt_enable: 0,
            interrupt_flag: 0,
            bootrom: BOOTROM::new(),
            joypad: JOYPAD::new(),
            timer: TIMER::new(),
            apu: APU::new(),
            ppu: PPU::new(),
        };
        assert(mmu.wram@ =~= Seq::new(8192, |i: int| 0u8));
        assert(mmu.hram@ =~= Seq::new(127, |i: int| 0u8));
        assert(mmu.io@ =~= Seq::new(71, |i: int| 0u8));
        assert(mmu.unusable_area@ =~= Seq::new(96, |i: int| 0u8));
        mmu
    }

    /// The memories have their sizes.
    pub proof fn lemma_sizes(&self)
        ensures
            self@.wram.len() == 8192,
            self@.hram.len() == 127,
            self@.io.len() == 71,
            self@.unusable.len() == 96,
            self@.boot.len() == 256,
            self@.ppu.screen.len() == 23040,
            self@.ppu.vram.len() == 8192,
            self@.ppu.oam.len() == 160,
            self@.well_sized(),
    {
        self.ppu.lemma_sizes();
        self.bootrom.lemma_size();
    }

    /// The switches of the memory map.
    pub fn control(&self) -> (control: MapControl)
        ensures
            control == self@.control(),
    {
        MapControl { boot_enabled: self.bootrom.is_enabled(), bank: self.mbc.bank_control() }
    }

    /// Whether `address` could be read with the switches of `control`.
    pub fn readable_with(&self, control: MapControl, address: u16) -> (readable: bool)
        ensures
            readable == self@.with_control(control).readable(address),
    {
        if address <= 0x7FFF {
            (address <= 0x00FF && control.boot_enabled) || self.mbc.readable_with(control.bank, address)
        } else if 0xA000 <= address && address <= 0xBFFF {
            self.mbc.readable_with(control.bank, address)
        } else if 0xFF10 <= address && address <= 0xFF3F {
            (0xFF10 <= address && address <= 0xFF26 && address != 0xFF15 && address != 0xFF1F) || (
            0xFF30 <= address && address <= 0xFF3F) || (0xFF27 <= address && address <= 0xFF2F)
        } else {
            true
        }
    }

    /// Whether `address` could be written with the switches of `control`.
    pub fn writable_with(&self, control: MapControl, address: u16) -> (writable: bool)
        ensures
            writable == self@.with_control(control).writable(address),
    {
        if address <= 0x7FFF || (0xA000 <= address && address <= 0xBFFF) {
            self.mbc.writable_with(control.bank, address)
        } else if 0xFF10 <= address && address <= 0xFF3F {
            (0xFF10 <= address && address <= 0xFF26 && address != 0xFF15 && address != 0xFF1F) || (
            0xFF30 <= address && address <= 0xFF3F) || (0xFF27 <= address && address <= 0xFF2F)
        } else {
            true
        }
    }

    /// The switches after `value` is written to `address`, starting from
    /// those of `control`.
    pub fn control_after(&self, control: MapControl, address: u16, value: u8) -> (after: MapControl)
        ensures
            after == self@.with_control(control).write(address, value).control(),
    {
        let boot_enabled = if address == 0xFF50 && value == 0x01 {
            false
        } else {
            control.boot_enabled
        };
        let bank = if address <= 0x7FFF || (0xA000 <= address && address <= 0xBFFF) {
            self.mbc.bank_control_after(control.bank, address, value)
        } else {
            control.bank
        };
        MapControl { boot_enabled, bank }
    }

    /// Whether a read of `address` completes.
    pub fn is_readable(&self, address: u16) -> (readable: bool)
        ensures
            readable == self@.readable(address),
    {
        proof {
            lemma_with_control_layout(self@, self@.control());
        }
        self.readable_with(self.control(), address)
    }

    /// Whether a write of `address` completes.
    pub fn is_writable(&self, address: u16) -> (writable: bool)
        ensures
            writable == self@.writable(address),
    {
        proof {
            lemma_with_control_layout(self@, self@.control());
        }
        self.writable_with(self.control(), address)
    }

    /// Whether, after `value` is written to `first`, a write of `second`
    /// completes.
    pub fn writable_after(&self, first: u16, value: u8, second: u16) -> (writable: bool)
        requires
            self@.writable(first),
        ensures
            writable == self@.write(first, value).writable(second),
    {
        let control = self.control_after(self.control(), first, value);
        proof {
            let m = self@;
            lemma_with_control_layout(m, m.control());
            lemma_write_layout(m, first, value);
            lemma_with_control_layout(m, control);
            lemma_layout_decides(m.write(first, value), m.with_control(control), second, 0);
        }
        self.writable_with(control, second)
    }

    /// Whether, after `value1` is written to `first` and `value2` to
    /// `second`, a read of `address` completes.
    pub fn readable_after_writes(
        &self,
        first: u16,
        value1: u8,
        second: u16,
        value2: u8,
        address: u16,
    ) -> (readable: bool)
        requires
            self@.writable(first),
            self@.write(first, value1).writable(second),
        ensures
            readable == self@.write(first, value1).write(second, value2).readable(address),
    {
        let control1 = self.control_after(self.control(), first, value1);
        let control2 = self.control_after(control1, second, value2);
        proof {
            let m = self@;
            let m1 = m.write(first, value1);
            let m2 = m1.write(second, value2);
            lemma_with_control_layout(m, m.control());
            lemma_write_layout(m, first, value1);
            lemma_with_control_layout(m, control1);
            lemma_layout_decides(m1, m.with_control(control1), second, value2);
            lemma_write_layout(m1, second, value2);
            lemma_with_control_layout(m, control2);
            lemma_layout_decides(m2, m.with_control(control2), address, 0);
        }
        self.readable_with(control2, address)
    }

    pub fn fetch_instruction(&self, pc: u16) -> (opcode: u8)
        requires
            self@.readable(pc),
        ensures
            opcode == self@.read(pc),
    {
        self.read_byte(pc)
    }

    pub fn fetch_u8(&self, pc: u16) -> (value: u8)
        requires
            self@.readable(pc),
        ensures
            value == self@.read(pc),
    {
        self.read_byte(pc)
    }

    pub fn fetch_i8(&self, pc: u16) -> (value: i8)
        requires
            self@.readable(pc),
        ensures
            value as int == crate::bits::signed8(self@.read(pc)),
    {
        let byte = self.read_byte(pc);
        if byte < 128 {
            byte as i8
        } else {
            (byte as i16 - 256) as i8
        }
    }

    pub fn read_byte(&self, address: u16) -> (value: u8)
        requires
            self@.readable(address),
        ensures
            value == self@.read(address),
    {
        proof {
            self.lemma_sizes();
        }
        match address {
            0x0000..=0x7FFF => {
                if address <= 0x00FF && self.bootrom.is_enabled() {
                    self.bootrom.read_byte(address)
                } else {
                    self.mbc.read_byte(address)
                }
            },
            0x8000..=0x9FFF => self.ppu.read_byte(address),
            0xA000..=0xBFFF => self.mbc.read_byte(address),
            0xC000..=0xDFFF => self.wram[address as usize - 0xC000],
            0xE000..=0xFDFF => self.wram[address as usize - 0xE000],
            0xFE00..=0xFE9F => self.ppu.read_byte(address),
            0xFEA0..=0xFEFF => self.unusable_area[address as usize - 0xFEA0],
            0xFF00 => self.joypad.read_byte(),
            0xFF01..=0xFF03 => self.io[address as usize - 0xFF01],
            0xFF04..=0xFF07 => self.timer.read_byte(address),
            0xFF08..=0xFF0E => self.io[address as usize - 0xFF08 + 3],
            0xFF0F => self.interrupt_flag,
            0xFF10..=0xFF26 => self.apu.read_byte(address),
            0xFF27..=0xFF2F => self.io[address as usize - 0xFF27 + 10],
            0xFF30..=0xFF3F => self.apu.read_byte(address),
            0xFF40..=0xFF4B => self.ppu.read_byte(address),
            0xFF4C..=0xFF7F => self.io[address as usize - 0xFF4C + 19],
            0xFF80..=0xFFFE => self.hram[address as usize - 0xFF80],
            _ => self.interrupt_enable,
        }
    }

    pub fn write_byte(&mut self, address: u16, value: u8)
        requires
            old(self)@.writable(address),
        ensures
            final(self)@ == old(self)@.write(address, value),
    {
        proof {
            self.lemma_sizes();
        }
        match address {
            0x0000..=0x7FFF => self.mbc.write_byte(address, value),
            0x8000..=0x9FFF => self.ppu.write_byte(address, value),
            0xA000..=0xBFFF => self.mbc.write_byte(address, value),
            0xC000..=0xDFFF => self.wram[address as usize - 0xC000] = value,
            0xE000..=0xFDFF => self.wram[address as usize - 0xE000] = value,
            0xFE00..=0xFE9F => self.ppu.write_byte(address, value),
            0xFEA0..=0xFEFF => self.unusable_area[address as usize - 0xFEA0] = value,
            0xFF00 => self.joypad.write_byte(value),
            0xFF01..=0xFF03 => self.io[address as usize - 0xFF01] = value,
            0xFF04..=0xFF07 => self.timer.write_byte(address, value),
            0xFF08..=0xFF0E => self.io[address as usize - 0xFF08 + 3] = value,
            0xFF0F => self.interrupt_flag = value,
            0xFF10..=0xFF26 => self.apu.write_byte(address, value),
            0xFF27..=0xFF2F => self.io[address as usize - 0xFF27 + 10] = value,
            0xFF30..=0xFF3F => self.apu.write_byte(address, value),
            0xFF40..=0xFF4B => self.ppu.write_byte(address, value),
            0xFF50 => {
                if value == 0x01 {
                    self.bootrom.disable();
                }
            },
            0xFF4C..=0xFF7F => self.io[address as usize - 0xFF4C + 19] = value,
            0xFF80..=0xFFFE => self.hram[address as usize - 0xFF80] = value,
            _ => self.interrupt_enable = value,
        }
    }

    /// The battery-backed RAM of the cartridge, for saving.
    pub fn save_ram(&self) -> (saved: Option<Vec<u8>>)
        ensures
            mbc::ram_view(saved) == self@.mbc.saved(),
    {
        self.mbc.save_ram()
    }

    /// Sets the bits of `mask` in the interrupt flag register.
    pub fn request_interrupt(&mut self, mask: u8)
        ensures
            final(self)@ == old(self)@.requested(mask),
    {
        self.interrupt_flag = self.interrupt_flag | mask;
    }

    /// Carries out a transfer into OAM if the program asked for one,
    /// copying the 160 bytes of the source page through the memory map.
    pub fn dma_transfer(&mut self)
        requires
            old(self)@.dma_readable(),
        ensures
            final(self)@ == old(self)@.dma_done(),
    {
        let ghost m0 = self@;
        let mut block: Vec<u8> = Vec::new();
        if self.ppu.is_dma_pending() {
            let source_address: u16 = (self.ppu.dma_source_page() as u16) * 256;
            let mut i: u16 = 0;
            while i < 0xA0
                invariant
                    i <= 0xA0,
                    self@ == m0,
                    m0.dma_readable(),
                    m0.ppu.dma_pending,
                    source_address == m0.ppu.dma * 256,
                    block@ == m0.dma_block().take(i as int),
                decreases 0xA0 - i,
            {
                let byte = self.read_byte(source_address + i);
                block.push(byte);
                i += 1;
                assert(block@ =~= m0.dma_block().take(i as int));
            }
            assert(block@ =~= m0.dma_block());
        }
        self.ppu.dma_transfer(&block);
    }

    /// Whether a transfer into OAM, if one is asked for, can read its
    /// source.
    pub fn dma_ok(&self) -> (ok: bool)
        ensures
            ok == self@.dma_readable(),
    {
        if !self.ppu.is_dma_pending() {
            return true;
        }
        let page = self.ppu.dma_source_page();
        if (0x80 <= page && page <= 0x9F) || page == 0xFE || page == 0xFF {
            return false;
        }
        let source_address: u16 = (page as u16) * 256;
        let mut i: u16 = 0;
        while i < 0xA0
            invariant
                i <= 0xA0,
                page == self@.ppu.dma,
                self@.ppu.dma_pending,
                source_address == page * 256,
                page < 0xFE,
                forall|j: int| 0 <= j < i ==> #[trigger] self@.readable((self@.ppu.dma * 256 + j) as u16),
            decreases 0xA0 - i,
        {
            if !self.is_readable(source_address + i) {
                return false;
            }
            i += 1;
        }
        true
    }

    /// Whether the picture unit can count `cycles` more cycles.
    pub fn can_tick_ppu(&self, cycles: u16) -> (ok: bool)
        ensures
            ok == self@.ppu.can_tick(cycles),
    {
        self.ppu.can_tick(cycles)
    }

    /// Whether the timer can count `cycles` more cycles.
    pub fn can_tick_timer(&self, cycles: u16) -> (ok: bool)
        ensures
            ok == self@.timer.can_count(cycles),
    {
        self.timer.can_count(cycles)
    }

    /// Counts `cycles` more cycles in the picture unit, requesting the
    /// interrupts that it raises.
    pub fn tick_ppu(&mut self, cycles: u16)
        requires
            old(self)@.ppu.can_tick(cycles),
        ensures
            final(self)@ == (MemState {
                ppu: old(self)@.ppu.ticked(cycles),
                ..old(self)@.requested(old(self)@.ppu.tick_requests(cycles))
            }),
    {
        let requests = self.ppu.tick(cycles);
        self.request_interrupt(requests);
    }

    /// Counts `cycles` more cycles in the timer, requesting the timer
    /// interrupt when TIMA overflows.
    pub fn tick_timer(&mut self, cycles: u16)
        requires
            old(self)@.timer.can_count(cycles),
        ensures
            final(self)@ == (MemState {
                timer: old(self)@.timer.after(cycles),
                ..if old(self)@.timer.overflows(cycles) {
                    old(self)@.requested(crate::timer::INTERRUPT_TIMER)
                } else {
                    old(self)@
                }
            }),
    {
        if self.timer.tick(cycles) {
            self.request_interrupt(crate::timer::INTERRUPT_TIMER);
        }
    }

    /// Notices a change of the joypad, requesting the joypad interrupt when
    /// the buttons changed while a group of keys is selected.
    pub fn check_joypad(&mut self)
        ensures
            final(self)@ == (MemState {
                joypad: old(self)@.joypad.noticed(),
                ..if old(self)@.joypad.changed() && old(self)@.joypad.any_group_active() {
                    old(self)@.requested(crate::joypad::INTERRUPT_JOYPAD)
                } else {
                    old(self)@
                }
            }),
    {
        if self.joypad.check_for_interrupt() {
            self.request_interrupt(crate::joypad::INTERRUPT_JOYPAD);
        }
    }

    /// Presses or releases the buttons of `button`.
    pub fn set_button_state(&mut self, button: u8, pressed: bool)
        ensures
            final(self)@ == (MemState {
                joypad: old(self)@.joypad.with_button(button, pressed),
                ..old(self)@
            }),
    {
        self.joypad.set_button_state(button, pressed);
    }

    pub fn is_frame_ready(&self) -> (ready: bool)
        ensures
            ready == self@.ppu.frame_ready,
    {
        self.ppu.is_frame_ready()
    }

    pub fn reset_frame_ready(&mut self)
        ensures
            final(self)@ == (MemState {
                ppu: PpuState { frame_ready: false, ..old(self)@.ppu },
                ..old(self)@
            }),
    {
        self.ppu.reset_frame_ready();
    }

    /// The screen, row by row.
    pub fn get_screen_buffer(&self) -> (buffer: Vec<u32>)
        ensures
            buffer@ == self@.ppu.screen,
    {
        self.ppu.get_screen_buffer()
    }
}

} // verus!
