//! The sound registers (0xFF10 - 0xFF26) and the wave pattern RAM
//! (0xFF30 - 0xFF3F). The sound unit only stores what the program writes.
use vstd::prelude::*;

verus! {

pub struct APU {
    pub nr10: u8,  // 0xFF10 - NR10: Channel 1 Sweep Register
    pub nr11: u8,  // 0xFF11 - NR11: Channel 1 Sound Length/Wave Pattern Duty
    pub nr12: u8,  // 0xFF12 - NR12: Channel 1 Volume Envelope
    pub nr13: u8,  // 0xFF13 - NR13: Channel 1 Frequency Low
    pub nr14: u8,  // 0xFF14 - NR14: Channel 1 Frequency High
    pub nr21: u8,  // 0xFF16 - NR21: Channel 2 Sound Length/Wave Pattern Duty
    pub nr22: u8,  // 0xFF17 - NR22: Channel 2 Volume Envelope
    pub nr23: u8,  // 0xFF18 - NR23: Channel 2 Frequency Low
    pub nr24: u8,  // 0xFF19 - NR24: Channel 2 Frequency High
    pub nr30: u8,  // 0xFF1A - NR30: Channel 3 Sound On/Off
    pub nr31: u8,  // 0xFF1B - NR31: Channel 3 Sound Length
    pub nr32: u8,  // 0xFF1C - NR32: Channel 3 Output Level
    pub nr33: u8,  // 0xFF1D - NR33: Channel 3 Frequency Low
    pub nr34: u8,  // 0xFF1E - NR34: Channel 3 Frequency High
    pub nr41: u8,  // 0xFF20 - NR41: Channel 4 Sound Length
    pub nr42: u8,  // 0xFF21 - NR42: Channel 4 Volume Envelope
    pub nr43: u8,  // 0xFF22 - NR43: Channel 4 Polynomial Counter
    pub nr44: u8,  // 0xFF23 - NR44: Channel 4 Counter/Consecutive; Initial
    pub nr50: u8,  // 0xFF24 - NR50: Channel Control/Volume Control
    pub nr51: u8,  // 0xFF25 - NR51: Selection of Sound Output Terminal
    pub nr52: u8,  // 0xFF26 - NR52: Sound On/Off
    pub wave_pattern_ram: [u8; 16],
}

/// Whether `address` names a sound register or a byte of wave RAM.
/// 0xFF15 and 0xFF1F lie between the registers but name none.
pub open spec fn is_apu_address(address: u16) -> bool {
    (0xFF10 <= address <= 0xFF26 && address != 0xFF15 && address != 0xFF1F) || (0xFF30 <= address
        <= 0xFF3F)
}

impl APU {
    /// The value that the register or wave RAM byte at `address` holds.
    pub open spec fn register(&self, address: u16) -> u8 {
        if 0xFF30 <= address <= 0xFF3F {
            self.wave_pattern_ram@[address - 0xFF30]
        } else if address == 0xFF10 {
            self.nr10
        } else if address == 0xFF11 {
            self.nr11
        } else if address == 0xFF12 {
            self.nr12
        } else if address == 0xFF13 {
            self.nr13
        } else if address == 0xFF14 {
            self.nr14
        } else if address == 0xFF16 {
            self.nr21
        } else if address == 0xFF17 {
            self.nr22
        } else if address == 0xFF18 {
            self.nr23
        } else if address == 0xFF19 {
            self.nr24
        } else if address == 0xFF1A {
            self.nr30
        } else if address == 0xFF1B {
            self.nr31
        } else if address == 0xFF1C {
            self.nr32
        } else if address == 0xFF1D {
            self.nr33
        } else if address == 0xFF1E {
            self.nr34
        } else if address == 0xFF20 {
            self.nr41
        } else if address == 0xFF21 {
            self.nr42
        } else if address == 0xFF22 {
            self.nr43
        } else if address == 0xFF23 {
            self.nr44
        } else if address == 0xFF24 {
            self.nr50
        } else if address == 0xFF25 {
            self.nr51
        } else {
            self.nr52
        }
    }

    pub fn new() -> (apu: Self)
        ensures
            apu@ == Map::new(|a: u16| is_apu_address(a), |a: u16| 0u8),
    {
        APU {
            nr10: 0,
            nr11: 0,
            nr12: 0,
            nr13: 0,
            nr14: 0,
            nr21: 0,
            nr22: 0,
            nr23: 0,
            nr24: 0,
            nr30: 0,
            nr31: 0,
            nr32: 0,
            nr33: 0,
            nr34: 0,
            nr41: 0,
            nr42: 0,
            nr43: 0,
            nr44: 0,
            nr50: 0,
            nr51: 0,
            nr52: 0,
            wave_pattern_ram: [0;16],
        }
    }
    pub fn read_byte(&self, address: u16) -> (r: u8)
        requires
            is_apu_address(address),
        ensures
            r == self@[address],
    {
        match address {
            0xFF10 => self.nr10,
            0xFF11 => self.nr11,
            0xFF12 => self.nr12,
            0xFF13 => self.nr13,
            0xFF14 => self.nr14,
            0xFF16 => self.nr21,
            0xFF17 => self.nr22,
            0xFF18 => self.nr23,
            0xFF19 => self.nr24,
            0xFF1A => self.nr30,
            0xFF1B => self.nr31,
            0xFF1C => self.nr32,
            0xFF1D => self.nr33,
            0xFF1E => self.nr34,
            0xFF20 => self.nr41,
            0xFF21 => self.nr42,
            0xFF22 => self.nr43,
            0xFF23 => self.nr44,
            0xFF24 => self.nr50,
            0xFF25 => self.nr51,
            0xFF26 => self.nr52,
            _ => self.wave_pattern_ram[address as usize - 0xFF30],
        }
    }

    pub fn write_byte(&mut self, address: u16, value: u8)
        requires
            is_apu_address(address),
        ensures
            final(self)@ == old(self)@.insert(address, value),
    {
        match address {
            0xFF10 => self.nr10 = value,
            0xFF11 => self.nr11 = value,
            0xFF12 => self.nr12 = value,
            0xFF13 => self.nr13 = value,
            0xFF14 => self.nr14 = value,
            0xFF16 => self.nr21 = value,
            0xFF17 => self.nr22 = value,
            0xFF18 => self.nr23 = value,
            0xFF19 => self.nr24 = value,
            0xFF1A => self.nr30 = value,
            0xFF1B => self.nr31 = value,
            0xFF1C => self.nr32 = value,
            0xFF1D => self.nr33 = value,
            0xFF1E => self.nr34 = value,
            0xFF20 => self.nr41 = value,
            0xFF21 => self.nr42 = value,
            0xFF22 => self.nr43 = value,
            0xFF23 => self.nr44 = value,
            0xFF24 => self.nr50 = value,
            0xFF25 => self.nr51 = value,
            0xFF26 => self.nr52 = value,
            _ => self.wave_pattern_ram[address as usize - 0xFF30] = value,
        }
        assert(self@ =~= old(self)@.insert(address, value));
    }
}

impl View for APU {
    type V = Map<u16, u8>;

    /// The registers and wave RAM bytes, each by its address.
    open spec fn view(&self) -> Map<u16, u8> {
        Map::new(|a: u16| is_apu_address(a), |a: u16| self.register(a))
    }
}

} // verus!
