//! The console: a CPU with the memory map and devices behind it, run one
//! step at a time until the picture unit finishes a frame.
//!
//! A step runs one instruction (after taking an interrupt, if one is due),
//! finishes a transfer into OAM if one was asked for, and lets the picture
//! unit and the timer count the instruction's cycles; then the joypad is
//! checked for changes. Each device requests its interrupts as it goes.
use vstd::prelude::*;
use crate::cartridge::CARTRIDGE;
use crate::cpu::CPU;
use crate::cpu::decode;
use crate::cpu::isa::CpuState;
use crate::joypad;
use crate::mbc;
use crate::mmu::{self, MMU, MemState};
use crate::ppu::PpuState;
use crate::timer;

verus! {

pub struct EMULATOR {
    cpu: CPU,
}

/// Why the console could not finish a step. Each is a point at which the
/// console would otherwise stop with a fault.
pub enum EmulationFault {
    /// The next instruction (or the interrupt before it) cannot complete:
    /// an opcode outside the instruction set, a program counter or stack
    /// pointer that leaves its range, or a byte that the memory map cannot
    /// serve.
    Instruction,
    /// A transfer into OAM from memory that the picture unit serves itself
    /// or that cannot be read.
    Transfer,
    /// The picture unit's counters or line number leave their range, or it
    /// would draw below the screen.
    Video,
    /// The timer's counters leave their range.
    Timer,
    /// No frame was finished within the step budget.
    NoFrame,
}

/// The memory after the instruction's `cycles` have been counted by the
/// devices: the transfer into OAM, the picture unit, the timer and the
/// joypad check, each requesting its interrupts.
pub open spec fn devices_after(m: MemState, cycles: u16) -> MemState {
    let m1 = m.dma_done();
    let m2 = MemState {
        ppu: m1.ppu.ticked(cycles),
        ..m1.requested(m1.ppu.tick_requests(cycles))
    };
    let m3 = MemState {
        timer: m2.timer.after(cycles),
        ..if m2.timer.overflows(cycles) {
            m2.requested(timer::INTERRUPT_TIMER)
        } else {
            m2
        }
    };
    MemState {
        joypad: m3.joypad.noticed(),
        ..if m3.joypad.changed() && m3.joypad.any_group_active() {
            m3.requested(joypad::INTERRUPT_JOYPAD)
        } else {
            m3
        }
    }
}

/// The state after one step, before the frame flag is looked at.
pub open spec fn stepped(s: CpuState) -> CpuState {
    let t = decode::tick(s);
    CpuState { mem: devices_after(t.mem, t.cycles), ..t }
}

/// Whether a step finishes a frame.
pub open spec fn finishes_frame(s: CpuState) -> bool {
    stepped(s).mem.ppu.frame_ready
}

/// The state after one step: a finished frame is taken off the picture
/// unit's flag.
pub open spec fn step(s: CpuState) -> CpuState {
    let t = stepped(s);
    if t.mem.ppu.frame_ready {
        CpuState {
            mem: MemState { ppu: PpuState { frame_ready: false, ..t.mem.ppu }, ..t.mem },
            ..t
        }
    } else {
        t
    }
}

/// The fault, if any, that a step meets.
pub open spec fn step_fault(s: CpuState) -> Option<EmulationFault> {
    let t = decode::tick(s);
    let m1 = t.mem.dma_done();
    let m2 = MemState {
        ppu: m1.ppu.ticked(t.cycles),
        ..m1.requested(m1.ppu.tick_requests(t.cycles))
    };
    if !decode::can_tick(s) {
        Some(EmulationFault::Instruction)
    } else if !t.mem.dma_readable() {
        Some(EmulationFault::Transfer)
    } else if !m1.ppu.can_tick(t.cycles) {
        Some(EmulationFault::Video)
    } else if !m2.timer.can_count(t.cycles) {
        Some(EmulationFault::Timer)
    } else {
        None
    }
}

/// The state that a step leaves when it meets a fault: the work done
/// before the fault was met stays done.
pub open spec fn failed_step(s: CpuState) -> CpuState {
    let t = decode::tick(s);
    let m1 = t.mem.dma_done();
    let m2 = MemState {
        ppu: m1.ppu.ticked(t.cycles),
        ..m1.requested(m1.ppu.tick_requests(t.cycles))
    };
    if !decode::can_tick(s) {
        decode::failed_tick(s)
    } else if !t.mem.dma_readable() {
        t
    } else if !m1.ppu.can_tick(t.cycles) {
        CpuState { mem: m1, ..t }
    } else {
        CpuState { mem: m2, ..t }
    }
}

/// Whether `n` steps from `s` all complete, none of them finishing a
/// frame, and end in `t`.
pub open spec fn runs_without_frame(s: CpuState, t: CpuState, n: nat) -> bool
    decreases n,
{
    if n == 0 {
        s == t
    } else {
        step_fault(s) is None && !finishes_frame(s) && runs_without_frame(step(s), t, (n - 1) as nat)
    }
}

/// Whether the steps from `s` finish a frame in their `n`-th step, all of
/// them completing, and end in `t`.
pub open spec fn runs_to_frame(s: CpuState, t: CpuState, n: nat) -> bool
    decreases n,
{
    if n == 0 {
        false
    } else if step_fault(s) is None && finishes_frame(s) {
        n == 1 && step(s) == t
    } else {
        step_fault(s) is None && runs_to_frame(step(s), t, (n - 1) as nat)
    }
}

/// Steps without a frame followed by a step that finishes one run to the
/// frame.
proof fn lemma_runs_extend(s: CpuState, t: CpuState, n: nat)
    requires
        runs_without_frame(s, t, n),
        step_fault(t) is None,
        finishes_frame(t),
    ensures
        runs_to_frame(s, step(t), n + 1),
    decreases n,
{
    if n > 0 {
        lemma_runs_extend(step(s), t, (n - 1) as nat);
    }
}

/// Steps without a frame followed by one more such step.
proof fn lemma_runs_append(s: CpuState, t: CpuState, n: nat)
    requires
        runs_without_frame(s, t, n),
        step_fault(t) is None,
        !finishes_frame(t),
    ensures
        runs_without_frame(s, step(t), n + 1),
    decreases n,
{
    reveal_with_fuel(runs_without_frame, 2);
    if n > 0 {
        lemma_runs_append(step(s), t, (n - 1) as nat);
    }
}

/// The console as it is when it is switched on with a cartridge of type
/// `cartridge_type` holding `rom`, with RAM of `ram_size` bytes and the
/// saved RAM `saved_ram`.
pub open spec fn power_on_state(
    cartridge_type: u8,
    rom: Seq<u8>,
    ram_size: Option<u32>,
    saved_ram: Option<Seq<u8>>,
) -> CpuState {
    CpuState {
        a: 0,
        b: 0,
        c: 0,
        d: 0,
        e: 0,
        f: 0,
        h: 0,
        l: 0,
        pc: 0,
        sp: 0,
        ime: false,
        halted: false,
        cycles: 0,
        mem: mmu::initial_memory(cartridge_type, rom, ram_size, saved_ram),
    }
}

/// The joypad after the eight buttons are set, each pressed when its
/// state is 0.
pub open spec fn buttons_set(
    j: joypad::JoypadState,
    up: u8,
    down: u8,
    left: u8,
    right: u8,
    a: u8,
    b: u8,
    start: u8,
    select: u8,
) -> joypad::JoypadState {
    j.with_button(0b00000100, up == 0).with_button(0b00001000, down == 0).with_button(
        0b00000010,
        left == 0,
    ).with_button(0b00000001, right == 0).with_button(0b00010000, a == 0).with_button(
        0b00100000,
        b == 0,
    ).with_button(0b10000000, start == 0).with_button(0b01000000, select == 0)
}

/// The console `s` with the eight buttons set, each pressed when its
/// state is 0.
pub open spec fn with_buttons(
    s: CpuState,
    up: u8,
    down: u8,
    left: u8,
    right: u8,
    a: u8,
    b: u8,
    start: u8,
    select: u8,
) -> CpuState {
    CpuState {
        mem: MemState {
            joypad: buttons_set(s.mem.joypad, up, down, left, right, a, b, start, select),
            ..s.mem
        },
        ..s
    }
}

/// Whether running the console from `s` to the end of a frame can end in
/// `t` with `result`: the screen once a step finishes a frame, all steps
/// before it completing; a fault that a step meets, all steps before it
/// completing and none finishing a frame, with what the failed step left
/// behind; or no frame within the step budget.
pub open spec fn renders(s: CpuState, t: CpuState, result: Result<Vec<u32>, EmulationFault>) -> bool {
    match result {
        Ok(screen) => screen@ == t.mem.ppu.screen && exists|n: nat| runs_to_frame(s, t, n),
        Err(EmulationFault::NoFrame) => runs_without_frame(s, t, u64::MAX as nat),
        Err(fault) => exists|u: CpuState, n: nat|
            runs_without_frame(s, u, n) && step_fault(u) == Some(fault) && t == failed_step(u),
    }
}

impl View for EMULATOR {
    type V = CpuState;

    closed spec fn view(&self) -> CpuState {
        self.cpu@
    }
}

impl EMULATOR {
    pub fn new(cartridge: CARTRIDGE) -> (emulator: Self)
        requires
            mbc::is_supported_type(cartridge.cartridge_type),
        ensures
            emulator@ == power_on_state(
                cartridge.cartridge_type,
                cartridge.rom@,
                cartridge.ram_size,
                mbc::ram_view(cartridge.saved_ram),
            ),
    {
        let mmu = MMU::new(cartridge);
        let cpu = CPU::new(mmu);
        EMULATOR { cpu }
    }

    /// The battery-backed RAM of the cartridge, for saving.
    pub fn save_ram(&self) -> (saved: Option<Vec<u8>>)
        ensures
            mbc::ram_view(saved) == self@.mem.mbc.saved(),
    {
        self.cpu.mmu.save_ram()
    }

    /// Sets the eight buttons; a button whose state is 0 is pressed and
    /// any other state releases it.
    pub fn set_button_states(
        &mut self,
        up: u8,
        down: u8,
        left: u8,
        right: u8,
        a: u8,
        b: u8,
        start: u8,
        select: u8,
    )
        ensures
            final(self)@ == with_buttons(old(self)@, up, down, left, right, a, b, start, select),
    {
        let mmu = &mut self.cpu.mmu;
        mmu.set_button_state(0b00000100, up == 0);  // Up
        mmu.set_button_state(0b00001000, down == 0);  // Down
        mmu.set_button_state(0b00000010, left == 0);  // Left
        mmu.set_button_state(0b00000001, right == 0);  // Right
        mmu.set_button_state(0b00010000, a == 0);  // A
        mmu.set_button_state(0b00100000, b == 0);  // B
        mmu.set_button_state(0b10000000, start == 0);  // Start
        mmu.set_button_state(0b01000000, select == 0);  // Select
    }

    /// Runs one step and tells whether it finished a frame, or which fault
    /// it met.
    pub fn step(&mut self) -> (result: Result<bool, EmulationFault>)
        ensures
            result matches Ok(finished) ==> step_fault(old(self)@) is None && finished
                == finishes_frame(old(self)@) && final(self)@ == step(old(self)@),
            result matches Err(fault) ==> step_fault(old(self)@) == Some(fault) && final(self)@
                == failed_step(old(self)@),
    {
        let ghost s = self@;
        if !self.cpu.try_tick() {
            return Err(EmulationFault::Instruction);
        }
        let cycles = self.cpu.get_cycles();
        if !self.cpu.mmu.dma_ok() {
            return Err(EmulationFault::Transfer);
        }
        self.cpu.mmu.dma_transfer();
        if !self.cpu.mmu.can_tick_ppu(cycles) {
            return Err(EmulationFault::Video);
        }
        self.cpu.mmu.tick_ppu(cycles);
        if !self.cpu.mmu.can_tick_timer(cycles) {
            return Err(EmulationFault::Timer);
        }
        self.cpu.mmu.tick_timer(cycles);
        self.cpu.mmu.check_joypad();
        let frame_ready = self.cpu.mmu.is_frame_ready();
        if frame_ready {
            self.cpu.mmu.reset_frame_ready();
        }
        Ok(frame_ready)
    }

    /// Runs steps until the picture unit finishes a frame and returns the
    /// screen, row by row; stops at the first fault.
    pub fn render_frame(&mut self) -> (result: Result<Vec<u32>, EmulationFault>)
        ensures
            renders(old(self)@, final(self)@, result),
            result matches Ok(screen) ==> screen.len() == 23040,
    {
        let ghost start = self@;
        let ghost mut n: nat = 0;
        let mut steps: u64 = 0;
        while steps < u64::MAX
            invariant
                start == old(self)@,
                runs_without_frame(start, self@, n),
                n == steps,
            decreases u64::MAX - steps,
        {
            let ghost before = self@;
            match self.step() {
                Ok(true) => {
                    proof {
                        lemma_runs_extend(start, before, n);
                    }
                    let screen = self.cpu.mmu.get_screen_buffer();
                    proof {
                        self.cpu.mmu.lemma_sizes();
                    }
                    assert(runs_to_frame(start, self@, n + 1));
                    assert(exists|k: nat| runs_to_frame(start, self@, k));
                    return Ok(screen);
                },
                Ok(false) => {
                    proof {
                        lemma_runs_append(start, before, n);
                        n = n + 1;
                    }
                },
                Err(fault) => {
                    assert(runs_without_frame(start, before, n) && step_fault(before) == Some(fault));
                    assert(exists|u: CpuState, k: nat|
                        runs_without_frame(start, u, k) && step_fault(u) == Some(fault) && self@
                            == failed_step(u));
                    return Err(fault);
                },
            }
            steps += 1;
        }
        assert(runs_without_frame(start, self@, u64::MAX as nat));
        Err(EmulationFault::NoFrame)
    }
}

} // verus!
