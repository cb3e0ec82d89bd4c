//! The calls that a front end makes: load a game, run it a frame at a
//! time, pass in the buttons, and unload it, taking its saved RAM along.
//!
//! The console that is running lives in the `Option` that the front end
//! keeps and hands to each call; `None` means that no game is loaded.
use vstd::prelude::*;
use crate::cartridge::{self, CARTRIDGE, HEADER_END};
use crate::emulator::{self, EMULATOR, EmulationFault};
use crate::mbc;
use crate::cpu::isa::CpuState;

verus! {

/// Whether `rom` can be loaded: it holds a whole header, and the header
/// names a memory bank controller that the console has.
pub open spec fn is_loadable(rom: Seq<u8>) -> bool {
    rom.len() >= HEADER_END && mbc::is_supported_type(rom[0x0147])
}

/// The console that loading `rom` with the saved RAM `ram` switches on.
pub open spec fn loaded(rom: Seq<u8>, ram: Option<Seq<u8>>) -> CpuState {
    emulator::power_on_state(rom[0x0147], rom, cartridge::ram_size_of(rom[0x0149]), ram)
}

/// Whether `rom_data` can be loaded: it holds a whole header that names a
/// memory bank controller the console has.
pub fn can_load(rom_data: &Vec<u8>) -> (ok: bool)
    ensures
        ok == is_loadable(rom_data@),
{
    rom_data.len() >= HEADER_END && mbc::is_supported_cartridge_type(rom_data[0x0147])
}

/// Loads the game `rom_data`, with the battery-backed RAM `ram_data` saved
/// from an earlier session, in place of whatever ran before.
pub fn load_rom(instance: &mut Option<EMULATOR>, rom_data: Vec<u8>, ram_data: Option<Vec<u8>>)
    requires
        is_loadable(rom_data@),
    ensures
        *final(instance) matches Some(e) && e@ == loaded(rom_data@, mbc::ram_view(ram_data)),
{
    let cartridge = CARTRIDGE::new(rom_data, ram_data);
    let emulator = EMULATOR::new(cartridge);
    *instance = Some(emulator);
}

/// Unloads the game, if one is loaded, and hands back its battery-backed
/// RAM for saving.
pub fn unload_emulator(instance: &mut Option<EMULATOR>) -> (ram_data: Option<Vec<u8>>)
    ensures
        (*final(instance)).is_none(),
        mbc::ram_view(ram_data) == match *old(instance) {
            Some(e) => e@.mem.mbc.saved(),
            None => None,
        },
{
    let ram_data = match instance {
        Some(emulator) => emulator.save_ram(),
        None => None,
    };
    *instance = None;
    ram_data
}

/// Runs the loaded game to the end of its next frame and hands back the
/// screen; `None` when no game is loaded.
pub fn render_frame(instance: &mut Option<EMULATOR>) -> (screen: Option<
    Result<Vec<u32>, EmulationFault>,
>)
    ensures
        (*old(instance)).is_none() ==> screen.is_none() && (*final(instance)).is_none(),
        *old(instance) matches Some(before) ==> {
            &&& *final(instance) matches Some(after)
            &&& screen matches Some(result)
            &&& emulator::renders(before@, after@, result)
            &&& result matches Ok(v) ==> v.len() == 23040
        },
{
    match instance {
        Some(emulator) => Some(emulator.render_frame()),
        None => None,
    }
}

/// Passes the eight button states to the loaded game, in the order up,
/// down, left, right, A, B, start, select; a state of 0 presses the
/// button. Nothing happens unless exactly eight states are given and a game
/// is loaded.
pub fn set_buttons_state(instance: &mut Option<EMULATOR>, button_states: Vec<u8>)
    ensures
        match *old(instance) {
            Some(before) => *final(instance) matches Some(after) && if button_states.len() == 8 {
                after@ == emulator::with_buttons(
                    before@,
                    button_states@[0],
                    button_states@[1],
                    button_states@[2],
                    button_states@[3],
                    button_states@[4],
                    button_states@[5],
                    button_states@[6],
                    button_states@[7],
                )
            } else {
                after@ == before@
            },
            None => (*final(instance)).is_none(),
        },
{
    match instance {
        Some(emulator) => {
            if button_states.len() == 8 {
                emulator.set_button_states(
                    button_states[0],  // Up
                    button_states[1],  // Down
                    button_states[2],  // Left
                    button_states[3],  // Right
                    button_states[4],  // A
                    button_states[5],  // B
                    button_states[6],  // Start
                    button_states[7],  // Select
                );
            }
        },
        None => {},
    }
}

/// Loading a game and unloading it at once gives back the saved RAM that
/// was loaded, when the cartridge keeps its RAM with a battery and its
/// header names a RAM size; such a cartridge loaded without a save gives
/// back RAM of zeros of that size, and any other cartridge gives none.
pub proof fn law_load_then_unload(rom: Seq<u8>, ram: Option<Seq<u8>>)
    requires
        is_loadable(rom),
    ensures
        loaded(rom, ram).mem.mbc.saved() == if mbc::has_battery(rom[0x0147])
            && cartridge::ram_size_of(rom[0x0149]) is Some {
            match ram {
                Some(r) => Some(r),
                None => Some(
                    Seq::new(cartridge::ram_size_of(rom[0x0149])->0 as nat, |i: int| 0u8),
                ),
            }
        } else {
            None
        },
{
}

/// Same as `load_rom`.
pub fn load(instance: &mut Option<EMULATOR>, rom_data: Vec<u8>, ram_data: Option<Vec<u8>>)
    requires
        is_loadable(rom_data@),
    ensures
        *final(instance) matches Some(e) && e@ == loaded(rom_data@, mbc::ram_view(ram_data)),
{
    load_rom(instance, rom_data, ram_data);
}

/// Same as `unload_emulator`.
pub fn unload(instance: &mut Option<EMULATOR>) -> (ram_data: Option<Vec<u8>>)
    ensures
        (*final(instance)).is_none(),
        mbc::ram_view(ram_data) == match *old(instance) {
            Some(e) => e@.mem.mbc.saved(),
            None => None,
        },
{
    unload_emulator(instance)
}

/// Same as `render_frame`.
pub fn render(instance: &mut Option<EMULATOR>) -> (screen: Option<Result<Vec<u32>, EmulationFault>>)
    ensures
        (*old(instance)).is_none() ==> screen.is_none() && (*final(instance)).is_none(),
        *old(instance) matches Some(before) ==> {
            &&& *final(instance) matches Some(after)
            &&& screen matches Some(result)
            &&& emulator::renders(before@, after@, result)
            &&& result matches Ok(v) ==> v.len() == 23040
        },
{
    render_frame(instance)
}

/// Same as `set_buttons_state`.
pub fn set_buttons(instance: &mut Option<EMULATOR>, button_states: Vec<u8>)
    ensures
        match *old(instance) {
            Some(before) => *final(instance) matches Some(after) && if button_states.len() == 8 {
                after@ == emulator::with_buttons(
                    before@,
                    button_states@[0],
                    button_states@[1],
                    button_states@[2],
                    button_states@[3],
                    button_states@[4],
                    button_states@[5],
                    button_states@[6],
                    button_states@[7],
                )
            } else {
                after@ == before@
            },
            None => (*final(instance)).is_none(),
        },
{
    set_buttons_state(instance, button_states);
}

} // verus!
