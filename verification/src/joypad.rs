//! The joypad register (0xFF00). The program selects the direction keys with
//! bit 5 clear and the action keys with bit 4 clear; the eight buttons are
//! held active-low in one byte, direction keys in the low nibble (Right,
//! Left, Up, Down from bit 0) and action keys in the high nibble (A, B,
//! Select, Start from bit 4).
use vstd::prelude::*;
use vstd::string::*;

verus! {

/// Interrupt flag bit of the joypad interrupt.
pub const INTERRUPT_JOYPAD: u8 = 0b00010000;

pub struct JOYPAD {
    buttons: u8,
    select_direction_keys: bool,
    select_action_keys: bool,
    previous_buttons: u8,
}

/// The state of the joypad.
#[verifier::ext_equal]
pub struct JoypadState {
    /// The eight buttons, a clear bit for a pressed button.
    pub buttons: u8,
    pub select_direction_keys: bool,
    pub select_action_keys: bool,
    /// The buttons as they were when a change was last noticed.
    pub previous_buttons: u8,
}

impl JoypadState {
    /// What a read of 0xFF00 gives.
    pub open spec fn register(self) -> u8 {
        let with_directions: u8 = if !self.select_direction_keys {
            (0xFFu8 & (self.buttons | 0xF0u8)) & 0b11101111u8
        } else {
            0xFFu8
        };
        if !self.select_action_keys {
            (with_directions & ((self.buttons >> 4u8) | 0xF0u8)) & 0b11011111u8
        } else {
            with_directions
        }
    }

    /// The joypad after the program writes `value` to 0xFF00.
    pub open spec fn written(self, value: u8) -> JoypadState {
        JoypadState {
            select_direction_keys: (value & 0x20) == 0,
            select_action_keys: (value & 0x10) == 0,
            ..self
        }
    }

    /// The buttons after `button` is pressed or released.
    pub open spec fn with_button(self, button: u8, pressed: bool) -> JoypadState {
        JoypadState {
            buttons: if pressed {
                self.buttons & !button
            } else {
                self.buttons | button
            },
            ..self
        }
    }

    /// Whether a group of keys is selected.
    pub open spec fn any_group_active(self) -> bool {
        !self.select_direction_keys || !self.select_action_keys
    }

    /// Whether the buttons differ from the last noticed state.
    pub open spec fn changed(self) -> bool {
        self.buttons != self.previous_buttons
    }

    /// The joypad after a change, if any, has been noticed.
    pub open spec fn noticed(self) -> JoypadState {
        JoypadState { previous_buttons: self.buttons, ..self }
    }
}

/// Whether `button` is one of the eight button bits.
pub open spec fn is_button(button: u8) -> bool {
    button == 0x01 || button == 0x02 || button == 0x04 || button == 0x08 || button == 0x10
        || button == 0x20 || button == 0x40 || button == 0x80
}

/// With one group of keys selected, a read of 0xFF00 shows each button of
/// that group as a clear bit while it is pressed and a set bit while it is
/// not: a direction key at its own bit, an action key four bits lower.
pub proof fn law_button_read_back(j: JoypadState, button: u8, pressed: bool)
    requires
        is_button(button),
    ensures
        (button <= 0x08 && !j.select_direction_keys && j.select_action_keys) ==> ((j.with_button(
            button,
            pressed,
        ).register() & button) == 0) == pressed,
        (button >= 0x10 && !j.select_action_keys && j.select_direction_keys) ==> ((j.with_button(
            button,
            pressed,
        ).register() & (button >> 4u8)) == 0) == pressed,
{
    let b = j.buttons;
    let nb: u8 = if pressed { b & !button } else { b | button };
    assert(j.with_button(button, pressed).buttons == nb);
    if pressed {
        assert(is_button(button) ==> (b & !button) & button == 0
            && ((b & !button) >> 4u8) & (button >> 4u8) == 0) by (bit_vector);
    } else {
        assert(is_button(button) ==> (b | button) & button == button
            && ((b | button) >> 4u8) & (button >> 4u8) == (button >> 4u8)) by (bit_vector);
    }
    assert(forall|x: u8, m: u8| #![auto] (m == 1 || m == 2 || m == 4 || m == 8) ==> (((0xFFu8 & (x | 0xF0u8)) & 0b11101111u8) & m) == x & m) by (bit_vector);
    assert(forall|x: u8, m: u8| #![auto] (m == 1 || m == 2 || m == 4 || m == 8) ==> (((0xFFu8 & ((x >> 4u8) | 0xF0u8)) & 0b11011111u8) & m) == (x >> 4u8) & m) by (bit_vector);
    assert(is_button(button) && button >= 0x10 ==> (button >> 4u8 == 1 || button >> 4u8 == 2 || button >> 4u8 == 4 || button >> 4u8 == 8)) by (bit_vector);
}

/// The button that `name` names, as its bit in the buttons byte and
/// whether it is an action key: "A", "B", "Select" and "Start" are the
/// action keys, "Right", "Left", "Up" and "Down" the direction keys.
pub open spec fn named_button(name: Seq<char>) -> Option<(u8, bool)> {
    if name == "A"@ {
        Some((0b0001_0000u8, true))
    } else if name == "B"@ {
        Some((0b0010_0000u8, true))
    } else if name == "Select"@ {
        Some((0b0100_0000u8, true))
    } else if name == "Start"@ {
        Some((0b1000_0000u8, true))
    } else if name == "Right"@ {
        Some((0b0000_0001u8, false))
    } else if name == "Left"@ {
        Some((0b0000_0010u8, false))
    } else if name == "Up"@ {
        Some((0b0000_0100u8, false))
    } else if name == "Down"@ {
        Some((0b0000_1000u8, false))
    } else {
        None
    }
}

impl JoypadState {
    /// Whether the program has selected the action keys (`action`) or the
    /// direction keys.
    pub open spec fn group_selected(self, action: bool) -> bool {
        if action {
            self.select_action_keys
        } else {
            self.select_direction_keys
        }
    }

    /// The joypad after the button named `name` is pressed (`pressed`) or
    /// released: only a button of a selected group changes, and an unknown
    /// name changes nothing.
    pub open spec fn with_named_button(self, name: Seq<char>, pressed: bool) -> JoypadState {
        match named_button(name) {
            Some((button, action)) => if self.group_selected(action) {
                self.with_button(button, pressed)
            } else {
                self
            },
            None => self,
        }
    }
}

/// The buttons byte after `bit` is pressed (`pressed`) or released, when
/// `selected` says its group is selected.
pub open spec fn buttons_after(buttons: u8, bit: u8, selected: bool, pressed: bool) -> u8 {
    if !selected {
        buttons
    } else if pressed {
        buttons & !bit
    } else {
        buttons | bit
    }
}

/// Each name presses its own button: "Right", "Left", "Up" and "Down"
/// clear bit 0, 1, 2 and 3 of the buttons byte while the direction keys
/// are selected, and "A", "B", "Select" and "Start" clear bit 4, 5, 6 and
/// 7 while the action keys are selected; releasing sets the same bit.
pub proof fn law_named_buttons(j: JoypadState, pressed: bool)
    ensures
        j.with_named_button("Right"@, pressed).buttons == buttons_after(
            j.buttons,
            0x01,
            j.select_direction_keys,
            pressed,
        ),
        j.with_named_button("Left"@, pressed).buttons == buttons_after(
            j.buttons,
            0x02,
            j.select_direction_keys,
            pressed,
        ),
        j.with_named_button("Up"@, pressed).buttons == buttons_after(
            j.buttons,
            0x04,
            j.select_direction_keys,
            pressed,
        ),
        j.with_named_button("Down"@, pressed).buttons == buttons_after(
            j.buttons,
            0x08,
            j.select_direction_keys,
            pressed,
        ),
        j.with_named_button("A"@, pressed).buttons == buttons_after(
            j.buttons,
            0x10,
            j.select_action_keys,
            pressed,
        ),
        j.with_named_button("B"@, pressed).buttons == buttons_after(
            j.buttons,
            0x20,
            j.select_action_keys,
            pressed,
        ),
        j.with_named_button("Select"@, pressed).buttons == buttons_after(
            j.buttons,
            0x40,
            j.select_action_keys,
            pressed,
        ),
        j.with_named_button("Start"@, pressed).buttons == buttons_after(
            j.buttons,
            0x80,
            j.select_action_keys,
            pressed,
        ),
{
    reveal_strlit("Right");
    reveal_strlit("Left");
    reveal_strlit("Up");
    reveal_strlit("Down");
    reveal_strlit("A");
    reveal_strlit("B");
    reveal_strlit("Select");
    reveal_strlit("Start");
    assert("A"@.len() == 1 && "B"@.len() == 1 && "Up"@.len() == 2 && "Left"@.len() == 4
        && "Down"@.len() == 4 && "Right"@.len() == 5 && "Start"@.len() == 5 && "Select"@.len()
        == 6);
    assert("B"@ != "A"@) by {
        assert("B"@[0] != "A"@[0]);
    }
    assert("Start"@ != "Right"@) by {
        assert("Start"@[0] != "Right"@[0]);
    }
    assert("Down"@ != "Left"@) by {
        assert("Down"@[0] != "Left"@[0]);
    }
}

/// Whether `name` is the string `literal`.
fn is_name(name: &str, literal: &str) -> (same: bool)
    ensures
        same == (name@ == literal@),
{
    let length = name.unicode_len();
    if length != literal.unicode_len() {
        return false;
    }
    let mut i: usize = 0;
    while i < length
        invariant
            length == name@.len(),
            length == literal@.len(),
            i <= length,
            forall|j: int| 0 <= j < i ==> name@[j] == literal@[j],
        decreases length - i,
    {
        if name.get_char(i) != literal.get_char(i) {
            return false;
        }
        i += 1;
    }
    assert(name@ =~= literal@);
    true
}

/// The bit and group of the button that `name` names.
fn button_named(name: &str) -> (button: Option<(u8, bool)>)
    ensures
        button == named_button(name@),
{
    if is_name(name, "A") {
        Some((0b0001_0000, true))
    } else if is_name(name, "B") {
        Some((0b0010_0000, true))
    } else if is_name(name, "Select") {
        Some((0b0100_0000, true))
    } else if is_name(name, "Start") {
        Some((0b1000_0000, true))
    } else if is_name(name, "Right") {
        Some((0b0000_0001, false))
    } else if is_name(name, "Left") {
        Some((0b0000_0010, false))
    } else if is_name(name, "Up") {
        Some((0b0000_0100, false))
    } else if is_name(name, "Down") {
        Some((0b0000_1000, false))
    } else {
        None
    }
}

impl View for JOYPAD {
    type V = JoypadState;

    closed spec fn view(&self) -> JoypadState {
        JoypadState {
            buttons: self.buttons,
            select_direction_keys: self.select_direction_keys,
            select_action_keys: self.select_action_keys,
            previous_buttons: self.previous_buttons,
        }
    }
}

impl JOYPAD {
    pub fn new() -> (joypad: Self)
        ensures
            joypad@ == (JoypadState {
                buttons: 0xFF,
                select_direction_keys: true,
                select_action_keys: true,
                previous_buttons: 0xFF,
            }),
    {
        JOYPAD {
            buttons: 0xFF,
            select_direction_keys: true,
            select_action_keys: true,
            previous_buttons: 0xFF,
        }
    }

    pub fn read_byte(&self) -> (r: u8)
        ensures
            r == self@.register(),
    {
        let mut result: u8 = 0xFF;
        if !self.select_direction_keys {
            result &= self.buttons | 0xF0;
            result &= 0b11101111;
        }
        if !self.select_action_keys {
            result &= (self.buttons >> 4) | 0xF0;
            result &= 0b11011111;
        }
        result
    }

    pub fn write_byte(&mut self, value: u8)
        ensures
            final(self)@ == old(self)@.written(value),
    {
        self.select_direction_keys = (value & 0x20) == 0;
        self.select_action_keys = (value & 0x10) == 0;
    }

    pub fn set_button_state(&mut self, button: u8, pressed: bool)
        ensures
            final(self)@ == old(self)@.with_button(button, pressed),
    {
        if pressed {
            self.buttons &= !button;
        } else {
            self.buttons |= button;
        }
    }

    /// Presses the button named `name` ("A", "B", "Select", "Start",
    /// "Right", "Left", "Up" or "Down") if its group is selected; any other
    /// name is ignored.
    pub fn press_button(&mut self, button: &str)
        ensures
            final(self)@ == old(self)@.with_named_button(button@, true),
    {
        match button_named(button) {
            Some((bit, action)) => self.handle_press(bit, action),
            None => {},
        }
    }

    /// Releases the button named `name` if its group is selected; any other
    /// name is ignored.
    pub fn release_button(&mut self, button: &str)
        ensures
            final(self)@ == old(self)@.with_named_button(button@, false),
    {
        match button_named(button) {
            Some((bit, action)) => self.handle_release(bit, action),
            None => {},
        }
    }

    fn handle_press(&mut self, button: u8, action: bool)
        ensures
            final(self)@ == if old(self)@.group_selected(action) {
                old(self)@.with_button(button, true)
            } else {
                old(self)@
            },
    {
        if self.is_group_selected(action) {
            let was_pressed = self.buttons & button == 0;
            if !was_pressed {
                self.set_button_state(button, true);
            } else {
                let buttons = self.buttons;
                assert(buttons & button == 0 ==> buttons & !button == buttons) by (bit_vector);
                assert(self@ =~= old(self)@.with_button(button, true));
            }
        }
    }

    fn handle_release(&mut self, button: u8, action: bool)
        ensures
            final(self)@ == if old(self)@.group_selected(action) {
                old(self)@.with_button(button, false)
            } else {
                old(self)@
            },
    {
        if self.is_group_selected(action) {
            self.set_button_state(button, false);
        }
    }

    fn is_group_selected(&self, action: bool) -> (selected: bool)
        ensures
            selected == self@.group_selected(action),
    {
        if action {
            self.select_action_keys
        } else {
            self.select_direction_keys
        }
    }

    pub fn joypad_state_has_changed(&mut self) -> (changed: bool)
        ensures
            changed == old(self)@.changed(),
            final(self)@ == old(self)@.noticed(),
    {
        let changed = self.buttons != self.previous_buttons;
        if changed {
            self.previous_buttons = self.buttons;
        }
        changed
    }

    pub fn is_any_group_active(&self) -> (active: bool)
        ensures
            active == self@.any_group_active(),
    {
        !self.select_direction_keys || !self.select_action_keys
    }

    /// Notices a change of the buttons and tells whether the joypad
    /// interrupt is to be requested: the buttons changed while a group of
    /// keys is selected.
    pub fn check_for_interrupt(&mut self) -> (request: bool)
        ensures
            request == (old(self)@.changed() && old(self)@.any_group_active()),
            final(self)@ == old(self)@.noticed(),
    {
        self.joypad_state_has_changed() && self.is_any_group_active()
    }
}

} // verus!
