use crate::bits::bit_is_set;
use crate::cpu::alu::{alu_with_bit, test_bit, with_bit};
use vstd::prelude::*;

verus! {

/// The address of the joypad register.
pub const JOYPAD: u16 = 0xFF00;

/// A button of the console.
#[derive(Clone, Copy, Debug, PartialEq, Eq, Structural)]
pub enum Button {
    Right,
    Left,
    Up,
    Down,
    A,
    B,
    Select,
    Start,
}

/// A key of the host's keyboard, as far as the joypad tells keys apart.
#[derive(Clone, Copy, Debug, PartialEq, Eq, Structural)]
pub enum Key {
    Right,
    Left,
    Up,
    Down,
    S,
    A,
    Space,
    Enter,
    /// Any other key.
    Other,
}

/// The button that a key of the host stands for, if it stands for one: the
/// arrow keys for the directions, S for A, A for B, the space bar for Select
/// and Enter for Start.
pub open spec fn button_of(key: Key) -> Option<Button> {
    match key {
        Key::Right => Some(Button::Right),
        Key::Left => Some(Button::Left),
        Key::Up => Some(Button::Up),
        Key::Down => Some(Button::Down),
        Key::S => Some(Button::A),
        Key::A => Some(Button::B),
        Key::Space => Some(Button::Select),
        Key::Enter => Some(Button::Start),
        Key::Other => None,
    }
}

impl Button {
    /// Whether the button is one of the four directions, which share one
    /// rail; the other four share the second.
    pub open spec fn is_direction(self) -> bool {
        self == Button::Right || self == Button::Left || self == Button::Up || self
            == Button::Down
    }

    /// The bit of its rail that the button drives.
    pub open spec fn line(self) -> u8 {
        match self {
            Button::Right | Button::A => 0,
            Button::Left | Button::B => 1,
            Button::Up | Button::Select => 2,
            Button::Down | Button::Start => 3,
        }
    }
}

/// The joypad: two rails of four lines each, which are low while their
/// button is down, and the register through which a program selects the rail
/// it reads.
#[derive(Clone, Copy, Debug, PartialEq, Eq, Structural)]
pub struct Joypad {
    /// The joypad interrupt latch.
    pub joypad_irq: bool,
    /// The byte last written to the register. Bit 4, when clear, selects the
    /// direction rail; bit 5, when clear, the action rail.
    pub joypad: u8,
    /// The action rail: Start, Select, B, A in bits 3 to 0.
    pub ssba: u8,
    /// The direction rail: Down, Up, Left, Right in bits 3 to 0.
    pub dulr: u8,
}

impl Joypad {
    /// The joypad at power-on: no button down, both rails selected.
    pub open spec fn power_on() -> Joypad {
        Joypad { joypad_irq: false, joypad: 0, ssba: 0xF, dulr: 0xF }
    }

    /// Whether the program has selected the direction rail.
    pub open spec fn directions_selected(self) -> bool {
        !bit_is_set(self.joypad, 4)
    }

    /// Whether the program has selected the action rail.
    pub open spec fn actions_selected(self) -> bool {
        !bit_is_set(self.joypad, 5)
    }

    /// Whether the rail of a button is selected.
    pub open spec fn selected(self, button: Button) -> bool {
        if button.is_direction() {
            self.directions_selected()
        } else {
            self.actions_selected()
        }
    }

    /// Whether a button's line is high, which it is while the button is up.
    pub open spec fn line_high(self, button: Button) -> bool {
        if button.is_direction() {
            bit_is_set(self.dulr, button.line() as int)
        } else {
            bit_is_set(self.ssba, button.line() as int)
        }
    }

    /// The joypad after a button goes down or up. The button's line goes low
    /// or high. The interrupt latch is set when a line of a selected rail
    /// goes from high to low.
    pub open spec fn key_model(self, button: Button, pressed: bool) -> Joypad {
        let falls = pressed && self.line_high(button) && self.selected(button);
        let irq = self.joypad_irq || falls;
        if button.is_direction() {
            Joypad { dulr: with_bit(self.dulr, button.line(), !pressed), joypad_irq: irq, ..self }
        } else {
            Joypad { ssba: with_bit(self.ssba, button.line(), !pressed), joypad_irq: irq, ..self }
        }
    }

    /// The joypad after a key of the host goes down or up: a key that stands
    /// for no button changes nothing.
    pub open spec fn host_key_model(self, key: Key, pressed: bool) -> Joypad {
        match button_of(key) {
            Some(button) => self.key_model(button, pressed),
            None => self,
        }
    }

    /// The low nibble of the register: the lines of the selected rail, the
    /// lines of both rails combined when both are selected, and all high
    /// when none is.
    pub open spec fn lines(self) -> u8 {
        if self.directions_selected() && self.actions_selected() {
            (self.dulr & self.ssba) % 16
        } else if self.actions_selected() {
            self.ssba % 16
        } else if self.directions_selected() {
            self.dulr % 16
        } else {
            0xF
        }
    }

    /// The byte that a read of the register returns: the two upper bits
    /// set, the two select bits as written, and the lines.
    pub open spec fn read_model(self) -> u8 {
        (0xC0 + (self.joypad as int / 16 % 4) * 16 + self.lines()) as u8
    }

    /// The joypad after a write to the register.
    pub open spec fn write_model(self, value: u8) -> Joypad {
        Joypad { joypad: value, ..self }
    }

    pub fn new() -> (joypad: Joypad)
        ensures
            joypad == Joypad::power_on(),
    {
        Joypad { joypad_irq: false, joypad: 0x0, dulr: 0xF, ssba: 0xF }
    }

    /// Records that a button went down or up.
    pub fn handle_key(&mut self, button: Button, pressed: bool)
        ensures
            *final(self) == old(self).key_model(button, pressed),
    {
        let line: u8 = match button {
            Button::Right | Button::A => 0,
            Button::Left | Button::B => 1,
            Button::Up | Button::Select => 2,
            Button::Down | Button::Start => 3,
        };
        match button {
            Button::Right | Button::Left | Button::Up | Button::Down => {
                if pressed && test_bit(self.dulr, line) && !test_bit(self.joypad, 4) {
                    self.joypad_irq = true;
                }
                self.dulr = alu_with_bit(self.dulr, line, !pressed);
            },
            _ => {
                if pressed && test_bit(self.ssba, line) && !test_bit(self.joypad, 5) {
                    self.joypad_irq = true;
                }
                self.ssba = alu_with_bit(self.ssba, line, !pressed);
            },
        }
    }

    /// The button that a key of the host stands for.
    pub fn button_for(key: Key) -> (button: Option<Button>)
        ensures
            button == button_of(key),
    {
        match key {
            Key::Right => Some(Button::Right),
            Key::Left => Some(Button::Left),
            Key::Up => Some(Button::Up),
            Key::Down => Some(Button::Down),
            Key::S => Some(Button::A),
            Key::A => Some(Button::B),
            Key::Space => Some(Button::Select),
            Key::Enter => Some(Button::Start),
            Key::Other => None,
        }
    }

    /// Records that a key of the host went down.
    pub fn handle_key_down(&mut self, key: Key)
        ensures
            *final(self) == old(self).host_key_model(key, true),
    {
        match Joypad::button_for(key) {
            Some(button) => self.handle_key(button, true),
            None => {},
        }
    }

    /// Records that a key of the host went up.
    pub fn handle_key_up(&mut self, key: Key)
        ensures
            *final(self) == old(self).host_key_model(key, false),
    {
        match Joypad::button_for(key) {
            Some(button) => self.handle_key(button, false),
            None => {},
        }
    }

    pub fn read_byte(&self, addr: u16) -> (value: u8)
        requires
            addr == JOYPAD,
        ensures
            value == self.read_model(),
            value >= 0xC0,
    {
        let directions = !test_bit(self.joypad, 4);
        let actions = !test_bit(self.joypad, 5);
        let lines: u8 = if directions && actions {
            (self.dulr & self.ssba) % 16
        } else if actions {
            self.ssba % 16
        } else if directions {
            self.dulr % 16
        } else {
            0xF
        };
        0xC0 + (self.joypad / 16 % 4) * 16 + lines
    }

    pub fn write_byte(&mut self, addr: u16, byte: u8)
        requires
            addr == JOYPAD,
        ensures
            *final(self) == old(self).write_model(byte),
    {
        self.joypad = byte;
    }
}

/// The line of a button that is down is low, and the line of a button that
/// has gone down and up again is high.
pub proof fn law_press_release(joypad: Joypad, button: Button)
    ensures
        !joypad.key_model(button, true).line_high(button),
        joypad.key_model(button, true).key_model(button, false).line_high(button),
{
    crate::cpu::alu::lemma_with_bit_reads(joypad.dulr, button.line(), false);
    crate::cpu::alu::lemma_with_bit_reads(joypad.ssba, button.line(), false);
    crate::cpu::alu::lemma_with_bit_reads(
        joypad.key_model(button, true).dulr,
        button.line(),
        true,
    );
    crate::cpu::alu::lemma_with_bit_reads(
        joypad.key_model(button, true).ssba,
        button.line(),
        true,
    );
}

} // verus!
