//! The joypad: two select lines and two columns of four active-low keys.

use vstd::prelude::*;

verus! {

/// One of the four action buttons.
#[derive(Clone, Copy, Debug, PartialEq, Eq, Structural)]
pub enum Button {
    A,
    B,
    Start,
    Select,
}

/// One of the four directions of the pad.
#[derive(Clone, Copy, Debug, PartialEq, Eq, Structural)]
pub enum DpadDirection {
    Right,
    Left,
    Up,
    Down,
}

/// A key of the joypad, as a host reports it.
#[derive(Clone, Copy, Debug, PartialEq, Eq, Structural)]
pub enum GbKeyEvent {
    Button(Button),
    Dpad(DpadDirection),
}

/// The bit that a button holds in its column.
pub open spec fn button_bit(b: Button) -> u8 {
    match b {
        Button::A => 0u8,
        Button::B => 1u8,
        Button::Start => 2u8,
        Button::Select => 3u8,
    }
}

/// The bit that a direction holds in its column.
pub open spec fn dpad_bit(d: DpadDirection) -> u8 {
    match d {
        DpadDirection::Right => 0u8,
        DpadDirection::Left => 1u8,
        DpadDirection::Up => 2u8,
        DpadDirection::Down => 3u8,
    }
}

/// The joypad register's state. A key that is held down reads as 0.
#[derive(Clone, Copy, Debug)]
pub struct Btns {
    /// The select lines, in bits 4 and 5.
    pub row: u8,
    /// The action buttons, in bits 0 to 3.
    pub btn_nib: u8,
    /// The directions, in bits 0 to 3.
    pub dpad_nib: u8,
}

impl Btns {
    /// The low nibble of the joypad register: the directions if select line
    /// 4 is low, the buttons if select line 5 is low, both joined by OR if
    /// both lines are low, and all ones if both are high.
    pub open spec fn column_spec(&self) -> u8 {
        let dpad = if self.row & 0x10 == 0 {
            self.dpad_nib & 0x0F
        } else {
            0u8
        };
        let btn = if self.row & 0x20 == 0 {
            self.btn_nib & 0x0F
        } else {
            0u8
        };
        if self.row & 0x10 != 0 && self.row & 0x20 != 0 {
            0x0Fu8
        } else {
            dpad | btn
        }
    }

    /// What a read of the joypad register gives: bits 6 and 7 set, the two
    /// select lines as written, and the column that they pick.
    pub open spec fn data_spec(&self) -> u8 {
        0xC0u8 | (self.row & 0x30) | self.column_spec()
    }

    /// A key is held down, in either column.
    pub open spec fn any_pressed_spec(&self) -> bool {
        self.btn_nib & 0x0F != 0x0F || self.dpad_nib & 0x0F != 0x0F
    }

    /// The state after `key` went down.
    pub open spec fn press_spec(&self, key: GbKeyEvent) -> Btns {
        match key {
            GbKeyEvent::Button(b) => Btns { btn_nib: self.btn_nib & !(1u8 << button_bit(b)), ..*self },
            GbKeyEvent::Dpad(d) => Btns { dpad_nib: self.dpad_nib & !(1u8 << dpad_bit(d)), ..*self },
        }
    }

    /// The state after `key` came up.
    pub open spec fn release_spec(&self, key: GbKeyEvent) -> Btns {
        match key {
            GbKeyEvent::Button(b) => Btns { btn_nib: self.btn_nib | (1u8 << button_bit(b)), ..*self },
            GbKeyEvent::Dpad(d) => Btns { dpad_nib: self.dpad_nib | (1u8 << dpad_bit(d)), ..*self },
        }
    }

    /// The state after `val` was written to the joypad register.
    pub open spec fn pick_row_spec(&self, val: u8) -> Btns {
        Btns { row: (self.row & 0xCF) | (val & 0x30), ..*self }
    }

    /// No key held, both select lines high.
    pub fn new() -> (r: Self)
        ensures
            r == (Btns { row: 0xF0, btn_nib: 0x0F, dpad_nib: 0x0F }),
    {
        Btns { row: 0xF0, btn_nib: 0x0F, dpad_nib: 0x0F }
    }

    /// Records that `key` is held down.
    pub fn press(&mut self, key: GbKeyEvent)
        ensures
            *final(self) == old(self).press_spec(key),
    {
        match key {
            GbKeyEvent::Button(b) => {
                let bit: u8 = button_index(b);
                self.btn_nib = self.btn_nib & !(1u8 << bit);
            },
            GbKeyEvent::Dpad(d) => {
                let bit: u8 = dpad_index(d);
                self.dpad_nib = self.dpad_nib & !(1u8 << bit);
            },
        }
    }

    /// Records that `key` is no longer held down.
    pub fn release(&mut self, key: GbKeyEvent)
        ensures
            *final(self) == old(self).release_spec(key),
    {
        match key {
            GbKeyEvent::Button(b) => {
                let bit: u8 = button_index(b);
                self.btn_nib = self.btn_nib | (1u8 << bit);
            },
            GbKeyEvent::Dpad(d) => {
                let bit: u8 = dpad_index(d);
                self.dpad_nib = self.dpad_nib | (1u8 << bit);
            },
        }
    }

    /// Takes the select lines from bits 4 and 5 of `val`; no other bit of the
    /// register can be written.
    pub fn pick_row(&mut self, val: u8)
        ensures
            *final(self) == old(self).pick_row_spec(val),
    {
        self.row = (self.row & 0xCF) | (val & 0x30);
    }

    /// Reads the joypad register.
    pub fn data(&self) -> (r: u8)
        ensures
            r == self.data_spec(),
    {
        let dpad: u8 = if self.row & 0x10 == 0 {
            self.dpad_nib & 0x0F
        } else {
            0
        };
        let btn: u8 = if self.row & 0x20 == 0 {
            self.btn_nib & 0x0F
        } else {
            0
        };
        let low: u8 = if self.row & 0x10 != 0 && self.row & 0x20 != 0 {
            0x0F
        } else {
            dpad | btn
        };
        0xC0u8 | (self.row & 0x30) | low
    }

    /// Whether a key is held down, in either column.
    pub fn any_pressed(&self) -> (r: bool)
        ensures
            r == self.any_pressed_spec(),
    {
        self.btn_nib & 0x0F != 0x0F || self.dpad_nib & 0x0F != 0x0F
    }
}

/// The bit of a button, as a number.
pub fn button_index(b: Button) -> (r: u8)
    ensures
        r == button_bit(b),
        r < 4,
{
    match b {
        Button::A => 0,
        Button::B => 1,
        Button::Start => 2,
        Button::Select => 3,
    }
}

/// The bit of a direction, as a number.
pub fn dpad_index(d: DpadDirection) -> (r: u8)
    ensures
        r == dpad_bit(d),
        r < 4,
{
    match d {
        DpadDirection::Right => 0,
        DpadDirection::Left => 1,
        DpadDirection::Up => 2,
        DpadDirection::Down => 3,
    }
}

proof fn lemma_compose(sel: u8, d: u8, b: u8)
    by (bit_vector)
    ensures
        (0xC0u8 | (sel & 0x30) | ((d & 0x0F) | (b & 0x0F))) & 0xC0 == 0xC0,
        (0xC0u8 | (sel & 0x30) | ((d & 0x0F) | (b & 0x0F))) & 0x30 == sel & 0x30,
        (0xC0u8 | (sel & 0x30) | ((d & 0x0F) | 0u8)) & 0xC0 == 0xC0,
        (0xC0u8 | (sel & 0x30) | ((d & 0x0F) | 0u8)) & 0x30 == sel & 0x30,
        (0xC0u8 | (sel & 0x30) | (0u8 | (b & 0x0F))) & 0xC0 == 0xC0,
        (0xC0u8 | (sel & 0x30) | (0u8 | (b & 0x0F))) & 0x30 == sel & 0x30,
        (0xC0u8 | (sel & 0x30) | 0x0Fu8) & 0xC0 == 0xC0,
        (0xC0u8 | (sel & 0x30) | 0x0Fu8) & 0x30 == sel & 0x30,
        (0xC0u8 | (sel & 0x30) | 0x0Fu8) & 0x0F == 0x0F,
{
}

proof fn lemma_select(row: u8, val: u8)
    by (bit_vector)
    ensures
        ((row & 0xCF) | (val & 0x30)) & 0x30 == val & 0x30,
        val & 0x30 == 0x30 ==> ((row & 0xCF) | (val & 0x30)) & 0x10 != 0 && ((row & 0xCF) | (val
            & 0x30)) & 0x20 != 0,
{
}

/// The joypad register always reads with bits 6 and 7 set and gives back the
/// select lines that were last written; with both lines high its low nibble
/// reads as all ones.
pub proof fn lemma_data_fixed_bits(b: Btns, val: u8)
    ensures
        b.data_spec() & 0xC0 == 0xC0,
        b.pick_row_spec(val).data_spec() & 0x30 == val & 0x30,
        (val & 0x30 == 0x30) ==> b.pick_row_spec(val).data_spec() & 0x0F == 0x0F,
{
    let r2 = (b.row & 0xCF) | (val & 0x30);
    lemma_compose(b.row, b.dpad_nib, b.btn_nib);
    lemma_compose(r2, b.dpad_nib, b.btn_nib);
    lemma_select(b.row, val);
}

} // verus!
