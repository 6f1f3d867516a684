//! The joypad register at FF00: two rows of four keys selected by software.

use vstd::prelude::*;

verus! {

/// The eight keys of the console.
#[derive(Clone, Copy, PartialEq, Eq, Structural, Debug)]
pub enum Button {
    Up,
    Down,
    Left,
    Right,
    A,
    B,
    Start,
    Select,
}

/// Key states (`true` = pressed) and the row selection last written by
/// software (`true` = row selected).
#[derive(Clone, Copy)]
pub struct Buttons {
    pub left: bool,
    pub right: bool,
    pub up: bool,
    pub down: bool,
    pub a: bool,
    pub b: bool,
    pub start: bool,
    pub select: bool,
    pub directions: bool,
    pub actions: bool,
}

/// Low-nibble bit value: 0 when the key is pressed in a selected row.
pub open spec fn key_bit(dir_key: bool, act_key: bool, dirs: bool, acts: bool, weight: int) -> int {
    if (dirs && dir_key) || (acts && act_key) {
        0
    } else {
        weight
    }
}

impl Buttons {
    /// The value read from FF00: bits 7..6 read 1, bits 5..4 the selectors as
    /// written (active low), bits 3..0 read 0 for a pressed key of a selected row.
    pub open spec fn register_spec(&self) -> u8 {
        (0xC0
            + (if self.actions { 0int } else { 0x20 })
            + (if self.directions { 0int } else { 0x10 })
            + key_bit(self.right, self.a, self.directions, self.actions, 1)
            + key_bit(self.left, self.b, self.directions, self.actions, 2)
            + key_bit(self.up, self.select, self.directions, self.actions, 4)
            + key_bit(self.down, self.start, self.directions, self.actions, 8)) as u8
    }

    pub open spec fn pressed_spec(&self, button: Button) -> bool {
        match button {
            Button::Up => self.up,
            Button::Down => self.down,
            Button::Left => self.left,
            Button::Right => self.right,
            Button::A => self.a,
            Button::B => self.b,
            Button::Start => self.start,
            Button::Select => self.select,
        }
    }

    pub open spec fn with_pressed(&self, button: Button, value: bool) -> Buttons {
        match button {
            Button::Up => Buttons { up: value, ..*self },
            Button::Down => Buttons { down: value, ..*self },
            Button::Left => Buttons { left: value, ..*self },
            Button::Right => Buttons { right: value, ..*self },
            Button::A => Buttons { a: value, ..*self },
            Button::B => Buttons { b: value, ..*self },
            Button::Start => Buttons { start: value, ..*self },
            Button::Select => Buttons { select: value, ..*self },
        }
    }

    /// All keys released, no row selected.
    pub fn new() -> (r: Buttons)
        ensures
            !r.left && !r.right && !r.up && !r.down,
            !r.a && !r.b && !r.start && !r.select,
            !r.directions && !r.actions,
    {
        Buttons {
            left: false,
            right: false,
            up: false,
            down: false,
            a: false,
            b: false,
            start: false,
            select: false,
            directions: false,
            actions: false,
        }
    }

    pub fn pressed(&self, button: Button) -> (r: bool)
        ensures
            r == self.pressed_spec(button),
    {
        match button {
            Button::Up => self.up,
            Button::Down => self.down,
            Button::Left => self.left,
            Button::Right => self.right,
            Button::A => self.a,
            Button::B => self.b,
            Button::Start => self.start,
            Button::Select => self.select,
        }
    }

    pub fn set(&mut self, button: Button, value: bool)
        ensures
            *final(self) == old(self).with_pressed(button, value),
    {
        match button {
            Button::Up => self.up = value,
            Button::Down => self.down = value,
            Button::Left => self.left = value,
            Button::Right => self.right = value,
            Button::A => self.a = value,
            Button::B => self.b = value,
            Button::Start => self.start = value,
            Button::Select => self.select = value,
        }
    }

    pub fn set_left(&mut self, value: bool)
        ensures
            *final(self) == (Buttons { left: value, ..*old(self) }),
    {
        self.left = value;
    }

    pub fn set_right(&mut self, value: bool)
        ensures
            *final(self) == (Buttons { right: value, ..*old(self) }),
    {
        self.right = value;
    }

    pub fn set_up(&mut self, value: bool)
        ensures
            *final(self) == (Buttons { up: value, ..*old(self) }),
    {
        self.up = value;
    }

    pub fn set_down(&mut self, value: bool)
        ensures
            *final(self) == (Buttons { down: value, ..*old(self) }),
    {
        self.down = value;
    }

    pub fn set_a(&mut self, value: bool)
        ensures
            *final(self) == (Buttons { a: value, ..*old(self) }),
    {
        self.a = value;
    }

    pub fn set_b(&mut self, value: bool)
        ensures
            *final(self) == (Buttons { b: value, ..*old(self) }),
    {
        self.b = value;
    }

    pub fn set_start(&mut self, value: bool)
        ensures
            *final(self) == (Buttons { start: value, ..*old(self) }),
    {
        self.start = value;
    }

    pub fn set_select(&mut self, value: bool)
        ensures
            *final(self) == (Buttons { select: value, ..*old(self) }),
    {
        self.select = value;
    }

    fn key_bit(dir_key: bool, act_key: bool, dirs: bool, acts: bool, weight: u8) -> (r: u8)
        ensures
            r == key_bit(dir_key, act_key, dirs, acts, weight as int),
    {
        if (dirs && dir_key) || (acts && act_key) {
            0
        } else {
            weight
        }
    }

    pub fn fetch8(&self) -> (r: u8)
        ensures
            r == self.register_spec(),
    {
        let mut v: u8 = 0xC0;
        if !self.actions {
            v = v + 0x20;
        }
        if !self.directions {
            v = v + 0x10;
        }
        v = v + Buttons::key_bit(self.right, self.a, self.directions, self.actions, 1);
        v = v + Buttons::key_bit(self.left, self.b, self.directions, self.actions, 2);
        v = v + Buttons::key_bit(self.up, self.select, self.directions, self.actions, 4);
        v = v + Buttons::key_bit(self.down, self.start, self.directions, self.actions, 8);
        v
    }

    /// Bit 4 low selects the direction row, bit 5 low the action row.
    pub fn write8(&mut self, value: u8)
        ensures
            *final(self) == (Buttons {
                directions: (value / 16) % 2 == 0,
                actions: (value / 32) % 2 == 0,
                ..*old(self)
            }),
    {
        self.directions = (value / 16) % 2 == 0;
        self.actions = (value / 32) % 2 == 0;
    }
}

} // verus!
