//! The decisions of the front end that do not need a window: how host keys
//! map to console buttons and when the run should stop.

use vstd::prelude::*;
use crate::bus::Bus;
use crate::buttons::Button;
use crate::interrupts::{Interrupts, with_bit, JOYPAD_BIT};

verus! {

/// What the front end asks of the main loop after handling its events.
#[derive(Clone, Copy, PartialEq, Eq, Structural, Debug)]
pub enum FrontendStatus {
    Running,
    Quit,
    Error,
}

/// The host keys the front end recognises.
#[derive(Clone, Copy, PartialEq, Eq, Structural, Debug)]
pub enum Key {
    Left,
    Right,
    Up,
    Down,
    /// Mapped to Start.
    A,
    /// Mapped to Select.
    S,
    /// Mapped to the A button.
    X,
    /// Mapped to the B button.
    Y,
    Escape,
    Other,
}

/// The console button a host key stands for.
pub open spec fn button_for(key: Key) -> Option<Button> {
    match key {
        Key::Left => Some(Button::Left),
        Key::Right => Some(Button::Right),
        Key::Up => Some(Button::Up),
        Key::Down => Some(Button::Down),
        Key::A => Some(Button::Start),
        Key::S => Some(Button::Select),
        Key::X => Some(Button::A),
        Key::Y => Some(Button::B),
        _ => None,
    }
}

pub struct Controller {}

impl Controller {
    pub fn new() -> (r: Controller) {
        Controller {}
    }

    pub fn button_for(&self, key: Key) -> (r: Option<Button>)
        ensures
            r == button_for(key),
    {
        match key {
            Key::Left => Some(Button::Left),
            Key::Right => Some(Button::Right),
            Key::Up => Some(Button::Up),
            Key::Down => Some(Button::Down),
            Key::A => Some(Button::Start),
            Key::S => Some(Button::Select),
            Key::X => Some(Button::A),
            Key::Y => Some(Button::B),
            _ => None,
        }
    }

    /// Handles a key going down (`pressed`) or up: Escape pressed quits;
    /// a mapped key updates its button, and a change of its state requests
    /// the joypad interrupt (IF bit 4); any other key leaves the bus as it was.
    pub fn update(&self, key: Key, pressed: bool, bus: &mut Bus) -> (r: FrontendStatus)
        ensures
            r == if key == Key::Escape && pressed {
                FrontendStatus::Quit
            } else {
                FrontendStatus::Running
            },
            match button_for(key) {
                Some(b) => {
                    &&& final(bus).buttons == old(bus).buttons.with_pressed(b, pressed)
                    &&& final(bus).interrupts == if old(bus).buttons.pressed_spec(b) != pressed {
                        Interrupts {
                            request_register: with_bit(
                                old(bus).interrupts.request_register,
                                JOYPAD_BIT,
                                true,
                            ),
                            ..old(bus).interrupts
                        }
                    } else {
                        old(bus).interrupts
                    }
                    &&& *final(bus) == (Bus {
                        buttons: final(bus).buttons,
                        interrupts: final(bus).interrupts,
                        ..*old(bus)
                    })
                },
                None => *final(bus) == *old(bus),
            },
    {
        if key == Key::Escape {
            return if pressed {
                FrontendStatus::Quit
            } else {
                FrontendStatus::Running
            };
        }
        match self.button_for(key) {
            Some(b) => bus.set_button(b, pressed),
            None => {},
        }
        FrontendStatus::Running
    }
}

} // verus!
