//! The keyboard symbols that the machine listens to and the keypad slots
//! they stand for.

use vstd::prelude::*;
use crate::state::State;

verus! {

/// A keyboard symbol. The sixteen named ones are laid out as the 4x4 block
/// `1234 / QWER / ASDF / ZXCV`, which mirrors the hexadecimal keypad
/// `123C / 456D / 789E / A0BF`; every other symbol is `Other`.
#[derive(Clone, Copy, Debug, PartialEq, Eq, Structural)]
pub enum Key {
    Num1,
    Num2,
    Num3,
    Num4,
    Q,
    W,
    E,
    R,
    A,
    S,
    D,
    F,
    Z,
    X,
    C,
    V,
    Other,
}

impl Key {
    /// The keypad slot that the symbol stands for, if it stands for one.
    pub open spec fn slot(self) -> Option<int> {
        match self {
            Key::Num1 => Some(0x1),
            Key::Num2 => Some(0x2),
            Key::Num3 => Some(0x3),
            Key::Num4 => Some(0xC),
            Key::Q => Some(0x4),
            Key::W => Some(0x5),
            Key::E => Some(0x6),
            Key::R => Some(0xD),
            Key::A => Some(0x7),
            Key::S => Some(0x8),
            Key::D => Some(0x9),
            Key::F => Some(0xE),
            Key::Z => Some(0xA),
            Key::X => Some(0x0),
            Key::C => Some(0xB),
            Key::V => Some(0xF),
            Key::Other => None,
        }
    }

    /// The keypad slot that the symbol stands for, if it stands for one.
    pub fn hex(self) -> (slot: Option<u8>)
        ensures
            slot matches Some(k) ==> k < 16 && self.slot() == Some(k as int),
            slot is None ==> self.slot() is None,
    {
        match self {
            Key::Num1 => Some(0x1),
            Key::Num2 => Some(0x2),
            Key::Num3 => Some(0x3),
            Key::Num4 => Some(0xC),
            Key::Q => Some(0x4),
            Key::W => Some(0x5),
            Key::E => Some(0x6),
            Key::R => Some(0xD),
            Key::A => Some(0x7),
            Key::S => Some(0x8),
            Key::D => Some(0x9),
            Key::F => Some(0xE),
            Key::Z => Some(0xA),
            Key::X => Some(0x0),
            Key::C => Some(0xB),
            Key::V => Some(0xF),
            Key::Other => None,
        }
    }
}

impl State {
    /// The same state with the keypad slot of `key` held down or released.
    /// A symbol that stands for no slot changes nothing.
    pub open spec fn with_key(self, key: Key, down: bool) -> State {
        match key.slot() {
            Some(k) => State { keys: self.keys.update(k, down), ..self },
            None => self,
        }
    }
}

} // verus!
