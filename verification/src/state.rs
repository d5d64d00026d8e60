//! The abstract machine: what a CHIP-8 interpreter's state is, independent of
//! how it is stored.

use vstd::prelude::*;

verus! {

/// Number of addressable bytes.
pub const MEMORY_SIZE: usize = 4096;

/// Address at which a program image is placed and execution starts.
pub const PROGRAM_START: u16 = 0x200;

/// Number of general registers `V0..VF`.
pub const REGISTER_COUNT: usize = 16;

/// Register that doubles as the carry / no-borrow / collision flag.
pub const FLAG: usize = 0xF;

/// Maximum number of nested calls.
pub const STACK_LIMIT: usize = 16;

/// Number of keys on the hexadecimal keypad.
pub const KEY_COUNT: usize = 16;

/// Framebuffer width in pixels.
pub const SCREEN_WIDTH: usize = 64;

/// Framebuffer height in pixels.
pub const SCREEN_HEIGHT: usize = 32;

/// Number of pixels in the framebuffer, `SCREEN_WIDTH * SCREEN_HEIGHT`.
pub const SCREEN_CELLS: usize = 2048;

/// Address of the first byte of the built-in font.
pub const FONT_BASE: u16 = 0;

/// Bytes per font glyph.
pub const GLYPH_BYTES: u16 = 5;

/// Number of bytes in the built-in font: sixteen glyphs of five rows each.
pub const FONT_SIZE: usize = 80;

/// The built-in glyphs for the hexadecimal digits `0..F`, five rows each,
/// the high nibble of every row holding the four pixels of the glyph.
pub const FONT: [u8; 80] = [
    0xF0, 0x90, 0x90, 0x90, 0xF0,
    0x20, 0x60, 0x20, 0x20, 0x70,
    0xF0, 0x10, 0xF0, 0x80, 0xF0,
    0xF0, 0x10, 0xF0, 0x10, 0xF0,
    0x90, 0x90, 0xF0, 0x10, 0x10,
    0xF0, 0x80, 0xF0, 0x10, 0xF0,
    0xF0, 0x80, 0xF0, 0x90, 0xF0,
    0xF0, 0x10, 0x20, 0x40, 0x40,
    0xF0, 0x90, 0xF0, 0x90, 0xF0,
    0xF0, 0x90, 0xF0, 0x10, 0xF0,
    0xF0, 0x90, 0xF0, 0x90, 0x90,
    0xE0, 0x90, 0xE0, 0x90, 0xE0,
    0xF0, 0x80, 0x80, 0x80, 0xF0,
    0xE0, 0x90, 0x90, 0x90, 0xE0,
    0xF0, 0x80, 0xF0, 0x80, 0xF0,
    0xF0, 0x80, 0xF0, 0x80, 0x80,
];

/// A condition that ends the run. The machine is left as it was before the
/// instruction that raised it.
#[derive(Clone, Copy, Debug, PartialEq, Eq, Structural)]
pub enum Fault {
    /// A call was made with sixteen return addresses already on the stack.
    StackOverflow,
    /// A return was made with no return address on the stack.
    StackUnderflow,
    /// A memory access fell outside `0..MEMORY_SIZE`.
    AddressOutOfRange,
}

/// Whether an instruction that ran without a fault made progress.
#[derive(Clone, Copy, Debug, PartialEq, Eq, Structural)]
pub enum Progress {
    /// The instruction completed.
    Advanced,
    /// The instruction is waiting for a key and must be executed again; the
    /// machine did not change.
    Waiting,
}

/// The mathematical state of the machine.
#[verifier::ext_equal]
pub struct State {
    /// The 4096 memory cells.
    pub memory: Seq<u8>,
    /// The sixteen general registers.
    pub registers: Seq<u8>,
    /// The index register `I`, a memory address.
    pub index: u16,
    /// Address of the next instruction.
    pub pc: u16,
    /// The return addresses, oldest first.
    pub stack: Seq<u16>,
    /// The delay timer.
    pub delay: u8,
    /// The sound timer.
    pub sound: u8,
    /// The framebuffer, row-major: pixel `(x, y)` is at `y * 64 + x`.
    pub screen: Seq<bool>,
    /// The key states, `true` while a key is held down.
    pub keys: Seq<bool>,
}

/// A framebuffer with every pixel unset.
pub open spec fn blank_screen() -> Seq<bool> {
    Seq::new(SCREEN_CELLS as nat, |p: int| false)
}

/// Memory as it is before any program is loaded: the font at `FONT_BASE`,
/// zero elsewhere.
pub open spec fn initial_memory() -> Seq<u8> {
    Seq::new(
        MEMORY_SIZE as nat,
        |a: int|
            if FONT_BASE <= a < FONT_BASE + FONT_SIZE {
                FONT[a - FONT_BASE]
            } else {
                0u8
            },
    )
}

impl State {
    /// The shape every machine state has: the fixed sizes of its parts, an
    /// index register that is a memory address, and a bounded call stack.
    pub open spec fn valid(self) -> bool {
        &&& self.memory.len() == MEMORY_SIZE
        &&& self.registers.len() == REGISTER_COUNT
        &&& self.index < MEMORY_SIZE
        &&& self.stack.len() <= STACK_LIMIT
        &&& self.screen.len() == SCREEN_CELLS
        &&& self.keys.len() == KEY_COUNT
    }

    /// The state of a machine that has just been switched on.
    pub open spec fn initial() -> State {
        State {
            memory: initial_memory(),
            registers: Seq::new(REGISTER_COUNT as nat, |k: int| 0u8),
            index: 0,
            pc: PROGRAM_START,
            stack: Seq::empty(),
            delay: 0,
            sound: 0,
            screen: blank_screen(),
            keys: Seq::new(KEY_COUNT as nat, |k: int| false),
        }
    }

    /// The pixel at column `x`, row `y`.
    pub open spec fn pixel(self, x: int, y: int) -> bool {
        self.screen[y * SCREEN_WIDTH + x]
    }
}

} // verus!
