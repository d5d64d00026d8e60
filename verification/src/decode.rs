//! Instruction decoding: from a 16-bit word to its fields, and from the
//! fields to the operation they select.

use vstd::prelude::*;

verus! {

/// The addressing fields of an instruction word. Every word has all of
/// them; which ones matter depends on the operation.
#[derive(Clone, Copy, Debug, PartialEq, Eq, Structural)]
pub struct Fields {
    /// Bits 12..16: the instruction family.
    pub family: u8,
    /// Bits 8..12: a register index.
    pub x: u8,
    /// Bits 4..8: a register index.
    pub y: u8,
    /// Bits 0..4: a 4-bit immediate.
    pub n: u8,
    /// Bits 0..8: an 8-bit immediate.
    pub nn: u8,
    /// Bits 0..12: an address.
    pub nnn: u16,
}

/// The fields of `opcode`, by place value.
pub open spec fn fields_of(opcode: u16) -> Fields {
    Fields {
        family: (opcode / 0x1000) as u8,
        x: (opcode / 0x100 % 0x10) as u8,
        y: (opcode / 0x10 % 0x10) as u8,
        n: (opcode % 0x10) as u8,
        nn: (opcode % 0x100) as u8,
        nnn: opcode % 0x1000,
    }
}

impl Fields {
    /// Each field fits the number of bits it was cut from.
    pub open spec fn valid(self) -> bool {
        &&& self.family < 16
        &&& self.x < 16
        &&& self.y < 16
        &&& self.n < 16
        &&& self.nnn < 0x1000
    }
}

/// Splits an instruction word into its fields. Never fails.
pub fn decode(opcode: u16) -> (f: Fields)
    ensures
        f == fields_of(opcode),
        f.valid(),
{
    assert(opcode >> 12 == opcode / 0x1000) by (bit_vector);
    assert((opcode & 0x0F00) >> 8 == opcode / 0x100 % 0x10) by (bit_vector);
    assert((opcode & 0x00F0) >> 4 == opcode / 0x10 % 0x10) by (bit_vector);
    assert(opcode & 0x000F == opcode % 0x10) by (bit_vector);
    assert(opcode & 0x00FF == opcode % 0x100) by (bit_vector);
    assert(opcode & 0x0FFF == opcode % 0x1000) by (bit_vector);
    Fields {
        family: (opcode >> 12) as u8,
        x: ((opcode & 0x0F00) >> 8) as u8,
        y: ((opcode & 0x00F0) >> 4) as u8,
        n: (opcode & 0x000F) as u8,
        nn: (opcode & 0x00FF) as u8,
        nnn: opcode & 0x0FFF,
    }
}

/// What an instruction does, with the operands it uses.
#[derive(Clone, Copy, Debug, PartialEq, Eq, Structural)]
pub enum Operation {
    /// Unset every pixel.
    ClearScreen,
    /// Return from a subroutine.
    Return,
    /// Continue at `target`.
    Jump { target: u16 },
    /// Call the subroutine at `target`.
    Call { target: u16 },
    /// Skip the next instruction if `Vx == value`.
    SkipIfEqual { x: u8, value: u8 },
    /// Skip the next instruction if `Vx != value`.
    SkipIfNotEqual { x: u8, value: u8 },
    /// Skip the next instruction if `Vx == Vy`.
    SkipIfRegistersEqual { x: u8, y: u8 },
    /// `Vx = value`.
    Load { x: u8, value: u8 },
    /// `Vx = Vx + value`, wrapping, flag untouched.
    AddImmediate { x: u8, value: u8 },
    /// `Vx = Vy`.
    Assign { x: u8, y: u8 },
    /// `Vx = Vx | Vy`.
    Or { x: u8, y: u8 },
    /// `Vx = Vx & Vy`.
    And { x: u8, y: u8 },
    /// `Vx = Vx ^ Vy`.
    Xor { x: u8, y: u8 },
    /// `Vx = Vx + Vy`, flag set on carry.
    Add { x: u8, y: u8 },
    /// `Vx = Vx - Vy`, flag set when there is no borrow.
    Subtract { x: u8, y: u8 },
    /// Flag takes the low bit of `Vx`, then `Vx` is halved.
    ShiftRight { x: u8 },
    /// `Vx = Vy - Vx`, flag set when there is no borrow.
    SubtractReverse { x: u8, y: u8 },
    /// Flag takes the high bit of `Vx`, then `Vx` is doubled.
    ShiftLeft { x: u8 },
    /// Skip the next instruction if `Vx != Vy`.
    SkipIfRegistersDiffer { x: u8, y: u8 },
    /// `I = address`.
    SetIndex { address: u16 },
    /// Continue at `address + V0`.
    JumpOffset { address: u16 },
    /// `Vx = random byte & mask`.
    Random { x: u8, mask: u8 },
    /// Draw the `height`-row sprite at `I` with its corner at `(Vx, Vy)`.
    Draw { x: u8, y: u8, height: u8 },
    /// Skip the next instruction if key `Vx` is down.
    SkipIfKeyDown { x: u8 },
    /// Skip the next instruction if key `Vx` is up.
    SkipIfKeyUp { x: u8 },
    /// `Vx = delay timer`.
    GetDelay { x: u8 },
    /// Wait until a key is down, then store its number in `Vx`.
    WaitKey { x: u8 },
    /// `delay timer = Vx`.
    SetDelay { x: u8 },
    /// `sound timer = Vx`.
    SetSound { x: u8 },
    /// `I = I + Vx`, within the address space.
    AddIndex { x: u8 },
    /// `I = address of the glyph for Vx`.
    FontAddress { x: u8 },
    /// Store the decimal digits of `Vx` at `I`, `I + 1`, `I + 2`.
    StoreBcd { x: u8 },
    /// Store `V0..=Vx` at `I..`.
    DumpRegisters { x: u8 },
    /// Load `V0..=Vx` from `I..`.
    LoadRegisters { x: u8 },
    /// Any other word: does nothing.
    Unknown,
}

impl Operation {
    /// Register operands name one of the sixteen registers, addresses fit
    /// twelve bits, and a sprite has at most fifteen rows.
    pub open spec fn valid(self) -> bool {
        match self {
            Operation::ClearScreen | Operation::Return | Operation::Unknown => true,
            Operation::Jump { target } | Operation::Call { target } => target < 0x1000,
            Operation::SetIndex { address } | Operation::JumpOffset { address } => address
                < 0x1000,
            Operation::SkipIfEqual { x, .. }
            | Operation::SkipIfNotEqual { x, .. }
            | Operation::Load { x, .. }
            | Operation::AddImmediate { x, .. }
            | Operation::ShiftRight { x }
            | Operation::ShiftLeft { x }
            | Operation::Random { x, .. }
            | Operation::SkipIfKeyDown { x }
            | Operation::SkipIfKeyUp { x }
            | Operation::GetDelay { x }
            | Operation::WaitKey { x }
            | Operation::SetDelay { x }
            | Operation::SetSound { x }
            | Operation::AddIndex { x }
            | Operation::FontAddress { x }
            | Operation::StoreBcd { x }
            | Operation::DumpRegisters { x }
            | Operation::LoadRegisters { x } => x < 16,
            Operation::SkipIfRegistersEqual { x, y }
            | Operation::Assign { x, y }
            | Operation::Or { x, y }
            | Operation::And { x, y }
            | Operation::Xor { x, y }
            | Operation::Add { x, y }
            | Operation::Subtract { x, y }
            | Operation::SubtractReverse { x, y }
            | Operation::SkipIfRegistersDiffer { x, y } => x < 16 && y < 16,
            Operation::Draw { x, y, height } => x < 16 && y < 16 && height < 16,
        }
    }

    /// Whether the operation sets the program counter itself instead of
    /// letting it step to the next instruction (or the one after, on a skip).
    pub open spec fn sets_pc(self) -> bool {
        match self {
            Operation::Return
            | Operation::Jump { .. }
            | Operation::Call { .. }
            | Operation::JumpOffset { .. }
            | Operation::WaitKey { .. } => true,
            _ => false,
        }
    }
}

/// The operation that the fields `f` select. A combination that selects
/// none is `Unknown`.
pub open spec fn operation_of(f: Fields) -> Operation {
    let Fields { family, x, y, n, nn, nnn } = f;
    if family == 0x0 {
        if nn == 0xE0 {
            Operation::ClearScreen
        } else if nn == 0xEE {
            Operation::Return
        } else {
            Operation::Unknown
        }
    } else if family == 0x1 {
        Operation::Jump { target: nnn }
    } else if family == 0x2 {
        Operation::Call { target: nnn }
    } else if family == 0x3 {
        Operation::SkipIfEqual { x, value: nn }
    } else if family == 0x4 {
        Operation::SkipIfNotEqual { x, value: nn }
    } else if family == 0x5 {
        Operation::SkipIfRegistersEqual { x, y }
    } else if family == 0x6 {
        Operation::Load { x, value: nn }
    } else if family == 0x7 {
        Operation::AddImmediate { x, value: nn }
    } else if family == 0x8 {
        if n == 0x0 {
            Operation::Assign { x, y }
        } else if n == 0x1 {
            Operation::Or { x, y }
        } else if n == 0x2 {
            Operation::And { x, y }
        } else if n == 0x3 {
            Operation::Xor { x, y }
        } else if n == 0x4 {
            Operation::Add { x, y }
        } else if n == 0x5 {
            Operation::Subtract { x, y }
        } else if n == 0x6 {
            Operation::ShiftRight { x }
        } else if n == 0x7 {
            Operation::SubtractReverse { x, y }
        } else if n == 0xE {
            Operation::ShiftLeft { x }
        } else {
            Operation::Unknown
        }
    } else if family == 0x9 {
        Operation::SkipIfRegistersDiffer { x, y }
    } else if family == 0xA {
        Operation::SetIndex { address: nnn }
    } else if family == 0xB {
        Operation::JumpOffset { address: nnn }
    } else if family == 0xC {
        Operation::Random { x, mask: nn }
    } else if family == 0xD {
        Operation::Draw { x, y, height: n }
    } else if family == 0xE {
        if nn == 0x9E {
            Operation::SkipIfKeyDown { x }
        } else if nn == 0xA1 {
            Operation::SkipIfKeyUp { x }
        } else {
            Operation::Unknown
        }
    } else if family == 0xF {
        if nn == 0x07 {
            Operation::GetDelay { x }
        } else if nn == 0x0A {
            Operation::WaitKey { x }
        } else if nn == 0x15 {
            Operation::SetDelay { x }
        } else if nn == 0x18 {
            Operation::SetSound { x }
        } else if nn == 0x1E {
            Operation::AddIndex { x }
        } else if nn == 0x29 {
            Operation::FontAddress { x }
        } else if nn == 0x33 {
            Operation::StoreBcd { x }
        } else if nn == 0x55 {
            Operation::DumpRegisters { x }
        } else if nn == 0x65 {
            Operation::LoadRegisters { x }
        } else {
            Operation::Unknown
        }
    } else {
        Operation::Unknown
    }
}

/// The operation that the word `opcode` encodes.
pub open spec fn operation_of_word(opcode: u16) -> Operation {
    operation_of(fields_of(opcode))
}

impl Fields {
    /// Selects the operation by family and, within the families that have
    /// several, by the low byte or nibble.
    pub fn operation(&self) -> (op: Operation)
        ensures
            op == operation_of(*self),
            self.valid() ==> op.valid(),
    {
        let Fields { family, x, y, n, nn, nnn } = *self;
        match family {
            0x0 => match nn {
                0xE0 => Operation::ClearScreen,
                0xEE => Operation::Return,
                _ => Operation::Unknown,
            },
            0x1 => Operation::Jump { target: nnn },
            0x2 => Operation::Call { target: nnn },
            0x3 => Operation::SkipIfEqual { x, value: nn },
            0x4 => Operation::SkipIfNotEqual { x, value: nn },
            0x5 => Operation::SkipIfRegistersEqual { x, y },
            0x6 => Operation::Load { x, value: nn },
            0x7 => Operation::AddImmediate { x, value: nn },
            0x8 => match n {
                0x0 => Operation::Assign { x, y },
                0x1 => Operation::Or { x, y },
                0x2 => Operation::And { x, y },
                0x3 => Operation::Xor { x, y },
                0x4 => Operation::Add { x, y },
                0x5 => Operation::Subtract { x, y },
                0x6 => Operation::ShiftRight { x },
                0x7 => Operation::SubtractReverse { x, y },
                0xE => Operation::ShiftLeft { x },
                _ => Operation::Unknown,
            },
            0x9 => Operation::SkipIfRegistersDiffer { x, y },
            0xA => Operation::SetIndex { address: nnn },
            0xB => Operation::JumpOffset { address: nnn },
            0xC => Operation::Random { x, mask: nn },
            0xD => Operation::Draw { x, y, height: n },
            0xE => match nn {
                0x9E => Operation::SkipIfKeyDown { x },
                0xA1 => Operation::SkipIfKeyUp { x },
                _ => Operation::Unknown,
            },
            0xF => match nn {
                0x07 => Operation::GetDelay { x },
                0x0A => Operation::WaitKey { x },
                0x15 => Operation::SetDelay { x },
                0x18 => Operation::SetSound { x },
                0x1E => Operation::AddIndex { x },
                0x29 => Operation::FontAddress { x },
                0x33 => Operation::StoreBcd { x },
                0x55 => Operation::DumpRegisters { x },
                0x65 => Operation::LoadRegisters { x },
                _ => Operation::Unknown,
            },
            _ => Operation::Unknown,
        }
    }
}

} // verus!
