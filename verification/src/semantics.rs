//! What each operation does to the machine, as functions on the abstract
//! state.

use vstd::prelude::*;
use crate::decode::Operation;
use crate::screen::{collides, drawn};
use crate::state::{
    blank_screen, Fault, Progress, State, FLAG, FONT_BASE, GLYPH_BYTES, KEY_COUNT, MEMORY_SIZE,
    PROGRAM_START, REGISTER_COUNT, STACK_LIMIT,
};

verus! {

/// `v` reduced to eight bits.
pub open spec fn wrap8(v: int) -> u8 {
    (v % 0x100) as u8
}

/// `v` reduced to sixteen bits.
pub open spec fn wrap16(v: int) -> u16 {
    (v % 0x1_0000) as u16
}

/// `v` reduced to an address.
pub open spec fn wrap_address(v: int) -> u16 {
    (v % (MEMORY_SIZE as int)) as u16
}

/// Whether the two-byte instruction at `pc` lies inside memory.
pub open spec fn fetchable(pc: u16) -> bool {
    pc + 1 < MEMORY_SIZE
}

/// Whether some key is held down.
pub open spec fn any_key_down(keys: Seq<bool>) -> bool {
    exists|k: int| 0 <= k < keys.len() && keys[k]
}

/// Whether `k` is the lowest-numbered key that is held down.
pub open spec fn is_lowest_key_down(keys: Seq<bool>, k: int) -> bool {
    &&& 0 <= k < keys.len()
    &&& keys[k]
    &&& forall|j: int| 0 <= j < k ==> !keys[j]
}

/// The lowest-numbered key that is held down, if any is.
pub open spec fn lowest_key_down(keys: Seq<bool>) -> int {
    choose|k: int| is_lowest_key_down(keys, k)
}

/// The key that a register value selects: its low four bits.
pub open spec fn key_slot(value: u8) -> int {
    value as int % (KEY_COUNT as int)
}

/// Address of the glyph for `value` in the built-in font.
pub open spec fn glyph_address(value: u8) -> u16 {
    (FONT_BASE + GLYPH_BYTES * value) as u16
}

impl State {
    /// Register `Vx`.
    pub open spec fn v(self, x: u8) -> u8 {
        self.registers[x as int]
    }

    /// The same state with the program counter at `pc`.
    pub open spec fn with_pc(self, pc: u16) -> State {
        State { pc, ..self }
    }

    /// The same state with the program counter moved past `count`
    /// instructions.
    pub open spec fn past(self, count: int) -> State {
        State { pc: wrap16(self.pc + 2 * count), ..self }
    }

    /// The same state with the program counter at the next instruction, or
    /// at the one after it if `skip` holds.
    pub open spec fn stepped(self, skip: bool) -> State {
        self.past(if skip { 2 } else { 1 })
    }

    /// The same state with `Vx = value`.
    pub open spec fn with_register(self, x: u8, value: u8) -> State {
        State { registers: self.registers.update(x as int, value), ..self }
    }

    /// The same state with the flag register holding 1 if `set` and 0 if not.
    pub open spec fn with_flag(self, set: bool) -> State {
        State {
            registers: self.registers.update(FLAG as int, if set { 1u8 } else { 0u8 }),
            ..self
        }
    }

    /// The same state with `I = index`.
    pub open spec fn with_index(self, index: u16) -> State {
        State { index, ..self }
    }

    /// The `height` bytes of memory at `I`.
    pub open spec fn sprite(self, height: u8) -> Seq<u8> {
        self.memory.subrange(self.index as int, self.index + height)
    }

    /// The state after the flag has taken the low bit of `Vx` and register
    /// `x` has then been halved. When `x` is the flag register, it is the
    /// flag just written that is halved.
    pub open spec fn shifted_right(self, x: u8) -> State {
        let flagged = self.with_register(FLAG as u8, self.v(x) % 2);
        flagged.with_register(x, flagged.v(x) / 2)
    }

    /// The state after the flag has taken the high bit of `Vx` and register
    /// `x` has then been doubled, wrapping. When `x` is the flag register, it
    /// is the flag just written that is doubled.
    pub open spec fn shifted_left(self, x: u8) -> State {
        let flagged = self.with_register(FLAG as u8, self.v(x) / 0x80);
        flagged.with_register(x, wrap8(flagged.v(x) * 2))
    }

    /// The state after the sprite at `I` has been drawn with its corner at
    /// `(left, top)`: the pixels it covers toggled, the flag reporting
    /// whether any of them went from set to unset.
    pub open spec fn with_sprite(self, height: u8, left: u8, top: u8) -> State {
        let sprite = self.sprite(height);
        State {
            screen: drawn(self.screen, sprite, left as int, top as int),
            ..self.with_flag(collides(self.screen, sprite, left as int, top as int))
        }
    }

    /// The state after the hundreds, tens and units digits of `value` have
    /// been written at `I`, `I + 1` and `I + 2`.
    pub open spec fn with_digits(self, value: u8) -> State {
        let i = self.index as int;
        State {
            memory: self.memory.update(i, value / 100).update(i + 1, value / 10 % 10).update(
                i + 2,
                value % 10,
            ),
            ..self
        }
    }

    /// The state after `V0..=Vx` have been written at `I..=I + x`.
    pub open spec fn with_registers_dumped(self, x: u8) -> State {
        let i = self.index as int;
        State {
            memory: Seq::new(
                MEMORY_SIZE as nat,
                |a: int|
                    if i <= a <= i + x {
                        self.registers[a - i]
                    } else {
                        self.memory[a]
                    },
            ),
            ..self
        }
    }

    /// The state after `V0..=Vx` have been read from `I..=I + x`.
    pub open spec fn with_registers_loaded(self, x: u8) -> State {
        let i = self.index as int;
        State {
            registers: Seq::new(
                REGISTER_COUNT as nat,
                |k: int|
                    if k <= x {
                        self.memory[i + k]
                    } else {
                        self.registers[k]
                    },
            ),
            ..self
        }
    }
}

/// Whether `op` is a conditional skip whose condition holds in state `s`.
/// The condition is read from the registers and keys as they are before the
/// instruction.
pub open spec fn skips(s: State, op: Operation) -> bool {
    match op {
        Operation::SkipIfEqual { x, value } => s.v(x) == value,
        Operation::SkipIfNotEqual { x, value } => s.v(x) != value,
        Operation::SkipIfRegistersEqual { x, y } => s.v(x) == s.v(y),
        Operation::SkipIfRegistersDiffer { x, y } => s.v(x) != s.v(y),
        Operation::SkipIfKeyDown { x } => s.keys[key_slot(s.v(x))],
        Operation::SkipIfKeyUp { x } => !s.keys[key_slot(s.v(x))],
        _ => false,
    }
}

/// The fatal condition that `op` runs into in state `s`, if any: a return
/// with nothing to return to, a call with the stack full, or an access to
/// memory at or after `I` that reaches past the last cell. A sprite of
/// height zero reads no memory and cannot fault.
pub open spec fn fault_of(s: State, op: Operation) -> Option<Fault> {
    match op {
        Operation::Return => if s.stack.len() == 0 {
            Some(Fault::StackUnderflow)
        } else {
            None
        },
        Operation::Call { .. } => if s.stack.len() >= STACK_LIMIT {
            Some(Fault::StackOverflow)
        } else {
            None
        },
        Operation::Draw { height, .. } => if s.index + height > MEMORY_SIZE {
            Some(Fault::AddressOutOfRange)
        } else {
            None
        },
        Operation::StoreBcd { .. } => if s.index + 2 >= MEMORY_SIZE {
            Some(Fault::AddressOutOfRange)
        } else {
            None
        },
        Operation::DumpRegisters { x } | Operation::LoadRegisters { x } => if s.index + x
            >= MEMORY_SIZE {
            Some(Fault::AddressOutOfRange)
        } else {
            None
        },
        _ => None,
    }
}

/// Whether `op` is a wait for a key that finds no key down in state `s`.
pub open spec fn waits(s: State, op: Operation) -> bool {
    op is WaitKey && !any_key_down(s.keys)
}

/// What executing `op` in state `s` reports.
pub open spec fn outcome(s: State, op: Operation) -> Result<Progress, Fault> {
    match fault_of(s, op) {
        Some(fault) => Err(fault),
        None => Ok(
            if waits(s, op) {
                Progress::Waiting
            } else {
                Progress::Advanced
            },
        ),
    }
}

/// The state that `op` leads to from `s` when it neither faults nor waits.
/// `random` is the byte that the random operation draws; no other operation
/// looks at it.
pub open spec fn effect(s: State, op: Operation, random: u8) -> State {
    match op {
        Operation::ClearScreen => State { screen: blank_screen(), ..s }.past(1),
        Operation::Return => State { pc: s.stack.last(), stack: s.stack.drop_last(), ..s },
        Operation::Jump { target } => s.with_pc(target),
        Operation::Call { target } => State {
            pc: target,
            stack: s.stack.push(wrap16(s.pc + 2)),
            ..s
        },
        Operation::SkipIfEqual { .. }
        | Operation::SkipIfNotEqual { .. }
        | Operation::SkipIfRegistersEqual { .. }
        | Operation::SkipIfRegistersDiffer { .. }
        | Operation::SkipIfKeyDown { .. }
        | Operation::SkipIfKeyUp { .. } => s.stepped(skips(s, op)),
        Operation::Load { x, value } => s.with_register(x, value).past(1),
        Operation::AddImmediate { x, value } => s.with_register(x, wrap8(s.v(x) + value)).past(1),
        Operation::Assign { x, y } => s.with_register(x, s.v(y)).past(1),
        Operation::Or { x, y } => s.with_register(x, s.v(x) | s.v(y)).past(1),
        Operation::And { x, y } => s.with_register(x, s.v(x) & s.v(y)).past(1),
        Operation::Xor { x, y } => s.with_register(x, s.v(x) ^ s.v(y)).past(1),
        Operation::Add { x, y } => s.with_register(x, wrap8(s.v(x) + s.v(y))).with_flag(
            s.v(x) + s.v(y) > 0xFF,
        ).past(1),
        Operation::Subtract { x, y } => s.with_register(x, wrap8(s.v(x) - s.v(y))).with_flag(
            s.v(x) >= s.v(y),
        ).past(1),
        Operation::ShiftRight { x } => s.shifted_right(x).past(1),
        Operation::SubtractReverse { x, y } => s.with_register(
            x,
            wrap8(s.v(y) - s.v(x)),
        ).with_flag(s.v(y) >= s.v(x)).past(1),
        Operation::ShiftLeft { x } => s.shifted_left(x).past(1),
        Operation::SetIndex { address } => s.with_index(address).past(1),
        Operation::JumpOffset { address } => s.with_pc(wrap16(address + s.registers[0])),
        Operation::Random { x, mask } => s.with_register(x, random & mask).past(1),
        Operation::Draw { x, y, height } => s.with_sprite(height, s.v(x), s.v(y)).past(1),
        Operation::GetDelay { x } => s.with_register(x, s.delay).past(1),
        Operation::WaitKey { x } => s.with_register(x, lowest_key_down(s.keys) as u8).past(1),
        Operation::SetDelay { x } => State { delay: s.v(x), ..s }.past(1),
        Operation::SetSound { x } => State { sound: s.v(x), ..s }.past(1),
        Operation::AddIndex { x } => s.with_index(wrap_address(s.index + s.v(x))).past(1),
        Operation::FontAddress { x } => s.with_index(glyph_address(s.v(x))).past(1),
        Operation::StoreBcd { x } => s.with_digits(s.v(x)).past(1),
        Operation::DumpRegisters { x } => s.with_registers_dumped(x).past(1),
        Operation::LoadRegisters { x } => s.with_registers_loaded(x).past(1),
        Operation::Unknown => s.past(1),
    }
}

/// The state after executing `op` in state `s`: unchanged on a fault or a
/// wait, and the operation's effect otherwise.
pub open spec fn successor(s: State, op: Operation, random: u8) -> State {
    if outcome(s, op) == Ok::<Progress, Fault>(Progress::Advanced) {
        effect(s, op, random)
    } else {
        s
    }
}

/// What fetching the instruction at the program counter yields: the two
/// bytes there, high byte first, or a fault if they are not both in memory.
pub open spec fn fetched(s: State) -> Result<u16, Fault> {
    if fetchable(s.pc) {
        Ok((s.memory[s.pc as int] * 0x100 + s.memory[s.pc + 1]) as u16)
    } else {
        Err(Fault::AddressOutOfRange)
    }
}

/// Memory after `image` has been copied to `PROGRAM_START`.
pub open spec fn loaded(memory: Seq<u8>, image: Seq<u8>) -> Seq<u8> {
    Seq::new(
        MEMORY_SIZE as nat,
        |a: int|
            if PROGRAM_START <= a < PROGRAM_START + image.len() {
                image[a - PROGRAM_START]
            } else {
                memory[a]
            },
    )
}

/// A timer after one tick: one less, but never below zero.
pub open spec fn ticked(timer: u8) -> u8 {
    if timer > 0 {
        (timer - 1) as u8
    } else {
        0
    }
}

/// The state after executing `ops` one after another from `s`, or the first
/// fault met on the way. A wait that finds no key down is passed over. The
/// random operation draws `random` every time.
pub open spec fn run(s: State, ops: Seq<Operation>, random: u8) -> Result<State, Fault>
    decreases ops.len(),
{
    if ops.len() == 0 {
        Ok(s)
    } else {
        match outcome(s, ops[0]) {
            Err(fault) => Err(fault),
            Ok(_) => run(successor(s, ops[0], random), ops.skip(1), random),
        }
    }
}

} // verus!
