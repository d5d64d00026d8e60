//! The machine itself: its storage and the operations on it.

use vstd::prelude::*;
use crate::decode::{decode, operation_of_word, Operation};
use crate::entropy::random_byte;
use crate::keypad::Key;
use crate::screen::draw_sprite;
use crate::semantics::{
    any_key_down, fetched, is_lowest_key_down, loaded, lowest_key_down, outcome, successor,
    ticked, wrap16,
};
use crate::state::{
    blank_screen, Fault, Progress, State, FLAG, FONT, FONT_BASE, FONT_SIZE, GLYPH_BYTES,
    KEY_COUNT, MEMORY_SIZE, PROGRAM_START, REGISTER_COUNT, SCREEN_CELLS, SCREEN_HEIGHT,
    SCREEN_WIDTH, STACK_LIMIT,
};

verus! {

/// A CHIP-8 machine.
///
/// What it holds is its view, a [`State`]; every operation is specified by
/// what it does to that view. Every machine's view is `valid`.
pub struct Processor {
    /// Memory: the font, then the program and its data.
    ram: [u8; MEMORY_SIZE],
    /// `V0..VF`. `VF` is also the carry, no-borrow and collision flag.
    registers: [u8; REGISTER_COUNT],
    /// The index register, always a memory address.
    i: u16,
    delay_timer: u8,
    sound_timer: u8,
    /// Address of the next instruction.
    pc: u16,
    /// Number of return addresses on the stack, at most `STACK_LIMIT`.
    sp: usize,
    /// Return addresses in `stack[..sp]`; the rest is stale.
    stack: [u16; STACK_LIMIT],
    /// The framebuffer, row by row.
    vram: [bool; SCREEN_CELLS],
    /// Key states by keypad slot.
    key: [bool; KEY_COUNT],
}

impl View for Processor {
    type V = State;

    /// The abstract state that the storage holds. Of the stack array only
    /// the slots below the stack pointer are part of it.
    closed spec fn view(&self) -> State {
        State {
            memory: self.ram@,
            registers: self.registers@,
            index: self.i,
            pc: self.pc,
            stack: self.stack@.take(self.sp as int),
            delay: self.delay_timer,
            sound: self.sound_timer,
            screen: self.vram@,
            keys: self.key@,
        }
    }
}

/// The lowest-numbered key that is down is the only key with that property.
proof fn lemma_lowest_key_down(keys: Seq<bool>, k: int)
    requires
        is_lowest_key_down(keys, k),
    ensures
        lowest_key_down(keys) == k,
        any_key_down(keys),
{
    let c = lowest_key_down(keys);
    assert(is_lowest_key_down(keys, c));
    if c < k {
        assert(!keys[c]);
    }
    if k < c {
        assert(!keys[k]);
    }
}

impl Processor {
    /// What the storage must satisfy for the view to be a valid state.
    #[verifier::type_invariant]
    spec fn well_formed(&self) -> bool {
        &&& self.sp <= STACK_LIMIT
        &&& self.i < MEMORY_SIZE
    }

    /// A machine that has just been switched on: the font in low memory,
    /// everything else zero, the program counter at `PROGRAM_START`.
    pub fn new() -> (machine: Processor)
        ensures
            machine@ == State::initial(),
            machine@.valid(),
    {
        let mut ram = [0u8; MEMORY_SIZE];
        let mut k: usize = 0;
        while k < FONT_SIZE
            invariant
                k <= FONT_SIZE,
                forall|a: int|
                    0 <= a < MEMORY_SIZE ==> ram[a] == (if a < k {
                        FONT[a]
                    } else {
                        0u8
                    }),
            decreases FONT_SIZE - k,
        {
            ram[k] = FONT[k];
            k += 1;
        }
        let machine = Processor {
            ram,
            registers: [0u8; REGISTER_COUNT],
            i: 0,
            delay_timer: 0,
            sound_timer: 0,
            pc: PROGRAM_START,
            sp: 0,
            stack: [0u16; STACK_LIMIT],
            vram: [false; SCREEN_CELLS],
            key: [false; KEY_COUNT],
        };
        assert(machine@ =~= State::initial());
        machine
    }

    /// Copies a program image into memory at `PROGRAM_START`. The image is
    /// taken as it is; it must fit between there and the end of memory.
    pub fn load_binary(&mut self, binary: &[u8])
        requires
            PROGRAM_START + binary@.len() <= MEMORY_SIZE,
        ensures
            final(self)@ == (State { memory: loaded(old(self)@.memory, binary@), ..old(self)@ }),
            old(self)@.valid(),
            final(self)@.valid(),
    {
        proof {
            use_type_invariant(&*self);
        }
        let mut k: usize = 0;
        while k < binary.len()
            invariant
                k <= binary@.len(),
                PROGRAM_START + binary@.len() <= MEMORY_SIZE,
                self.well_formed(),
                self@ == (State { memory: self@.memory, ..old(self)@ }),
                forall|a: int|
                    0 <= a < MEMORY_SIZE ==> self@.memory[a] == (if PROGRAM_START <= a
                        < PROGRAM_START + k {
                        binary@[a - PROGRAM_START]
                    } else {
                        old(self)@.memory[a]
                    }),
            decreases binary@.len() - k,
        {
            self.ram[k + PROGRAM_START as usize] = binary[k];
            k += 1;
        }
    }

    /// Reads the instruction at the program counter: two bytes, high byte
    /// first. Fails if they do not both lie in memory.
    pub fn fetch_opcode(&self) -> (word: Result<u16, Fault>)
        ensures
            word == fetched(self@),
            self@.valid(),
    {
        proof {
            use_type_invariant(self);
        }
        let at = self.pc as usize;
        if at + 1 >= MEMORY_SIZE {
            return Err(Fault::AddressOutOfRange);
        }
        let high = self.ram[at];
        let low = self.ram[at + 1];
        assert((high as u16) << 8 | (low as u16) == high * 0x100 + low) by (bit_vector);
        Ok((high as u16) << 8 | (low as u16))
    }

    /// Executes one instruction, with `random` as the byte that the random
    /// operation draws.
    ///
    /// Reports a fault if the instruction returns with an empty stack, calls
    /// with a full one, or reaches past the end of memory; the machine is
    /// then unchanged. Reports `Waiting`, again with the machine unchanged,
    /// if the instruction waits for a key and none is down. Otherwise carries
    /// the instruction out and reports `Advanced`. A word that encodes no
    /// operation only moves the program counter on.
    pub fn execute_opcode_with(&mut self, opcode: u16, random: u8) -> (result: Result<
        Progress,
        Fault,
    >)
        ensures
            result == outcome(old(self)@, operation_of_word(opcode)),
            final(self)@ == successor(old(self)@, operation_of_word(opcode), random),
            old(self)@.valid(),
            final(self)@.valid(),
    {
        proof {
            use_type_invariant(&*self);
        }
        let op = decode(opcode).operation();
        let result = self.perform(op, random);
        proof {
            use_type_invariant(&*self);
        }
        result
    }

    /// Executes one instruction, drawing a fresh random byte if the
    /// instruction is the random operation.
    ///
    /// The result and the new state are those of `execute_opcode_with` for
    /// some byte; for every instruction but the random one they do not
    /// depend on it.
    pub fn execute_opcode(&mut self, opcode: u16) -> (result: Result<Progress, Fault>)
        ensures
            result == outcome(old(self)@, operation_of_word(opcode)),
            exists|random: u8|
                final(self)@ == #[trigger] successor(
                    old(self)@,
                    operation_of_word(opcode),
                    random,
                ),
            !(operation_of_word(opcode) is Random) ==> final(self)@ == successor(
                old(self)@,
                operation_of_word(opcode),
                0,
            ),
            old(self)@.valid(),
            final(self)@.valid(),
    {
        proof {
            use_type_invariant(&*self);
        }
        let op = decode(opcode).operation();
        let random = match op {
            Operation::Random { .. } => random_byte(),
            _ => 0,
        };
        let result = self.perform(op, random);
        proof {
            use_type_invariant(&*self);
        }
        result
    }

    /// Records that a key went down.
    pub fn key_down(&mut self, keycode: Key)
        ensures
            final(self)@ == old(self)@.with_key(keycode, true),
            old(self)@.valid(),
            final(self)@.valid(),
    {
        self.set_key(keycode, true);
    }

    /// Records that a key was released.
    pub fn key_up(&mut self, keycode: Key)
        ensures
            final(self)@ == old(self)@.with_key(keycode, false),
            old(self)@.valid(),
            final(self)@.valid(),
    {
        self.set_key(keycode, false);
    }

    /// Ticks both timers: each goes down by one unless it is already zero.
    pub fn set_timers(&mut self)
        ensures
            final(self)@ == (State {
                delay: ticked(old(self)@.delay),
                sound: ticked(old(self)@.sound),
                ..old(self)@
            }),
            old(self)@.valid(),
            final(self)@.valid(),
    {
        proof {
            use_type_invariant(&*self);
        }
        if self.delay_timer > 0 {
            self.delay_timer -= 1;
        }
        if self.sound_timer > 0 {
            self.sound_timer -= 1;
        }
    }

    /// The framebuffer, row by row.
    pub fn framebuffer(&self) -> (screen: &[bool; SCREEN_CELLS])
        ensures
            screen@ == self@.screen,
            self@.valid(),
    {
        proof {
            use_type_invariant(self);
        }
        &self.vram
    }

    /// The pixel at column `x`, row `y`.
    pub fn pixel(&self, x: usize, y: usize) -> (lit: bool)
        requires
            x < SCREEN_WIDTH,
            y < SCREEN_HEIGHT,
        ensures
            lit == self@.pixel(x as int, y as int),
            self@.valid(),
    {
        proof {
            use_type_invariant(self);
        }
        self.vram[y * SCREEN_WIDTH + x]
    }

    /// Whether the key in keypad slot `slot` is down.
    pub fn is_key_down(&self, slot: u8) -> (down: bool)
        requires
            slot < KEY_COUNT,
        ensures
            down == self@.keys[slot as int],
            self@.valid(),
    {
        proof {
            use_type_invariant(self);
        }
        self.key[slot as usize]
    }

    /// Register `Vx`.
    pub fn register(&self, x: u8) -> (value: u8)
        requires
            x < REGISTER_COUNT,
        ensures
            value == self@.registers[x as int],
            self@.valid(),
    {
        proof {
            use_type_invariant(self);
        }
        self.registers[x as usize]
    }

    /// The memory cell at `address`.
    pub fn memory(&self, address: u16) -> (byte: u8)
        requires
            address < MEMORY_SIZE,
        ensures
            byte == self@.memory[address as int],
            self@.valid(),
    {
        proof {
            use_type_invariant(self);
        }
        self.ram[address as usize]
    }

    /// The index register `I`.
    pub fn index(&self) -> (index: u16)
        ensures
            index == self@.index,
            self@.valid(),
    {
        proof {
            use_type_invariant(self);
        }
        self.i
    }

    /// The address of the next instruction.
    pub fn program_counter(&self) -> (pc: u16)
        ensures
            pc == self@.pc,
            self@.valid(),
    {
        proof {
            use_type_invariant(self);
        }
        self.pc
    }

    /// The number of return addresses on the call stack.
    pub fn stack_depth(&self) -> (depth: usize)
        ensures
            depth == self@.stack.len(),
            self@.valid(),
    {
        proof {
            use_type_invariant(self);
        }
        self.sp
    }

    /// The delay timer.
    pub fn delay_timer(&self) -> (value: u8)
        ensures
            value == self@.delay,
            self@.valid(),
    {
        proof {
            use_type_invariant(self);
        }
        self.delay_timer
    }

    /// The sound timer.
    pub fn sound_timer(&self) -> (value: u8)
        ensures
            value == self@.sound,
            self@.valid(),
    {
        proof {
            use_type_invariant(self);
        }
        self.sound_timer
    }

    /// Sets the state of the keypad slot that `keycode` stands for.
    fn set_key(&mut self, keycode: Key, down: bool)
        ensures
            final(self)@ == old(self)@.with_key(keycode, down),
            old(self)@.valid(),
            final(self)@.valid(),
    {
        proof {
            use_type_invariant(&*self);
        }
        match keycode.hex() {
            Some(slot) => {
                self.key[slot as usize] = down;
            },
            None => {},
        }
    }

    /// Register `Vx`.
    fn v(&self, x: u8) -> (value: u8)
        requires
            x < REGISTER_COUNT,
        ensures
            value == self@.v(x),
    {
        self.registers[x as usize]
    }

    /// `Vx = value`.
    fn set_v(&mut self, x: u8, value: u8)
        requires
            x < REGISTER_COUNT,
        ensures
            final(self)@ == old(self)@.with_register(x, value),
    {
        proof {
            use_type_invariant(&*self);
        }
        self.registers[x as usize] = value;
    }

    /// Sets the flag register to 1 or 0.
    fn set_flag(&mut self, set: bool)
        ensures
            final(self)@ == old(self)@.with_flag(set),
    {
        proof {
            use_type_invariant(&*self);
        }
        self.registers[FLAG] = if set {
            1
        } else {
            0
        };
    }

    /// Moves the program counter to the next instruction, or to the one
    /// after it if `skip` holds.
    fn step(&mut self, skip: bool)
        ensures
            final(self)@ == old(self)@.stepped(skip),
    {
        proof {
            use_type_invariant(&*self);
        }
        let by: u32 = if skip {
            4
        } else {
            2
        };
        self.pc = ((self.pc as u32 + by) % 0x1_0000) as u16;
    }

    /// The lowest-numbered key that is down, if any is.
    fn lowest_key(&self) -> (found: Option<u8>)
        ensures
            match found {
                Some(k) => is_lowest_key_down(self@.keys, k as int),
                None => !any_key_down(self@.keys),
            },
    {
        let mut k: u8 = 0;
        while k < 16
            invariant
                k <= 16,
                forall|j: int| 0 <= j < k ==> !self.key[j],
            decreases 16 - k,
        {
            if self.key[k as usize] {
                return Some(k);
            }
            k += 1;
        }
        None
    }

    /// Carries out one operation: checks for the fault it could raise, then
    /// changes the machine. Nothing is changed before the check.
    fn perform(&mut self, op: Operation, random: u8) -> (result: Result<Progress, Fault>)
        requires
            op.valid(),
        ensures
            result == outcome(old(self)@, op),
            final(self)@ == successor(old(self)@, op, random),
    {
        proof {
            use_type_invariant(&*self);
        }
        match op {
            Operation::ClearScreen => {
                self.vram = [false; SCREEN_CELLS];
                assert(self@.screen =~= blank_screen());
                self.step(false);
            },
            Operation::Return => {
                if self.sp == 0 {
                    return Err(Fault::StackUnderflow);
                }
                self.sp -= 1;
                self.pc = self.stack[self.sp];
            },
            Operation::Jump { target } => {
                self.pc = target;
            },
            Operation::Call { target } => {
                if self.sp >= STACK_LIMIT {
                    return Err(Fault::StackOverflow);
                }
                self.stack[self.sp] = ((self.pc as u32 + 2) % 0x1_0000) as u16;
                self.sp += 1;
                self.pc = target;
            },
            Operation::SkipIfEqual { x, value } => {
                let skip = self.v(x) == value;
                self.step(skip);
            },
            Operation::SkipIfNotEqual { x, value } => {
                let skip = self.v(x) != value;
                self.step(skip);
            },
            Operation::SkipIfRegistersEqual { x, y } => {
                let skip = self.v(x) == self.v(y);
                self.step(skip);
            },
            Operation::Load { x, value } => {
                self.set_v(x, value);
                self.step(false);
            },
            Operation::AddImmediate { x, value } => {
                let sum = self.v(x) as u16 + value as u16;
                self.set_v(x, (sum % 0x100) as u8);
                self.step(false);
            },
            Operation::Assign { x, y } => {
                let value = self.v(y);
                self.set_v(x, value);
                self.step(false);
            },
            Operation::Or { x, y } => {
                let value = self.v(x) | self.v(y);
                self.set_v(x, value);
                self.step(false);
            },
            Operation::And { x, y } => {
                let value = self.v(x) & self.v(y);
                self.set_v(x, value);
                self.step(false);
            },
            Operation::Xor { x, y } => {
                let value = self.v(x) ^ self.v(y);
                self.set_v(x, value);
                self.step(false);
            },
            Operation::Add { x, y } => {
                let sum = self.v(x) as u16 + self.v(y) as u16;
                self.set_v(x, (sum % 0x100) as u8);
                // Flag as carry. It is written last, so it wins when `x` is
                // the flag register.
                self.set_flag(sum > 0xFF);
                self.step(false);
            },
            Operation::Subtract { x, y } => {
                let minuend = self.v(x);
                let subtrahend = self.v(y);
                self.set_v(x, ((0x100 + minuend as u16 - subtrahend as u16) % 0x100) as u8);
                // Flag as "no borrow": set when the subtraction did not wrap.
                // It is written last.
                self.set_flag(minuend >= subtrahend);
                self.step(false);
            },
            Operation::ShiftRight { x } => {
                let leaving = self.v(x) % 2;
                // Flag as the bit shifted out. It is written first: when `x`
                // is the flag register, the value shifted below is the flag.
                self.set_v(FLAG as u8, leaving);
                let value = self.v(x) / 2;
                self.set_v(x, value);
                self.step(false);
            },
            Operation::SubtractReverse { x, y } => {
                let minuend = self.v(y);
                let subtrahend = self.v(x);
                self.set_v(x, ((0x100 + minuend as u16 - subtrahend as u16) % 0x100) as u8);
                // Flag as "no borrow": set when the subtraction did not wrap.
                // It is written last.
                self.set_flag(minuend >= subtrahend);
                self.step(false);
            },
            Operation::ShiftLeft { x } => {
                let leaving = self.v(x) / 0x80;
                // Flag as the bit shifted out. It is written first: when `x`
                // is the flag register, the value shifted below is the flag.
                self.set_v(FLAG as u8, leaving);
                let value = ((self.v(x) as u16 * 2) % 0x100) as u8;
                self.set_v(x, value);
                self.step(false);
            },
            Operation::SkipIfRegistersDiffer { x, y } => {
                let skip = self.v(x) != self.v(y);
                self.step(skip);
            },
            Operation::SetIndex { address } => {
                self.i = address;
                self.step(false);
            },
            Operation::JumpOffset { address } => {
                self.pc = address + self.v(0) as u16;
            },
            Operation::Random { x, mask } => {
                self.set_v(x, random & mask);
                self.step(false);
            },
            Operation::Draw { x, y, height } => {
                if self.i as usize + height as usize > MEMORY_SIZE {
                    return Err(Fault::AddressOutOfRange);
                }
                let left = self.v(x);
                let top = self.v(y);
                let hit = draw_sprite(
                    &mut self.vram,
                    &self.ram,
                    self.i as usize,
                    height,
                    left,
                    top,
                );
                // Flag as collision report, whatever it held before. The
                // coordinates were read above, so they may come from it.
                self.set_flag(hit);
                self.step(false);
            },
            Operation::SkipIfKeyDown { x } => {
                let skip = self.key[(self.v(x) % 16) as usize];
                self.step(skip);
            },
            Operation::SkipIfKeyUp { x } => {
                let skip = !self.key[(self.v(x) % 16) as usize];
                self.step(skip);
            },
            Operation::GetDelay { x } => {
                let value = self.delay_timer;
                self.set_v(x, value);
                self.step(false);
            },
            Operation::WaitKey { x } => {
                match self.lowest_key() {
                    Some(k) => {
                        proof {
                            lemma_lowest_key_down(self@.keys, k as int);
                        }
                        self.set_v(x, k);
                        self.step(false);
                    },
                    None => {
                        return Ok(Progress::Waiting);
                    },
                }
            },
            Operation::SetDelay { x } => {
                self.delay_timer = self.v(x);
                self.step(false);
            },
            Operation::SetSound { x } => {
                self.sound_timer = self.v(x);
                self.step(false);
            },
            Operation::AddIndex { x } => {
                self.i = ((self.i as usize + self.v(x) as usize) % MEMORY_SIZE) as u16;
                self.step(false);
            },
            Operation::FontAddress { x } => {
                let glyph = self.v(x) as u16;
                self.i = FONT_BASE + GLYPH_BYTES * glyph;
                self.step(false);
            },
            Operation::StoreBcd { x } => {
                let start = self.i as usize;
                if start + 2 >= MEMORY_SIZE {
                    return Err(Fault::AddressOutOfRange);
                }
                let value = self.v(x);
                self.ram[start] = value / 100;
                self.ram[start + 1] = value / 10 % 10;
                self.ram[start + 2] = value % 10;
                self.step(false);
            },
            Operation::DumpRegisters { x } => {
                let start = self.i as usize;
                if start + x as usize >= MEMORY_SIZE {
                    return Err(Fault::AddressOutOfRange);
                }
                dump_registers(&mut self.ram, &self.registers, start, x);
                self.step(false);
            },
            Operation::LoadRegisters { x } => {
                let start = self.i as usize;
                if start + x as usize >= MEMORY_SIZE {
                    return Err(Fault::AddressOutOfRange);
                }
                load_registers(&mut self.registers, &self.ram, start, x);
                self.step(false);
            },
            Operation::Unknown => {
                self.step(false);
            },
        }
        Ok(Progress::Advanced)
    }
}

/// Copies `registers[0..=last]` to `memory[start..=start + last]`.
fn dump_registers(
    memory: &mut [u8; MEMORY_SIZE],
    registers: &[u8; REGISTER_COUNT],
    start: usize,
    last: u8,
)
    requires
        last < REGISTER_COUNT,
        start + last < MEMORY_SIZE,
    ensures
        forall|a: int|
            0 <= a < MEMORY_SIZE ==> final(memory)[a] == (if start <= a <= start + last {
                registers[a - start]
            } else {
                old(memory)[a]
            }),
    no_unwind
{
    let mut k: usize = 0;
    while k <= last as usize
        invariant
            k <= last + 1,
            last < REGISTER_COUNT,
            start + last < MEMORY_SIZE,
            forall|a: int|
                0 <= a < MEMORY_SIZE ==> memory[a] == (if start <= a < start + k {
                    registers[a - start]
                } else {
                    old(memory)[a]
                }),
        decreases last + 1 - k,
    {
        memory[start + k] = registers[k];
        k += 1;
    }
}

/// Copies `memory[start..=start + last]` to `registers[0..=last]`.
fn load_registers(
    registers: &mut [u8; REGISTER_COUNT],
    memory: &[u8; MEMORY_SIZE],
    start: usize,
    last: u8,
)
    requires
        last < REGISTER_COUNT,
        start + last < MEMORY_SIZE,
    ensures
        forall|k: int|
            0 <= k < REGISTER_COUNT ==> final(registers)[k] == (if k <= last {
                memory[start + k]
            } else {
                old(registers)[k]
            }),
    no_unwind
{
    let mut k: usize = 0;
    while k <= last as usize
        invariant
            k <= last + 1,
            last < REGISTER_COUNT,
            start + last < MEMORY_SIZE,
            forall|j: int|
                0 <= j < REGISTER_COUNT ==> registers[j] == (if j < k {
                    memory[start + j]
                } else {
                    old(registers)[j]
                }),
        decreases last + 1 - k,
    {
        registers[k] = memory[start + k];
        k += 1;
    }
}

} // verus!
