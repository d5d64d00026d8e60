//! Properties of the instruction set that follow from its definition.
//!
//! Each is stated over the abstract state, so it holds of every machine:
//! `Processor::execute_opcode_with` leaves the machine in
//! `successor(old, op, random)` and reports `outcome(old, op)`.

use vstd::prelude::*;
use crate::decode::{fields_of, operation_of_word, Operation};
use crate::screen::{collides, sprite_covers, sprite_hits, sprite_pixel_lands};
use crate::semantics::{
    fetched, loaded, outcome, run, skips, successor, ticked, waits, wrap16,
};
use crate::state::{
    blank_screen, Fault, Progress, State, FLAG, MEMORY_SIZE, PROGRAM_START, SCREEN_CELLS,
    SCREEN_HEIGHT, SCREEN_WIDTH, STACK_LIMIT,
};

verus! {

/// A machine that has just been switched on is well formed.
pub proof fn law_initial_state_valid()
    ensures
        State::initial().valid(),
{
}

/// Every word decodes: its fields fit their widths and the operation they
/// select has well-formed operands.
pub proof fn law_every_word_decodes(opcode: u16)
    ensures
        fields_of(opcode).valid(),
        operation_of_word(opcode).valid(),
{
}

/// After a program of at least one instruction has been loaded, a machine
/// whose program counter is at the load address fetches the first two bytes
/// of the image, high byte first.
pub proof fn law_loaded_program_is_fetched(s: State, image: Seq<u8>)
    requires
        s.valid(),
        s.pc == PROGRAM_START,
        2 <= image.len(),
        PROGRAM_START + image.len() <= MEMORY_SIZE,
    ensures
        fetched(State { memory: loaded(s.memory, image), ..s }) == Ok::<u16, Fault>(
            (image[0] * 0x100 + image[1]) as u16,
        ),
{
}

/// An operation that does not set the program counter itself always
/// completes and leaves the counter two bytes further on, or four if it is a
/// skip whose condition held before the instruction. The counter has
/// sixteen bits and wraps: the step is exactly 2 or 4 unless it would carry
/// the counter past `0xFFFF`, which no instruction fetched from memory does.
pub proof fn law_program_counter_steps(s: State, op: Operation, random: u8)
    requires
        !op.sets_pc(),
        outcome(s, op) is Ok,
    ensures
        ({
            let step = if skips(s, op) {
                4int
            } else {
                2int
            };
            let after = successor(s, op, random);
            &&& outcome(s, op) == Ok::<Progress, Fault>(Progress::Advanced)
            &&& after.pc == wrap16(s.pc + step)
            &&& s.pc + step <= u16::MAX ==> after.pc == s.pc + step
        }),
{
}

/// The word `0x00E0` clears the screen, and right after a clear every pixel
/// reads as unset.
pub proof fn law_clear_screen_blanks(s: State, random: u8)
    ensures
        operation_of_word(0x00E0) == Operation::ClearScreen,
        outcome(s, Operation::ClearScreen) == Ok::<Progress, Fault>(Progress::Advanced),
        successor(s, Operation::ClearScreen, random).screen == blank_screen(),
        forall|x: int, y: int|
            0 <= x < SCREEN_WIDTH && 0 <= y < SCREEN_HEIGHT ==> !#[trigger] successor(
                s,
                Operation::ClearScreen,
                random,
            ).pixel(x, y),
{
    let after = successor(s, Operation::ClearScreen, random);
    assert forall|x: int, y: int|
        0 <= x < SCREEN_WIDTH && 0 <= y < SCREEN_HEIGHT implies !#[trigger] after.pixel(x, y) by {
        assert(0 <= y * SCREEN_WIDTH + x < SCREEN_CELLS);
    }
}

/// After a draw the flag register holds 1 if some pixel that was set before
/// the draw is unset after it, and 0 if there is no such pixel, wherever the
/// sprite lies and however it wraps.
pub proof fn law_draw_flag_reports_collision(s: State, x: u8, y: u8, height: u8, random: u8)
    requires
        s.valid(),
        outcome(s, Operation::Draw { x, y, height }) is Ok,
    ensures
        ({
            let after = successor(s, Operation::Draw { x, y, height }, random);
            let erased = exists|p: int|
                0 <= p < SCREEN_CELLS && #[trigger] s.screen[p] && !after.screen[p];
            after.registers[FLAG as int] == (if erased {
                1u8
            } else {
                0u8
            })
        }),
{
    let op = Operation::Draw { x, y, height };
    let after = successor(s, op, random);
    let sprite = s.sprite(height);
    let left = s.v(x) as int;
    let top = s.v(y) as int;
    let erased = exists|p: int|
        0 <= p < SCREEN_CELLS && #[trigger] s.screen[p] && !after.screen[p];
    // A pixel is unset by the draw exactly when it was set and the sprite
    // hits it.
    if collides(s.screen, sprite, left, top) {
        let p = choose|p: int|
            0 <= p < SCREEN_CELLS && #[trigger] s.screen[p] && sprite_hits(sprite, left, top, p);
        assert(!after.screen[p]);
    }
    if erased {
        let p = choose|p: int|
            0 <= p < SCREEN_CELLS && #[trigger] s.screen[p] && !after.screen[p];
        assert(sprite_hits(sprite, left, top, p));
    }
}

/// A sprite covers a screen position exactly when one of its set pixels
/// is drawn there.
pub proof fn law_sprite_covers_where_it_lands(
    sprite: Seq<u8>,
    left: int,
    top: int,
    x: int,
    y: int,
)
    requires
        sprite.len() <= SCREEN_HEIGHT,
        0 <= x < SCREEN_WIDTH,
        0 <= y < SCREEN_HEIGHT,
    ensures
        sprite_covers(sprite, left, top, x, y) <==> exists|row: int, col: int|
            sprite_pixel_lands(sprite, left, top, row, col, x, y),
{
    let c = (x - left) % (SCREEN_WIDTH as int);
    let r = (y - top) % (SCREEN_HEIGHT as int);
    if sprite_covers(sprite, left, top, x, y) {
        assert(sprite_pixel_lands(sprite, left, top, r, c, x, y));
    }
    if exists|row: int, col: int| sprite_pixel_lands(sprite, left, top, row, col, x, y) {
        let (row, col) = choose|row: int, col: int|
            sprite_pixel_lands(sprite, left, top, row, col, x, y);
        assert(row == r && col == c);
    }
}

/// Register-register subtraction leaves 1 in the flag register exactly when
/// the minuend is at least the subtrahend, and 0 otherwise. The minuend is
/// `Vx` for `Subtract` and `Vy` for `SubtractReverse`.
pub proof fn law_subtract_flag_is_no_borrow(s: State, x: u8, y: u8, random: u8)
    requires
        s.valid(),
        x < 16,
        y < 16,
    ensures
        ({
            let after = successor(s, Operation::Subtract { x, y }, random);
            after.registers[FLAG as int] == (if s.v(x) >= s.v(y) {
                1u8
            } else {
                0u8
            })
        }),
        ({
            let after = successor(s, Operation::SubtractReverse { x, y }, random);
            after.registers[FLAG as int] == (if s.v(y) >= s.v(x) {
                1u8
            } else {
                0u8
            })
        }),
{
}

/// Register-register addition leaves 1 in the flag register exactly when
/// the sum of the two registers exceeds 255, and 0 otherwise.
pub proof fn law_add_flag_is_carry(s: State, x: u8, y: u8, random: u8)
    requires
        s.valid(),
        x < 16,
        y < 16,
    ensures
        ({
            let after = successor(s, Operation::Add { x, y }, random);
            after.registers[FLAG as int] == (if s.v(x) + s.v(y) > 255 {
                1u8
            } else {
                0u8
            })
        }),
{
}

/// A timer that is at zero stays at zero when ticked, and no tick ever
/// raises a timer.
pub proof fn law_tick_stops_at_zero(timer: u8)
    ensures
        ticked(0) == 0,
        ticked(timer) <= timer,
        timer > 0 ==> ticked(timer) == timer - 1,
{
}

/// The calls to `targets`, in order.
pub open spec fn call_ops(targets: Seq<u16>) -> Seq<Operation> {
    Seq::new(targets.len(), |k: int| Operation::Call { target: targets[k] })
}

/// `count` returns.
pub open spec fn return_ops(count: nat) -> Seq<Operation> {
    Seq::new(count, |k: int| Operation::Return)
}

/// Running one sequence of operations after another is running their
/// concatenation.
pub proof fn lemma_run_concat(
    s: State,
    first: Seq<Operation>,
    second: Seq<Operation>,
    random: u8,
)
    ensures
        run(s, first + second, random) == match run(s, first, random) {
            Ok(middle) => run(middle, second, random),
            Err(fault) => Err(fault),
        },
    decreases first.len(),
{
    if first.len() == 0 {
        assert(first + second =~= second);
    } else {
        assert((first + second).skip(1) =~= first.skip(1) + second);
        if outcome(s, first[0]) is Ok {
            lemma_run_concat(successor(s, first[0], random), first.skip(1), second, random);
        }
    }
}

/// Running a single operation is executing it.
pub proof fn lemma_run_single(s: State, op: Operation, random: u8)
    ensures
        run(s, seq![op], random) == match outcome(s, op) {
            Ok(_) => Ok::<State, Fault>(successor(s, op, random)),
            Err(fault) => Err(fault),
        },
{
    reveal_with_fuel(run, 2);
}

/// Calls and returns balance: after any number of nested calls that the
/// stack has room for, followed by as many returns, no fault has occurred
/// and the machine is as it was before the first call, but for the program
/// counter, which is at the instruction after that call.
pub proof fn law_calls_and_returns_balance(s: State, targets: Seq<u16>, random: u8)
    requires
        s.valid(),
        targets.len() >= 1,
        s.stack.len() + targets.len() <= STACK_LIMIT,
    ensures
        run(s, call_ops(targets) + return_ops(targets.len()), random) == Ok::<State, Fault>(
            s.with_pc(wrap16(s.pc + 2)),
        ),
    decreases targets.len(),
{
    // The first call, then the inner calls and their returns, then the
    // return that matches the first call.
    let call = Operation::Call { target: targets[0] };
    let inner = targets.skip(1);
    let entered = successor(s, call, random);
    let all = call_ops(targets) + return_ops(targets.len());
    let rest = call_ops(inner) + return_ops(inner.len());
    let last = seq![Operation::Return];
    assert(all.skip(1) =~= rest + last);
    assert(entered.stack.drop_last() =~= s.stack);
    lemma_run_concat(entered, rest, last, random);
    if inner.len() == 0 {
        lemma_run_single(entered, Operation::Return, random);
    } else {
        law_calls_and_returns_balance(entered, inner, random);
        lemma_run_single(entered.with_pc(wrap16(entered.pc + 2)), Operation::Return, random);
    }
}

/// A call with sixteen return addresses on the stack is a stack overflow:
/// from an empty stack, sixteen nested calls succeed and the seventeenth is
/// fatal. A return with none on the stack is a stack underflow. Either way
/// the machine is left as it was.
pub proof fn law_stack_limits(s: State, target: u16, random: u8)
    requires
        s.valid(),
    ensures
        outcome(s, Operation::Call { target }) == (if s.stack.len() == STACK_LIMIT {
            Err::<Progress, Fault>(Fault::StackOverflow)
        } else {
            Ok::<Progress, Fault>(Progress::Advanced)
        }),
        outcome(s, Operation::Return) == (if s.stack.len() == 0 {
            Err::<Progress, Fault>(Fault::StackUnderflow)
        } else {
            Ok::<Progress, Fault>(Progress::Advanced)
        }),
        s.stack.len() == STACK_LIMIT ==> successor(s, Operation::Call { target }, random) == s,
        s.stack.len() == 0 ==> successor(s, Operation::Return, random) == s,
        s.stack.len() < STACK_LIMIT ==> successor(
            s,
            Operation::Call { target },
            random,
        ).stack.len() == s.stack.len() + 1,
{
}

/// More nested calls than the stack has room for end in a stack overflow.
pub proof fn law_too_many_calls_overflow(s: State, targets: Seq<u16>, random: u8)
    requires
        s.valid(),
        s.stack.len() + targets.len() > STACK_LIMIT,
    ensures
        run(s, call_ops(targets), random) == Err::<State, Fault>(Fault::StackOverflow),
    decreases targets.len(),
{
    let call = Operation::Call { target: targets[0] };
    if s.stack.len() < STACK_LIMIT {
        assert(call_ops(targets).skip(1) =~= call_ops(targets.skip(1)));
        law_too_many_calls_overflow(successor(s, call, random), targets.skip(1), random);
    }
}

/// Executing an instruction keeps a well-formed state well formed, and on a
/// fault or a wait the state does not change at all.
pub proof fn law_execution_preserves_validity(s: State, op: Operation, random: u8)
    requires
        s.valid(),
        op.valid(),
    ensures
        successor(s, op, random).valid(),
        outcome(s, op) != Ok::<Progress, Fault>(Progress::Advanced) ==> successor(s, op, random)
            == s,
        outcome(s, op) == Ok::<Progress, Fault>(Progress::Waiting) <==> waits(s, op),
{
}

/// Only the random operation looks at the random byte.
pub proof fn law_only_random_uses_entropy(s: State, op: Operation, a: u8, b: u8)
    requires
        !(op is Random),
    ensures
        successor(s, op, a) == successor(s, op, b),
{
}

/// Each part of the machine is changed only by the operations that are
/// about it: the keys by none, the screen by drawing and clearing, memory
/// by the two stores, the stack by call and return, each timer by its
/// setter, and the index register by the three operations that load it.
pub proof fn law_effects_are_local(s: State, op: Operation, random: u8)
    ensures
        ({
            let after = successor(s, op, random);
            &&& after.keys == s.keys
            &&& !(op is Draw || op is ClearScreen) ==> after.screen == s.screen
            &&& !(op is StoreBcd || op is DumpRegisters) ==> after.memory == s.memory
            &&& !(op is Call || op is Return) ==> after.stack == s.stack
            &&& !(op is SetDelay) ==> after.delay == s.delay
            &&& !(op is SetSound) ==> after.sound == s.sound
            &&& !(op is SetIndex || op is AddIndex || op is FontAddress) ==> after.index
                == s.index
        }),
{
}

} // verus!
