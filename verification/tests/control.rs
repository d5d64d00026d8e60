use chip8::decode::{decode, Operation};
use chip8::processor::Processor;
use chip8::state::{Fault, Progress};

#[test]
fn jump_sets_program_counter() {
    let mut machine = Processor::new();
    assert_eq!(machine.execute_opcode(0x1ABC), Ok(Progress::Advanced));
    assert_eq!(machine.program_counter(), 0xABC);
}

#[test]
fn jump_with_offset_adds_v0() {
    let mut machine = Processor::new();
    machine.execute_opcode(0x6010).unwrap();
    machine.execute_opcode(0xB300).unwrap();
    assert_eq!(machine.program_counter(), 0x310);
    machine.execute_opcode(0x60FF).unwrap();
    machine.execute_opcode(0xBFFF).unwrap();
    assert_eq!(machine.program_counter(), 0x10FE);
}

#[test]
fn call_then_return_comes_back_after_call() {
    let mut machine = Processor::new();
    assert_eq!(machine.execute_opcode(0x2400), Ok(Progress::Advanced));
    assert_eq!(machine.program_counter(), 0x400);
    assert_eq!(machine.stack_depth(), 1);
    assert_eq!(machine.execute_opcode(0x00EE), Ok(Progress::Advanced));
    assert_eq!(machine.program_counter(), 0x202);
    assert_eq!(machine.stack_depth(), 0);
}

#[test]
fn sixteen_calls_and_returns_balance() {
    let mut machine = Processor::new();
    let mut sites = Vec::new();
    for depth in 0..16u16 {
        sites.push(machine.program_counter());
        let target = 0x300 + depth * 0x10;
        assert_eq!(machine.execute_opcode(0x2000 | target), Ok(Progress::Advanced));
        assert_eq!(machine.program_counter(), target);
        assert_eq!(machine.stack_depth(), depth as usize + 1);
    }
    for depth in (0..16usize).rev() {
        assert_eq!(machine.execute_opcode(0x00EE), Ok(Progress::Advanced));
        assert_eq!(machine.program_counter(), sites[depth] + 2);
        assert_eq!(machine.stack_depth(), depth);
    }
    assert_eq!(machine.program_counter(), 0x202);
}

#[test]
fn seventeenth_call_overflows() {
    let mut machine = Processor::new();
    for _ in 0..16 {
        assert_eq!(machine.execute_opcode(0x2300), Ok(Progress::Advanced));
    }
    assert_eq!(machine.execute_opcode(0x2456), Err(Fault::StackOverflow));
    assert_eq!(machine.stack_depth(), 16);
    assert_eq!(machine.program_counter(), 0x300);
    assert_eq!(machine.execute_opcode(0x00EE), Ok(Progress::Advanced));
    assert_eq!(machine.execute_opcode(0x2456), Ok(Progress::Advanced));
    assert_eq!(machine.program_counter(), 0x456);
}

#[test]
fn return_on_empty_stack_underflows() {
    let mut machine = Processor::new();
    assert_eq!(machine.execute_opcode(0x00EE), Err(Fault::StackUnderflow));
    assert_eq!(machine.program_counter(), 0x200);
}

#[test]
fn return_ignores_high_nibbles_of_low_byte_only() {
    let mut machine = Processor::new();
    machine.execute_opcode(0x2400).unwrap();
    assert_eq!(machine.execute_opcode(0x03EE), Ok(Progress::Advanced));
    assert_eq!(machine.program_counter(), 0x202);
}

#[test]
fn skip_if_equal_immediate() {
    let mut machine = Processor::new();
    machine.execute_opcode(0x6A42).unwrap();
    machine.execute_opcode(0x3A42).unwrap();
    assert_eq!(machine.program_counter(), 0x206);
    machine.execute_opcode(0x3A43).unwrap();
    assert_eq!(machine.program_counter(), 0x208);
}

#[test]
fn skip_if_not_equal_immediate() {
    let mut machine = Processor::new();
    machine.execute_opcode(0x6A42).unwrap();
    machine.execute_opcode(0x4A42).unwrap();
    assert_eq!(machine.program_counter(), 0x204);
    machine.execute_opcode(0x4A43).unwrap();
    assert_eq!(machine.program_counter(), 0x208);
}

#[test]
fn skip_if_registers_equal() {
    let mut machine = Processor::new();
    machine.execute_opcode(0x6A42).unwrap();
    machine.execute_opcode(0x6B42).unwrap();
    machine.execute_opcode(0x5AB0).unwrap();
    assert_eq!(machine.program_counter(), 0x208);
    machine.execute_opcode(0x6B43).unwrap();
    machine.execute_opcode(0x5AB0).unwrap();
    assert_eq!(machine.program_counter(), 0x20C);
}

#[test]
fn skip_if_registers_differ() {
    let mut machine = Processor::new();
    machine.execute_opcode(0x6A42).unwrap();
    machine.execute_opcode(0x6B42).unwrap();
    machine.execute_opcode(0x9AB0).unwrap();
    assert_eq!(machine.program_counter(), 0x206);
    machine.execute_opcode(0x6B43).unwrap();
    machine.execute_opcode(0x9AB0).unwrap();
    assert_eq!(machine.program_counter(), 0x20C);
}

#[test]
fn set_index_loads_address() {
    let mut machine = Processor::new();
    machine.execute_opcode(0xAFED).unwrap();
    assert_eq!(machine.index(), 0xFED);
    assert_eq!(machine.program_counter(), 0x202);
}

#[test]
fn program_counter_wraps_at_sixteen_bits() {
    let mut machine = Processor::new();
    machine.execute_opcode(0x1FFE).unwrap();
    for _ in 0..0x7800 {
        machine.execute_opcode(0x6000).unwrap();
    }
    assert_eq!(machine.program_counter(), 0xFFFE);
    machine.execute_opcode(0x6000).unwrap();
    assert_eq!(machine.program_counter(), 0x0000);
}

#[test]
fn every_word_steps_skips_or_sets_the_program_counter() {
    use_every_word(|word, operation| {
        let mut machine = Processor::new();
        let result = machine.execute_opcode(word);
        let pc = machine.program_counter();
        match operation {
            Operation::Jump { target } | Operation::Call { target } => {
                assert_eq!(result, Ok(Progress::Advanced));
                assert_eq!(pc, target);
            }
            Operation::JumpOffset { address } => assert_eq!(pc, address),
            Operation::Return => {
                assert_eq!(result, Err(Fault::StackUnderflow));
                assert_eq!(pc, 0x200);
            }
            Operation::WaitKey { .. } => {
                assert_eq!(result, Ok(Progress::Waiting));
                assert_eq!(pc, 0x200);
            }
            Operation::SkipIfEqual { value, .. } => {
                assert_eq!(pc, if value == 0 { 0x204 } else { 0x202 })
            }
            Operation::SkipIfNotEqual { value, .. } => {
                assert_eq!(pc, if value != 0 { 0x204 } else { 0x202 })
            }
            Operation::SkipIfRegistersEqual { .. } | Operation::SkipIfKeyUp { .. } => {
                assert_eq!(pc, 0x204)
            }
            Operation::SkipIfRegistersDiffer { .. } | Operation::SkipIfKeyDown { .. } => {
                assert_eq!(pc, 0x202)
            }
            _ => {
                assert_eq!(result, Ok(Progress::Advanced), "word {:#06x}", word);
                assert_eq!(pc, 0x202, "word {:#06x}", word);
            }
        }
    });
}

fn use_every_word(mut check: impl FnMut(u16, Operation)) {
    for word in 0..=0xFFFFu16 {
        check(word, decode(word).operation());
    }
}
