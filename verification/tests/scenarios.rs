use chip8::processor::Processor;
use chip8::state::{Fault, Progress};

#[test]
fn clear_screen_program_runs_one_step() {
    let mut machine = Processor::new();
    machine.load_binary(&[0x00, 0xE0]);
    let opcode = machine.fetch_opcode();
    assert_eq!(opcode, Ok(0x00E0));
    assert_eq!(machine.execute_opcode(0x00E0), Ok(Progress::Advanced));
    assert_eq!(machine.program_counter(), 0x202);
    assert!(machine.framebuffer().iter().all(|lit| !*lit));
}

#[test]
fn load_then_add_immediate() {
    let mut machine = Processor::new();
    assert_eq!(machine.execute_opcode(0x6A3C), Ok(Progress::Advanced));
    assert_eq!(machine.register(0xA), 0x3C);
    assert_eq!(machine.execute_opcode(0x7A05), Ok(Progress::Advanced));
    assert_eq!(machine.register(0xA), 0x41);
    assert_eq!(machine.program_counter(), 0x204);
    assert_eq!(machine.register(0xF), 0);
}

#[test]
fn add_immediate_wraps_without_touching_flag() {
    let mut machine = Processor::new();
    machine.execute_opcode(0x6F07).unwrap();
    machine.execute_opcode(0x60FF).unwrap();
    machine.execute_opcode(0x7002).unwrap();
    assert_eq!(machine.register(0x0), 0x01);
    assert_eq!(machine.register(0xF), 0x07);
}

#[test]
fn draw_glyph_zero_on_empty_screen() {
    let mut machine = Processor::new();
    machine.execute_opcode(0x6000).unwrap();
    machine.execute_opcode(0x6100).unwrap();
    machine.execute_opcode(0xF029).unwrap();
    assert_eq!(machine.index(), 0);
    machine.execute_opcode(0x6F09).unwrap();
    assert_eq!(machine.execute_opcode(0xD015), Ok(Progress::Advanced));
    let glyph = [
        [true, true, true, true],
        [true, false, false, true],
        [true, false, false, true],
        [true, false, false, true],
        [true, true, true, true],
    ];
    for y in 0..32usize {
        for x in 0..64usize {
            let expected = y < 5 && x < 4 && glyph[y][x];
            assert_eq!(machine.pixel(x, y), expected, "pixel ({}, {})", x, y);
            assert_eq!(machine.framebuffer()[y * 64 + x], expected);
        }
    }
    assert_eq!(machine.register(0xF), 0);
    assert_eq!(machine.program_counter(), 0x200 + 5 * 2);
}

#[test]
fn fresh_machine_is_zeroed_but_for_font() {
    let machine = Processor::new();
    assert_eq!(machine.program_counter(), 0x200);
    assert_eq!(machine.index(), 0);
    assert_eq!(machine.stack_depth(), 0);
    assert_eq!(machine.delay_timer(), 0);
    assert_eq!(machine.sound_timer(), 0);
    for x in 0..16u8 {
        assert_eq!(machine.register(x), 0);
        assert!(!machine.is_key_down(x));
    }
    assert!(machine.framebuffer().iter().all(|lit| !*lit));
    assert_eq!(machine.memory(0), 0xF0);
    assert_eq!(machine.memory(1), 0x90);
    assert_eq!(machine.memory(5), 0x20);
    assert_eq!(machine.memory(75), 0xF0);
    assert_eq!(machine.memory(79), 0x80);
    for address in 80..4096u16 {
        assert_eq!(machine.memory(address), 0);
    }
    for (offset, byte) in chip8::state::FONT.iter().enumerate() {
        assert_eq!(machine.memory(offset as u16), *byte);
    }
}

#[test]
fn unknown_words_only_step() {
    for opcode in [0x0000u16, 0x0123, 0x8008, 0x812F, 0xE000, 0xE19F, 0xF000, 0xF1FF] {
        let mut machine = Processor::new();
        machine.execute_opcode(0x6142).unwrap();
        assert_eq!(machine.execute_opcode(opcode), Ok(Progress::Advanced));
        assert_eq!(machine.program_counter(), 0x204);
        assert_eq!(machine.register(1), 0x42);
        assert_eq!(machine.register(0xF), 0);
        assert_eq!(machine.index(), 0);
        assert_eq!(machine.stack_depth(), 0);
    }
}

#[test]
fn fault_leaves_machine_unchanged() {
    let mut machine = Processor::new();
    machine.execute_opcode(0x6A11).unwrap();
    assert_eq!(machine.execute_opcode(0x00EE), Err(Fault::StackUnderflow));
    assert_eq!(machine.program_counter(), 0x202);
    assert_eq!(machine.register(0xA), 0x11);
    assert_eq!(machine.stack_depth(), 0);
}
