use chip8::processor::Processor;
use chip8::state::Progress;

fn machine_with(v0: u8, v1: u8) -> Processor {
    let mut machine = Processor::new();
    machine.execute_opcode(0x6000 | v0 as u16).unwrap();
    machine.execute_opcode(0x6100 | v1 as u16).unwrap();
    machine
}

#[test]
fn assign_copies_register() {
    let mut machine = machine_with(0x12, 0x34);
    machine.execute_opcode(0x8010).unwrap();
    assert_eq!(machine.register(0), 0x34);
    assert_eq!(machine.register(1), 0x34);
    assert_eq!(machine.register(0xF), 0);
}

#[test]
fn bitwise_operations() {
    let mut machine = machine_with(0b1100_1010, 0b1010_0110);
    machine.execute_opcode(0x8011).unwrap();
    assert_eq!(machine.register(0), 0b1110_1110);
    let mut machine = machine_with(0b1100_1010, 0b1010_0110);
    machine.execute_opcode(0x8012).unwrap();
    assert_eq!(machine.register(0), 0b1000_0010);
    let mut machine = machine_with(0b1100_1010, 0b1010_0110);
    machine.execute_opcode(0x8013).unwrap();
    assert_eq!(machine.register(0), 0b0110_1100);
    assert_eq!(machine.register(0xF), 0);
    assert_eq!(machine.program_counter(), 0x206);
}

#[test]
fn add_sets_flag_on_carry() {
    let mut machine = machine_with(200, 100);
    machine.execute_opcode(0x8014).unwrap();
    assert_eq!(machine.register(0), 44);
    assert_eq!(machine.register(0xF), 1);
}

#[test]
fn add_clears_flag_without_carry() {
    let mut machine = machine_with(200, 55);
    machine.execute_opcode(0x6F01).unwrap();
    machine.execute_opcode(0x8014).unwrap();
    assert_eq!(machine.register(0), 255);
    assert_eq!(machine.register(0xF), 0);
}

#[test]
fn add_into_flag_register_keeps_flag() {
    let mut machine = machine_with(0, 0x10);
    machine.execute_opcode(0x6FF8).unwrap();
    machine.execute_opcode(0x8F14).unwrap();
    assert_eq!(machine.register(0xF), 1);
    let mut machine = machine_with(0, 0x01);
    machine.execute_opcode(0x6F08).unwrap();
    machine.execute_opcode(0x8F14).unwrap();
    assert_eq!(machine.register(0xF), 0);
}

#[test]
fn subtract_sets_flag_when_no_borrow() {
    let mut machine = machine_with(10, 5);
    machine.execute_opcode(0x8015).unwrap();
    assert_eq!(machine.register(0), 5);
    assert_eq!(machine.register(0xF), 1);
}

#[test]
fn subtract_equal_operands_sets_flag() {
    let mut machine = machine_with(7, 7);
    machine.execute_opcode(0x8015).unwrap();
    assert_eq!(machine.register(0), 0);
    assert_eq!(machine.register(0xF), 1);
}

#[test]
fn subtract_clears_flag_on_borrow() {
    let mut machine = machine_with(5, 10);
    machine.execute_opcode(0x6F01).unwrap();
    machine.execute_opcode(0x8015).unwrap();
    assert_eq!(machine.register(0), 251);
    assert_eq!(machine.register(0xF), 0);
}

#[test]
fn subtract_reverse_uses_second_register_as_minuend() {
    let mut machine = machine_with(5, 10);
    machine.execute_opcode(0x8017).unwrap();
    assert_eq!(machine.register(0), 5);
    assert_eq!(machine.register(1), 10);
    assert_eq!(machine.register(0xF), 1);
    let mut machine = machine_with(10, 5);
    machine.execute_opcode(0x8017).unwrap();
    assert_eq!(machine.register(0), 251);
    assert_eq!(machine.register(0xF), 0);
}

#[test]
fn shift_right_moves_low_bit_to_flag() {
    let mut machine = machine_with(5, 0);
    machine.execute_opcode(0x8006).unwrap();
    assert_eq!(machine.register(0), 2);
    assert_eq!(machine.register(0xF), 1);
    let mut machine = machine_with(4, 0);
    machine.execute_opcode(0x6F01).unwrap();
    machine.execute_opcode(0x8006).unwrap();
    assert_eq!(machine.register(0), 2);
    assert_eq!(machine.register(0xF), 0);
}

#[test]
fn shift_left_moves_high_bit_to_flag() {
    let mut machine = machine_with(0x81, 0);
    machine.execute_opcode(0x800E).unwrap();
    assert_eq!(machine.register(0), 0x02);
    assert_eq!(machine.register(0xF), 1);
    let mut machine = machine_with(0x41, 0);
    machine.execute_opcode(0x6F01).unwrap();
    machine.execute_opcode(0x800E).unwrap();
    assert_eq!(machine.register(0), 0x82);
    assert_eq!(machine.register(0xF), 0);
}

#[test]
fn shift_of_flag_register_shifts_the_captured_bit() {
    let mut machine = Processor::new();
    machine.execute_opcode(0x6F03).unwrap();
    machine.execute_opcode(0x8F06).unwrap();
    assert_eq!(machine.register(0xF), 0);
    let mut machine = Processor::new();
    machine.execute_opcode(0x6F80).unwrap();
    machine.execute_opcode(0x8F0E).unwrap();
    assert_eq!(machine.register(0xF), 2);
}

#[test]
fn random_is_masked() {
    let mut machine = Processor::new();
    assert_eq!(machine.execute_opcode_with(0xC00F, 0xAB), Ok(Progress::Advanced));
    assert_eq!(machine.register(0), 0x0B);
    assert_eq!(machine.program_counter(), 0x202);
    machine.execute_opcode_with(0xC1F0, 0xAB).unwrap();
    assert_eq!(machine.register(1), 0xA0);
    machine.execute_opcode_with(0xC2FF, 0x00).unwrap();
    assert_eq!(machine.register(2), 0x00);
}

#[test]
fn random_from_generator_respects_mask() {
    let mut machine = Processor::new();
    for _ in 0..200 {
        machine.execute_opcode(0x6355).unwrap();
        machine.execute_opcode(0xC300).unwrap();
        assert_eq!(machine.register(3), 0);
        machine.execute_opcode(0xC40F).unwrap();
        assert!(machine.register(4) <= 0x0F);
        machine.execute_opcode(0x1200).unwrap();
    }
}

#[test]
fn random_byte_is_ignored_by_other_operations() {
    let mut first = machine_with(9, 3);
    let mut second = machine_with(9, 3);
    first.execute_opcode_with(0x8014, 0x00).unwrap();
    second.execute_opcode_with(0x8014, 0xFF).unwrap();
    assert_eq!(first.register(0), second.register(0));
    assert_eq!(first.register(0), 12);
}

#[test]
fn store_bcd_writes_three_digits() {
    let mut machine = machine_with(254, 0);
    machine.execute_opcode(0xA300).unwrap();
    assert_eq!(machine.execute_opcode(0xF033), Ok(Progress::Advanced));
    assert_eq!(machine.memory(0x300), 2);
    assert_eq!(machine.memory(0x301), 5);
    assert_eq!(machine.memory(0x302), 4);
    assert_eq!(machine.index(), 0x300);
    let mut machine = machine_with(7, 0);
    machine.execute_opcode(0xA300).unwrap();
    machine.execute_opcode(0xF033).unwrap();
    assert_eq!(machine.memory(0x300), 0);
    assert_eq!(machine.memory(0x301), 0);
    assert_eq!(machine.memory(0x302), 7);
    let mut machine = machine_with(123, 0);
    machine.execute_opcode(0xA300).unwrap();
    machine.execute_opcode(0xF033).unwrap();
    assert_eq!(machine.memory(0x300), 1);
    assert_eq!(machine.memory(0x301), 2);
    assert_eq!(machine.memory(0x302), 3);
}

#[test]
fn add_to_index_wraps_in_address_space() {
    let mut machine = machine_with(2, 0);
    machine.execute_opcode(0xAFFF).unwrap();
    machine.execute_opcode(0xF01E).unwrap();
    assert_eq!(machine.index(), 1);
    assert_eq!(machine.register(0xF), 0);
    let mut machine = machine_with(0x20, 0);
    machine.execute_opcode(0xA100).unwrap();
    machine.execute_opcode(0xF01E).unwrap();
    assert_eq!(machine.index(), 0x120);
}

#[test]
fn font_address_points_at_glyph() {
    let mut machine = machine_with(0xA, 0);
    machine.execute_opcode(0xF029).unwrap();
    assert_eq!(machine.index(), 50);
    assert_eq!(machine.memory(machine.index()), 0xF0);
    assert_eq!(machine.memory(machine.index() + 4), 0x90);
    let mut machine = machine_with(0xFF, 0);
    machine.execute_opcode(0xF029).unwrap();
    assert_eq!(machine.index(), 1275);
}
