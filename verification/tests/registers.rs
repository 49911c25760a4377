use chip_8::registers::Registers;
use chip_8::stack::{Stack, STACK_SIZE};

#[test]
fn registers_start_at_zero() {
    let registers = Registers::default();

    assert_eq!(registers.as_slice_through(15), &[0u8; 16]);
}

#[test]
fn set_and_index() {
    let mut registers = Registers::default();

    registers.set(0, 1);
    registers.set(0xF, 0xFF);

    assert_eq!(registers[0], 1);
    assert_eq!(registers[1], 0);
    assert_eq!(registers[0xF], 0xFF);
}

#[test]
fn slice_through_includes_the_index() {
    let mut registers = Registers::default();
    registers.clone_from_slice(&[1, 2, 3, 4]);

    assert_eq!(registers.as_slice_through(0), &[1]);
    assert_eq!(registers.as_slice_through(2), &[1, 2, 3]);
    assert_eq!(registers.as_slice_through(4), &[1, 2, 3, 4, 0]);
}

#[test]
fn clone_from_a_short_slice_keeps_the_rest() {
    let mut registers = Registers::default();
    registers.clone_from_slice(&[9; 16]);

    registers.clone_from_slice(&[1, 2]);
    assert_eq!(
        registers.as_slice_through(15),
        &[1, 2, 9, 9, 9, 9, 9, 9, 9, 9, 9, 9, 9, 9, 9, 9]
    );

    registers.clone_from_slice(&[]);
    assert_eq!(registers[0], 1);
}

#[test]
fn stack_is_last_in_first_out() {
    let mut stack = Stack::new();
    assert_eq!(stack.depth(), 0);

    stack.push(0x202);
    stack.push(0x404);
    stack.push(0x606);
    assert_eq!(stack.depth(), 3);

    assert_eq!(stack.pop(), 0x606);
    stack.push(0x808);
    assert_eq!(stack.pop(), 0x808);
    assert_eq!(stack.pop(), 0x404);
    assert_eq!(stack.pop(), 0x202);
    assert_eq!(stack.depth(), 0);
}

#[test]
fn stack_holds_its_capacity() {
    let mut stack = Stack::default();

    for value in 0..STACK_SIZE as u16 {
        stack.push(value);
    }
    assert_eq!(stack.depth(), 128);

    for value in (0..STACK_SIZE as u16).rev() {
        assert_eq!(stack.pop(), value);
    }
}
