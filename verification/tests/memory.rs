use chip_8::memory::{Memory, FONTSET_BASE_ADDRESS};

#[test]
fn memory_test_default() {
    let memory = Memory::default();

    assert_eq!(memory[FONTSET_BASE_ADDRESS], 0xF0);
    assert_eq!(memory[FONTSET_BASE_ADDRESS + 79], 0x80);
    assert_eq!(memory[0x200], 0x00);
}

#[test]
fn test_font_address_for_character() {
    let memory = Memory::default();

    assert_eq!(
        memory.font_address_for_character(5),
        FONTSET_BASE_ADDRESS + 25
    );
}

#[test]
fn test_copy_from_slice() {
    let mut memory = Memory::default();

    let rom = [0x00, 0xE0, 0x12, 0x00];
    memory.copy_from_slice(0x200, &rom);

    assert_eq!(memory.as_slice(0x200, 4), &rom);
}

#[test]
fn test_as_slice() {
    let memory = Memory::default();

    let expected = [0x90, 0x90, 0xF0, 0x10, 0x10];

    assert_eq!(memory.as_slice(FONTSET_BASE_ADDRESS + 20, 5), &expected);
}

#[test]
fn fresh_memory_holds_the_font_and_zeros() {
    let memory = Memory::default();

    assert_eq!(memory.as_slice(0, 0x50), &[0u8; 0x50]);
    assert_eq!(memory.as_slice(0x50, 5), &[0xF0, 0x90, 0x90, 0x90, 0xF0]);
    assert_eq!(memory.as_slice(0x50 + 75, 5), &[0xF0, 0x80, 0xF0, 0x80, 0x80]);
    assert_eq!(memory.as_slice(0x50, 80), &chip_8::memory::FONTSET);
    assert_eq!(memory.as_slice(0xA0, 4096 - 0xA0).iter().filter(|&&b| b != 0).count(), 0);
}

#[test]
fn font_addresses() {
    let memory = Memory::default();

    assert_eq!(memory.font_address_for_character(0), 0x50);
    assert_eq!(memory.font_address_for_character(1), 0x55);
    assert_eq!(memory.font_address_for_character(0xF), 0x50 + 75);
    assert_eq!(memory.font_address_for_character(255), 0x50 + 1275);
}

#[test]
fn copy_leaves_the_other_cells_alone() {
    let mut memory = Memory::default();

    memory.copy_from_slice(0x4F, &[1, 2, 3]);

    assert_eq!(memory.as_slice(0x4E, 5), &[0, 1, 2, 3, 0x90]);
}

#[test]
fn copy_and_read_up_to_the_last_cell() {
    let mut memory = Memory::default();

    memory.copy_from_slice(4094, &[7, 8]);
    memory.copy_from_slice(4096, &[]);

    assert_eq!(memory.as_slice(4094, 2), &[7, 8]);
    assert_eq!(memory.as_slice(4096, 0), &[0u8; 0]);
    assert_eq!(memory[4095], 8);
}

#[test]
fn set_writes_one_cell() {
    let mut memory = Memory::default();

    memory.set(0x200, 0xAB);
    memory.set(4095, 0xCD);

    assert_eq!(memory.as_slice(0x1FF, 3), &[0, 0xAB, 0]);
    assert_eq!(memory[4095], 0xCD);
}
