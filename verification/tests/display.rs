use chip_8::memory::Memory;
use chip_8::{Display, FramebufferDisplay};

fn memory_with(sprite: &[u8]) -> Memory {
    let mut memory = Memory::default();
    memory.copy_from_slice(0x300, sprite);
    memory
}

fn lit_pixels(display: &FramebufferDisplay) -> Vec<(usize, usize)> {
    display
        .rgba_framebuffer()
        .iter()
        .enumerate()
        .filter(|(_, &colour)| colour == 0x00FF_FFFF)
        .map(|(i, _)| (i % 64, i / 64))
        .collect()
}

#[test]
fn a_new_display_is_dark_and_dirty() {
    let display = FramebufferDisplay::default();

    assert!(display.is_dirty());
    assert_eq!(display.rgba_framebuffer(), vec![0u32; 2048]);
}

#[test]
fn clear_dirty_clears_only_the_flag() {
    let mut display = FramebufferDisplay::default();
    display.draw_sprite(0, 0, 0x300, 1, &memory_with(&[0xA0]));

    display.clear_dirty();

    assert!(!display.is_dirty());
    assert_eq!(lit_pixels(&display), vec![(0, 0), (2, 0)]);
}

#[test]
fn reading_the_pixels_leaves_the_flag_alone() {
    let mut display = FramebufferDisplay::default();

    display.rgba_framebuffer();
    display.coloured_framebuffer(1, 2);
    assert!(display.is_dirty());

    display.clear_dirty();
    display.rgba_framebuffer();
    display.coloured_framebuffer(1, 2);
    assert!(!display.is_dirty());
}

#[test]
fn the_highest_bit_is_the_leftmost_pixel() {
    let mut display = FramebufferDisplay::default();

    let collided = display.draw_sprite(8, 4, 0x300, 2, &memory_with(&[0x80, 0x01]));

    assert!(!collided);
    assert_eq!(lit_pixels(&display), vec![(8, 4), (15, 5)]);
}

#[test]
fn pixels_come_row_by_row() {
    let mut display = FramebufferDisplay::default();
    display.draw_sprite(3, 2, 0x300, 1, &memory_with(&[0x80]));

    let colours = display.rgba_framebuffer();

    assert_eq!(colours.len(), 64 * 32);
    assert_eq!(colours[2 * 64 + 3], 0x00FF_FFFF);
    assert_eq!(colours.iter().filter(|&&colour| colour != 0).count(), 1);
}

#[test]
fn colours_of_choice() {
    let mut display = FramebufferDisplay::default();
    display.draw_sprite(1, 0, 0x300, 1, &memory_with(&[0xC0]));

    let colours = display.coloured_framebuffer(0x002C_5066, 0x0068_BBED);

    assert_eq!(colours.len(), 2048);
    assert_eq!(colours[0], 0x002C_5066);
    assert_eq!(colours[1], 0x0068_BBED);
    assert_eq!(colours[2], 0x0068_BBED);
    assert_eq!(colours[3], 0x002C_5066);
    assert_eq!(colours[2047], 0x002C_5066);
}

#[test]
fn drawing_sets_the_flag_whatever_is_drawn() {
    let mut display = FramebufferDisplay::default();
    display.clear_dirty();

    display.draw_sprite(0, 0, 0x300, 1, &memory_with(&[0x00]));
    assert!(display.is_dirty());

    display.clear_dirty();
    display.draw_sprite(0, 0, 0x300, 0, &memory_with(&[0xFF]));
    assert!(display.is_dirty());
    assert_eq!(lit_pixels(&display), vec![]);
}

#[test]
fn drawing_inverts_and_reports_a_collision() {
    let mut display = FramebufferDisplay::default();
    let memory = memory_with(&[0xF0, 0x3C, 0xC0]);

    assert!(!display.draw_sprite(0, 0, 0x300, 1, &memory));
    assert_eq!(lit_pixels(&display), vec![(0, 0), (1, 0), (2, 0), (3, 0)]);

    // 0x3C at the same place: columns 2 to 5
    assert!(display.draw_sprite(0, 0, 0x301, 1, &memory));
    assert_eq!(lit_pixels(&display), vec![(0, 0), (1, 0), (4, 0), (5, 0)]);

    // 0xC0 two columns on: columns 2 and 3, no set pixel on a lit one
    assert!(!display.draw_sprite(2, 0, 0x302, 1, &memory));
    assert_eq!(
        lit_pixels(&display),
        vec![(0, 0), (1, 0), (2, 0), (3, 0), (4, 0), (5, 0)]
    );
}

#[test]
fn same_sprite_twice() {
    let mut display = FramebufferDisplay::default();
    let memory = memory_with(&[0x3C, 0xC3, 0xFF]);
    display.draw_sprite(20, 20, 0x300, 1, &memory);
    let before = display.rgba_framebuffer();
    display.clear_dirty();

    assert!(!display.draw_sprite(61, 30, 0x300, 3, &memory));
    assert!(display.is_dirty());
    assert_ne!(display.rgba_framebuffer(), before);
    display.clear_dirty();

    assert!(display.draw_sprite(61, 30, 0x300, 3, &memory));
    assert!(display.is_dirty());
    assert_eq!(display.rgba_framebuffer(), before);
}

#[test]
fn sprite_wraps_around_the_edges() {
    let mut display = FramebufferDisplay::default();

    display.draw_sprite(62, 31, 0x300, 2, &memory_with(&[0xE0, 0xE0]));

    assert_eq!(
        lit_pixels(&display),
        vec![(0, 0), (62, 0), (63, 0), (0, 31), (62, 31), (63, 31)]
    );
}

#[test]
fn coordinates_past_the_screen_wrap() {
    let mut display = FramebufferDisplay::default();

    display.draw_sprite(64 + 5, 32 * 7 + 3, 0x300, 1, &memory_with(&[0x80]));
    assert_eq!(lit_pixels(&display), vec![(5, 3)]);

    display.draw_sprite(250, 250, 0x300, 1, &memory_with(&[0x01]));
    assert_eq!(lit_pixels(&display), vec![(5, 3), ((250 + 7) % 64, 250 % 32)]);
}

#[test]
fn a_sprite_taller_than_the_screen_meets_itself() {
    let mut display = FramebufferDisplay::default();
    let mut sprite = vec![0u8; 33];
    sprite[0] = 0xC0;
    sprite[32] = 0x40;

    // row 32 comes down on row 0 again
    let collided = display.draw_sprite(0, 0, 0x300, 33, &memory_with(&sprite));

    assert!(collided);
    assert_eq!(lit_pixels(&display), vec![(0, 0)]);
}

#[test]
fn clear_makes_every_pixel_dark() {
    let mut display = FramebufferDisplay::default();
    display.draw_sprite(0, 0, 0x300, 2, &memory_with(&[0xFF, 0xFF]));
    display.clear_dirty();

    display.cls();

    assert!(display.is_dirty());
    assert_eq!(display.rgba_framebuffer(), vec![0u32; 2048]);
}

#[test]
fn sprite_is_read_up_to_the_end_of_memory() {
    let mut display = FramebufferDisplay::default();
    let mut memory = Memory::default();
    memory.copy_from_slice(4094, &[0x80, 0x80]);

    display.draw_sprite(0, 0, 4094, 2, &memory);

    assert_eq!(lit_pixels(&display), vec![(0, 0), (0, 1)]);
}
