use vstd::prelude::*;
use crate::memory::Memory;
use crate::sprite::{
    collides, column_of, drawn, hit, law_hit, law_landing, pixel_index, row_collides, sprite_bit,
};
use crate::Display;

verus! {

/// The width of the screen in pixels.
pub const FRAME_BUFFER_PIXEL_WIDTH: usize = 64;

/// The height of the screen in pixels.
pub const FRAME_BUFFER_PIXEL_HEIGHT: usize = 32;

/// The colour `rgba_framebuffer` gives a lit pixel.
pub const PIXEL_ON: u32 = 0x00FF_FFFF;

/// The colour `rgba_framebuffer` gives a dark pixel.
pub const PIXEL_OFF: u32 = 0x0000_0000;

/// What a display shows.
#[verifier::ext_equal]
pub struct Screen {
    /// The pixels, 64 to a row, the top row first: `true` for a lit one.
    pub pixels: Seq<bool>,
    /// Whether anything was drawn since the flag was last cleared.
    pub dirty: bool,
}

/// A screen of the right size with every pixel dark.
pub open spec fn blank() -> Seq<bool> {
    Seq::new((FRAME_BUFFER_PIXEL_WIDTH * FRAME_BUFFER_PIXEL_HEIGHT) as nat, |i: int| false)
}

/// The colours of `pixels`, one for each pixel and in the same order: `lit`
/// for a lit pixel, `dark` for a dark one.
pub open spec fn coloured(pixels: Seq<bool>, dark: u32, lit: u32) -> Seq<u32> {
    Seq::new(
        pixels.len(),
        |i: int|
            if pixels[i] {
                lit
            } else {
                dark
            },
    )
}

/// The colours of `pixels` in white on black.
pub open spec fn rendered(pixels: Seq<bool>) -> Seq<u32> {
    coloured(pixels, PIXEL_OFF, PIXEL_ON)
}

/// Whether one of the first `upto` pixels of the sprite row `row`, drawn with
/// its left end at column `x` of row `y`, is set and lands on pixel `i`.
spec fn hit_before(row: u8, x: int, y: int, upto: int, i: int) -> bool {
    i / 64 == y % 32 && column_of(x, i) < upto && sprite_bit(row, column_of(x, i))
}

/// The pixels after the first `upto` pixels of the sprite row `row` were
/// drawn over `pixels` at `(x, y)`.
spec fn drawn_before(pixels: Seq<bool>, row: u8, x: int, y: int, upto: int) -> Seq<bool> {
    Seq::new(pixels.len(), |i: int| pixels[i] ^ hit_before(row, x, y, upto, i))
}

/// Whether one of the first `upto` pixels of the sprite row `row`, drawn at
/// `(x, y)`, is set and lands on a pixel that is lit in `pixels`.
spec fn row_collides_before(pixels: Seq<bool>, row: u8, x: int, y: int, upto: int) -> bool
    decreases upto,
{
    if upto <= 0 {
        false
    } else {
        row_collides_before(pixels, row, x, y, upto - 1) || (sprite_bit(row, upto - 1)
            && pixels[pixel_index(x + upto - 1, y)])
    }
}

/// One more pixel of a sprite row hits the pixel it lands on, if it is set,
/// and no other; and the pixel it lands on was not hit by the ones before it.
proof fn lemma_hit_next(row: u8, x: int, y: int, upto: int, i: int)
    requires
        0 <= upto < 8,
        0 <= i < 2048,
    ensures
        hit_before(row, x, y, upto + 1, i) == (hit_before(row, x, y, upto, i) || (i == pixel_index(
            x + upto,
            y,
        ) && sprite_bit(row, upto))),
        i == pixel_index(x + upto, y) ==> !hit_before(row, x, y, upto, i),
{
    law_landing(x, y, 0, upto);
    if i != pixel_index(x + upto, y) && i / 64 == y % 32 {
        assert(i % 64 != (x + upto) % 64);
        assert(column_of(x, i) != upto);
    }
}

/// The eight pixels of a sprite row collide where one that is set lands on a
/// lit pixel.
proof fn lemma_row_collides(pixels: Seq<bool>, row: u8, x: int, y: int, upto: int)
    requires
        0 <= upto <= 8,
    ensures
        row_collides_before(pixels, row, x, y, upto) <==> exists|column: int|
            column < upto && #[trigger] sprite_bit(row, column) && pixels[pixel_index(
                x + column,
                y,
            )],
    decreases upto,
{
    if upto > 0 {
        lemma_row_collides(pixels, row, x, y, upto - 1);
        if row_collides_before(pixels, row, x, y, upto) {
            if !row_collides_before(pixels, row, x, y, upto - 1) {
                let column = upto - 1;
                assert(sprite_bit(row, column) && pixels[pixel_index(x + column, y)]);
            }
        }
    }
}

/// A display that keeps its 64 by 32 pixels in memory, one byte a pixel, for
/// a host to read and show.
pub struct FramebufferDisplay {
    framebuffer: [u8; 2048],
    dirty: bool,
}

impl FramebufferDisplay {
    /// Every cell holds 0, a dark pixel, or 1, a lit one.
    #[verifier::type_invariant]
    spec fn cells_are_bits(self) -> bool {
        forall|i: int| 0 <= i < 2048 ==> self.framebuffer@[i] <= 1
    }

    /// Every display of this kind has 64 times 32 pixels.
    pub proof fn lemma_size(&self)
        ensures
            self@.pixels.len() == FRAME_BUFFER_PIXEL_WIDTH * FRAME_BUFFER_PIXEL_HEIGHT,
    {
    }

    /// The pixels row by row in two colours of the caller's choice: `lit`
    /// for a lit pixel, `dark` for a dark one. The dirty flag is left alone.
    pub fn coloured_framebuffer(&self, dark: u32, lit: u32) -> (colours: Vec<u32>)
        ensures
            colours@ == coloured(self@.pixels, dark, lit),
    {
        proof {
            use_type_invariant(self);
        }
        let mut colours: Vec<u32> = Vec::new();
        let mut i: usize = 0;
        while i < 2048
            invariant
                i <= 2048,
                colours@ == coloured(self@.pixels, dark, lit).take(i as int),
            decreases 2048 - i,
        {
            let byte = self.framebuffer[i];
            colours.push(
                if byte == 1 {
                    lit
                } else {
                    dark
                },
            );
            i += 1;
        }
        colours
    }
}

impl View for FramebufferDisplay {
    type V = Screen;

    closed spec fn view(&self) -> Screen {
        Screen {
            pixels: Seq::new(2048, |i: int| self.framebuffer@[i] == 1),
            dirty: self.dirty,
        }
    }
}

impl Default for FramebufferDisplay {
    /// A dark screen. It starts out dirty, so that a host shows it once.
    fn default() -> (display: FramebufferDisplay)
        ensures
            display@.pixels == blank(),
            display@.dirty,
    {
        FramebufferDisplay { framebuffer: [0u8; 2048], dirty: true }
    }
}

impl Display for FramebufferDisplay {
    open spec fn screen(&self) -> Screen {
        self@
    }

    fn is_dirty(&self) -> (dirty: bool) {
        self.dirty
    }

    fn clear_dirty(&mut self) {
        proof {
            use_type_invariant(&*self);
        }
        self.dirty = false;
    }

    fn rgba_framebuffer(&self) -> (colours: Vec<u32>) {
        self.coloured_framebuffer(PIXEL_OFF, PIXEL_ON)
    }

    fn cls(&mut self) {
        self.framebuffer = [0u8; 2048];
        self.dirty = true;
        assert(self@.pixels =~= blank());
    }

    fn draw_sprite(
        &mut self,
        x: u8,
        y: u8,
        base_address: u16,
        bytes_to_read: u8,
        memory: &Memory,
    ) -> (collided: bool) {
        proof {
            use_type_invariant(&*self);
            memory.lemma_size();
        }
        self.dirty = true;
        let sprites = memory.as_slice(base_address, bytes_to_read as u16);
        let ghost before = self@.pixels;
        let ghost rows = sprites@;
        let mut did_collide = false;
        let mut y_offset: usize = 0;
        while y_offset < sprites.len()
            invariant
                y_offset <= rows.len(),
                rows == sprites@,
                rows.len() <= 255,
                before.len() == 2048,
                self.dirty,
                self@.pixels == drawn(before, rows.take(y_offset as int), x as int, y as int),
                did_collide == collides(before, rows.take(y_offset as int), x as int, y as int),
            decreases rows.len() - y_offset,
        {
            let ghost row_start = self@.pixels;
            let inner_collide = self.draw_row(sprites[y_offset], x, y as usize + y_offset);
            did_collide = did_collide || inner_collide;
            proof {
                let shorter = rows.take(y_offset as int);
                let longer = rows.take(y_offset as int + 1);
                assert(longer.drop_last() == shorter);
                assert(longer.last() == rows[y_offset as int]);
                assert(self@.pixels =~= drawn(before, longer, x as int, y as int));
            }
            y_offset += 1;
        }
        assert(rows.take(y_offset as int) == rows);
        did_collide
    }
}

impl FramebufferDisplay {
    /// Draws the eight pixels of the sprite row `sprite` with its left end at
    /// column `x` of row `y`, and says whether a set pixel came down on a lit
    /// one.
    fn draw_row(&mut self, sprite: u8, x: u8, y: usize) -> (collided: bool)
        ensures
            final(self)@.pixels == Seq::new(
                2048,
                |i: int| old(self)@.pixels[i] ^ hit(sprite, x as int, y as int, i),
            ),
            final(self)@.dirty == old(self)@.dirty,
            collided == row_collides(old(self)@.pixels, sprite, x as int, y as int),
    {
        proof {
            use_type_invariant(&*self);
        }
        let y_norm = y % FRAME_BUFFER_PIXEL_HEIGHT;
        let ghost row_start = self@.pixels;
        let mut inner_collide = false;
        let mut x_bit: u8 = 0;
        while x_bit < 8
            invariant
                x_bit <= 8,
                y_norm == y % 32,
                row_start.len() == 2048,
                forall|i: int| 0 <= i < 2048 ==> self.framebuffer@[i] <= 1,
                self.dirty == old(self).dirty,
                self@.pixels == drawn_before(row_start, sprite, x as int, y as int, x_bit as int),
                inner_collide == row_collides_before(
                    row_start,
                    sprite,
                    x as int,
                    y as int,
                    x_bit as int,
                ),
            decreases 8 - x_bit,
        {
            let x_norm = (x as usize + x_bit as usize) % FRAME_BUFFER_PIXEL_WIDTH;
            let sprite_pixel = (sprite >> (7 - x_bit)) & 1;
            let buffer_index = y_norm * FRAME_BUFFER_PIXEL_WIDTH + x_norm;
            let previous_display_value = self.framebuffer[buffer_index];
            assert(sprite_pixel <= 1) by (bit_vector)
                requires
                    sprite_pixel == (sprite >> ((7 - x_bit) as u8)) & 1,
            ;
            assert(previous_display_value ^ sprite_pixel == if (previous_display_value == 1) != (
            sprite_pixel == 1) {
                1u8
            } else {
                0u8
            }) by (bit_vector)
                requires
                    previous_display_value <= 1,
                    sprite_pixel <= 1,
            ;
            let ghost previous = self@.pixels;
            self.framebuffer[buffer_index] = previous_display_value ^ sprite_pixel;
            if sprite_pixel > 0 {
                inner_collide = inner_collide || previous_display_value == 1;
            }
            proof {
                let target = buffer_index as int;
                let next = drawn_before(row_start, sprite, x as int, y as int, x_bit as int + 1);
                assert(target == pixel_index(x as int + x_bit as int, y as int));
                assert((sprite_pixel == 1) == sprite_bit(sprite, x_bit as int));
                lemma_hit_next(sprite, x as int, y as int, x_bit as int, target);
                assert(previous[target] == row_start[target]);
                assert((previous_display_value == 1) == previous[target]);
                assert(self@.pixels[target] == (previous[target] ^ sprite_bit(
                    sprite,
                    x_bit as int,
                )));
                assert forall|i: int| 0 <= i < 2048 implies self@.pixels[i] == next[i] by {
                    lemma_hit_next(sprite, x as int, y as int, x_bit as int, i);
                    if i != target {
                        assert(self@.pixels[i] == previous[i]);
                    }
                }
                assert(self@.pixels =~= next);
            }
            x_bit += 1;
        }
        proof {
            lemma_row_collides(row_start, sprite, x as int, y as int, 8);
            assert forall|i: int| 0 <= i < 2048 implies hit_before(
                sprite,
                x as int,
                y as int,
                8,
                i,
            ) == hit(sprite, x as int, y as int, i) by {
                law_hit(sprite, x as int, y as int, i);
            }
            assert(self@.pixels =~= Seq::new(
                2048,
                |i: int| row_start[i] ^ hit(sprite, x as int, y as int, i),
            ));
        }
        inner_collide
    }
}

} // verus!
