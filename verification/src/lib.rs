//! An interpreter for CHIP-8 programs: 4 KiB of memory, sixteen registers, a
//! call stack, two timers that count down, a screen of 64 by 32 pixels and a
//! keypad of sixteen keys.
//!
//! [`Emulator`] runs a program cycle by cycle on a [`Display`], asking an
//! [`Input`] for the keys. [`machine`] says what an instruction does to the
//! state of the interpreter, [`sprite`] what drawing does to the screen, and
//! [`laws`] holds what follows from the two.

use vstd::prelude::*;

pub mod cpu;
pub mod display;
pub mod emulator;
pub mod laws;
pub mod machine;
pub mod memory;
pub mod registers;
pub mod sprite;
pub mod stack;
pub mod timer;

pub use display::FramebufferDisplay;
pub use emulator::Emulator;

verus! {

/// The keypad as the interpreter sees it: sixteen keys, `0` to `F`.
pub trait Input {
    /// Whether the key `key` is held down.
    fn is_key_down(&self, key: u8) -> bool;

    /// A key that is held down now, if there is one.
    fn last_key_down(&self) -> Option<u8>;
}

/// The screen of the machine: 64 by 32 pixels, each lit or dark.
pub trait Display {
    /// What the display shows. A display says so itself; the contracts of
    /// the other methods are stated over it.
    open spec fn screen(&self) -> display::Screen {
        arbitrary()
    }

    /// Whether something was drawn since the flag was last cleared, so that
    /// the screen has to be shown again.
    fn is_dirty(&self) -> (dirty: bool)
        ensures
            dirty == self.screen().dirty,
    ;

    /// Clears the dirty flag, as a host does once it has shown the screen.
    fn clear_dirty(&mut self)
        ensures
            final(self).screen() == (display::Screen { dirty: false, ..old(self).screen() }),
    ;

    /// The pixels row by row, each as a colour of the form XRGB: white for a
    /// lit pixel, black for a dark one.
    fn rgba_framebuffer(&self) -> (colours: Vec<u32>)
        ensures
            colours@ == display::rendered(self.screen().pixels),
    ;

    /// Draws the sprite that `memory` holds in the `bytes_to_read` bytes from
    /// `base_address` on, one byte for each row of eight pixels, with its top
    /// left corner at column `x` of row `y`. Drawing inverts the pixels under
    /// the sprite's set pixels. The result says whether a set pixel of the
    /// sprite came down on a lit one.
    fn draw_sprite(
        &mut self,
        x: u8,
        y: u8,
        base_address: u16,
        bytes_to_read: u8,
        memory: &memory::Memory,
    ) -> (collided: bool)
        requires
            base_address + bytes_to_read <= memory::MEMORY_SIZE,
        ensures
            final(self).screen().pixels == sprite::drawn(
                old(self).screen().pixels,
                memory@.subrange(base_address as int, base_address + bytes_to_read),
                x as int,
                y as int,
            ),
            final(self).screen().dirty,
            collided == sprite::collides(
                old(self).screen().pixels,
                memory@.subrange(base_address as int, base_address + bytes_to_read),
                x as int,
                y as int,
            ),
    ;

    /// Makes every pixel dark.
    fn cls(&mut self)
        ensures
            final(self).screen() == (display::Screen { pixels: display::blank(), dirty: true }),
    ;
}

} // verus!
