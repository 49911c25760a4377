use vstd::prelude::*;

verus! {

/// The number of addressable bytes.
pub const MEMORY_SIZE: usize = 4096;

/// The address at which the built-in font starts.
pub const FONTSET_BASE_ADDRESS: u16 = 0x50;

/// The address at which a program is loaded and starts to run.
pub const PROGRAM_BASE_ADDRESS: u16 = 0x200;

/// The built-in font: sixteen glyphs, `0` to `F`, five bytes each. Every byte
/// is one row of a glyph, its pixels in the high four bits.
pub const FONTSET: [u8; 80] = [
    0xF0, 0x90, 0x90, 0x90, 0xF0,
    0x20, 0x60, 0x20, 0x20, 0x70,
    0xF0, 0x10, 0xF0, 0x80, 0xF0,
    0xF0, 0x10, 0xF0, 0x10, 0xF0,
    0x90, 0x90, 0xF0, 0x10, 0x10,
    0xF0, 0x80, 0xF0, 0x10, 0xF0,
    0xF0, 0x80, 0xF0, 0x90, 0xF0,
    0xF0, 0x10, 0x20, 0x40, 0x40,
    0xF0, 0x90, 0xF0, 0x90, 0xF0,
    0xF0, 0x90, 0xF0, 0x10, 0xF0,
    0xF0, 0x90, 0xF0, 0x90, 0x90,
    0xE0, 0x90, 0xE0, 0x90, 0xE0,
    0xF0, 0x80, 0x80, 0x80, 0xF0,
    0xE0, 0x90, 0x90, 0x90, 0xE0,
    0xF0, 0x80, 0xF0, 0x80, 0xF0,
    0xF0, 0x80, 0xF0, 0x80, 0x80,
];

/// `cells` with `bytes` written over it from address `base` on. Every other
/// cell keeps its value.
pub open spec fn overwritten(cells: Seq<u8>, base: int, bytes: Seq<u8>) -> Seq<u8> {
    Seq::new(
        cells.len(),
        |a: int|
            if base <= a < base + bytes.len() {
                bytes[a - base]
            } else {
                cells[a]
            },
    )
}

/// What memory holds before any program is loaded: the font at its base
/// address and zero everywhere else.
pub open spec fn pristine() -> Seq<u8> {
    overwritten(Seq::new(MEMORY_SIZE as nat, |a: int| 0u8), FONTSET_BASE_ADDRESS as int, FONTSET@)
}

/// The address of the glyph for `character`.
pub open spec fn glyph_address(character: u8) -> int {
    FONTSET_BASE_ADDRESS + character * 5
}

/// Main memory: 4 KiB of bytes. The addresses below `0x200` are reserved;
/// the built-in font lives there.
pub struct Memory {
    memory: [u8; 4096],
}

impl View for Memory {
    type V = Seq<u8>;

    /// The 4096 bytes, by address.
    closed spec fn view(&self) -> Seq<u8> {
        self.memory@
    }
}

impl Memory {
    /// Fresh memory: the font is in place and a program can be loaded at
    /// `0x200`.
    pub fn new() -> (memory: Memory)
        ensures
            memory@ == pristine(),
    {
        let base = FONTSET_BASE_ADDRESS as usize;
        let mut memory = [0u8; 4096];
        let mut k: usize = 0;
        while k < 80
            invariant
                k <= 80,
                base == FONTSET_BASE_ADDRESS,
                forall|a: int|
                    0 <= a < 4096 ==> memory@[a] == if base <= a < base + k {
                        FONTSET@[a - base]
                    } else {
                        0u8
                    },
            decreases 80 - k,
        {
            memory[base + k] = FONTSET[k];
            k += 1;
        }
        Memory { memory }
    }

    /// Every memory holds 4096 bytes.
    pub proof fn lemma_size(&self)
        ensures
            self@.len() == MEMORY_SIZE,
    {
    }

    /// The address of the glyph for `character`: five bytes for each
    /// character before it, counted from the font's base address.
    pub fn font_address_for_character(&self, character: u8) -> (address: u16)
        ensures
            address == glyph_address(character),
    {
        FONTSET_BASE_ADDRESS + (character as u16 * 5)
    }

    /// Writes `slice` into memory from `base_address` on.
    pub fn copy_from_slice(&mut self, base_address: u16, slice: &[u8])
        requires
            base_address + slice@.len() <= MEMORY_SIZE,
        ensures
            final(self)@ == overwritten(old(self)@, base_address as int, slice@),
    {
        let base = base_address as usize;
        let mut k: usize = 0;
        while k < slice.len()
            invariant
                k <= slice@.len(),
                base == base_address,
                base + slice@.len() <= 4096,
                self@ == overwritten(old(self)@, base as int, slice@.take(k as int)),
            decreases slice@.len() - k,
        {
            self.memory[base + k] = slice[k];
            k += 1;
        }
        assert(slice@.take(k as int) == slice@);
    }

    /// Writes `value` to the cell at `address`.
    pub fn set(&mut self, address: u16, value: u8)
        requires
            address < MEMORY_SIZE,
        ensures
            final(self)@ == old(self)@.update(address as int, value),
    {
        self.memory[address as usize] = value;
    }

    /// The `length` bytes from `base_address` on.
    pub fn as_slice(&self, base_address: u16, length: u16) -> (bytes: &[u8])
        requires
            base_address + length <= MEMORY_SIZE,
        ensures
            bytes@ == self@.subrange(base_address as int, base_address + length),
    {
        &self.memory[base_address as usize..(base_address as usize + length as usize)]
    }
}

impl core::ops::Index<u16> for Memory {
    type Output = u8;

    /// The byte at `address`.
    fn index(&self, address: u16) -> (cell: &u8)
        ensures
            *cell == self@[address as int],
    {
        &self.memory[address as usize]
    }
}

impl vstd::std_specs::core::IndexSpecImpl<u16> for Memory {
    open spec fn index_req(&self, index: &u16) -> bool {
        *index < MEMORY_SIZE
    }
}

impl Default for Memory {
    fn default() -> (memory: Memory)
        ensures
            memory@ == pristine(),
    {
        Memory::new()
    }
}

} // verus!
