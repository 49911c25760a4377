use vstd::prelude::*;
use crate::memory::overwritten;

verus! {

/// The number of general registers.
pub const REGISTER_COUNT: usize = 16;

/// The register that instructions use to report a carry, a borrow or a
/// collision.
pub const FLAG_REGISTER: u16 = 0xF;

/// The sixteen general registers, `V0` to `VF`, eight bits each.
#[derive(Debug)]
pub struct Registers([u8; 16]);

impl View for Registers {
    type V = Seq<u8>;

    /// The sixteen values, `V0` first.
    closed spec fn view(&self) -> Seq<u8> {
        self.0@
    }
}

impl Registers {
    /// There are always sixteen registers.
    pub proof fn lemma_size(&self)
        ensures
            self@.len() == REGISTER_COUNT,
    {
    }

    /// The registers `V0` to the one numbered `idx`, that one included.
    pub fn as_slice_through(&self, idx: u16) -> (values: &[u8])
        requires
            idx < REGISTER_COUNT,
        ensures
            values@ == self@.take(idx + 1),
    {
        &self.0[0..(idx as usize + 1)]
    }

    /// Loads `slice` into the registers, its first value into `V0`. The
    /// registers that `slice` does not reach keep their values.
    pub fn clone_from_slice(&mut self, slice: &[u8])
        requires
            slice@.len() <= REGISTER_COUNT,
        ensures
            final(self)@ == overwritten(old(self)@, 0, slice@),
    {
        let mut k: usize = 0;
        while k < slice.len()
            invariant
                k <= slice@.len() <= 16,
                self@ == overwritten(old(self)@, 0, slice@.take(k as int)),
            decreases slice@.len() - k,
        {
            self.0[k] = slice[k];
            k += 1;
        }
        assert(slice@.take(k as int) == slice@);
    }

    /// Puts `value` into the register numbered `address`.
    pub fn set(&mut self, address: u16, value: u8)
        requires
            address < REGISTER_COUNT,
        ensures
            final(self)@ == old(self)@.update(address as int, value),
    {
        self.0[address as usize] = value;
    }
}

impl core::ops::Index<u16> for Registers {
    type Output = u8;

    /// The value of the register numbered `address`.
    fn index(&self, address: u16) -> (value: &u8)
        ensures
            *value == self@[address as int],
    {
        &self.0[address as usize]
    }
}

impl vstd::std_specs::core::IndexSpecImpl<u16> for Registers {
    open spec fn index_req(&self, index: &u16) -> bool {
        *index < REGISTER_COUNT
    }
}

impl Default for Registers {
    /// Sixteen registers that hold zero.
    fn default() -> (registers: Registers)
        ensures
            registers@ == Seq::new(REGISTER_COUNT as nat, |i: int| 0u8),
    {
        let registers = Registers([0u8; 16]);
        assert(registers@ =~= Seq::new(REGISTER_COUNT as nat, |i: int| 0u8));
        registers
    }
}

} // verus!
