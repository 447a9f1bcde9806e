//! A fixed-width storage cell with masked bit operations.

use vstd::prelude::*;

use crate::gba_cpu::RType;

verus! {

/// A 32-bit storage cell. Every mutation restricts the supplied value to the
/// supplied mask before applying it, leaving all other bits untouched.
#[derive(Copy, Clone, Debug)]
pub struct Register(pub RType);

impl View for Register {
    type V = RType;

    open spec fn view(&self) -> RType {
        self.0
    }
}

impl Register {
    pub fn read(&self) -> (r: RType)
        ensures
            r == self@,
    {
        self.0
    }

    pub fn write(&mut self, val: RType)
        ensures
            final(self)@ == val,
    {
        self.0 = val
    }

    pub fn read_masked(&self, mask: RType) -> (r: RType)
        ensures
            r == (self@ & mask),
    {
        self.0 & mask
    }

    pub fn set(&mut self, mask: RType, val: RType)
        ensures
            final(self)@ == (old(self)@ | (val & mask)),
    {
        self.0 |= val & mask
    }

    pub fn reset(&mut self, mask: RType, val: RType)
        ensures
            final(self)@ == (old(self)@ & !(val & mask)),
    {
        self.0 &= !(val & mask)
    }

    pub fn toggle(&mut self, mask: RType, val: RType)
        ensures
            final(self)@ == (old(self)@ ^ (val & mask)),
    {
        self.0 ^= val & mask
    }
}

impl Default for Register {
    fn default() -> (r: Register)
        ensures
            r@ == 0u32,
    {
        Register(0)
    }
}

} // verus!
