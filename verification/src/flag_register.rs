//! A one-byte register of named flag bits. The CPU status register and the
//! PPU control, mask and status registers all share this shape: a raw byte
//! plus a phantom discriminator naming the enumeration of flag positions.
use core::marker::PhantomData;
use vstd::prelude::*;

verus! {

/// An enumeration of flag positions inside one byte. Each variant names a
/// bit mask; `spec_mask` is the mask in specifications and `mask` computes it.
pub trait Flag: Sized {
    /// The bit mask this flag selects, as seen by contracts.
    spec fn spec_mask(&self) -> u8;

    /// The bit mask this flag selects.
    fn mask(&self) -> (r: u8)
        ensures
            r == self.spec_mask(),
    ;
}

/// One byte of flags, tagged by the enumeration `F` of its bit positions.
pub struct FlagRegister<F>(pub u8, pub PhantomData<F>);

impl<F: Flag> FlagRegister<F> {
    /// Replaces the whole byte.
    pub fn set(&mut self, val: u8)
        ensures
            final(self).0 == val,
    {
        self.0 = val;
    }

    /// Reads one flag as an integer: 1 when raised, 0 when lowered.
    pub fn get_bit(&self, flag: F) -> (r: u8)
        ensures
            r == (if self.0 & flag.spec_mask() != 0 { 1u8 } else { 0u8 }),
    {
        if self.is_raised(flag) {
            1
        } else {
            0
        }
    }

    /// Raises or lowers one flag according to `value`.
    pub fn set_bit(&mut self, flag: F, value: bool)
        ensures
            value ==> final(self).0 == old(self).0 | flag.spec_mask(),
            !value ==> final(self).0 == old(self).0 & !flag.spec_mask(),
    {
        if value {
            self.raise(flag)
        } else {
            self.low(flag)
        }
    }

    /// Raises one flag, leaving the other bits alone.
    pub fn raise(&mut self, flag: F)
        ensures
            final(self).0 == old(self).0 | flag.spec_mask(),
    {
        self.0 = self.0 | flag.mask();
    }

    /// Lowers one flag, leaving the other bits alone.
    pub fn low(&mut self, flag: F)
        ensures
            final(self).0 == old(self).0 & !flag.spec_mask(),
    {
        self.0 = self.0 & !flag.mask();
    }

    /// True when the flag is raised.
    pub fn is_raised(&self, flag: F) -> (r: bool)
        ensures
            r == (self.0 & flag.spec_mask() != 0),
    {
        (self.0 & flag.mask()) != 0
    }

    /// True when the flag is lowered.
    pub fn is_lowered(&self, flag: F) -> (r: bool)
        ensures
            r == (self.0 & flag.spec_mask() == 0),
    {
        !self.is_raised(flag)
    }
}

} // verus!
