//! One-byte registers: the general register cell used for A, X, Y and the
//! OAM address, and the read/write register interfaces shared by the PPU's
//! memory-mapped registers.
use vstd::prelude::*;

verus! {

/// A register that can be written with one byte. Each implementation states
/// in its own contract what the write does.
pub trait RegWrite {
    /// Writes one byte into the register.
    fn write(&mut self, val: u8);
}

/// A register that can be read as one byte without side effects. Each
/// implementation states in its own contract what the read returns.
pub trait RegRead {
    /// Reads the register.
    fn read(&self) -> u8;
}

/// An eight-bit register cell.
pub struct Register(pub u8);

impl Register {
    /// Overwrites the register.
    pub fn assign(&mut self, val: u8)
        ensures
            final(self).0 == val,
    {
        self.0 = val
    }

    /// The current contents.
    pub fn get(&self) -> (r: u8)
        ensures
            r == self.0,
    {
        self.0
    }

    /// Copies another register's contents into this one.
    pub fn transfer(&mut self, other: &Register)
        ensures
            final(self).0 == other.0,
    {
        self.0 = other.0
    }

    /// The wrapping difference with `rhs`, and whether it borrowed.
    pub fn overflowing_sub(&self, rhs: u8) -> (r: (u8, bool))
        ensures
            r.0 == self.0.wrapping_sub(rhs),
            r.1 == (self.0 < rhs),
    {
        (self.0.wrapping_sub(rhs), self.0 < rhs)
    }
}

impl Default for Register {
    /// A cleared register.
    fn default() -> (r: Self)
        ensures
            r.0 == 0,
    {
        Register(0)
    }
}

impl RegWrite for Register {
    /// A register write is a plain overwrite.
    fn write(&mut self, val: u8)
        ensures
            final(self).0 == val,
    {
        self.0 = val
    }
}

impl RegRead for Register {
    /// A register read returns the contents.
    fn read(&self) -> (r: u8)
        ensures
            r == self.0,
    {
        self.0
    }
}

} // verus!
