//! The PPU control register at 0x2000: nametable select, VRAM address
//! increment, pattern table banks, sprite size and the NMI enable bit.
use crate::flag_register::{Flag, FlagRegister};
use crate::register::RegWrite;
use core::marker::PhantomData;
use vstd::prelude::*;

verus! {

/// The flag positions of the control byte. `Nametable` is the two-bit base
/// nametable select at the bottom of the byte.
pub enum ControlFlags {
    Nametable,
    VramAddrIncrement,
    SpritePatternAddr,
    BGPatternAddr,
    SpriteSize,
    MasterSlave,
    GenerateNMI,
}

impl ControlFlags {
    /// The bit mask of each control flag.
    pub open spec fn spec_control_mask(&self) -> u8 {
        match self {
            ControlFlags::Nametable => 0x03,
            ControlFlags::VramAddrIncrement => 0x04,
            ControlFlags::SpritePatternAddr => 0x08,
            ControlFlags::BGPatternAddr => 0x10,
            ControlFlags::SpriteSize => 0x20,
            ControlFlags::MasterSlave => 0x40,
            ControlFlags::GenerateNMI => 0x80,
        }
    }
}

impl Flag for ControlFlags {
    open spec fn spec_mask(&self) -> u8 {
        self.spec_control_mask()
    }

    fn mask(&self) -> u8 {
        match self {
            ControlFlags::Nametable => 0x03,
            ControlFlags::VramAddrIncrement => 0x04,
            ControlFlags::SpritePatternAddr => 0x08,
            ControlFlags::BGPatternAddr => 0x10,
            ControlFlags::SpriteSize => 0x20,
            ControlFlags::MasterSlave => 0x40,
            ControlFlags::GenerateNMI => 0x80,
        }
    }
}

/// The PPU control register.
pub type ControllerRegister = FlagRegister<ControlFlags>;

/// The VRAM address stride the control byte selects: 32 when the increment
/// bit is set (moving down a column), 1 otherwise (moving across a row).
pub open spec fn spec_vram_stride(ctrl: u8) -> u8 {
    if ctrl & 0x04 != 0 {
        32u8
    } else {
        1u8
    }
}

impl ControllerRegister {
    /// A cleared control register.
    pub fn new() -> (r: Self)
        ensures
            r.0 == 0,
    {
        FlagRegister(0, PhantomData)
    }

    /// The VRAM address increment the register currently selects.
    pub fn vram_add_inc(&mut self) -> (r: u8)
        ensures
            r == spec_vram_stride(old(self).0),
            final(self).0 == old(self).0,
    {
        if self.is_raised(ControlFlags::VramAddrIncrement) {
            32
        } else {
            1
        }
    }
}

impl RegWrite for ControllerRegister {
    /// A CPU write to 0x2000 replaces the whole control byte.
    fn write(&mut self, val: u8)
        ensures
            final(self).0 == val,
    {
        self.set(val);
    }
}

} // verus!
