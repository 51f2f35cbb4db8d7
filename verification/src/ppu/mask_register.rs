//! The PPU mask register at 0x2001: grayscale, leftmost-column visibility,
//! background and sprite enables, and the colour emphasis bits.
use crate::flag_register::{Flag, FlagRegister};
use crate::register::RegWrite;
use core::marker::PhantomData;
use vstd::prelude::*;

verus! {

/// The flag positions of the mask byte.
pub enum MaskFlag {
    Greyscale,
    ShowBGLeft,
    ShowSpritesLeft,
    ShowBG,
    ShowSprites,
    EmphasizeRed,
    EmphasizeGreen,
    EmphasizeBlue,
}

impl MaskFlag {
    /// The bit mask of each mask flag.
    pub open spec fn spec_mask_flag(&self) -> u8 {
        match self {
            MaskFlag::Greyscale => 0x01,
            MaskFlag::ShowBGLeft => 0x02,
            MaskFlag::ShowSpritesLeft => 0x04,
            MaskFlag::ShowBG => 0x08,
            MaskFlag::ShowSprites => 0x10,
            MaskFlag::EmphasizeRed => 0x20,
            MaskFlag::EmphasizeGreen => 0x40,
            MaskFlag::EmphasizeBlue => 0x80,
        }
    }
}

impl Flag for MaskFlag {
    open spec fn spec_mask(&self) -> u8 {
        self.spec_mask_flag()
    }

    fn mask(&self) -> u8 {
        match self {
            MaskFlag::Greyscale => 0x01,
            MaskFlag::ShowBGLeft => 0x02,
            MaskFlag::ShowSpritesLeft => 0x04,
            MaskFlag::ShowBG => 0x08,
            MaskFlag::ShowSprites => 0x10,
            MaskFlag::EmphasizeRed => 0x20,
            MaskFlag::EmphasizeGreen => 0x40,
            MaskFlag::EmphasizeBlue => 0x80,
        }
    }
}

/// The PPU mask register.
pub type MaskRegister = FlagRegister<MaskFlag>;

impl MaskRegister {
    /// A cleared mask register.
    pub fn new() -> (r: Self)
        ensures
            r.0 == 0,
    {
        FlagRegister(0, PhantomData)
    }
}

impl RegWrite for MaskRegister {
    /// A CPU write to 0x2001 replaces the whole mask byte.
    fn write(&mut self, val: u8)
        ensures
            final(self).0 == val,
    {
        self.set(val)
    }
}

} // verus!
