//! The PPU status register at 0x2002: sprite overflow, sprite-zero hit and
//! the vertical-blank flag, over the stale open-bus bits.
use crate::flag_register::{Flag, FlagRegister};
use crate::register::{RegRead, RegWrite};
use core::marker::PhantomData;
use vstd::prelude::*;

verus! {

/// The flag positions of the status byte. `OpenBus` covers the five stale
/// bus bits at the bottom.
pub enum PpuStatusFlag {
    OpenBus,
    SpriteOV,
    Sprite0Hit,
    VerticalBlankStarted,
}

impl PpuStatusFlag {
    /// The bit mask of each status flag.
    pub open spec fn spec_status_mask(&self) -> u8 {
        match self {
            PpuStatusFlag::OpenBus => 0x1f,
            PpuStatusFlag::SpriteOV => 0x20,
            PpuStatusFlag::Sprite0Hit => 0x40,
            PpuStatusFlag::VerticalBlankStarted => 0x80,
        }
    }
}

impl Flag for PpuStatusFlag {
    open spec fn spec_mask(&self) -> u8 {
        self.spec_status_mask()
    }

    fn mask(&self) -> u8 {
        match self {
            PpuStatusFlag::OpenBus => 0x1f,
            PpuStatusFlag::SpriteOV => 0x20,
            PpuStatusFlag::Sprite0Hit => 0x40,
            PpuStatusFlag::VerticalBlankStarted => 0x80,
        }
    }
}

/// The PPU status register.
pub type StatusRegister = FlagRegister<PpuStatusFlag>;

impl StatusRegister {
    /// A cleared status register.
    pub fn new() -> (r: Self)
        ensures
            r.0 == 0,
    {
        FlagRegister(0, PhantomData)
    }
}

impl RegRead for StatusRegister {
    /// A CPU read of 0x2002 sees the raw status byte; clearing the vblank
    /// flag and the write toggles is the caller's part.
    fn read(&self) -> (r: u8)
        ensures
            r == self.0,
    {
        self.0
    }
}

} // verus!
