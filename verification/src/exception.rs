//! The errors the console core can surface to its host.
use vstd::prelude::*;

verus! {

/// What went wrong while loading a cartridge or executing a tick.
#[derive(Clone, Copy, Debug, PartialEq, Eq, Structural)]
pub enum NoveError {
    /// The cartridge image is not a supported iNES 1.0 file.
    WrongRomFormat,
    /// The CPU fetched an opcode byte with no table entry; the byte is kept
    /// for the host to report.
    WrongOpCode(u8),
}

} // verus!
