//! A cycle-approximate model of the NES console core: the 6502-style CPU of
//! the 2A03 (without decimal mode), the address bus that wires the CPU to RAM,
//! cartridge ROM and the picture processing unit, and the PPU register and
//! timing state machines that drive frame generation and the vertical-blank
//! non-maskable interrupt.
use vstd::prelude::*;

pub mod addresses;
pub mod cartridge;
pub mod cpu;
pub mod exception;
pub mod flag_register;
pub mod instruction;
pub mod interrupt;
pub mod memory;
pub mod ppu;
pub mod register;

verus! {

/// A raw program image: the bytes handed to the loader or copied into memory.
pub type Program = Vec<u8>;

/// Width of the NES output surface, in pixels.
pub const WIDTH: u32 = 256;

/// Height of the NES output surface, in pixels.
pub const HEIGHT: u32 = 240;

} // verus!
