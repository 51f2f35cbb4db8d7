//! The interrupt cell shared between the PPU and the CPU: the PPU raises NMI
//! at vblank onset, the CPU consumes the cell at the top of its next tick,
//! and the BRK opcode reports an orderly halt.
use vstd::prelude::*;

verus! {

/// The tri-state interrupt flag.
#[derive(Clone, Copy, Debug, Default, PartialEq, Eq, Structural)]
pub enum InterruptFlag {
    /// No interrupt pending.
    #[default]
    Idle,
    /// Non-maskable interrupt raised by the PPU at vblank onset.
    NMI,
    /// The BRK opcode was executed: the engine halts.
    BRK,
}

impl InterruptFlag {
    /// The CPU cycles consumed by entering this interrupt's handler.
    pub fn cycles(&self) -> (r: u8)
        requires
            *self is NMI,
        ensures
            r == 2,
    {
        2
    }

    /// Where this interrupt's little-endian handler vector lives.
    pub fn addr(&self) -> (r: u16)
        requires
            *self is NMI,
        ensures
            r == 0xfffau16,
    {
        0xfffa
    }

    /// The status byte pushed while entering the handler: Break forced low,
    /// the always-one bit forced high.
    pub fn mask(&self, val: u8) -> (r: u8)
        requires
            *self is NMI,
        ensures
            r == (val & !0x10) | 0x20,
    {
        val & !0x10 | 0x20
    }
}

} // verus!
