//! The processor status register P: one byte of CPU flags, in hardware order
//! N V 1 B D I Z C from bit 7 down to bit 0.
use crate::flag_register::{Flag, FlagRegister};
use core::marker::PhantomData;
use vstd::prelude::*;

verus! {

/// P after a reset: InterruptDisable and the always-one bit raised.
pub const STATUS_INIT: u8 = 0x24;

/// Mask of the sign bit, which carries the signed-overflow test.
pub const OVERFLOW_MASK: u8 = 0x80;

/// The flag positions of the processor status byte.
pub enum StatusFlag {
    Carry,
    Zero,
    Interrupt,
    Decimal,
    Break,
    One,
    Overflow,
    Negative,
}

impl StatusFlag {
    /// The bit mask of each status flag.
    pub open spec fn spec_status_mask(&self) -> u8 {
        match self {
            StatusFlag::Carry => 0x01,
            StatusFlag::Zero => 0x02,
            StatusFlag::Interrupt => 0x04,
            StatusFlag::Decimal => 0x08,
            StatusFlag::Break => 0x10,
            StatusFlag::One => 0x20,
            StatusFlag::Overflow => 0x40,
            StatusFlag::Negative => 0x80,
        }
    }
}

impl Flag for StatusFlag {
    open spec fn spec_mask(&self) -> u8 {
        self.spec_status_mask()
    }

    fn mask(&self) -> u8 {
        match self {
            StatusFlag::Carry => 0x01,
            StatusFlag::Zero => 0x02,
            StatusFlag::Interrupt => 0x04,
            StatusFlag::Decimal => 0x08,
            StatusFlag::Break => 0x10,
            StatusFlag::One => 0x20,
            StatusFlag::Overflow => 0x40,
            StatusFlag::Negative => 0x80,
        }
    }
}

/// The CPU status register.
pub type ProcessorStatus = FlagRegister<StatusFlag>;

/// The byte pushed for P: the given status with Break and One forced high.
pub open spec fn spec_for_push(p: u8) -> u8 {
    p | 0x30
}

/// The status byte after a pull: the pulled value with One forced high and
/// Break forced low.
pub open spec fn spec_from_pull(v: u8) -> u8 {
    (v | 0x20) & !0x10
}

impl ProcessorStatus {
    /// A status register in the reset state.
    pub fn new() -> (r: Self)
        ensures
            r.0 == STATUS_INIT,
    {
        FlagRegister(STATUS_INIT, PhantomData)
    }

    /// Puts the register back into the reset state.
    pub fn init(&mut self)
        ensures
            final(self).0 == STATUS_INIT,
    {
        self.0 = STATUS_INIT;
    }

    /// The status byte as pushed on the stack by PHP, BRK and NMI entry:
    /// bits 4 (Break) and 5 (One) are forced to 1.
    pub fn get_for_push(&self) -> (r: u8)
        ensures
            r == spec_for_push(self.0),
    {
        self.0 | 0x30
    }

    /// Installs a byte pulled from the stack: One is forced high and Break
    /// forced low, as PLP and RTI demand.
    pub fn set_from_pull(&mut self, val: u8)
        ensures
            final(self).0 == spec_from_pull(val),
    {
        self.0 = val;
        self.raise(StatusFlag::One);
        self.low(StatusFlag::Break);
    }
}

impl Default for ProcessorStatus {
    /// An all-clear status register, as the bare power-up state of the tests.
    fn default() -> (r: Self)
        ensures
            r.0 == 0,
    {
        FlagRegister(0, PhantomData)
    }
}

} // verus!
