//! The addressing modes of the 6502: how an instruction's operand bytes name
//! the address it works on.
use vstd::prelude::*;

verus! {

/// How an instruction names its operand.
#[derive(Clone, Copy, Debug, PartialEq, Eq, Structural)]
pub enum AddressingMode {
    /// Accumulator: the operand is the A register itself.
    ACC,
    /// Absolute: a full little-endian 16-bit address follows the opcode.
    ABS,
    /// Absolute indexed by X; may pay one cycle on a page crossing.
    ABX,
    /// Absolute indexed by Y; may pay one cycle on a page crossing.
    ABY,
    /// Indirect: the operand names the address of the target address. The
    /// hardware fetches the high pointer byte from the same page when the low
    /// pointer byte is 0xFF.
    IND,
    /// Indexed indirect: a zero-page pointer indexed by X before the fetch.
    IDX,
    /// Indirect indexed: a zero-page pointer, plus Y after the fetch; may pay
    /// one cycle on a page crossing.
    IDY,
    /// Immediate: the operand byte is the value itself.
    IMM,
    /// Implied: no operand.
    IMP,
    /// Relative: a signed displacement from the next byte's address.
    REL,
    /// Zero page: one operand byte names an address below 0x0100.
    ZPG,
    /// Zero page indexed by X, wrapping within the zero page.
    ZPX,
    /// Zero page indexed by Y, wrapping within the zero page.
    ZPY,
}

} // verus!
