//! The mnemonics of the instruction set: the 56 operations the CPU core
//! dispatches on, official ones and the undocumented ones the test ROMs use.
use vstd::prelude::*;

verus! {

/// What an instruction does. The undocumented mnemonics are LAX, SAX, DCP,
/// ISB, SLO, SRE, RLA and RRA, plus the extra NOP encodings in the table.
#[derive(Clone, Copy, Debug, PartialEq, Eq, Structural)]
pub enum Mnemonic {
    /// Add memory and carry to the accumulator.
    ADC,
    /// Bitwise AND of memory into the accumulator.
    AND,
    /// Arithmetic shift left on the accumulator or memory.
    ASL,
    /// Branch if carry clear.
    BCC,
    /// Branch if carry set.
    BCS,
    /// Branch if the zero flag is set.
    BEQ,
    /// Test bits: Z from A AND memory, N and V copied from the operand.
    BIT,
    /// Branch if the negative flag is set.
    BMI,
    /// Branch if the zero flag is clear.
    BNE,
    /// Branch if the negative flag is clear.
    BPL,
    /// Halt the tick engine.
    BRK,
    /// Branch if the overflow flag is clear.
    BVC,
    /// Branch if the overflow flag is set.
    BVS,
    /// Clear the carry flag.
    CLC,
    /// Clear the decimal flag.
    CLD,
    /// Clear the interrupt-disable flag.
    CLI,
    /// Clear the overflow flag.
    CLV,
    /// Compare the accumulator with memory.
    CMP,
    /// Compare the X register with memory.
    CPX,
    /// Compare the Y register with memory.
    CPY,
    /// Decrement memory, then compare it with the accumulator.
    DCP,
    /// Decrement memory.
    DEC,
    /// Decrement the X register.
    DEX,
    /// Decrement the Y register.
    DEY,
    /// Bitwise exclusive OR of memory into the accumulator.
    EOR,
    /// Increment memory.
    INC,
    /// Increment the X register.
    INX,
    /// Increment the Y register.
    INY,
    /// Increment memory, then subtract it from the accumulator.
    ISB,
    /// Jump to the effective address.
    JMP,
    /// Push the return point minus one and jump.
    JSR,
    /// Load the accumulator and the X register together.
    LAX,
    /// Load the accumulator.
    LDA,
    /// Load the X register.
    LDX,
    /// Load the Y register.
    LDY,
    /// Logical shift right on the accumulator or memory.
    LSR,
    /// No operation.
    NOP,
    /// Bitwise OR of memory into the accumulator.
    ORA,
    /// Push the accumulator.
    PHA,
    /// Push the processor status with Break and One forced high.
    PHP,
    /// Pull the accumulator.
    PLA,
    /// Pull the processor status, One forced high, Break forced low.
    PLP,
    /// Rotate memory left, then AND it into the accumulator.
    RLA,
    /// Rotate the accumulator or memory left through the carry.
    ROL,
    /// Rotate the accumulator or memory right through the carry.
    ROR,
    /// Rotate memory right, then add it with carry to the accumulator.
    RRA,
    /// Return from interrupt: pull the status, then the program counter.
    RTI,
    /// Return from subroutine: pull the program counter and add one.
    RTS,
    /// Store the AND of the accumulator and the X register.
    SAX,
    /// Subtract memory and borrow from the accumulator.
    SBC,
    /// Set the carry flag.
    SEC,
    /// Set the decimal flag.
    SED,
    /// Set the interrupt-disable flag.
    SEI,
    /// Shift memory left, then OR it into the accumulator.
    SLO,
    /// Shift memory right, then exclusive-OR it into the accumulator.
    SRE,
    /// Store the accumulator.
    STA,
    /// Store the X register.
    STX,
    /// Store the Y register.
    STY,
    /// Transfer the accumulator to the X register.
    TAX,
    /// Transfer the accumulator to the Y register.
    TAY,
    /// Transfer the stack pointer to the X register.
    TSX,
    /// Transfer the X register to the accumulator.
    TXA,
    /// Transfer the X register to the stack pointer.
    TXS,
    /// Transfer the Y register to the accumulator.
    TYA,
}

} // verus!
