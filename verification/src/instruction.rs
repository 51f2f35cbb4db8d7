//! The opcode table: the static map from a one-byte opcode to its mnemonic,
//! addressing mode, instruction size, base cycle count and official status.
use crate::instruction::addressing_mode::AddressingMode;
use crate::instruction::mnemonic::Mnemonic;
use vstd::prelude::*;

pub mod addressing_mode;
pub mod mnemonic;

verus! {

/// One opcode table entry.
#[derive(Clone, Copy, Debug, PartialEq, Eq, Structural)]
pub struct OpCode {
    /// What the instruction does.
    pub mnemonic: Mnemonic,
    /// The opcode byte itself.
    pub code: u8,
    /// Instruction length in bytes, operands included. JMP and JSR are listed
    /// with 1 byte so that the common tail of a tick leaves their target
    /// program counter alone.
    pub bytes: u8,
    /// Base CPU cycles, before any page-crossing or branch surcharge.
    pub cycles: u8,
    /// How the operand bytes name the effective address.
    pub addressing_mode: AddressingMode,
    /// True for the undocumented opcodes the test ROMs require.
    pub unofficial: bool,
}

/// The opcode table as contracts see it: the entry for a byte, or `None`
/// where the byte decodes to nothing.
pub open spec fn spec_opcode(code: u8) -> Option<OpCode> {
    match code {
        0x00 => Some(OpCode { mnemonic: Mnemonic::BRK, code: 0x00, bytes: 1, cycles: 7, addressing_mode: AddressingMode::IMP, unofficial: false }),
        0x01 => Some(OpCode { mnemonic: Mnemonic::ORA, code: 0x01, bytes: 2, cycles: 6, addressing_mode: AddressingMode::IDX, unofficial: false }),
        0x03 => Some(OpCode { mnemonic: Mnemonic::SLO, code: 0x03, bytes: 2, cycles: 8, addressing_mode: AddressingMode::IDX, unofficial: true }),
        0x04 => Some(OpCode { mnemonic: Mnemonic::NOP, code: 0x04, bytes: 2, cycles: 3, addressing_mode: AddressingMode::ZPG, unofficial: true }),
        0x05 => Some(OpCode { mnemonic: Mnemonic::ORA, code: 0x05, bytes: 2, cycles: 3, addressing_mode: AddressingMode::ZPG, unofficial: false }),
        0x06 => Some(OpCode { mnemonic: Mnemonic::ASL, code: 0x06, bytes: 2, cycles: 5, addressing_mode: AddressingMode::ZPG, unofficial: false }),
        0x07 => Some(OpCode { mnemonic: Mnemonic::SLO, code: 0x07, bytes: 2, cycles: 5, addressing_mode: AddressingMode::ZPG, unofficial: true }),
        0x08 => Some(OpCode { mnemonic: Mnemonic::PHP, code: 0x08, bytes: 1, cycles: 3, addressing_mode: AddressingMode::IMP, unofficial: false }),
        0x09 => Some(OpCode { mnemonic: Mnemonic::ORA, code: 0x09, bytes: 2, cycles: 2, addressing_mode: AddressingMode::IMM, unofficial: false }),
        0x0a => Some(OpCode { mnemonic: Mnemonic::ASL, code: 0x0a, bytes: 1, cycles: 2, addressing_mode: AddressingMode::ACC, unofficial: false }),
        0x0c => Some(OpCode { mnemonic: Mnemonic::NOP, code: 0x0c, bytes: 3, cycles: 4, addressing_mode: AddressingMode::ABS, unofficial: true }),
        0x0d => Some(OpCode { mnemonic: Mnemonic::ORA, code: 0x0d, bytes: 3, cycles: 4, addressing_mode: AddressingMode::ABS, unofficial: false }),
        0x0e => Some(OpCode { mnemonic: Mnemonic::ASL, code: 0x0e, bytes: 3, cycles: 6, addressing_mode: AddressingMode::ABS, unofficial: false }),
        0x0f => Some(OpCode { mnemonic: Mnemonic::SLO, code: 0x0f, bytes: 3, cycles: 6, addressing_mode: AddressingMode::ABS, unofficial: true }),
        0x10 => Some(OpCode { mnemonic: Mnemonic::BPL, code: 0x10, bytes: 2, cycles: 2, addressing_mode: AddressingMode::REL, unofficial: false }),
        0x11 => Some(OpCode { mnemonic: Mnemonic::ORA, code: 0x11, bytes: 2, cycles: 5, addressing_mode: AddressingMode::IDY, unofficial: false }),
        0x13 => Some(OpCode { mnemonic: Mnemonic::SLO, code: 0x13, bytes: 2, cycles: 8, addressing_mode: AddressingMode::IDY, unofficial: true }),
        0x14 => Some(OpCode { mnemonic: Mnemonic::NOP, code: 0x14, bytes: 2, cycles: 4, addressing_mode: AddressingMode::ZPX, unofficial: true }),
        0x15 => Some(OpCode { mnemonic: Mnemonic::ORA, code: 0x15, bytes: 2, cycles: 4, addressing_mode: AddressingMode::ZPX, unofficial: false }),
        0x16 => Some(OpCode { mnemonic: Mnemonic::ASL, code: 0x16, bytes: 2, cycles: 6, addressing_mode: AddressingMode::ZPX, unofficial: false }),
        0x17 => Some(OpCode { mnemonic: Mnemonic::SLO, code: 0x17, bytes: 2, cycles: 6, addressing_mode: AddressingMode::ZPX, unofficial: true }),
        0x18 => Some(OpCode { mnemonic: Mnemonic::CLC, code: 0x18, bytes: 1, cycles: 2, addressing_mode: AddressingMode::IMP, unofficial: false }),
        0x19 => Some(OpCode { mnemonic: Mnemonic::ORA, code: 0x19, bytes: 3, cycles: 4, addressing_mode: AddressingMode::ABY, unofficial: false }),
        0x1a => Some(OpCode { mnemonic: Mnemonic::NOP, code: 0x1a, bytes: 1, cycles: 2, addressing_mode: AddressingMode::IMP, unofficial: true }),
        0x1b => Some(OpCode { mnemonic: Mnemonic::SLO, code: 0x1b, bytes: 3, cycles: 7, addressing_mode: AddressingMode::ABY, unofficial: true }),
        0x1c => Some(OpCode { mnemonic: Mnemonic::NOP, code: 0x1c, bytes: 3, cycles: 4, addressing_mode: AddressingMode::ABX, unofficial: true }),
        0x1d => Some(OpCode { mnemonic: Mnemonic::ORA, code: 0x1d, bytes: 3, cycles: 4, addressing_mode: AddressingMode::ABX, unofficial: false }),
        0x1e => Some(OpCode { mnemonic: Mnemonic::ASL, code: 0x1e, bytes: 3, cycles: 7, addressing_mode: AddressingMode::ABX, unofficial: false }),
        0x1f => Some(OpCode { mnemonic: Mnemonic::SLO, code: 0x1f, bytes: 3, cycles: 7, addressing_mode: AddressingMode::ABX, unofficial: true }),
        0x20 => Some(OpCode { mnemonic: Mnemonic::JSR, code: 0x20, bytes: 1, cycles: 6, addressing_mode: AddressingMode::ABS, unofficial: false }),
        0x21 => Some(OpCode { mnemonic: Mnemonic::AND, code: 0x21, bytes: 2, cycles: 6, addressing_mode: AddressingMode::IDX, unofficial: false }),
        0x23 => Some(OpCode { mnemonic: Mnemonic::RLA, code: 0x23, bytes: 2, cycles: 8, addressing_mode: AddressingMode::IDX, unofficial: true }),
        0x24 => Some(OpCode { mnemonic: Mnemonic::BIT, code: 0x24, bytes: 2, cycles: 3, addressing_mode: AddressingMode::ZPG, unofficial: false }),
        0x25 => Some(OpCode { mnemonic: Mnemonic::AND, code: 0x25, bytes: 2, cycles: 3, addressing_mode: AddressingMode::ZPG, unofficial: false }),
        0x26 => Some(OpCode { mnemonic: Mnemonic::ROL, code: 0x26, bytes: 2, cycles: 5, addressing_mode: AddressingMode::ZPG, unofficial: false }),
        0x27 => Some(OpCode { mnemonic: Mnemonic::RLA, code: 0x27, bytes: 2, cycles: 5, addressing_mode: AddressingMode::ZPG, unofficial: true }),
        0x28 => Some(OpCode { mnemonic: Mnemonic::PLP, code: 0x28, bytes: 1, cycles: 4, addressing_mode: AddressingMode::IMP, unofficial: false }),
        0x29 => Some(OpCode { mnemonic: Mnemonic::AND, code: 0x29, bytes: 2, cycles: 2, addressing_mode: AddressingMode::IMM, unofficial: false }),
        0x2a => Some(OpCode { mnemonic: Mnemonic::ROL, code: 0x2a, bytes: 1, cycles: 2, addressing_mode: AddressingMode::ACC, unofficial: false }),
        0x2c => Some(OpCode { mnemonic: Mnemonic::BIT, code: 0x2c, bytes: 3, cycles: 4, addressing_mode: AddressingMode::ABS, unofficial: false }),
        0x2d => Some(OpCode { mnemonic: Mnemonic::AND, code: 0x2d, bytes: 3, cycles: 4, addressing_mode: AddressingMode::ABS, unofficial: false }),
        0x2e => Some(OpCode { mnemonic: Mnemonic::ROL, code: 0x2e, bytes: 3, cycles: 6, addressing_mode: AddressingMode::ABS, unofficial: false }),
        0x2f => Some(OpCode { mnemonic: Mnemonic::RLA, code: 0x2f, bytes: 3, cycles: 6, addressing_mode: AddressingMode::ABS, unofficial: true }),
        0x30 => Some(OpCode { mnemonic: Mnemonic::BMI, code: 0x30, bytes: 2, cycles: 2, addressing_mode: AddressingMode::REL, unofficial: false }),
        0x31 => Some(OpCode { mnemonic: Mnemonic::AND, code: 0x31, bytes: 2, cycles: 5, addressing_mode: AddressingMode::IDY, unofficial: false }),
        0x33 => Some(OpCode { mnemonic: Mnemonic::RLA, code: 0x33, bytes: 2, cycles: 8, addressing_mode: AddressingMode::IDY, unofficial: true }),
        0x34 => Some(OpCode { mnemonic: Mnemonic::NOP, code: 0x34, bytes: 2, cycles: 4, addressing_mode: AddressingMode::ZPX, unofficial: true }),
        0x35 => Some(OpCode { mnemonic: Mnemonic::AND, code: 0x35, bytes: 2, cycles: 4, addressing_mode: AddressingMode::ZPX, unofficial: false }),
        0x36 => Some(OpCode { mnemonic: Mnemonic::ROL, code: 0x36, bytes: 2, cycles: 6, addressing_mode: AddressingMode::ZPX, unofficial: false }),
        0x37 => Some(OpCode { mnemonic: Mnemonic::RLA, code: 0x37, bytes: 2, cycles: 6, addressing_mode: AddressingMode::ZPX, unofficial: true }),
        0x38 => Some(OpCode { mnemonic: Mnemonic::SEC, code: 0x38, bytes: 1, cycles: 2, addressing_mode: AddressingMode::IMP, unofficial: false }),
        0x39 => Some(OpCode { mnemonic: Mnemonic::AND, code: 0x39, bytes: 3, cycles: 4, addressing_mode: AddressingMode::ABY, unofficial: false }),
        0x3a => Some(OpCode { mnemonic: Mnemonic::NOP, code: 0x3a, bytes: 1, cycles: 2, addressing_mode: AddressingMode::IMP, unofficial: true }),
        0x3b => Some(OpCode { mnemonic: Mnemonic::RLA, code: 0x3b, bytes: 3, cycles: 7, addressing_mode: AddressingMode::ABY, unofficial: true }),
        0x3c => Some(OpCode { mnemonic: Mnemonic::NOP, code: 0x3c, bytes: 3, cycles: 4, addressing_mode: AddressingMode::ABX, unofficial: true }),
        0x3d => Some(OpCode { mnemonic: Mnemonic::AND, code: 0x3d, bytes: 3, cycles: 4, addressing_mode: AddressingMode::ABX, unofficial: false }),
        0x3e => Some(OpCode { mnemonic: Mnemonic::ROL, code: 0x3e, bytes: 3, cycles: 7, addressing_mode: AddressingMode::ABX, unofficial: false }),
        0x3f => Some(OpCode { mnemonic: Mnemonic::RLA, code: 0x3f, bytes: 3, cycles: 7, addressing_mode: AddressingMode::ABX, unofficial: true }),
        0x40 => Some(OpCode { mnemonic: Mnemonic::RTI, code: 0x40, bytes: 1, cycles: 6, addressing_mode: AddressingMode::IMP, unofficial: false }),
        0x41 => Some(OpCode { mnemonic: Mnemonic::EOR, code: 0x41, bytes: 2, cycles: 6, addressing_mode: AddressingMode::IDX, unofficial: false }),
        0x43 => Some(OpCode { mnemonic: Mnemonic::SRE, code: 0x43, bytes: 2, cycles: 8, addressing_mode: AddressingMode::IDX, unofficial: true }),
        0x44 => Some(OpCode { mnemonic: Mnemonic::NOP, code: 0x44, bytes: 2, cycles: 3, addressing_mode: AddressingMode::ZPG, unofficial: true }),
        0x45 => Some(OpCode { mnemonic: Mnemonic::EOR, code: 0x45, bytes: 2, cycles: 3, addressing_mode: AddressingMode::ZPG, unofficial: false }),
        0x46 => Some(OpCode { mnemonic: Mnemonic::LSR, code: 0x46, bytes: 2, cycles: 5, addressing_mode: AddressingMode::ZPG, unofficial: false }),
        0x47 => Some(OpCode { mnemonic: Mnemonic::SRE, code: 0x47, bytes: 2, cycles: 5, addressing_mode: AddressingMode::ZPG, unofficial: true }),
        0x48 => Some(OpCode { mnemonic: Mnemonic::PHA, code: 0x48, bytes: 1, cycles: 3, addressing_mode: AddressingMode::IMP, unofficial: false }),
        0x49 => Some(OpCode { mnemonic: Mnemonic::EOR, code: 0x49, bytes: 2, cycles: 2, addressing_mode: AddressingMode::IMM, unofficial: false }),
        0x4a => Some(OpCode { mnemonic: Mnemonic::LSR, code: 0x4a, bytes: 1, cycles: 2, addressing_mode: AddressingMode::ACC, unofficial: false }),
        0x4c => Some(OpCode { mnemonic: Mnemonic::JMP, code: 0x4c, bytes: 1, cycles: 3, addressing_mode: AddressingMode::ABS, unofficial: false }),
        0x4d => Some(OpCode { mnemonic: Mnemonic::EOR, code: 0x4d, bytes: 3, cycles: 4, addressing_mode: AddressingMode::ABS, unofficial: false }),
        0x4e => Some(OpCode { mnemonic: Mnemonic::LSR, code: 0x4e, bytes: 3, cycles: 6, addressing_mode: AddressingMode::ABS, unofficial: false }),
        0x4f => Some(OpCode { mnemonic: Mnemonic::SRE, code: 0x4f, bytes: 3, cycles: 6, addressing_mode: AddressingMode::ABS, unofficial: true }),
        0x50 => Some(OpCode { mnemonic: Mnemonic::BVC, code: 0x50, bytes: 2, cycles: 2, addressing_mode: AddressingMode::REL, unofficial: false }),
        0x51 => Some(OpCode { mnemonic: Mnemonic::EOR, code: 0x51, bytes: 2, cycles: 5, addressing_mode: AddressingMode::IDY, unofficial: false }),
        0x53 => Some(OpCode { mnemonic: Mnemonic::SRE, code: 0x53, bytes: 2, cycles: 8, addressing_mode: AddressingMode::IDY, unofficial: true }),
        0x54 => Some(OpCode { mnemonic: Mnemonic::NOP, code: 0x54, bytes: 2, cycles: 4, addressing_mode: AddressingMode::ZPX, unofficial: true }),
        0x55 => Some(OpCode { mnemonic: Mnemonic::EOR, code: 0x55, bytes: 2, cycles: 4, addressing_mode: AddressingMode::ZPX, unofficial: false }),
        0x56 => Some(OpCode { mnemonic: Mnemonic::LSR, code: 0x56, bytes: 2, cycles: 6, addressing_mode: AddressingMode::ZPX, unofficial: false }),
        0x57 => Some(OpCode { mnemonic: Mnemonic::SRE, code: 0x57, bytes: 2, cycles: 6, addressing_mode: AddressingMode::ZPX, unofficial: true }),
        0x58 => Some(OpCode { mnemonic: Mnemonic::CLI, code: 0x58, bytes: 1, cycles: 2, addressing_mode: AddressingMode::IMP, unofficial: false }),
        0x59 => Some(OpCode { mnemonic: Mnemonic::EOR, code: 0x59, bytes: 3, cycles: 4, addressing_mode: AddressingMode::ABY, unofficial: false }),
        0x5a => Some(OpCode { mnemonic: Mnemonic::NOP, code: 0x5a, bytes: 1, cycles: 2, addressing_mode: AddressingMode::IMP, unofficial: true }),
        0x5b => Some(OpCode { mnemonic: Mnemonic::SRE, code: 0x5b, bytes: 3, cycles: 7, addressing_mode: AddressingMode::ABY, unofficial: true }),
        0x5c => Some(OpCode { mnemonic: Mnemonic::NOP, code: 0x5c, bytes: 3, cycles: 4, addressing_mode: AddressingMode::ABX, unofficial: true }),
        0x5d => Some(OpCode { mnemonic: Mnemonic::EOR, code: 0x5d, bytes: 3, cycles: 4, addressing_mode: AddressingMode::ABX, unofficial: false }),
        0x5e => Some(OpCode { mnemonic: Mnemonic::LSR, code: 0x5e, bytes: 3, cycles: 7, addressing_mode: AddressingMode::ABX, unofficial: false }),
        0x5f => Some(OpCode { mnemonic: Mnemonic::SRE, code: 0x5f, bytes: 3, cycles: 7, addressing_mode: AddressingMode::ABX, unofficial: true }),
        0x60 => Some(OpCode { mnemonic: Mnemonic::RTS, code: 0x60, bytes: 1, cycles: 6, addressing_mode: AddressingMode::IMP, unofficial: false }),
        0x61 => Some(OpCode { mnemonic: Mnemonic::ADC, code: 0x61, bytes: 2, cycles: 6, addressing_mode: AddressingMode::IDX, unofficial: false }),
        0x63 => Some(OpCode { mnemonic: Mnemonic::RRA, code: 0x63, bytes: 2, cycles: 8, addressing_mode: AddressingMode::IDX, unofficial: true }),
        0x64 => Some(OpCode { mnemonic: Mnemonic::NOP, code: 0x64, bytes: 2, cycles: 3, addressing_mode: AddressingMode::ZPG, unofficial: true }),
        0x65 => Some(OpCode { mnemonic: Mnemonic::ADC, code: 0x65, bytes: 2, cycles: 3, addressing_mode: AddressingMode::ZPG, unofficial: false }),
        0x66 => Some(OpCode { mnemonic: Mnemonic::ROR, code: 0x66, bytes: 2, cycles: 5, addressing_mode: AddressingMode::ZPG, unofficial: false }),
        0x67 => Some(OpCode { mnemonic: Mnemonic::RRA, code: 0x67, bytes: 2, cycles: 5, addressing_mode: AddressingMode::ZPG, unofficial: true }),
        0x68 => Some(OpCode { mnemonic: Mnemonic::PLA, code: 0x68, bytes: 1, cycles: 4, addressing_mode: AddressingMode::IMP, unofficial: false }),
        0x69 => Some(OpCode { mnemonic: Mnemonic::ADC, code: 0x69, bytes: 2, cycles: 2, addressing_mode: AddressingMode::IMM, unofficial: false }),
        0x6a => Some(OpCode { mnemonic: Mnemonic::ROR, code: 0x6a, bytes: 1, cycles: 2, addressing_mode: AddressingMode::ACC, unofficial: false }),
        0x6c => Some(OpCode { mnemonic: Mnemonic::JMP, code: 0x6c, bytes: 1, cycles: 5, addressing_mode: AddressingMode::IND, unofficial: false }),
        0x6d => Some(OpCode { mnemonic: Mnemonic::ADC, code: 0x6d, bytes: 3, cycles: 4, addressing_mode: AddressingMode::ABS, unofficial: false }),
        0x6e => Some(OpCode { mnemonic: Mnemonic::ROR, code: 0x6e, bytes: 3, cycles: 6, addressing_mode: AddressingMode::ABS, unofficial: false }),
        0x6f => Some(OpCode { mnemonic: Mnemonic::RRA, code: 0x6f, bytes: 3, cycles: 6, addressing_mode: AddressingMode::ABS, unofficial: true }),
        0x70 => Some(OpCode { mnemonic: Mnemonic::BVS, code: 0x70, bytes: 2, cycles: 2, addressing_mode: AddressingMode::REL, unofficial: false }),
        0x71 => Some(OpCode { mnemonic: Mnemonic::ADC, code: 0x71, bytes: 2, cycles: 5, addressing_mode: AddressingMode::IDY, unofficial: false }),
        0x73 => Some(OpCode { mnemonic: Mnemonic::RRA, code: 0x73, bytes: 2, cycles: 8, addressing_mode: AddressingMode::IDY, unofficial: true }),
        0x74 => Some(OpCode { mnemonic: Mnemonic::NOP, code: 0x74, bytes: 2, cycles: 4, addressing_mode: AddressingMode::ZPX, unofficial: true }),
        0x75 => Some(OpCode { mnemonic: Mnemonic::ADC, code: 0x75, bytes: 2, cycles: 4, addressing_mode: AddressingMode::ZPX, unofficial: false }),
        0x76 => Some(OpCode { mnemonic: Mnemonic::ROR, code: 0x76, bytes: 2, cycles: 6, addressing_mode: AddressingMode::ZPX, unofficial: false }),
        0x77 => Some(OpCode { mnemonic: Mnemonic::RRA, code: 0x77, bytes: 2, cycles: 6, addressing_mode: AddressingMode::ZPX, unofficial: true }),
        0x78 => Some(OpCode { mnemonic: Mnemonic::SEI, code: 0x78, bytes: 1, cycles: 2, addressing_mode: AddressingMode::IMP, unofficial: false }),
        0x79 => Some(OpCode { mnemonic: Mnemonic::ADC, code: 0x79, bytes: 3, cycles: 4, addressing_mode: AddressingMode::ABY, unofficial: false }),
        0x7a => Some(OpCode { mnemonic: Mnemonic::NOP, code: 0x7a, bytes: 1, cycles: 2, addressing_mode: AddressingMode::IMP, unofficial: true }),
        0x7b => Some(OpCode { mnemonic: Mnemonic::RRA, code: 0x7b, bytes: 3, cycles: 7, addressing_mode: AddressingMode::ABY, unofficial: true }),
        0x7c => Some(OpCode { mnemonic: Mnemonic::NOP, code: 0x7c, bytes: 3, cycles: 4, addressing_mode: AddressingMode::ABX, unofficial: true }),
        0x7d => Some(OpCode { mnemonic: Mnemonic::ADC, code: 0x7d, bytes: 3, cycles: 4, addressing_mode: AddressingMode::ABX, unofficial: false }),
        0x7e => Some(OpCode { mnemonic: Mnemonic::ROR, code: 0x7e, bytes: 3, cycles: 7, addressing_mode: AddressingMode::ABX, unofficial: false }),
        0x7f => Some(OpCode { mnemonic: Mnemonic::RRA, code: 0x7f, bytes: 3, cycles: 7, addressing_mode: AddressingMode::ABX, unofficial: true }),
        0x80 => Some(OpCode { mnemonic: Mnemonic::NOP, code: 0x80, bytes: 2, cycles: 2, addressing_mode: AddressingMode::IMM, unofficial: true }),
        0x81 => Some(OpCode { mnemonic: Mnemonic::STA, code: 0x81, bytes: 2, cycles: 6, addressing_mode: AddressingMode::IDX, unofficial: false }),
        0x83 => Some(OpCode { mnemonic: Mnemonic::SAX, code: 0x83, bytes: 2, cycles: 6, addressing_mode: AddressingMode::IDX, unofficial: true }),
        0x84 => Some(OpCode { mnemonic: Mnemonic::STY, code: 0x84, bytes: 2, cycles: 3, addressing_mode: AddressingMode::ZPG, unofficial: false }),
        0x85 => Some(OpCode { mnemonic: Mnemonic::STA, code: 0x85, bytes: 2, cycles: 3, addressing_mode: AddressingMode::ZPG, unofficial: false }),
        0x86 => Some(OpCode { mnemonic: Mnemonic::STX, code: 0x86, bytes: 2, cycles: 3, addressing_mode: AddressingMode::ZPG, unofficial: false }),
        0x87 => Some(OpCode { mnemonic: Mnemonic::SAX, code: 0x87, bytes: 2, cycles: 3, addressing_mode: AddressingMode::ZPG, unofficial: true }),
        0x88 => Some(OpCode { mnemonic: Mnemonic::DEY, code: 0x88, bytes: 1, cycles: 2, addressing_mode: AddressingMode::IMP, unofficial: false }),
        0x8a => Some(OpCode { mnemonic: Mnemonic::TXA, code: 0x8a, bytes: 1, cycles: 2, addressing_mode: AddressingMode::IMP, unofficial: false }),
        0x8c => Some(OpCode { mnemonic: Mnemonic::STY, code: 0x8c, bytes: 3, cycles: 4, addressing_mode: AddressingMode::ABS, unofficial: false }),
        0x8d => Some(OpCode { mnemonic: Mnemonic::STA, code: 0x8d, bytes: 3, cycles: 4, addressing_mode: AddressingMode::ABS, unofficial: false }),
        0x8e => Some(OpCode { mnemonic: Mnemonic::STX, code: 0x8e, bytes: 3, cycles: 4, addressing_mode: AddressingMode::ABS, unofficial: false }),
        0x8f => Some(OpCode { mnemonic: Mnemonic::SAX, code: 0x8f, bytes: 3, cycles: 4, addressing_mode: AddressingMode::ABS, unofficial: true }),
        0x90 => Some(OpCode { mnemonic: Mnemonic::BCC, code: 0x90, bytes: 2, cycles: 2, addressing_mode: AddressingMode::REL, unofficial: false }),
        0x91 => Some(OpCode { mnemonic: Mnemonic::STA, code: 0x91, bytes: 2, cycles: 6, addressing_mode: AddressingMode::IDY, unofficial: false }),
        0x94 => Some(OpCode { mnemonic: Mnemonic::STY, code: 0x94, bytes: 2, cycles: 4, addressing_mode: AddressingMode::ZPX, unofficial: false }),
        0x95 => Some(OpCode { mnemonic: Mnemonic::STA, code: 0x95, bytes: 2, cycles: 4, addressing_mode: AddressingMode::ZPX, unofficial: false }),
        0x96 => Some(OpCode { mnemonic: Mnemonic::STX, code: 0x96, bytes: 2, cycles: 4, addressing_mode: AddressingMode::ZPY, unofficial: false }),
        0x97 => Some(OpCode { mnemonic: Mnemonic::SAX, code: 0x97, bytes: 2, cycles: 4, addressing_mode: AddressingMode::ZPY, unofficial: true }),
        0x98 => Some(OpCode { mnemonic: Mnemonic::TYA, code: 0x98, bytes: 1, cycles: 2, addressing_mode: AddressingMode::IMP, unofficial: false }),
        0x99 => Some(OpCode { mnemonic: Mnemonic::STA, code: 0x99, bytes: 3, cycles: 5, addressing_mode: AddressingMode::ABY, unofficial: false }),
        0x9a => Some(OpCode { mnemonic: Mnemonic::TXS, code: 0x9a, bytes: 1, cycles: 2, addressing_mode: AddressingMode::IMP, unofficial: false }),
        0x9d => Some(OpCode { mnemonic: Mnemonic::STA, code: 0x9d, bytes: 3, cycles: 5, addressing_mode: AddressingMode::ABX, unofficial: false }),
        0xa0 => Some(OpCode { mnemonic: Mnemonic::LDY, code: 0xa0, bytes: 2, cycles: 2, addressing_mode: AddressingMode::IMM, unofficial: false }),
        0xa1 => Some(OpCode { mnemonic: Mnemonic::LDA, code: 0xa1, bytes: 2, cycles: 6, addressing_mode: AddressingMode::IDX, unofficial: false }),
        0xa2 => Some(OpCode { mnemonic: Mnemonic::LDX, code: 0xa2, bytes: 2, cycles: 2, addressing_mode: AddressingMode::IMM, unofficial: false }),
        0xa3 => Some(OpCode { mnemonic: Mnemonic::LAX, code: 0xa3, bytes: 2, cycles: 6, addressing_mode: AddressingMode::IDX, unofficial: true }),
        0xa4 => Some(OpCode { mnemonic: Mnemonic::LDY, code: 0xa4, bytes: 2, cycles: 3, addressing_mode: AddressingMode::ZPG, unofficial: false }),
        0xa5 => Some(OpCode { mnemonic: Mnemonic::LDA, code: 0xa5, bytes: 2, cycles: 3, addressing_mode: AddressingMode::ZPG, unofficial: false }),
        0xa6 => Some(OpCode { mnemonic: Mnemonic::LDX, code: 0xa6, bytes: 2, cycles: 3, addressing_mode: AddressingMode::ZPG, unofficial: false }),
        0xa7 => Some(OpCode { mnemonic: Mnemonic::LAX, code: 0xa7, bytes: 2, cycles: 3, addressing_mode: AddressingMode::ZPG, unofficial: true }),
        0xa8 => Some(OpCode { mnemonic: Mnemonic::TAY, code: 0xa8, bytes: 1, cycles: 2, addressing_mode: AddressingMode::IMP, unofficial: false }),
        0xa9 => Some(OpCode { mnemonic: Mnemonic::LDA, code: 0xa9, bytes: 2, cycles: 2, addressing_mode: AddressingMode::IMM, unofficial: false }),
        0xaa => Some(OpCode { mnemonic: Mnemonic::TAX, code: 0xaa, bytes: 1, cycles: 2, addressing_mode: AddressingMode::IMP, unofficial: false }),
        0xac => Some(OpCode { mnemonic: Mnemonic::LDY, code: 0xac, bytes: 3, cycles: 4, addressing_mode: AddressingMode::ABS, unofficial: false }),
        0xad => Some(OpCode { mnemonic: Mnemonic::LDA, code: 0xad, bytes: 3, cycles: 4, addressing_mode: AddressingMode::ABS, unofficial: false }),
        0xae => Some(OpCode { mnemonic: Mnemonic::LDX, code: 0xae, bytes: 3, cycles: 4, addressing_mode: AddressingMode::ABS, unofficial: false }),
        0xaf => Some(OpCode { mnemonic: Mnemonic::LAX, code: 0xaf, bytes: 3, cycles: 4, addressing_mode: AddressingMode::ABS, unofficial: true }),
        0xb0 => Some(OpCode { mnemonic: Mnemonic::BCS, code: 0xb0, bytes: 2, cycles: 2, addressing_mode: AddressingMode::REL, unofficial: false }),
        0xb1 => Some(OpCode { mnemonic: Mnemonic::LDA, code: 0xb1, bytes: 2, cycles: 5, addressing_mode: AddressingMode::IDY, unofficial: false }),
        0xb3 => Some(OpCode { mnemonic: Mnemonic::LAX, code: 0xb3, bytes: 2, cycles: 5, addressing_mode: AddressingMode::IDY, unofficial: true }),
        0xb4 => Some(OpCode { mnemonic: Mnemonic::LDY, code: 0xb4, bytes: 2, cycles: 4, addressing_mode: AddressingMode::ZPX, unofficial: false }),
        0xb5 => Some(OpCode { mnemonic: Mnemonic::LDA, code: 0xb5, bytes: 2, cycles: 4, addressing_mode: AddressingMode::ZPX, unofficial: false }),
        0xb6 => Some(OpCode { mnemonic: Mnemonic::LDX, code: 0xb6, bytes: 2, cycles: 4, addressing_mode: AddressingMode::ZPY, unofficial: false }),
        0xb7 => Some(OpCode { mnemonic: Mnemonic::LAX, code: 0xb7, bytes: 2, cycles: 4, addressing_mode: AddressingMode::ZPY, unofficial: true }),
        0xb8 => Some(OpCode { mnemonic: Mnemonic::CLV, code: 0xb8, bytes: 1, cycles: 2, addressing_mode: AddressingMode::IMP, unofficial: false }),
        0xb9 => Some(OpCode { mnemonic: Mnemonic::LDA, code: 0xb9, bytes: 3, cycles: 4, addressing_mode: AddressingMode::ABY, unofficial: false }),
        0xba => Some(OpCode { mnemonic: Mnemonic::TSX, code: 0xba, bytes: 1, cycles: 2, addressing_mode: AddressingMode::IMP, unofficial: false }),
        0xbc => Some(OpCode { mnemonic: Mnemonic::LDY, code: 0xbc, bytes: 3, cycles: 4, addressing_mode: AddressingMode::ABX, unofficial: false }),
        0xbd => Some(OpCode { mnemonic: Mnemonic::LDA, code: 0xbd, bytes: 3, cycles: 4, addressing_mode: AddressingMode::ABX, unofficial: false }),
        0xbe => Some(OpCode { mnemonic: Mnemonic::LDX, code: 0xbe, bytes: 3, cycles: 4, addressing_mode: AddressingMode::ABY, unofficial: false }),
        0xbf => Some(OpCode { mnemonic: Mnemonic::LAX, code: 0xbf, bytes: 3, cycles: 4, addressing_mode: AddressingMode::ABY, unofficial: true }),
        0xc0 => Some(OpCode { mnemonic: Mnemonic::CPY, code: 0xc0, bytes: 2, cycles: 2, addressing_mode: AddressingMode::IMM, unofficial: false }),
        0xc1 => Some(OpCode { mnemonic: Mnemonic::CMP, code: 0xc1, bytes: 2, cycles: 6, addressing_mode: AddressingMode::IDX, unofficial: false }),
        0xc3 => Some(OpCode { mnemonic: Mnemonic::DCP, code: 0xc3, bytes: 2, cycles: 8, addressing_mode: AddressingMode::IDX, unofficial: true }),
        0xc4 => Some(OpCode { mnemonic: Mnemonic::CPY, code: 0xc4, bytes: 2, cycles: 3, addressing_mode: AddressingMode::ZPG, unofficial: false }),
        0xc5 => Some(OpCode { mnemonic: Mnemonic::CMP, code: 0xc5, bytes: 2, cycles: 3, addressing_mode: AddressingMode::ZPG, unofficial: false }),
        0xc6 => Some(OpCode { mnemonic: Mnemonic::DEC, code: 0xc6, bytes: 2, cycles: 5, addressing_mode: AddressingMode::ZPG, unofficial: false }),
        0xc7 => Some(OpCode { mnemonic: Mnemonic::DCP, code: 0xc7, bytes: 2, cycles: 5, addressing_mode: AddressingMode::ZPG, unofficial: true }),
        0xc8 => Some(OpCode { mnemonic: Mnemonic::INY, code: 0xc8, bytes: 1, cycles: 2, addressing_mode: AddressingMode::IMP, unofficial: false }),
        0xc9 => Some(OpCode { mnemonic: Mnemonic::CMP, code: 0xc9, bytes: 2, cycles: 2, addressing_mode: AddressingMode::IMM, unofficial: false }),
        0xca => Some(OpCode { mnemonic: Mnemonic::DEX, code: 0xca, bytes: 1, cycles: 2, addressing_mode: AddressingMode::IMP, unofficial: false }),
        0xcc => Some(OpCode { mnemonic: Mnemonic::CPY, code: 0xcc, bytes: 3, cycles: 4, addressing_mode: AddressingMode::ABS, unofficial: false }),
        0xcd => Some(OpCode { mnemonic: Mnemonic::CMP, code: 0xcd, bytes: 3, cycles: 4, addressing_mode: AddressingMode::ABS, unofficial: false }),
        0xce => Some(OpCode { mnemonic: Mnemonic::DEC, code: 0xce, bytes: 3, cycles: 6, addressing_mode: AddressingMode::ABS, unofficial: false }),
        0xcf => Some(OpCode { mnemonic: Mnemonic::DCP, code: 0xcf, bytes: 3, cycles: 6, addressing_mode: AddressingMode::ABS, unofficial: true }),
        0xd0 => Some(OpCode { mnemonic: Mnemonic::BNE, code: 0xd0, bytes: 2, cycles: 2, addressing_mode: AddressingMode::REL, unofficial: false }),
        0xd1 => Some(OpCode { mnemonic: Mnemonic::CMP, code: 0xd1, bytes: 2, cycles: 5, addressing_mode: AddressingMode::IDY, unofficial: false }),
        0xd3 => Some(OpCode { mnemonic: Mnemonic::DCP, code: 0xd3, bytes: 2, cycles: 8, addressing_mode: AddressingMode::IDY, unofficial: true }),
        0xd4 => Some(OpCode { mnemonic: Mnemonic::NOP, code: 0xd4, bytes: 2, cycles: 4, addressing_mode: AddressingMode::ZPX, unofficial: true }),
        0xd5 => Some(OpCode { mnemonic: Mnemonic::CMP, code: 0xd5, bytes: 2, cycles: 4, addressing_mode: AddressingMode::ZPX, unofficial: false }),
        0xd6 => Some(OpCode { mnemonic: Mnemonic::DEC, code: 0xd6, bytes: 2, cycles: 6, addressing_mode: AddressingMode::ZPX, unofficial: false }),
        0xd7 => Some(OpCode { mnemonic: Mnemonic::DCP, code: 0xd7, bytes: 2, cycles: 6, addressing_mode: AddressingMode::ZPX, unofficial: true }),
        0xd8 => Some(OpCode { mnemonic: Mnemonic::CLD, code: 0xd8, bytes: 1, cycles: 2, addressing_mode: AddressingMode::IMP, unofficial: false }),
        0xd9 => Some(OpCode { mnemonic: Mnemonic::CMP, code: 0xd9, bytes: 3, cycles: 4, addressing_mode: AddressingMode::ABY, unofficial: false }),
        0xda => Some(OpCode { mnemonic: Mnemonic::NOP, code: 0xda, bytes: 1, cycles: 2, addressing_mode: AddressingMode::IMP, unofficial: true }),
        0xdb => Some(OpCode { mnemonic: Mnemonic::DCP, code: 0xdb, bytes: 3, cycles: 7, addressing_mode: AddressingMode::ABY, unofficial: true }),
        0xdc => Some(OpCode { mnemonic: Mnemonic::NOP, code: 0xdc, bytes: 3, cycles: 4, addressing_mode: AddressingMode::ABX, unofficial: true }),
        0xdd => Some(OpCode { mnemonic: Mnemonic::CMP, code: 0xdd, bytes: 3, cycles: 4, addressing_mode: AddressingMode::ABX, unofficial: false }),
        0xde => Some(OpCode { mnemonic: Mnemonic::DEC, code: 0xde, bytes: 3, cycles: 7, addressing_mode: AddressingMode::ABX, unofficial: false }),
        0xdf => Some(OpCode { mnemonic: Mnemonic::DCP, code: 0xdf, bytes: 3, cycles: 7, addressing_mode: AddressingMode::ABX, unofficial: true }),
        0xe0 => Some(OpCode { mnemonic: Mnemonic::CPX, code: 0xe0, bytes: 2, cycles: 2, addressing_mode: AddressingMode::IMM, unofficial: false }),
        0xe1 => Some(OpCode { mnemonic: Mnemonic::SBC, code: 0xe1, bytes: 2, cycles: 6, addressing_mode: AddressingMode::IDX, unofficial: false }),
        0xe3 => Some(OpCode { mnemonic: Mnemonic::ISB, code: 0xe3, bytes: 2, cycles: 8, addressing_mode: AddressingMode::IDX, unofficial: true }),
        0xe4 => Some(OpCode { mnemonic: Mnemonic::CPX, code: 0xe4, bytes: 2, cycles: 3, addressing_mode: AddressingMode::ZPG, unofficial: false }),
        0xe5 => Some(OpCode { mnemonic: Mnemonic::SBC, code: 0xe5, bytes: 2, cycles: 3, addressing_mode: AddressingMode::ZPG, unofficial: false }),
        0xe6 => Some(OpCode { mnemonic: Mnemonic::INC, code: 0xe6, bytes: 2, cycles: 5, addressing_mode: AddressingMode::ZPG, unofficial: false }),
        0xe7 => Some(OpCode { mnemonic: Mnemonic::ISB, code: 0xe7, bytes: 2, cycles: 5, addressing_mode: AddressingMode::ZPG, unofficial: true }),
        0xe8 => Some(OpCode { mnemonic: Mnemonic::INX, code: 0xe8, bytes: 1, cycles: 2, addressing_mode: AddressingMode::IMP, unofficial: false }),
        0xe9 => Some(OpCode { mnemonic: Mnemonic::SBC, code: 0xe9, bytes: 2, cycles: 2, addressing_mode: AddressingMode::IMM, unofficial: false }),
        0xea => Some(OpCode { mnemonic: Mnemonic::NOP, code: 0xea, bytes: 1, cycles: 2, addressing_mode: AddressingMode::IMP, unofficial: false }),
        0xeb => Some(OpCode { mnemonic: Mnemonic::SBC, code: 0xeb, bytes: 2, cycles: 2, addressing_mode: AddressingMode::IMM, unofficial: true }),
        0xec => Some(OpCode { mnemonic: Mnemonic::CPX, code: 0xec, bytes: 3, cycles: 4, addressing_mode: AddressingMode::ABS, unofficial: false }),
        0xed => Some(OpCode { mnemonic: Mnemonic::SBC, code: 0xed, bytes: 3, cycles: 4, addressing_mode: AddressingMode::ABS, unofficial: false }),
        0xee => Some(OpCode { mnemonic: Mnemonic::INC, code: 0xee, bytes: 3, cycles: 6, addressing_mode: AddressingMode::ABS, unofficial: false }),
        0xef => Some(OpCode { mnemonic: Mnemonic::ISB, code: 0xef, bytes: 3, cycles: 6, addressing_mode: AddressingMode::ABS, unofficial: true }),
        0xf0 => Some(OpCode { mnemonic: Mnemonic::BEQ, code: 0xf0, bytes: 2, cycles: 2, addressing_mode: AddressingMode::REL, unofficial: false }),
        0xf1 => Some(OpCode { mnemonic: Mnemonic::SBC, code: 0xf1, bytes: 2, cycles: 5, addressing_mode: AddressingMode::IDY, unofficial: false }),
        0xf3 => Some(OpCode { mnemonic: Mnemonic::ISB, code: 0xf3, bytes: 2, cycles: 8, addressing_mode: AddressingMode::IDY, unofficial: true }),
        0xf4 => Some(OpCode { mnemonic: Mnemonic::NOP, code: 0xf4, bytes: 2, cycles: 4, addressing_mode: AddressingMode::ZPX, unofficial: true }),
        0xf5 => Some(OpCode { mnemonic: Mnemonic::SBC, code: 0xf5, bytes: 2, cycles: 4, addressing_mode: AddressingMode::ZPX, unofficial: false }),
        0xf6 => Some(OpCode { mnemonic: Mnemonic::INC, code: 0xf6, bytes: 2, cycles: 6, addressing_mode: AddressingMode::ZPX, unofficial: false }),
        0xf7 => Some(OpCode { mnemonic: Mnemonic::ISB, code: 0xf7, bytes: 2, cycles: 6, addressing_mode: AddressingMode::ZPX, unofficial: true }),
        0xf8 => Some(OpCode { mnemonic: Mnemonic::SED, code: 0xf8, bytes: 1, cycles: 2, addressing_mode: AddressingMode::IMP, unofficial: false }),
        0xf9 => Some(OpCode { mnemonic: Mnemonic::SBC, code: 0xf9, bytes: 3, cycles: 4, addressing_mode: AddressingMode::ABY, unofficial: false }),
        0xfa => Some(OpCode { mnemonic: Mnemonic::NOP, code: 0xfa, bytes: 1, cycles: 2, addressing_mode: AddressingMode::IMP, unofficial: true }),
        0xfb => Some(OpCode { mnemonic: Mnemonic::ISB, code: 0xfb, bytes: 3, cycles: 7, addressing_mode: AddressingMode::ABY, unofficial: true }),
        0xfc => Some(OpCode { mnemonic: Mnemonic::NOP, code: 0xfc, bytes: 3, cycles: 4, addressing_mode: AddressingMode::ABX, unofficial: true }),
        0xfd => Some(OpCode { mnemonic: Mnemonic::SBC, code: 0xfd, bytes: 3, cycles: 4, addressing_mode: AddressingMode::ABX, unofficial: false }),
        0xfe => Some(OpCode { mnemonic: Mnemonic::INC, code: 0xfe, bytes: 3, cycles: 7, addressing_mode: AddressingMode::ABX, unofficial: false }),
        0xff => Some(OpCode { mnemonic: Mnemonic::ISB, code: 0xff, bytes: 3, cycles: 7, addressing_mode: AddressingMode::ABX, unofficial: true }),
        _ => None,
    }
}

/// Looks one opcode byte up in the table.
pub fn opcode_lookup(code: u8) -> (r: Option<OpCode>)
    ensures
        r == spec_opcode(code),
{
    match code {
        0x00 => Some(OpCode { mnemonic: Mnemonic::BRK, code: 0x00, bytes: 1, cycles: 7, addressing_mode: AddressingMode::IMP, unofficial: false }),
        0x01 => Some(OpCode { mnemonic: Mnemonic::ORA, code: 0x01, bytes: 2, cycles: 6, addressing_mode: AddressingMode::IDX, unofficial: false }),
        0x03 => Some(OpCode { mnemonic: Mnemonic::SLO, code: 0x03, bytes: 2, cycles: 8, addressing_mode: AddressingMode::IDX, unofficial: true }),
        0x04 => Some(OpCode { mnemonic: Mnemonic::NOP, code: 0x04, bytes: 2, cycles: 3, addressing_mode: AddressingMode::ZPG, unofficial: true }),
        0x05 => Some(OpCode { mnemonic: Mnemonic::ORA, code: 0x05, bytes: 2, cycles: 3, addressing_mode: AddressingMode::ZPG, unofficial: false }),
        0x06 => Some(OpCode { mnemonic: Mnemonic::ASL, code: 0x06, bytes: 2, cycles: 5, addressing_mode: AddressingMode::ZPG, unofficial: false }),
        0x07 => Some(OpCode { mnemonic: Mnemonic::SLO, code: 0x07, bytes: 2, cycles: 5, addressing_mode: AddressingMode::ZPG, unofficial: true }),
        0x08 => Some(OpCode { mnemonic: Mnemonic::PHP, code: 0x08, bytes: 1, cycles: 3, addressing_mode: AddressingMode::IMP, unofficial: false }),
        0x09 => Some(OpCode { mnemonic: Mnemonic::ORA, code: 0x09, bytes: 2, cycles: 2, addressing_mode: AddressingMode::IMM, unofficial: false }),
        0x0a => Some(OpCode { mnemonic: Mnemonic::ASL, code: 0x0a, bytes: 1, cycles: 2, addressing_mode: AddressingMode::ACC, unofficial: false }),
        0x0c => Some(OpCode { mnemonic: Mnemonic::NOP, code: 0x0c, bytes: 3, cycles: 4, addressing_mode: AddressingMode::ABS, unofficial: true }),
        0x0d => Some(OpCode { mnemonic: Mnemonic::ORA, code: 0x0d, bytes: 3, cycles: 4, addressing_mode: AddressingMode::ABS, unofficial: false }),
        0x0e => Some(OpCode { mnemonic: Mnemonic::ASL, code: 0x0e, bytes: 3, cycles: 6, addressing_mode: AddressingMode::ABS, unofficial: false }),
        0x0f => Some(OpCode { mnemonic: Mnemonic::SLO, code: 0x0f, bytes: 3, cycles: 6, addressing_mode: AddressingMode::ABS, unofficial: true }),
        0x10 => Some(OpCode { mnemonic: Mnemonic::BPL, code: 0x10, bytes: 2, cycles: 2, addressing_mode: AddressingMode::REL, unofficial: false }),
        0x11 => Some(OpCode { mnemonic: Mnemonic::ORA, code: 0x11, bytes: 2, cycles: 5, addressing_mode: AddressingMode::IDY, unofficial: false }),
        0x13 => Some(OpCode { mnemonic: Mnemonic::SLO, code: 0x13, bytes: 2, cycles: 8, addressing_mode: AddressingMode::IDY, unofficial: true }),
        0x14 => Some(OpCode { mnemonic: Mnemonic::NOP, code: 0x14, bytes: 2, cycles: 4, addressing_mode: AddressingMode::ZPX, unofficial: true }),
        0x15 => Some(OpCode { mnemonic: Mnemonic::ORA, code: 0x15, bytes: 2, cycles: 4, addressing_mode: AddressingMode::ZPX, unofficial: false }),
        0x16 => Some(OpCode { mnemonic: Mnemonic::ASL, code: 0x16, bytes: 2, cycles: 6, addressing_mode: AddressingMode::ZPX, unofficial: false }),
        0x17 => Some(OpCode { mnemonic: Mnemonic::SLO, code: 0x17, bytes: 2, cycles: 6, addressing_mode: AddressingMode::ZPX, unofficial: true }),
        0x18 => Some(OpCode { mnemonic: Mnemonic::CLC, code: 0x18, bytes: 1, cycles: 2, addressing_mode: AddressingMode::IMP, unofficial: false }),
        0x19 => Some(OpCode { mnemonic: Mnemonic::ORA, code: 0x19, bytes: 3, cycles: 4, addressing_mode: AddressingMode::ABY, unofficial: false }),
        0x1a => Some(OpCode { mnemonic: Mnemonic::NOP, code: 0x1a, bytes: 1, cycles: 2, addressing_mode: AddressingMode::IMP, unofficial: true }),
        0x1b => Some(OpCode { mnemonic: Mnemonic::SLO, code: 0x1b, bytes: 3, cycles: 7, addressing_mode: AddressingMode::ABY, unofficial: true }),
        0x1c => Some(OpCode { mnemonic: Mnemonic::NOP, code: 0x1c, bytes: 3, cycles: 4, addressing_mode: AddressingMode::ABX, unofficial: true }),
        0x1d => Some(OpCode { mnemonic: Mnemonic::ORA, code: 0x1d, bytes: 3, cycles: 4, addressing_mode: AddressingMode::ABX, unofficial: false }),
        0x1e => Some(OpCode { mnemonic: Mnemonic::ASL, code: 0x1e, bytes: 3, cycles: 7, addressing_mode: AddressingMode::ABX, unofficial: false }),
        0x1f => Some(OpCode { mnemonic: Mnemonic::SLO, code: 0x1f, bytes: 3, cycles: 7, addressing_mode: AddressingMode::ABX, unofficial: true }),
        0x20 => Some(OpCode { mnemonic: Mnemonic::JSR, code: 0x20, bytes: 1, cycles: 6, addressing_mode: AddressingMode::ABS, unofficial: false }),
        0x21 => Some(OpCode { mnemonic: Mnemonic::AND, code: 0x21, bytes: 2, cycles: 6, addressing_mode: AddressingMode::IDX, unofficial: false }),
        0x23 => Some(OpCode { mnemonic: Mnemonic::RLA, code: 0x23, bytes: 2, cycles: 8, addressing_mode: AddressingMode::IDX, unofficial: true }),
        0x24 => Some(OpCode { mnemonic: Mnemonic::BIT, code: 0x24, bytes: 2, cycles: 3, addressing_mode: AddressingMode::ZPG, unofficial: false }),
        0x25 => Some(OpCode { mnemonic: Mnemonic::AND, code: 0x25, bytes: 2, cycles: 3, addressing_mode: AddressingMode::ZPG, unofficial: false }),
        0x26 => Some(OpCode { mnemonic: Mnemonic::ROL, code: 0x26, bytes: 2, cycles: 5, addressing_mode: AddressingMode::ZPG, unofficial: false }),
        0x27 => Some(OpCode { mnemonic: Mnemonic::RLA, code: 0x27, bytes: 2, cycles: 5, addressing_mode: AddressingMode::ZPG, unofficial: true }),
        0x28 => Some(OpCode { mnemonic: Mnemonic::PLP, code: 0x28, bytes: 1, cycles: 4, addressing_mode: AddressingMode::IMP, unofficial: false }),
        0x29 => Some(OpCode { mnemonic: Mnemonic::AND, code: 0x29, bytes: 2, cycles: 2, addressing_mode: AddressingMode::IMM, unofficial: false }),
        0x2a => Some(OpCode { mnemonic: Mnemonic::ROL, code: 0x2a, bytes: 1, cycles: 2, addressing_mode: AddressingMode::ACC, unofficial: false }),
        0x2c => Some(OpCode { mnemonic: Mnemonic::BIT, code: 0x2c, bytes: 3, cycles: 4, addressing_mode: AddressingMode::ABS, unofficial: false }),
        0x2d => Some(OpCode { mnemonic: Mnemonic::AND, code: 0x2d, bytes: 3, cycles: 4, addressing_mode: AddressingMode::ABS, unofficial: false }),
        0x2e => Some(OpCode { mnemonic: Mnemonic::ROL, code: 0x2e, bytes: 3, cycles: 6, addressing_mode: AddressingMode::ABS, unofficial: false }),
        0x2f => Some(OpCode { mnemonic: Mnemonic::RLA, code: 0x2f, bytes: 3, cycles: 6, addressing_mode: AddressingMode::ABS, unofficial: true }),
        0x30 => Some(OpCode { mnemonic: Mnemonic::BMI, code: 0x30, bytes: 2, cycles: 2, addressing_mode: AddressingMode::REL, unofficial: false }),
        0x31 => Some(OpCode { mnemonic: Mnemonic::AND, code: 0x31, bytes: 2, cycles: 5, addressing_mode: AddressingMode::IDY, unofficial: false }),
        0x33 => Some(OpCode { mnemonic: Mnemonic::RLA, code: 0x33, bytes: 2, cycles: 8, addressing_mode: AddressingMode::IDY, unofficial: true }),
        0x34 => Some(OpCode { mnemonic: Mnemonic::NOP, code: 0x34, bytes: 2, cycles: 4, addressing_mode: AddressingMode::ZPX, unofficial: true }),
        0x35 => Some(OpCode { mnemonic: Mnemonic::AND, code: 0x35, bytes: 2, cycles: 4, addressing_mode: AddressingMode::ZPX, unofficial: false }),
        0x36 => Some(OpCode { mnemonic: Mnemonic::ROL, code: 0x36, bytes: 2, cycles: 6, addressing_mode: AddressingMode::ZPX, unofficial: false }),
        0x37 => Some(OpCode { mnemonic: Mnemonic::RLA, code: 0x37, bytes: 2, cycles: 6, addressing_mode: AddressingMode::ZPX, unofficial: true }),
        0x38 => Some(OpCode { mnemonic: Mnemonic::SEC, code: 0x38, bytes: 1, cycles: 2, addressing_mode: AddressingMode::IMP, unofficial: false }),
        0x39 => Some(OpCode { mnemonic: Mnemonic::AND, code: 0x39, bytes: 3, cycles: 4, addressing_mode: AddressingMode::ABY, unofficial: false }),
        0x3a => Some(OpCode { mnemonic: Mnemonic::NOP, code: 0x3a, bytes: 1, cycles: 2, addressing_mode: AddressingMode::IMP, unofficial: true }),
        0x3b => Some(OpCode { mnemonic: Mnemonic::RLA, code: 0x3b, bytes: 3, cycles: 7, addressing_mode: AddressingMode::ABY, unofficial: true }),
        0x3c => Some(OpCode { mnemonic: Mnemonic::NOP, code: 0x3c, bytes: 3, cycles: 4, addressing_mode: AddressingMode::ABX, unofficial: true }),
        0x3d => Some(OpCode { mnemonic: Mnemonic::AND, code: 0x3d, bytes: 3, cycles: 4, addressing_mode: AddressingMode::ABX, unofficial: false }),
        0x3e => Some(OpCode { mnemonic: Mnemonic::ROL, code: 0x3e, bytes: 3, cycles: 7, addressing_mode: AddressingMode::ABX, unofficial: false }),
        0x3f => Some(OpCode { mnemonic: Mnemonic::RLA, code: 0x3f, bytes: 3, cycles: 7, addressing_mode: AddressingMode::ABX, unofficial: true }),
        0x40 => Some(OpCode { mnemonic: Mnemonic::RTI, code: 0x40, bytes: 1, cycles: 6, addressing_mode: AddressingMode::IMP, unofficial: false }),
        0x41 => Some(OpCode { mnemonic: Mnemonic::EOR, code: 0x41, bytes: 2, cycles: 6, addressing_mode: AddressingMode::IDX, unofficial: false }),
        0x43 => Some(OpCode { mnemonic: Mnemonic::SRE, code: 0x43, bytes: 2, cycles: 8, addressing_mode: AddressingMode::IDX, unofficial: true }),
        0x44 => Some(OpCode { mnemonic: Mnemonic::NOP, code: 0x44, bytes: 2, cycles: 3, addressing_mode: AddressingMode::ZPG, unofficial: true }),
        0x45 => Some(OpCode { mnemonic: Mnemonic::EOR, code: 0x45, bytes: 2, cycles: 3, addressing_mode: AddressingMode::ZPG, unofficial: false }),
        0x46 => Some(OpCode { mnemonic: Mnemonic::LSR, code: 0x46, bytes: 2, cycles: 5, addressing_mode: AddressingMode::ZPG, unofficial: false }),
        0x47 => Some(OpCode { mnemonic: Mnemonic::SRE, code: 0x47, bytes: 2, cycles: 5, addressing_mode: AddressingMode::ZPG, unofficial: true }),
        0x48 => Some(OpCode { mnemonic: Mnemonic::PHA, code: 0x48, bytes: 1, cycles: 3, addressing_mode: AddressingMode::IMP, unofficial: false }),
        0x49 => Some(OpCode { mnemonic: Mnemonic::EOR, code: 0x49, bytes: 2, cycles: 2, addressing_mode: AddressingMode::IMM, unofficial: false }),
        0x4a => Some(OpCode { mnemonic: Mnemonic::LSR, code: 0x4a, bytes: 1, cycles: 2, addressing_mode: AddressingMode::ACC, unofficial: false }),
        0x4c => Some(OpCode { mnemonic: Mnemonic::JMP, code: 0x4c, bytes: 1, cycles: 3, addressing_mode: AddressingMode::ABS, unofficial: false }),
        0x4d => Some(OpCode { mnemonic: Mnemonic::EOR, code: 0x4d, bytes: 3, cycles: 4, addressing_mode: AddressingMode::ABS, unofficial: false }),
        0x4e => Some(OpCode { mnemonic: Mnemonic::LSR, code: 0x4e, bytes: 3, cycles: 6, addressing_mode: AddressingMode::ABS, unofficial: false }),
        0x4f => Some(OpCode { mnemonic: Mnemonic::SRE, code: 0x4f, bytes: 3, cycles: 6, addressing_mode: AddressingMode::ABS, unofficial: true }),
        0x50 => Some(OpCode { mnemonic: Mnemonic::BVC, code: 0x50, bytes: 2, cycles: 2, addressing_mode: AddressingMode::REL, unofficial: false }),
        0x51 => Some(OpCode { mnemonic: Mnemonic::EOR, code: 0x51, bytes: 2, cycles: 5, addressing_mode: AddressingMode::IDY, unofficial: false }),
        0x53 => Some(OpCode { mnemonic: Mnemonic::SRE, code: 0x53, bytes: 2, cycles: 8, addressing_mode: AddressingMode::IDY, unofficial: true }),
        0x54 => Some(OpCode { mnemonic: Mnemonic::NOP, code: 0x54, bytes: 2, cycles: 4, addressing_mode: AddressingMode::ZPX, unofficial: true }),
        0x55 => Some(OpCode { mnemonic: Mnemonic::EOR, code: 0x55, bytes: 2, cycles: 4, addressing_mode: AddressingMode::ZPX, unofficial: false }),
        0x56 => Some(OpCode { mnemonic: Mnemonic::LSR, code: 0x56, bytes: 2, cycles: 6, addressing_mode: AddressingMode::ZPX, unofficial: false }),
        0x57 => Some(OpCode { mnemonic: Mnemonic::SRE, code: 0x57, bytes: 2, cycles: 6, addressing_mode: AddressingMode::ZPX, unofficial: true }),
        0x58 => Some(OpCode { mnemonic: Mnemonic::CLI, code: 0x58, bytes: 1, cycles: 2, addressing_mode: AddressingMode::IMP, unofficial: false }),
        0x59 => Some(OpCode { mnemonic: Mnemonic::EOR, code: 0x59, bytes: 3, cycles: 4, addressing_mode: AddressingMode::ABY, unofficial: false }),
        0x5a => Some(OpCode { mnemonic: Mnemonic::NOP, code: 0x5a, bytes: 1, cycles: 2, addressing_mode: AddressingMode::IMP, unofficial: true }),
        0x5b => Some(OpCode { mnemonic: Mnemonic::SRE, code: 0x5b, bytes: 3, cycles: 7, addressing_mode: AddressingMode::ABY, unofficial: true }),
        0x5c => Some(OpCode { mnemonic: Mnemonic::NOP, code: 0x5c, bytes: 3, cycles: 4, addressing_mode: AddressingMode::ABX, unofficial: true }),
        0x5d => Some(OpCode { mnemonic: Mnemonic::EOR, code: 0x5d, bytes: 3, cycles: 4, addressing_mode: AddressingMode::ABX, unofficial: false }),
        0x5e => Some(OpCode { mnemonic: Mnemonic::LSR, code: 0x5e, bytes: 3, cycles: 7, addressing_mode: AddressingMode::ABX, unofficial: false }),
        0x5f => Some(OpCode { mnemonic: Mnemonic::SRE, code: 0x5f, bytes: 3, cycles: 7, addressing_mode: AddressingMode::ABX, unofficial: true }),
        0x60 => Some(OpCode { mnemonic: Mnemonic::RTS, code: 0x60, bytes: 1, cycles: 6, addressing_mode: AddressingMode::IMP, unofficial: false }),
        0x61 => Some(OpCode { mnemonic: Mnemonic::ADC, code: 0x61, bytes: 2, cycles: 6, addressing_mode: AddressingMode::IDX, unofficial: false }),
        0x63 => Some(OpCode { mnemonic: Mnemonic::RRA, code: 0x63, bytes: 2, cycles: 8, addressing_mode: AddressingMode::IDX, unofficial: true }),
        0x64 => Some(OpCode { mnemonic: Mnemonic::NOP, code: 0x64, bytes: 2, cycles: 3, addressing_mode: AddressingMode::ZPG, unofficial: true }),
        0x65 => Some(OpCode { mnemonic: Mnemonic::ADC, code: 0x65, bytes: 2, cycles: 3, addressing_mode: AddressingMode::ZPG, unofficial: false }),
        0x66 => Some(OpCode { mnemonic: Mnemonic::ROR, code: 0x66, bytes: 2, cycles: 5, addressing_mode: AddressingMode::ZPG, unofficial: false }),
        0x67 => Some(OpCode { mnemonic: Mnemonic::RRA, code: 0x67, bytes: 2, cycles: 5, addressing_mode: AddressingMode::ZPG, unofficial: true }),
        0x68 => Some(OpCode { mnemonic: Mnemonic::PLA, code: 0x68, bytes: 1, cycles: 4, addressing_mode: AddressingMode::IMP, unofficial: false }),
        0x69 => Some(OpCode { mnemonic: Mnemonic::ADC, code: 0x69, bytes: 2, cycles: 2, addressing_mode: AddressingMode::IMM, unofficial: false }),
        0x6a => Some(OpCode { mnemonic: Mnemonic::ROR, code: 0x6a, bytes: 1, cycles: 2, addressing_mode: AddressingMode::ACC, unofficial: false }),
        0x6c => Some(OpCode { mnemonic: Mnemonic::JMP, code: 0x6c, bytes: 1, cycles: 5, addressing_mode: AddressingMode::IND, unofficial: false }),
        0x6d => Some(OpCode { mnemonic: Mnemonic::ADC, code: 0x6d, bytes: 3, cycles: 4, addressing_mode: AddressingMode::ABS, unofficial: false }),
        0x6e => Some(OpCode { mnemonic: Mnemonic::ROR, code: 0x6e, bytes: 3, cycles: 6, addressing_mode: AddressingMode::ABS, unofficial: false }),
        0x6f => Some(OpCode { mnemonic: Mnemonic::RRA, code: 0x6f, bytes: 3, cycles: 6, addressing_mode: AddressingMode::ABS, unofficial: true }),
        0x70 => Some(OpCode { mnemonic: Mnemonic::BVS, code: 0x70, bytes: 2, cycles: 2, addressing_mode: AddressingMode::REL, unofficial: false }),
        0x71 => Some(OpCode { mnemonic: Mnemonic::ADC, code: 0x71, bytes: 2, cycles: 5, addressing_mode: AddressingMode::IDY, unofficial: false }),
        0x73 => Some(OpCode { mnemonic: Mnemonic::RRA, code: 0x73, bytes: 2, cycles: 8, addressing_mode: AddressingMode::IDY, unofficial: true }),
        0x74 => Some(OpCode { mnemonic: Mnemonic::NOP, code: 0x74, bytes: 2, cycles: 4, addressing_mode: AddressingMode::ZPX, unofficial: true }),
        0x75 => Some(OpCode { mnemonic: Mnemonic::ADC, code: 0x75, bytes: 2, cycles: 4, addressing_mode: AddressingMode::ZPX, unofficial: false }),
        0x76 => Some(OpCode { mnemonic: Mnemonic::ROR, code: 0x76, bytes: 2, cycles: 6, addressing_mode: AddressingMode::ZPX, unofficial: false }),
        0x77 => Some(OpCode { mnemonic: Mnemonic::RRA, code: 0x77, bytes: 2, cycles: 6, addressing_mode: AddressingMode::ZPX, unofficial: true }),
        0x78 => Some(OpCode { mnemonic: Mnemonic::SEI, code: 0x78, bytes: 1, cycles: 2, addressing_mode: AddressingMode::IMP, unofficial: false }),
        0x79 => Some(OpCode { mnemonic: Mnemonic::ADC, code: 0x79, bytes: 3, cycles: 4, addressing_mode: AddressingMode::ABY, unofficial: false }),
        0x7a => Some(OpCode { mnemonic: Mnemonic::NOP, code: 0x7a, bytes: 1, cycles: 2, addressing_mode: AddressingMode::IMP, unofficial: true }),
        0x7b => Some(OpCode { mnemonic: Mnemonic::RRA, code: 0x7b, bytes: 3, cycles: 7, addressing_mode: AddressingMode::ABY, unofficial: true }),
        0x7c => Some(OpCode { mnemonic: Mnemonic::NOP, code: 0x7c, bytes: 3, cycles: 4, addressing_mode: AddressingMode::ABX, unofficial: true }),
        0x7d => Some(OpCode { mnemonic: Mnemonic::ADC, code: 0x7d, bytes: 3, cycles: 4, addressing_mode: AddressingMode::ABX, unofficial: false }),
        0x7e => Some(OpCode { mnemonic: Mnemonic::ROR, code: 0x7e, bytes: 3, cycles: 7, addressing_mode: AddressingMode::ABX, unofficial: false }),
        0x7f => Some(OpCode { mnemonic: Mnemonic::RRA, code: 0x7f, bytes: 3, cycles: 7, addressing_mode: AddressingMode::ABX, unofficial: true }),
        0x80 => Some(OpCode { mnemonic: Mnemonic::NOP, code: 0x80, bytes: 2, cycles: 2, addressing_mode: AddressingMode::IMM, unofficial: true }),
        0x81 => Some(OpCode { mnemonic: Mnemonic::STA, code: 0x81, bytes: 2, cycles: 6, addressing_mode: AddressingMode::IDX, unofficial: false }),
        0x83 => Some(OpCode { mnemonic: Mnemonic::SAX, code: 0x83, bytes: 2, cycles: 6, addressing_mode: AddressingMode::IDX, unofficial: true }),
        0x84 => Some(OpCode { mnemonic: Mnemonic::STY, code: 0x84, bytes: 2, cycles: 3, addressing_mode: AddressingMode::ZPG, unofficial: false }),
        0x85 => Some(OpCode { mnemonic: Mnemonic::STA, code: 0x85, bytes: 2, cycles: 3, addressing_mode: AddressingMode::ZPG, unofficial: false }),
        0x86 => Some(OpCode { mnemonic: Mnemonic::STX, code: 0x86, bytes: 2, cycles: 3, addressing_mode: AddressingMode::ZPG, unofficial: false }),
        0x87 => Some(OpCode { mnemonic: Mnemonic::SAX, code: 0x87, bytes: 2, cycles: 3, addressing_mode: AddressingMode::ZPG, unofficial: true }),
        0x88 => Some(OpCode { mnemonic: Mnemonic::DEY, code: 0x88, bytes: 1, cycles: 2, addressing_mode: AddressingMode::IMP, unofficial: false }),
        0x8a => Some(OpCode { mnemonic: Mnemonic::TXA, code: 0x8a, bytes: 1, cycles: 2, addressing_mode: AddressingMode::IMP, unofficial: false }),
        0x8c => Some(OpCode { mnemonic: Mnemonic::STY, code: 0x8c, bytes: 3, cycles: 4, addressing_mode: AddressingMode::ABS, unofficial: false }),
        0x8d => Some(OpCode { mnemonic: Mnemonic::STA, code: 0x8d, bytes: 3, cycles: 4, addressing_mode: AddressingMode::ABS, unofficial: false }),
        0x8e => Some(OpCode { mnemonic: Mnemonic::STX, code: 0x8e, bytes: 3, cycles: 4, addressing_mode: AddressingMode::ABS, unofficial: false }),
        0x8f => Some(OpCode { mnemonic: Mnemonic::SAX, code: 0x8f, bytes: 3, cycles: 4, addressing_mode: AddressingMode::ABS, unofficial: true }),
        0x90 => Some(OpCode { mnemonic: Mnemonic::BCC, code: 0x90, bytes: 2, cycles: 2, addressing_mode: AddressingMode::REL, unofficial: false }),
        0x91 => Some(OpCode { mnemonic: Mnemonic::STA, code: 0x91, bytes: 2, cycles: 6, addressing_mode: AddressingMode::IDY, unofficial: false }),
        0x94 => Some(OpCode { mnemonic: Mnemonic::STY, code: 0x94, bytes: 2, cycles: 4, addressing_mode: AddressingMode::ZPX, unofficial: false }),
        0x95 => Some(OpCode { mnemonic: Mnemonic::STA, code: 0x95, bytes: 2, cycles: 4, addressing_mode: AddressingMode::ZPX, unofficial: false }),
        0x96 => Some(OpCode { mnemonic: Mnemonic::STX, code: 0x96, bytes: 2, cycles: 4, addressing_mode: AddressingMode::ZPY, unofficial: false }),
        0x97 => Some(OpCode { mnemonic: Mnemonic::SAX, code: 0x97, bytes: 2, cycles: 4, addressing_mode: AddressingMode::ZPY, unofficial: true }),
        0x98 => Some(OpCode { mnemonic: Mnemonic::TYA, code: 0x98, bytes: 1, cycles: 2, addressing_mode: AddressingMode::IMP, unofficial: false }),
        0x99 => Some(OpCode { mnemonic: Mnemonic::STA, code: 0x99, bytes: 3, cycles: 5, addressing_mode: AddressingMode::ABY, unofficial: false }),
        0x9a => Some(OpCode { mnemonic: Mnemonic::TXS, code: 0x9a, bytes: 1, cycles: 2, addressing_mode: AddressingMode::IMP, unofficial: false }),
        0x9d => Some(OpCode { mnemonic: Mnemonic::STA, code: 0x9d, bytes: 3, cycles: 5, addressing_mode: AddressingMode::ABX, unofficial: false }),
        0xa0 => Some(OpCode { mnemonic: Mnemonic::LDY, code: 0xa0, bytes: 2, cycles: 2, addressing_mode: AddressingMode::IMM, unofficial: false }),
        0xa1 => Some(OpCode { mnemonic: Mnemonic::LDA, code: 0xa1, bytes: 2, cycles: 6, addressing_mode: AddressingMode::IDX, unofficial: false }),
        0xa2 => Some(OpCode { mnemonic: Mnemonic::LDX, code: 0xa2, bytes: 2, cycles: 2, addressing_mode: AddressingMode::IMM, unofficial: false }),
        0xa3 => Some(OpCode { mnemonic: Mnemonic::LAX, code: 0xa3, bytes: 2, cycles: 6, addressing_mode: AddressingMode::IDX, unofficial: true }),
        0xa4 => Some(OpCode { mnemonic: Mnemonic::LDY, code: 0xa4, bytes: 2, cycles: 3, addressing_mode: AddressingMode::ZPG, unofficial: false }),
        0xa5 => Some(OpCode { mnemonic: Mnemonic::LDA, code: 0xa5, bytes: 2, cycles: 3, addressing_mode: AddressingMode::ZPG, unofficial: false }),
        0xa6 => Some(OpCode { mnemonic: Mnemonic::LDX, code: 0xa6, bytes: 2, cycles: 3, addressing_mode: AddressingMode::ZPG, unofficial: false }),
        0xa7 => Some(OpCode { mnemonic: Mnemonic::LAX, code: 0xa7, bytes: 2, cycles: 3, addressing_mode: AddressingMode::ZPG, unofficial: true }),
        0xa8 => Some(OpCode { mnemonic: Mnemonic::TAY, code: 0xa8, bytes: 1, cycles: 2, addressing_mode: AddressingMode::IMP, unofficial: false }),
        0xa9 => Some(OpCode { mnemonic: Mnemonic::LDA, code: 0xa9, bytes: 2, cycles: 2, addressing_mode: AddressingMode::IMM, unofficial: false }),
        0xaa => Some(OpCode { mnemonic: Mnemonic::TAX, code: 0xaa, bytes: 1, cycles: 2, addressing_mode: AddressingMode::IMP, unofficial: false }),
        0xac => Some(OpCode { mnemonic: Mnemonic::LDY, code: 0xac, bytes: 3, cycles: 4, addressing_mode: AddressingMode::ABS, unofficial: false }),
        0xad => Some(OpCode { mnemonic: Mnemonic::LDA, code: 0xad, bytes: 3, cycles: 4, addressing_mode: AddressingMode::ABS, unofficial: false }),
        0xae => Some(OpCode { mnemonic: Mnemonic::LDX, code: 0xae, bytes: 3, cycles: 4, addressing_mode: AddressingMode::ABS, unofficial: false }),
        0xaf => Some(OpCode { mnemonic: Mnemonic::LAX, code: 0xaf, bytes: 3, cycles: 4, addressing_mode: AddressingMode::ABS, unofficial: true }),
        0xb0 => Some(OpCode { mnemonic: Mnemonic::BCS, code: 0xb0, bytes: 2, cycles: 2, addressing_mode: AddressingMode::REL, unofficial: false }),
        0xb1 => Some(OpCode { mnemonic: Mnemonic::LDA, code: 0xb1, bytes: 2, cycles: 5, addressing_mode: AddressingMode::IDY, unofficial: false }),
        0xb3 => Some(OpCode { mnemonic: Mnemonic::LAX, code: 0xb3, bytes: 2, cycles: 5, addressing_mode: AddressingMode::IDY, unofficial: true }),
        0xb4 => Some(OpCode { mnemonic: Mnemonic::LDY, code: 0xb4, bytes: 2, cycles: 4, addressing_mode: AddressingMode::ZPX, unofficial: false }),
        0xb5 => Some(OpCode { mnemonic: Mnemonic::LDA, code: 0xb5, bytes: 2, cycles: 4, addressing_mode: AddressingMode::ZPX, unofficial: false }),
        0xb6 => Some(OpCode { mnemonic: Mnemonic::LDX, code: 0xb6, bytes: 2, cycles: 4, addressing_mode: AddressingMode::ZPY, unofficial: false }),
        0xb7 => Some(OpCode { mnemonic: Mnemonic::LAX, code: 0xb7, bytes: 2, cycles: 4, addressing_mode: AddressingMode::ZPY, unofficial: true }),
        0xb8 => Some(OpCode { mnemonic: Mnemonic::CLV, code: 0xb8, bytes: 1, cycles: 2, addressing_mode: AddressingMode::IMP, unofficial: false }),
        0xb9 => Some(OpCode { mnemonic: Mnemonic::LDA, code: 0xb9, bytes: 3, cycles: 4, addressing_mode: AddressingMode::ABY, unofficial: false }),
        0xba => Some(OpCode { mnemonic: Mnemonic::TSX, code: 0xba, bytes: 1, cycles: 2, addressing_mode: AddressingMode::IMP, unofficial: false }),
        0xbc => Some(OpCode { mnemonic: Mnemonic::LDY, code: 0xbc, bytes: 3, cycles: 4, addressing_mode: AddressingMode::ABX, unofficial: false }),
        0xbd => Some(OpCode { mnemonic: Mnemonic::LDA, code: 0xbd, bytes: 3, cycles: 4, addressing_mode: AddressingMode::ABX, unofficial: false }),
        0xbe => Some(OpCode { mnemonic: Mnemonic::LDX, code: 0xbe, bytes: 3, cycles: 4, addressing_mode: AddressingMode::ABY, unofficial: false }),
        0xbf => Some(OpCode { mnemonic: Mnemonic::LAX, code: 0xbf, bytes: 3, cycles: 4, addressing_mode: AddressingMode::ABY, unofficial: true }),
        0xc0 => Some(OpCode { mnemonic: Mnemonic::CPY, code: 0xc0, bytes: 2, cycles: 2, addressing_mode: AddressingMode::IMM, unofficial: false }),
        0xc1 => Some(OpCode { mnemonic: Mnemonic::CMP, code: 0xc1, bytes: 2, cycles: 6, addressing_mode: AddressingMode::IDX, unofficial: false }),
        0xc3 => Some(OpCode { mnemonic: Mnemonic::DCP, code: 0xc3, bytes: 2, cycles: 8, addressing_mode: AddressingMode::IDX, unofficial: true }),
        0xc4 => Some(OpCode { mnemonic: Mnemonic::CPY, code: 0xc4, bytes: 2, cycles: 3, addressing_mode: AddressingMode::ZPG, unofficial: false }),
        0xc5 => Some(OpCode { mnemonic: Mnemonic::CMP, code: 0xc5, bytes: 2, cycles: 3, addressing_mode: AddressingMode::ZPG, unofficial: false }),
        0xc6 => Some(OpCode { mnemonic: Mnemonic::DEC, code: 0xc6, bytes: 2, cycles: 5, addressing_mode: AddressingMode::ZPG, unofficial: false }),
        0xc7 => Some(OpCode { mnemonic: Mnemonic::DCP, code: 0xc7, bytes: 2, cycles: 5, addressing_mode: AddressingMode::ZPG, unofficial: true }),
        0xc8 => Some(OpCode { mnemonic: Mnemonic::INY, code: 0xc8, bytes: 1, cycles: 2, addressing_mode: AddressingMode::IMP, unofficial: false }),
        0xc9 => Some(OpCode { mnemonic: Mnemonic::CMP, code: 0xc9, bytes: 2, cycles: 2, addressing_mode: AddressingMode::IMM, unofficial: false }),
        0xca => Some(OpCode { mnemonic: Mnemonic::DEX, code: 0xca, bytes: 1, cycles: 2, addressing_mode: AddressingMode::IMP, unofficial: false }),
        0xcc => Some(OpCode { mnemonic: Mnemonic::CPY, code: 0xcc, bytes: 3, cycles: 4, addressing_mode: AddressingMode::ABS, unofficial: false }),
        0xcd => Some(OpCode { mnemonic: Mnemonic::CMP, code: 0xcd, bytes: 3, cycles: 4, addressing_mode: AddressingMode::ABS, unofficial: false }),
        0xce => Some(OpCode { mnemonic: Mnemonic::DEC, code: 0xce, bytes: 3, cycles: 6, addressing_mode: AddressingMode::ABS, unofficial: false }),
        0xcf => Some(OpCode { mnemonic: Mnemonic::DCP, code: 0xcf, bytes: 3, cycles: 6, addressing_mode: AddressingMode::ABS, unofficial: true }),
        0xd0 => Some(OpCode { mnemonic: Mnemonic::BNE, code: 0xd0, bytes: 2, cycles: 2, addressing_mode: AddressingMode::REL, unofficial: false }),
        0xd1 => Some(OpCode { mnemonic: Mnemonic::CMP, code: 0xd1, bytes: 2, cycles: 5, addressing_mode: AddressingMode::IDY, unofficial: false }),
        0xd3 => Some(OpCode { mnemonic: Mnemonic::DCP, code: 0xd3, bytes: 2, cycles: 8, addressing_mode: AddressingMode::IDY, unofficial: true }),
        0xd4 => Some(OpCode { mnemonic: Mnemonic::NOP, code: 0xd4, bytes: 2, cycles: 4, addressing_mode: AddressingMode::ZPX, unofficial: true }),
        0xd5 => Some(OpCode { mnemonic: Mnemonic::CMP, code: 0xd5, bytes: 2, cycles: 4, addressing_mode: AddressingMode::ZPX, unofficial: false }),
        0xd6 => Some(OpCode { mnemonic: Mnemonic::DEC, code: 0xd6, bytes: 2, cycles: 6, addressing_mode: AddressingMode::ZPX, unofficial: false }),
        0xd7 => Some(OpCode { mnemonic: Mnemonic::DCP, code: 0xd7, bytes: 2, cycles: 6, addressing_mode: AddressingMode::ZPX, unofficial: true }),
        0xd8 => Some(OpCode { mnemonic: Mnemonic::CLD, code: 0xd8, bytes: 1, cycles: 2, addressing_mode: AddressingMode::IMP, unofficial: false }),
        0xd9 => Some(OpCode { mnemonic: Mnemonic::CMP, code: 0xd9, bytes: 3, cycles: 4, addressing_mode: AddressingMode::ABY, unofficial: false }),
        0xda => Some(OpCode { mnemonic: Mnemonic::NOP, code: 0xda, bytes: 1, cycles: 2, addressing_mode: AddressingMode::IMP, unofficial: true }),
        0xdb => Some(OpCode { mnemonic: Mnemonic::DCP, code: 0xdb, bytes: 3, cycles: 7, addressing_mode: AddressingMode::ABY, unofficial: true }),
        0xdc => Some(OpCode { mnemonic: Mnemonic::NOP, code: 0xdc, bytes: 3, cycles: 4, addressing_mode: AddressingMode::ABX, unofficial: true }),
        0xdd => Some(OpCode { mnemonic: Mnemonic::CMP, code: 0xdd, bytes: 3, cycles: 4, addressing_mode: AddressingMode::ABX, unofficial: false }),
        0xde => Some(OpCode { mnemonic: Mnemonic::DEC, code: 0xde, bytes: 3, cycles: 7, addressing_mode: AddressingMode::ABX, unofficial: false }),
        0xdf => Some(OpCode { mnemonic: Mnemonic::DCP, code: 0xdf, bytes: 3, cycles: 7, addressing_mode: AddressingMode::ABX, unofficial: true }),
        0xe0 => Some(OpCode { mnemonic: Mnemonic::CPX, code: 0xe0, bytes: 2, cycles: 2, addressing_mode: AddressingMode::IMM, unofficial: false }),
        0xe1 => Some(OpCode { mnemonic: Mnemonic::SBC, code: 0xe1, bytes: 2, cycles: 6, addressing_mode: AddressingMode::IDX, unofficial: false }),
        0xe3 => Some(OpCode { mnemonic: Mnemonic::ISB, code: 0xe3, bytes: 2, cycles: 8, addressing_mode: AddressingMode::IDX, unofficial: true }),
        0xe4 => Some(OpCode { mnemonic: Mnemonic::CPX, code: 0xe4, bytes: 2, cycles: 3, addressing_mode: AddressingMode::ZPG, unofficial: false }),
        0xe5 => Some(OpCode { mnemonic: Mnemonic::SBC, code: 0xe5, bytes: 2, cycles: 3, addressing_mode: AddressingMode::ZPG, unofficial: false }),
        0xe6 => Some(OpCode { mnemonic: Mnemonic::INC, code: 0xe6, bytes: 2, cycles: 5, addressing_mode: AddressingMode::ZPG, unofficial: false }),
        0xe7 => Some(OpCode { mnemonic: Mnemonic::ISB, code: 0xe7, bytes: 2, cycles: 5, addressing_mode: AddressingMode::ZPG, unofficial: true }),
        0xe8 => Some(OpCode { mnemonic: Mnemonic::INX, code: 0xe8, bytes: 1, cycles: 2, addressing_mode: AddressingMode::IMP, unofficial: false }),
        0xe9 => Some(OpCode { mnemonic: Mnemonic::SBC, code: 0xe9, bytes: 2, cycles: 2, addressing_mode: AddressingMode::IMM, unofficial: false }),
        0xea => Some(OpCode { mnemonic: Mnemonic::NOP, code: 0xea, bytes: 1, cycles: 2, addressing_mode: AddressingMode::IMP, unofficial: false }),
        0xeb => Some(OpCode { mnemonic: Mnemonic::SBC, code: 0xeb, bytes: 2, cycles: 2, addressing_mode: AddressingMode::IMM, unofficial: true }),
        0xec => Some(OpCode { mnemonic: Mnemonic::CPX, code: 0xec, bytes: 3, cycles: 4, addressing_mode: AddressingMode::ABS, unofficial: false }),
        0xed => Some(OpCode { mnemonic: Mnemonic::SBC, code: 0xed, bytes: 3, cycles: 4, addressing_mode: AddressingMode::ABS, unofficial: false }),
        0xee => Some(OpCode { mnemonic: Mnemonic::INC, code: 0xee, bytes: 3, cycles: 6, addressing_mode: AddressingMode::ABS, unofficial: false }),
        0xef => Some(OpCode { mnemonic: Mnemonic::ISB, code: 0xef, bytes: 3, cycles: 6, addressing_mode: AddressingMode::ABS, unofficial: true }),
        0xf0 => Some(OpCode { mnemonic: Mnemonic::BEQ, code: 0xf0, bytes: 2, cycles: 2, addressing_mode: AddressingMode::REL, unofficial: false }),
        0xf1 => Some(OpCode { mnemonic: Mnemonic::SBC, code: 0xf1, bytes: 2, cycles: 5, addressing_mode: AddressingMode::IDY, unofficial: false }),
        0xf3 => Some(OpCode { mnemonic: Mnemonic::ISB, code: 0xf3, bytes: 2, cycles: 8, addressing_mode: AddressingMode::IDY, unofficial: true }),
        0xf4 => Some(OpCode { mnemonic: Mnemonic::NOP, code: 0xf4, bytes: 2, cycles: 4, addressing_mode: AddressingMode::ZPX, unofficial: true }),
        0xf5 => Some(OpCode { mnemonic: Mnemonic::SBC, code: 0xf5, bytes: 2, cycles: 4, addressing_mode: AddressingMode::ZPX, unofficial: false }),
        0xf6 => Some(OpCode { mnemonic: Mnemonic::INC, code: 0xf6, bytes: 2, cycles: 6, addressing_mode: AddressingMode::ZPX, unofficial: false }),
        0xf7 => Some(OpCode { mnemonic: Mnemonic::ISB, code: 0xf7, bytes: 2, cycles: 6, addressing_mode: AddressingMode::ZPX, unofficial: true }),
        0xf8 => Some(OpCode { mnemonic: Mnemonic::SED, code: 0xf8, bytes: 1, cycles: 2, addressing_mode: AddressingMode::IMP, unofficial: false }),
        0xf9 => Some(OpCode { mnemonic: Mnemonic::SBC, code: 0xf9, bytes: 3, cycles: 4, addressing_mode: AddressingMode::ABY, unofficial: false }),
        0xfa => Some(OpCode { mnemonic: Mnemonic::NOP, code: 0xfa, bytes: 1, cycles: 2, addressing_mode: AddressingMode::IMP, unofficial: true }),
        0xfb => Some(OpCode { mnemonic: Mnemonic::ISB, code: 0xfb, bytes: 3, cycles: 7, addressing_mode: AddressingMode::ABY, unofficial: true }),
        0xfc => Some(OpCode { mnemonic: Mnemonic::NOP, code: 0xfc, bytes: 3, cycles: 4, addressing_mode: AddressingMode::ABX, unofficial: true }),
        0xfd => Some(OpCode { mnemonic: Mnemonic::SBC, code: 0xfd, bytes: 3, cycles: 4, addressing_mode: AddressingMode::ABX, unofficial: false }),
        0xfe => Some(OpCode { mnemonic: Mnemonic::INC, code: 0xfe, bytes: 3, cycles: 7, addressing_mode: AddressingMode::ABX, unofficial: false }),
        0xff => Some(OpCode { mnemonic: Mnemonic::ISB, code: 0xff, bytes: 3, cycles: 7, addressing_mode: AddressingMode::ABX, unofficial: true }),
        _ => None,
    }
}

/// True for the opcodes that pay one extra cycle when their effective
/// address crosses a page: the read instructions with an indexed absolute or
/// indirect-indexed mode. Stores and read-modify-write instructions pay the
/// cycle unconditionally, so their table entries already include it.
pub open spec fn spec_page_sensitive(op: OpCode) -> bool {
    &&& (op.addressing_mode is ABX || op.addressing_mode is ABY || op.addressing_mode is IDY)
    &&& match op.mnemonic {
        Mnemonic::ADC | Mnemonic::AND | Mnemonic::CMP | Mnemonic::EOR | Mnemonic::LAX
            | Mnemonic::LDA | Mnemonic::LDX | Mnemonic::LDY | Mnemonic::NOP | Mnemonic::ORA
            | Mnemonic::SBC => true,
        _ => false,
    }
}

/// The cycles an instruction costs given whether its effective address
/// crossed a page.
pub open spec fn spec_cycles(op: OpCode, page_crossed: bool) -> u8 {
    if spec_page_sensitive(op) && page_crossed {
        op.cycles.wrapping_add(1)
    } else {
        op.cycles
    }
}

impl OpCode {
    /// The cycles this instruction costs given whether its effective address
    /// crossed a page.
    pub fn cycles(&self, page_crossed: bool) -> (r: u8)
        ensures
            r == spec_cycles(*self, page_crossed),
    {
        let sensitive = match self.addressing_mode {
            AddressingMode::ABX | AddressingMode::ABY | AddressingMode::IDY => match self.mnemonic {
                Mnemonic::ADC | Mnemonic::AND | Mnemonic::CMP | Mnemonic::EOR | Mnemonic::LAX
                    | Mnemonic::LDA | Mnemonic::LDX | Mnemonic::LDY | Mnemonic::NOP
                    | Mnemonic::ORA | Mnemonic::SBC => true,
                _ => false,
            },
            _ => false,
        };
        if sensitive && page_crossed {
            self.cycles.wrapping_add(1)
        } else {
            self.cycles
        }
    }
}

/// Decoding is a function and every defined entry is sound: an opcode byte
/// decodes to at most one entry, that entry carries the byte itself as its
/// code, its length is one to three bytes and it costs at least one cycle.
pub proof fn lemma_decode_unique_and_nonempty()
    ensures
        forall|b: u8|
            #[trigger] spec_opcode(b) matches Some(op) ==> op.code == b && 1 <= op.bytes <= 3 && 1
                <= op.cycles,
{
    assert forall|b: u8|
        #[trigger] spec_opcode(b) matches Some(op) ==> op.code == b && 1 <= op.bytes <= 3 && 1
            <= op.cycles by {
        let r = spec_opcode(b);
    }
}

} // verus!
