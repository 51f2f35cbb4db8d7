//! Named addresses of the CPU's view of the console: RAM mirrors, the PPU
//! register window, the cartridge ROM window and the interrupt vectors.
use vstd::prelude::*;

verus! {

/// Highest address the PPU address register may hold after mirroring down.
pub const PPU_LIMIT: u16 = 0x3fff;

/// Write-only PPU control register.
pub const PPU_CTRL: u16 = 0x2000;
/// Write-only PPU mask register.
pub const PPU_MASK: u16 = 0x2001;
/// Read-only PPU status register.
pub const PPU_STATUS: u16 = 0x2002;
/// Write-only OAM address register.
pub const PPU_OAM_ADDR: u16 = 0x2003;
/// Read/write OAM data register.
pub const PPU_OAM_DATA: u16 = 0x2004;
/// Write-only, double-write scroll register.
pub const PPU_SCROLL: u16 = 0x2005;
/// Write-only, double-write VRAM address register.
pub const PPU_ADDR: u16 = 0x2006;
/// Read/write VRAM data register.
pub const PPU_DATA: u16 = 0x2007;

/// First mirror of the eight PPU registers.
pub const PPU_REGISTERS_START: u16 = 0x2008;
/// Last mirror of the eight PPU registers.
pub const PPU_REGISTERS_MIRRORS_END: u16 = 0x3fff;
/// Write-only OAM direct-memory-access register.
pub const PPU_OAM_DMA: u16 = 0x4014;

/// First address of the pattern-table (CHR ROM) space on the PPU bus.
pub const CHROM_START: u16 = 0x0000;
/// First address of the nametable (VRAM) space on the PPU bus.
pub const VRAM_START: u16 = 0x2000;
/// First address of the palette space on the PPU bus.
pub const PALETTE_START: u16 = 0x3f00;
/// Last address of the pattern-table space on the PPU bus.
pub const CHROM_END: u16 = 0x1fff;
/// Last address of the nametable space on the PPU bus.
pub const VRAM_END: u16 = 0x2fff;

/// First address of the cartridge PRG ROM window on the CPU bus.
pub const PRG_ROM_START: u16 = 0x8000;
/// Last address of the cartridge PRG ROM window on the CPU bus.
pub const PRG_ROM_END: u16 = 0xffff;

/// First address of console RAM on the CPU bus.
pub const RAM_START: u16 = 0x0000;
/// Last address of the mirrored RAM region on the CPU bus.
pub const RAM_MIRRORS_END: u16 = 0x1fff;

/// Location of the little-endian reset vector.
pub const PC_START: u16 = 0xfffc;

/// Location of the little-endian non-maskable-interrupt vector.
pub const NMI_VECTOR: u16 = 0xfffa;

} // verus!
