//! Palette RAM: 32 bytes at 0x3F00-0x3F1F, with the four universal-background
//! entries at 0x3F10, 0x3F14, 0x3F18 and 0x3F1C mirrored down by 0x10.
use crate::addresses::PALETTE_START;
use vstd::prelude::*;

verus! {

/// The number of palette bytes.
pub const PALETTE_SIZE: usize = 32;

/// The mirror of the universal background colour.
pub const MIRROR_UBG_COLOR: u16 = 0x3f10;
/// The first unused mirror entry.
pub const MIRROR_UU_COLOR_1: u16 = 0x3f14;
/// The second unused mirror entry.
pub const MIRROR_UU_COLOR_2: u16 = 0x3f18;
/// The third unused mirror entry.
pub const MIRROR_UU_COLOR_3: u16 = 0x3f1c;

/// Where a palette access at `addr` really lands: the four mirrored entries
/// alias the slot 0x10 below; every other address is itself.
pub open spec fn spec_palette_fold(addr: u16) -> u16 {
    if addr == MIRROR_UBG_COLOR || addr == MIRROR_UU_COLOR_1 || addr == MIRROR_UU_COLOR_2 || addr
        == MIRROR_UU_COLOR_3 {
        (addr - 0x10) as u16
    } else {
        addr
    }
}

/// The palette RAM.
pub struct PaletteTable(pub Vec<u8>);

impl PaletteTable {
    /// The palette always holds exactly 32 bytes.
    pub open spec fn wf(&self) -> bool {
        self.0.len() == PALETTE_SIZE
    }

    /// A cleared palette.
    pub fn new() -> (r: Self)
        ensures
            r.wf(),
            r.0@ == Seq::new(32, |i: int| 0u8),
    {
        let mut data: Vec<u8> = Vec::new();
        let mut i: usize = 0;
        while i < PALETTE_SIZE
            invariant
                i <= PALETTE_SIZE,
                data@ == Seq::new(i as nat, |j: int| 0u8),
            decreases PALETTE_SIZE - i,
        {
            data.push(0);
            proof {
                assert(data@ =~= Seq::new((i + 1) as nat, |j: int| 0u8));
            }
            i = i + 1;
        }
        PaletteTable(data)
    }

    /// Reads one palette byte, with the universal-background mirrors folded
    /// down.
    pub fn read(&self, addr: u16) -> (r: u8)
        requires
            self.wf(),
            PALETTE_START <= addr < PALETTE_START + PALETTE_SIZE,
        ensures
            r == self.0@[spec_palette_fold(addr) - PALETTE_START],
        decreases addr,
    {
        match addr {
            MIRROR_UBG_COLOR | MIRROR_UU_COLOR_1 | MIRROR_UU_COLOR_2 | MIRROR_UU_COLOR_3 => self
                .read(addr - 0x10),
            _ => self.0[(addr - PALETTE_START) as usize],
        }
    }

    /// Writes one palette byte, with the universal-background mirrors folded
    /// down.
    pub fn write(&mut self, addr: u16, val: u8)
        requires
            old(self).wf(),
            PALETTE_START <= addr < PALETTE_START + PALETTE_SIZE,
        ensures
            final(self).wf(),
            final(self).0@ == old(self).0@.update(spec_palette_fold(addr) - PALETTE_START, val),
        decreases addr,
    {
        match addr {
            MIRROR_UBG_COLOR | MIRROR_UU_COLOR_1 | MIRROR_UU_COLOR_2 | MIRROR_UU_COLOR_3 => self
                .write(addr - 0x10, val),
            _ => self.0.set((addr - PALETTE_START) as usize, val),
        }
    }
}

impl Default for PaletteTable {
    /// A cleared palette.
    fn default() -> (r: Self)
        ensures
            r.wf(),
            r.0@ == Seq::new(32, |i: int| 0u8),
    {
        PaletteTable::new()
    }
}

/// Palette aliasing holds in both directions: after a write through the
/// mirror at 0x3F10 the byte is read back at 0x3F00, and after a write at
/// 0x3F00 it is read back through the mirror at 0x3F10.
pub proof fn lemma_palette_mirror_round_trip(pal: PaletteTable, val: u8)
    requires
        pal.wf(),
    ensures
        ({
            let w = pal.0@.update(spec_palette_fold(0x3f10) - PALETTE_START, val);
            w[spec_palette_fold(0x3f00) - PALETTE_START] == val
        }),
        ({
            let w = pal.0@.update(spec_palette_fold(0x3f00) - PALETTE_START, val);
            w[spec_palette_fold(0x3f10) - PALETTE_START] == val
        }),
{
}

} // verus!
