//! The PPU address register: a 16-bit latch written through one byte-wide
//! port, high byte first, and mirrored down into the PPU's address space.
use crate::register::RegWrite;
use vstd::prelude::*;

verus! {

/// Which half of the latch the next write lands in.
#[derive(Clone, Copy, Debug, PartialEq, Eq, Structural)]
pub enum BytePointer {
    Hi,
    Lo,
}

impl Default for BytePointer {
    /// The first write after a reset selects the high byte.
    fn default() -> (r: Self)
        ensures
            r is Hi,
    {
        BytePointer::Hi
    }
}

/// The double-write VRAM address register. Mirroring down to the PPU's
/// 0x0000-0x3FFF space is masking the high byte with 0x3F.
pub struct AddressRegister {
    pub hi: u8,
    pub lo: u8,
    pub ptr: BytePointer,
}

impl AddressRegister {
    /// The 16-bit value the register holds, as contracts see it.
    pub open spec fn spec_get(&self) -> u16 {
        ((self.hi as u16) << 8) | (self.lo as u16)
    }

    /// The register keeps its value mirrored down below 0x4000.
    pub open spec fn wf(&self) -> bool {
        self.hi <= 0x3f
    }

    /// Loads a full 16-bit value at once, without mirroring.
    pub fn set(&mut self, val: u16)
        ensures
            final(self).hi == (val >> 8) as u8,
            final(self).lo == val as u8,
            final(self).ptr == old(self).ptr,
            final(self).spec_get() == val,
    {
        self.hi = (val >> 8) as u8;
        self.lo = val as u8;
        proof {
            assert(((((val >> 8) as u8) as u16) << 8) | ((val as u8) as u16) == val)
                by (bit_vector);
        }
    }

    /// The 16-bit value the register holds.
    pub fn get(&self) -> (r: u16)
        ensures
            r == self.spec_get(),
    {
        ((self.hi as u16) << 8) | (self.lo as u16)
    }

    /// One write through the byte port: stores into the half the toggle
    /// selects, mirrors the result down below 0x4000, and flips the toggle.
    pub fn update(&mut self, val: u8)
        ensures
            final(self).hi == (if old(self).ptr is Hi {
                val & 0x3f
            } else {
                old(self).hi & 0x3f
            }),
            final(self).lo == (if old(self).ptr is Hi {
                old(self).lo
            } else {
                val
            }),
            final(self).ptr == (if old(self).ptr is Hi {
                BytePointer::Lo
            } else {
                BytePointer::Hi
            }),
            final(self).wf(),
    {
        match self.ptr {
            BytePointer::Hi => self.hi = val,
            BytePointer::Lo => self.lo = val,
        }
        self.mirror_down();
        self.swap();
    }

    /// Advances the address by `val` with carry from the low byte into the
    /// high byte, then mirrors down; the toggle is untouched.
    pub fn inc(&mut self, val: u8)
        ensures
            final(self).lo == old(self).lo.wrapping_add(val),
            final(self).hi == (if old(self).lo as u16 + val as u16 > 0xff {
                old(self).hi.wrapping_add(1) & 0x3f
            } else {
                old(self).hi & 0x3f
            }),
            final(self).ptr == old(self).ptr,
            final(self).wf(),
    {
        let res = self.lo.wrapping_add(val);
        let ov = (self.lo as u16) + (val as u16) > 0xff;
        if ov {
            self.hi = self.hi.wrapping_add(1);
        }
        self.lo = res;
        self.mirror_down();
    }

    /// Puts the write toggle back onto the high byte, as a status read does.
    pub fn reset(&mut self)
        ensures
            final(self).ptr is Hi,
            final(self).hi == old(self).hi,
            final(self).lo == old(self).lo,
    {
        self.ptr = BytePointer::Hi;
    }

    /// Flips the write toggle.
    fn swap(&mut self)
        ensures
            final(self).ptr == (if old(self).ptr is Hi {
                BytePointer::Lo
            } else {
                BytePointer::Hi
            }),
            final(self).hi == old(self).hi,
            final(self).lo == old(self).lo,
    {
        self.ptr = match self.ptr {
            BytePointer::Hi => BytePointer::Lo,
            BytePointer::Lo => BytePointer::Hi,
        }
    }

    /// Folds the held address down below 0x4000: only the high byte carries
    /// bits above the PPU limit.
    fn mirror_down(&mut self)
        ensures
            final(self).hi == old(self).hi & 0x3f,
            final(self).lo == old(self).lo,
            final(self).ptr == old(self).ptr,
            final(self).wf(),
    {
        self.hi = self.hi & 0x3f;
        proof {
            let h = old(self).hi;
            assert(h & 0x3f <= 0x3f) by (bit_vector);
        }
    }
}

impl Default for AddressRegister {
    /// A cleared latch waiting for a high byte.
    fn default() -> (r: Self)
        ensures
            r.hi == 0,
            r.lo == 0,
            r.ptr is Hi,
            r.spec_get() == 0,
    {
        let r = AddressRegister { hi: 0, lo: 0, ptr: BytePointer::Hi };
        proof {
            assert(((0u8 as u16) << 8) | (0u8 as u16) == 0) by (bit_vector);
        }
        r
    }
}

impl RegWrite for AddressRegister {
    /// A CPU write to 0x2006 goes through the double-write port.
    fn write(&mut self, val: u8)
        ensures
            final(self).hi == (if old(self).ptr is Hi {
                val & 0x3f
            } else {
                old(self).hi & 0x3f
            }),
            final(self).lo == (if old(self).ptr is Hi {
                old(self).lo
            } else {
                val
            }),
            final(self).ptr == (if old(self).ptr is Hi {
                BytePointer::Lo
            } else {
                BytePointer::Hi
            }),
            final(self).wf(),
    {
        self.update(val)
    }
}

} // verus!
