//! The CPU's view of memory: a model shared by the flat test memory and the
//! console bus, and the trait the CPU core drives it through.
use crate::interrupt::InterruptFlag;
use crate::ppu::{
    spec_addr_of, spec_data_read_next, spec_data_read_ok, spec_data_read_val, spec_data_write_next,
    spec_data_write_ok, spec_oam_write_next, spec_ppu_ticks, spec_ppu_wf, spec_read_status_next,
    spec_write_ctrl_next, PpuModel,
};
use vstd::prelude::*;

pub mod bus;
pub mod cpu_mem;

verus! {

/// Bytes of the flat test memory. The top address is the end marker of the
/// PRG ROM window and is itself out of range.
pub const MEMORY_SIZE: usize = 0xffff;

/// Memory as contracts see it: either a flat byte array, or the console bus
/// with its RAM, cartridge ROM and PPU.
#[verifier::ext_equal]
pub ghost enum MemModel {
    Flat { mem: Seq<u8> },
    Nes { ram: Seq<u8>, prg: Seq<u8>, ppu: PpuModel },
}

/// A well-formed memory: the flat array has its fixed size; the bus carries
/// 2 KiB of RAM, one or two PRG pages and a well-formed PPU.
pub open spec fn spec_mem_wf(m: MemModel) -> bool {
    match m {
        MemModel::Flat { mem } => mem.len() == MEMORY_SIZE,
        MemModel::Nes { ram, prg, ppu } => ram.len() == 0x800 && (prg.len() == 0x4000 || prg.len()
            == 0x8000) && spec_ppu_wf(ppu),
    }
}

/// The byte the PRG ROM window shows: a single 16 KiB page is mirrored into
/// the upper half of the window.
pub open spec fn spec_rom_val(prg: Seq<u8>, addr: u16) -> u8 {
    let idx = addr - 0x8000;
    if prg.len() == 0x4000 && idx >= 0x4000 {
        prg[idx % 0x4000]
    } else {
        prg[idx]
    }
}

/// True when `addr` can be read without touching any register: RAM, ROM and
/// the stubbed regions. The PPU register window and the OAM DMA port are
/// excluded.
pub open spec fn spec_peek_ok(m: MemModel, addr: u16) -> bool {
    match m {
        MemModel::Flat { mem } => addr < MEMORY_SIZE,
        MemModel::Nes { ram, prg, ppu } => addr <= 0x1fff || (0x4000 <= addr <= 0x7fff && addr
            != 0x4014) || addr >= 0x8000,
    }
}

/// The byte a register-free read returns: RAM through its mirror, ROM
/// through its window, zero from the stubbed regions.
pub open spec fn spec_peek_val(m: MemModel, addr: u16) -> u8 {
    match m {
        MemModel::Flat { mem } => mem[addr as int],
        MemModel::Nes { ram, prg, ppu } => if addr <= 0x1fff {
            ram[(addr & 0x7ff) as int]
        } else if addr >= 0x8000 {
            spec_rom_val(prg, addr)
        } else {
            0
        },
    }
}

/// The little-endian word at `addr`.
pub open spec fn spec_peek16(m: MemModel, addr: u16) -> u16 {
    ((spec_peek_val(m, addr.wrapping_add(1)) as u16) << 8) | (spec_peek_val(m, addr) as u16)
}

/// Where a CPU address really lands: the eight PPU registers repeat through
/// 0x3FFF, everything else is itself.
pub open spec fn spec_fold_addr(addr: u16) -> u16 {
    if 0x2008 <= addr <= 0x3fff {
        addr & 0x2007
    } else {
        addr
    }
}

/// True when a full read of `addr` is defined: anything peekable, the three
/// readable PPU registers through their mirrors, with the data port further
/// requiring a defined PPU address.
pub open spec fn spec_read_ok(m: MemModel, addr: u16) -> bool {
    match m {
        MemModel::Flat { mem } => addr < MEMORY_SIZE,
        MemModel::Nes { ram, prg, ppu } => {
            let f = spec_fold_addr(addr);
            if f == 0x2002 || f == 0x2004 {
                true
            } else if f == 0x2007 {
                spec_data_read_ok(ppu)
            } else {
                spec_peek_ok(m, f)
            }
        },
    }
}

/// The byte a read returns. Reading the status register returns the raw
/// status byte; the OAM port returns the byte under the OAM address; the
/// data port returns its buffered byte or a palette entry.
pub open spec fn spec_read_val(m: MemModel, addr: u16) -> u8 {
    match m {
        MemModel::Flat { mem } => mem[addr as int],
        MemModel::Nes { ram, prg, ppu } => {
            let f = spec_fold_addr(addr);
            if f == 0x2002 {
                ppu.status
            } else if f == 0x2004 {
                ppu.oam[ppu.oam_addr as int]
            } else if f == 0x2007 {
                spec_data_read_val(ppu)
            } else {
                spec_peek_val(m, f)
            }
        },
    }
}

/// The memory after a read. Only the status and data registers have read
/// side effects.
pub open spec fn spec_read_next(m: MemModel, addr: u16) -> MemModel {
    match m {
        MemModel::Flat { mem } => m,
        MemModel::Nes { ram, prg, ppu } => {
            let f = spec_fold_addr(addr);
            if f == 0x2002 {
                MemModel::Nes { ram, prg, ppu: spec_read_status_next(ppu) }
            } else if f == 0x2007 {
                MemModel::Nes { ram, prg, ppu: spec_data_read_next(ppu) }
            } else {
                m
            }
        },
    }
}

/// True when a write to `addr` is defined: RAM, the writable PPU registers
/// through their mirrors, and the stubbed regions, where writes vanish.
/// The status register and the ROM window refuse writes.
pub open spec fn spec_write_ok(m: MemModel, addr: u16) -> bool {
    match m {
        MemModel::Flat { mem } => addr < MEMORY_SIZE,
        MemModel::Nes { ram, prg, ppu } => {
            let f = spec_fold_addr(addr);
            if f == 0x2002 || f >= 0x8000 {
                false
            } else if f == 0x2007 {
                spec_data_write_ok(ppu)
            } else {
                true
            }
        },
    }
}

/// The memory after a write: RAM through its mirror, the PPU registers per
/// their own contracts, everything else unchanged.
pub open spec fn spec_write_next(m: MemModel, addr: u16, value: u8) -> MemModel {
    match m {
        MemModel::Flat { mem } => MemModel::Flat { mem: mem.update(addr as int, value) },
        MemModel::Nes { ram, prg, ppu } => {
            let addr = spec_fold_addr(addr);
            if addr <= 0x1fff {
            MemModel::Nes { ram: ram.update((addr & 0x7ff) as int, value), prg, ppu }
        } else if addr == 0x2000 {
            MemModel::Nes { ram, prg, ppu: spec_write_ctrl_next(ppu, value) }
        } else if addr == 0x2001 {
            MemModel::Nes { ram, prg, ppu: PpuModel { mask: value, ..ppu } }
        } else if addr == 0x2003 {
            MemModel::Nes { ram, prg, ppu: PpuModel { oam_addr: value, ..ppu } }
        } else if addr == 0x2004 {
            MemModel::Nes { ram, prg, ppu: spec_oam_write_next(ppu, value) }
        } else if addr == 0x2005 {
            MemModel::Nes {
                ram,
                prg,
                ppu: if !ppu.scroll_on_y {
                    PpuModel { scroll_x: value, scroll_on_y: true, ..ppu }
                } else {
                    PpuModel { scroll_y: value, scroll_on_y: false, ..ppu }
                },
            }
        } else if addr == 0x2006 {
            MemModel::Nes {
                ram,
                prg,
                ppu: if !ppu.addr_on_lo {
                    PpuModel { addr_hi: (value & 0x3f) as u8, addr_on_lo: true, ..ppu }
                } else {
                    PpuModel {
                        addr_hi: (ppu.addr_hi & 0x3f) as u8,
                        addr_lo: value,
                        addr_on_lo: false,
                        ..ppu
                    }
                },
            }
        } else if addr == 0x2007 {
            MemModel::Nes { ram, prg, ppu: spec_data_write_next(ppu, value) }
        } else {
            m
        }
        },
    }
}

/// The memory after the bus has been driven for `cycles` CPU cycles: the
/// PPU advances three dots per cycle; the flat memory has no clock.
pub open spec fn spec_tick_next(m: MemModel, cycles: u8) -> MemModel {
    match m {
        MemModel::Flat { mem } => m,
        MemModel::Nes { ram, prg, ppu } => MemModel::Nes {
            ram,
            prg,
            ppu: spec_ppu_ticks(ppu, (3 * cycles) as nat),
        },
    }
}

/// The interrupt the memory holds for the CPU.
pub open spec fn spec_pending(m: MemModel) -> InterruptFlag {
    match m {
        MemModel::Flat { mem } => InterruptFlag::Idle,
        MemModel::Nes { ram, prg, ppu } => ppu.pending,
    }
}

/// The memory after the CPU has consumed the pending interrupt.
pub open spec fn spec_clear_pending(m: MemModel) -> MemModel {
    match m {
        MemModel::Flat { mem } => m,
        MemModel::Nes { ram, prg, ppu } => MemModel::Nes {
            ram,
            prg,
            ppu: PpuModel { pending: InterruptFlag::Idle, ..ppu },
        },
    }
}

/// What the CPU core asks of a memory: reads, writes and the clock, each
/// pinned to the shared model.
pub trait Memory: Sized {
    /// This memory as contracts see it.
    spec fn m(&self) -> MemModel;

    /// This memory's structural invariant.
    spec fn inv(&self) -> bool;

    /// Reads a byte without register side effects.
    fn peek(&self, addr: u16) -> (r: u8)
        requires
            self.inv(),
            spec_peek_ok(self.m(), addr),
        ensures
            r == spec_peek_val(self.m(), addr),
    ;

    /// Reads a byte, with whatever side effect the address carries.
    fn read(&mut self, addr: u16) -> (r: u8)
        requires
            old(self).inv(),
            spec_read_ok(old(self).m(), addr),
        ensures
            final(self).inv(),
            spec_mem_wf(old(self).m()) ==> spec_mem_wf(final(self).m()),
            r == spec_read_val(old(self).m(), addr),
            final(self).m() == spec_read_next(old(self).m(), addr),
    ;

    /// Writes a byte.
    fn write(&mut self, addr: u16, value: u8)
        requires
            old(self).inv(),
            spec_write_ok(old(self).m(), addr),
        ensures
            final(self).inv(),
            spec_mem_wf(old(self).m()) ==> spec_mem_wf(final(self).m()),
            final(self).m() == spec_write_next(old(self).m(), addr, value),
    ;

    /// Reads a little-endian word from two register-free addresses.
    fn read_u16(&self, addr: u16) -> (r: u16)
        requires
            self.inv(),
            spec_peek_ok(self.m(), addr),
            spec_peek_ok(self.m(), addr.wrapping_add(1)),
        ensures
            r == spec_peek16(self.m(), addr),
    {
        let lo = self.peek(addr);
        let hi = self.peek(addr.wrapping_add(1));
        ((hi as u16) << 8) | (lo as u16)
    }

    /// Writes a little-endian word, low byte first.
    fn write_u16(&mut self, addr: u16, value: u16)
        requires
            old(self).inv(),
            spec_write_ok(old(self).m(), addr),
            spec_write_ok(
                spec_write_next(old(self).m(), addr, value as u8),
                addr.wrapping_add(1),
            ),
        ensures
            final(self).inv(),
            spec_mem_wf(old(self).m()) ==> spec_mem_wf(final(self).m()),
            final(self).m() == spec_write_next(
                spec_write_next(old(self).m(), addr, value as u8),
                addr.wrapping_add(1),
                (value >> 8) as u8,
            ),
    {
        let lo = value as u8;
        let hi = (value >> 8) as u8;
        self.write(addr, lo);
        self.write(addr.wrapping_add(1), hi);
    }

    /// Drives the clock for `cycles` CPU cycles.
    fn tick(&mut self, cycles: u8)
        requires
            old(self).inv(),
        ensures
            final(self).inv(),
            spec_mem_wf(old(self).m()) ==> spec_mem_wf(final(self).m()),
            final(self).m() == spec_tick_next(old(self).m(), cycles),
    ;

    /// Hands the pending interrupt to the CPU and clears it.
    fn take_interrupt(&mut self) -> (r: InterruptFlag)
        requires
            old(self).inv(),
        ensures
            final(self).inv(),
            spec_mem_wf(old(self).m()) ==> spec_mem_wf(final(self).m()),
            r == spec_pending(old(self).m()),
            final(self).m() == spec_clear_pending(old(self).m()),
    ;
}

/// Fills a vector with `len` zero bytes.
pub fn zeroed(len: usize) -> (r: Vec<u8>)
    ensures
        r@ == Seq::new(len as nat, |i: int| 0u8),
{
    let mut data: Vec<u8> = Vec::new();
    let mut i: usize = 0;
    while i < len
        invariant
            i <= len,
            data@ == Seq::new(i as nat, |j: int| 0u8),
        decreases len - i,
    {
        data.push(0);
        proof {
            assert(data@ =~= Seq::new((i + 1) as nat, |j: int| 0u8));
        }
        i = i + 1;
    }
    data
}


/// RAM mirroring: below 0x2000 a read sees exactly the byte at the address
/// folded into the 2 KiB of RAM, and has no side effect.
pub proof fn lemma_ram_mirror(m: MemModel, addr: u16)
    requires
        m is Nes,
        addr < 0x2000,
    ensures
        spec_read_ok(m, addr),
        spec_read_ok(m, (addr & 0x7ff) as u16),
        spec_read_val(m, addr) == spec_read_val(m, (addr & 0x7ff) as u16),
        spec_read_next(m, addr) == m,
        spec_read_next(m, (addr & 0x7ff) as u16) == m,
{
    assert(addr & 0x7ff <= 0x7ff && (addr & 0x7ff) & 0x7ff == addr & 0x7ff) by (bit_vector);
}

/// PPU register mirroring: through the whole window up to 0x3FFF an access
/// behaves exactly as the same access at 0x2000 plus the low three address
/// bits, for reads and writes alike.
pub proof fn lemma_ppu_register_mirror(m: MemModel, addr: u16, value: u8)
    requires
        m is Nes,
        0x2008 <= addr <= 0x3fff,
    ensures
        spec_read_ok(m, addr) == spec_read_ok(m, (0x2000 + (addr & 7)) as u16),
        spec_read_val(m, addr) == spec_read_val(m, (0x2000 + (addr & 7)) as u16),
        spec_read_next(m, addr) == spec_read_next(m, (0x2000 + (addr & 7)) as u16),
        spec_write_ok(m, addr) == spec_write_ok(m, (0x2000 + (addr & 7)) as u16),
        spec_write_next(m, addr, value) == spec_write_next(
            m,
            (0x2000 + (addr & 7)) as u16,
            value,
        ),
{
    assert(addr & 0x2007 == 0x2000 + (addr & 7) && addr & 7 <= 7) by (bit_vector)
        requires
            0x2008 <= addr <= 0x3fff,
    ;
}


/// Every stack-page address is plain RAM: readable without side effects and
/// writable in any well-formed memory.
pub proof fn lemma_stack_addr_ok(m: MemModel, sp: u8)
    requires
        spec_mem_wf(m),
    ensures
        spec_peek_ok(m, 0x0100u16 | sp as u16),
        spec_write_ok(m, 0x0100u16 | sp as u16),
        spec_read_ok(m, 0x0100u16 | sp as u16),
{
    let s = sp as u16;
    assert(0x0100u16 | s <= 0x1fff && !(0x2008 <= (0x0100u16 | s) <= 0x3fff) && (0x0100u16 | s)
        < 0x8000) by (bit_vector)
        requires
            s <= 0xff,
    ;
}


/// Writing anywhere a write is allowed keeps the memory well formed.
pub proof fn lemma_write_next_wf(m: MemModel, addr: u16, value: u8)
    requires
        spec_mem_wf(m),
        spec_write_ok(m, addr),
    ensures
        spec_mem_wf(spec_write_next(m, addr, value)),
{
    if m is Nes {
        let ppu = m->ppu;
        let h = ppu.addr_hi;
        let w = h.wrapping_add(1);
        assert(value & 0x3f <= 0x3f) by (bit_vector);
        assert(h & 0x3f <= 0x3f) by (bit_vector);
        assert(w & 0x3f <= 0x3f) by (bit_vector);
        let f = spec_fold_addr(addr);
        if f <= 0x1fff {
            assert(f & 0x7ff < 0x800) by (bit_vector);
        }
    }
}

} // verus!
