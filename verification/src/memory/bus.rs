//! The console bus: address decode over 2 KiB of mirrored RAM, the PPU
//! register window and the cartridge ROM window, plus the clock that drives
//! the PPU three dots per CPU cycle.
use crate::addresses::{PRG_ROM_START, RAM_MIRRORS_END};
use crate::cartridge::Rom;
use crate::interrupt::InterruptFlag;
use crate::memory::{
    spec_clear_pending, spec_mem_wf, spec_peek_ok, spec_peek_val, spec_pending, spec_read_next,
    spec_read_ok, spec_read_val, spec_rom_val, spec_tick_next, spec_write_next, spec_write_ok,
    zeroed, MemModel, Memory,
};
use crate::ppu::{spec_ppu_ticks, Ppu, PpuModel, VRAM_SIZE};
use crate::register::{RegRead, RegWrite};
use crate::Program;
use vstd::prelude::*;

verus! {

/// Bytes of console RAM behind the bus.
pub const RAM_SIZE: usize = 2048;

/// A single 16 KiB PRG page, mirrored into the upper window half.
pub const HALF_ROM_SIZE: usize = 0x4000;

/// PPU dots per CPU cycle.
pub const PPU_CYCLES_PER_CPU: u8 = 3;

/// The console bus.
pub struct Bus {
    /// The console's 2 KiB of CPU RAM.
    pub vram: Vec<u8>,
    /// The cartridge's program bytes.
    pub prg_rom: Program,
    /// The picture processing unit, clocked by this bus.
    pub ppu: Ppu,
}

impl Bus {
    /// A bus wired to a freshly loaded cartridge: its PRG pages under the
    /// ROM window, a PPU holding its CHR pages and mirroring tag, and
    /// zeroed RAM.
    pub fn new(rom: Rom) -> (r: Self)
        requires
            rom.prg_rom.len() == HALF_ROM_SIZE || rom.prg_rom.len() == 2 * HALF_ROM_SIZE,
        ensures
            r.inv(),
            r.m() == (MemModel::Nes {
                ram: Seq::new(RAM_SIZE as nat, |i: int| 0u8),
                prg: rom.prg_rom@,
                ppu: crate::ppu::spec_ppu_init(rom.chr_rom@, rom.screen_mirroring),
            }),
    {
        let ppu = Ppu::new(rom.chr_rom, rom.screen_mirroring);
        let r = Bus { vram: zeroed(RAM_SIZE), prg_rom: rom.prg_rom, ppu };
        proof {
            assert(r.m() =~= MemModel::Nes {
                ram: Seq::new(RAM_SIZE as nat, |i: int| 0u8),
                prg: r.prg_rom@,
                ppu: r.ppu.m(),
            });
        }
        r
    }

    /// Reads one byte out of the ROM window, mirroring a single page into
    /// the upper half.
    pub fn read_rom(&self, addr: u16) -> (r: u8)
        requires
            self.inv(),
            addr >= PRG_ROM_START,
        ensures
            r == spec_rom_val(self.prg_rom@, addr),
    {
        let mut idx = (addr - PRG_ROM_START) as usize;
        if self.prg_rom.len() == HALF_ROM_SIZE && idx >= HALF_ROM_SIZE {
            idx = idx % HALF_ROM_SIZE;
        }
        self.prg_rom[idx]
    }
}

impl Memory for Bus {
    open spec fn m(&self) -> MemModel {
        MemModel::Nes { ram: self.vram@, prg: self.prg_rom@, ppu: self.ppu.m() }
    }

    open spec fn inv(&self) -> bool {
        spec_mem_wf(self.m())
    }

    fn peek(&self, addr: u16) -> u8 {
        if addr <= RAM_MIRRORS_END {
            proof {
                assert(addr & 0x7ff <= 0x7ff) by (bit_vector);
            }
            self.vram[(addr & 0x7ff) as usize]
        } else if addr >= PRG_ROM_START {
            self.read_rom(addr)
        } else {
            0
        }
    }

    fn read(&mut self, addr: u16) -> (r: u8)
        decreases addr,
    {
        if addr <= RAM_MIRRORS_END {
            proof {
                assert(addr & 0x7ff <= 0x7ff) by (bit_vector);
            }
            self.vram[(addr & 0x7ff) as usize]
        } else if addr == 0x2002 {
            self.ppu.read_status()
        } else if addr == 0x2004 {
            self.ppu.oam.read()
        } else if addr == 0x2007 {
            self.ppu.read_data()
        } else if 0x2008 <= addr && addr <= 0x3fff {
            proof {
                assert(addr & 0x2007 <= 0x2007) by (bit_vector);
            }
            self.read(addr & 0x2007)
        } else if addr == 0x2000 || addr == 0x2001 || addr == 0x2003 || addr == 0x2005 || addr
            == 0x2006 || addr == 0x4014 {
            vstd::pervasive::unreached()
        } else if addr >= PRG_ROM_START {
            self.read_rom(addr)
        } else {
            0
        }
    }

    fn write(&mut self, addr: u16, value: u8)
        decreases addr,
    {
        if addr <= RAM_MIRRORS_END {
            proof {
                assert(addr & 0x7ff <= 0x7ff) by (bit_vector);
            }
            self.vram.set((addr & 0x7ff) as usize, value);
        } else if addr == 0x2000 {
            self.ppu.write_to_ctrl(value);
        } else if addr == 0x2001 {
            self.ppu.mask.write(value);
        } else if addr == 0x2003 {
            self.ppu.oam.addr.write(value);
        } else if addr == 0x2004 {
            self.ppu.oam.write(value);
        } else if addr == 0x2005 {
            self.ppu.scroll.write(value);
        } else if addr == 0x2006 {
            self.ppu.addr.write(value);
        } else if addr == 0x2007 {
            self.ppu.write_to_data(value);
        } else if 0x2008 <= addr && addr <= 0x3fff {
            proof {
                assert(addr & 0x2007 <= 0x2007) by (bit_vector);
            }
            self.write(addr & 0x2007, value);
        } else if addr == 0x2002 || addr >= PRG_ROM_START {
            vstd::pervasive::unreached()
        } else {
            // writes into the stubbed regions vanish
        }
    }

    fn tick(&mut self, cycles: u8) {
        let total: u16 = (cycles as u16) * (PPU_CYCLES_PER_CPU as u16);
        let mut i: u16 = 0;
        while i < total
            invariant
                i <= total,
                self.vram@ == old(self).vram@,
                self.prg_rom@ == old(self).prg_rom@,
                self.ppu.wf(),
                self.ppu.m() == spec_ppu_ticks(old(self).ppu.m(), i as nat),
                old(self).inv(),
            decreases total - i,
        {
            self.ppu.tick();
            i = i + 1;
        }
        proof {
            assert(self.m() =~= spec_tick_next(old(self).m(), cycles));
        }
    }

    fn take_interrupt(&mut self) -> InterruptFlag {
        let pending = self.ppu.interrupt;
        self.ppu.interrupt = InterruptFlag::Idle;
        proof {
            assert(self.m() =~= spec_clear_pending(old(self).m()));
        }
        pending
    }
}

} // verus!
