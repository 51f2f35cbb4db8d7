//! The flat 64 KiB memory the bare 6502 core runs against in tests and
//! demos: no registers, no mirrors, no clock.
use crate::addresses::{PC_START, PRG_ROM_START};
use crate::interrupt::InterruptFlag;
use crate::memory::{
    spec_clear_pending, spec_mem_wf, spec_peek_ok, spec_peek_val, spec_pending, spec_read_next,
    spec_read_ok, spec_read_val, spec_tick_next, spec_write_next, spec_write_ok, zeroed, MemModel,
    Memory, MEMORY_SIZE,
};
use crate::Program;
use vstd::prelude::*;

verus! {

/// A flat byte array covering the whole address space.
pub struct CpuMem(pub Vec<u8>);

impl CpuMem {
    /// A zeroed memory.
    pub fn new() -> (r: Self)
        ensures
            r.inv(),
            r.m() == (MemModel::Flat { mem: Seq::new(MEMORY_SIZE as nat, |i: int| 0u8) }),
    {
        CpuMem(zeroed(MEMORY_SIZE))
    }

    /// Copies a program into the ROM window at 0x8000 and points the reset
    /// vector at it.
    pub fn load_rom(&mut self, rom: Program)
        requires
            old(self).inv(),
            rom.len() <= 0x7fff,
        ensures
            final(self).inv(),
            final(self).m() == (MemModel::Flat {
                mem: old(self).m()->mem.take(PRG_ROM_START as int).add(rom@).add(
                    old(self).m()->mem.skip(PRG_ROM_START + rom.len()),
                ).update(PC_START as int, 0u8).update(PC_START + 1, 0x80u8),
            }),
    {
        let ghost pre = self.0@;
        let mut i: usize = 0;
        while i < rom.len()
            invariant
                self.0.len() == MEMORY_SIZE,
                i <= rom.len() <= 0x7fff,
                self.0@ == pre.take(PRG_ROM_START as int).add(rom@.take(i as int)).add(
                    pre.skip(PRG_ROM_START + i),
                ),
                pre.len() == MEMORY_SIZE,
            decreases rom.len() - i,
        {
            self.0.set(PRG_ROM_START as usize + i, rom[i]);
            proof {
                assert(self.0@ =~= pre.take(PRG_ROM_START as int).add(rom@.take(i + 1)).add(
                    pre.skip(PRG_ROM_START + i + 1),
                ));
            }
            i = i + 1;
        }
        proof {
            assert(rom@.take(rom.len() as int) =~= rom@);
        }
        self.write_u16(PC_START, PRG_ROM_START);
        proof {
            assert(PRG_ROM_START as u8 == 0u8) by (bit_vector);
            assert((PRG_ROM_START >> 8) as u8 == 0x80u8) by (bit_vector);
            assert(PC_START.wrapping_add(1) == 0xfffdu16) by (bit_vector);
            assert(self.m()->mem =~= old(self).m()->mem.take(PRG_ROM_START as int).add(rom@).add(
                old(self).m()->mem.skip(PRG_ROM_START + rom.len()),
            ).update(PC_START as int, 0u8).update(PC_START + 1, 0x80u8));
        }
    }
}

impl Default for CpuMem {
    /// A zeroed memory.
    fn default() -> (r: Self)
        ensures
            r.inv(),
            r.m() == (MemModel::Flat { mem: Seq::new(MEMORY_SIZE as nat, |i: int| 0u8) }),
    {
        CpuMem::new()
    }
}

impl Memory for CpuMem {
    open spec fn m(&self) -> MemModel {
        MemModel::Flat { mem: self.0@ }
    }

    open spec fn inv(&self) -> bool {
        spec_mem_wf(self.m())
    }

    fn peek(&self, addr: u16) -> u8 {
        self.0[addr as usize]
    }

    fn read(&mut self, addr: u16) -> u8 {
        self.0[addr as usize]
    }

    fn write(&mut self, addr: u16, value: u8) {
        self.0.set(addr as usize, value);
    }

    fn tick(&mut self, cycles: u8) {
    }

    fn take_interrupt(&mut self) -> InterruptFlag {
        InterruptFlag::Idle
    }
}


impl CpuMem {
    /// Applies a caller-supplied transformation to one byte in place.
    pub fn update<F: Fn(u8) -> u8>(&mut self, addr: u16, update_fn: F)
        requires
            old(self).inv(),
            addr < MEMORY_SIZE,
            call_requires(update_fn, (spec_peek_val(old(self).m(), addr),)),
        ensures
            final(self).inv(),
            exists|r: u8|
                #[trigger] call_ensures(update_fn, (spec_peek_val(old(self).m(), addr),), r)
                    && final(self).m() == spec_write_next(old(self).m(), addr, r),
    {
        let val = self.0[addr as usize];
        let next = update_fn(val);
        self.0.set(addr as usize, next);
    }
}

} // verus!
