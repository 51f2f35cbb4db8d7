//! The CPU core: registers, stack, interrupt dispatch and the tick loop that
//! fetches, decodes and executes one instruction at a time.
use crate::addresses::{NMI_VECTOR, PC_START, PRG_ROM_START};
use crate::cartridge::Rom;
use crate::cpu::ops::{spec_displace, Direction, Displacement};
use crate::cpu::processor_status::{ProcessorStatus, StatusFlag, OVERFLOW_MASK, STATUS_INIT};
use crate::cpu::stack_pointer::{StackPointer, STACK_PAGE};
use crate::exception::NoveError;
use crate::instruction::addressing_mode::AddressingMode;
use crate::instruction::mnemonic::Mnemonic;
use crate::instruction::{opcode_lookup, spec_cycles, spec_opcode, OpCode};
use crate::interrupt::InterruptFlag;
use crate::memory::bus::Bus;
use crate::memory::cpu_mem::CpuMem;
use crate::memory::{
    spec_clear_pending, spec_mem_wf, spec_peek16, spec_peek_ok, spec_peek_val, spec_pending,
    spec_read_next, spec_read_ok, spec_read_val, spec_tick_next, spec_write_next, spec_write_ok,
    MemModel, Memory,
};
use crate::register::Register;
use crate::Program;
use vstd::prelude::*;

pub mod ops;
pub mod processor_status;
pub mod stack_pointer;

verus! {

/// The mask that selects the page bits of an address.
pub const PAGE_MASK: u16 = 0xff00;

/// A CPU with the flat test memory.
pub type Core6502 = NoveCore<CpuMem>;

/// A CPU wired to the console bus.
pub type NesNoveCore = NoveCore<Bus>;

/// The CPU and its memory as contracts see them.
#[verifier::ext_equal]
pub ghost struct CoreModel {
    pub pc: u16,
    pub sp: u8,
    pub a: u8,
    pub x: u8,
    pub y: u8,
    pub p: u8,
    pub mem: MemModel,
}

/// The 6502-style CPU core over a memory `M`.
pub struct NoveCore<M> {
    /// Program counter.
    pub pc: u16,
    /// Stack pointer.
    pub sp: StackPointer,
    /// Accumulator.
    pub a: Register,
    /// Index register X.
    pub x: Register,
    /// Index register Y.
    pub y: Register,
    /// Processor status.
    pub ps: ProcessorStatus,
    /// The memory map the core drives.
    pub memory: M,
}

/// True when two addresses lie in different 256-byte pages.
pub open spec fn spec_page_crossed(left: u16, right: u16) -> bool {
    left & PAGE_MASK != right & PAGE_MASK
}

/// The status byte with the zero flag set from `v`.
pub open spec fn spec_set_z(p: u8, v: u8) -> u8 {
    if v == 0 {
        p | 0x02
    } else {
        p & !0x02
    }
}

/// The status byte with the negative flag set from `v`'s top bit.
pub open spec fn spec_set_n(p: u8, v: u8) -> u8 {
    if v & 0x80 != 0 {
        p | 0x80
    } else {
        p & !0x80
    }
}

/// The status byte with zero and negative set from `v`.
pub open spec fn spec_zn(p: u8, v: u8) -> u8 {
    spec_set_n(spec_set_z(p, v), v)
}

/// The status byte with the overflow flag set from `v`'s bit 6.
pub open spec fn spec_set_v(p: u8, v: u8) -> u8 {
    if v & 0x40 != 0 {
        p | 0x40
    } else {
        p & !0x40
    }
}

/// The status byte with the carry flag forced to `b`.
pub open spec fn spec_set_c(p: u8, b: bool) -> u8 {
    if b {
        p | 0x01
    } else {
        p & !0x01
    }
}

/// Add-with-carry: the accumulator result and the status byte with carry
/// and signed overflow set. The signed overflow rule is the hardware's:
/// adding two operands of one sign must not produce the other sign.
pub open spec fn spec_adc(a: u8, p: u8, m: u8) -> (u8, u8) {
    let sum = (p & 0x01) as int + a as int + m as int;
    let result = sum as u8;
    let p1 = spec_set_c(p, sum > 0xff);
    let p2 = if ((a & m & !result) | (!a & !m & result)) & OVERFLOW_MASK != 0 {
        p1 | 0x40
    } else {
        p1 & !0x40
    };
    (result, p2)
}

/// The operand a subtract-with-carry hands to the adder: the ones
/// complement of the memory byte.
pub open spec fn spec_sbc_operand(m: u8) -> u8 {
    (0u8).wrapping_sub(m).wrapping_sub(1)
}

/// Compare: carry says the register is at least the operand; zero and
/// negative follow their wrapping difference.
pub open spec fn spec_compare(p: u8, reg: u8, val: u8) -> u8 {
    spec_zn(spec_set_c(p, val <= reg), reg.wrapping_sub(val))
}

/// The CPU after one byte is pushed: the byte lands at the stack pointer's
/// address and the pointer moves down.
pub open spec fn spec_push(c: CoreModel, v: u8) -> CoreModel {
    CoreModel {
        sp: c.sp.wrapping_sub(1),
        mem: spec_write_next(c.mem, STACK_PAGE | c.sp as u16, v),
        ..c
    }
}

/// The CPU after a word is pushed, high byte first.
pub open spec fn spec_push16(c: CoreModel, w: u16) -> CoreModel {
    spec_push(spec_push(c, (w >> 8) as u8), w as u8)
}

/// The CPU after one byte is pulled, and the byte: the pointer moves up
/// first, then the byte under it is read.
pub open spec fn spec_pull(c: CoreModel) -> (CoreModel, u8) {
    let sp = c.sp.wrapping_add(1);
    (CoreModel { sp, ..c }, spec_peek_val(c.mem, STACK_PAGE | sp as u16))
}

/// The CPU after a word is pulled, and the word: the pointer moves up twice,
/// then the word is read little-endian below it.
pub open spec fn spec_pull16(c: CoreModel) -> (CoreModel, u16) {
    let sp = c.sp.wrapping_add(2);
    (
        CoreModel { sp, ..c },
        spec_peek16(c.mem, (STACK_PAGE | sp as u16).wrapping_sub(1)),
    )
}

/// A zero-page pointer: two bytes read from the zero page, the high byte
/// wrapping within the page.
pub open spec fn spec_zp_ptr(m: MemModel, p: u8) -> u16 {
    ((spec_peek_val(m, p.wrapping_add(1) as u16) as u16) << 8) | (spec_peek_val(m, p as u16) as u16)
}

/// A relative operand sign-extended to an address offset.
pub open spec fn spec_sign_ext(b: u8) -> u16 {
    if b < 0x80 {
        b as u16
    } else {
        0xff00u16 | (b as u16)
    }
}

/// The indirect-jump target, with the hardware bug: when the pointer's low
/// byte is 0xFF the high target byte is fetched from the start of the same
/// page instead of the next one.
pub open spec fn spec_ind_target(m: MemModel, t: u16) -> u16 {
    if t & 0x00ff == 0x00ff {
        ((spec_peek_val(m, t & PAGE_MASK) as u16) << 8) | (spec_peek_val(m, t) as u16)
    } else {
        spec_peek16(m, t)
    }
}

/// The effective address an addressing mode names, and whether the access
/// crossed a page, given a CPU whose program counter sits on the operand.
pub open spec fn spec_resolve(mode: AddressingMode, c: CoreModel) -> (u16, bool) {
    match mode {
        AddressingMode::IMM => (c.pc, false),
        AddressingMode::REL => {
            let addr = c.pc.wrapping_add(spec_sign_ext(spec_peek_val(c.mem, c.pc)));
            (addr, spec_page_crossed(addr, c.pc.wrapping_add(1)))
        },
        AddressingMode::ZPG => (spec_peek_val(c.mem, c.pc) as u16, false),
        AddressingMode::ZPX => (spec_peek_val(c.mem, c.pc).wrapping_add(c.x) as u16, false),
        AddressingMode::ZPY => (spec_peek_val(c.mem, c.pc).wrapping_add(c.y) as u16, false),
        AddressingMode::ABS => (spec_peek16(c.mem, c.pc), false),
        AddressingMode::ABX => {
            let base = spec_peek16(c.mem, c.pc);
            let res = base.wrapping_add(c.x as u16);
            (res, spec_page_crossed(base, res))
        },
        AddressingMode::ABY => {
            let base = spec_peek16(c.mem, c.pc);
            let res = base.wrapping_add(c.y as u16);
            (res, spec_page_crossed(base, res))
        },
        AddressingMode::IDX => (
            spec_zp_ptr(c.mem, spec_peek_val(c.mem, c.pc).wrapping_add(c.x)),
            false,
        ),
        AddressingMode::IDY => {
            let base = spec_zp_ptr(c.mem, spec_peek_val(c.mem, c.pc));
            let res = base.wrapping_add(c.y as u16);
            (res, spec_page_crossed(base, res))
        },
        AddressingMode::IMP | AddressingMode::ACC => (0, false),
        AddressingMode::IND => (spec_ind_target(c.mem, spec_peek16(c.mem, c.pc)), false),
    }
}

/// True when every byte the resolver fetches for this mode is readable
/// without side effects.
pub open spec fn spec_resolve_ok(mode: AddressingMode, c: CoreModel) -> bool {
    match mode {
        AddressingMode::IMM | AddressingMode::IMP | AddressingMode::ACC => true,
        AddressingMode::REL | AddressingMode::ZPG | AddressingMode::ZPX | AddressingMode::ZPY
            | AddressingMode::IDX | AddressingMode::IDY => spec_peek_ok(c.mem, c.pc),
        AddressingMode::ABS | AddressingMode::ABX | AddressingMode::ABY => spec_peek_ok(c.mem, c.pc)
            && spec_peek_ok(c.mem, c.pc.wrapping_add(1)),
        AddressingMode::IND => {
            &&& spec_peek_ok(c.mem, c.pc)
            &&& spec_peek_ok(c.mem, c.pc.wrapping_add(1))
            &&& {
                let t = spec_peek16(c.mem, c.pc);
                if t & 0x00ff == 0x00ff {
                    spec_peek_ok(c.mem, t) && spec_peek_ok(c.mem, t & PAGE_MASK)
                } else {
                    spec_peek_ok(c.mem, t) && spec_peek_ok(c.mem, t.wrapping_add(1))
                }
            }
        },
    }
}

/// The CPU after the top-of-tick interrupt check, and the flag that was
/// pending. A pending NMI is serviced: the program counter and the status
/// byte (Break low, One high) are pushed, interrupts are disabled, the bus
/// runs for two cycles and control moves to the NMI vector.
pub open spec fn spec_handle_interrupt(c: CoreModel) -> (CoreModel, InterruptFlag) {
    let pend = spec_pending(c.mem);
    let c0 = CoreModel { mem: spec_clear_pending(c.mem), ..c };
    if pend is NMI {
        let c1 = spec_push16(c0, c0.pc);
        let c2 = spec_push(c1, ((c1.p | 0x30) & !0x10) | 0x20);
        let c3 = CoreModel { p: c2.p | 0x04, ..c2 };
        let c4 = CoreModel { mem: spec_tick_next(c3.mem, 2), ..c3 };
        let c5 = CoreModel { pc: spec_peek16(c4.mem, NMI_VECTOR), ..c4 };
        (c5, pend)
    } else {
        (c0, pend)
    }
}

impl<M: Memory> NoveCore<M> {
    /// The CPU and its memory as contracts see them.
    pub open spec fn m(&self) -> CoreModel {
        CoreModel {
            pc: self.pc,
            sp: self.sp.0,
            a: self.a.0,
            x: self.x.0,
            y: self.y.0,
            p: self.ps.0,
            mem: self.memory.m(),
        }
    }

    /// The core's structural invariant: its memory's.
    pub open spec fn inv(&self) -> bool {
        self.memory.inv() && spec_mem_wf(self.memory.m())
    }

    /// Puts the CPU into its reset state: control moves to the reset vector,
    /// the stack pointer to 0xFD, the registers to zero and the status byte
    /// to 0x24; memory is untouched.
    pub fn reset(&mut self)
        requires
            old(self).inv(),
        ensures
            final(self).inv(),
            final(self).m() == (CoreModel {
                pc: spec_peek16(old(self).m().mem, PC_START),
                sp: 0xfd,
                a: 0,
                x: 0,
                y: 0,
                p: STATUS_INIT,
                mem: old(self).m().mem,
            }),
    {
        self.pc = self.memory.read_u16(PC_START);
        self.sp = StackPointer(0xfd);
        self.a = Register(0);
        self.x = Register(0);
        self.y = Register(0);
        self.ps.init();
    }

    /// The byte under the program counter.
    fn next_byte(&self) -> (r: u8)
        requires
            self.inv(),
            spec_peek_ok(self.m().mem, self.m().pc),
        ensures
            r == spec_peek_val(self.m().mem, self.m().pc),
    {
        self.memory.peek(self.pc)
    }

    /// The little-endian word under the program counter.
    fn next_word(&self) -> (r: u16)
        requires
            self.inv(),
            spec_peek_ok(self.m().mem, self.m().pc),
            spec_peek_ok(self.m().mem, self.m().pc.wrapping_add(1)),
        ensures
            r == spec_peek16(self.m().mem, self.m().pc),
    {
        self.memory.read_u16(self.pc)
    }

    /// Fetches the byte under the program counter and moves past it.
    fn read_pc(&mut self) -> (r: u8)
        requires
            old(self).inv(),
            spec_peek_ok(old(self).m().mem, old(self).m().pc),
        ensures
            final(self).inv(),
            r == spec_peek_val(old(self).m().mem, old(self).m().pc),
            final(self).m() == (CoreModel { pc: old(self).m().pc.wrapping_add(1), ..old(self).m() }),
    {
        let byte = self.next_byte();
        self.pc = self.pc.wrapping_add(1);
        byte
    }

    /// Pushes one byte and moves the stack pointer down.
    fn stack_push(&mut self, content: u8)
        requires
            old(self).inv(),
            spec_write_ok(old(self).m().mem, STACK_PAGE | old(self).m().sp as u16),
        ensures
            final(self).inv(),
            final(self).m() == spec_push(old(self).m(), content),
    {
        let addr = self.sp.get();
        self.memory.write(addr, content);
        self.sp.next();
    }

    /// Pushes a word, high byte first.
    fn stack_push_u16(&mut self, content: u16)
        requires
            old(self).inv(),
            spec_write_ok(old(self).m().mem, STACK_PAGE | old(self).m().sp as u16),
            spec_write_ok(
                spec_push(old(self).m(), (content >> 8) as u8).mem,
                STACK_PAGE | old(self).m().sp.wrapping_sub(1) as u16,
            ),
        ensures
            final(self).inv(),
            final(self).m() == spec_push16(old(self).m(), content),
    {
        let hi = (content >> 8) as u8;
        let lo = content as u8;
        self.stack_push(hi);
        self.stack_push(lo);
    }

    /// Pulls one byte: the stack pointer moves up, then the byte under it
    /// is read.
    fn stack_pull(&mut self) -> (r: u8)
        requires
            old(self).inv(),
            spec_peek_ok(old(self).m().mem, STACK_PAGE | old(self).m().sp.wrapping_add(1) as u16),
        ensures
            final(self).inv(),
            (final(self).m(), r) == spec_pull(old(self).m()),
    {
        self.sp.prev();
        self.memory.peek(self.sp.get())
    }

    /// Pulls a word: the pointer moves up twice, then the word is read
    /// little-endian below it.
    fn stack_pull_u16(&mut self) -> (r: u16)
        requires
            old(self).inv(),
            spec_peek_ok(
                old(self).m().mem,
                (STACK_PAGE | old(self).m().sp.wrapping_add(2) as u16).wrapping_sub(1),
            ),
            spec_peek_ok(old(self).m().mem, STACK_PAGE | old(self).m().sp.wrapping_add(2) as u16),
        ensures
            final(self).inv(),
            (final(self).m(), r) == spec_pull16(old(self).m()),
    {
        self.sp.prev();
        self.sp.prev();
        let base = self.sp.get().wrapping_sub(1);
        proof {
            let s = old(self).m().sp.wrapping_add(2) as u16;
            assert((STACK_PAGE | s).wrapping_sub(1).wrapping_add(1) == (STACK_PAGE | s))
                by (bit_vector);
        }
        self.memory.read_u16(base)
    }

    /// Services a pending NMI and hands back whatever interrupt was pending.
    fn handle_interrupt(&mut self) -> (r: InterruptFlag)
        requires
            old(self).inv(),
        ensures
            final(self).inv(),
            (final(self).m(), r) == spec_handle_interrupt(old(self).m()),
    {
        let interruption = self.memory.take_interrupt();
        if matches!(interruption, InterruptFlag::NMI) {
            proof {
                crate::memory::lemma_stack_addr_ok(self.m().mem, self.m().sp);
                crate::memory::lemma_write_next_wf(
                    self.m().mem,
                    STACK_PAGE | self.m().sp as u16,
                    (self.m().pc >> 8) as u8,
                );
                crate::memory::lemma_stack_addr_ok(
                    spec_push(self.m(), (self.m().pc >> 8) as u8).mem,
                    self.m().sp.wrapping_sub(1),
                );
            }
            self.stack_push_u16(self.pc);
            proof {
                crate::memory::lemma_stack_addr_ok(self.m().mem, self.m().sp);
            }
            let pushed = interruption.mask(self.ps.get_for_push());
            self.stack_push(pushed);

            self.ps.raise(StatusFlag::Interrupt);
            let cycles = interruption.cycles();
            self.memory.tick(cycles);
            self.pc = self.memory.read_u16(interruption.addr());
        }
        interruption
    }

    /// Adds the operand and the carry into the accumulator's value and sets
    /// the carry and overflow flags; the sum itself is returned for the
    /// caller to store.
    pub fn adc(&mut self, m: u8) -> (r: u8)
        ensures
            (r, final(self).ps.0) == spec_adc(old(self).a.0, old(self).ps.0, m),
            final(self).pc == old(self).pc,
            final(self).sp == old(self).sp,
            final(self).a == old(self).a,
            final(self).x == old(self).x,
            final(self).y == old(self).y,
            final(self).memory == old(self).memory,
    {
        let a = self.a.get();
        let carry_in = self.ps.get_bit(StatusFlag::Carry);
        proof {
            let p = old(self).ps.0;
            assert(p & 0x01 == 0 || p & 0x01 == 1) by (bit_vector);
        }
        let sum: u32 = carry_in as u32 + a as u32 + m as u32;
        let result = sum as u8;

        self.ps.set_bit(StatusFlag::Carry, sum > 0xff);
        self.ps.set_bit(
            StatusFlag::Overflow,
            ((a & m & !result) | (!a & !m & result)) & OVERFLOW_MASK != 0,
        );

        result
    }

    /// Subtract-with-carry is add-with-carry of the operand's ones
    /// complement.
    pub fn sbc(&mut self, m: u8) -> (r: u8)
        ensures
            (r, final(self).ps.0) == spec_adc(old(self).a.0, old(self).ps.0, spec_sbc_operand(m)),
            final(self).pc == old(self).pc,
            final(self).sp == old(self).sp,
            final(self).a == old(self).a,
            final(self).x == old(self).x,
            final(self).y == old(self).y,
            final(self).memory == old(self).memory,
    {
        self.adc((0u8).wrapping_sub(m).wrapping_sub(1))
    }

    /// Sets zero from the masked accumulator and copies the operand's top
    /// two bits into negative and overflow.
    fn bit_test(&mut self, value: u8)
        ensures
            final(self).ps.0 == spec_set_v(
                spec_set_n(spec_set_z(old(self).ps.0, old(self).a.0 & value), value),
                value,
            ),
            final(self).pc == old(self).pc,
            final(self).sp == old(self).sp,
            final(self).a == old(self).a,
            final(self).x == old(self).x,
            final(self).y == old(self).y,
            final(self).memory == old(self).memory,
    {
        let masked = self.a.get() & value;
        self.update_z(masked);
        self.update_n(value);
        self.update_v(value);
    }

    /// Takes a branch when its predicate holds: one extra cycle, a second
    /// one across a page, and control moves to the target.
    fn branch_if(&mut self, condition: bool, addr: u16, page_crossed: bool)
        requires
            old(self).inv(),
        ensures
            final(self).inv(),
            final(self).m() == spec_branch(old(self).m(), condition, addr, page_crossed),
    {
        if condition {
            self.memory.tick(1);
            if page_crossed {
                self.memory.tick(1);
            }
            self.pc = addr;
        }
    }

    /// Pulls the status byte, forcing One high and Break low.
    fn pull_ps(&mut self)
        requires
            old(self).inv(),
            spec_peek_ok(old(self).m().mem, STACK_PAGE | old(self).m().sp.wrapping_add(1) as u16),
        ensures
            final(self).inv(),
            final(self).m() == ({
                let (c1, v) = spec_pull(old(self).m());
                CoreModel { p: ((v | 0x20) & !0x10) as u8, ..c1 }
            }),
    {
        let val = self.stack_pull();
        self.ps.set_from_pull(val);
    }

    /// Sets zero and negative from a value.
    fn update_zn(&mut self, value: u8)
        ensures
            final(self).ps.0 == spec_zn(old(self).ps.0, value),
            final(self).pc == old(self).pc,
            final(self).sp == old(self).sp,
            final(self).a == old(self).a,
            final(self).x == old(self).x,
            final(self).y == old(self).y,
            final(self).memory == old(self).memory,
    {
        self.update_z(value);
        self.update_n(value);
    }

    /// Sets the zero flag from a value.
    fn update_z(&mut self, value: u8)
        ensures
            final(self).ps.0 == spec_set_z(old(self).ps.0, value),
            final(self).pc == old(self).pc,
            final(self).sp == old(self).sp,
            final(self).a == old(self).a,
            final(self).x == old(self).x,
            final(self).y == old(self).y,
            final(self).memory == old(self).memory,
    {
        if value == 0 {
            self.ps.raise(StatusFlag::Zero);
        } else {
            self.ps.low(StatusFlag::Zero);
        }
    }

    /// Sets the negative flag from a value's top bit.
    fn update_n(&mut self, value: u8)
        ensures
            final(self).ps.0 == spec_set_n(old(self).ps.0, value),
            final(self).pc == old(self).pc,
            final(self).sp == old(self).sp,
            final(self).a == old(self).a,
            final(self).x == old(self).x,
            final(self).y == old(self).y,
            final(self).memory == old(self).memory,
    {
        if value & 0x80 != 0 {
            self.ps.raise(StatusFlag::Negative)
        } else {
            self.ps.low(StatusFlag::Negative);
        }
    }

    /// Sets the overflow flag from a value's bit 6.
    fn update_v(&mut self, value: u8)
        ensures
            final(self).ps.0 == spec_set_v(old(self).ps.0, value),
            final(self).pc == old(self).pc,
            final(self).sp == old(self).sp,
            final(self).a == old(self).a,
            final(self).x == old(self).x,
            final(self).y == old(self).y,
            final(self).memory == old(self).memory,
    {
        if value & 0x40 != 0 {
            self.ps.raise(StatusFlag::Overflow)
        } else {
            self.ps.low(StatusFlag::Overflow);
        }
    }

    /// Resolves an addressing mode against the current CPU state: the
    /// effective address, and whether it crossed a page.
    pub fn get_addr(&self, mode: &AddressingMode) -> (r: (u16, bool))
        requires
            self.inv(),
            spec_resolve_ok(*mode, self.m()),
        ensures
            r == spec_resolve(*mode, self.m()),
    {
        match mode {
            AddressingMode::IMM => (self.pc, false),
            AddressingMode::REL => {
                let b = self.next_byte();
                let ext: u16 = if b < 0x80 {
                    b as u16
                } else {
                    0xff00u16 | (b as u16)
                };
                let addr = self.pc.wrapping_add(ext);
                (addr, page_crossed(addr, self.pc.wrapping_add(1)))
            },
            AddressingMode::ZPG => (self.next_byte() as u16, false),
            AddressingMode::ZPX => (self.next_byte().wrapping_add(self.x.get()) as u16, false),
            AddressingMode::ZPY => (self.next_byte().wrapping_add(self.y.get()) as u16, false),
            AddressingMode::ABS => (self.next_word(), false),
            AddressingMode::ABX => self.abs_reg(self.x.get()),
            AddressingMode::ABY => self.abs_reg(self.y.get()),
            AddressingMode::IDX => (
                self.ind_reg_addr(self.next_byte().wrapping_add(self.x.get())),
                false,
            ),
            AddressingMode::IDY => {
                let addr = self.ind_reg_addr(self.next_byte());
                let res = addr.wrapping_add(self.y.get() as u16);
                (res, page_crossed(addr, res))
            },
            AddressingMode::IMP | AddressingMode::ACC => (0, false),
            AddressingMode::IND => (self.get_ind_addr(self.next_word()), false),
        }
    }

    /// Resolves an absolute indexed mode: the operand word plus an index.
    fn abs_reg(&self, add: u8) -> (r: (u16, bool))
        requires
            self.inv(),
            spec_peek_ok(self.m().mem, self.m().pc),
            spec_peek_ok(self.m().mem, self.m().pc.wrapping_add(1)),
        ensures
            r.0 == spec_peek16(self.m().mem, self.m().pc).wrapping_add(add as u16),
            r.1 == spec_page_crossed(spec_peek16(self.m().mem, self.m().pc), r.0),
    {
        let addr = self.next_word();
        let res = addr.wrapping_add(add as u16);
        (res, page_crossed(addr, res))
    }

    /// Follows a zero-page pointer, the high byte wrapping within the page.
    fn ind_reg_addr(&self, addr: u8) -> (r: u16)
        requires
            self.inv(),
        ensures
            r == spec_zp_ptr(self.m().mem, addr),
    {
        proof {
            zero_page_peek_ok(self.m().mem, addr);
            zero_page_peek_ok(self.m().mem, addr.wrapping_add(1));
        }
        let lo = self.memory.peek(addr as u16);
        let hi = self.memory.peek(addr.wrapping_add(1) as u16);
        ((hi as u16) << 8) | (lo as u16)
    }

    /// Follows an indirect jump pointer, reproducing the hardware bug at a
    /// page's last byte.
    fn get_ind_addr(&self, addr: u16) -> (r: u16)
        requires
            self.inv(),
            addr & 0x00ff == 0x00ff ==> spec_peek_ok(self.m().mem, addr) && spec_peek_ok(
                self.m().mem,
                addr & PAGE_MASK,
            ),
            addr & 0x00ff != 0x00ff ==> spec_peek_ok(self.m().mem, addr) && spec_peek_ok(
                self.m().mem,
                addr.wrapping_add(1),
            ),
        ensures
            r == spec_ind_target(self.m().mem, addr),
    {
        if addr & 0x00ff == 0x00ff {
            let lo = self.memory.peek(addr);
            let hi = self.memory.peek(addr & PAGE_MASK);
            ((hi as u16) << 8) | (lo as u16)
        } else {
            self.memory.read_u16(addr)
        }
    }
}

/// The CPU after a branch instruction has decided: an untaken branch does
/// nothing; a taken one costs one extra cycle, a second across a page, and
/// moves control to the target.
pub open spec fn spec_branch(c: CoreModel, condition: bool, addr: u16, crossed: bool) -> CoreModel {
    if condition {
        let m1 = spec_tick_next(c.mem, 1);
        let m2 = if crossed {
            spec_tick_next(m1, 1)
        } else {
            m1
        };
        CoreModel { pc: addr, mem: m2, ..c }
    } else {
        c
    }
}

/// True when two addresses lie in different 256-byte pages.
fn page_crossed(left: u16, right: u16) -> (r: bool)
    ensures
        r == spec_page_crossed(left, right),
{
    left & PAGE_MASK != right & PAGE_MASK
}

/// Every zero-page address can be read without side effects in a
/// well-formed memory.
proof fn zero_page_peek_ok(m: MemModel, p: u8)
    requires
        spec_mem_wf(m),
    ensures
        spec_peek_ok(m, p as u16),
{
}


/// The CPU after one instruction's work, given the decoded entry and its
/// resolved effective address. The program-counter advance and the base
/// cycle charge are the tick's common tail and are not included here; BRK
/// returns before any work and is not included either.
pub open spec fn spec_execute(c: CoreModel, op: OpCode, addr: u16, crossed: bool) -> CoreModel {
    let v = spec_read_val(c.mem, addr);
    let m1 = spec_read_next(c.mem, addr);
    match op.mnemonic {
        Mnemonic::ADC => {
            let (r, p1) = spec_adc(c.a, c.p, v);
            CoreModel { a: r, p: spec_zn(p1, r), mem: m1, ..c }
        },
        Mnemonic::AND => {
            let r = (c.a & v) as u8;
            CoreModel { a: r, p: spec_zn(c.p, r), mem: m1, ..c }
        },
        Mnemonic::ASL => {
            if op.addressing_mode is ACC {
                let (r, cy) = spec_displace(Displacement::Shift(Direction::Left), c.a);
                CoreModel { a: r, p: spec_zn(spec_set_c(c.p, cy), r), ..c }
            } else {
                let (r, cy) = spec_displace(Displacement::Shift(Direction::Left), v);
                CoreModel {
                    p: spec_zn(spec_set_c(c.p, cy), r),
                    mem: spec_write_next(m1, addr, r),
                    ..c
                }
            }
        },
        Mnemonic::BCC => spec_branch(c, c.p & 0x01 == 0, addr, crossed),
        Mnemonic::BCS => spec_branch(c, c.p & 0x01 != 0, addr, crossed),
        Mnemonic::BEQ => spec_branch(c, c.p & 0x02 != 0, addr, crossed),
        Mnemonic::BIT => CoreModel {
            p: spec_set_v(spec_set_n(spec_set_z(c.p, (c.a & v) as u8), v), v),
            mem: m1,
            ..c
        },
        Mnemonic::BMI => spec_branch(c, c.p & 0x80 != 0, addr, crossed),
        Mnemonic::BNE => spec_branch(c, c.p & 0x02 == 0, addr, crossed),
        Mnemonic::BPL => spec_branch(c, c.p & 0x80 == 0, addr, crossed),
        Mnemonic::BRK => c,
        Mnemonic::BVC => spec_branch(c, c.p & 0x40 == 0, addr, crossed),
        Mnemonic::BVS => spec_branch(c, c.p & 0x40 != 0, addr, crossed),
        Mnemonic::CLC => CoreModel { p: (c.p & !0x01) as u8, ..c },
        Mnemonic::CLD => CoreModel { p: (c.p & !0x08) as u8, ..c },
        Mnemonic::CLI => CoreModel { p: (c.p & !0x04) as u8, ..c },
        Mnemonic::CLV => CoreModel { p: (c.p & !0x40) as u8, ..c },
        Mnemonic::CMP => CoreModel { p: spec_compare(c.p, c.a, v), mem: m1, ..c },
        Mnemonic::CPX => CoreModel { p: spec_compare(c.p, c.x, v), mem: m1, ..c },
        Mnemonic::CPY => CoreModel { p: spec_compare(c.p, c.y, v), mem: m1, ..c },
        Mnemonic::DCP => {
            let m2 = spec_write_next(m1, addr, v.wrapping_sub(1));
            let v2 = spec_read_val(m2, addr);
            let m3 = spec_read_next(m2, addr);
            CoreModel { p: spec_compare(c.p, c.a, v2), mem: m3, ..c }
        },
        Mnemonic::DEC => {
            let m2 = spec_write_next(m1, addr, v.wrapping_sub(1));
            let v2 = spec_read_val(m2, addr);
            let m3 = spec_read_next(m2, addr);
            CoreModel { p: spec_zn(c.p, v2), mem: m3, ..c }
        },
        Mnemonic::DEX => {
            let r = c.x.wrapping_sub(1);
            CoreModel { x: r, p: spec_zn(c.p, r), ..c }
        },
        Mnemonic::DEY => {
            let r = c.y.wrapping_sub(1);
            CoreModel { y: r, p: spec_zn(c.p, r), ..c }
        },
        Mnemonic::EOR => {
            let r = (c.a ^ v) as u8;
            CoreModel { a: r, p: spec_zn(c.p, r), mem: m1, ..c }
        },
        Mnemonic::INC => {
            let m2 = spec_write_next(m1, addr, v.wrapping_add(1));
            let v2 = spec_read_val(m2, addr);
            let m3 = spec_read_next(m2, addr);
            CoreModel { p: spec_zn(c.p, v2), mem: m3, ..c }
        },
        Mnemonic::INX => {
            let r = c.x.wrapping_add(1);
            CoreModel { x: r, p: spec_zn(c.p, r), ..c }
        },
        Mnemonic::INY => {
            let r = c.y.wrapping_add(1);
            CoreModel { y: r, p: spec_zn(c.p, r), ..c }
        },
        Mnemonic::ISB => {
            let r0 = v.wrapping_add(1);
            let m2 = spec_write_next(m1, addr, r0);
            let (r, p1) = spec_adc(c.a, c.p, spec_sbc_operand(r0));
            CoreModel { a: r, p: spec_zn(p1, r), mem: m2, ..c }
        },
        Mnemonic::JMP => CoreModel { pc: addr, ..c },
        Mnemonic::JSR => {
            let c1 = spec_push16(c, c.pc.wrapping_add(1));
            CoreModel { pc: addr, ..c1 }
        },
        Mnemonic::LAX => {
            let p1 = spec_zn(c.p, v);
            CoreModel { a: v, x: v, p: spec_zn(p1, v), mem: m1, ..c }
        },
        Mnemonic::LDA => CoreModel { a: v, p: spec_zn(c.p, v), mem: m1, ..c },
        Mnemonic::LDX => CoreModel { x: v, p: spec_zn(c.p, v), mem: m1, ..c },
        Mnemonic::LDY => CoreModel { y: v, p: spec_zn(c.p, v), mem: m1, ..c },
        Mnemonic::LSR => {
            if op.addressing_mode is ACC {
                let (r, cy) = spec_displace(Displacement::Shift(Direction::Right), c.a);
                CoreModel { a: r, p: spec_zn(spec_set_c(c.p, cy), r), ..c }
            } else {
                let (r, cy) = spec_displace(Displacement::Shift(Direction::Right), v);
                CoreModel {
                    p: spec_zn(spec_set_c(c.p, cy), r),
                    mem: spec_write_next(m1, addr, r),
                    ..c
                }
            }
        },
        Mnemonic::NOP => c,
        Mnemonic::ORA => {
            let r = (c.a | v) as u8;
            CoreModel { a: r, p: spec_zn(c.p, r), mem: m1, ..c }
        },
        Mnemonic::PHA => spec_push(c, c.a),
        Mnemonic::PHP => spec_push(c, (c.p | 0x30) as u8),
        Mnemonic::PLA => {
            let (c1, r) = spec_pull(c);
            CoreModel { a: r, p: spec_zn(c1.p, r), ..c1 }
        },
        Mnemonic::PLP => {
            let (c1, r) = spec_pull(c);
            CoreModel { p: ((r | 0x20) & !0x10) as u8, ..c1 }
        },
        Mnemonic::RLA => {
            let (r, cy) = spec_displace(
                Displacement::Rotation(Direction::Left, c.p & 0x01 != 0),
                v,
            );
            let p1 = spec_zn(spec_set_c(c.p, cy), r);
            let m2 = spec_write_next(m1, addr, r);
            let v2 = spec_read_val(m2, addr);
            let m3 = spec_read_next(m2, addr);
            let a1 = (c.a & v2) as u8;
            CoreModel { a: a1, p: spec_zn(p1, a1), mem: m3, ..c }
        },
        Mnemonic::ROL => {
            if op.addressing_mode is ACC {
                let (r, cy) = spec_displace(
                    Displacement::Rotation(Direction::Left, c.p & 0x01 != 0),
                    c.a,
                );
                CoreModel { a: r, p: spec_zn(spec_set_c(c.p, cy), r), ..c }
            } else {
                let (r, cy) = spec_displace(
                    Displacement::Rotation(Direction::Left, c.p & 0x01 != 0),
                    v,
                );
                CoreModel {
                    p: spec_zn(spec_set_c(c.p, cy), r),
                    mem: spec_write_next(m1, addr, r),
                    ..c
                }
            }
        },
        Mnemonic::ROR => {
            if op.addressing_mode is ACC {
                let (r, cy) = spec_displace(
                    Displacement::Rotation(Direction::Right, c.p & 0x01 != 0),
                    c.a,
                );
                CoreModel { a: r, p: spec_zn(spec_set_c(c.p, cy), r), ..c }
            } else {
                let (r, cy) = spec_displace(
                    Displacement::Rotation(Direction::Right, c.p & 0x01 != 0),
                    v,
                );
                CoreModel {
                    p: spec_zn(spec_set_c(c.p, cy), r),
                    mem: spec_write_next(m1, addr, r),
                    ..c
                }
            }
        },
        Mnemonic::RRA => {
            let (r, cy) = spec_displace(
                Displacement::Rotation(Direction::Right, c.p & 0x01 != 0),
                v,
            );
            let p1 = spec_zn(spec_set_c(c.p, cy), r);
            let m2 = spec_write_next(m1, addr, r);
            let v2 = spec_read_val(m2, addr);
            let m3 = spec_read_next(m2, addr);
            let (sum, p2) = spec_adc(c.a, p1, v2);
            CoreModel { a: sum, p: spec_zn(p2, sum), mem: m3, ..c }
        },
        Mnemonic::RTI => {
            let (c1, r) = spec_pull(c);
            let c2 = CoreModel { p: ((r | 0x20) & !0x10) as u8, ..c1 };
            let (c3, w) = spec_pull16(c2);
            CoreModel { pc: w, ..c3 }
        },
        Mnemonic::RTS => {
            let (c1, w) = spec_pull16(c);
            CoreModel { pc: w.wrapping_add(1), ..c1 }
        },
        Mnemonic::SAX => CoreModel { mem: spec_write_next(c.mem, addr, (c.a & c.x) as u8), ..c },
        Mnemonic::SBC => {
            let (r, p1) = spec_adc(c.a, c.p, spec_sbc_operand(v));
            CoreModel { a: r, p: spec_zn(p1, r), mem: m1, ..c }
        },
        Mnemonic::SEC => CoreModel { p: (c.p | 0x01) as u8, ..c },
        Mnemonic::SED => CoreModel { p: (c.p | 0x08) as u8, ..c },
        Mnemonic::SEI => CoreModel { p: (c.p | 0x04) as u8, ..c },
        Mnemonic::SLO => {
            let (r, cy) = spec_displace(Displacement::Shift(Direction::Left), v);
            let p1 = spec_zn(spec_set_c(c.p, cy), r);
            let m2 = spec_write_next(m1, addr, r);
            let v2 = spec_read_val(m2, addr);
            let m3 = spec_read_next(m2, addr);
            let a1 = (c.a | v2) as u8;
            CoreModel { a: a1, p: spec_zn(p1, a1), mem: m3, ..c }
        },
        Mnemonic::SRE => {
            let (r, cy) = spec_displace(Displacement::Shift(Direction::Right), v);
            let p1 = spec_zn(spec_set_c(c.p, cy), r);
            let m2 = spec_write_next(m1, addr, r);
            let v2 = spec_read_val(m2, addr);
            let m3 = spec_read_next(m2, addr);
            let a1 = (c.a ^ v2) as u8;
            CoreModel { a: a1, p: spec_zn(p1, a1), mem: m3, ..c }
        },
        Mnemonic::STA => CoreModel { mem: spec_write_next(c.mem, addr, c.a), ..c },
        Mnemonic::STX => CoreModel { mem: spec_write_next(c.mem, addr, c.x), ..c },
        Mnemonic::STY => CoreModel { mem: spec_write_next(c.mem, addr, c.y), ..c },
        Mnemonic::TAX => CoreModel { x: c.a, p: spec_zn(c.p, c.a), ..c },
        Mnemonic::TAY => CoreModel { y: c.a, p: spec_zn(c.p, c.a), ..c },
        Mnemonic::TSX => CoreModel { x: c.sp, p: spec_zn(c.p, c.sp), ..c },
        Mnemonic::TXA => CoreModel { a: c.x, p: spec_zn(c.p, c.x), ..c },
        Mnemonic::TXS => CoreModel { sp: c.x, ..c },
        Mnemonic::TYA => CoreModel { a: c.y, p: spec_zn(c.p, c.y), ..c },
    }
}

/// True when every memory access an instruction makes is defined, stage by
/// stage: its reads, its writes, and for the read-modify-write forms the
/// write into the state the first read left and the read back out of the
/// written state.
pub open spec fn spec_execute_ok(c: CoreModel, op: OpCode, addr: u16, crossed: bool) -> bool {
    let read1 = spec_read_ok(c.mem, addr);
    let m1 = spec_read_next(c.mem, addr);
    let rmw = read1 && spec_write_ok(m1, addr);
    match op.mnemonic {
        Mnemonic::ADC | Mnemonic::AND | Mnemonic::BIT | Mnemonic::CMP | Mnemonic::CPX
            | Mnemonic::CPY | Mnemonic::EOR | Mnemonic::LAX | Mnemonic::LDA | Mnemonic::LDX
            | Mnemonic::LDY | Mnemonic::ORA | Mnemonic::SBC => read1,
        Mnemonic::ASL | Mnemonic::LSR | Mnemonic::ROL | Mnemonic::ROR => op.addressing_mode is ACC
            || rmw,
        Mnemonic::INC => rmw && spec_read_ok(
            spec_write_next(m1, addr, spec_read_val(c.mem, addr).wrapping_add(1)),
            addr,
        ),
        Mnemonic::DEC | Mnemonic::DCP => rmw && spec_read_ok(
            spec_write_next(m1, addr, spec_read_val(c.mem, addr).wrapping_sub(1)),
            addr,
        ),
        Mnemonic::ISB => rmw,
        Mnemonic::SLO => rmw && spec_read_ok(
            spec_write_next(
                m1,
                addr,
                spec_displace(
                    Displacement::Shift(Direction::Left),
                    spec_read_val(c.mem, addr),
                ).0,
            ),
            addr,
        ),
        Mnemonic::SRE => rmw && spec_read_ok(
            spec_write_next(
                m1,
                addr,
                spec_displace(
                    Displacement::Shift(Direction::Right),
                    spec_read_val(c.mem, addr),
                ).0,
            ),
            addr,
        ),
        Mnemonic::RLA => rmw && spec_read_ok(
            spec_write_next(
                m1,
                addr,
                spec_displace(
                    Displacement::Rotation(Direction::Left, c.p & 0x01 != 0),
                    spec_read_val(c.mem, addr),
                ).0,
            ),
            addr,
        ),
        Mnemonic::RRA => rmw && spec_read_ok(
            spec_write_next(
                m1,
                addr,
                spec_displace(
                    Displacement::Rotation(Direction::Right, c.p & 0x01 != 0),
                    spec_read_val(c.mem, addr),
                ).0,
            ),
            addr,
        ),
        Mnemonic::SAX | Mnemonic::STA | Mnemonic::STX | Mnemonic::STY => spec_write_ok(
            c.mem,
            addr,
        ),
        _ => true,
    }
}

/// True when a whole tick's accesses are defined: the opcode fetch after the
/// interrupt check, and, when the byte decodes, the operand fetches and the
/// instruction's own accesses.
pub open spec fn spec_tick_ok(c: CoreModel) -> bool {
    let (c1, pend) = spec_handle_interrupt(c);
    &&& spec_peek_ok(c1.mem, c1.pc)
    &&& match spec_opcode(spec_peek_val(c1.mem, c1.pc)) {
        Some(op) => {
            let c2 = CoreModel { pc: c1.pc.wrapping_add(1), ..c1 };
            let (addr, crossed) = spec_resolve(op.addressing_mode, c2);
            spec_resolve_ok(op.addressing_mode, c2) && spec_execute_ok(c2, op, addr, crossed)
        },
        None => true,
    }
}

/// One whole tick: the interrupt check, the fetch, and either the decode
/// error or the instruction's work followed by the program-counter advance
/// and the cycle charge. BRK halts at once: it skips the tail and reports
/// itself. The interrupt serviced at the top is what a completed tick
/// reports.
pub open spec fn spec_tick(c: CoreModel) -> (CoreModel, Result<InterruptFlag, NoveError>) {
    let (c1, pend) = spec_handle_interrupt(c);
    let byte = spec_peek_val(c1.mem, c1.pc);
    let c2 = CoreModel { pc: c1.pc.wrapping_add(1), ..c1 };
    match spec_opcode(byte) {
        None => (c2, Err(NoveError::WrongOpCode(byte))),
        Some(op) => {
            if op.mnemonic is BRK {
                (c2, Ok(InterruptFlag::BRK))
            } else {
                let (addr, crossed) = spec_resolve(op.addressing_mode, c2);
                let c3 = spec_execute(c2, op, addr, crossed);
                let c4 = CoreModel { pc: c3.pc.wrapping_add((op.bytes - 1) as u16), ..c3 };
                let c5 = CoreModel { mem: spec_tick_next(c4.mem, spec_cycles(op, crossed)), ..c4 };
                (c5, Ok(pend))
            }
        },
    }
}


impl<M: Memory> NoveCore<M> {
    /// One instruction's worth of work: service a pending NMI, fetch and
    /// decode the opcode under the program counter, resolve its address,
    /// execute it, advance the program counter and charge the bus the
    /// instruction's cycles. Returns the interrupt that was consumed, `BRK`
    /// when the halt opcode ran, or the undecodable byte as an error.
    pub fn tick(&mut self) -> (r: Result<InterruptFlag, NoveError>)
        requires
            old(self).inv(),
            spec_tick_ok(old(self).m()),
        ensures
            final(self).inv(),
            ({
                let (post, res) = spec_tick(old(self).m());
                final(self).m() == post && r == res
            }),
    {
        let interrupt = self.handle_interrupt();

        let byte = self.read_pc();
        let opcode = match opcode_lookup(byte) {
            Some(op) => op,
            None => {
                return Err(NoveError::WrongOpCode(byte));
            },
        };
        proof {
            crate::instruction::lemma_decode_unique_and_nonempty();
        }
        let (addr, page_crossed) = self.get_addr(&opcode.addressing_mode);

        if matches!(opcode.mnemonic, Mnemonic::BRK) {
            return Ok(InterruptFlag::BRK);
        }
        self.execute(opcode, addr, page_crossed);

        self.pc = self.pc.wrapping_add((opcode.bytes - 1) as u16);
        self.memory.tick(opcode.cycles(page_crossed));
        Ok(interrupt)
    }

    /// Runs one decoded instruction against the resolved address. BRK does
    /// nothing here: the tick halts on it before calling.
    fn execute(&mut self, op: OpCode, addr: u16, page_crossed: bool)
        requires
            old(self).inv(),
            spec_execute_ok(old(self).m(), op, addr, page_crossed),
        ensures
            final(self).inv(),
            final(self).m() == spec_execute(old(self).m(), op, addr, page_crossed),
    {
        match op.mnemonic {
            Mnemonic::ADC | Mnemonic::AND | Mnemonic::BIT | Mnemonic::CMP | Mnemonic::CPX | Mnemonic::CPY | Mnemonic::EOR | Mnemonic::LAX | Mnemonic::LDA | Mnemonic::LDX | Mnemonic::LDY | Mnemonic::ORA | Mnemonic::SBC | Mnemonic::SAX | Mnemonic::STA | Mnemonic::STX | Mnemonic::STY => self.execute_access(op, addr, page_crossed),
            Mnemonic::ASL | Mnemonic::LSR | Mnemonic::ROL | Mnemonic::ROR | Mnemonic::INC | Mnemonic::DEC | Mnemonic::DCP | Mnemonic::ISB | Mnemonic::SLO | Mnemonic::SRE | Mnemonic::RLA | Mnemonic::RRA => self.execute_rmw(op, addr, page_crossed),
            _ => self.execute_rest(op, addr, page_crossed),
        }
    }

    /// Runs the plain load, store and read-operate instructions.
    #[verifier::rlimit(100)]
    fn execute_access(&mut self, op: OpCode, addr: u16, page_crossed: bool)
        requires
            old(self).inv(),
            spec_execute_ok(old(self).m(), op, addr, page_crossed),
            ({ op.mnemonic is ADC || op.mnemonic is AND || op.mnemonic is BIT || op.mnemonic is CMP || op.mnemonic is CPX || op.mnemonic is CPY || op.mnemonic is EOR || op.mnemonic is LAX || op.mnemonic is LDA || op.mnemonic is LDX || op.mnemonic is LDY || op.mnemonic is ORA || op.mnemonic is SBC || op.mnemonic is SAX || op.mnemonic is STA || op.mnemonic is STX || op.mnemonic is STY }),
        ensures
            final(self).inv(),
            final(self).m() == spec_execute(old(self).m(), op, addr, page_crossed),
    {
        match op.mnemonic {
            Mnemonic::ADC => {
                let v = self.memory.read(addr);
                let sum = self.adc(v);
                self.a.assign(sum);
                self.update_zn(sum);
            },
            Mnemonic::AND => {
                let v = self.memory.read(addr);
                let r = self.a.get() & v;
                self.a.assign(r);
                self.update_zn(r);
            },
            Mnemonic::BIT => {
                let v = self.memory.read(addr);
                self.bit_test(v);
            },
            Mnemonic::CMP => {
                let v = self.memory.read(addr);
                let reg = self.a.get();
                self.ps.set_bit(StatusFlag::Carry, v <= reg);
                self.update_zn(reg.wrapping_sub(v));
            },
            Mnemonic::CPX => {
                let v = self.memory.read(addr);
                let reg = self.x.get();
                self.ps.set_bit(StatusFlag::Carry, v <= reg);
                self.update_zn(reg.wrapping_sub(v));
            },
            Mnemonic::CPY => {
                let v = self.memory.read(addr);
                let reg = self.y.get();
                self.ps.set_bit(StatusFlag::Carry, v <= reg);
                self.update_zn(reg.wrapping_sub(v));
            },
            Mnemonic::EOR => {
                let v = self.memory.read(addr);
                let r = self.a.get() ^ v;
                self.a.assign(r);
                self.update_zn(r);
            },
            Mnemonic::LAX => {
                let v = self.memory.read(addr);
                self.a.assign(v);
                self.update_zn(v);
                let r = self.a.get();
                self.x.assign(r);
                self.update_zn(r);
            },
            Mnemonic::LDA => {
                let v = self.memory.read(addr);
                self.a.assign(v);
                self.update_zn(v);
            },
            Mnemonic::LDX => {
                let v = self.memory.read(addr);
                self.x.assign(v);
                self.update_zn(v);
            },
            Mnemonic::LDY => {
                let v = self.memory.read(addr);
                self.y.assign(v);
                self.update_zn(v);
            },
            Mnemonic::ORA => {
                let v = self.memory.read(addr);
                let r = self.a.get() | v;
                self.a.assign(r);
                self.update_zn(r);
            },
            Mnemonic::SBC => {
                let v = self.memory.read(addr);
                let diff = self.sbc(v);
                self.a.assign(diff);
                self.update_zn(diff);
            },
            Mnemonic::SAX => {
                let v = self.a.get() & self.x.get();
                self.memory.write(addr, v);
            },
            Mnemonic::STA => {
                let v = self.a.get();
                self.memory.write(addr, v);
            },
            Mnemonic::STX => {
                let v = self.x.get();
                self.memory.write(addr, v);
            },
            Mnemonic::STY => {
                let v = self.y.get();
                self.memory.write(addr, v);
            },
            _ => vstd::pervasive::unreached(),
        }
    }

    /// Runs the read-modify-write instructions.
    #[verifier::rlimit(100)]
    fn execute_rmw(&mut self, op: OpCode, addr: u16, page_crossed: bool)
        requires
            old(self).inv(),
            spec_execute_ok(old(self).m(), op, addr, page_crossed),
            ({ op.mnemonic is ASL || op.mnemonic is LSR || op.mnemonic is ROL || op.mnemonic is ROR || op.mnemonic is INC || op.mnemonic is DEC || op.mnemonic is DCP || op.mnemonic is ISB || op.mnemonic is SLO || op.mnemonic is SRE || op.mnemonic is RLA || op.mnemonic is RRA }),
        ensures
            final(self).inv(),
            final(self).m() == spec_execute(old(self).m(), op, addr, page_crossed),
    {
        match op.mnemonic {
            Mnemonic::ASL => {
                if matches!(op.addressing_mode, AddressingMode::ACC) {
                    self.displace_acc(Displacement::Shift(Direction::Left));
                } else {
                    self.displace_mem(Displacement::Shift(Direction::Left), addr);
                }
            },
            Mnemonic::LSR => {
                if matches!(op.addressing_mode, AddressingMode::ACC) {
                    self.displace_acc(Displacement::Shift(Direction::Right));
                } else {
                    self.displace_mem(Displacement::Shift(Direction::Right), addr);
                }
            },
            Mnemonic::ROL => {
                let carry = self.ps.is_raised(StatusFlag::Carry);
                if matches!(op.addressing_mode, AddressingMode::ACC) {
                    self.displace_acc(Displacement::Rotation(Direction::Left, carry));
                } else {
                    self.displace_mem(Displacement::Rotation(Direction::Left, carry), addr);
                }
            },
            Mnemonic::ROR => {
                let carry = self.ps.is_raised(StatusFlag::Carry);
                if matches!(op.addressing_mode, AddressingMode::ACC) {
                    self.displace_acc(Displacement::Rotation(Direction::Right, carry));
                } else {
                    self.displace_mem(Displacement::Rotation(Direction::Right, carry), addr);
                }
            },
            Mnemonic::INC => {
                let v = self.memory.read(addr);
                self.memory.write(addr, v.wrapping_add(1));
                let v2 = self.memory.read(addr);
                self.update_zn(v2);
            },
            Mnemonic::DEC => {
                let v = self.memory.read(addr);
                self.memory.write(addr, v.wrapping_sub(1));
                let v2 = self.memory.read(addr);
                self.update_zn(v2);
            },
            Mnemonic::DCP => {
                let v = self.memory.read(addr);
                self.memory.write(addr, v.wrapping_sub(1));
                let v2 = self.memory.read(addr);
                let reg = self.a.get();
                self.ps.set_bit(StatusFlag::Carry, v2 <= reg);
                self.update_zn(reg.wrapping_sub(v2));
            },
            Mnemonic::ISB => {
                let v = self.memory.read(addr);
                let result = v.wrapping_add(1);
                self.memory.write(addr, result);
                let diff = self.sbc(result);
                self.a.assign(diff);
                self.update_zn(diff);
            },
            Mnemonic::SLO => {
                self.displace_mem(Displacement::Shift(Direction::Left), addr);
                let v2 = self.memory.read(addr);
                let r = self.a.get() | v2;
                self.a.assign(r);
                self.update_zn(r);
            },
            Mnemonic::SRE => {
                self.displace_mem(Displacement::Shift(Direction::Right), addr);
                let v2 = self.memory.read(addr);
                let r = self.a.get() ^ v2;
                self.a.assign(r);
                self.update_zn(r);
            },
            Mnemonic::RLA => {
                let carry = self.ps.is_raised(StatusFlag::Carry);
                self.displace_mem(Displacement::Rotation(Direction::Left, carry), addr);
                let v2 = self.memory.read(addr);
                let r = self.a.get() & v2;
                self.a.assign(r);
                self.update_zn(r);
            },
            Mnemonic::RRA => {
                let carry = self.ps.is_raised(StatusFlag::Carry);
                self.displace_mem(Displacement::Rotation(Direction::Right, carry), addr);
                let v2 = self.memory.read(addr);
                let sum = self.adc(v2);
                self.a.assign(sum);
                self.update_zn(sum);
            },
            _ => vstd::pervasive::unreached(),
        }
    }

    /// Runs the branch, jump, stack, flag and transfer instructions.
    #[verifier::rlimit(100)]
    fn execute_rest(&mut self, op: OpCode, addr: u16, page_crossed: bool)
        requires
            old(self).inv(),
            spec_execute_ok(old(self).m(), op, addr, page_crossed),
            ({ op.mnemonic is BRK || op.mnemonic is BCC || op.mnemonic is BCS || op.mnemonic is BEQ || op.mnemonic is BMI || op.mnemonic is BNE || op.mnemonic is BPL || op.mnemonic is BVC || op.mnemonic is BVS || op.mnemonic is CLC || op.mnemonic is CLD || op.mnemonic is CLI || op.mnemonic is CLV || op.mnemonic is DEX || op.mnemonic is DEY || op.mnemonic is INX || op.mnemonic is INY || op.mnemonic is JMP || op.mnemonic is JSR || op.mnemonic is NOP || op.mnemonic is PHA || op.mnemonic is PHP || op.mnemonic is PLA || op.mnemonic is PLP || op.mnemonic is RTI || op.mnemonic is RTS || op.mnemonic is SEC || op.mnemonic is SED || op.mnemonic is SEI || op.mnemonic is TAX || op.mnemonic is TAY || op.mnemonic is TSX || op.mnemonic is TXA || op.mnemonic is TXS || op.mnemonic is TYA }),
        ensures
            final(self).inv(),
            final(self).m() == spec_execute(old(self).m(), op, addr, page_crossed),
    {
        match op.mnemonic {
            Mnemonic::BRK => {},
            Mnemonic::BCC => {
                let cond = self.ps.is_lowered(StatusFlag::Carry);
                self.branch_if(cond, addr, page_crossed);
            },
            Mnemonic::BCS => {
                let cond = self.ps.is_raised(StatusFlag::Carry);
                self.branch_if(cond, addr, page_crossed);
            },
            Mnemonic::BEQ => {
                let cond = self.ps.is_raised(StatusFlag::Zero);
                self.branch_if(cond, addr, page_crossed);
            },
            Mnemonic::BMI => {
                let cond = self.ps.is_raised(StatusFlag::Negative);
                self.branch_if(cond, addr, page_crossed);
            },
            Mnemonic::BNE => {
                let cond = self.ps.is_lowered(StatusFlag::Zero);
                self.branch_if(cond, addr, page_crossed);
            },
            Mnemonic::BPL => {
                let cond = self.ps.is_lowered(StatusFlag::Negative);
                self.branch_if(cond, addr, page_crossed);
            },
            Mnemonic::BVC => {
                let cond = self.ps.is_lowered(StatusFlag::Overflow);
                self.branch_if(cond, addr, page_crossed);
            },
            Mnemonic::BVS => {
                let cond = self.ps.is_raised(StatusFlag::Overflow);
                self.branch_if(cond, addr, page_crossed);
            },
            Mnemonic::CLC => self.ps.set_bit(StatusFlag::Carry, false),
            Mnemonic::CLD => self.ps.set_bit(StatusFlag::Decimal, false),
            Mnemonic::CLI => self.ps.set_bit(StatusFlag::Interrupt, false),
            Mnemonic::CLV => self.ps.set_bit(StatusFlag::Overflow, false),
            Mnemonic::DEX => {
                let r = self.x.get().wrapping_sub(1);
                self.x.assign(r);
                self.update_zn(r);
            },
            Mnemonic::DEY => {
                let r = self.y.get().wrapping_sub(1);
                self.y.assign(r);
                self.update_zn(r);
            },
            Mnemonic::INX => {
                let r = self.x.get().wrapping_add(1);
                self.x.assign(r);
                self.update_zn(r);
            },
            Mnemonic::INY => {
                let r = self.y.get().wrapping_add(1);
                self.y.assign(r);
                self.update_zn(r);
            },
            Mnemonic::JMP => {
                self.pc = addr;
            },
            Mnemonic::JSR => {
                proof {
                    crate::memory::lemma_stack_addr_ok(self.m().mem, self.m().sp);
                    crate::memory::lemma_write_next_wf(
                        self.m().mem,
                        STACK_PAGE | self.m().sp as u16,
                        (self.m().pc.wrapping_add(1) >> 8) as u8,
                    );
                    crate::memory::lemma_stack_addr_ok(
                        spec_push(self.m(), (self.m().pc.wrapping_add(1) >> 8) as u8).mem,
                        self.m().sp.wrapping_sub(1),
                    );
                }
                let target = self.pc.wrapping_add(1);
                self.stack_push_u16(target);
                self.pc = addr;
            },
            Mnemonic::NOP => {},
            Mnemonic::PHA => {
                proof {
                    crate::memory::lemma_stack_addr_ok(self.m().mem, self.m().sp);
                }
                let v = self.a.get();
                self.stack_push(v);
            },
            Mnemonic::PHP => {
                proof {
                    crate::memory::lemma_stack_addr_ok(self.m().mem, self.m().sp);
                }
                let v = self.ps.get_for_push();
                self.stack_push(v);
            },
            Mnemonic::PLA => {
                proof {
                    crate::memory::lemma_stack_addr_ok(self.m().mem, self.m().sp.wrapping_add(1));
                }
                let v = self.stack_pull();
                self.a.assign(v);
                self.update_zn(v);
            },
            Mnemonic::PLP => {
                proof {
                    crate::memory::lemma_stack_addr_ok(self.m().mem, self.m().sp.wrapping_add(1));
                }
                self.pull_ps();
            },
            Mnemonic::RTI => {
                proof {
                    crate::memory::lemma_stack_addr_ok(self.m().mem, self.m().sp.wrapping_add(1));
                }
                self.pull_ps();
                proof {
                    crate::memory::lemma_stack_addr_ok(self.m().mem, self.m().sp.wrapping_add(2));
                    stack_word_peek_ok(self.m().mem, self.m().sp.wrapping_add(2));
                }
                let val = self.stack_pull_u16();
                self.pc = val;
            },
            Mnemonic::RTS => {
                proof {
                    crate::memory::lemma_stack_addr_ok(self.m().mem, self.m().sp.wrapping_add(2));
                    stack_word_peek_ok(self.m().mem, self.m().sp.wrapping_add(2));
                }
                let val = self.stack_pull_u16();
                self.pc = val.wrapping_add(1);
            },
            Mnemonic::SEC => self.ps.set_bit(StatusFlag::Carry, true),
            Mnemonic::SED => self.ps.set_bit(StatusFlag::Decimal, true),
            Mnemonic::SEI => self.ps.set_bit(StatusFlag::Interrupt, true),
            Mnemonic::TAX => {
                self.x.transfer(&self.a);
                let r = self.x.get();
                self.update_zn(r);
            },
            Mnemonic::TAY => {
                self.y.transfer(&self.a);
                let r = self.y.get();
                self.update_zn(r);
            },
            Mnemonic::TSX => {
                let r = self.sp.0;
                self.x.assign(r);
                self.update_zn(r);
            },
            Mnemonic::TXA => {
                self.a.transfer(&self.x);
                let r = self.a.get();
                self.update_zn(r);
            },
            Mnemonic::TXS => {
                self.sp.0 = self.x.get();
            },
            Mnemonic::TYA => {
                self.a.transfer(&self.y);
                let r = self.a.get();
                self.update_zn(r);
            },
            _ => vstd::pervasive::unreached(),
        }
    }

    /// Displaces the accumulator, storing the dropped bit in the carry and
    /// setting zero and negative from the result.
    fn displace_acc(&mut self, d: Displacement)
        ensures
            ({
                let (r, cy) = spec_displace(d, old(self).a.0);
                &&& final(self).a.0 == r
                &&& final(self).ps.0 == spec_zn(spec_set_c(old(self).ps.0, cy), r)
            }),
            final(self).pc == old(self).pc,
            final(self).sp == old(self).sp,
            final(self).x == old(self).x,
            final(self).y == old(self).y,
            final(self).memory == old(self).memory,
    {
        let val = self.a.get();
        let (val2, carry) = d.displace(val);
        self.ps.set_bit(StatusFlag::Carry, carry);
        self.a.assign(val2);
        self.update_zn(val2);
    }

    /// Displaces a memory byte in place: read, displace, store the carry,
    /// write back, and set zero and negative from the new byte.
    fn displace_mem(&mut self, d: Displacement, addr: u16)
        requires
            old(self).inv(),
            spec_read_ok(old(self).m().mem, addr),
            spec_write_ok(spec_read_next(old(self).m().mem, addr), addr),
        ensures
            final(self).inv(),
            ({
                let v = spec_read_val(old(self).m().mem, addr);
                let m1 = spec_read_next(old(self).m().mem, addr);
                let (r, cy) = spec_displace(d, v);
                final(self).m() == (CoreModel {
                    p: spec_zn(spec_set_c(old(self).m().p, cy), r),
                    mem: spec_write_next(m1, addr, r),
                    ..old(self).m()
                })
            }),
    {
        let val = self.memory.read(addr);
        let (val2, carry) = d.displace(val);
        self.ps.set_bit(StatusFlag::Carry, carry);
        self.memory.write(addr, val2);
        self.update_zn(val2);
    }
}

/// Both bytes a stack word pull reads lie below the register window.
proof fn stack_word_peek_ok(m: MemModel, sp: u8)
    requires
        spec_mem_wf(m),
    ensures
        spec_peek_ok(m, (0x0100u16 | sp as u16).wrapping_sub(1)),
{
    let s = sp as u16;
    assert((0x0100u16 | s).wrapping_sub(1) <= 0x1fff) by (bit_vector)
        requires
            s <= 0xff,
    ;
}


impl NesNoveCore {
    /// A CPU wired to a bus holding the given cartridge; registers cleared,
    /// ready for a reset.
    pub fn new(rom: Rom) -> (r: Self)
        requires
            rom.prg_rom.len() == 0x4000 || rom.prg_rom.len() == 0x8000,
        ensures
            r.inv(),
            r.m() == (CoreModel {
                pc: 0,
                sp: 0xff,
                a: 0,
                x: 0,
                y: 0,
                p: 0,
                mem: MemModel::Nes {
                    ram: Seq::new(0x800, |i: int| 0u8),
                    prg: rom.prg_rom@,
                    ppu: crate::ppu::spec_ppu_init(rom.chr_rom@, rom.screen_mirroring),
                },
            }),
    {
        NoveCore {
            pc: 0,
            sp: StackPointer::default(),
            a: Register(0),
            x: Register(0),
            y: Register(0),
            ps: ProcessorStatus::default(),
            memory: Bus::new(rom),
        }
    }
}

impl Core6502 {
    /// A CPU over a zeroed flat memory.
    pub fn new() -> (r: Self)
        ensures
            r.inv(),
            r.m() == (CoreModel {
                pc: 0,
                sp: 0xff,
                a: 0,
                x: 0,
                y: 0,
                p: 0,
                mem: MemModel::Flat { mem: Seq::new(0xffff, |i: int| 0u8) },
            }),
    {
        NoveCore {
            pc: 0,
            sp: StackPointer::default(),
            a: Register(0),
            x: Register(0),
            y: Register(0),
            ps: ProcessorStatus::default(),
            memory: CpuMem::new(),
        }
    }

    /// Copies a program into the ROM window and points the reset vector at
    /// it.
    pub fn load(&mut self, rom: Program)
        requires
            old(self).inv(),
            rom.len() <= 0x7fff,
        ensures
            final(self).inv(),
            final(self).m() == (CoreModel {
                mem: MemModel::Flat {
                    mem: old(self).m().mem->mem.take(PRG_ROM_START as int).add(rom@).add(
                        old(self).m().mem->mem.skip(PRG_ROM_START + rom.len()),
                    ).update(PC_START as int, 0u8).update(PC_START + 1, 0x80u8),
                },
                ..old(self).m()
            }),
    {
        self.memory.load_rom(rom);
    }

    /// Copies a demo program to 0x0600 and points the reset vector at it,
    /// the way the snake demo image expects to be started.
    pub fn snake_load(&mut self, rom: Program)
        requires
            old(self).inv(),
            rom.len() <= 0xf9ff,
        ensures
            final(self).inv(),
            final(self).m() == (CoreModel {
                mem: MemModel::Flat {
                    mem: old(self).m().mem->mem.take(0x0600).add(rom@).add(
                        old(self).m().mem->mem.skip(0x0600 + rom.len()),
                    ).update(PC_START as int, 0u8).update(PC_START + 1, 0x06u8),
                },
                ..old(self).m()
            }),
    {
        let ghost pre = self.memory.0@;
        let mut i: usize = 0;
        while i < rom.len()
            invariant
                self.memory.0.len() == 0xffff,
                self.pc == old(self).pc,
                self.sp == old(self).sp,
                self.a == old(self).a,
                self.x == old(self).x,
                self.y == old(self).y,
                self.ps == old(self).ps,
                i <= rom.len() <= 0xf9ff,
                self.memory.0@ == pre.take(0x0600).add(rom@.take(i as int)).add(
                    pre.skip(0x0600 + i),
                ),
                pre.len() == 0xffff,
            decreases rom.len() - i,
        {
            self.memory.0.set(0x0600 + i, rom[i]);
            proof {
                assert(self.memory.0@ =~= pre.take(0x0600).add(rom@.take(i + 1)).add(
                    pre.skip(0x0600 + i + 1),
                ));
            }
            i = i + 1;
        }
        proof {
            assert(rom@.take(rom.len() as int) =~= rom@);
        }
        self.memory.write_u16(PC_START, 0x0600);
        proof {
            assert(0x0600u16 as u8 == 0u8) by (bit_vector);
            assert((0x0600u16 >> 8) as u8 == 6u8) by (bit_vector);
            assert(PC_START.wrapping_add(1) == 0xfffdu16) by (bit_vector);
            assert(self.m().mem->mem =~= old(self).m().mem->mem.take(0x0600).add(rom@).add(
                old(self).m().mem->mem.skip(0x0600 + rom.len()),
            ).update(PC_START as int, 0u8).update(PC_START + 1, 0x06u8));
        }
    }
}

/// The absolute address an addressing mode names when its operand bytes sit
/// at `addr`, the way the instruction tracer reports it. Only the modes
/// with a memory operand are meaningful here.
pub open spec fn spec_absolute_address(
    mode: AddressingMode,
    m: MemModel,
    addr: u16,
    x: u8,
    y: u8,
) -> u16 {
    match mode {
        AddressingMode::ABS => spec_peek16(m, addr),
        AddressingMode::ABX => spec_peek16(m, addr).wrapping_add(x as u16),
        AddressingMode::ABY => spec_peek16(m, addr).wrapping_add(y as u16),
        AddressingMode::ZPG => spec_peek_val(m, addr) as u16,
        AddressingMode::ZPX => spec_peek_val(m, addr).wrapping_add(x) as u16,
        AddressingMode::ZPY => spec_peek_val(m, addr).wrapping_add(y) as u16,
        AddressingMode::IDX => spec_zp_ptr(m, spec_peek_val(m, addr).wrapping_add(x)),
        AddressingMode::IDY => spec_zp_ptr(m, spec_peek_val(m, addr)).wrapping_add(y as u16),
        _ => 0,
    }
}

/// Computes the absolute address a memory-operand mode names at `addr`, for
/// the instruction tracer.
pub fn get_absolute_address<M: Memory>(core: &NoveCore<M>, mode: &AddressingMode, addr: u16) -> (r:
    u16)
    requires
        core.inv(),
        !(*mode is IMM || *mode is IMP || *mode is REL || *mode is ACC || *mode is IND),
        spec_peek_ok(core.m().mem, addr),
        (*mode is ABS || *mode is ABX || *mode is ABY) ==> spec_peek_ok(
            core.m().mem,
            addr.wrapping_add(1),
        ),
    ensures
        r == spec_absolute_address(*mode, core.m().mem, addr, core.m().x, core.m().y),
{
    match mode {
        AddressingMode::ABS => core.memory.read_u16(addr),
        AddressingMode::ABX => core.memory.read_u16(addr).wrapping_add(core.x.get() as u16),
        AddressingMode::ABY => core.memory.read_u16(addr).wrapping_add(core.y.get() as u16),
        AddressingMode::ZPG => core.memory.peek(addr) as u16,
        AddressingMode::ZPX => core.memory.peek(addr).wrapping_add(core.x.get()) as u16,
        AddressingMode::ZPY => core.memory.peek(addr).wrapping_add(core.y.get()) as u16,
        AddressingMode::IDX => {
            let ptr = core.memory.peek(addr).wrapping_add(core.x.get());
            zp_ptr(core, ptr)
        },
        AddressingMode::IDY => {
            let ptr = core.memory.peek(addr);
            zp_ptr(core, ptr).wrapping_add(core.y.get() as u16)
        },
        _ => vstd::pervasive::unreached(),
    }
}

/// Follows a zero-page pointer, the high byte wrapping within the page.
fn zp_ptr<M: Memory>(core: &NoveCore<M>, p: u8) -> (r: u16)
    requires
        core.inv(),
    ensures
        r == spec_zp_ptr(core.m().mem, p),
{
    proof {
        zero_page_peek_ok(core.m().mem, p);
        zero_page_peek_ok(core.m().mem, p.wrapping_add(1));
    }
    let lo = core.memory.peek(p as u16);
    let hi = core.memory.peek(p.wrapping_add(1) as u16);
    ((hi as u16) << 8) | (lo as u16)
}

/// Pushing a byte and pulling again returns the byte and restores the
/// stack pointer, whatever else the CPU holds.
pub proof fn lemma_stack_round_trip(c: CoreModel, v: u8)
    requires
        spec_mem_wf(c.mem),
    ensures
        spec_pull(spec_push(c, v)).1 == v,
        spec_pull(spec_push(c, v)).0.sp == c.sp,
        spec_pull(spec_push(c, v)).0.pc == c.pc,
        spec_pull(spec_push(c, v)).0.a == c.a,
        spec_pull(spec_push(c, v)).0.x == c.x,
        spec_pull(spec_push(c, v)).0.y == c.y,
        spec_pull(spec_push(c, v)).0.p == c.p,
{
    let s = c.sp as u16;
    let a = 0x0100u16 | s;
    assert(a <= 0x1fff && !(0x2008 <= a <= 0x3fff) && a < 0x8000 && (a & 0x7ff) < 0x800)
        by (bit_vector)
        requires
            s <= 0xff && a == 0x0100u16 | s,
    ;
    assert(c.sp.wrapping_sub(1).wrapping_add(1) == c.sp);
    match c.mem {
        MemModel::Flat { mem } => {},
        MemModel::Nes { ram, prg, ppu } => {},
    }
}

/// The indirect-jump hardware bug: when the pointer's low byte is 0xFF the
/// effective address combines the byte at the pointer with the byte at the
/// start of the pointer's own page, not the next page's first byte.
pub proof fn lemma_indirect_jmp_bug(c: CoreModel, t: u16)
    requires
        spec_peek16(c.mem, c.pc) == t,
        t & 0x00ff == 0x00ff,
    ensures
        spec_resolve(AddressingMode::IND, c).0 == ((spec_peek_val(c.mem, t & 0xff00) as u16) << 8)
            | (spec_peek_val(c.mem, t) as u16),
{
}

/// What a branch costs: two extra bus cycles when taken across a page, one
/// when taken within a page, none when not taken; a taken branch moves the
/// program counter to the target, an untaken one leaves the CPU alone.
pub proof fn lemma_branch_cycles(c: CoreModel, taken: bool, addr: u16, crossed: bool)
    ensures
        !taken ==> spec_branch(c, taken, addr, crossed) == c,
        taken && !crossed ==> spec_branch(c, taken, addr, crossed) == (CoreModel {
            pc: addr,
            mem: spec_tick_next(c.mem, 1),
            ..c
        }),
        taken && crossed ==> spec_branch(c, taken, addr, crossed) == (CoreModel {
            pc: addr,
            mem: spec_tick_next(spec_tick_next(c.mem, 1), 1),
            ..c
        }),
        taken && crossed && c.mem is Nes ==> spec_branch(c, taken, addr, crossed).mem->ppu
            == crate::ppu::spec_ppu_ticks(c.mem->ppu, 6),
{
    if taken && crossed && c.mem is Nes {
        crate::ppu::lemma_ticks_compose(c.mem->ppu, 3, 3);
        assert(spec_branch(c, taken, addr, crossed).mem->ppu =~= crate::ppu::spec_ppu_ticks(
            c.mem->ppu,
            6,
        ));
    }
}

} // verus!
