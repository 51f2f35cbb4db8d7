//! The picture processing unit: its memory-mapped registers, VRAM, palette,
//! object attribute memory, scanline/dot timing and the vblank interrupt.
use crate::addresses::{CHROM_END, PALETTE_START, VRAM_END, VRAM_START};
use crate::cartridge::Mirroring;
use crate::interrupt::InterruptFlag;
use crate::ppu::address_register::AddressRegister;
use crate::ppu::controller_register::{spec_vram_stride, ControlFlags, ControllerRegister};
use crate::ppu::frame::Frame;
use crate::ppu::mask_register::MaskRegister;
use crate::ppu::oam::Oam;
use crate::ppu::palette_table::{spec_palette_fold, PaletteTable};
use crate::ppu::scroll_register::ScrollRegister;
use crate::ppu::status_register::{PpuStatusFlag, StatusRegister};
use crate::ppu::tile_reader::{spec_tile_values, TileReader};
use crate::register::{RegRead, RegWrite};
use crate::Program;
use vstd::prelude::*;

pub mod address_register;
pub mod controller_register;
pub mod frame;
pub mod mask_register;
pub mod oam;
pub mod palette_table;
pub mod scroll_register;
pub mod status_register;
pub mod tile_reader;

verus! {

/// Bytes of nametable VRAM.
pub const VRAM_SIZE: usize = 2048;

/// Bytes of one nametable.
pub const NAMETABLE_SIZE: u16 = 1024;

/// Bytes of one pattern-table bank.
pub const TILE_BANK_SIZE: u16 = 4096;

/// Dots per scanline.
pub const SCANLINE_CYCLES: usize = 341;

/// The scanline whose first dot raises vblank and may fire the NMI.
pub const NMI_SCANLINES: u16 = 241;

/// Scanlines per frame; reaching this line wraps back to line zero.
pub const SCANLINES_PER_FRAME: u16 = 262;

/// Tiles per frame row.
pub const TILES_PER_ROW: u32 = 32;

/// Tiles per frame.
pub const TILES_PER_FRAME: u32 = 960;

/// Bytes per tile in CHR ROM.
pub const TILE_BYTES_SIZE: u16 = 16;

/// The PPU as contracts see it: plain bytes, sequences and counters.
#[verifier::ext_equal]
pub ghost struct PpuModel {
    pub chr: Seq<u8>,
    pub ctrl: u8,
    pub mask: u8,
    pub status: u8,
    pub oam_addr: u8,
    pub oam: Seq<u8>,
    pub scroll_x: u8,
    pub scroll_y: u8,
    pub scroll_on_y: bool,
    pub addr_hi: u8,
    pub addr_lo: u8,
    pub addr_on_lo: bool,
    pub palette: Seq<u8>,
    pub vram: Seq<u8>,
    pub mirroring: Mirroring,
    pub buf: u8,
    pub scanline: u16,
    pub cycles: usize,
    pub pending: InterruptFlag,
}

/// The 16-bit address two latch bytes spell.
pub open spec fn spec_addr_of(hi: u8, lo: u8) -> u16 {
    ((hi as u16) << 8) | (lo as u16)
}

/// The latch bytes after adding `d` with carry from low into high, mirrored
/// down.
pub open spec fn spec_addr_inc(hi: u8, lo: u8, d: u8) -> (u8, u8) {
    (
        if lo as int + d as int > 0xff {
            hi.wrapping_add(1) & 0x3f
        } else {
            hi & 0x3f
        },
        lo.wrapping_add(d),
    )
}

/// Folds a nametable address into the 2 KiB of physical VRAM under the
/// cartridge's mirroring tag.
pub open spec fn spec_mirror_vram(mirroring: Mirroring, addr: u16) -> int {
    let vram = (addr & VRAM_END) - VRAM_START;
    let name_table = vram / (NAMETABLE_SIZE as int);
    vram - (if mirroring is Vertical && (name_table == 2 || name_table == 3) {
        2 * NAMETABLE_SIZE as int
    } else if mirroring is Horizontal && (name_table == 1 || name_table == 2) {
        NAMETABLE_SIZE as int
    } else if mirroring is Horizontal && name_table == 3 {
        2 * NAMETABLE_SIZE as int
    } else {
        0
    })
}

/// True when the folded nametable index lands inside physical VRAM. Only a
/// four-screen cartridge can point outside the console's 2 KiB.
pub open spec fn spec_vram_ok(mirroring: Mirroring, addr: u16) -> bool {
    0 <= spec_mirror_vram(mirroring, addr) < VRAM_SIZE
}

/// True when a read through the data port is defined: pattern space must
/// stay inside CHR ROM, nametable space inside physical VRAM, and palette
/// space inside the 32 mapped bytes.
pub open spec fn spec_data_read_ok(p: PpuModel) -> bool {
    let a = spec_addr_of(p.addr_hi, p.addr_lo);
    if a <= CHROM_END {
        a < p.chr.len()
    } else if a <= VRAM_END {
        spec_vram_ok(p.mirroring, a)
    } else {
        PALETTE_START <= a < PALETTE_START + 32
    }
}

/// What a read through the data port returns: pattern and nametable reads
/// return the previous buffer contents; palette reads skip the buffer.
pub open spec fn spec_data_read_val(p: PpuModel) -> u8 {
    let a = spec_addr_of(p.addr_hi, p.addr_lo);
    if a <= VRAM_END {
        p.buf
    } else {
        p.palette[spec_palette_fold(a) - PALETTE_START]
    }
}

/// The PPU after a read through the data port: the address advances by the
/// control-selected stride, and the buffer refills from the target region.
pub open spec fn spec_data_read_next(p: PpuModel) -> PpuModel {
    let a = spec_addr_of(p.addr_hi, p.addr_lo);
    let (nh, nl) = spec_addr_inc(p.addr_hi, p.addr_lo, spec_vram_stride(p.ctrl));
    let stepped = PpuModel { addr_hi: nh, addr_lo: nl, ..p };
    if a <= CHROM_END {
        PpuModel { buf: p.chr[a as int], ..stepped }
    } else if a <= VRAM_END {
        PpuModel { buf: p.vram[spec_mirror_vram(p.mirroring, a)], ..stepped }
    } else {
        stepped
    }
}

/// True when a write through the data port is defined. Pattern space takes
/// any address: the write is ignored there.
pub open spec fn spec_data_write_ok(p: PpuModel) -> bool {
    let a = spec_addr_of(p.addr_hi, p.addr_lo);
    if a <= CHROM_END {
        true
    } else if a <= VRAM_END {
        spec_vram_ok(p.mirroring, a)
    } else {
        PALETTE_START <= a < PALETTE_START + 32
    }
}

/// The PPU after a write through the data port: pattern space ignores the
/// byte, nametable space stores it through the mirroring fold, palette space
/// through the palette fold; the address then advances by the stride.
pub open spec fn spec_data_write_next(p: PpuModel, val: u8) -> PpuModel {
    let a = spec_addr_of(p.addr_hi, p.addr_lo);
    let (nh, nl) = spec_addr_inc(p.addr_hi, p.addr_lo, spec_vram_stride(p.ctrl));
    if a <= CHROM_END {
        PpuModel { addr_hi: nh, addr_lo: nl, ..p }
    } else if a <= VRAM_END {
        PpuModel {
            addr_hi: nh,
            addr_lo: nl,
            vram: p.vram.update(spec_mirror_vram(p.mirroring, a), val),
            ..p
        }
    } else {
        PpuModel {
            addr_hi: nh,
            addr_lo: nl,
            palette: p.palette.update(spec_palette_fold(a) - PALETTE_START, val),
            ..p
        }
    }
}

/// The PPU after a status read: vblank cleared, both double-write toggles
/// put back onto their first byte.
pub open spec fn spec_read_status_next(p: PpuModel) -> PpuModel {
    PpuModel { status: p.status & !0x80, addr_on_lo: false, scroll_on_y: false, ..p }
}

/// The PPU after a control write: the byte is installed, and turning the
/// NMI enable on while vblank is already set asserts the interrupt at once.
pub open spec fn spec_write_ctrl_next(p: PpuModel, val: u8) -> PpuModel {
    let fired = p.ctrl & 0x80 == 0 && val & 0x80 != 0 && p.status & 0x80 != 0;
    PpuModel {
        ctrl: val,
        pending: if fired {
            InterruptFlag::NMI
        } else {
            p.pending
        },
        ..p
    }
}

/// One PPU dot. At the last dot of a scanline the line counter advances;
/// entering line 241 raises vblank, drops the sprite-zero hit and fires the
/// NMI when enabled; reaching line 262 wraps to line zero, clears vblank and
/// the pending interrupt, and signals the completed frame.
pub open spec fn spec_ppu_dot(p: PpuModel) -> (PpuModel, bool) {
    if p.cycles + 1 == SCANLINE_CYCLES {
        let line = (p.scanline + 1) as u16;
        if line == NMI_SCANLINES {
            (
                PpuModel {
                    cycles: 0,
                    scanline: line,
                    status: (p.status | 0x80) & !0x40,
                    pending: if p.ctrl & 0x80 != 0 {
                        InterruptFlag::NMI
                    } else {
                        p.pending
                    },
                    ..p
                },
                false,
            )
        } else if line == SCANLINES_PER_FRAME {
            (
                PpuModel {
                    cycles: 0,
                    scanline: 0,
                    status: p.status & !0x40 & !0x80,
                    pending: InterruptFlag::Idle,
                    ..p
                },
                true,
            )
        } else {
            (PpuModel { cycles: 0, scanline: line, ..p }, false)
        }
    } else {
        (PpuModel { cycles: (p.cycles + 1) as usize, ..p }, false)
    }
}

/// The PPU after `n` dots.
pub open spec fn spec_ppu_ticks(p: PpuModel, n: nat) -> PpuModel
    decreases n,
{
    if n == 0 {
        p
    } else {
        spec_ppu_dot(spec_ppu_ticks(p, (n - 1) as nat)).0
    }
}

/// How many frame-complete signals `n` dots produce.
pub open spec fn spec_frame_signals(p: PpuModel, n: nat) -> nat
    decreases n,
{
    if n == 0 {
        0
    } else {
        spec_frame_signals(p, (n - 1) as nat) + if spec_ppu_dot(
            spec_ppu_ticks(p, (n - 1) as nat),
        ).1 {
            1nat
        } else {
            0nat
        }
    }
}

/// The PPU after a write to the OAM data port: the byte lands at the OAM
/// address, which then advances with wraparound.
pub open spec fn spec_oam_write_next(p: PpuModel, val: u8) -> PpuModel {
    PpuModel { oam: p.oam.update(p.oam_addr as int, val), oam_addr: p.oam_addr.wrapping_add(1), ..p }
}

/// A well-formed PPU: fixed-size memories, a mirrored-down address latch and
/// in-range timing counters.
pub open spec fn spec_ppu_wf(p: PpuModel) -> bool {
    &&& p.vram.len() == VRAM_SIZE
    &&& p.palette.len() == 32
    &&& p.oam.len() == 256
    &&& p.addr_hi <= 0x3f
    &&& p.cycles < SCANLINE_CYCLES
    &&& p.scanline < SCANLINES_PER_FRAME
}


/// A powered-up PPU: cleared registers, memories and counters around the
/// cartridge's pattern bytes and mirroring tag.
pub open spec fn spec_ppu_init(chr: Seq<u8>, mirroring: Mirroring) -> PpuModel {
    PpuModel {
        chr,
        ctrl: 0,
        mask: 0,
        status: 0,
        oam_addr: 0,
        oam: Seq::new(256, |i: int| 0u8),
        scroll_x: 0,
        scroll_y: 0,
        scroll_on_y: false,
        addr_hi: 0,
        addr_lo: 0,
        addr_on_lo: false,
        palette: Seq::new(32, |i: int| 0u8),
        vram: Seq::new(VRAM_SIZE as nat, |i: int| 0u8),
        mirroring,
        buf: 0,
        scanline: 0,
        cycles: 0,
        pending: InterruptFlag::Idle,
    }
}

/// The picture processing unit.
pub struct Ppu {
    /// The cartridge's pattern bytes.
    pub chr_rom: Program,
    /// The control register at 0x2000.
    pub ctrl: ControllerRegister,
    /// The mask register at 0x2001.
    pub mask: MaskRegister,
    /// The status register at 0x2002.
    pub status: StatusRegister,
    /// Object attribute memory with its address register, at 0x2003/0x2004.
    pub oam: Oam,
    /// The scroll register at 0x2005.
    pub scroll: ScrollRegister,
    /// The address register at 0x2006.
    pub addr: AddressRegister,
    /// The palette RAM at 0x3F00.
    pub palette: PaletteTable,
    /// The console's 2 KiB of nametable VRAM.
    pub vram: Vec<u8>,
    /// The cartridge's mirroring tag.
    pub mirroring: Mirroring,
    /// The one-read-deep buffer behind the data port.
    pub internal_data_buffer: u8,
    /// The current scanline, 0 to 261.
    pub scanline: u16,
    /// The current dot within the scanline, 0 to 340.
    pub cycles: usize,
    /// The interrupt cell shared with the CPU: the PPU raises it at vblank
    /// onset, the CPU consumes it at the top of its next tick.
    pub interrupt: InterruptFlag,
}

impl Ppu {
    /// The PPU as contracts see it.
    pub open spec fn m(&self) -> PpuModel {
        PpuModel {
            chr: self.chr_rom@,
            ctrl: self.ctrl.0,
            mask: self.mask.0,
            status: self.status.0,
            oam_addr: self.oam.addr.0,
            oam: self.oam.data@,
            scroll_x: self.scroll.x,
            scroll_y: self.scroll.y,
            scroll_on_y: self.scroll.ptr is Y,
            addr_hi: self.addr.hi,
            addr_lo: self.addr.lo,
            addr_on_lo: self.addr.ptr is Lo,
            palette: self.palette.0@,
            vram: self.vram@,
            mirroring: self.mirroring,
            buf: self.internal_data_buffer,
            scanline: self.scanline,
            cycles: self.cycles,
            pending: self.interrupt,
        }
    }

    /// The PPU's structural invariant.
    pub open spec fn wf(&self) -> bool {
        spec_ppu_wf(self.m())
    }

    /// A powered-up PPU holding the given pattern bytes and mirroring tag,
    /// with cleared registers and counters.
    pub fn new(chr_rom: Program, mirroring: Mirroring) -> (r: Self)
        ensures
            r.wf(),
            r.m() == spec_ppu_init(chr_rom@, mirroring),
    {
        let mut vram: Vec<u8> = Vec::new();
        let mut i: usize = 0;
        while i < VRAM_SIZE
            invariant
                i <= VRAM_SIZE,
                vram@ == Seq::new(i as nat, |j: int| 0u8),
            decreases VRAM_SIZE - i,
        {
            vram.push(0);
            proof {
                assert(vram@ =~= Seq::new((i + 1) as nat, |j: int| 0u8));
            }
            i = i + 1;
        }
        let r = Ppu {
            chr_rom,
            ctrl: ControllerRegister::new(),
            mask: MaskRegister::new(),
            status: StatusRegister::new(),
            oam: Oam::new(),
            scroll: ScrollRegister::default(),
            addr: AddressRegister::default(),
            palette: PaletteTable::new(),
            vram,
            mirroring,
            internal_data_buffer: 0,
            scanline: 0,
            cycles: 0,
            interrupt: InterruptFlag::Idle,
        };
        proof {
            assert(r.m() =~= spec_ppu_init(chr_rom@, mirroring));
        }
        r
    }

    /// Advances one dot and reports whether a frame just completed.
    pub fn tick(&mut self) -> (r: bool)
        requires
            old(self).wf(),
        ensures
            final(self).wf(),
            (final(self).m(), r) == spec_ppu_dot(old(self).m()),
    {
        self.cycles = self.cycles + 1;
        if self.cycles == SCANLINE_CYCLES {
            self.cycles = 0;
            self.scanline = self.scanline + 1;

            if self.scanline == NMI_SCANLINES {
                self.status.raise(PpuStatusFlag::VerticalBlankStarted);
                self.status.low(PpuStatusFlag::Sprite0Hit);
                if self.ctrl.is_raised(ControlFlags::GenerateNMI) {
                    self.nmi_interruption(true);
                }
                proof {
                    assert(self.m() =~= spec_ppu_dot(old(self).m()).0);
                }
                return false;
            }
            if self.scanline == SCANLINES_PER_FRAME {
                self.scanline = 0;
                self.nmi_interruption(false);
                self.status.low(PpuStatusFlag::Sprite0Hit);
                self.status.low(PpuStatusFlag::VerticalBlankStarted);
                proof {
                    assert(self.m() =~= spec_ppu_dot(old(self).m()).0);
                }
                return true;
            }
        }
        proof {
            assert(self.m() =~= spec_ppu_dot(old(self).m()).0);
        }
        false
    }

    /// Reads one byte through the data port at 0x2007 and advances the
    /// address by the control-selected stride. Pattern and nametable reads
    /// return the previous buffer contents; palette reads bypass the buffer.
    pub fn read_data(&mut self) -> (r: u8)
        requires
            old(self).wf(),
            spec_data_read_ok(old(self).m()),
        ensures
            final(self).wf(),
            r == spec_data_read_val(old(self).m()),
            final(self).m() == spec_data_read_next(old(self).m()),
    {
        let addr = self.addr.get();
        self.inc_vram_addr();
        if addr <= CHROM_END {
            let v = self.chr_rom[addr as usize];
            let r = self.read_and_store(v);
            proof {
                assert(self.m() =~= spec_data_read_next(old(self).m()));
            }
            r
        } else if addr <= VRAM_END {
            let idx = self.mirror_vram(addr);
            let v = self.vram[idx as usize];
            let r = self.read_and_store(v);
            proof {
                assert(self.m() =~= spec_data_read_next(old(self).m()));
            }
            r
        } else {
            let r = self.palette.read(addr);
            proof {
                assert(self.m() =~= spec_data_read_next(old(self).m()));
            }
            r
        }
    }

    /// Reads the status register at 0x2002: returns the raw byte, clears the
    /// vblank flag and puts both double-write toggles back onto their first
    /// byte.
    pub fn read_status(&mut self) -> (r: u8)
        requires
            old(self).wf(),
        ensures
            final(self).wf(),
            r == old(self).m().status,
            final(self).m() == spec_read_status_next(old(self).m()),
    {
        let val = self.status.read();
        self.status.low(PpuStatusFlag::VerticalBlankStarted);
        self.addr.reset();
        self.scroll.reset();
        proof {
            assert(self.m() =~= spec_read_status_next(old(self).m()));
        }
        val
    }

    /// Writes the control register at 0x2000. Turning the NMI enable from
    /// off to on while vblank is already set asserts the interrupt at once.
    pub fn write_to_ctrl(&mut self, value: u8)
        requires
            old(self).wf(),
        ensures
            final(self).wf(),
            final(self).m() == spec_write_ctrl_next(old(self).m(), value),
    {
        let prev_gen_nmi = self.ctrl.is_raised(ControlFlags::GenerateNMI);
        self.ctrl.write(value);
        if !prev_gen_nmi && self.ctrl.is_raised(ControlFlags::GenerateNMI) && self.status.is_raised(
            PpuStatusFlag::VerticalBlankStarted,
        ) {
            self.nmi_interruption(true);
        }
        proof {
            assert(self.m() =~= spec_write_ctrl_next(old(self).m(), value));
        }
    }

    /// Writes one byte through the data port at 0x2007 and advances the
    /// address by the stride. Pattern space ignores the byte; nametable and
    /// palette space store it through their folds.
    pub fn write_to_data(&mut self, value: u8)
        requires
            old(self).wf(),
            spec_data_write_ok(old(self).m()),
        ensures
            final(self).wf(),
            final(self).m() == spec_data_write_next(old(self).m(), value),
    {
        let addr = self.addr.get();
        if addr <= CHROM_END {
            // writes into CHR ROM space are ignored
        } else if addr <= VRAM_END {
            let idx = self.mirror_vram(addr);
            self.vram.set(idx as usize, value);
        } else {
            self.palette.write(addr, value);
        }
        self.inc_vram_addr();
        proof {
            assert(self.m() =~= spec_data_write_next(old(self).m(), value));
        }
    }

    /// Folds a nametable address into physical VRAM under the cartridge's
    /// mirroring tag.
    pub fn mirror_vram(&self, addr: u16) -> (r: u16)
        requires
            spec_vram_ok(self.m().mirroring, addr),
        ensures
            r == spec_mirror_vram(self.m().mirroring, addr),
            r < VRAM_SIZE,
    {
        let vram = (addr & VRAM_END) - VRAM_START;
        let name_table = vram / NAMETABLE_SIZE;
        let delta: u16 = match (&self.mirroring, name_table) {
            (Mirroring::Vertical, 2) | (Mirroring::Vertical, 3) => 2 * NAMETABLE_SIZE,
            (Mirroring::Horizontal, 1) | (Mirroring::Horizontal, 2) => NAMETABLE_SIZE,
            (Mirroring::Horizontal, 3) => 2 * NAMETABLE_SIZE,
            _ => 0,
        };
        proof {
            assert(addr & VRAM_END <= VRAM_END) by (bit_vector);
        }
        vram - delta
    }

    /// Stores a fresh byte in the data-port buffer and hands back what the
    /// buffer held before.
    fn read_and_store(&mut self, val: u8) -> (r: u8)
        ensures
            r == old(self).internal_data_buffer,
            final(self).m() == (PpuModel { buf: val, ..old(self).m() }),
    {
        let prev = self.internal_data_buffer;
        self.internal_data_buffer = val;
        prev
    }

    /// Raises or clears the shared interrupt cell.
    fn nmi_interruption(&mut self, trigger: bool)
        ensures
            final(self).m() == (PpuModel {
                pending: if trigger {
                    InterruptFlag::NMI
                } else {
                    InterruptFlag::Idle
                },
                ..old(self).m()
            }),
    {
        self.interrupt = if trigger {
            InterruptFlag::NMI
        } else {
            InterruptFlag::Idle
        };
    }

    /// Advances the address register by the control-selected stride.
    fn inc_vram_addr(&mut self)
        requires
            old(self).wf(),
        ensures
            final(self).wf(),
            ({
                let (nh, nl) = spec_addr_inc(
                    old(self).m().addr_hi,
                    old(self).m().addr_lo,
                    spec_vram_stride(old(self).m().ctrl),
                );
                final(self).m() == (PpuModel { addr_hi: nh, addr_lo: nl, ..old(self).m() })
            }),
    {
        let stride = self.ctrl.vram_add_inc();
        self.addr.inc(stride);
        proof {
            let (nh, nl) = spec_addr_inc(
                old(self).m().addr_hi,
                old(self).m().addr_lo,
                spec_vram_stride(old(self).m().ctrl),
            );
            assert(self.m() =~= PpuModel { addr_hi: nh, addr_lo: nl, ..old(self).m() });
        }
    }

    /// Loads the address latch with a full address, high byte then low byte,
    /// through the double-write port.
    pub fn set_addr(&mut self, hi: u8, lo: u8)
        requires
            old(self).wf(),
            !old(self).m().addr_on_lo,
        ensures
            final(self).wf(),
            final(self).m() == (PpuModel {
                addr_hi: (hi & 0x3f) as u8,
                addr_lo: lo,
                ..old(self).m()
            }),
    {
        self.addr.write(hi);
        self.addr.write(lo);
        proof {
            assert(hi & 0x3f & 0x3f == hi & 0x3f) by (bit_vector);
            assert(hi & 0x3f <= 0x3f) by (bit_vector);
            assert(self.m() =~= PpuModel {
                addr_hi: (hi & 0x3f) as u8,
                addr_lo: lo,
                ..old(self).m()
            });
        }
    }
}


/// The pattern-table bank the control byte selects for the background.
pub open spec fn spec_bg_bank(p: PpuModel) -> int {
    if p.ctrl & 0x10 != 0 {
        TILE_BANK_SIZE as int
    } else {
        0
    }
}

/// The 16 CHR bytes of the tile that nametable entry `t` names.
pub open spec fn spec_tile_seq(p: PpuModel, t: int) -> Seq<u8> {
    let start = spec_bg_bank(p) + p.vram[t] * 16;
    p.chr.subrange(start, start + 16)
}

/// The rendered frame: tile block `t` of the buffer holds the 64 decoded
/// colour indices of the tile that nametable entry `t` names.
pub open spec fn spec_render(p: PpuModel) -> Seq<u8> {
    Seq::new(61440, |k: int| spec_tile_values(spec_tile_seq(p, k / 64))[k % 64])
}

impl Ppu {
    /// Decodes the first nametable through the tile reader into a frame of
    /// colour indices, one 64-byte block per tile.
    pub fn render(&self) -> (frame: Frame)
        requires
            self.wf(),
            self.chr_rom.len() >= 8192,
        ensures
            frame.wf(),
            frame.buffer@ == spec_render(self.m()),
    {
        let mut frame = Frame::new();
        let bank: u16 = if self.ctrl.get_bit(ControlFlags::BGPatternAddr) == 1 {
            TILE_BANK_SIZE
        } else {
            0
        };

        let mut i: u32 = 0;
        while i < TILES_PER_FRAME
            invariant
                self.wf(),
                self.chr_rom.len() >= 8192,
                i <= TILES_PER_FRAME,
                frame.wf(),
                bank == spec_bg_bank(self.m()),
                forall|k: int|
                    0 <= k < 61440 ==> frame.buffer@[k] == (if k < i * 64 {
                        spec_render(self.m())[k]
                    } else {
                        0u8
                    }),
            decreases TILES_PER_FRAME - i,
        {
            let tile_idx = self.vram[i as usize] as u16;
            let tile_addr = (bank + tile_idx * TILE_BYTES_SIZE) as usize;

            let mut tile: Vec<u8> = Vec::new();
            let mut j: usize = 0;
            while j < 16
                invariant
                    j <= 16,
                    tile_addr + 16 <= self.chr_rom.len(),
                    tile@ == self.chr_rom@.subrange(tile_addr as int, tile_addr + j),
                decreases 16 - j,
            {
                tile.push(self.chr_rom[tile_addr + j]);
                proof {
                    assert(tile@ =~= self.chr_rom@.subrange(tile_addr as int, tile_addr + j + 1));
                }
                j = j + 1;
            }
            proof {
                assert(tile@ =~= spec_tile_seq(self.m(), i as int));
            }

            let mut reader = TileReader::new(tile.as_slice());
            let mut tile_values: Vec<u8> = Vec::new();
            let mut k: usize = 0;
            while k < 64
                invariant
                    k <= 64,
                    reader.wf() || k == 64,
                    reader.pos() == k,
                    reader.tile_view() == tile@,
                    tile@.len() == 16,
                    tile_values@ == spec_tile_values(tile@).take(k as int),
                decreases 64 - k,
            {
                let v = match reader.next() {
                    Some(v) => v,
                    None => vstd::pervasive::unreached(),
                };
                tile_values.push(v);
                proof {
                    assert(tile_values@ =~= spec_tile_values(tile@).take(k as int + 1));
                }
                k = k + 1;
            }
            proof {
                assert(tile_values@ =~= spec_tile_values(tile@));
            }

            let ghost pre = frame.buffer@;
            frame.set_tile(i % TILES_PER_ROW, i / TILES_PER_ROW, tile_values.as_slice());
            proof {
                assert((i / 32) * 32 + (i % 32) == i) by (nonlinear_arith);
                let idx = i as int * 64;
                assert forall|q: int| 0 <= q < 61440 implies frame.buffer@[q] == (if q < (i + 1)
                    * 64 {
                    spec_render(self.m())[q]
                } else {
                    0u8
                }) by {
                    if idx <= q < idx + 64 {
                        assert(frame.buffer@[q] == tile_values@[q - idx]);
                        assert(q / 64 == i as int && q % 64 == q - idx) by (nonlinear_arith)
                            requires
                                idx == i as int * 64 && idx <= q < idx + 64,
                        ;
                    } else if q < idx {
                        assert(frame.buffer@[q] == pre[q]);
                    } else {
                        assert(frame.buffer@[q] == pre[q]);
                    }
                }
            }
            i = i + 1;
        }
        proof {
            assert(frame.buffer@ =~= spec_render(self.m()));
        }
        frame
    }
}


/// Dots compose: ticking `a + b` dots is ticking `a`, then `b` more.
pub proof fn lemma_ticks_compose(p: PpuModel, a: nat, b: nat)
    ensures
        spec_ppu_ticks(p, a + b) == spec_ppu_ticks(spec_ppu_ticks(p, a), b),
    decreases b,
{
    if b > 0 {
        lemma_ticks_compose(p, a, (b - 1) as nat);
    }
}

/// Frame signals compose the same way.
pub proof fn lemma_signals_compose(p: PpuModel, a: nat, b: nat)
    ensures
        spec_frame_signals(p, a + b) == spec_frame_signals(p, a) + spec_frame_signals(
            spec_ppu_ticks(p, a),
            b,
        ),
    decreases b,
{
    if b > 0 {
        lemma_signals_compose(p, a, (b - 1) as nat);
        lemma_ticks_compose(p, a, (b - 1) as nat);
    }
}

/// Inside one scanline only the dot counter moves: `j` dots from dot zero
/// leave every other field alone and signal no frame.
proof fn lemma_within_line(q: PpuModel, j: nat)
    requires
        q.cycles == 0,
        j < SCANLINE_CYCLES,
    ensures
        spec_ppu_ticks(q, j) == (PpuModel { cycles: j as usize, ..q }),
        spec_frame_signals(q, j) == 0,
    decreases j,
{
    if j == 0 {
        assert(spec_ppu_ticks(q, 0) =~= PpuModel { cycles: 0usize, ..q });
    } else {
        lemma_within_line(q, (j - 1) as nat);
        assert(spec_ppu_dot(PpuModel { cycles: (j - 1) as usize, ..q }).0 =~= PpuModel {
            cycles: j as usize,
            ..q
        });
    }
}

/// One whole scanline from dot zero is the single line-ending dot applied
/// to the line's last dot position.
proof fn lemma_one_line(q: PpuModel)
    requires
        q.cycles == 0,
    ensures
        spec_ppu_ticks(q, SCANLINE_CYCLES as nat) == spec_ppu_dot(
            PpuModel { cycles: 340usize, ..q },
        ).0,
        spec_frame_signals(q, SCANLINE_CYCLES as nat) == (if spec_ppu_dot(
            PpuModel { cycles: 340usize, ..q },
        ).1 {
            1nat
        } else {
            0nat
        }),
{
    lemma_within_line(q, 340);
}

/// The state after `n` whole scanlines from line zero, dot zero: the dot
/// counter is back at zero; the line counter reads `n` until the frame
/// wraps; vblank and the pending interrupt are untouched before line 241,
/// set from line 241 on, and cleared by the wrap at line 262, which alone
/// signals a completed frame.
proof fn lemma_lines(p: PpuModel, n: nat)
    requires
        p.scanline == 0,
        p.cycles == 0,
        n <= 262,
    ensures
        spec_ppu_ticks(p, n * 341).cycles == 0,
        spec_ppu_ticks(p, n * 341).scanline == (if n == 262 {
            0
        } else {
            n
        }),
        spec_frame_signals(p, n * 341) == (if n == 262 {
            1nat
        } else {
            0nat
        }),
        n < 241 ==> spec_ppu_ticks(p, n * 341).pending == p.pending && spec_ppu_ticks(
            p,
            n * 341,
        ).status == p.status,
        241 <= n <= 261 ==> spec_ppu_ticks(p, n * 341).pending == (if p.ctrl & 0x80 != 0 {
            InterruptFlag::NMI
        } else {
            p.pending
        }) && spec_ppu_ticks(p, n * 341).status == (p.status | 0x80) & !0x40,
        spec_ppu_ticks(p, n * 341).ctrl == p.ctrl,
    decreases n,
{
    if n == 0 {
    } else {
        lemma_lines(p, (n - 1) as nat);
        let r1 = spec_ppu_ticks(p, ((n - 1) * 341) as nat);
        lemma_ticks_compose(p, ((n - 1) * 341) as nat, 341);
        lemma_signals_compose(p, ((n - 1) * 341) as nat, 341);
        assert(n * 341 == (n - 1) * 341 + 341) by (nonlinear_arith);
        lemma_one_line(r1);
    }
}

/// One frame of dots returns the scanline/dot pair to (0, 0) and signals
/// frame completion exactly once.
pub proof fn lemma_frame_round_trip(p: PpuModel)
    requires
        p.scanline == 0,
        p.cycles == 0,
    ensures
        spec_ppu_ticks(p, (341 * 262) as nat).scanline == 0,
        spec_ppu_ticks(p, (341 * 262) as nat).cycles == 0,
        spec_frame_signals(p, (341 * 262) as nat) == 1,
{
    lemma_lines(p, 262);
    assert(262 * 341 == 341 * 262) by (nonlinear_arith);
}

/// With the NMI enable set, ticking through scanline 241 leaves the NMI
/// pending in the shared interrupt cell and the vblank flag raised.
pub proof fn lemma_nmi_delivery(p: PpuModel)
    requires
        p.scanline == 0,
        p.cycles == 0,
        p.ctrl & 0x80 != 0,
    ensures
        ({
            let q = spec_ppu_ticks(p, (341 * 241) as nat);
            q.pending == InterruptFlag::NMI && q.status & 0x80 != 0
        }),
{
    lemma_lines(p, 241);
    assert(241 * 341 == 341 * 241) by (nonlinear_arith);
    let st = p.status;
    assert((st | 0x80) & !0x40 & 0x80 != 0) by (bit_vector);
}

} // verus!
