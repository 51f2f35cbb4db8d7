//! End-to-end scenarios on the console: arithmetic flag cases, the
//! indirect-jump bug, branch cycle accounting, bus mirroring, the frame
//! clock and NMI delivery, plus examples for the decode table and loader.
use nove_core::cartridge::{Mirroring, Rom};
use nove_core::cpu::{get_absolute_address, Core6502, NesNoveCore};
use nove_core::exception::NoveError;
use nove_core::instruction::addressing_mode::AddressingMode;
use nove_core::instruction::mnemonic::Mnemonic;
use nove_core::instruction::opcode_lookup;
use nove_core::interrupt::InterruptFlag;
use nove_core::memory::Memory;
use nove_core::ppu::frame::Frame;
use nove_core::ppu::palette_table::PaletteTable;
use nove_core::ppu::status_register::PpuStatusFlag;
use nove_core::ppu::Ppu;

/// Builds an iNES image: a header, one or two PRG pages and one CHR page.
fn nes_image(prg_pages: u8, flag6: u8, patch: &[(usize, u8)]) -> Vec<u8> {
    let mut raw = vec![0x4e, 0x45, 0x53, 0x1a, prg_pages, 1, flag6, 0, 0, 0, 0, 0, 0, 0, 0, 0];
    raw.resize(16 + prg_pages as usize * 16384 + 8192, 0);
    for &(offset, value) in patch {
        raw[offset] = value;
    }
    raw
}

fn nes_core() -> NesNoveCore {
    // NMI vector 0x0200, held in the last PRG page
    let raw = nes_image(2, 0, &[(16 + 0x7ffa, 0x00), (16 + 0x7ffb, 0x02)]);
    NesNoveCore::new(Rom::new(&raw).unwrap())
}

#[test]
fn adc_overflow_scenario() {
    let mut core = Core6502::new();
    core.load(vec![0x69, 0x01, 0x00]);
    core.reset();
    core.ps.set(0);
    core.a.assign(0x7f);
    core.tick().unwrap();
    assert_eq!(core.a.get(), 0x80);
    assert_eq!(core.ps.0 & 0x80, 0x80);
    assert_eq!(core.ps.0 & 0x40, 0x40);
    assert_eq!(core.ps.0 & 0x02, 0);
    assert_eq!(core.ps.0 & 0x01, 0);
}

#[test]
fn sbc_borrow_scenario() {
    let mut core = Core6502::new();
    core.load(vec![0xe9, 0x06, 0x00]);
    core.reset();
    core.ps.set(0x01);
    core.a.assign(0x08);
    core.tick().unwrap();
    assert_eq!(core.a.get(), 0x02);
    assert_eq!(core.ps.0 & 0x01, 0x01);
    assert_eq!(core.ps.0 & 0x40, 0);
    assert_eq!(core.ps.0 & 0x80, 0);
    assert_eq!(core.ps.0 & 0x02, 0);

    let mut core = Core6502::new();
    core.load(vec![0xe9, 0x07, 0x00]);
    core.reset();
    core.ps.set(0x00);
    core.a.assign(0x08);
    core.tick().unwrap();
    assert_eq!(core.a.get(), 0x00);
    assert_eq!(core.ps.0 & 0x02, 0x02);
    assert_eq!(core.ps.0 & 0x01, 0x01);
}

#[test]
fn indirect_jmp_bug_scenario() {
    let mut core = Core6502::new();
    core.memory.write(0x0200, 0x6c);
    core.memory.write(0x0201, 0xff);
    core.memory.write(0x0202, 0x03);
    core.memory.write(0x0300, 0x12);
    core.memory.write(0x03ff, 0x34);
    core.memory.write(0x0400, 0x56);
    core.pc = 0x0200;
    core.tick().unwrap();
    assert_eq!(core.pc, 0x1234);
}

#[test]
fn branch_page_crossing() {
    // taken across a page: two extra CPU cycles over the base two
    let mut core = nes_core();
    core.memory.write(0x00f0, 0xd0);
    core.memory.write(0x00f1, 0x10);
    core.pc = 0x00f0;
    core.ps.set(0);
    core.tick().unwrap();
    assert_eq!(core.pc, 0x0102);
    assert_eq!(core.memory.ppu.cycles, 12);

    // taken within the page: one extra cycle
    let mut core = nes_core();
    core.memory.write(0x0010, 0xd0);
    core.memory.write(0x0011, 0x10);
    core.pc = 0x0010;
    core.ps.set(0);
    core.tick().unwrap();
    assert_eq!(core.pc, 0x0022);
    assert_eq!(core.memory.ppu.cycles, 9);

    // not taken: the base two cycles only
    let mut core = nes_core();
    core.memory.write(0x0010, 0xd0);
    core.memory.write(0x0011, 0x10);
    core.pc = 0x0010;
    core.ps.set(0x02);
    core.tick().unwrap();
    assert_eq!(core.pc, 0x0012);
    assert_eq!(core.memory.ppu.cycles, 6);
}

#[test]
fn vram_mirror_horizontal_scenario() {
    let mut core = nes_core();
    core.memory.write(0x2006, 0x24);
    core.memory.write(0x2006, 0x00);
    core.memory.write(0x2007, 0x07);

    core.memory.write(0x2006, 0x20);
    core.memory.write(0x2006, 0x00);
    let _dummy = core.memory.read(0x2007);
    assert_eq!(core.memory.read(0x2007), 0x07);
}

#[test]
fn nmi_delivery_scenario() {
    let mut core = nes_core();
    core.memory.write(0x2000, 0x80);
    for _ in 0..(341 * 241) {
        core.memory.ppu.tick();
    }
    assert_eq!(core.memory.ppu.interrupt, InterruptFlag::NMI);

    core.pc = 0x0300;
    core.sp.0 = 0xfd;
    core.ps.set(0x20);
    core.tick().unwrap();
    assert_eq!(core.memory.read(0x01fd), 0x03);
    assert_eq!(core.memory.read(0x01fc), 0x00);
    assert_eq!(core.memory.read(0x01fb), 0x20);
    assert_eq!(core.ps.0 & 0x04, 0x04);
    // control moved through the NMI vector; the halt opcode there was
    // fetched before the tick returned
    assert_eq!(core.pc, 0x0201);
}

#[test]
fn decode_examples() {
    let op = opcode_lookup(0x69).unwrap();
    assert!(matches!(op.mnemonic, Mnemonic::ADC));
    assert!(matches!(op.addressing_mode, AddressingMode::IMM));
    assert_eq!(op.code, 0x69);
    assert_eq!(op.bytes, 2);
    assert_eq!(op.cycles, 2);
    assert!(!op.unofficial);

    assert!(opcode_lookup(0x02).is_none());

    // the read instructions pay for a page crossing, the stores do not
    let adc_abx = opcode_lookup(0x7d).unwrap();
    assert_eq!(adc_abx.cycles(false), 4);
    assert_eq!(adc_abx.cycles(true), 5);
    let sta_abx = opcode_lookup(0x9d).unwrap();
    assert_eq!(sta_abx.cycles(true), 5);
}

#[test]
fn wrong_opcode_error() {
    let mut core = Core6502::new();
    core.load(vec![0x02]);
    core.reset();
    assert_eq!(core.tick(), Err(NoveError::WrongOpCode(0x02)));
}

#[test]
fn reset_state() {
    let mut core = Core6502::new();
    core.load(vec![0xea, 0x00]);
    core.sp.0 = 0x11;
    core.a.assign(9);
    core.reset();
    assert_eq!(core.sp.0, 0xfd);
    assert_eq!(core.ps.0, 0x24);
    assert_eq!(core.ps.0 & 0x24, 0x24);
    assert_eq!(core.pc, 0x8000);
    assert_eq!(core.a.get(), 0);
}

#[test]
fn stack_push_pull_round_trip() {
    let mut core = Core6502::new();
    core.load(vec![0xa9, 0x5a, 0x48, 0xa9, 0x00, 0x68, 0x00]);
    core.reset();
    loop {
        match core.tick().unwrap() {
            InterruptFlag::BRK => break,
            _ => {}
        }
    }
    assert_eq!(core.a.get(), 0x5a);
    assert_eq!(core.sp.0, 0xfd);
}

#[test]
fn ram_mirrors() {
    let mut core = nes_core();
    core.memory.write(0x0123, 0x42);
    assert_eq!(core.memory.read(0x0123), 0x42);
    assert_eq!(core.memory.read(0x0923), 0x42);
    assert_eq!(core.memory.read(0x1123), 0x42);
    assert_eq!(core.memory.read(0x1923), 0x42);
    core.memory.write(0x1fff, 0x77);
    assert_eq!(core.memory.read(0x07ff), 0x77);
}

#[test]
fn ppu_register_mirrors() {
    let mut core = nes_core();
    // drive the address latch through two different register mirrors
    core.memory.write(0x200e, 0x3f);
    core.memory.write(0x3ffe, 0x00);
    core.memory.write(0x2007, 0x12);

    core.memory.write(0x2006, 0x3f);
    core.memory.write(0x2006, 0x00);
    assert_eq!(core.memory.read(0x200f), 0x12);
}

#[test]
fn frame_clock_round_trip() {
    let mut ppu = Ppu::new(vec![], Mirroring::Horizontal);
    let mut frames: u32 = 0;
    for _ in 0..(341 * 262) {
        if ppu.tick() {
            frames += 1;
        }
    }
    assert_eq!(frames, 1);
    assert_eq!(ppu.scanline, 0);
    assert_eq!(ppu.cycles, 0);
}

#[test]
fn status_read_clears_vblank_and_toggles() {
    let mut core = nes_core();
    core.memory.ppu.status.raise(PpuStatusFlag::VerticalBlankStarted);
    core.memory.write(0x2006, 0x21);
    core.memory.write(0x2005, 0x33);

    let status = core.memory.read(0x2002);
    assert_eq!(status & 0x80, 0x80);
    assert_eq!(core.memory.ppu.status.0 & 0x80, 0);

    // both double-write toggles are back on their first byte
    core.memory.write(0x2006, 0x3f);
    core.memory.write(0x2006, 0x00);
    core.memory.write(0x2007, 0x55);
    core.memory.write(0x2006, 0x3f);
    core.memory.write(0x2006, 0x00);
    assert_eq!(core.memory.read(0x2007), 0x55);
}

#[test]
fn palette_alias_both_directions() {
    let mut palette = PaletteTable::new();
    palette.write(0x3f10, 0x2b);
    assert_eq!(palette.read(0x3f00), 0x2b);
    let mut palette = PaletteTable::new();
    palette.write(0x3f00, 0x1c);
    assert_eq!(palette.read(0x3f10), 0x1c);
}

#[test]
fn rom_load_ok() {
    let raw = nes_image(1, 1, &[(16, 0xaa), (16 + 16384, 0xbb)]);
    let rom = Rom::new(&raw).unwrap();
    assert_eq!(rom.prg_rom.len(), 16384);
    assert_eq!(rom.chr_rom.len(), 8192);
    assert_eq!(rom.mapper, 0);
    assert_eq!(rom.screen_mirroring, Mirroring::Vertical);
    assert_eq!(rom.prg_rom[0], 0xaa);
    assert_eq!(rom.chr_rom[0], 0xbb);
}

#[test]
fn prg_rom_single_page_mirrors() {
    let raw = nes_image(1, 0, &[(16 + 0x0123, 0x9d)]);
    let mut core = NesNoveCore::new(Rom::new(&raw).unwrap());
    assert_eq!(core.memory.read(0x8123), 0x9d);
    assert_eq!(core.memory.read(0xc123), 0x9d);
}

#[test]
fn ctrl_nmi_during_vblank_fires_at_once() {
    let mut ppu = Ppu::new(vec![], Mirroring::Horizontal);
    ppu.status.raise(PpuStatusFlag::VerticalBlankStarted);
    assert_eq!(ppu.interrupt, InterruptFlag::Idle);
    ppu.write_to_ctrl(0x80);
    assert_eq!(ppu.interrupt, InterruptFlag::NMI);
}

#[test]
fn oam_through_bus() {
    let mut core = nes_core();
    core.memory.write(0x2003, 0x05);
    core.memory.write(0x2004, 0xaa);
    assert_eq!(core.memory.ppu.oam.data[0x05], 0xaa);
    assert_eq!(core.memory.ppu.oam.addr.get(), 0x06);
}

#[test]
fn render_decodes_tiles() {
    let mut chr = vec![0u8; 8192];
    for row in 0..8 {
        chr[row] = 0xff;
    }
    let ppu = Ppu::new(chr, Mirroring::Horizontal);
    let frame = ppu.render();
    assert_eq!(frame.buffer.len(), 61440);
    assert_eq!(frame.buffer[0], 0b10);
    assert_eq!(frame.buffer[63], 0b10);
    assert_eq!(frame.buffer[61439], 0b10);
}

#[test]
fn frame_blocks() {
    let mut frame = Frame::new();
    let values: Vec<u8> = (0..64).collect();
    frame.set_tile(1, 0, &values);
    assert_eq!(frame.buffer[64], 0);
    assert_eq!(frame.buffer[127], 63);
    frame.set_pixel(1, 0, (9, 8, 7));
    assert_eq!(frame.buffer[1], 9);
    assert_eq!(frame.buffer[2], 8);
    assert_eq!(frame.buffer[3], 7);
}

#[test]
fn absolute_address_for_tracing() {
    let mut core = Core6502::new();
    core.x.assign(0x04);
    core.memory.write(0x0040, 0x21);
    core.memory.write_u16(0x0041, 0x1234);
    assert_eq!(
        get_absolute_address(&core, &AddressingMode::ZPG, 0x0040),
        0x21
    );
    assert_eq!(
        get_absolute_address(&core, &AddressingMode::ABS, 0x0041),
        0x1234
    );
    assert_eq!(
        get_absolute_address(&core, &AddressingMode::ABX, 0x0041),
        0x1238
    );
}
