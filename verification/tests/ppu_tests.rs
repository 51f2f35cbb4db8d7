//! PPU tests: data-port reads and writes through nametable mirroring and
//! the palette, the NMI line, and the unit behaviour of the address,
//! scroll and OAM registers and the tile reader.
use nove_core::cartridge::Mirroring;
use nove_core::interrupt::InterruptFlag;
use nove_core::ppu::address_register::{AddressRegister, BytePointer};
use nove_core::ppu::controller_register::ControlFlags;
use nove_core::ppu::oam::Oam;
use nove_core::ppu::tile_reader::TileReader;
use nove_core::ppu::scroll_register::ScrollRegister;
use nove_core::ppu::Ppu;
use nove_core::register::{RegRead, RegWrite};

fn assert_ppu_read(ppu: &mut Ppu, hi: u8, lo: u8, val: u8) {
    ppu.set_addr(hi, lo);
    assert_ne!(val, ppu.read_data());
    assert_eq!(val, ppu.read_data());
}

fn assert_ppu_write(ppu: &mut Ppu, hi: u8, lo: u8, val: u8) {
    ppu.set_addr(hi, lo);
    ppu.write_to_data(val);
    ppu.set_addr(hi, lo);
    assert_ne!(ppu.read_data(), val);
    assert_eq!(ppu.read_data(), val);
}

fn preloaded_ppu(mirroring: Mirroring) -> Ppu {
    let mut ppu = Ppu::new(vec![], mirroring);
    ppu.vram[0x0002] = 3;
    ppu.vram[0x0020] = 4;
    ppu.vram[0x0402] = 5;
    ppu.vram[0x0420] = 6;
    ppu
}

#[test]
fn read_chrom() {
    let mut ppu = Ppu::new(vec![0, 1, 2, 3], Mirroring::Horizontal);
    assert_ppu_read(&mut ppu, 0x00, 0x01, 1);
}

#[test]
fn read_vram_horizontal() {
    let mut ppu = preloaded_ppu(Mirroring::Horizontal);
    assert_ppu_read(&mut ppu, 0x20, 0x02, 3);
    assert_ppu_read(&mut ppu, 0x24, 0x20, 4);
    assert_ppu_read(&mut ppu, 0x28, 0x02, 5);
    assert_ppu_read(&mut ppu, 0x2c, 0x20, 6);
}

#[test]
fn read_vram_vertical() {
    let mut ppu = preloaded_ppu(Mirroring::Vertical);
    assert_ppu_read(&mut ppu, 0x20, 0x02, 3);
    assert_ppu_read(&mut ppu, 0x24, 0x02, 5);
    assert_ppu_read(&mut ppu, 0x28, 0x20, 4);
    assert_ppu_read(&mut ppu, 0x2c, 0x20, 6);
}

#[test]
fn read_palette() {
    let mut ppu = Ppu::new(vec![], Mirroring::Horizontal);
    ppu.palette.0[0x12] = 0x34;
    ppu.palette.0[0x04] = 0x56;

    ppu.set_addr(0x3f, 0x12);
    assert_eq!(ppu.read_data(), 0x34);

    ppu.set_addr(0x3f, 0x14);
    assert_eq!(ppu.read_data(), 0x56);
}

#[test]
fn write_vram_horizontal() {
    let mut ppu = preloaded_ppu(Mirroring::Horizontal);
    assert_ppu_write(&mut ppu, 0x20, 0x02, 1);
    assert_ppu_write(&mut ppu, 0x24, 0x20, 2);
    assert_ppu_write(&mut ppu, 0x28, 0x02, 3);
    assert_ppu_write(&mut ppu, 0x2c, 0x20, 4);
}

#[test]
fn write_vram_vertical() {
    let mut ppu = preloaded_ppu(Mirroring::Vertical);
    assert_ppu_write(&mut ppu, 0x20, 0x02, 1);
    assert_ppu_write(&mut ppu, 0x24, 0x02, 2);
    assert_ppu_write(&mut ppu, 0x28, 0x20, 3);
    assert_ppu_write(&mut ppu, 0x2c, 0x20, 4);
}

#[test]
fn write_palette() {
    let mut ppu = Ppu::new(vec![], Mirroring::Horizontal);
    ppu.set_addr(0x3f, 0x13);
    ppu.write_to_data(0x12);
    assert_eq!(ppu.palette.0[0x13], 0x12);
    ppu.set_addr(0x3f, 0x18);
    ppu.write_to_data(0x89);
    assert_eq!(ppu.palette.0[0x08], 0x89);
    assert_ne!(ppu.palette.0[0x18], 0x89);
}

#[test]
fn nmi_interrupt() {
    let mut ppu = Ppu::new(vec![], Mirroring::Horizontal);
    ppu.ctrl.raise(ControlFlags::GenerateNMI);

    assert_eq!(ppu.interrupt, InterruptFlag::Idle);
    for _ in 0..(341 * 241) {
        ppu.tick();
    }
    assert_eq!(ppu.interrupt, InterruptFlag::NMI);
}

#[test]
fn set() {
    let mut reg = AddressRegister::default();
    reg.set(0x1234);
    assert_eq!(0x12, reg.hi);
    assert_eq!(0x34, reg.lo);
}

#[test]
fn get() {
    let reg = AddressRegister {
        hi: 0x12,
        lo: 0x34,
        ptr: BytePointer::Hi,
    };
    assert_eq!(0x1234, reg.get());
}

#[test]
fn address_register_update() {
    let mut reg = AddressRegister::default();
    reg.update(0x12);
    assert_eq!(0x1200, reg.get());
    reg.update(0x34);
    assert_eq!(0x1234, reg.get());
    reg.update(0x40);
    assert_eq!(0x0034, reg.get());
}

#[test]
fn address_register_inc() {
    let mut reg = AddressRegister::default();
    reg.set(0x1234);
    reg.inc(0x0c);
    assert_eq!(0x1240, reg.get());
    reg.inc(0xc0);
    assert_eq!(0x1300, reg.get());
    reg.set(0x3fff);
    reg.inc(3);
    assert_eq!(0x0002, reg.get());
}

#[test]
fn reset() {
    let mut reg = AddressRegister::default();
    reg.update(0x12);
    assert_eq!(BytePointer::Lo, reg.ptr);
    reg.reset();
    assert_eq!(BytePointer::Hi, reg.ptr);
}

#[test]
fn write_read() {
    let mut oam = Oam::new();
    oam.write(0x22);
    assert_eq!(oam.data[0x00], 0x22);
    assert_eq!(oam.read(), 0x00);
    assert_eq!(oam.addr.get(), 0x01);
    oam.addr.write(0x00);
    assert_eq!(oam.read(), 0x22);
}

#[test]
fn write() {
    let mut scroll = ScrollRegister::default();
    scroll.write(0x22);
    scroll.write(0x11);
    assert_eq!(scroll.x, 0x22);
    assert_eq!(scroll.y, 0x11);
}

#[test]
fn tile_reader() {
    let tile = vec![
        0b0000_0000,
        0b0101_0101,
        0b0100_1001,
        0b0001_0001,
        0b0010_0001,
        0b0100_0001,
        0b1000_0001,
        0b1111_1111,
        0b1010_1010,
        0b0010_0100,
        0b1000_1000,
        0b0001_0000,
        0b0010_0000,
        0b0100_0000,
        0b1000_0000,
        0b0000_1111,
    ];

    let expected: Vec<u8> = vec![
        0b01, 0b00, 0b01, 0b00, 0b01, 0b00, 0b01, 0b00, //
        0b00, 0b10, 0b01, 0b10, 0b00, 0b11, 0b00, 0b10, //
        0b01, 0b10, 0b00, 0b00, 0b11, 0b00, 0b00, 0b10, //
        0b00, 0b00, 0b00, 0b11, 0b00, 0b00, 0b00, 0b10, //
        0b00, 0b00, 0b11, 0b00, 0b00, 0b00, 0b00, 0b10, //
        0b00, 0b11, 0b00, 0b00, 0b00, 0b00, 0b00, 0b10, //
        0b11, 0b00, 0b00, 0b00, 0b00, 0b00, 0b00, 0b10, //
        0b10, 0b10, 0b10, 0b10, 0b11, 0b11, 0b11, 0b11, //
    ];

    let mut tile_reader = TileReader::new(&tile);
    for expected in expected.into_iter() {
        assert_eq!(tile_reader.next().unwrap(), expected);
    }
}
