//! Unit tests of the CPU's building blocks: the adder, the addressing-mode
//! resolver, the status register, the stack pointer, the displacement
//! primitive, the flat memory and the cartridge loader.
use nove_core::cartridge::Rom;
use nove_core::cpu::ops::{Direction, Displacement};
use nove_core::cpu::processor_status::{ProcessorStatus, StatusFlag};
use nove_core::cpu::stack_pointer::StackPointer;
use nove_core::cpu::Core6502;
use nove_core::exception::NoveError;
use nove_core::instruction::addressing_mode::AddressingMode;
use nove_core::memory::cpu_mem::CpuMem;
use nove_core::memory::Memory;

#[test]
fn adc_ops() {
    let mut core = Core6502::new();

    core.a.assign(0b0000_0000);
    assert_eq!(core.adc(0b0101_1010), 0b0101_1010);
    assert_eq!(core.ps.get_bit(StatusFlag::Carry), 0);
    assert_eq!(core.ps.get_bit(StatusFlag::Overflow), 0);

    core.a.assign(0b0101_1010);
    assert_eq!(core.adc(0b0101_1010), 0b1011_0100);
    assert_eq!(core.ps.get_bit(StatusFlag::Carry), 0);
    assert_eq!(core.ps.get_bit(StatusFlag::Overflow), 1);

    core.a.assign(0b1011_0100);
    assert_eq!(core.adc(0b1011_0100), 0b0110_1000);
    assert_eq!(core.ps.get_bit(StatusFlag::Carry), 1);
    assert_eq!(core.ps.get_bit(StatusFlag::Overflow), 1);

    core.a.assign(0b0111_1000);
    assert_eq!(core.adc(0b1100_0000), 0b0011_1001);
    assert_eq!(core.ps.get_bit(StatusFlag::Carry), 1);
    assert_eq!(core.ps.get_bit(StatusFlag::Overflow), 0);
}

#[test]
fn sbc_ops() {
    let mut core = Core6502::new();

    core.a.assign(8);
    core.ps.set_bit(StatusFlag::Carry, true);
    assert_eq!(core.sbc(6), 2);
    assert_eq!(core.ps.get_bit(StatusFlag::Carry), 1);
    assert_eq!(core.ps.get_bit(StatusFlag::Overflow), 0);

    core.a.assign(8);
    core.ps.set_bit(StatusFlag::Carry, true);
    assert_eq!(core.sbc(10), 0_u8.wrapping_sub(2));
    assert_eq!(core.ps.get_bit(StatusFlag::Carry), 0);
    assert_eq!(core.ps.get_bit(StatusFlag::Overflow), 0);

    core.a.assign(64);
    core.ps.set_bit(StatusFlag::Carry, true);
    assert_eq!(core.sbc(0_u8.wrapping_sub(128)), 0_u8.wrapping_sub(64));
    assert_eq!(core.ps.get_bit(StatusFlag::Carry), 0);
    assert_eq!(core.ps.get_bit(StatusFlag::Overflow), 1);

    core.a.assign(8);
    core.ps.set_bit(StatusFlag::Carry, false);
    assert_eq!(core.sbc(6), 1);
    assert_eq!(core.ps.get_bit(StatusFlag::Carry), 1);
    assert_eq!(core.ps.get_bit(StatusFlag::Overflow), 0);
}

#[test]
fn addressing_mode() {
    let mut core = Core6502::new();
    core.pc = 0x0105;
    core.x.assign(0x04);
    core.y.assign(0x10);
    core.memory.write_u16(0x0105, 0x0a01);
    core.memory.write_u16(0x0a01, 0x0b00);
    core.memory.write_u16(0x0005, 0x0c00);
    core.memory.write_u16(0x0011, 0x0d00);

    assert_eq!(core.get_addr(&AddressingMode::IMM), (0x0105, false));
    assert_eq!(core.get_addr(&AddressingMode::REL), (0x0106, false));
    assert_eq!(core.get_addr(&AddressingMode::ZPG), (0x0001, false));
    assert_eq!(core.get_addr(&AddressingMode::ZPX), (0x0005, false));
    assert_eq!(core.get_addr(&AddressingMode::ZPY), (0x0011, false));
    assert_eq!(core.get_addr(&AddressingMode::ABS), (0x0a01, false));
    assert_eq!(core.get_addr(&AddressingMode::ABX), (0x0a05, false));
    assert_eq!(core.get_addr(&AddressingMode::ABY), (0x0a11, false));
    assert_eq!(core.get_addr(&AddressingMode::IND), (0x0b00, false));
    assert_eq!(core.get_addr(&AddressingMode::IDX), (0x0c00, false));
    assert_eq!(core.get_addr(&AddressingMode::IDY), (0x0010, false));
}

#[test]
fn page_crossed() {
    let mut core = Core6502::new();
    core.pc = 0x0200;
    core.x.assign(0x01);
    core.y.assign(0x02);
    core.memory.write(0x0000, 0x01);
    core.memory.write(0x00ff, 0xfe);
    core.memory.write_u16(0x0200, 0x03ff);
    core.memory.write(0x0300, 0x12);
    core.memory.write(0x03ff, 0x34);
    core.memory.write(0x0400, 0x56);

    assert_eq!(core.get_addr(&AddressingMode::ABX), (0x0400, true));
    assert_eq!(core.get_addr(&AddressingMode::ABY), (0x0401, true));
    assert_eq!(core.get_addr(&AddressingMode::IDY), (0x0200, true));
    // the indirect-jump bug keeps the pointer fetch within its page
    assert_eq!(core.get_addr(&AddressingMode::IND), (0x1234, false));
}

#[test]
fn processor_status() {
    let mut ps = ProcessorStatus::default();
    ps.set_bit(StatusFlag::Carry, true);
    ps.set_bit(StatusFlag::Overflow, true);
    assert_eq!(ps.0, 0b0100_0001);
    assert_eq!(ps.get_for_push(), 0b0111_0001);
    ps.set_from_pull(0b0011_0001);
    assert_eq!(ps.0, 0b0010_0001);
}

#[test]
fn stack_pointer() {
    let mut pointer = StackPointer::default();
    assert_eq!(pointer.get(), 0x01ff);
    pointer.next();
    assert_eq!(pointer.get(), 0x01fe);
    pointer.prev();
    assert_eq!(pointer.get(), 0x01ff);
}

#[test]
fn rotate() {
    assert_eq!(
        Displacement::Rotation(Direction::Left, false).displace(0b0101_0101),
        (0b1010_1010, false)
    );
    assert_eq!(
        Displacement::Rotation(Direction::Left, true).displace(0b0101_0101),
        (0b1010_1011, false)
    );
    assert_eq!(
        Displacement::Rotation(Direction::Left, true).displace(0b1010_1010),
        (0b0101_0101, true)
    );
    assert_eq!(
        Displacement::Rotation(Direction::Right, false).displace(0b0101_0101),
        (0b0010_1010, true)
    );
    assert_eq!(
        Displacement::Rotation(Direction::Right, true).displace(0b0101_0100),
        (0b1010_1010, false)
    );
    assert_eq!(
        Displacement::Rotation(Direction::Right, false).displace(0b1010_1010),
        (0b0101_0101, false)
    );
}

#[test]
fn shift() {
    assert_eq!(
        Displacement::Shift(Direction::Left).displace(0b0101_0101),
        (0b1010_1010, false)
    );
    assert_eq!(
        Displacement::Shift(Direction::Left).displace(0b1010_1010),
        (0b010_10100, true)
    );
}

#[test]
fn cpu_mem_read_little_endian() {
    let mut mem = CpuMem::new();
    mem.write(0, 0x01);
    mem.write(1, 0x23);

    assert_eq!(mem.read_u16(0), 0x2301)
}

#[test]
fn cpu_mem_write_little_endian() {
    let mut mem = CpuMem::new();
    mem.write_u16(0, 0x0123);

    assert_eq!(mem.read_u16(0), 0x0123)
}

#[test]
fn memory_read_little_endian() {
    let mut mem = CpuMem::new();
    mem.write(0, 0x01);
    mem.write(1, 0x23);

    assert_eq!(mem.read_u16(0), 0x2301)
}

#[test]
fn memory_write_little_endian() {
    let mut mem = CpuMem::new();
    mem.write_u16(0, 0x0123);

    assert_eq!(mem.read_u16(0), 0x0123)
}

#[test]
fn invalid_format() {
    assert!(matches!(
        Rom::new(&vec![0, 1, 2, 3, 4]),
        Err(NoveError::WrongRomFormat)
    ));
    assert!(matches!(
        Rom::new(&vec![b'N', b'E', b'S', 0x1a, 0, 0, 0, 4]),
        Err(NoveError::WrongRomFormat)
    ));
}

#[test]
fn cpu_mem_update() {
    let mut mem = CpuMem::new();
    mem.write(0, 1);
    mem.update(0, |prev| prev + 1);

    assert_eq!(mem.read(0), 2)
}

#[test]
fn memory_update() {
    let mut mem = CpuMem::new();
    mem.write(0, 1);
    mem.update(0, |prev| prev + 1);

    assert_eq!(mem.read(0), 2)
}
