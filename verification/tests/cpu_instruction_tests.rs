//! Instruction-level tests: each opcode family run through a small program
//! on the flat test memory, checking registers, flags, memory and the
//! program counter.
use nove_core::cpu::processor_status::StatusFlag;
use nove_core::cpu::Core6502;
use nove_core::interrupt::InterruptFlag;
use nove_core::memory::Memory;

const START_ADDR: u16 = 0x8000;

const A: u8 = 0xa9;
const X: u8 = 0xa2;
const Y: u8 = 0xa0;

const C: u8 = 0x01;
const I: u8 = 0x04;
const D: u8 = 0x08;
const N: u8 = 0x80;
const O: u8 = 0x20;
const Z: u8 = 0x02;
const V: u8 = 0x40;

const SET_C: u8 = 0x38;
const PUSH_A: u8 = 0x48;
const PUSH_PS: u8 = 0x08;

/// Appends the halt opcode, loads the program at 0x8000, resets, clears the
/// status byte and runs until BRK, as the original harness did.
fn load_and_run(core: &mut Core6502, mut program: Vec<u8>) {
    program.push(0x00);
    core.load(program);
    core.reset();
    core.ps.set(0);
    loop {
        match core.tick() {
            Ok(InterruptFlag::BRK) => return,
            Ok(_) => {}
            Err(e) => panic!("unexpected tick error: {:?}", e),
        }
    }
}

fn expect_pc(core: &Core6502, add: u16) {
    assert_eq!(core.pc, START_ADDR + add + 7);
}

fn preloaded_core() -> Core6502 {
    let mut core = Core6502::new();
    core.memory.write(0x0005, 0x0a);
    core.memory.write(0x0050, 0x05);
    core
}

fn test_branch(rom: Vec<u8>, jmp: u16) {
    let mut core = Core6502::new();
    load_and_run(&mut core, rom);
    assert_eq!(core.pc, START_ADDR + 1 + jmp + 1 + 1);
}

#[test]
fn adc() {
    let mut core = preloaded_core();
    load_and_run(&mut core, vec![A, 0x00, X, 0x00, Y, 0x00, 0x69, 0x10]);
    assert_eq!(core.a.get(), 0x10);
    expect_pc(&core, 2);
    assert_eq!(core.ps.0, 0);
    load_and_run(&mut core, vec![A, 0x7f, X, 0x00, Y, 0x00, 0x69, 0x01]);
    assert_eq!(core.a.get(), 0x80);
    expect_pc(&core, 2);
    assert_eq!(core.ps.0, V + N);
    load_and_run(&mut core, vec![A, 0xff, X, 0x00, Y, 0x00, 0x69, 0x02]);
    assert_eq!(core.a.get(), 0x01);
    expect_pc(&core, 2);
    assert_eq!(core.ps.0, C);
}

#[test]
fn and() {
    let mut core = preloaded_core();
    load_and_run(&mut core, vec![A, 0b00001010, X, 0x00, Y, 0x00, 0x29, 0b1100]);
    assert_eq!(core.a.get(), 0b1000);
    expect_pc(&core, 2);
    assert_eq!(core.ps.0, 0);
}

#[test]
fn asl() {
    let mut core = preloaded_core();
    load_and_run(&mut core, vec![A, 0b0001_0101, X, 0, Y, 0, 0x0a]);
    assert_eq!(core.a.get(), 0b0010_1010);
    expect_pc(&core, 1);
    assert_eq!(core.ps.0, 0);
    load_and_run(&mut core, vec![A, 0b1001_0101, X, 0, Y, 0, 0x0a]);
    assert_eq!(core.a.get(), 0b0010_1010);
    expect_pc(&core, 1);
    assert_eq!(core.ps.0, C);
}

#[test]
fn bcc() {
    test_branch(vec![0x90, 0x03], 0x03);
}

#[test]
fn bcs() {
    test_branch(vec![SET_C, 0xb0, 0x03], 0x03 + 1);
}

#[test]
fn beq() {
    test_branch(vec![A, 0, 0xf0, 0x03], 0x03 + 2);
}

#[test]
fn bit() {
    let mut core = preloaded_core();
    core.memory.write(0x0010, 0b0100_0000);
    core.memory.write(0x0020, 0b1000_0000);
    core.memory.write(0x0030, 0b1111_0000);

    load_and_run(&mut core, vec![A, 0b0000_0011, X, 0, Y, 0, 0x2c, 0x05, 0x00]);
    expect_pc(&core, 3);
    assert_eq!(core.ps.0, 0);
    load_and_run(&mut core, vec![A, 0b0000_1111, X, 0, Y, 0, 0x24, 0x30]);
    expect_pc(&core, 2);
    assert_eq!(core.ps.0, Z + V + N);
}

#[test]
fn bmi() {
    test_branch(vec![A, 0_u8.wrapping_sub(2), 0x30, 0x03], 0x03 + 2);
}

#[test]
fn bne() {
    test_branch(vec![0xd0, 0x03], 0x03);
}

#[test]
fn bpl() {
    test_branch(vec![0x10, 0x03], 0x03);
}

#[test]
fn bvc() {
    test_branch(vec![0x50, 0x03], 0x03);
}

#[test]
fn bvs() {
    test_branch(vec![A, 64, 0x69, 64, 0x70, 0x03], 0x03 + 4);
}

#[test]
fn clc() {
    let mut core = Core6502::new();
    core.ps.set_bit(StatusFlag::Carry, true);
    load_and_run(&mut core, vec![A, 1, X, 1, Y, 1, 0x18]);
    assert_eq!(core.a.get(), 1);
    expect_pc(&core, 1);
    assert_eq!(core.ps.0, 0);
}

#[test]
fn cld() {
    let mut core = Core6502::new();
    core.ps.set_bit(StatusFlag::Decimal, true);
    load_and_run(&mut core, vec![A, 1, X, 1, Y, 1, 0xd8]);
    assert_eq!(core.a.get(), 1);
    expect_pc(&core, 1);
    assert_eq!(core.ps.0, 0);
}

#[test]
fn cli() {
    let mut core = Core6502::new();
    core.ps.set_bit(StatusFlag::Interrupt, true);
    load_and_run(&mut core, vec![A, 1, X, 1, Y, 1, 0x58]);
    assert_eq!(core.a.get(), 1);
    expect_pc(&core, 1);
    assert_eq!(core.ps.0, 0);
}

#[test]
fn clv() {
    let mut core = Core6502::new();
    core.ps.set_bit(StatusFlag::Overflow, true);
    load_and_run(&mut core, vec![A, 1, X, 1, Y, 1, 0xb8]);
    assert_eq!(core.a.get(), 1);
    expect_pc(&core, 1);
    assert_eq!(core.ps.0, 0);
}

#[test]
fn cmp() {
    let mut core = preloaded_core();
    load_and_run(&mut core, vec![A, 0x00, X, 0x00, Y, 0x00, 0xc9, 0xff]);
    assert_eq!(core.a.get(), 0x00);
    expect_pc(&core, 2);
    assert_eq!(core.ps.0, 0);
    load_and_run(&mut core, vec![A, 0x20, X, 0x00, Y, 0x00, 0xc9, 0x10]);
    assert_eq!(core.a.get(), 0x20);
    expect_pc(&core, 2);
    assert_eq!(core.ps.0, C);
}

#[test]
fn cpx() {
    let mut core = preloaded_core();
    load_and_run(&mut core, vec![A, 0x00, X, 0x00, Y, 0x00, 0xe0, 0xff]);
    assert_eq!(core.a.get(), 0x00);
    expect_pc(&core, 2);
    assert_eq!(core.ps.0, 0);
    load_and_run(&mut core, vec![A, 0x20, X, 0x20, Y, 0x00, 0xe0, 0x10]);
    assert_eq!(core.a.get(), 0x20);
    expect_pc(&core, 2);
    assert_eq!(core.ps.0, C);
}

#[test]
fn cpy() {
    let mut core = preloaded_core();
    load_and_run(&mut core, vec![A, 0x00, X, 0x00, Y, 0x00, 0xc0, 0xff]);
    assert_eq!(core.a.get(), 0x00);
    expect_pc(&core, 2);
    assert_eq!(core.ps.0, 0);
    load_and_run(&mut core, vec![A, 0x20, X, 0x20, Y, 0x20, 0xc0, 0x10]);
    assert_eq!(core.a.get(), 0x20);
    expect_pc(&core, 2);
    assert_eq!(core.ps.0, C);
}

#[test]
fn dcp() {
    let mut core = preloaded_core();
    load_and_run(&mut core, vec![A, 0x0a, X, 0, Y, 1, 0xc7, 0x05]);
    assert_eq!(core.memory.read_u16(0x05), 0x09);
    expect_pc(&core, 2);
    assert_eq!(core.ps.0, C);
}

#[test]
fn dec() {
    let mut core = preloaded_core();
    load_and_run(&mut core, vec![A, 0, X, 0x00, Y, 0, 0xce, 0x05, 0x00]);
    assert_eq!(core.memory.read_u16(0x0005), 9);
    expect_pc(&core, 3);
}

#[test]
fn dex() {
    let mut core = Core6502::new();
    load_and_run(&mut core, vec![A, 0, X, 5, Y, 0, 0xca]);
    assert_eq!(core.x.get(), 0x04);
    expect_pc(&core, 1);
    assert_eq!(core.ps.0, 0);
}

#[test]
fn dey() {
    let mut core = Core6502::new();
    load_and_run(&mut core, vec![A, 0, X, 0, Y, 5, 0x88]);
    assert_eq!(core.y.get(), 0x04);
    expect_pc(&core, 1);
    assert_eq!(core.ps.0, 0);
    load_and_run(&mut core, vec![A, 0, X, 0, Y, 1, 0x88]);
    assert_eq!(core.y.get(), 0x00);
    expect_pc(&core, 1);
    assert_eq!(core.ps.0, Z);
    load_and_run(&mut core, vec![A, 0, X, 0, Y, 0, 0x88]);
    assert_eq!(core.y.get(), 0xff);
    expect_pc(&core, 1);
    assert_eq!(core.ps.0, N);
}

#[test]
fn eor() {
    let mut core = preloaded_core();
    load_and_run(&mut core, vec![A, 0b00001010, X, 0x00, Y, 0x00, 0x49, 0b1100]);
    assert_eq!(core.a.get(), 0b0110);
    expect_pc(&core, 2);
    assert_eq!(core.ps.0, 0);
}

#[test]
fn core_inc() {
    let mut core = preloaded_core();
    load_and_run(&mut core, vec![A, 0, X, 0x00, Y, 0, 0xee, 0x05, 0x00]);
    assert_eq!(core.memory.read_u16(0x0005), 11);
    expect_pc(&core, 3);
}

#[test]
fn core_inx() {
    let mut core = Core6502::new();
    load_and_run(&mut core, vec![A, 0, X, 0x05, Y, 0, 0xe8]);
    assert_eq!(core.x.get(), 0x06);
    expect_pc(&core, 1);
    assert_eq!(core.ps.0, 0);
}

#[test]
fn iny() {
    let mut core = Core6502::new();
    load_and_run(&mut core, vec![A, 0, X, 0, Y, 0x05, 0xc8]);
    assert_eq!(core.y.get(), 0x06);
    expect_pc(&core, 1);
    assert_eq!(core.ps.0, 0);
}

#[test]
fn isb() {
    let mut core = preloaded_core();
    load_and_run(&mut core, vec![A, 0x1c, X, 0x00, Y, 0x00, 0xe7, 0x05]);
    assert_eq!(core.a.get(), 0x10);
    expect_pc(&core, 2);
    assert_eq!(core.ps.0, C);
}

#[test]
fn jmp() {
    let mut core = Core6502::new();
    core.memory.write_u16(0x0050, 0x0100);
    load_and_run(&mut core, vec![0x4c, 0x05, 0x00]);
    assert_eq!(core.pc, 0x0006);
    load_and_run(&mut core, vec![0x6c, 0x50, 0x00]);
    assert_eq!(core.pc, 0x0101);
}

#[test]
fn jsr() {
    let mut core = preloaded_core();
    load_and_run(&mut core, vec![0x20, 0x05, 0x00]);
    assert_eq!(core.pc, 0x0007);
    let peek = core.memory.read_u16(core.sp.get() + 1);
    assert_eq!(peek, START_ADDR + 2);
}

#[test]
fn lax() {
    let mut core = preloaded_core();
    load_and_run(&mut core, vec![A, 0, X, 0x00, Y, 0x00, 0xaf, 0x05, 0x00]);
    assert_eq!(core.a.get(), 10);
    assert_eq!(core.x.get(), 10);
    expect_pc(&core, 3);
}

#[test]
fn core_lda() {
    let mut core = preloaded_core();
    load_and_run(&mut core, vec![A, 0, X, 0, Y, 0, 0xa9, 0x10]);
    assert_eq!(core.a.get(), 0x10);
    expect_pc(&core, 2);
    assert_eq!(core.ps.0, 0);
}

#[test]
fn ldx() {
    let mut core = preloaded_core();
    load_and_run(&mut core, vec![A, 0, X, 0, Y, 0, 0xa2, 0x10]);
    assert_eq!(core.x.get(), 0x10);
    expect_pc(&core, 2);
    assert_eq!(core.ps.0, 0);
}

#[test]
fn ldy() {
    let mut core = preloaded_core();
    load_and_run(&mut core, vec![A, 0, X, 0, Y, 0, 0xa0, 0x10]);
    assert_eq!(core.y.get(), 0x10);
    expect_pc(&core, 2);
    assert_eq!(core.ps.0, 0);
}

#[test]
fn lsr() {
    let mut core = preloaded_core();
    load_and_run(&mut core, vec![A, 0b0101_0100, X, 0, Y, 0, 0x4a]);
    assert_eq!(core.a.get(), 0b0010_1010);
    expect_pc(&core, 1);
    assert_eq!(core.ps.0, 0);
    load_and_run(&mut core, vec![A, 0b1001_0101, X, 0, Y, 0, 0x4a]);
    assert_eq!(core.a.get(), 0b0100_1010);
    expect_pc(&core, 1);
    assert_eq!(core.ps.0, C);
}

#[test]
fn nop() {
    let mut core = Core6502::new();
    load_and_run(&mut core, vec![A, 0, X, 0, Y, 0, 0xea]);
    expect_pc(&core, 1);
}

#[test]
fn ora() {
    let mut core = preloaded_core();
    load_and_run(&mut core, vec![A, 0b00001010, X, 0x00, Y, 0x00, 0x09, 0b1100]);
    assert_eq!(core.a.get(), 0b1110);
    expect_pc(&core, 2);
    assert_eq!(core.ps.0, 0);
}

#[test]
fn pha() {
    let mut core = Core6502::new();
    load_and_run(&mut core, vec![A, 0x12, X, 0, Y, 0, 0x48]);
    assert_eq!(core.memory.read_u16(0x01fd), 0x12);
    expect_pc(&core, 1);
}

#[test]
fn phs() {
    let mut core = Core6502::new();
    load_and_run(&mut core, vec![A, 0, X, 0, Y, 0, 0x08]);
    assert_eq!(core.memory.read_u16(0x01fd), 0b0011_0010);
    expect_pc(&core, 1);
}

#[test]
fn pla() {
    let mut core = Core6502::new();
    load_and_run(&mut core, vec![A, 2, X, 0, Y, 0, 0x08, 0x68]);
    assert_eq!(core.a.get(), 0b0011_0010);
    expect_pc(&core, 2);
}

#[test]
fn plp() {
    let mut core = Core6502::new();
    load_and_run(&mut core, vec![A, 0b1011_0000, X, 0, Y, 0, 0x48, 0x28]);
    expect_pc(&core, 2);
    assert_eq!(core.ps.0, N + O);
}

#[test]
fn rla() {
    let mut core = preloaded_core();
    load_and_run(&mut core, vec![A, 0b1011, X, 0, Y, 0, SET_C, 0x27, 0x05]);
    assert_eq!(core.a.get(), 0b0001);
    expect_pc(&core, 3);
    assert_eq!(core.ps.0, 0);
    assert_eq!(0b0001_0101, core.memory.read(0x05));
}

#[test]
fn rol() {
    let mut core = preloaded_core();
    load_and_run(&mut core, vec![A, 0b0001_0101, X, 0, Y, 0, 0x2a]);
    assert_eq!(core.a.get(), 0b0010_1010);
    expect_pc(&core, 1);
    assert_eq!(core.ps.0, 0);
    load_and_run(&mut core, vec![A, 0b1001_0101, X, 0, Y, 0, SET_C, 0x2a]);
    assert_eq!(core.a.get(), 0b0010_1011);
    expect_pc(&core, 2);
    assert_eq!(core.ps.0, C);
}

#[test]
fn ror() {
    let mut core = preloaded_core();
    load_and_run(&mut core, vec![A, 0b0001_0100, X, 0, Y, 0, 0x6a]);
    assert_eq!(core.a.get(), 0b0000_1010);
    expect_pc(&core, 1);
    assert_eq!(core.ps.0, 0);
    load_and_run(&mut core, vec![A, 0b1001_0101, X, 0, Y, 0, 0x6a]);
    assert_eq!(core.a.get(), 0b0100_1010);
    expect_pc(&core, 1);
    assert_eq!(core.ps.0, C);
}

#[test]
fn rra() {
    let mut core = preloaded_core();
    load_and_run(&mut core, vec![A, 0b0100, X, 0, Y, 0, SET_C, 0x67, 0x05]);
    assert_eq!(core.a.get(), 0b1000_1001);
    expect_pc(&core, 3);
    assert_eq!(core.ps.0, N);
    assert_eq!(0b1000_0101, core.memory.read(0x05));
}

#[test]
fn rti() {
    let mut core = preloaded_core();
    load_and_run(
        &mut core,
        vec![A, 0x12, PUSH_A, A, 0x00, PUSH_A, PUSH_PS, 0x40],
    );
    assert_eq!(core.pc, 0x1200 + 1);
    assert_eq!(core.ps.0, Z + O);
}

#[test]
fn rts() {
    let mut core = preloaded_core();
    load_and_run(&mut core, vec![A, 0x12, PUSH_A, A, 0x00, PUSH_A, 0x60]);
    assert_eq!(core.pc, 0x1202);
}

#[test]
fn sax() {
    let mut core = Core6502::new();
    load_and_run(&mut core, vec![A, 0b1010, X, 0b1100, Y, 0, 0x87, 0x25]);
    assert_eq!(core.memory.read_u16(0x25), 0b1000);
    expect_pc(&core, 2);
}

#[test]
fn sbc() {
    let mut core = preloaded_core();
    load_and_run(&mut core, vec![A, 0x08, X, 0x00, Y, 0x00, 0xe9, 0x06]);
    assert_eq!(core.a.get(), 0x01);
    expect_pc(&core, 2);
    assert_eq!(core.ps.0, C);
    load_and_run(&mut core, vec![A, 0x08, X, 0x00, Y, 0x00, 0xe9, 0x07]);
    assert_eq!(core.a.get(), 0x00);
    expect_pc(&core, 2);
    assert_eq!(core.ps.0, Z + C);
    load_and_run(&mut core, vec![A, 0x40, X, 0x00, Y, 0x00, 0xe9, 0x80]);
    assert_eq!(core.a.get(), 0xbf);
    expect_pc(&core, 2);
    assert_eq!(core.ps.0, V + N);
}

#[test]
fn sec() {
    let mut core = Core6502::new();
    load_and_run(&mut core, vec![A, 1, X, 1, Y, 1, 0x38]);
    expect_pc(&core, 1);
    assert_eq!(core.ps.0, C);
}

#[test]
fn sed() {
    let mut core = Core6502::new();
    load_and_run(&mut core, vec![A, 1, X, 1, Y, 1, 0xf8]);
    expect_pc(&core, 1);
    assert_eq!(core.ps.0, D);
}

#[test]
fn sei() {
    let mut core = Core6502::new();
    load_and_run(&mut core, vec![A, 1, X, 1, Y, 1, 0x78]);
    expect_pc(&core, 1);
    assert_eq!(core.ps.0, I);
}

#[test]
fn slo() {
    let mut core = preloaded_core();
    load_and_run(&mut core, vec![A, 0b1010, X, 0x00, Y, 0x00, 0x07, 0x05]);
    assert_eq!(core.a.get(), 0b0001_1110);
    expect_pc(&core, 2);
    assert_eq!(core.ps.0, 0);
    assert_eq!(0b0001_0100, core.memory.read(0x05));
}

#[test]
fn sre() {
    let mut core = preloaded_core();
    load_and_run(&mut core, vec![A, 0b1100, X, 0x00, Y, 0x00, 0x47, 0x05]);
    assert_eq!(core.a.get(), 0b1001);
    expect_pc(&core, 2);
    assert_eq!(core.ps.0, 0);
    assert_eq!(0b0101, core.memory.read(0x05));
}

#[test]
fn sta() {
    let mut core = preloaded_core();
    load_and_run(&mut core, vec![A, 10, X, 0x00, Y, 0x00, 0x8d, 0x05, 0x00]);
    assert_eq!(core.memory.read_u16(0x0005), 10);
    expect_pc(&core, 3);
}

#[test]
fn stx() {
    let mut core = Core6502::new();
    load_and_run(&mut core, vec![A, 0, X, 10, Y, 0, 0x8e, 0x05, 0x00]);
    assert_eq!(core.memory.read_u16(0x0005), 10);
    expect_pc(&core, 3);
}

#[test]
fn sty() {
    let mut core = Core6502::new();
    load_and_run(&mut core, vec![A, 0, X, 0, Y, 10, 0x8c, 0x05, 0x00]);
    assert_eq!(core.memory.read_u16(0x0005), 10);
    expect_pc(&core, 3);
}

#[test]
fn core_tax() {
    let mut core = Core6502::new();
    load_and_run(&mut core, vec![A, 0x10, X, 5, Y, 0, 0xaa]);
    assert_eq!(core.x.get(), 0x10);
    expect_pc(&core, 1);
    assert_eq!(core.ps.0, 0);
}

#[test]
fn tay() {
    let mut core = Core6502::new();
    load_and_run(&mut core, vec![A, 0x10, X, 0, Y, 5, 0xa8]);
    assert_eq!(core.y.get(), 0x10);
    expect_pc(&core, 1);
    assert_eq!(core.ps.0, 0);
}

#[test]
fn tsx() {
    let mut core = Core6502::new();
    load_and_run(&mut core, vec![A, 1, X, 1, Y, 1, 0xba]);
    assert_eq!(core.x.get(), 0xfd);
    expect_pc(&core, 1);
    assert_eq!(core.ps.0, N);
}

#[test]
fn txa() {
    let mut core = Core6502::new();
    load_and_run(&mut core, vec![A, 0, X, 0x05, Y, 0, 0x8a]);
    assert_eq!(core.a.get(), 0x05);
    expect_pc(&core, 1);
    assert_eq!(core.ps.0, 0);
}

#[test]
fn txs() {
    let mut core = Core6502::new();
    load_and_run(&mut core, vec![A, 0, Y, 0, X, 0x12, 0x9a]);
    assert_eq!(core.x.get(), 0x12);
    expect_pc(&core, 1);
    assert_eq!(core.sp.0, 0x12);
}

#[test]
fn tya() {
    let mut core = Core6502::new();
    load_and_run(&mut core, vec![A, 0, X, 0, Y, 0x05, 0x98]);
    assert_eq!(core.a.get(), 0x05);
    expect_pc(&core, 1);
    assert_eq!(core.ps.0, 0);
}
