//! The cartridge loader: validates an iNES 1.0 image and slices it into PRG
//! ROM, CHR ROM, the mapper id and the nametable mirroring tag.
use crate::exception::NoveError;
use crate::Program;
use vstd::prelude::*;

verus! {

/// Length of the iNES header.
pub const HEADER_SIZE: usize = 16;

/// Length of the optional trainer block between header and PRG ROM.
pub const TRAINER_SIZE: usize = 512;

/// PRG ROM comes in pages of 16 KiB.
pub const PRG_ROM_PAGE_SIZE: usize = 16384;

/// CHR ROM comes in pages of 8 KiB.
pub const CHR_ROM_PAGE_SIZE: usize = 8192;

/// How the cartridge wires the four logical nametables onto the console's
/// two physical pages.
#[derive(Clone, Copy, Debug, PartialEq, Eq, Structural)]
pub enum Mirroring {
    Vertical,
    Horizontal,
    FourScreen,
}

/// The mirroring tag encoded in header byte 6: bit 3 selects four-screen,
/// otherwise bit 0 picks vertical over horizontal.
pub open spec fn spec_mirroring_of(value: u8) -> Mirroring {
    if value & 0x08 != 0 {
        Mirroring::FourScreen
    } else if value & 0x01 != 0 {
        Mirroring::Vertical
    } else {
        Mirroring::Horizontal
    }
}

/// Reads the mirroring tag out of header byte 6.
pub fn mirroring_of(value: u8) -> (r: Mirroring)
    ensures
        r == spec_mirroring_of(value),
{
    if value & 0x08 != 0 {
        Mirroring::FourScreen
    } else if value & 0x01 != 0 {
        Mirroring::Vertical
    } else {
        Mirroring::Horizontal
    }
}

/// True when the image starts with the iNES magic "NES\x1A".
pub open spec fn spec_has_nes_tag(raw: Seq<u8>) -> bool {
    &&& raw.len() >= 4
    &&& raw[0] == 0x4e
    &&& raw[1] == 0x45
    &&& raw[2] == 0x53
    &&& raw[3] == 0x1a
}

/// Where PRG ROM starts: after the header, and after the 512-byte trainer
/// when header byte 6 announces one.
pub open spec fn spec_prg_start(raw: Seq<u8>) -> int {
    HEADER_SIZE + if raw[6] & 0x04 != 0 {
        TRAINER_SIZE as int
    } else {
        0
    }
}

/// Where CHR ROM starts: after the PRG pages.
pub open spec fn spec_chr_start(raw: Seq<u8>) -> int {
    spec_prg_start(raw) + raw[4] * PRG_ROM_PAGE_SIZE
}

/// Where CHR ROM ends.
pub open spec fn spec_chr_end(raw: Seq<u8>) -> int {
    spec_chr_start(raw) + raw[5] * CHR_ROM_PAGE_SIZE
}

/// A loadable image: the magic matches, the version bits name iNES 1.0, and
/// the announced pages all lie inside the image.
pub open spec fn spec_rom_wf(raw: Seq<u8>) -> bool {
    &&& raw.len() >= HEADER_SIZE
    &&& spec_has_nes_tag(raw)
    &&& (raw[7] >> 2) & 0x03 == 0
    &&& spec_chr_end(raw) <= raw.len()
}

/// A loaded cartridge.
#[derive(Debug)]
pub struct Rom {
    /// The program pages the CPU sees at 0x8000.
    pub prg_rom: Program,
    /// The pattern pages the PPU reads tiles from.
    pub chr_rom: Program,
    /// The mapper id; only mapper 0 is in scope.
    pub mapper: u8,
    /// The nametable mirroring the cartridge selects; immutable after load.
    pub screen_mirroring: Mirroring,
}

impl Rom {
    /// Validates the header and slices the image. Returns `WrongRomFormat`
    /// if and only if the image is not a well-formed iNES 1.0 file: bad or
    /// missing magic, iNES 2.0 version bits, or a header announcing more
    /// bytes than the image holds.
    pub fn new(raw: &Program) -> (r: Result<Rom, NoveError>)
        ensures
            r is Ok <==> spec_rom_wf(raw@),
            r matches Ok(rom) ==> {
                &&& rom.prg_rom@ == raw@.subrange(spec_prg_start(raw@), spec_chr_start(raw@))
                &&& rom.chr_rom@ == raw@.subrange(spec_chr_start(raw@), spec_chr_end(raw@))
                &&& rom.mapper == (raw@[7] & 0xf0) | (raw@[6] >> 4)
                &&& rom.screen_mirroring == spec_mirroring_of(raw@[6])
            },
            r is Err ==> r == Err::<Rom, NoveError>(NoveError::WrongRomFormat),
    {
        if raw.len() < 4 || raw[0] != 0x4e || raw[1] != 0x45 || raw[2] != 0x53 || raw[3] != 0x1a {
            return Err(NoveError::WrongRomFormat);
        }
        if raw.len() < HEADER_SIZE {
            return Err(NoveError::WrongRomFormat);
        }
        if (raw[7] >> 2) & 0x03 != 0 {
            return Err(NoveError::WrongRomFormat);
        }

        let prg_rom_size = (raw[4] as usize) * PRG_ROM_PAGE_SIZE;
        let chr_rom_size = (raw[5] as usize) * CHR_ROM_PAGE_SIZE;

        let trainer = raw[6] & 0x04 != 0;

        let prg_rom_start = HEADER_SIZE + if trainer {
            TRAINER_SIZE
        } else {
            0
        };
        let chr_rom_start = prg_rom_start + prg_rom_size;
        let chr_rom_end = chr_rom_start + chr_rom_size;

        if chr_rom_end > raw.len() {
            return Err(NoveError::WrongRomFormat);
        }

        Ok(
            Rom {
                prg_rom: copy_range(raw, prg_rom_start, chr_rom_start),
                chr_rom: copy_range(raw, chr_rom_start, chr_rom_end),
                mapper: (raw[7] & 0xf0) | (raw[6] >> 4),
                screen_mirroring: mirroring_of(raw[6]),
            },
        )
    }
}

/// Copies `src[start..end]` into a fresh vector.
fn copy_range(src: &Vec<u8>, start: usize, end: usize) -> (r: Vec<u8>)
    requires
        start <= end <= src.len(),
    ensures
        r@ == src@.subrange(start as int, end as int),
{
    let mut out: Vec<u8> = Vec::new();
    let mut i: usize = start;
    while i < end
        invariant
            start <= i <= end <= src.len(),
            out@ == src@.subrange(start as int, i as int),
        decreases end - i,
    {
        out.push(src[i]);
        proof {
            assert(out@ =~= src@.subrange(start as int, i + 1));
        }
        i = i + 1;
    }
    out
}

} // verus!
