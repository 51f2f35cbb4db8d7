//! The tile reader: walks a 16-byte tile (two 8-byte bit planes) and yields
//! the 2-bit colour index of each pixel, row by row, most significant bit
//! first.
use vstd::prelude::*;

verus! {

/// Pixels per tile row.
pub const TILE_WIDTH: usize = 8;

/// Rows per tile.
pub const TILE_HEIGHT: usize = 8;

/// A byte shifted left `k` times, dropping bits off the top.
pub open spec fn spec_shifted(b: u8, k: nat) -> u8
    decreases k,
{
    if k == 0 {
        b
    } else {
        spec_shifted(b, (k - 1) as nat) << 1
    }
}

/// The colour index of the pixel at column `x` of row `y`: bit `7 - x` of
/// the upper plane is the high colour bit, the same bit of the lower plane
/// the low one.
pub open spec fn spec_tile_pixel(tile: Seq<u8>, x: nat, y: nat) -> u8 {
    ((spec_shifted(tile[y as int], x) & 0x80) >> 6) | ((spec_shifted(
        tile[y as int + 8],
        x,
    ) & 0x80) >> 7)
}

/// All 64 colour indices of a tile, row-major.
pub open spec fn spec_tile_values(tile: Seq<u8>) -> Seq<u8> {
    Seq::new(64, |i: int| spec_tile_pixel(tile, (i % 8) as nat, (i / 8) as nat))
}

/// A cursor over one tile's pixels.
pub struct TileReader<'a> {
    tile: &'a [u8],
    x: usize,
    y: usize,
    upper: u8,
    lower: u8,
}

impl<'a> TileReader<'a> {
    /// The pixels already handed out. The column counter runs ahead to 8
    /// before the row counter advances.
    pub closed spec fn pos(&self) -> int {
        if self.x == TILE_WIDTH {
            (self.y + 1) * 8
        } else {
            self.y * 8 + self.x
        }
    }

    /// The tile being read.
    pub closed spec fn tile_view(&self) -> Seq<u8> {
        self.tile@
    }

    /// The cursor is consistent with its tile: the plane bytes hold the
    /// current row shifted past the pixels already emitted.
    pub closed spec fn wf(&self) -> bool {
        &&& self.tile@.len() >= 16
        &&& self.x <= TILE_WIDTH
        &&& self.y < TILE_HEIGHT
        &&& self.upper == spec_shifted(self.tile@[self.y as int], self.x as nat)
        &&& self.lower == spec_shifted(self.tile@[self.y as int + 8], self.x as nat)
    }

    /// A reader at the first pixel of the first row.
    pub fn new(tile: &'a [u8]) -> (r: Self)
        requires
            tile@.len() >= 16,
        ensures
            r.wf(),
            r.pos() == 0,
            r.tile_view() == tile@,
    {
        TileReader { tile, x: 0, y: 0, upper: tile[0], lower: tile[TILE_HEIGHT] }
    }

    /// The next pixel's colour index, or `None` once all 64 are out.
    pub fn next(&mut self) -> (r: Option<u8>)
        requires
            old(self).wf(),
            old(self).pos() <= 64,
        ensures
            final(self).tile_view() == old(self).tile_view(),
            old(self).pos() < 64 ==> {
                &&& r == Some(spec_tile_values(old(self).tile_view())[old(self).pos()])
                &&& final(self).wf()
                &&& final(self).pos() == old(self).pos() + 1
            },
            old(self).pos() == 64 ==> r is None,
    {
        if self.x == TILE_WIDTH {
            self.x = 0;
            self.y = self.y + 1;

            if self.y == TILE_HEIGHT {
                return None;
            }
            self.upper = self.tile[self.y];
            self.lower = self.tile[self.y + TILE_HEIGHT];
        }
        let val = (self.upper & 0x80) >> 6 | (self.lower & 0x80) >> 7;

        self.x = self.x + 1;
        self.upper = self.upper << 1;
        self.lower = self.lower << 1;
        Some(val)
    }
}

} // verus!
