//! The frame buffer: one byte of colour index per pixel, 256 by 240, filled
//! tile block by tile block by the renderer.
use crate::ppu::tile_reader::{TILE_HEIGHT, TILE_WIDTH};
use vstd::prelude::*;

verus! {

/// Bytes in one frame.
pub const BUFFER_SIZE: usize = 61440;

/// Values in one tile block.
pub const TILE_SIZE: usize = 64;

/// Tiles in one row of the frame.
pub const TILES_PER_ROW: u32 = 32;

/// A frame of colour indices.
pub struct Frame {
    /// One byte per pixel, stored tile block after tile block.
    pub buffer: Vec<u8>,
}

impl Frame {
    /// A frame always holds exactly its fixed byte count.
    pub open spec fn wf(&self) -> bool {
        self.buffer.len() == BUFFER_SIZE
    }

    /// A black frame.
    pub fn new() -> (r: Self)
        ensures
            r.wf(),
            r.buffer@ == Seq::new(BUFFER_SIZE as nat, |i: int| 0u8),
    {
        let mut buffer: Vec<u8> = Vec::new();
        let mut i: usize = 0;
        while i < BUFFER_SIZE
            invariant
                i <= BUFFER_SIZE,
                buffer@ == Seq::new(i as nat, |j: int| 0u8),
            decreases BUFFER_SIZE - i,
        {
            buffer.push(0);
            proof {
                assert(buffer@ =~= Seq::new((i + 1) as nat, |j: int| 0u8));
            }
            i = i + 1;
        }
        Frame { buffer }
    }

    /// Writes one decoded tile's 64 values as the block for tile column `x`
    /// of tile row `y`.
    pub fn set_tile(&mut self, x: u32, y: u32, values: &[u8])
        requires
            old(self).wf(),
            values@.len() == TILE_SIZE,
            y * TILES_PER_ROW + x < 960,
        ensures
            final(self).wf(),
            ({
                let idx = (y * TILES_PER_ROW + x) * TILE_SIZE;
                final(self).buffer@ == old(self).buffer@.take(idx as int).add(values@).add(
                    old(self).buffer@.skip(idx as int + TILE_SIZE),
                )
            }),
    {
        let idx = ((y * TILES_PER_ROW + x) as usize) * TILE_SIZE;
        let mut j: usize = 0;
        while j < TILE_SIZE
            invariant
                old(self).wf(),
                self.wf(),
                j <= TILE_SIZE,
                idx + TILE_SIZE <= BUFFER_SIZE,
                values@.len() == TILE_SIZE,
                self.buffer@ == old(self).buffer@.take(idx as int).add(values@.take(j as int)).add(
                    old(self).buffer@.skip(idx as int + j),
                ),
            decreases TILE_SIZE - j,
        {
            self.buffer.set(idx + j, values[j]);
            proof {
                assert(self.buffer@ =~= old(self).buffer@.take(idx as int).add(
                    values@.take(j as int + 1),
                ).add(old(self).buffer@.skip(idx as int + j + 1)));
            }
            j = j + 1;
        }
        proof {
            assert(values@.take(TILE_SIZE as int) =~= values@);
        }
    }

    /// Writes one pixel as a colour triple into three consecutive cells, as
    /// the red-green-blue surfaces do; out-of-range coordinates are ignored.
    pub fn set_pixel(&mut self, x: u32, y: u32, rgb: (u8, u8, u8))
        requires
            old(self).wf(),
        ensures
            final(self).wf(),
            ({
                let idx = (y as int) * 256 + (x as int);
                if idx + 2 < BUFFER_SIZE {
                    final(self).buffer@ == old(self).buffer@.update(idx, rgb.0).update(
                        idx + 1,
                        rgb.1,
                    ).update(idx + 2, rgb.2)
                } else {
                    final(self).buffer@ == old(self).buffer@
                }
            }),
    {
        let idx = (y as u64) * 256 + (x as u64);
        if idx + 2 < BUFFER_SIZE as u64 {
            let i = idx as usize;
            self.buffer.set(i, rgb.0);
            self.buffer.set(i + 1, rgb.1);
            self.buffer.set(i + 2, rgb.2);
        }
    }
}

} // verus!
