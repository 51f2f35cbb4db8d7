//! The PPU scroll register: two bytes written through one port, X first,
//! with a toggle selecting the axis of the next write.
use crate::register::RegWrite;
use vstd::prelude::*;

verus! {

/// Which axis the next write lands on.
#[derive(Clone, Copy, Debug, PartialEq, Eq, Structural)]
pub enum Axis {
    X,
    Y,
}

impl Default for Axis {
    /// The first write after a reset selects the X axis.
    fn default() -> (r: Self)
        ensures
            r is X,
    {
        Axis::X
    }
}

/// The double-write scroll register.
pub struct ScrollRegister {
    pub x: u8,
    pub y: u8,
    pub ptr: Axis,
}

impl ScrollRegister {
    /// Puts the write toggle back onto the X axis, as a status read does.
    pub fn reset(&mut self)
        ensures
            final(self).ptr is X,
            final(self).x == old(self).x,
            final(self).y == old(self).y,
    {
        self.ptr = Axis::X;
    }
}

impl Default for ScrollRegister {
    /// A cleared scroll register waiting for an X byte.
    fn default() -> (r: Self)
        ensures
            r.x == 0,
            r.y == 0,
            r.ptr is X,
    {
        ScrollRegister { x: 0, y: 0, ptr: Axis::X }
    }
}

impl RegWrite for ScrollRegister {
    /// One write through the byte port: stores into the axis the toggle
    /// selects and flips the toggle.
    fn write(&mut self, val: u8)
        ensures
            final(self).x == (if old(self).ptr is X {
                val
            } else {
                old(self).x
            }),
            final(self).y == (if old(self).ptr is X {
                old(self).y
            } else {
                val
            }),
            final(self).ptr == (if old(self).ptr is X {
                Axis::Y
            } else {
                Axis::X
            }),
    {
        self.ptr = match self.ptr {
            Axis::X => {
                self.x = val;
                Axis::Y
            },
            Axis::Y => {
                self.y = val;
                Axis::X
            },
        }
    }
}

} // verus!
