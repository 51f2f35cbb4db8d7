//! The displacement primitive: one-byte shifts and rotations with carry in
//! and carry out, shared by ASL, LSR, ROL and ROR.
use vstd::prelude::*;

verus! {

/// Which way a displacement moves the bits.
pub enum Direction {
    Left,
    Right,
}

/// A one-byte displacement: a plain shift, or a rotation that feeds the
/// carry flag into the vacated bit.
pub enum Displacement {
    Rotation(Direction, bool),
    Shift(Direction),
}

/// The byte and carry a displacement produces: shifts drop the outgoing bit
/// into the carry; rotations do the same and feed the old carry in.
pub open spec fn spec_displace(d: Displacement, val: u8) -> (u8, bool) {
    match d {
        Displacement::Rotation(Direction::Left, carry) => (
            (val << 1) | (if carry {
                1u8
            } else {
                0u8
            }),
            val >> 7 == 1,
        ),
        Displacement::Rotation(Direction::Right, carry) => (
            (val >> 1) | (if carry {
                0x80u8
            } else {
                0u8
            }),
            val & 1 == 1,
        ),
        Displacement::Shift(Direction::Left) => ((val << 1), val >> 7 == 1),
        Displacement::Shift(Direction::Right) => ((val >> 1), val & 1 == 1),
    }
}

impl Displacement {
    /// Applies the displacement to one byte, returning the new byte and the
    /// bit shifted out, which the CPU stores in the carry flag.
    pub fn displace(&self, val: u8) -> (r: (u8, bool))
        ensures
            r == spec_displace(*self, val),
    {
        match self {
            Displacement::Rotation(Direction::Left, carry) => {
                let c = val >> 7 == 1;
                let v = (val << 1) | if *carry {
                    1
                } else {
                    0
                };
                (v, c)
            },
            Displacement::Rotation(Direction::Right, carry) => {
                let c = val & 1 == 1;
                let v = (val >> 1) | if *carry {
                    0x80
                } else {
                    0
                };
                (v, c)
            },
            Displacement::Shift(Direction::Left) => (val << 1, val >> 7 == 1),
            Displacement::Shift(Direction::Right) => (val >> 1, val & 1 == 1),
        }
    }
}

} // verus!
