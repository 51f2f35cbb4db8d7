//! Object attribute memory: 256 bytes of sprite state behind an address
//! register, written through 0x2004 with an auto-incrementing address.
use crate::register::Register;
use vstd::prelude::*;

verus! {

/// The number of OAM bytes.
pub const OAM_SIZE: usize = 256;

/// The OAM array with its address register.
pub struct Oam {
    /// The index the next data access uses, written through 0x2003.
    pub addr: Register,
    /// The sprite bytes.
    pub data: Vec<u8>,
}

impl Oam {
    /// OAM always holds exactly 256 bytes.
    pub open spec fn wf(&self) -> bool {
        self.data.len() == OAM_SIZE
    }

    /// A cleared OAM.
    pub fn new() -> (r: Self)
        ensures
            r.wf(),
            r.addr.0 == 0,
            r.data@ == Seq::new(256, |i: int| 0u8),
    {
        let mut data: Vec<u8> = Vec::new();
        let mut i: usize = 0;
        while i < OAM_SIZE
            invariant
                i <= OAM_SIZE,
                data@ == Seq::new(i as nat, |j: int| 0u8),
            decreases OAM_SIZE - i,
        {
            data.push(0);
            proof {
                assert(data@ =~= Seq::new((i + 1) as nat, |j: int| 0u8));
            }
            i = i + 1;
        }
        Oam { addr: Register(0), data }
    }

    /// Reads the byte the address register points at; the address stays put.
    pub fn read(&self) -> (r: u8)
        requires
            self.wf(),
        ensures
            r == self.data@[self.addr.0 as int],
    {
        self.data[self.addr.get() as usize]
    }

    /// Writes the byte the address register points at, then advances the
    /// address by one, wrapping.
    pub fn write(&mut self, val: u8)
        requires
            old(self).wf(),
        ensures
            final(self).wf(),
            final(self).data@ == old(self).data@.update(old(self).addr.0 as int, val),
            final(self).addr.0 == old(self).addr.0.wrapping_add(1),
    {
        let idx = self.addr.get() as usize;
        self.data.set(idx, val);
        let next = self.addr.get().wrapping_add(1);
        self.addr.assign(next);
    }
}

impl Default for Oam {
    /// A cleared OAM.
    fn default() -> (r: Self)
        ensures
            r.wf(),
            r.addr.0 == 0,
            r.data@ == Seq::new(256, |i: int| 0u8),
    {
        Oam::new()
    }
}

} // verus!
