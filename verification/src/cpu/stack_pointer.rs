//! The stack pointer: the low byte of an address inside the fixed stack page
//! 0x0100-0x01FF. The stack grows downward.
use vstd::prelude::*;

verus! {

/// The page the stack lives in.
pub const STACK_PAGE: u16 = 0x0100;

/// The low byte of the stack pointer at power-up.
pub const STACK_START: u8 = 0xff;

/// The CPU stack pointer: a byte offset into the stack page.
pub struct StackPointer(pub u8);

impl StackPointer {
    /// The full 16-bit address the pointer designates.
    pub fn get(&self) -> (r: u16)
        ensures
            r == STACK_PAGE | self.0 as u16,
    {
        STACK_PAGE | (self.0 as u16)
    }

    /// Moves down one slot, as a push does; wraps within the page.
    pub fn next(&mut self)
        ensures
            final(self).0 == old(self).0.wrapping_sub(1),
    {
        self.0 = self.0.wrapping_sub(1)
    }

    /// Moves up one slot, as a pull does; wraps within the page.
    pub fn prev(&mut self)
        ensures
            final(self).0 == old(self).0.wrapping_add(1),
    {
        self.0 = self.0.wrapping_add(1)
    }
}

impl Default for StackPointer {
    /// A pointer at the top of the stack page.
    fn default() -> (r: Self)
        ensures
            r.0 == STACK_START,
    {
        StackPointer(STACK_START)
    }
}

} // verus!
