//! What stands behind addresses that no device answers.

use crate::util::Addr;
use vstd::prelude::*;

verus! {

/// An unmapped stretch of the bus: reads give 0xff, writes are lost.
#[derive(Clone, Copy, Debug)]
pub struct NotUsableHigh;

impl NotUsableHigh {
    pub fn readu8(&self, _addr: Addr) -> (r: u8)
        ensures
            r == 0xff,
    {
        0xff
    }

    pub fn readu16(&self, _addr: Addr) -> (r: u16)
        ensures
            r == 0xffff,
    {
        0xffff
    }

    pub fn writeu8(&mut self, _addr: Addr, _value: u8)
        ensures
            *final(self) == *old(self),
    {
    }

    pub fn writeu16(&mut self, _addr: Addr, _value: u16)
        ensures
            *final(self) == *old(self),
    {
    }
}

} // verus!
