//! The boot ROM: 256 read-only bytes.

use crate::util::Addr;
use vstd::prelude::*;

verus! {

/// Size of the boot ROM in bytes.
pub const BOOT_ROM_SIZE: usize = 0x100;

/// The first `n` bytes of `s`, with zeros where `s` is shorter.
pub open spec fn fitted(s: Seq<u8>, n: nat) -> Seq<u8> {
    Seq::new(n, |i: int| if i < s.len() { s[i] } else { 0u8 })
}

/// Cuts or zero-fills `v` to exactly `size` bytes.
pub fn fit(v: Vec<u8>, size: usize) -> (r: Vec<u8>)
    ensures
        r@ == fitted(v@, size as nat),
{
    let mut v = v;
    let ghost before = v@;
    v.truncate(size);
    while v.len() < size
        invariant
            v.len() <= size,
            forall|i: int| 0 <= i < v.len() ==> v@[i] == (if i < before.len() { before[i] } else { 0u8 }),
            v.len() >= before.len() || v.len() == size,
        decreases size - v.len(),
    {
        v.push(0);
    }
    assert(v@ =~= fitted(before, size as nat));
    v
}

/// A read-only memory of 256 bytes.
#[derive(Debug)]
pub struct ROM {
    data: Vec<u8>,
}

impl View for ROM {
    type V = Seq<u8>;

    closed spec fn view(&self) -> Seq<u8> {
        self.data@
    }
}

impl ROM {
    /// The memory holds exactly 256 bytes.
    pub open spec fn wf(&self) -> bool {
        self@.len() == BOOT_ROM_SIZE
    }

    /// A ROM with the first 256 bytes of an image, zero-filled where the
    /// image is shorter.
    pub fn new(rom: Vec<u8>) -> (r: ROM)
        ensures
            r.wf(),
            r@ == fitted(rom@, BOOT_ROM_SIZE as nat),
    {
        ROM { data: fit(rom, BOOT_ROM_SIZE) }
    }

    /// The byte at an address below 0x100.
    pub fn readu8(&self, addr: Addr) -> (r: u8)
        requires
            self.wf(),
            addr.0 < BOOT_ROM_SIZE,
        ensures
            r == self@[addr.0 as int],
    {
        self.data[addr.0 as usize]
    }

    /// The little-endian 16-bit value at an address below 0xff.
    pub fn readu16(&self, addr: Addr) -> (r: u16)
        requires
            self.wf(),
            addr.0 + 1 < BOOT_ROM_SIZE,
        ensures
            r == self@[addr.0 as int] + 256 * self@[addr.0 + 1],
    {
        crate::util::join(self.data[addr.0 as usize + 1], self.data[addr.0 as usize])
    }

    /// A write to the ROM: it changes nothing.
    pub fn writeu8(&mut self, _addr: Addr, _value: u8)
        ensures
            final(self)@ == old(self)@,
    {
    }
}

} // verus!
