//! A block of read-write memory mapped at a base address.

use crate::util::Addr;
use vstd::prelude::*;

verus! {

/// Read-write memory mapped from a base address on.
#[derive(Debug)]
pub struct RAM {
    buffer: Vec<u8>,
    base: u16,
}

impl View for RAM {
    type V = Seq<u8>;

    closed spec fn view(&self) -> Seq<u8> {
        self.buffer@
    }
}

impl RAM {
    /// The bus address of the first byte.
    pub closed spec fn base(&self) -> u16 {
        self.base
    }

    /// The block is not empty and ends within the 16-bit address space.
    pub open spec fn wf(&self) -> bool {
        self@.len() > 0 && self.base() + self@.len() <= 0x1_0000
    }

    /// Whether a bus address falls into the block.
    pub open spec fn maps(&self, addr: u16) -> bool {
        self.base() <= addr < self.base() + self@.len()
    }

    /// `size` zero bytes mapped from `base` on.
    pub fn new(size: usize, base: u16) -> (r: RAM)
        requires
            size > 0,
            base + size <= 0x1_0000,
        ensures
            r.wf(),
            r.base() == base,
            r@ == Seq::new(size as nat, |i: int| 0u8),
    {
        let buffer = crate::mmu::rom::fit(Vec::new(), size);
        assert(buffer@ =~= Seq::new(size as nat, |i: int| 0u8));
        RAM { buffer, base }
    }

    /// The number of bytes.
    pub fn len(&self) -> (r: usize)
        ensures
            r == self@.len(),
    {
        self.buffer.len()
    }

    /// The byte at a bus address of the block.
    pub fn readu8(&self, addr: Addr) -> (r: u8)
        requires
            self.wf(),
            self.maps(addr.0),
        ensures
            r == self@[addr.0 - self.base()],
    {
        self.buffer[(addr.0 - self.base) as usize]
    }

    /// The byte at an offset into the block.
    pub fn get(&self, index: usize) -> (r: u8)
        requires
            index < self@.len(),
        ensures
            r == self@[index as int],
    {
        self.buffer[index]
    }

    /// Stores a byte at a bus address of the block.
    pub fn writeu8(&mut self, addr: Addr, value: u8)
        requires
            old(self).wf(),
            old(self).maps(addr.0),
        ensures
            final(self)@ == old(self)@.update(addr.0 - old(self).base(), value),
            final(self).base() == old(self).base(),
            final(self).wf(),
    {
        let i = (addr.0 - self.base) as usize;
        self.buffer.set(i, value);
    }

    /// The little-endian 16-bit value at a bus address of the block and the
    /// one after it.
    pub fn readu16(&self, addr: Addr) -> (r: u16)
        requires
            self.wf(),
            self.base() <= addr.0,
            addr.0 + 1 < self.base() + self@.len(),
        ensures
            r == self@[addr.0 - self.base()] + 256 * self@[addr.0 + 1 - self.base()],
    {
        let i = (addr.0 - self.base) as usize;
        crate::util::join(self.buffer[i + 1], self.buffer[i])
    }

    /// Stores a 16-bit value at a bus address of the block and the one after
    /// it, low byte first.
    pub fn writeu16(&mut self, addr: Addr, value: u16)
        requires
            old(self).wf(),
            old(self).base() <= addr.0,
            addr.0 + 1 < old(self).base() + old(self)@.len(),
        ensures
            final(self)@ == old(self)@.update(addr.0 - old(self).base(), crate::util::low_byte(value)).update(
                addr.0 + 1 - old(self).base(),
                crate::util::high_byte(value),
            ),
            final(self).base() == old(self).base(),
            final(self).wf(),
    {
        let i = (addr.0 - self.base) as usize;
        self.buffer.set(i, crate::util::lsb(value));
        self.buffer.set(i + 1, crate::util::msb(value));
    }

    /// Replaces the whole content by a block of the same size.
    pub fn copy_from_slice(&mut self, src: &Vec<u8>)
        requires
            old(self).wf(),
            src@.len() == old(self)@.len(),
        ensures
            final(self)@ == src@,
            final(self).base() == old(self).base(),
            final(self).wf(),
    {
        let n = self.buffer.len();
        let mut i: usize = 0;
        while i < n
            invariant
                i <= n,
                n == src@.len(),
                self.buffer@.len() == n,
                self.base == old(self).base,
                forall|j: int| 0 <= j < i ==> self.buffer@[j] == src@[j],
            decreases n - i,
        {
            self.buffer.set(i, src[i]);
            i = i + 1;
        }
        assert(self.buffer@ =~= src@);
    }
}

} // verus!
