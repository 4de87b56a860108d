//! One 8 KiB bank of cartridge RAM.

use crate::util::Addr;
use vstd::prelude::*;

verus! {

pub const RAM_BANK_SIZE: usize = 0x2000;

/// A bank of cartridge RAM.
#[derive(Debug)]
pub struct RamBank {
    data: Vec<u8>,
}

impl View for RamBank {
    type V = Seq<u8>;

    closed spec fn view(&self) -> Seq<u8> {
        self.data@
    }
}

/// The contents of a row of banks.
pub open spec fn ram_view(banks: Seq<RamBank>) -> Seq<Seq<u8>> {
    Seq::new(banks.len(), |i: int| banks[i]@)
}

/// `n` banks of zeros.
pub open spec fn blank_ram(n: nat) -> Seq<Seq<u8>> {
    Seq::new(n, |i: int| Seq::new(RAM_BANK_SIZE as nat, |j: int| 0u8))
}

impl RamBank {
    /// The bank holds exactly 8 KiB.
    pub open spec fn wf(&self) -> bool {
        self@.len() == RAM_BANK_SIZE
    }

    /// A bank of zeros.
    pub fn new() -> (r: RamBank)
        ensures
            r.wf(),
            r@ == Seq::new(RAM_BANK_SIZE as nat, |j: int| 0u8),
    {
        let data = crate::mmu::rom::fit(Vec::new(), RAM_BANK_SIZE);
        assert(data@ =~= Seq::new(RAM_BANK_SIZE as nat, |j: int| 0u8));
        RamBank { data }
    }

    /// The place in the bank that a bus address falls on: its low 13 bits.
    pub fn get_index(addr: Addr) -> (r: usize)
        ensures
            r == addr.0 % 0x2000,
    {
        (addr.0 % 0x2000) as usize
    }

    /// The byte that a bus address falls on.
    pub fn readu8(&self, addr: Addr) -> (r: u8)
        requires
            self.wf(),
        ensures
            r == self@[(addr.0 % 0x2000) as int],
    {
        self.data[RamBank::get_index(addr)]
    }

    /// Stores a byte where a bus address falls.
    pub fn writeu8(&mut self, addr: Addr, value: u8)
        requires
            old(self).wf(),
        ensures
            final(self)@ == old(self)@.update((addr.0 % 0x2000) as int, value),
            final(self).wf(),
    {
        let i = RamBank::get_index(addr);
        self.data.set(i, value);
    }
}

/// `n` banks of zeros.
pub fn blank_banks(n: usize) -> (r: Vec<RamBank>)
    ensures
        ram_view(r@) == blank_ram(n as nat),
        forall|i: int| 0 <= i < r@.len() ==> (#[trigger] r@[i]).wf(),
        r@.len() == n,
{
    let mut banks: Vec<RamBank> = Vec::new();
    while banks.len() < n
        invariant
            banks@.len() <= n,
            forall|k: int| 0 <= k < banks@.len() ==> (#[trigger] banks@[k]).wf(),
            forall|k: int|
                0 <= k < banks@.len() ==> (#[trigger] banks@[k])@ == Seq::new(
                    RAM_BANK_SIZE as nat,
                    |j: int| 0u8,
                ),
        decreases n - banks@.len(),
    {
        banks.push(RamBank::new());
    }
    assert(ram_view(banks@) =~= blank_ram(n as nat));
    banks
}

} // verus!
