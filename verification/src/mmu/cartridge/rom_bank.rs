//! One 16 KiB bank of cartridge ROM.

use crate::util::Addr;
use vstd::prelude::*;

verus! {

pub const ROM_BANK_SIZE: usize = 0x4000;

/// A bank of cartridge ROM.
#[derive(Debug)]
pub struct RomBank {
    data: Vec<u8>,
}

impl View for RomBank {
    type V = Seq<u8>;

    closed spec fn view(&self) -> Seq<u8> {
        self.data@
    }
}

/// The contents of a row of banks.
pub open spec fn rom_view(banks: Seq<RomBank>) -> Seq<Seq<u8>> {
    Seq::new(banks.len(), |i: int| banks[i]@)
}

/// An image cut into banks of 16 KiB; a rest shorter than a bank is left out.
pub open spec fn rom_banks(raw: Seq<u8>) -> Seq<Seq<u8>> {
    Seq::new(
        (raw.len() / ROM_BANK_SIZE as nat) as nat,
        |i: int| raw.subrange(i * ROM_BANK_SIZE as int, (i + 1) * ROM_BANK_SIZE as int),
    )
}

impl RomBank {
    /// The bank holds exactly 16 KiB.
    pub open spec fn wf(&self) -> bool {
        self@.len() == ROM_BANK_SIZE
    }

    /// A bank with the given 16 KiB.
    pub fn new(raw: Vec<u8>) -> (r: RomBank)
        requires
            raw@.len() == ROM_BANK_SIZE,
        ensures
            r@ == raw@,
            r.wf(),
    {
        RomBank { data: raw }
    }

    /// The place in the bank that a bus address falls on: its low 14 bits.
    pub fn get_index(addr: Addr) -> (r: usize)
        ensures
            r == addr.0 % 0x4000,
    {
        (addr.0 % 0x4000) as usize
    }

    /// The byte that a bus address falls on.
    pub fn readu8(&self, addr: Addr) -> (r: u8)
        requires
            self.wf(),
        ensures
            r == self@[(addr.0 % 0x4000) as int],
    {
        self.data[RomBank::get_index(addr)]
    }
}

/// Cuts an image into banks of 16 KiB.
pub fn split_banks(raw: &Vec<u8>) -> (r: Vec<RomBank>)
    requires
        raw@.len() % ROM_BANK_SIZE as nat == 0,
    ensures
        rom_view(r@) == rom_banks(raw@),
        forall|i: int| 0 <= i < r@.len() ==> (#[trigger] r@[i]).wf(),
        r@.len() == raw@.len() / ROM_BANK_SIZE as nat,
{
    let n = raw.len() / ROM_BANK_SIZE;
    let mut banks: Vec<RomBank> = Vec::new();
    let mut i: usize = 0;
    while i < n
        invariant
            i <= n,
            n == raw@.len() / ROM_BANK_SIZE as nat,
            raw@.len() % ROM_BANK_SIZE as nat == 0,
            raw@.len() <= usize::MAX,
            banks@.len() == i,
            forall|k: int| 0 <= k < i ==> (#[trigger] banks@[k]).wf(),
            forall|k: int|
                0 <= k < i ==> (#[trigger] banks@[k])@ == raw@.subrange(
                    k * ROM_BANK_SIZE as int,
                    (k + 1) * ROM_BANK_SIZE as int,
                ),
        decreases n - i,
    {
        let mut bytes: Vec<u8> = Vec::new();
        let mut j: usize = 0;
        while j < ROM_BANK_SIZE
            invariant
                j <= ROM_BANK_SIZE,
                i < n,
                n == raw@.len() / ROM_BANK_SIZE as nat,
                raw@.len() % ROM_BANK_SIZE as nat == 0,
                raw@.len() <= usize::MAX,
                bytes@.len() == j,
                forall|k: int| 0 <= k < j ==> bytes@[k] == raw@[i * ROM_BANK_SIZE as int + k],
            decreases ROM_BANK_SIZE - j,
        {
            assert(raw@.len() == n * 0x4000);
            assert(i * 0x4000 + j < n * 0x4000);
            bytes.push(raw[i * 0x4000 + j]);
            j = j + 1;
        }
        assert(bytes@ =~= raw@.subrange(i * ROM_BANK_SIZE as int, (i + 1) * ROM_BANK_SIZE as int));
        banks.push(RomBank::new(bytes));
        i = i + 1;
    }
    assert(rom_view(banks@) =~= rom_banks(raw@));
    banks
}

} // verus!
