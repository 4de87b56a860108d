//! The register file: eight 8-bit registers, of which `F` holds the four flags.

use crate::util::{
    byte_of, get_nth_bit, high_byte, join, lemma_bits_of_byte, lemma_byte_of_bits, lemma_word,
    low_byte, lsb, msb, nth_bit, pack_bits, word, wrap16,
};
use vstd::prelude::*;
use vstd::std_specs::convert::FromSpecImpl;

verus! {

/// The four flags of register `F`: zero (bit 7), subtraction (bit 6),
/// half-carry (bit 5) and carry (bit 4).
#[derive(Clone, Copy, Debug, PartialEq, Eq, Structural)]
pub struct Flags {
    pub zero: bool,
    pub subtraction: bool,
    pub half_carry: bool,
    pub carry: bool,
}

impl Flags {
    /// All four flags clear.
    pub fn new() -> (r: Flags)
        ensures
            r == (Flags { zero: false, subtraction: false, half_carry: false, carry: false }),
    {
        Flags { zero: false, subtraction: false, half_carry: false, carry: false }
    }

    /// The flags held in bits 7 to 4 of a byte.
    pub open spec fn unpack(value: u8) -> Flags {
        Flags {
            zero: nth_bit(value, 7),
            subtraction: nth_bit(value, 6),
            half_carry: nth_bit(value, 5),
            carry: nth_bit(value, 4),
        }
    }

    /// The byte `Z<<7 | N<<6 | H<<5 | C<<4`; its low nibble is zero.
    pub open spec fn pack(self) -> u8 {
        byte_of(self.zero, self.subtraction, self.half_carry, self.carry, false, false, false, false)
    }
}

impl From<u8> for Flags {
    fn from(value: u8) -> (r: Flags) {
        Flags {
            zero: get_nth_bit(value, 7),
            subtraction: get_nth_bit(value, 6),
            half_carry: get_nth_bit(value, 5),
            carry: get_nth_bit(value, 4),
        }
    }
}

impl FromSpecImpl<u8> for Flags {
    open spec fn obeys_from_spec() -> bool {
        true
    }

    open spec fn from_spec(value: u8) -> Flags {
        Flags::unpack(value)
    }
}

impl From<Flags> for u8 {
    fn from(value: Flags) -> (r: u8) {
        pack_bits(value.zero, value.subtraction, value.half_carry, value.carry, false, false, false, false)
    }
}

impl FromSpecImpl<Flags> for u8 {
    open spec fn obeys_from_spec() -> bool {
        true
    }

    open spec fn from_spec(value: Flags) -> u8 {
        value.pack()
    }
}

/// Packing flags and unpacking the byte gives the flags back.
pub proof fn lemma_flags_unpack_pack(f: Flags)
    ensures
        Flags::unpack(f.pack()) == f,
{
    lemma_bits_of_byte(f.zero, f.subtraction, f.half_carry, f.carry, false, false, false, false);
}

/// Unpacking a byte and packing the flags gives the byte with its low nibble
/// cleared.
pub proof fn lemma_flags_pack_unpack(v: u8)
    ensures
        Flags::unpack(v).pack() == v - v % 16,
        Flags::unpack(v).pack() == v & 0xf0,
{
    lemma_byte_of_bits(v);
    assert(v & 0xf0 == v - v % 16 && v % 16 == (if (v >> 3u8) & 1 == 1 { 8u8 } else { 0 }) + (if (v >> 2u8)
        & 1 == 1 { 4u8 } else { 0 }) + (if (v >> 1u8) & 1 == 1 { 2u8 } else { 0 }) + (if (v >> 0u8) & 1 == 1 {
        1u8
    } else {
        0
    })) by (bit_vector);
}

/// The register file.
#[derive(Clone, Copy, Debug, PartialEq, Eq, Structural)]
pub struct Registers {
    pub a: u8,
    pub f: Flags,
    pub b: u8,
    pub c: u8,
    pub d: u8,
    pub e: u8,
    pub h: u8,
    pub l: u8,
}

impl Registers {
    /// The pair `BC`, `B` being the high byte.
    pub open spec fn bc(self) -> u16 {
        word(self.b, self.c)
    }

    /// The pair `DE`, `D` being the high byte.
    pub open spec fn de(self) -> u16 {
        word(self.d, self.e)
    }

    /// The pair `HL`, `H` being the high byte.
    pub open spec fn hl(self) -> u16 {
        word(self.h, self.l)
    }

    /// The pair `AF`: `A` is the high byte, the packed flags are the low one.
    pub open spec fn af(self) -> u16 {
        word(self.a, self.f.pack())
    }

    /// The registers after `BC` is written.
    pub open spec fn with_bc(self, v: u16) -> Registers {
        Registers { b: high_byte(v), c: low_byte(v), ..self }
    }

    /// The registers after `DE` is written.
    pub open spec fn with_de(self, v: u16) -> Registers {
        Registers { d: high_byte(v), e: low_byte(v), ..self }
    }

    /// The registers after `HL` is written.
    pub open spec fn with_hl(self, v: u16) -> Registers {
        Registers { h: high_byte(v), l: low_byte(v), ..self }
    }

    /// The registers after `AF` is written: the low nibble of the value is
    /// lost.
    pub open spec fn with_af(self, v: u16) -> Registers {
        Registers { a: high_byte(v), f: Flags::unpack(low_byte(v)), ..self }
    }

    /// All registers zero and all flags clear.
    pub fn new() -> (r: Registers)
        ensures
            r == (Registers { a: 0, f: Flags::unpack(0), b: 0, c: 0, d: 0, e: 0, h: 0, l: 0 }),
            r.f == (Flags { zero: false, subtraction: false, half_carry: false, carry: false }),
    {
        proof {
            lemma_flags_unpack_pack(Flags { zero: false, subtraction: false, half_carry: false, carry: false });
        }
        Registers { a: 0, f: Flags::new(), b: 0, c: 0, d: 0, e: 0, h: 0, l: 0 }
    }

    pub fn get_a(&self) -> (r: u8)
        ensures
            r == self.a,
    {
        self.a
    }

    pub fn get_b(&self) -> (r: u8)
        ensures
            r == self.b,
    {
        self.b
    }

    pub fn get_c(&self) -> (r: u8)
        ensures
            r == self.c,
    {
        self.c
    }

    pub fn get_d(&self) -> (r: u8)
        ensures
            r == self.d,
    {
        self.d
    }

    pub fn get_e(&self) -> (r: u8)
        ensures
            r == self.e,
    {
        self.e
    }

    /// `F` as a byte: the flags in bits 7 to 4, the low nibble zero.
    pub fn get_f(&self) -> (r: u8)
        ensures
            r == self.f.pack(),
            r % 16 == 0,
    {
        u8::from(self.f)
    }

    pub fn get_h(&self) -> (r: u8)
        ensures
            r == self.h,
    {
        self.h
    }

    pub fn get_l(&self) -> (r: u8)
        ensures
            r == self.l,
    {
        self.l
    }

    pub fn get_bc(&self) -> (r: u16)
        ensures
            r == self.bc(),
            r == self.b * 256 + self.c,
    {
        join(self.b, self.c)
    }

    pub fn get_de(&self) -> (r: u16)
        ensures
            r == self.de(),
            r == self.d * 256 + self.e,
    {
        join(self.d, self.e)
    }

    pub fn get_hl(&self) -> (r: u16)
        ensures
            r == self.hl(),
            r == self.h * 256 + self.l,
    {
        join(self.h, self.l)
    }

    pub fn get_af(&self) -> (r: u16)
        ensures
            r == self.af(),
            r == self.a * 256 + self.f.pack(),
            r % 16 == 0,
    {
        join(self.a, self.get_f())
    }

    pub fn set_a(&mut self, v: u8)
        ensures
            *final(self) == (Registers { a: v, ..*old(self) }),
    {
        self.a = v;
    }

    pub fn set_b(&mut self, v: u8)
        ensures
            *final(self) == (Registers { b: v, ..*old(self) }),
    {
        self.b = v;
    }

    pub fn set_c(&mut self, v: u8)
        ensures
            *final(self) == (Registers { c: v, ..*old(self) }),
    {
        self.c = v;
    }

    pub fn set_d(&mut self, v: u8)
        ensures
            *final(self) == (Registers { d: v, ..*old(self) }),
    {
        self.d = v;
    }

    pub fn set_e(&mut self, v: u8)
        ensures
            *final(self) == (Registers { e: v, ..*old(self) }),
    {
        self.e = v;
    }

    /// Writes `F`: only bits 7 to 4 of `v` are kept.
    pub fn set_f(&mut self, v: u8)
        ensures
            *final(self) == (Registers { f: Flags::unpack(v), ..*old(self) }),
    {
        self.f = Flags::from(v);
    }

    pub fn set_h(&mut self, v: u8)
        ensures
            *final(self) == (Registers { h: v, ..*old(self) }),
    {
        self.h = v;
    }

    pub fn set_l(&mut self, v: u8)
        ensures
            *final(self) == (Registers { l: v, ..*old(self) }),
    {
        self.l = v;
    }

    pub fn set_bc(&mut self, v: u16)
        ensures
            *final(self) == old(self).with_bc(v),
    {
        self.c = lsb(v);
        self.b = msb(v);
    }

    pub fn set_de(&mut self, v: u16)
        ensures
            *final(self) == old(self).with_de(v),
    {
        self.e = lsb(v);
        self.d = msb(v);
    }

    pub fn set_hl(&mut self, v: u16)
        ensures
            *final(self) == old(self).with_hl(v),
    {
        self.l = lsb(v);
        self.h = msb(v);
    }

    /// `HL` becomes `HL + 1`, wrapping at 16 bits.
    pub fn incr_hl(&mut self)
        ensures
            *final(self) == old(self).with_hl(wrap16(old(self).hl() + 1)),
    {
        let hl = self.get_hl();
        let v: u16 = if hl == 0xffff {
            0
        } else {
            hl + 1
        };
        self.set_hl(v);
    }

    /// `HL` becomes `HL - 1`, wrapping at 16 bits.
    pub fn decr_hl(&mut self)
        ensures
            *final(self) == old(self).with_hl(wrap16(old(self).hl() - 1)),
    {
        let hl = self.get_hl();
        let v: u16 = if hl == 0 {
            0xffff
        } else {
            hl - 1
        };
        self.set_hl(v);
    }

    /// Writes `AF`: `A` takes the high byte, `F` bits 7 to 4 of the low byte.
    pub fn set_af(&mut self, v: u16)
        ensures
            *final(self) == old(self).with_af(v),
    {
        self.set_a(msb(v));
        self.set_f(lsb(v));
    }
}

/// Writing a register pair and reading it gives the value back; for `AF` the
/// low nibble reads as zero.
pub proof fn lemma_pair_write_read(r: Registers, v: u16)
    ensures
        r.with_bc(v).bc() == v,
        r.with_de(v).de() == v,
        r.with_hl(v).hl() == v,
        r.with_af(v).af() == v - v % 16,
{
    lemma_word(high_byte(v), low_byte(v), 0);
    lemma_flags_pack_unpack(low_byte(v));
    lemma_word(high_byte(v), Flags::unpack(low_byte(v)).pack(), 0);
}

/// Reading a register pair and writing the value back changes nothing.
pub proof fn lemma_pair_read_write(r: Registers)
    ensures
        r.with_bc(r.bc()) == r,
        r.with_de(r.de()) == r,
        r.with_hl(r.hl()) == r,
        r.with_af(r.af()) == r,
{
    lemma_word(r.b, r.c, 0);
    lemma_word(r.d, r.e, 0);
    lemma_word(r.h, r.l, 0);
    lemma_word(r.a, r.f.pack(), 0);
    lemma_flags_unpack_pack(r.f);
}

} // verus!
