//! The 16-bit bus address and the bit-level helpers shared by every device.

use vstd::prelude::*;

verus! {

/// A 16-bit bus address. All arithmetic on it wraps at 16 bits.
#[derive(Clone, Copy, Debug, PartialEq, Eq, Structural)]
pub struct Addr(pub u16);

/// `(a + b) mod 2^16`.
pub open spec fn wrap16(v: int) -> u16 {
    (v % 0x1_0000) as u16
}

/// `v mod 2^8`.
pub open spec fn wrap8(v: int) -> u8 {
    (v % 0x100) as u8
}

/// The value of a signed 8-bit displacement stored in a byte.
pub open spec fn signed8(e: u8) -> int {
    if e < 0x80 {
        e as int
    } else {
        e as int - 0x100
    }
}

impl Addr {
    /// Address zero.
    pub fn new() -> (r: Addr)
        ensures
            r.0 == 0,
    {
        Addr(0)
    }

    /// The address with the given value.
    pub fn from(value: u16) -> (r: Addr)
        ensures
            r.0 == value,
    {
        Addr(value)
    }

    /// The address as a plain 16-bit value.
    pub fn value(self) -> (r: u16)
        ensures
            r == self.0,
    {
        self.0
    }

    /// Sum of two addresses, wrapping at 16 bits.
    pub fn wrapping_add(self, rhs: Addr) -> (r: Addr)
        ensures
            r.0 == wrap16(self.0 + rhs.0),
    {
        Addr(self.0.wrapping_add(rhs.0))
    }

    /// Difference of two addresses, wrapping at 16 bits.
    pub fn wrapping_sub(self, rhs: Addr) -> (r: Addr)
        ensures
            r.0 == wrap16(self.0 - rhs.0),
    {
        Addr(self.0.wrapping_sub(rhs.0))
    }

    /// The address `n` places further on, wrapping at 16 bits.
    pub fn offset(self, n: u16) -> (r: Addr)
        ensures
            r.0 == wrap16(self.0 + n),
    {
        Addr(self.0.wrapping_add(n))
    }

    /// The address `n` places back, wrapping at 16 bits.
    pub fn offset_back(self, n: u16) -> (r: Addr)
        ensures
            r.0 == wrap16(self.0 - n),
    {
        Addr(self.0.wrapping_sub(n))
    }

    /// The address moved by a signed 8-bit displacement, wrapping at 16 bits.
    pub fn offset_signed(self, e: u8) -> (r: Addr)
        ensures
            r.0 == wrap16(self.0 + signed8(e)),
    {
        if e < 0x80 {
            Addr(self.0.wrapping_add(e as u16))
        } else {
            Addr(self.0.wrapping_sub(0x100 - e as u16))
        }
    }

    /// Strict order on addresses.
    pub fn lt(self, other: Addr) -> (r: bool)
        ensures
            r == (self.0 < other.0),
    {
        self.0 < other.0
    }

    /// Non-strict order on addresses.
    pub fn le(self, other: Addr) -> (r: bool)
        ensures
            r == (self.0 <= other.0),
    {
        self.0 <= other.0
    }
}

/// Bit `n` of `v`.
pub open spec fn nth_bit(v: u8, n: u8) -> bool {
    (v >> n) & 1 == 1
}

/// `v` with bit `n` set.
pub open spec fn set_nth(v: u8, n: u8) -> u8 {
    v | (1u8 << n)
}

/// `v` with bit `n` cleared.
pub open spec fn clear_nth(v: u8, n: u8) -> u8 {
    v & !(1u8 << n)
}

/// `v` with bit `n` inverted.
pub open spec fn toggle_nth(v: u8, n: u8) -> u8 {
    v ^ (1u8 << n)
}

/// The byte whose bits, from bit 7 down to bit 0, are the given ones.
pub open spec fn byte_of(
    b7: bool,
    b6: bool,
    b5: bool,
    b4: bool,
    b3: bool,
    b2: bool,
    b1: bool,
    b0: bool,
) -> u8 {
    ((if b7 { 128int } else { 0 }) + (if b6 { 64int } else { 0 }) + (if b5 { 32int } else { 0 }) + (if b4 {
        16int
    } else {
        0
    }) + (if b3 { 8int } else { 0 }) + (if b2 { 4int } else { 0 }) + (if b1 { 2int } else { 0 }) + (if b0 {
        1int
    } else {
        0
    })) as u8
}

/// The two nibbles of `v` exchanged.
pub open spec fn swapped_nibbles(v: u8) -> u8 {
    ((v & 0x0f) << 4) | ((v & 0xf0) >> 4)
}

/// Carry out of bit 3 when adding two bytes.
pub open spec fn half_carry_add8(a: u8, b: u8) -> bool {
    (((a & 0xf) + (b & 0xf)) as u8) & 0x10 != 0
}

/// Borrow into bit 3 when subtracting `b` from `a`.
pub open spec fn half_borrow_sub8(a: u8, b: u8) -> bool {
    (a & 0xf) < (b & 0xf)
}

/// Carry out of bit 11 when adding two 16-bit values.
pub open spec fn half_carry_add16(a: u16, b: u16) -> bool {
    (((a & 0x0fff) + (b & 0x0fff)) as u16) & 0x1000 != 0
}

/// The 16-bit value with high byte `hi` and low byte `lo`.
pub open spec fn word(hi: u8, lo: u8) -> u16 {
    ((hi as u16) << 8) | (lo as u16)
}

/// High byte of a 16-bit value.
pub open spec fn high_byte(v: u16) -> u8 {
    (v / 256) as u8
}

/// Low byte of a 16-bit value.
pub open spec fn low_byte(v: u16) -> u8 {
    (v % 256) as u8
}

/// Every byte is the sum of the weights of its set bits.
pub proof fn lemma_byte_of_bits(v: u8)
    ensures
        byte_of(
            nth_bit(v, 7),
            nth_bit(v, 6),
            nth_bit(v, 5),
            nth_bit(v, 4),
            nth_bit(v, 3),
            nth_bit(v, 2),
            nth_bit(v, 1),
            nth_bit(v, 0),
        ) == v,
{
    assert(v == (if (v >> 7u8) & 1 == 1 { 128u8 } else { 0 }) + (if (v >> 6u8) & 1 == 1 { 64u8 } else { 0 })
        + (if (v >> 5u8) & 1 == 1 { 32u8 } else { 0 }) + (if (v >> 4u8) & 1 == 1 { 16u8 } else { 0 }) + (if (v
        >> 3u8) & 1 == 1 { 8u8 } else { 0 }) + (if (v >> 2u8) & 1 == 1 { 4u8 } else { 0 }) + (if (v >> 1u8) & 1
        == 1 { 2u8 } else { 0 }) + (if (v >> 0u8) & 1 == 1 { 1u8 } else { 0 })) by (bit_vector);
}

/// The bits of a byte built from eight bits are those bits.
pub proof fn lemma_bits_of_byte(
    b7: bool,
    b6: bool,
    b5: bool,
    b4: bool,
    b3: bool,
    b2: bool,
    b1: bool,
    b0: bool,
)
    ensures
        nth_bit(byte_of(b7, b6, b5, b4, b3, b2, b1, b0), 7) == b7,
        nth_bit(byte_of(b7, b6, b5, b4, b3, b2, b1, b0), 6) == b6,
        nth_bit(byte_of(b7, b6, b5, b4, b3, b2, b1, b0), 5) == b5,
        nth_bit(byte_of(b7, b6, b5, b4, b3, b2, b1, b0), 4) == b4,
        nth_bit(byte_of(b7, b6, b5, b4, b3, b2, b1, b0), 3) == b3,
        nth_bit(byte_of(b7, b6, b5, b4, b3, b2, b1, b0), 2) == b2,
        nth_bit(byte_of(b7, b6, b5, b4, b3, b2, b1, b0), 1) == b1,
        nth_bit(byte_of(b7, b6, b5, b4, b3, b2, b1, b0), 0) == b0,
{
    let v = byte_of(b7, b6, b5, b4, b3, b2, b1, b0);
    lemma_byte_of_bits(v);
}

/// How setting, clearing and inverting bit `n` act on each bit `m`.
pub proof fn lemma_bit_updates(v: u8, n: u8, m: u8)
    requires
        n < 8,
        m < 8,
    ensures
        nth_bit(set_nth(v, n), m) == (m == n || nth_bit(v, m)),
        nth_bit(clear_nth(v, n), m) == (m != n && nth_bit(v, m)),
        nth_bit(toggle_nth(v, n), m) == (if m == n {
            !nth_bit(v, m)
        } else {
            nth_bit(v, m)
        }),
{
    assert((((v | (1u8 << n)) >> m) & 1 == 1 <==> (m == n || (v >> m) & 1 == 1)) && (((v & !(1u8 << n))
        >> m) & 1 == 1 <==> (m != n && (v >> m) & 1 == 1)) && (((v ^ (1u8 << n)) >> m) & 1 == 1 <==> (if m
        == n {
        (v >> m) & 1 != 1
    } else {
        (v >> m) & 1 == 1
    }))) by (bit_vector)
        requires
            n < 8,
            m < 8,
    ;
}

proof fn lemma_swap_formula(v: u8)
    by (bit_vector)
    ensures
        (((v & 0x0f) << 4) | ((v & 0xf0) >> 4)) == (v % 16) * 16 + v / 16,
{
}

/// Swapping nibbles exchanges the two halves of a byte.
pub proof fn lemma_swapped_nibbles(v: u8)
    ensures
        swapped_nibbles(v) == (v % 16) * 16 + v / 16,
        swapped_nibbles(swapped_nibbles(v)) == v,
{
    lemma_swap_formula(v);
    lemma_swap_formula(swapped_nibbles(v));
}

proof fn lemma_low_nibble(a: u8, s: u8)
    by (bit_vector)
    ensures
        a & 0xf == a % 16,
        s & 0x10 != 0 <==> s % 32 > 15,
        s & 0x10 == 0x10 <==> s % 32 > 15,
{
}

proof fn lemma_low_twelve(x: u16, t: u16)
    by (bit_vector)
    ensures
        x & 0x0fff == x % 0x1000,
        t & 0x1000 != 0 <==> t % 0x2000 > 0x0fff,
        t & 0x1000 == 0x1000 <==> t % 0x2000 > 0x0fff,
{
}

/// The 8-bit half-carry predicates in terms of the low nibbles.
pub proof fn lemma_half_carry8(a: u8, b: u8)
    ensures
        a & 0xf == a % 16,
        b & 0xf == b % 16,
        half_carry_add8(a, b) == (a % 16 + b % 16 > 15),
        half_carry_add8(a, b) == ((((a & 0xf) + (b & 0xf)) as u8) & 0x10 == 0x10),
        half_borrow_sub8(a, b) == (a % 16 < b % 16),
{
    lemma_low_nibble(a, 0);
    lemma_low_nibble(b, ((a & 0xf) + (b & 0xf)) as u8);
}

/// The 16-bit half-carry predicate in terms of the low twelve bits.
pub proof fn lemma_half_carry16(x: u16, y: u16)
    ensures
        x & 0x0fff == x % 0x1000,
        y & 0x0fff == y % 0x1000,
        half_carry_add16(x, y) == (x % 0x1000 + y % 0x1000 > 0x0fff),
        half_carry_add16(x, y) == ((((x & 0x0fff) + (y & 0x0fff)) as u16) & 0x1000 == 0x1000),
{
    lemma_low_twelve(x, 0);
    lemma_low_twelve(y, ((x & 0x0fff) + (y & 0x0fff)) as u16);
}

/// A 16-bit value splits into its two bytes, and is put together from them.
pub proof fn lemma_word(hi: u8, lo: u8, v: u16)
    by (bit_vector)
    ensures
        ((hi as u16) << 8) | (lo as u16) == hi * 256 + lo,
        (v & 0xff00) >> 8 == v / 256,
        v & 0x00ff == v % 256,
{
}

/// Bit `n` of `val`.
pub fn get_nth_bit(val: u8, n: u8) -> (r: bool)
    requires
        n < 8,
    ensures
        r == nth_bit(val, n),
{
    ((val >> n) & 1) == 1
}

/// `val` with bit `n` set.
pub fn set_nth_bit(val: u8, n: u8) -> (r: u8)
    requires
        n < 8,
    ensures
        r == set_nth(val, n),
        forall|m: u8| m < 8 ==> #[trigger] nth_bit(r, m) == (m == n || nth_bit(val, m)),
{
    proof {
        assert forall|m: u8| m < 8 implies #[trigger] nth_bit(set_nth(val, n), m) == (m == n || nth_bit(
            val,
            m,
        )) by {
            lemma_bit_updates(val, n, m);
        }
    }
    val | (1u8 << n)
}

/// `val` with bit `n` cleared.
pub fn unset_nth_bit(val: u8, n: u8) -> (r: u8)
    requires
        n < 8,
    ensures
        r == clear_nth(val, n),
        forall|m: u8| m < 8 ==> #[trigger] nth_bit(r, m) == (m != n && nth_bit(val, m)),
{
    proof {
        assert forall|m: u8| m < 8 implies #[trigger] nth_bit(clear_nth(val, n), m) == (m != n && nth_bit(
            val,
            m,
        )) by {
            lemma_bit_updates(val, n, m);
        }
    }
    val & !(1u8 << n)
}

/// `val` with bit `n` inverted.
pub fn toggle_nth_bit(val: u8, n: u8) -> (r: u8)
    requires
        n < 8,
    ensures
        r == toggle_nth(val, n),
        forall|m: u8|
            m < 8 ==> #[trigger] nth_bit(r, m) == (if m == n {
                !nth_bit(val, m)
            } else {
                nth_bit(val, m)
            }),
{
    proof {
        assert forall|m: u8| m < 8 implies #[trigger] nth_bit(toggle_nth(val, n), m) == (if m == n {
            !nth_bit(val, m)
        } else {
            nth_bit(val, m)
        }) by {
            lemma_bit_updates(val, n, m);
        }
    }
    val ^ (1u8 << n)
}

/// `val` with bit `n` made equal to `set`.
pub fn nth_bit_to(val: u8, n: u8, set: bool) -> (r: u8)
    requires
        n < 8,
    ensures
        r == (if set {
            set_nth(val, n)
        } else {
            clear_nth(val, n)
        }),
        forall|m: u8|
            m < 8 ==> #[trigger] nth_bit(r, m) == (if m == n {
                set
            } else {
                nth_bit(val, m)
            }),
{
    if set {
        set_nth_bit(val, n)
    } else {
        unset_nth_bit(val, n)
    }
}

/// The two nibbles of `val` exchanged.
pub fn swap_nibbles(val: u8) -> (r: u8)
    ensures
        r == swapped_nibbles(val),
        r == (val % 16) * 16 + val / 16,
{
    proof {
        lemma_swapped_nibbles(val);
    }
    ((val & 0x0f) << 4) | ((val & 0xf0) >> 4)
}

/// Carry out of bit 3 when adding two bytes.
pub fn bit_3_overflow(op1: u8, op2: u8) -> (r: bool)
    ensures
        r == half_carry_add8(op1, op2),
        r == (op1 % 16 + op2 % 16 > 15),
{
    proof {
        lemma_half_carry8(op1, op2);
    }
    (((op1 & 0xf) + (op2 & 0xf)) & 0x10) == 0x10
}

/// Borrow into bit 3 when subtracting `op2` from `op1`.
pub fn bit_4_borrow(op1: u8, op2: u8) -> (r: bool)
    ensures
        r == half_borrow_sub8(op1, op2),
        r == (op1 % 16 < op2 % 16),
{
    proof {
        lemma_half_carry8(op1, op2);
    }
    (op1 & 0x0f) < (op2 & 0x0f)
}

/// Carry out of bit 11 when adding two 16-bit values.
pub fn bit_11_overflow(op1: u16, op2: u16) -> (r: bool)
    ensures
        r == half_carry_add16(op1, op2),
        r == (op1 % 0x1000 + op2 % 0x1000 > 0x0fff),
{
    proof {
        lemma_half_carry16(op1, op2);
    }
    (((op1 & 0x0fff) + (op2 & 0x0fff)) & 0x1000) == 0x1000
}

/// High byte of a 16-bit value.
pub fn msb(v: u16) -> (r: u8)
    ensures
        r == high_byte(v),
{
    proof {
        lemma_word(0, 0, v);
    }
    ((v & 0xff00) >> 8) as u8
}

/// Low byte of a 16-bit value.
pub fn lsb(v: u16) -> (r: u8)
    ensures
        r == low_byte(v),
{
    proof {
        lemma_word(0, 0, v);
    }
    (v & 0x00ff) as u8
}

/// The 16-bit value with high byte `hi` and low byte `lo`.
pub fn join(hi: u8, lo: u8) -> (r: u16)
    ensures
        r == word(hi, lo),
        r == hi * 256 + lo,
{
    proof {
        lemma_word(hi, lo, 0);
    }
    ((hi as u16) << 8) | (lo as u16)
}

/// The byte whose bits, from bit 7 down to bit 0, are the given ones.
pub fn pack_bits(
    b7: bool,
    b6: bool,
    b5: bool,
    b4: bool,
    b3: bool,
    b2: bool,
    b1: bool,
    b0: bool,
) -> (r: u8)
    ensures
        r == byte_of(b7, b6, b5, b4, b3, b2, b1, b0),
{
    let mut r: u8 = 0;
    if b7 {
        r = r + 128;
    }
    if b6 {
        r = r + 64;
    }
    if b5 {
        r = r + 32;
    }
    if b4 {
        r = r + 16;
    }
    if b3 {
        r = r + 8;
    }
    if b2 {
        r = r + 4;
    }
    if b1 {
        r = r + 2;
    }
    if b0 {
        r = r + 1;
    }
    r
}

} // verus!
