//! Single-precision numbers held by their bit pattern, with the questions that
//! the server's rules ask of them.

use vstd::prelude::*;

verus! {

/// The bit pattern of a single-precision IEEE 754 number.
#[derive(Clone, Copy, PartialEq, Eq, Debug, Structural)]
pub struct F32Bits {
    pub bits: u32,
}

/// `0.0`.
pub const ZERO_BITS: u32 = 0;

/// `0.5`.
pub const HALF_BITS: u32 = 0x3f00_0000;

/// `1.0`.
pub const ONE_BITS: u32 = 0x3f80_0000;

impl F32Bits {
    /// Exponent and fraction, without the sign.
    pub open spec fn magnitude(self) -> int {
        self.bits as int % 0x8000_0000
    }

    pub open spec fn sign_is_set(self) -> bool {
        self.bits >= 0x8000_0000
    }

    /// Neither an infinity nor a NaN: the exponent is not all ones.
    pub open spec fn finite(self) -> bool {
        self.magnitude() < 0x7f80_0000
    }

    pub open spec fn nan(self) -> bool {
        self.magnitude() > 0x7f80_0000
    }

    /// `0.0` or `-0.0`.
    pub open spec fn zero(self) -> bool {
        self.magnitude() == 0
    }

    /// The integer that stands where the number stands in the order of the
    /// numbers; both zeros stand at 0.
    pub open spec fn order(self) -> int {
        if self.sign_is_set() {
            -self.magnitude()
        } else {
            self.magnitude()
        }
    }

    /// `self < 0.0`.
    pub open spec fn below_zero(self) -> bool {
        !self.nan() && self.order() < 0
    }

    /// `self > other`: false where one of them is a NaN.
    pub open spec fn above(self, other: F32Bits) -> bool {
        !self.nan() && !other.nan() && self.order() > other.order()
    }

    /// `self == other`: false where one of them is a NaN, true of both zeros.
    pub open spec fn equal(self, other: F32Bits) -> bool {
        !self.nan() && !other.nan() && self.order() == other.order()
    }

    fn magnitude_bits(self) -> (m: u32)
        ensures
            m == self.magnitude(),
    {
        self.bits % 0x8000_0000
    }

    pub fn is_finite(self) -> (r: bool)
        ensures
            r == self.finite(),
    {
        self.magnitude_bits() < 0x7f80_0000
    }

    pub fn is_nan(self) -> (r: bool)
        ensures
            r == self.nan(),
    {
        self.magnitude_bits() > 0x7f80_0000
    }

    pub fn is_zero(self) -> (r: bool)
        ensures
            r == self.zero(),
    {
        self.magnitude_bits() == 0
    }

    pub(crate) fn order_key(self) -> (k: i64)
        ensures
            k == self.order(),
    {
        let m: i64 = self.magnitude_bits() as i64;
        if self.bits >= 0x8000_0000 {
            -m
        } else {
            m
        }
    }

    pub fn is_below_zero(self) -> (r: bool)
        ensures
            r == self.below_zero(),
    {
        !self.is_nan() && self.order_key() < 0
    }

    pub fn is_above(self, other: F32Bits) -> (r: bool)
        ensures
            r == self.above(other),
    {
        !self.is_nan() && !other.is_nan() && self.order_key() > other.order_key()
    }

    pub fn is_equal(self, other: F32Bits) -> (r: bool)
        ensures
            r == self.equal(other),
    {
        !self.is_nan() && !other.is_nan() && self.order_key() == other.order_key()
    }
}

/// The kinds of numbers, read off exponent and fraction: the exponent of a number that is
/// not finite is all ones, and a NaN has a fraction besides. The two zeros have neither, and
/// no kind depends on the sign.
pub proof fn kinds_are_read_off_the_fields(x: F32Bits)
    ensures
        x.finite() <==> (x.bits & 0x7f80_0000u32) != 0x7f80_0000u32,
        x.nan() <==> (x.bits & 0x7f80_0000u32) == 0x7f80_0000u32 && (x.bits & 0x7f_ffffu32) != 0,
        x.zero() <==> (x.bits & 0x7fff_ffffu32) == 0,
        x.zero() ==> x.finite(),
        x.nan() ==> !x.finite(),
{
    let b = x.bits;
    assert(b % 0x8000_0000 < 0x7f80_0000 <==> (b & 0x7f80_0000u32) != 0x7f80_0000u32) by (bit_vector);
    assert(b % 0x8000_0000 > 0x7f80_0000 <==> (b & 0x7f80_0000u32) == 0x7f80_0000u32 && (b
        & 0x7f_ffffu32) != 0) by (bit_vector);
    assert(b % 0x8000_0000 == 0 <==> (b & 0x7fff_ffffu32) == 0) by (bit_vector);
}

/// Of two numbers either one is above the other or they are equal, and a NaN is neither above
/// nor equal to anything. Without a sign the larger pattern is the larger number, with a sign
/// on both it is the smaller one, and a number without a sign is above every one with it but
/// for the zeros, which are equal.
pub proof fn numbers_are_ordered(a: F32Bits, b: F32Bits)
    ensures
        a.nan() || b.nan() ==> !a.above(b) && !b.above(a) && !a.equal(b),
        !a.nan() && !b.nan() ==> (a.above(b) || b.above(a) || a.equal(b)),
        !(a.above(b) && b.above(a)) && !(a.above(b) && a.equal(b)),
        a.equal(b) <==> b.equal(a),
        !a.nan() && !b.nan() && a.bits < 0x8000_0000 && b.bits < 0x8000_0000 ==> (a.above(b)
            <==> a.bits > b.bits),
        !a.nan() && !b.nan() && a.bits >= 0x8000_0000 && b.bits >= 0x8000_0000 ==> (a.above(b)
            <==> a.bits < b.bits),
        !a.nan() && !b.nan() && a.bits < 0x8000_0000 <= b.bits ==> if a.zero() && b.zero() {
            a.equal(b)
        } else {
            a.above(b)
        },
        a.below_zero() <==> !a.nan() && a.bits > 0x8000_0000,
{
}

} // verus!
