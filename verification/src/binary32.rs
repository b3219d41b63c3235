//! Single-precision numbers held by their bit pattern.
//!
//! The library never computes with such a number; it carries it and orders
//! it. IEEE 754 lays binary32 out as a sign bit above a 31-bit magnitude, and
//! on values that are numbers the order of the magnitudes is the order of the
//! absolute values. That is all that is used here.

use vstd::prelude::*;

verus! {

/// The sign bit of a binary32 pattern.
pub const SIGN_BIT: u32 = 0x8000_0000;

/// The magnitude of positive infinity; every larger magnitude is a NaN.
pub const INFINITY_MAGNITUDE: u32 = 0x7f80_0000;

/// Bit pattern of 203, the SDR reference white in nits.
pub const NITS_203: u32 = 0x434b_0000;

/// Bit pattern of 255, the display peak that the Rec. 2408 path assumes.
pub const NITS_255: u32 = 0x437f_0000;

/// A binary32 number, kept as its 32 bits.
#[derive(Clone, Copy, Debug, PartialEq, Eq, Structural)]
pub struct Binary32 {
    pub bits: u32,
}

impl Binary32 {
    /// The pattern without its sign bit.
    pub open spec fn magnitude(self) -> int {
        if self.bits >= SIGN_BIT {
            self.bits - SIGN_BIT
        } else {
            self.bits as int
        }
    }

    /// The pattern stands for no number.
    pub open spec fn nan(self) -> bool {
        self.magnitude() > INFINITY_MAGNITUDE
    }

    /// Where the number stands on the number line: magnitudes of negative
    /// numbers count downwards, and both zeros stand at 0.
    pub open spec fn rank(self) -> int {
        if self.bits >= SIGN_BIT {
            -self.magnitude()
        } else {
            self.magnitude()
        }
    }

    /// `self > other` as IEEE 754 orders them: false whenever either is a NaN.
    pub open spec fn greater(self, other: Binary32) -> bool {
        !self.nan() && !other.nan() && self.rank() > other.rank()
    }

    /// `self > 0`: a number with a clear sign bit that is not zero.
    pub open spec fn positive(self) -> bool {
        0 < self.bits <= INFINITY_MAGNITUDE
    }

    pub fn from_bits(bits: u32) -> (r: Binary32)
        ensures
            r.bits == bits,
    {
        Binary32 { bits }
    }

    pub fn is_nan(self) -> (r: bool)
        ensures
            r == self.nan(),
    {
        if self.bits >= SIGN_BIT {
            self.bits - SIGN_BIT > INFINITY_MAGNITUDE
        } else {
            self.bits > INFINITY_MAGNITUDE
        }
    }

    /// The position of a pattern on the number line, for patterns of numbers.
    fn order_key(self) -> (r: i64)
        ensures
            r == self.rank(),
    {
        if self.bits >= SIGN_BIT {
            let m: u32 = self.bits - SIGN_BIT;
            let k: i64 = m as i64;
            -k
        } else {
            self.bits as i64
        }
    }

    pub fn gt(self, other: Binary32) -> (r: bool)
        ensures
            r == self.greater(other),
    {
        if self.is_nan() || other.is_nan() {
            false
        } else {
            self.order_key() > other.order_key()
        }
    }

    pub fn is_positive(self) -> (r: bool)
        ensures
            r == self.positive(),
            r == self.greater(Binary32 { bits: 0 }),
    {
        self.bits > 0 && self.bits <= INFINITY_MAGNITUDE
    }
}

/// On numbers `greater` is a strict order: nothing is greater than itself,
/// of two numbers at most one is the greater, and the order is transitive.
/// Two numbers of which neither is the greater stand at the same place of
/// the number line: they are the same pattern, or the two zeros.
pub proof fn lemma_greater_is_a_strict_order(a: Binary32, b: Binary32, c: Binary32)
    ensures
        !a.greater(a),
        a.greater(b) ==> !b.greater(a),
        a.greater(b) && b.greater(c) ==> a.greater(c),
        !a.nan() && !b.nan() && !a.greater(b) && !b.greater(a) ==> a == b || (a.magnitude() == 0
            && b.magnitude() == 0),
{
    if !a.nan() && !b.nan() && !a.greater(b) && !b.greater(a) {
        assert(a.rank() == b.rank());
        if a.magnitude() != 0 || b.magnitude() != 0 {
            assert(a.bits == b.bits);
        }
    }
}

} // verus!
