//! Percentages as the device source reports them.
//!
//! The source reports a charge as a number in the IEEE 754 binary64 format.
//! Here such a number is held by the 64 bits that encode it: one sign bit,
//! eleven bits of exponent, fifty-two bits of fraction. The order of two
//! numbers can be read off their bits, and that is all this library needs
//! of them.

use vstd::prelude::*;

verus! {

/// The sign bit.
pub const SIGN_BIT: u64 = 0x8000_0000_0000_0000;

/// The bits of positive infinity: every bit of the exponent set, none of the
/// fraction. What lies above it, the sign aside, encodes no number.
pub const INFINITY_BITS: u64 = 0x7FF0_0000_0000_0000;

/// A binary64 number, held by its bits.
///
/// `==` on this type compares the bits. It tells the two zeros apart, which
/// the numbers' own equality does not, and finds a value that encodes no
/// number equal to itself.
#[derive(Clone, Copy, Debug, PartialEq, Eq, Structural)]
pub struct Percentage {
    pub bits: u64,
}

impl Percentage {
    /// Whether the sign bit is set.
    pub open spec fn is_negative(self) -> bool {
        self.bits >= SIGN_BIT
    }

    /// The bits without the sign bit.
    pub open spec fn magnitude(self) -> u64 {
        if self.bits >= SIGN_BIT {
            (self.bits - SIGN_BIT) as u64
        } else {
            self.bits
        }
    }

    /// Whether the bits encode no number.
    pub open spec fn is_nan(self) -> bool {
        self.magnitude() > INFINITY_BITS
    }

    /// An integer that orders as the numbers do: of two numbers the smaller
    /// has the smaller rank, and the two zeros share rank 0.
    pub open spec fn rank(self) -> int {
        if self.is_negative() {
            -(self.magnitude() as int)
        } else {
            self.magnitude() as int
        }
    }

    /// Whether this number is less than or equal to `other`. Where either
    /// encodes no number, it is not.
    pub open spec fn at_most(self, other: Percentage) -> bool {
        &&& !self.is_nan()
        &&& !other.is_nan()
        &&& self.rank() <= other.rank()
    }

    /// The number that `bits` encode.
    pub fn from_bits(bits: u64) -> (number: Percentage)
        ensures
            number.bits == bits,
    {
        Percentage { bits }
    }

    /// The bits that encode this number.
    pub fn to_bits(self) -> (bits: u64)
        ensures
            bits == self.bits,
    {
        self.bits
    }

    /// Whether this number is less than or equal to `other`.
    pub fn le(self, other: Percentage) -> (holds: bool)
        ensures
            holds == self.at_most(other),
    {
        let negative = self.bits >= SIGN_BIT;
        let other_negative = other.bits >= SIGN_BIT;
        let size: u64 = if negative {
            self.bits - SIGN_BIT
        } else {
            self.bits
        };
        let other_size: u64 = if other_negative {
            other.bits - SIGN_BIT
        } else {
            other.bits
        };
        if size > INFINITY_BITS || other_size > INFINITY_BITS {
            false
        } else if negative {
            !other_negative || size >= other_size
        } else if other_negative {
            size == 0 && other_size == 0
        } else {
            size <= other_size
        }
    }
}

/// Among numbers, `at_most` is a total order up to the sign of zero: any two
/// numbers compare one way or the other, and the comparison carries over a
/// number in between.
pub proof fn lemma_at_most_orders(a: Percentage, b: Percentage, c: Percentage)
    requires
        !a.is_nan(),
        !b.is_nan(),
        !c.is_nan(),
    ensures
        a.at_most(a),
        a.at_most(b) || b.at_most(a),
        a.at_most(b) && b.at_most(c) ==> a.at_most(c),
        a.at_most(b) && b.at_most(a) ==> a.bits == b.bits || (a.magnitude() == 0 && b.magnitude()
            == 0),
{
}

} // verus!
