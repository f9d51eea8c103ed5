//! Real numbers and plane vectors as the kernel holds them.
//!
//! The kernel computes in IEEE 754 double precision. This crate never
//! computes with such a number: it takes it, keeps it, hands it back, and at
//! most asks for its sign. So a number is kept here by its 64 bits, which are
//! what `f64::to_bits` gives and `f64::from_bits` takes.

use vstd::prelude::*;

verus! {

/// The bit of the sign.
pub const SIGN_BIT: u64 = 0x8000_0000_0000_0000;

/// The bits of positive infinity: the largest magnitude that is a number.
pub const INFINITY_BITS: u64 = 0x7ff0_0000_0000_0000;

/// A double-precision number, by its bits.
#[derive(Clone, Copy, Debug, PartialEq, Eq, Structural)]
pub struct Scalar {
    pub bits: u64,
}

/// A vector of the plane, or a point of it.
#[derive(Clone, Copy, Debug, PartialEq, Eq, Structural)]
pub struct Vect {
    pub x: Scalar,
    pub y: Scalar,
}

impl Scalar {
    /// The sign bit is set.
    pub open spec fn sign(self) -> bool {
        self.bits >= SIGN_BIT
    }

    /// The bits without the sign bit: exponent and fraction.
    pub open spec fn magnitude(self) -> int {
        if self.sign() {
            self.bits - SIGN_BIT
        } else {
            self.bits as int
        }
    }

    /// The bits stand for no number: the exponent is all ones and the
    /// fraction is not zero.
    pub open spec fn is_nan(self) -> bool {
        self.magnitude() > INFINITY_BITS
    }

    /// The number is zero or above: what `x >= 0.0` says of a double. Zero
    /// with the sign bit set is zero; what is not a number is not above
    /// anything.
    pub open spec fn non_negative(self) -> bool {
        !self.is_nan() && (!self.sign() || self.magnitude() == 0)
    }

    /// Zero, with the sign bit clear.
    pub fn zero() -> (z: Scalar)
        ensures
            z.bits == 0,
            z.non_negative(),
    {
        Scalar { bits: 0 }
    }

    /// Whether the number is zero or above.
    pub fn is_non_negative(&self) -> (b: bool)
        ensures
            b == self.non_negative(),
    {
        self.bits <= INFINITY_BITS || self.bits == SIGN_BIT
    }
}

impl Vect {
    /// The vector with both parts zero.
    pub fn zero() -> (v: Vect)
        ensures
            v == (Vect { x: Scalar { bits: 0 }, y: Scalar { bits: 0 } }),
    {
        Vect { x: Scalar::zero(), y: Scalar::zero() }
    }
}

} // verus!
