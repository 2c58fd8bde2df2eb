//! Binary64 values of IEEE 754, carried by their bit patterns.
//!
//! Prices, powers and energies are double precision numbers. Nothing here does arithmetic
//! on them: they are compared, tested and handed on. Bit patterns allow exactly that, since
//! a pattern without its sign bit orders as the magnitude that it stands for.
use vstd::prelude::*;

verus! {

/// The sign bit: patterns from here on are negative.
pub const SIGN_BIT: u64 = 0x8000_0000_0000_0000;

/// The magnitude of infinity: greater magnitudes are no numbers.
pub const INFINITE: u64 = 0x7ff0_0000_0000_0000;

/// A double precision number. `==` compares as numbers: both zeros are equal, and what is no
/// number equals nothing.
#[derive(Clone, Copy, Debug)]
pub struct Binary64 {
    pub bits: u64,
}

/// The pattern of 0.
pub const ZERO: u64 = 0;

/// The pattern of 0.05.
pub const ONE_TWENTIETH: u64 = 0x3fa9_9999_9999_999a;

/// The pattern of -0.05.
pub const MINUS_ONE_TWENTIETH: u64 = 0xbfa9_9999_9999_999a;

/// The pattern of 1.
pub const ONE: u64 = 0x3ff0_0000_0000_0000;

/// The pattern of 26.11.
pub const TWENTY_SIX_POINT_ELEVEN: u64 = 0x403a_1c28_f5c2_8f5c;

/// The pattern of 100.
pub const HUNDRED: u64 = 0x4059_0000_0000_0000;

/// The pattern of 1000.
pub const THOUSAND: u64 = 0x408f_4000_0000_0000;

impl Binary64 {
    pub open spec fn spec_is_negative(self) -> bool {
        self.bits >= SIGN_BIT
    }

    /// The pattern without its sign bit.
    pub open spec fn magnitude(self) -> int {
        if self.spec_is_negative() {
            self.bits - SIGN_BIT
        } else {
            self.bits as int
        }
    }

    pub open spec fn spec_is_nan(self) -> bool {
        self.magnitude() > INFINITE
    }

    pub open spec fn spec_is_finite(self) -> bool {
        self.magnitude() < INFINITE
    }

    /// A number that orders as the values do; both zeros are 0.
    pub open spec fn order(self) -> int {
        if self.spec_is_negative() {
            -self.magnitude()
        } else {
            self.magnitude()
        }
    }

    /// `self < other` as numbers: false if either is no number.
    pub open spec fn lt(self, other: Binary64) -> bool {
        !self.spec_is_nan() && !other.spec_is_nan() && self.order() < other.order()
    }

    /// `self <= other` as numbers: false if either is no number.
    pub open spec fn le(self, other: Binary64) -> bool {
        !self.spec_is_nan() && !other.spec_is_nan() && self.order() <= other.order()
    }

    /// `self == other` as numbers: false if either is no number.
    pub open spec fn equals(self, other: Binary64) -> bool {
        !self.spec_is_nan() && !other.spec_is_nan() && self.order() == other.order()
    }

    /// The value with the other sign.
    pub open spec fn spec_negated(self) -> Binary64 {
        if self.spec_is_negative() {
            Binary64 { bits: (self.bits - SIGN_BIT) as u64 }
        } else {
            Binary64 { bits: (self.bits + SIGN_BIT) as u64 }
        }
    }

    /// The lesser of two numbers, and the one that is a number where one is not.
    pub open spec fn spec_min(self, other: Binary64) -> Binary64 {
        if self.spec_is_nan() || other.lt(self) {
            other
        } else {
            self
        }
    }

    /// The value if it is above zero, else zero.
    pub open spec fn spec_floored_at_zero(self) -> Binary64 {
        if (Binary64 { bits: ZERO }).lt(self) {
            self
        } else {
            Binary64 { bits: ZERO }
        }
    }

    /// A finite number whose magnitude is at most a thousand.
    pub open spec fn spec_is_plausible_power(self) -> bool {
        self.magnitude() <= THOUSAND
    }

    /// The value's magnitude and whether it is negative.
    fn parts(self) -> (parts: (u64, bool))
        ensures
            parts.0 == self.magnitude(),
            parts.1 == self.spec_is_negative(),
    {
        if self.bits >= SIGN_BIT {
            (self.bits - SIGN_BIT, true)
        } else {
            (self.bits, false)
        }
    }

    pub fn is_nan(self) -> (r: bool)
        ensures
            r == self.spec_is_nan(),
    {
        self.parts().0 > INFINITE
    }

    pub fn is_finite(self) -> (r: bool)
        ensures
            r == self.spec_is_finite(),
    {
        self.parts().0 < INFINITE
    }

    /// Whether this number is less than the other.
    pub fn less_than(self, other: Binary64) -> (r: bool)
        ensures
            r == self.lt(other),
    {
        let (mine, negative) = self.parts();
        let (its, other_negative) = other.parts();
        if mine > INFINITE || its > INFINITE {
            false
        } else if negative && other_negative {
            its < mine
        } else if negative {
            mine > 0 || its > 0
        } else {
            !other_negative && mine < its
        }
    }

    /// Whether this number is at most the other.
    pub fn at_most(self, other: Binary64) -> (r: bool)
        ensures
            r == self.le(other),
    {
        !self.is_nan() && !other.is_nan() && !other.less_than(self)
    }

    /// The value with the other sign.
    pub fn negated(self) -> (r: Binary64)
        ensures
            r == self.spec_negated(),
            r.magnitude() == self.magnitude(),
            r.spec_is_negative() != self.spec_is_negative(),
    {
        if self.bits >= SIGN_BIT {
            Binary64 { bits: self.bits - SIGN_BIT }
        } else {
            Binary64 { bits: self.bits + SIGN_BIT }
        }
    }

    /// The lesser of two numbers, and the one that is a number where one is not. Of two
    /// zeros it is this one.
    pub fn min(self, other: Binary64) -> (r: Binary64)
        ensures
            r == self.spec_min(other),
    {
        if self.is_nan() || other.less_than(self) {
            other
        } else {
            self
        }
    }

    /// The value if it is above zero, else zero.
    pub fn floored_at_zero(self) -> (r: Binary64)
        ensures
            r == self.spec_floored_at_zero(),
    {
        if (Binary64 { bits: ZERO }).less_than(self) {
            self
        } else {
            Binary64 { bits: ZERO }
        }
    }

    /// Whether this is a finite number whose magnitude is at most a thousand.
    pub fn is_plausible_power(self) -> (r: bool)
        ensures
            r == self.spec_is_plausible_power(),
    {
        self.parts().0 <= THOUSAND
    }
}

impl PartialEq for Binary64 {
    fn eq(&self, other: &Binary64) -> (r: bool) {
        self.at_most(*other) && other.at_most(*self)
    }
}

impl vstd::std_specs::cmp::PartialEqSpecImpl for Binary64 {
    open spec fn obeys_eq_spec() -> bool {
        true
    }

    open spec fn eq_spec(&self, other: &Binary64) -> bool {
        self.equals(*other)
    }
}

} // verus!
