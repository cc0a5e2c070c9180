//! The primitive integer types, seen through one interface.
//!
//! [`Integral`] gives each fixed-width integer type its mathematical value,
//! the range of the type, and the handful of operations that classification
//! and trial division need. Every operation is specified over `int`.
use vstd::prelude::*;

mod signed;
mod unsigned;

verus! {

/// A fixed-width integer type, signed or unsigned.
pub trait Integral: Copy {
    /// The integer that `self` stands for.
    spec fn as_int(self) -> int;

    /// The least value of the type.
    spec fn lowest() -> int;

    /// The greatest value of the type.
    spec fn highest() -> int;

    /// Every value lies within the range of its type.
    proof fn in_range(self)
        ensures
            Self::lowest() <= self.as_int() <= Self::highest(),
    ;

    /// Two values that stand for the same integer are the same value.
    proof fn as_int_is_injective(self, other: Self)
        requires
            self.as_int() == other.as_int(),
        ensures
            self == other,
    ;

    /// Every type holds zero and the numbers up to 127; its least value is
    /// even and its greatest value is odd.
    proof fn range_is_wide()
        ensures
            Self::lowest() <= 0,
            127 <= Self::highest(),
            Self::lowest() % 2 == 0,
            Self::highest() % 2 == 1,
    ;

    /// The small constant `k` in this type.
    fn small(k: u8) -> (r: Self)
        requires
            k <= 127,
        ensures
            r.as_int() == k,
    ;

    /// Whether `self <= other`.
    fn at_most(self, other: Self) -> (r: bool)
        ensures
            r == (self.as_int() <= other.as_int()),
    ;

    /// Whether the positive `d` divides `self` with remainder zero.
    fn divisible_by(self, d: Self) -> (r: bool)
        requires
            d.as_int() > 0,
        ensures
            r == (self.as_int() % d.as_int() == 0),
    ;

    /// The sum `self + k`, where it is within the range of the type.
    fn plus(self, k: Self) -> (r: Self)
        requires
            Self::lowest() <= self.as_int() + k.as_int() <= Self::highest(),
        ensures
            r.as_int() == self.as_int() + k.as_int(),
    ;

    /// The absolute value, which always fits in 128 bits.
    fn magnitude(self) -> (r: u128)
        ensures
            r == (if self.as_int() >= 0 { self.as_int() } else { -self.as_int() }),
    ;

    /// The value of this type that stands for `m`.
    fn from_magnitude(m: u128) -> (r: Self)
        requires
            m <= Self::highest(),
        ensures
            r.as_int() == m,
    ;
}

/// A multiple of `d` stays one when its sign is flipped.
pub proof fn lemma_negation_keeps_divisibility(a: int, d: int)
    requires
        d > 0,
    ensures
        (a % d == 0) == ((-a) % d == 0),
{
    vstd::arithmetic::div_mod::lemma_fundamental_div_mod(a, d);
    vstd::arithmetic::div_mod::lemma_fundamental_div_mod(-a, d);
    if a % d == 0 {
        assert(-a == d * (-(a / d))) by (nonlinear_arith)
            requires
                a == d * (a / d),
        ;
        vstd::arithmetic::div_mod::lemma_mod_multiples_basic(-(a / d), d);
        assert(d * (-(a / d)) == (-(a / d)) * d) by (nonlinear_arith);
    }
    if (-a) % d == 0 {
        assert(a == d * (-((-a) / d))) by (nonlinear_arith)
            requires
                -a == d * ((-a) / d),
        ;
        vstd::arithmetic::div_mod::lemma_mod_multiples_basic(-((-a) / d), d);
        assert(d * (-((-a) / d)) == (-((-a) / d)) * d) by (nonlinear_arith);
    }
}

} // verus!
