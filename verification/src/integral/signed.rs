//! [`Integral`] for the signed primitive types.
//!
//! Remainders of negative numbers carry the sign of the dividend in compiled
//! code and are never negative in specifications; whether the remainder is
//! zero is the same question in both.
use super::{lemma_negation_keeps_divisibility, Integral};
use vstd::prelude::*;

verus! {

impl Integral for i8 {
    open spec fn as_int(self) -> int {
        self as int
    }

    open spec fn lowest() -> int {
        i8::MIN as int
    }

    open spec fn highest() -> int {
        i8::MAX as int
    }

    proof fn in_range(self) {
    }

    proof fn as_int_is_injective(self, other: Self) {
    }

    proof fn range_is_wide() {
    }

    fn small(k: u8) -> (r: Self) {
        k as i8
    }

    fn at_most(self, other: Self) -> (r: bool) {
        self <= other
    }

    fn divisible_by(self, d: Self) -> (r: bool) {
        proof {
            lemma_negation_keeps_divisibility(self as int, d as int);
        }
        self % d == 0
    }

    fn plus(self, k: Self) -> (r: Self) {
        self + k
    }

    fn magnitude(self) -> (r: u128) {
        if self >= 0 {
            self as u128
        } else {
            (-(self + 1)) as u128 + 1
        }
    }

    fn from_magnitude(m: u128) -> (r: Self) {
        m as i8
    }
}

impl Integral for i16 {
    open spec fn as_int(self) -> int {
        self as int
    }

    open spec fn lowest() -> int {
        i16::MIN as int
    }

    open spec fn highest() -> int {
        i16::MAX as int
    }

    proof fn in_range(self) {
    }

    proof fn as_int_is_injective(self, other: Self) {
    }

    proof fn range_is_wide() {
    }

    fn small(k: u8) -> (r: Self) {
        k as i16
    }

    fn at_most(self, other: Self) -> (r: bool) {
        self <= other
    }

    fn divisible_by(self, d: Self) -> (r: bool) {
        proof {
            lemma_negation_keeps_divisibility(self as int, d as int);
        }
        self % d == 0
    }

    fn plus(self, k: Self) -> (r: Self) {
        self + k
    }

    fn magnitude(self) -> (r: u128) {
        if self >= 0 {
            self as u128
        } else {
            (-(self + 1)) as u128 + 1
        }
    }

    fn from_magnitude(m: u128) -> (r: Self) {
        m as i16
    }
}

impl Integral for i32 {
    open spec fn as_int(self) -> int {
        self as int
    }

    open spec fn lowest() -> int {
        i32::MIN as int
    }

    open spec fn highest() -> int {
        i32::MAX as int
    }

    proof fn in_range(self) {
    }

    proof fn as_int_is_injective(self, other: Self) {
    }

    proof fn range_is_wide() {
    }

    fn small(k: u8) -> (r: Self) {
        k as i32
    }

    fn at_most(self, other: Self) -> (r: bool) {
        self <= other
    }

    fn divisible_by(self, d: Self) -> (r: bool) {
        proof {
            lemma_negation_keeps_divisibility(self as int, d as int);
        }
        self % d == 0
    }

    fn plus(self, k: Self) -> (r: Self) {
        self + k
    }

    fn magnitude(self) -> (r: u128) {
        if self >= 0 {
            self as u128
        } else {
            (-(self + 1)) as u128 + 1
        }
    }

    fn from_magnitude(m: u128) -> (r: Self) {
        m as i32
    }
}

impl Integral for i64 {
    open spec fn as_int(self) -> int {
        self as int
    }

    open spec fn lowest() -> int {
        i64::MIN as int
    }

    open spec fn highest() -> int {
        i64::MAX as int
    }

    proof fn in_range(self) {
    }

    proof fn as_int_is_injective(self, other: Self) {
    }

    proof fn range_is_wide() {
    }

    fn small(k: u8) -> (r: Self) {
        k as i64
    }

    fn at_most(self, other: Self) -> (r: bool) {
        self <= other
    }

    fn divisible_by(self, d: Self) -> (r: bool) {
        proof {
            lemma_negation_keeps_divisibility(self as int, d as int);
        }
        self % d == 0
    }

    fn plus(self, k: Self) -> (r: Self) {
        self + k
    }

    fn magnitude(self) -> (r: u128) {
        if self >= 0 {
            self as u128
        } else {
            (-(self + 1)) as u128 + 1
        }
    }

    fn from_magnitude(m: u128) -> (r: Self) {
        m as i64
    }
}

impl Integral for i128 {
    open spec fn as_int(self) -> int {
        self as int
    }

    open spec fn lowest() -> int {
        i128::MIN as int
    }

    open spec fn highest() -> int {
        i128::MAX as int
    }

    proof fn in_range(self) {
    }

    proof fn as_int_is_injective(self, other: Self) {
    }

    proof fn range_is_wide() {
    }

    fn small(k: u8) -> (r: Self) {
        k as i128
    }

    fn at_most(self, other: Self) -> (r: bool) {
        self <= other
    }

    fn divisible_by(self, d: Self) -> (r: bool) {
        proof {
            lemma_negation_keeps_divisibility(self as int, d as int);
        }
        self % d == 0
    }

    fn plus(self, k: Self) -> (r: Self) {
        self + k
    }

    fn magnitude(self) -> (r: u128) {
        if self >= 0 {
            self as u128
        } else {
            (-(self + 1)) as u128 + 1
        }
    }

    fn from_magnitude(m: u128) -> (r: Self) {
        m as i128
    }
}

impl Integral for isize {
    open spec fn as_int(self) -> int {
        self as int
    }

    open spec fn lowest() -> int {
        isize::MIN as int
    }

    open spec fn highest() -> int {
        isize::MAX as int
    }

    proof fn in_range(self) {
    }

    proof fn as_int_is_injective(self, other: Self) {
    }

    proof fn range_is_wide() {
    }

    fn small(k: u8) -> (r: Self) {
        k as isize
    }

    fn at_most(self, other: Self) -> (r: bool) {
        self <= other
    }

    fn divisible_by(self, d: Self) -> (r: bool) {
        proof {
            lemma_negation_keeps_divisibility(self as int, d as int);
        }
        self % d == 0
    }

    fn plus(self, k: Self) -> (r: Self) {
        self + k
    }

    fn magnitude(self) -> (r: u128) {
        if self >= 0 {
            self as u128
        } else {
            (-(self + 1)) as u128 + 1
        }
    }

    fn from_magnitude(m: u128) -> (r: Self) {
        m as isize
    }
}

} // verus!
