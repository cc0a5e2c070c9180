//! [`Integral`] for the unsigned primitive types.
use super::Integral;
use vstd::prelude::*;

verus! {

impl Integral for u8 {
    open spec fn as_int(self) -> int {
        self as int
    }

    open spec fn lowest() -> int {
        0
    }

    open spec fn highest() -> int {
        u8::MAX as int
    }

    proof fn in_range(self) {
    }

    proof fn as_int_is_injective(self, other: Self) {
    }

    proof fn range_is_wide() {
    }

    fn small(k: u8) -> (r: Self) {
        k
    }

    fn at_most(self, other: Self) -> (r: bool) {
        self <= other
    }

    fn divisible_by(self, d: Self) -> (r: bool) {
        self % d == 0
    }

    fn plus(self, k: Self) -> (r: Self) {
        self + k
    }

    fn magnitude(self) -> (r: u128) {
        self as u128
    }

    fn from_magnitude(m: u128) -> (r: Self) {
        m as u8
    }
}

impl Integral for u16 {
    open spec fn as_int(self) -> int {
        self as int
    }

    open spec fn lowest() -> int {
        0
    }

    open spec fn highest() -> int {
        u16::MAX as int
    }

    proof fn in_range(self) {
    }

    proof fn as_int_is_injective(self, other: Self) {
    }

    proof fn range_is_wide() {
    }

    fn small(k: u8) -> (r: Self) {
        k as u16
    }

    fn at_most(self, other: Self) -> (r: bool) {
        self <= other
    }

    fn divisible_by(self, d: Self) -> (r: bool) {
        self % d == 0
    }

    fn plus(self, k: Self) -> (r: Self) {
        self + k
    }

    fn magnitude(self) -> (r: u128) {
        self as u128
    }

    fn from_magnitude(m: u128) -> (r: Self) {
        m as u16
    }
}

impl Integral for u32 {
    open spec fn as_int(self) -> int {
        self as int
    }

    open spec fn lowest() -> int {
        0
    }

    open spec fn highest() -> int {
        u32::MAX as int
    }

    proof fn in_range(self) {
    }

    proof fn as_int_is_injective(self, other: Self) {
    }

    proof fn range_is_wide() {
    }

    fn small(k: u8) -> (r: Self) {
        k as u32
    }

    fn at_most(self, other: Self) -> (r: bool) {
        self <= other
    }

    fn divisible_by(self, d: Self) -> (r: bool) {
        self % d == 0
    }

    fn plus(self, k: Self) -> (r: Self) {
        self + k
    }

    fn magnitude(self) -> (r: u128) {
        self as u128
    }

    fn from_magnitude(m: u128) -> (r: Self) {
        m as u32
    }
}

impl Integral for u64 {
    open spec fn as_int(self) -> int {
        self as int
    }

    open spec fn lowest() -> int {
        0
    }

    open spec fn highest() -> int {
        u64::MAX as int
    }

    proof fn in_range(self) {
    }

    proof fn as_int_is_injective(self, other: Self) {
    }

    proof fn range_is_wide() {
    }

    fn small(k: u8) -> (r: Self) {
        k as u64
    }

    fn at_most(self, other: Self) -> (r: bool) {
        self <= other
    }

    fn divisible_by(self, d: Self) -> (r: bool) {
        self % d == 0
    }

    fn plus(self, k: Self) -> (r: Self) {
        self + k
    }

    fn magnitude(self) -> (r: u128) {
        self as u128
    }

    fn from_magnitude(m: u128) -> (r: Self) {
        m as u64
    }
}

impl Integral for u128 {
    open spec fn as_int(self) -> int {
        self as int
    }

    open spec fn lowest() -> int {
        0
    }

    open spec fn highest() -> int {
        u128::MAX as int
    }

    proof fn in_range(self) {
    }

    proof fn as_int_is_injective(self, other: Self) {
    }

    proof fn range_is_wide() {
    }

    fn small(k: u8) -> (r: Self) {
        k as u128
    }

    fn at_most(self, other: Self) -> (r: bool) {
        self <= other
    }

    fn divisible_by(self, d: Self) -> (r: bool) {
        self % d == 0
    }

    fn plus(self, k: Self) -> (r: Self) {
        self + k
    }

    fn magnitude(self) -> (r: u128) {
        self
    }

    fn from_magnitude(m: u128) -> (r: Self) {
        m
    }
}

impl Integral for usize {
    open spec fn as_int(self) -> int {
        self as int
    }

    open spec fn lowest() -> int {
        0
    }

    open spec fn highest() -> int {
        usize::MAX as int
    }

    proof fn in_range(self) {
    }

    proof fn as_int_is_injective(self, other: Self) {
    }

    proof fn range_is_wide() {
    }

    fn small(k: u8) -> (r: Self) {
        k as usize
    }

    fn at_most(self, other: Self) -> (r: bool) {
        self <= other
    }

    fn divisible_by(self, d: Self) -> (r: bool) {
        self % d == 0
    }

    fn plus(self, k: Self) -> (r: Self) {
        self + k
    }

    fn magnitude(self) -> (r: u128) {
        self as u128
    }

    fn from_magnitude(m: u128) -> (r: Self) {
        m as usize
    }
}

} // verus!
