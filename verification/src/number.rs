//! An integer with its sign and its parity.
use crate::integral::Integral;
use crate::primality::{
    free_of_wheel_divisors, is_prime, lemma_root_decides_primality, lemma_small_factors_settle,
    prime_by_wheel, settled_by_small_factors,
};
use crate::roots::{ceil_sqrt_of, lemma_ceil_sqrt_leaves_room};
use crate::text::{decimal, decimal_text};
use vstd::prelude::*;
use vstd::string::StringExecFns;

verus! {

/// Whether an integer is a multiple of two.
#[derive(Debug, PartialEq, Eq, Clone, Copy, Structural)]
pub enum Parity {
    Odd,
    Even,
}

/// Whether an integer is below zero. Zero itself counts as positive.
#[derive(Debug, PartialEq, Eq, Clone, Copy, Structural)]
pub enum Sign {
    Positive,
    Negative,
}

impl Parity {
    /// The parity of the integer `v`.
    pub open spec fn of(v: int) -> Parity {
        if v % 2 == 0 {
            Parity::Even
        } else {
            Parity::Odd
        }
    }

    /// The word for this parity.
    pub open spec fn word(self) -> Seq<char> {
        match self {
            Parity::Odd => "odd"@,
            Parity::Even => "even"@,
        }
    }

    /// The word for this parity: `"odd"` or `"even"`.
    pub fn as_str(&self) -> (r: &'static str)
        ensures
            r@ == self.word(),
    {
        match self {
            Parity::Odd => "odd",
            Parity::Even => "even",
        }
    }

    /// The word for this parity, as an owned string.
    pub fn to_string(&self) -> (r: String)
        ensures
            r@ == self.word(),
    {
        String::from_str(self.as_str())
    }
}

impl Sign {
    /// The sign of the integer `v`.
    pub open spec fn of(v: int) -> Sign {
        if v >= 0 {
            Sign::Positive
        } else {
            Sign::Negative
        }
    }

    /// The word for this sign.
    pub open spec fn word(self) -> Seq<char> {
        match self {
            Sign::Positive => "positive"@,
            Sign::Negative => "negative"@,
        }
    }

    /// The word for this sign: `"positive"` or `"negative"`.
    pub fn as_str(&self) -> (r: &'static str)
        ensures
            r@ == self.word(),
    {
        match self {
            Sign::Positive => "positive",
            Sign::Negative => "negative",
        }
    }

    /// The word for this sign, as an owned string.
    pub fn to_string(&self) -> (r: String)
        ensures
            r@ == self.word(),
    {
        String::from_str(self.as_str())
    }
}

/// An integer together with its sign and its parity.
///
/// The three derived fields always agree with the value: they are set when
/// the number is built and again whenever the value is replaced, and nothing
/// else writes them.
#[derive(Debug)]
pub struct Number<T: Integral> {
    value: T,
    positive: bool,
    sign: Sign,
    parity: Parity,
}

impl<T: Integral> View for Number<T> {
    type V = T;

    /// The wrapped value, from which everything else follows.
    closed spec fn view(&self) -> T {
        self.value
    }
}

impl<T: Integral> Clone for Number<T> {
    /// A copy, equal to `self` in every field.
    fn clone(&self) -> (r: Self)
        ensures
            r == *self,
    {
        proof {
            use_type_invariant(self);
        }
        Number { value: self.value, positive: self.positive, sign: self.sign, parity: self.parity }
    }
}

impl<T: Integral> PartialEq for Number<T> {
    /// Whether the two numbers wrap the same value, and so agree in every
    /// field.
    fn eq(&self, other: &Self) -> (r: bool) {
        proof {
            if self.value.as_int() == other.value.as_int() {
                self.value.as_int_is_injective(other.value);
            }
        }
        self.value.at_most(other.value) && other.value.at_most(self.value)
    }
}

impl<T: Integral> vstd::std_specs::cmp::PartialEqSpecImpl for Number<T> {
    open spec fn obeys_eq_spec() -> bool {
        true
    }

    open spec fn eq_spec(&self, other: &Self) -> bool {
        self@ == other@
    }
}

impl<T: Integral> From<T> for Number<T> {
    /// The same as [`Number::new`].
    fn from(value: T) -> (r: Self) {
        Self::new(value)
    }
}

impl<T: Integral> vstd::std_specs::convert::FromSpecImpl<T> for Number<T> {
    open spec fn obeys_from_spec() -> bool {
        true
    }

    open spec fn from_spec(value: T) -> Self {
        Self::of(value)
    }
}

impl<T: Integral> Number<T> {
    /// The number that wraps `value`: the value and, beside it, what the
    /// value's sign and parity are.
    pub closed spec fn of(value: T) -> Self {
        Number {
            value,
            positive: value.as_int() >= 0,
            sign: Sign::of(value.as_int()),
            parity: Parity::of(value.as_int()),
        }
    }

    /// The stored answer to "is the value at least zero?".
    pub closed spec fn spec_positive(self) -> bool {
        self.positive
    }

    /// The stored sign.
    pub closed spec fn spec_sign(self) -> Sign {
        self.sign
    }

    /// The stored parity.
    pub closed spec fn spec_parity(self) -> Parity {
        self.parity
    }

    /// The derived fields are those that the value calls for. This holds of
    /// every number at all times.
    #[verifier::type_invariant]
    pub open spec fn wf(self) -> bool {
        self == Self::of(self@)
    }

    /// Wraps `value` and classifies it.
    pub fn new(value: T) -> (r: Self)
        ensures
            r == Self::of(value),
            r@ == value,
    {
        let positive = T::small(0).at_most(value);
        let sign = if positive {
            Sign::Positive
        } else {
            Sign::Negative
        };
        let parity = if value.divisible_by(T::small(2)) {
            Parity::Even
        } else {
            Parity::Odd
        };
        Self { value, positive, sign, parity }
    }

    /// Replaces the value and classifies the new one, as [`Number::new`]
    /// would: nothing of the old value remains.
    pub fn set_value(&mut self, value: T)
        ensures
            *final(self) == Self::of(value),
            final(self)@ == value,
    {
        *self = Self::new(value);
    }

    /// The wrapped value.
    pub fn value(&self) -> (r: &T)
        ensures
            *r == self@,
    {
        &self.value
    }

    /// Whether the value is at least zero.
    pub fn positive(&self) -> (r: &bool)
        ensures
            *r == self.spec_positive(),
            *r == (self@.as_int() >= 0),
    {
        proof {
            use_type_invariant(self);
        }
        &self.positive
    }

    /// The sign of the value.
    pub fn sign(&self) -> (r: &Sign)
        ensures
            *r == self.spec_sign(),
            *r == Sign::of(self@.as_int()),
    {
        proof {
            use_type_invariant(self);
        }
        &self.sign
    }

    /// The parity of the value.
    pub fn parity(&self) -> (r: &Parity)
        ensures
            *r == self.spec_parity(),
            *r == Parity::of(self@.as_int()),
    {
        proof {
            use_type_invariant(self);
        }
        &self.parity
    }

    /// The sentence that describes the integer `v`: the word `Number`, `v` in
    /// decimal, and the words for its sign and its parity.
    pub open spec fn sentence(v: int) -> Seq<char> {
        "Number "@ + decimal(v) + " is "@ + Sign::of(v).word() + " and "@ + Parity::of(v).word()
    }

    /// The number in words, such as `Number 37 is positive and odd`.
    pub fn to_string(&self) -> (r: String)
        ensures
            r@ == Self::sentence(self@.as_int()),
    {
        proof {
            use_type_invariant(self);
        }
        let mut text = String::from_str("Number ");
        text.append(decimal_text(self.value).as_str());
        text.append(" is ");
        text.append(self.sign.as_str());
        text.append(" and ");
        text.append(self.parity.as_str());
        text
    }

    /// What the checks that come before any division by a candidate settle:
    /// numbers up to one are not prime, two and three are, and no other
    /// multiple of two or of three is. `None` where they settle nothing.
    fn settled_by_small_factors(&self) -> (r: Option<bool>)
        ensures
            r == settled_by_small_factors(self@.as_int()),
    {
        proof {
            use_type_invariant(self);
        }
        let n = self.value;
        if n.at_most(T::small(1)) {
            Some(false)
        } else if n.at_most(T::small(3)) {
            Some(true)
        } else if matches!(self.parity, Parity::Even) || n.divisible_by(T::small(3)) {
            Some(false)
        } else {
            None
        }
    }

    /// Whether the value is a prime number.
    ///
    /// Values up to one are not prime, two and three are, and multiples of
    /// two or three are not. Every other value is divided by the candidates
    /// `5, 7, 11, 13, ...` up to its square root, rounded up. The root is
    /// computed in integers, so the answer is exact for every width.
    pub fn prime(&self) -> (r: bool)
        ensures
            r == is_prime(self@.as_int()),
    {
        let n = self.value;
        match self.settled_by_small_factors() {
            Some(answer) => {
                proof {
                    lemma_small_factors_settle(n.as_int());
                }
                answer
            },
            None => {
                let max = ceil_sqrt_of(n);
                proof {
                    n.in_range();
                    T::range_is_wide();
                    lemma_ceil_sqrt_leaves_room(n.as_int(), max.as_int(), T::highest());
                    lemma_root_decides_primality(n.as_int(), max.as_int());
                }
                free_of_wheel_divisors(n, max)
            },
        }
    }

    /// The primality test with the bound of the trial division given by the
    /// caller: the same checks as [`Number::prime`], then division by the
    /// candidate pairs `i`, `i + 2` for `i = 5, 11, 17, ...` as long as
    /// `i <= bound`.
    ///
    /// The answer is that of [`Number::prime`] if `bound` reaches the square
    /// root of the value and no candidate reaches the value itself; see
    /// [`crate::primality::lemma_wheel_decides_primality`].
    pub fn prime_with_bound(&self, bound: T) -> (r: bool)
        requires
            bound.as_int() + 6 <= T::highest(),
        ensures
            r == prime_by_wheel(self@.as_int(), bound.as_int()),
    {
        match self.settled_by_small_factors() {
            Some(answer) => answer,
            None => free_of_wheel_divisors(self.value, bound),
        }
    }

    /// The number built from `value` wraps `value`; its sign is positive
    /// exactly when its flag is set, which is exactly when `value >= 0`; its
    /// parity is even exactly when two divides `value`.
    pub proof fn classification_is_consistent(value: T)
        ensures
            Self::of(value).wf(),
            Self::of(value)@ == value,
            Self::of(value).spec_sign() == Sign::Positive <==> Self::of(value).spec_positive(),
            Self::of(value).spec_positive() <==> value.as_int() >= 0,
            Self::of(value).spec_parity() == Parity::Even <==> value.as_int() % 2 == 0,
    {
    }

    /// The value decides everything: two well-formed numbers with the same
    /// value are equal in every field. So building twice from one value
    /// gives equal numbers, and `==`, which compares the values, holds of
    /// equal numbers only.
    pub proof fn same_value_same_number(self, other: Self)
        requires
            self.wf(),
            other.wf(),
            self@ == other@,
        ensures
            self == other,
    {
    }

    /// The least value of a type is classified as even, and as negative
    /// unless the type is unsigned; the greatest value is classified as
    /// positive and odd.
    pub proof fn limits_are_classified(value: T)
        ensures
            value.as_int() == T::lowest() ==> Self::of(value).spec_parity() == Parity::Even,
            value.as_int() == T::lowest() ==> (Self::of(value).spec_sign() == Sign::Negative
                <==> T::lowest() < 0),
            value.as_int() == T::highest() ==> Self::of(value).spec_parity() == Parity::Odd,
            value.as_int() == T::highest() ==> Self::of(value).spec_sign() == Sign::Positive,
    {
        T::range_is_wide();
    }

    /// In an unsigned type every value is classified as positive.
    pub proof fn unsigned_is_positive(value: T)
        requires
            T::lowest() == 0,
        ensures
            Self::of(value).spec_positive(),
            Self::of(value).spec_sign() == Sign::Positive,
    {
        value.in_range();
    }
}

} // verus!
