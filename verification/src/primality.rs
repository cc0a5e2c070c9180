//! Primality over the mathematical integers, and why trial division by the
//! numbers `6k - 1` and `6k + 1` up to the square root decides it.
use crate::integral::Integral;
use crate::roots::{is_ceil_sqrt, lemma_ceil_sqrt_bounds};
use vstd::arithmetic::div_mod::{lemma_fundamental_div_mod, lemma_mod_multiples_basic};
use vstd::prelude::*;

verus! {

/// `n` is at least two and no number strictly between one and `n` divides it.
pub open spec fn is_prime(n: int) -> bool {
    n >= 2 && forall|d: int| 2 <= d < n ==> #[trigger] (n % d) != 0
}

/// `i` has the form `6k - 1`, and `i` or its neighbour `i + 2` divides `n`.
pub open spec fn wheel_pair_divides(n: int, i: int) -> bool {
    i % 6 == 5 && (n % i == 0 || n % (i + 2) == 0)
}

/// Some pair of candidates `i`, `i + 2` with `5 <= i <= bound` holds a
/// divisor of `n`.
pub open spec fn has_wheel_divisor(n: int, bound: int) -> bool {
    exists|i: int| 5 <= i <= bound && #[trigger] wheel_pair_divides(n, i)
}

/// What the checks that come before any division by a candidate settle:
/// numbers up to one are not prime, two and three are, and no other multiple
/// of two or of three is. `None` where they settle nothing.
pub open spec fn settled_by_small_factors(n: int) -> Option<bool> {
    if n <= 1 {
        Some(false)
    } else if n <= 3 {
        Some(true)
    } else if n % 2 == 0 || n % 3 == 0 {
        Some(false)
    } else {
        None
    }
}

/// The answer of trial division with candidates up to `bound`: what the
/// first checks settle, and otherwise whether no candidate pair up to `bound`
/// holds a divisor.
pub open spec fn prime_by_wheel(n: int, bound: int) -> bool {
    match settled_by_small_factors(n) {
        Some(answer) => answer,
        None => !has_wheel_divisor(n, bound),
    }
}

/// Divisibility is transitive: what divides a divisor of `n` divides `n`.
pub proof fn lemma_divisor_of_divisor(n: int, p: int, q: int)
    requires
        p > 0,
        q > 0,
        n % p == 0,
        p % q == 0,
    ensures
        n % q == 0,
{
    lemma_fundamental_div_mod(n, p);
    lemma_fundamental_div_mod(p, q);
    let a: int = n / p;
    let b: int = p / q;
    assert(n == (a * b) * q) by (nonlinear_arith)
        requires
            n == p * a,
            p == q * b,
    ;
    lemma_mod_multiples_basic(a * b, q);
}

/// A proper divisor `d` of `n` comes with a cofactor `n / d`, which is a
/// proper divisor too.
pub proof fn lemma_cofactor(n: int, d: int)
    requires
        2 <= d < n,
        n % d == 0,
    ensures
        d * (n / d) == n,
        2 <= n / d < n,
        n % (n / d) == 0,
{
    lemma_fundamental_div_mod(n, d);
    let e: int = n / d;
    assert(2 <= e < n) by (nonlinear_arith)
        requires
            2 <= d < n,
            n == d * e,
    ;
    assert(n == d * e);
    lemma_mod_multiples_basic(d, e);
}

/// A composite number that neither two nor three divides has a divisor among
/// the candidate pairs up to its square root.
pub proof fn lemma_composite_has_wheel_divisor(n: int, bound: int)
    requires
        n > 3,
        n % 2 != 0,
        n % 3 != 0,
        !is_prime(n),
        bound >= 0,
        n < (bound + 1) * (bound + 1),
    ensures
        has_wheel_divisor(n, bound),
{
    let d: int = choose|d: int| 2 <= d < n && #[trigger] (n % d) == 0;
    lemma_cofactor(n, d);
    let e: int = n / d;
    let p: int = if d <= e {
        d
    } else {
        e
    };
    assert(p * p <= n) by (nonlinear_arith)
        requires
            d * e == n,
            2 <= d,
            2 <= e,
            p == d || p == e,
            p <= d,
            p <= e,
    ;
    assert(p <= bound) by (nonlinear_arith)
        requires
            p * p <= n,
            n < (bound + 1) * (bound + 1),
            bound >= 0,
            p >= 2,
    ;
    if p % 2 == 0 {
        lemma_divisor_of_divisor(n, p, 2);
    }
    if p % 3 == 0 {
        lemma_divisor_of_divisor(n, p, 3);
    }
    if p % 6 == 5 {
        assert(wheel_pair_divides(n, p));
    } else {
        assert(p % 6 == 1);
        assert(wheel_pair_divides(n, p - 2));
    }
}

/// A divisor among the candidate pairs shows that `n` is composite, as long
/// as no candidate can be `n` itself.
pub proof fn lemma_wheel_divisor_is_proper(n: int, bound: int)
    requires
        has_wheel_divisor(n, bound),
        bound + 2 < n,
    ensures
        !is_prime(n),
{
    let i: int = choose|i: int| 5 <= i <= bound && #[trigger] wheel_pair_divides(n, i);
    if n % i == 0 {
        assert(2 <= i < n);
    } else {
        assert(n % (i + 2) == 0);
        assert(2 <= i + 2 < n);
    }
}

/// What the first checks settle is the truth.
pub proof fn lemma_small_factors_settle(n: int)
    ensures
        settled_by_small_factors(n) matches Some(answer) ==> answer == is_prime(n),
{
    if n > 3 {
        if n % 2 == 0 {
            assert(2 <= 2 < n && n % 2 == 0);
        } else if n % 3 == 0 {
            assert(2 <= 3 < n && n % 3 == 0);
        }
    } else if n == 3 {
        assert forall|d: int| 2 <= d < 3 implies #[trigger] (3int % d) != 0 by {
            assert(d == 2);
        }
    }
}

/// Trial division decides primality whenever the bound reaches the square
/// root of `n` and stays so far below `n` that no candidate is `n` itself.
pub proof fn lemma_wheel_decides_primality(n: int, bound: int)
    requires
        bound >= 0,
        n < (bound + 1) * (bound + 1),
        bound < 5 || bound + 2 < n,
    ensures
        prime_by_wheel(n, bound) == is_prime(n),
{
    lemma_small_factors_settle(n);
    if settled_by_small_factors(n) is None {
        if has_wheel_divisor(n, bound) {
            lemma_wheel_divisor_is_proper(n, bound);
        } else if !is_prime(n) {
            lemma_composite_has_wheel_divisor(n, bound);
        }
    }
}

/// Trial division with candidates up to the square root of `n`, rounded up,
/// decides primality.
pub proof fn lemma_root_decides_primality(n: int, root: int)
    requires
        is_ceil_sqrt(n, root),
    ensures
        prime_by_wheel(n, root) == is_prime(n),
{
    if n <= 3 {
        lemma_small_factors_settle(n);
    } else {
        lemma_ceil_sqrt_bounds(n, root);
        lemma_wheel_decides_primality(n, root);
    }
}

/// Trial division of `n` by the candidates `5, 7, 11, 13, 17, 19, ...`, taken
/// in pairs `i`, `i + 2` for as long as `i <= bound`: whether none of them
/// divides `n`.
pub fn free_of_wheel_divisors<T: Integral>(n: T, bound: T) -> (r: bool)
    requires
        bound.as_int() + 6 <= T::highest(),
    ensures
        r == !has_wheel_divisor(n.as_int(), bound.as_int()),
{
    proof {
        T::range_is_wide();
    }
    let mut i = T::small(5);
    while i.at_most(bound)
        invariant
            5 <= i.as_int(),
            i.as_int() == 5 || i.as_int() <= bound.as_int() + 6,
            i.as_int() % 6 == 5,
            bound.as_int() + 6 <= T::highest(),
            T::lowest() <= 0,
            forall|j: int| 5 <= j < i.as_int() ==> !#[trigger] wheel_pair_divides(n.as_int(), j),
        decreases bound.as_int() + 6 - i.as_int(),
    {
        if n.divisible_by(i) || n.divisible_by(i.plus(T::small(2))) {
            assert(wheel_pair_divides(n.as_int(), i.as_int()));
            return false;
        }
        i = i.plus(T::small(6));
    }
    true
}

} // verus!
