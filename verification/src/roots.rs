//! The square root of an integer, rounded up.
use crate::integral::Integral;
use vstd::prelude::*;

verus! {

/// `r` is the square root of `n` rounded up: the least number that is not
/// negative and whose square reaches `n`.
pub open spec fn is_ceil_sqrt(n: int, r: int) -> bool {
    &&& r >= 0
    &&& n <= r * r
    &&& r == 0 || (r - 1) * (r - 1) < n
}

/// The rounded-up root `r` of `n` is at most `n`, stays more than two below
/// `n` once it is five or more, and its successor's square is beyond `n`.
pub proof fn lemma_ceil_sqrt_bounds(n: int, r: int)
    requires
        is_ceil_sqrt(n, r),
        0 <= n,
    ensures
        r <= n,
        r < 5 || r + 2 < n,
        n < (r + 1) * (r + 1),
{
    assert(r <= n && (r < 5 || r + 2 < n)) by (nonlinear_arith)
        requires
            r >= 0,
            0 <= n,
            r == 0 || (r - 1) * (r - 1) < n,
    ;
    assert(n < (r + 1) * (r + 1)) by (nonlinear_arith)
        requires
            r >= 0,
            n <= r * r,
    ;
}

/// The rounded-up root `r` of `n` stays six below every limit that is at
/// least 127 and at least `n`: in a fixed-width type, `r + 6` never
/// overflows.
pub proof fn lemma_ceil_sqrt_leaves_room(n: int, r: int, limit: int)
    requires
        is_ceil_sqrt(n, r),
        0 <= n <= limit,
        127 <= limit,
    ensures
        r + 6 <= limit,
{
    assert(r + 6 <= limit) by (nonlinear_arith)
        requires
            r >= 0,
            n <= limit,
            127 <= limit,
            r == 0 || (r - 1) * (r - 1) < n,
    ;
}

/// The square root of `n`, rounded up.
pub fn ceil_sqrt(n: u128) -> (r: u128)
    ensures
        is_ceil_sqrt(n as int, r as int),
{
    let mut low: u128 = 0;
    let mut high: u128 = 0x1_0000_0000_0000_0000;
    assert(n < high * high) by (nonlinear_arith)
        requires
            high == 0x1_0000_0000_0000_0000,
            n <= u128::MAX,
    ;
    while high - low > 1
        invariant
            low < high <= 0x1_0000_0000_0000_0000,
            low * low <= n < high * high,
        decreases high - low,
    {
        let mid: u128 = low + (high - low) / 2;
        assert(mid * mid <= u128::MAX) by (nonlinear_arith)
            requires
                0 <= mid < 0x1_0000_0000_0000_0000,
        ;
        if mid * mid <= n {
            low = mid;
        } else {
            high = mid;
        }
    }
    assert(low * low <= u128::MAX) by (nonlinear_arith)
        requires
            0 <= low < 0x1_0000_0000_0000_0000,
    ;
    if low * low == n {
        assert(low == 0 || (low - 1) * (low - 1) < low * low) by (nonlinear_arith)
            requires
                low >= 0,
        ;
        low
    } else {
        low + 1
    }
}

/// The square root of `n`, rounded up, in the type of `n`. For a negative
/// `n` that is zero, the least number whose square reaches `n`.
pub fn ceil_sqrt_of<T: Integral>(n: T) -> (r: T)
    ensures
        is_ceil_sqrt(n.as_int(), r.as_int()),
{
    let zero = T::small(0);
    if !zero.at_most(n) {
        return zero;
    }
    let root: u128 = ceil_sqrt(n.magnitude());
    proof {
        n.in_range();
        T::range_is_wide();
        lemma_ceil_sqrt_bounds(n.as_int(), root as int);
    }
    T::from_magnitude(root)
}

} // verus!
