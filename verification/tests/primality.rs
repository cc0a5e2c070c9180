use numclass::primality::free_of_wheel_divisors;
use numclass::roots::{ceil_sqrt, ceil_sqrt_of};
use numclass::Number;
use std::collections::HashSet;

fn sieve(limit: usize) -> Vec<bool> {
    let mut prime = vec![true; limit];
    prime[0] = false;
    prime[1] = false;
    let mut p = 2;
    while p * p < limit {
        if prime[p] {
            let mut multiple = p * p;
            while multiple < limit {
                prime[multiple] = false;
                multiple += p;
            }
        }
        p += 1;
    }
    prime
}

#[test]
fn values_up_to_one_are_not_prime() {
    for value in [0, 1, -1, -2, -3, -5, -7, i32::MIN] {
        assert!(!Number::new(value).prime());
    }
    assert!(!Number::new(0u8).prime());
    assert!(!Number::new(1u64).prime());
    assert!(!Number::new(i128::MIN).prime());
}

#[test]
fn two_and_three_are_prime() {
    assert!(Number::new(2).prime());
    assert!(Number::new(3).prime());
}

#[test]
fn small_composites_are_not_prime() {
    for value in [4, 6, 9] {
        assert!(!Number::new(value).prime());
    }
}

#[test]
fn small_primes_are_prime() {
    for value in [5, 7, 11, 13, 17, 19, 23] {
        assert!(Number::new(value).prime());
    }
}

#[test]
fn squares_of_primes_are_not_prime() {
    assert!(!Number::new(25).prime());
    assert!(!Number::new(49).prime());
    assert!(!Number::new(121).prime());
    assert!(!Number::new(169).prime());
    assert!(!Number::new(2_147_117_569).prime());
    assert!(!Number::new(4_293_001_441u32).prime());
    assert!(!Number::new(1_000_006_000_009i64).prime());
}

#[test]
fn ninety_seven_is_prime_and_its_product_with_101_is_not() {
    assert!(Number::new(97).prime());
    assert!(!Number::new(9797).prime());
}

#[test]
fn greatest_values_are_judged() {
    assert!(Number::new(i8::MAX).prime());
    assert!(!Number::new(u8::MAX).prime());
    assert!(Number::new(251u8).prime());
    assert!(!Number::new(i16::MAX).prime());
    assert!(Number::new(32749i16).prime());
    assert!(!Number::new(u16::MAX).prime());
    assert!(Number::new(65521u16).prime());
    assert!(Number::new(i32::MAX).prime());
    assert!(!Number::new(u32::MAX).prime());
    assert!(Number::new(4_294_967_291u32).prime());
    assert!(!Number::new(i64::MAX).prime());
    assert!(!Number::new(u64::MAX).prime());
    assert!(!Number::new(i128::MAX - 1).prime());
    assert!(!Number::new(u128::MAX).prime());
}

#[test]
fn wide_types_are_judged() {
    assert!(Number::new(999_999_999_989i64).prime());
    assert!(Number::new(999_999_999_989u64).prime());
    assert!(Number::new(999_999_999_989i128).prime());
    assert!(Number::new(999_999_999_989u128).prime());
    assert!(!Number::new(999_999_999_991u128).prime());
    assert!(Number::new(1_000_000_007isize).prime());
    assert!(Number::new(1_000_000_007usize).prime());
}

#[test]
fn test_primes_i32_to_100k() {
    let mut primes = HashSet::new();
    for (value, prime) in sieve(100_000).into_iter().enumerate() {
        if prime {
            primes.insert(value as i32);
        }
    }
    assert_eq!(primes.len(), 9592);

    for value in 0..100_000 {
        let num = Number::new(value);
        assert_eq!(num.prime(), primes.contains(&value));
    }
}

#[test]
fn u16_primes_agree_with_a_sieve() {
    let reference = sieve(65_536);
    for value in 0..=u16::MAX {
        assert_eq!(Number::new(value).prime(), reference[value as usize], "at {}", value);
    }
}

#[test]
fn i8_primes_are_the_known_ones() {
    let known: [i8; 31] = [
        2, 3, 5, 7, 11, 13, 17, 19, 23, 29, 31, 37, 41, 43, 47, 53, 59, 61, 67, 71, 73, 79, 83,
        89, 97, 101, 103, 107, 109, 113, 127,
    ];
    for value in i8::MIN..=i8::MAX {
        assert_eq!(Number::new(value).prime(), known.contains(&value), "at {}", value);
    }
}

#[test]
fn prime_is_computed_anew_after_set_value() {
    let mut num = Number::new(97);
    assert!(num.prime());
    num.set_value(9797);
    assert!(!num.prime());
    num.set_value(-97);
    assert!(!num.prime());
    num.set_value(101);
    assert!(num.prime());
}

#[test]
fn bound_at_the_root_gives_the_answer_of_prime() {
    for value in 0..5000i32 {
        let num = Number::new(value);
        let bound = ceil_sqrt_of(value);
        assert_eq!(num.prime_with_bound(bound), num.prime(), "at {}", value);
    }
}

#[test]
fn bound_below_the_root_misses_divisors() {
    assert!(Number::new(25).prime_with_bound(4));
    assert!(!Number::new(25).prime_with_bound(5));
    assert!(Number::new(49).prime_with_bound(4));
    assert!(!Number::new(49).prime_with_bound(5));
    assert!(Number::new(121).prime_with_bound(10));
    assert!(!Number::new(121).prime_with_bound(11));
    assert!(Number::new(169).prime_with_bound(10));
    assert!(!Number::new(169).prime_with_bound(11));
}

#[test]
fn bound_that_reaches_the_value_rejects_it() {
    assert!(Number::new(5).prime_with_bound(3));
    assert!(!Number::new(5).prime_with_bound(5));
    assert!(Number::new(7).prime_with_bound(4));
    assert!(!Number::new(7).prime_with_bound(5));
    assert!(!Number::new(13).prime_with_bound(11));
}

#[test]
fn bound_does_not_matter_where_the_first_checks_settle() {
    for bound in [-5, 0, 1, 100] {
        assert!(!Number::new(-7).prime_with_bound(bound));
        assert!(!Number::new(0).prime_with_bound(bound));
        assert!(!Number::new(1).prime_with_bound(bound));
        assert!(Number::new(2).prime_with_bound(bound));
        assert!(Number::new(3).prime_with_bound(bound));
        assert!(!Number::new(4).prime_with_bound(bound));
        assert!(!Number::new(9).prime_with_bound(bound));
        assert!(!Number::new(100).prime_with_bound(bound));
    }
}

#[test]
fn wheel_divisors_are_found_in_pairs() {
    assert!(free_of_wheel_divisors(35, 4));
    assert!(!free_of_wheel_divisors(35, 5));
    assert!(free_of_wheel_divisors(91, 4));
    assert!(!free_of_wheel_divisors(91, 5));
    assert!(free_of_wheel_divisors(143, 10));
    assert!(!free_of_wheel_divisors(143, 11));
    assert!(free_of_wheel_divisors(97, 91));
    assert!(!free_of_wheel_divisors(97, 95));
    assert!(free_of_wheel_divisors(4, 100));
    assert!(!free_of_wheel_divisors(-35, 5));
    assert!(free_of_wheel_divisors(35, -5));
    assert!(!free_of_wheel_divisors(0u8, 5));
}

#[test]
fn roots_are_rounded_up() {
    let expected: [(u128, u128); 14] = [
        (0, 0),
        (1, 1),
        (2, 2),
        (3, 2),
        (4, 2),
        (5, 3),
        (9, 3),
        (10, 4),
        (16, 4),
        (17, 5),
        (24, 5),
        (25, 5),
        (26, 6),
        (1_000_000, 1000),
    ];
    for (n, root) in expected {
        assert_eq!(ceil_sqrt(n), root, "at {}", n);
    }
    assert_eq!(ceil_sqrt(1_000_001), 1001);
    assert_eq!(ceil_sqrt(u64::MAX as u128), 1 << 32);
    assert_eq!(ceil_sqrt(1 << 64), 1 << 32);
    assert_eq!(ceil_sqrt((1 << 64) + 1), (1 << 32) + 1);
    assert_eq!(ceil_sqrt(u128::MAX), 1 << 64);
    assert_eq!(
        ceil_sqrt(18_446_744_073_709_551_615 * 18_446_744_073_709_551_615),
        18_446_744_073_709_551_615
    );
}

#[test]
fn roots_are_least_with_a_square_that_reaches() {
    for n in 0..20_000u128 {
        let root = ceil_sqrt(n);
        assert!(root * root >= n);
        assert!(root == 0 || (root - 1) * (root - 1) < n);
    }
}

#[test]
fn roots_stay_in_the_type_of_the_value() {
    assert_eq!(ceil_sqrt_of(0i8), 0);
    assert_eq!(ceil_sqrt_of(i8::MAX), 12);
    assert_eq!(ceil_sqrt_of(u8::MAX), 16);
    assert_eq!(ceil_sqrt_of(i16::MAX), 182);
    assert_eq!(ceil_sqrt_of(u16::MAX), 256);
    assert_eq!(ceil_sqrt_of(i32::MAX), 46341);
    assert_eq!(ceil_sqrt_of(u32::MAX), 65536);
    assert_eq!(ceil_sqrt_of(i64::MAX), 3_037_000_500);
    assert_eq!(ceil_sqrt_of(u64::MAX), 4_294_967_296);
    assert_eq!(ceil_sqrt_of(i128::MAX), 13_043_817_825_332_782_213);
    assert_eq!(ceil_sqrt_of(u128::MAX), 18_446_744_073_709_551_616);
    assert_eq!(ceil_sqrt_of(97usize), 10);
    assert_eq!(ceil_sqrt_of(100isize), 10);
}

#[test]
fn roots_of_negative_values_are_zero() {
    assert_eq!(ceil_sqrt_of(-1i8), 0);
    assert_eq!(ceil_sqrt_of(-25i32), 0);
    assert_eq!(ceil_sqrt_of(i64::MIN), 0);
    assert_eq!(ceil_sqrt_of(i128::MIN), 0);
}
