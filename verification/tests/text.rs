use numclass::text::decimal_text;
use numclass::{Number, Parity, Sign};

#[test]
fn signs_have_their_words() {
    assert_eq!(Sign::Positive.as_str(), "positive");
    assert_eq!(Sign::Negative.as_str(), "negative");
    assert_eq!(Sign::Positive.to_string(), "positive");
    assert_eq!(Sign::Negative.to_string(), "negative");
}

#[test]
fn parities_have_their_words() {
    assert_eq!(Parity::Odd.as_str(), "odd");
    assert_eq!(Parity::Even.as_str(), "even");
    assert_eq!(Parity::Odd.to_string(), "odd");
    assert_eq!(Parity::Even.to_string(), "even");
}

#[test]
fn number_37_in_words() {
    assert_eq!(Number::new(37).to_string(), "Number 37 is positive and odd");
}

#[test]
fn numbers_in_words() {
    assert_eq!(Number::new(0).to_string(), "Number 0 is positive and even");
    assert_eq!(Number::new(-1).to_string(), "Number -1 is negative and odd");
    assert_eq!(Number::new(-920).to_string(), "Number -920 is negative and even");
    assert_eq!(Number::new(44u8).to_string(), "Number 44 is positive and even");
    assert_eq!(
        Number::new(i32::MIN).to_string(),
        "Number -2147483648 is negative and even"
    );
    assert_eq!(
        Number::new(u64::MAX).to_string(),
        "Number 18446744073709551615 is positive and odd"
    );
}

#[test]
fn words_follow_set_value() {
    let mut num = Number::new(37);
    num.set_value(-920);
    assert_eq!(num.to_string(), "Number -920 is negative and even");
}

#[test]
fn decimal_of_small_values() {
    assert_eq!(decimal_text(0u8), "0");
    assert_eq!(decimal_text(7i8), "7");
    assert_eq!(decimal_text(9u16), "9");
    assert_eq!(decimal_text(10i16), "10");
    assert_eq!(decimal_text(-10i16), "-10");
    assert_eq!(decimal_text(1234567890u32), "1234567890");
    assert_eq!(decimal_text(-1i64), "-1");
    assert_eq!(decimal_text(100usize), "100");
    assert_eq!(decimal_text(-100isize), "-100");
}

#[test]
fn decimal_of_the_limits() {
    assert_eq!(decimal_text(i8::MIN), "-128");
    assert_eq!(decimal_text(i8::MAX), "127");
    assert_eq!(decimal_text(u8::MAX), "255");
    assert_eq!(decimal_text(i64::MIN), "-9223372036854775808");
    assert_eq!(decimal_text(i64::MAX), "9223372036854775807");
    assert_eq!(
        decimal_text(i128::MIN),
        "-170141183460469231731687303715884105728"
    );
    assert_eq!(
        decimal_text(i128::MAX),
        "170141183460469231731687303715884105727"
    );
    assert_eq!(
        decimal_text(u128::MAX),
        "340282366920938463463374607431768211455"
    );
}

#[test]
fn decimal_agrees_with_the_standard_rendering() {
    for value in -2000..=2000i32 {
        assert_eq!(decimal_text(value), format!("{}", value));
    }
}
