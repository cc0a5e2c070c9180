//! Classified integers: a fixed-width integer together with its sign, its
//! parity and a primality test.
//!
//! [`Number`] wraps a value of any primitive integer type and keeps the sign
//! and the parity beside it; [`Number::prime`] decides primality by trial
//! division over the candidates `6k - 1` and `6k + 1`. Every function is
//! verified against a mathematical model: the wrapped value as an `int`.
pub mod integral;
pub mod number;
pub mod primality;
pub mod roots;
pub mod text;

pub use integral::Integral;
pub use number::{Number, Parity, Sign};
