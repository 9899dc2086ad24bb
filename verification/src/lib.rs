//! Exact rational numbers over any integer type that offers the `Backing`
//! capability.

pub mod approx;
pub mod arith;
pub mod backing;
pub mod big;
pub mod big_right;
pub mod by_ref;
pub mod convert;
pub mod euclid;
pub mod fold;
pub mod fraction;
pub mod hashing;
pub mod integer_left;
pub mod laws;
pub mod math;
pub mod num_impls;
pub mod order;
pub mod parse;
pub mod power;
pub mod ratio;
pub mod sign;
pub mod signed;
pub mod text;
pub mod unsigned;
pub mod widths;

pub use crate::backing::{Arith, Backing};
pub use crate::fraction::Fraction;
pub use crate::big::BigRational;
pub use crate::ratio::{Ratio, Rational, Rational32, Rational64};
pub use crate::parse::{ParseRatioError, RatioErrorKind};
pub use crate::approx::Convergents;
