//! A carbon-footprint estimator: four usage figures go in, one weighted sum
//! comes out.
//!
//! A structured value is first decoded ([`FootprintInput::decode`]): all four
//! figures must be there and be numbers. The estimate itself
//! ([`Calculator::calculate`]) is total.
//!
//! Every number is an IEEE 754 binary64 value, carried by its 64-bit encoding
//! ([`Binary64`]), so that the arithmetic is the same bit for bit wherever the
//! crate runs.

pub mod binary64;
pub mod calculator;
pub mod footprint;
pub mod record;

pub use binary64::Binary64;
pub use calculator::Calculator;
pub use footprint::FootprintInput;
pub use footprint::FootprintResult;
pub use record::DecodeError;
pub use record::FieldName;
pub use record::FieldValue;
pub use record::InputRecord;
