//! A unified error-handling library: one opaque `Error` type wrapping a
//! closed set of failure kinds, together with a dispatcher that produces a
//! representative failure for each small-integer selector.

pub mod decimal;
pub mod decode;
pub mod detect;
pub mod error;

pub use decimal::usize_to_decimal;
pub use decode::validate_utf8;
pub use detect::detect;
pub use error::{
    new_format_error, new_other_error, new_value_error, DecodeFailure, Error, ErrorKind, IoFailure,
};
