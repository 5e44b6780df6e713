//! Literals that build any target type, validated before they are used.
//!
//! A literal is fixed into the type system: an unsigned integer as a const
//! generic, a signed integer as a sign and a magnitude, a string as a
//! type-level list of [`type_str::Byte`] markers. A target type conforms to
//! [`FromLiteralUnsigned`], [`FromLiteralSigned`] or [`FromLiteralStr`] by
//! saying which literals it refuses and which value a legal literal stands
//! for. `into_self` carries the legality of its literal as a precondition, so
//! a verified caller cannot write an illegal literal; `valid_literal` performs
//! the same validation on demand and reports the reason of a refusal.
pub mod error;
pub mod examples;
pub mod greeting;
pub mod ints;
pub mod laws;
pub mod literal_str;
pub mod nonzero;
mod sealed;
pub mod signed;
pub mod type_str;
pub mod unsigned;

pub use error::LiteralError;
pub use examples::{example, str_example};
pub use greeting::Greeting;
pub use literal_str::{const_str_eq, try_str, FromLiteralStr};
pub use signed::{try_signed, FromLiteralSigned};
pub use unsigned::{try_unsigned, FromLiteralUnsigned};
