//! The contract of the unsigned integer literals.
use vstd::prelude::*;

use crate::error::LiteralError;

verus! {

/// The reason for which the integer `value` is refused by a target whose
/// legal values run from `min` to `max`, both included, and which has no zero
/// where `nonzero` is set; `None` where `value` is legal. A zero is reported
/// as such before the range is looked at.
pub open spec fn range_refusal(value: int, min: int, max: int, nonzero: bool) -> Option<
    LiteralError,
> {
    if nonzero && value == 0 {
        Some(LiteralError::Zero)
    } else if value < min || value > max {
        Some(LiteralError::OutOfRange)
    } else {
        None
    }
}

/// What the validation of the literal `lit` gives: the literal itself,
/// unchanged, where nothing is held against it, else the reason of the
/// refusal.
pub open spec fn unsigned_outcome(lit: u128, refusal: Option<LiteralError>) -> Result<
    u128,
    LiteralError,
> {
    match refusal {
        None => Ok(lit),
        Some(reason) => Err(reason),
    }
}

/// A target type that can be built from an unsigned integer literal `LIT`.
///
/// The literal is written without a sign and is wide enough for the largest
/// unsigned integer type.
pub trait FromLiteralUnsigned<const LIT: u128>: Sized {
    /// The reason for which `LIT` is refused by this type, or `None` where
    /// `LIT` is a legal literal of it.
    spec fn refusal() -> Option<LiteralError>;

    /// Whether `self` is the value that `LIT` stands for.
    spec fn is_literal(&self) -> bool;

    /// Validates the literal: `LIT` itself where it is legal, else the reason
    /// of the refusal.
    fn valid_literal() -> (validated: Result<u128, LiteralError>)
        ensures
            validated == unsigned_outcome(LIT, Self::refusal()),
    ;

    /// Builds the value that the legal literal `LIT` stands for.
    fn into_self() -> (made: Self)
        requires
            Self::refusal() is None,
        ensures
            made.is_literal(),
    ;
}

/// Validates the literal `lit` against a target whose legal values run from
/// 0 to `max`, without the zero where `nonzero` is set.
pub fn validate_unsigned(lit: u128, max: u128, nonzero: bool) -> (validated: Result<
    u128,
    LiteralError,
>)
    ensures
        validated == unsigned_outcome(lit, range_refusal(lit as int, 0, max as int, nonzero)),
{
    if nonzero && lit == 0 {
        Err(LiteralError::Zero)
    } else if lit > max {
        Err(LiteralError::OutOfRange)
    } else {
        Ok(lit)
    }
}

/// Validates the unsigned literal `LIT` for the target type `T` and, where
/// it is legal, builds the value that it stands for. Where it is not, gives
/// the reason of the refusal and builds nothing.
pub fn try_unsigned<const LIT: u128, T: FromLiteralUnsigned<LIT>>() -> (built: Result<
    T,
    LiteralError,
>)
    ensures
        match T::refusal() {
            None => built matches Ok(made) && made.is_literal(),
            Some(reason) => built matches Err(given) && given == reason,
        },
{
    match T::valid_literal() {
        Ok(_) => Ok(T::into_self()),
        Err(reason) => Err(reason),
    }
}

} // verus!
