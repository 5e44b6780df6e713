//! The contract of the signed integer literals.
use vstd::prelude::*;

use crate::error::LiteralError;
use crate::unsigned::range_refusal;

verus! {

/// The integer that a literal with the magnitude `mag` stands for: `-mag`
/// where it is written with a minus sign, `mag` where it is not.
pub open spec fn signed_value(neg: bool, mag: u128) -> int {
    if neg {
        -(mag as int)
    } else {
        mag as int
    }
}

/// The reason for which the signed literal `value` is refused by a target
/// whose legal values run from `min` to `max`, both included, and which has no
/// zero where `nonzero` is set; `None` where `value` is legal. A literal that
/// the widest signed integer type cannot hold is out of range for every
/// target.
pub open spec fn signed_refusal(value: int, min: int, max: int, nonzero: bool) -> Option<
    LiteralError,
> {
    if value < i128::MIN || value > i128::MAX {
        Some(LiteralError::OutOfRange)
    } else {
        range_refusal(value, min, max, nonzero)
    }
}

/// Whether `validated` is what the validation of the signed literal `value`
/// gives: the literal itself, unchanged, where nothing is held against it,
/// else the reason of the refusal.
pub open spec fn is_signed_outcome(
    value: int,
    refusal: Option<LiteralError>,
    validated: Result<i128, LiteralError>,
) -> bool {
    match refusal {
        None => validated matches Ok(lit) && lit == value,
        Some(reason) => validated == Err::<i128, LiteralError>(reason),
    }
}

/// A target type that can be built from a signed integer literal.
///
/// The literal is fixed as its sign and its magnitude: `NEG` says whether it
/// is written with a minus sign, `MAG` is the number behind the sign. It is a
/// literal of the widest signed integer type: a conformance can take no
/// literal that this type cannot hold.
pub trait FromLiteralSigned<const NEG: bool, const MAG: u128>: Sized {
    /// The reason for which the literal is refused by this type, or `None`
    /// where it is a legal literal of it.
    spec fn refusal() -> Option<LiteralError>;

    /// Whether `self` is the value that the literal stands for.
    spec fn is_literal(&self) -> bool;

    /// Validates the literal: the literal itself where it is legal, else the
    /// reason of the refusal.
    fn valid_literal() -> (validated: Result<i128, LiteralError>)
        ensures
            is_signed_outcome(signed_value(NEG, MAG), Self::refusal(), validated),
    ;

    /// Builds the value that the legal literal stands for.
    fn into_self() -> (made: Self)
        requires
            Self::refusal() is None,
        ensures
            made.is_literal(),
    ;
}

/// The literal with the sign `neg` and the magnitude `mag` as a signed
/// integer, where the widest signed integer type holds it.
pub fn signed_literal(neg: bool, mag: u128) -> (lit: Option<i128>)
    ensures
        lit is Some <==> i128::MIN <= signed_value(neg, mag) <= i128::MAX,
        lit matches Some(value) ==> value == signed_value(neg, mag),
{
    if neg {
        if mag <= 0x7fff_ffff_ffff_ffff_ffff_ffff_ffff_ffff {
            let below: i128 = mag as i128;
            Some(-below)
        } else if mag == 0x8000_0000_0000_0000_0000_0000_0000_0000 {
            Some(i128::MIN)
        } else {
            None
        }
    } else if mag <= 0x7fff_ffff_ffff_ffff_ffff_ffff_ffff_ffff {
        Some(mag as i128)
    } else {
        None
    }
}

/// Validates the signed literal with the sign `neg` and the magnitude `mag`
/// against a target whose legal values run from `min` to `max`, without the
/// zero where `nonzero` is set.
pub fn validate_signed(neg: bool, mag: u128, min: i128, max: u128, nonzero: bool) -> (validated:
    Result<i128, LiteralError>)
    ensures
        is_signed_outcome(
            signed_value(neg, mag),
            signed_refusal(signed_value(neg, mag), min as int, max as int, nonzero),
            validated,
        ),
{
    match signed_literal(neg, mag) {
        None => Err(LiteralError::OutOfRange),
        Some(lit) => {
            if nonzero && lit == 0 {
                Err(LiteralError::Zero)
            } else if lit < min {
                Err(LiteralError::OutOfRange)
            } else if lit > 0 && lit as u128 > max {
                Err(LiteralError::OutOfRange)
            } else {
                Ok(lit)
            }
        },
    }
}

/// The legal signed literal with the sign `neg` and the magnitude `mag`, as a
/// signed integer.
pub fn legal_signed_literal(neg: bool, mag: u128) -> (lit: i128)
    requires
        i128::MIN <= signed_value(neg, mag) <= i128::MAX,
    ensures
        lit == signed_value(neg, mag),
{
    if !neg {
        mag as i128
    } else if mag == 0x8000_0000_0000_0000_0000_0000_0000_0000 {
        i128::MIN
    } else {
        let below: i128 = mag as i128;
        -below
    }
}

/// Validates the signed literal with the sign `NEG` and the magnitude `MAG`
/// for the target type `T` and, where it is legal, builds the value that it
/// stands for. Where it is not, gives the reason of the refusal and builds
/// nothing.
pub fn try_signed<const NEG: bool, const MAG: u128, T: FromLiteralSigned<NEG, MAG>>() -> (built:
    Result<T, LiteralError>)
    ensures
        match T::refusal() {
            None => built matches Ok(made) && made.is_literal(),
            Some(reason) => built matches Err(given) && given == reason,
        },
{
    match T::valid_literal() {
        Ok(_) => Ok(T::into_self()),
        Err(reason) => Err(reason),
    }
}

} // verus!
