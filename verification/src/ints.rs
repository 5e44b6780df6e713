//! The built-in integer types as targets of integer literals.
//!
//! Every integer type takes both kinds of literal. Its legal literals are the
//! integers from its `MIN` to its `MAX`: a literal written without a sign is
//! refused where it lies above `MAX`, one written with a sign also where it
//! lies below `MIN`, which for an unsigned type is every negative one.
use vstd::prelude::*;

use crate::error::LiteralError;
use crate::signed::{
    legal_signed_literal, signed_refusal, signed_value, validate_signed, FromLiteralSigned,
};
use crate::unsigned::{range_refusal, validate_unsigned, FromLiteralUnsigned};

verus! {

impl<const LIT: u128> FromLiteralUnsigned<LIT> for u8 {
    open spec fn refusal() -> Option<LiteralError> {
        range_refusal(LIT as int, u8::MIN as int, u8::MAX as int, false)
    }

    open spec fn is_literal(&self) -> bool {
        *self == LIT
    }

    fn valid_literal() -> (validated: Result<u128, LiteralError>) {
        validate_unsigned(LIT, u8::MAX as u128, false)
    }

    fn into_self() -> (made: Self) {
        LIT as u8
    }
}

impl<const LIT: u128> FromLiteralUnsigned<LIT> for u16 {
    open spec fn refusal() -> Option<LiteralError> {
        range_refusal(LIT as int, u16::MIN as int, u16::MAX as int, false)
    }

    open spec fn is_literal(&self) -> bool {
        *self == LIT
    }

    fn valid_literal() -> (validated: Result<u128, LiteralError>) {
        validate_unsigned(LIT, u16::MAX as u128, false)
    }

    fn into_self() -> (made: Self) {
        LIT as u16
    }
}

impl<const LIT: u128> FromLiteralUnsigned<LIT> for u32 {
    open spec fn refusal() -> Option<LiteralError> {
        range_refusal(LIT as int, u32::MIN as int, u32::MAX as int, false)
    }

    open spec fn is_literal(&self) -> bool {
        *self == LIT
    }

    fn valid_literal() -> (validated: Result<u128, LiteralError>) {
        validate_unsigned(LIT, u32::MAX as u128, false)
    }

    fn into_self() -> (made: Self) {
        LIT as u32
    }
}

impl<const LIT: u128> FromLiteralUnsigned<LIT> for u64 {
    open spec fn refusal() -> Option<LiteralError> {
        range_refusal(LIT as int, u64::MIN as int, u64::MAX as int, false)
    }

    open spec fn is_literal(&self) -> bool {
        *self == LIT
    }

    fn valid_literal() -> (validated: Result<u128, LiteralError>) {
        validate_unsigned(LIT, u64::MAX as u128, false)
    }

    fn into_self() -> (made: Self) {
        LIT as u64
    }
}

impl<const LIT: u128> FromLiteralUnsigned<LIT> for u128 {
    open spec fn refusal() -> Option<LiteralError> {
        range_refusal(LIT as int, u128::MIN as int, u128::MAX as int, false)
    }

    open spec fn is_literal(&self) -> bool {
        *self == LIT
    }

    fn valid_literal() -> (validated: Result<u128, LiteralError>) {
        validate_unsigned(LIT, u128::MAX as u128, false)
    }

    fn into_self() -> (made: Self) {
        LIT as u128
    }
}

impl<const LIT: u128> FromLiteralUnsigned<LIT> for usize {
    open spec fn refusal() -> Option<LiteralError> {
        range_refusal(LIT as int, usize::MIN as int, usize::MAX as int, false)
    }

    open spec fn is_literal(&self) -> bool {
        *self == LIT
    }

    fn valid_literal() -> (validated: Result<u128, LiteralError>) {
        validate_unsigned(LIT, usize::MAX as u128, false)
    }

    fn into_self() -> (made: Self) {
        LIT as usize
    }
}

impl<const LIT: u128> FromLiteralUnsigned<LIT> for i8 {
    open spec fn refusal() -> Option<LiteralError> {
        range_refusal(LIT as int, i8::MIN as int, i8::MAX as int, false)
    }

    open spec fn is_literal(&self) -> bool {
        *self == LIT
    }

    fn valid_literal() -> (validated: Result<u128, LiteralError>) {
        validate_unsigned(LIT, i8::MAX as u128, false)
    }

    fn into_self() -> (made: Self) {
        LIT as i8
    }
}

impl<const LIT: u128> FromLiteralUnsigned<LIT> for i16 {
    open spec fn refusal() -> Option<LiteralError> {
        range_refusal(LIT as int, i16::MIN as int, i16::MAX as int, false)
    }

    open spec fn is_literal(&self) -> bool {
        *self == LIT
    }

    fn valid_literal() -> (validated: Result<u128, LiteralError>) {
        validate_unsigned(LIT, i16::MAX as u128, false)
    }

    fn into_self() -> (made: Self) {
        LIT as i16
    }
}

impl<const LIT: u128> FromLiteralUnsigned<LIT> for i32 {
    open spec fn refusal() -> Option<LiteralError> {
        range_refusal(LIT as int, i32::MIN as int, i32::MAX as int, false)
    }

    open spec fn is_literal(&self) -> bool {
        *self == LIT
    }

    fn valid_literal() -> (validated: Result<u128, LiteralError>) {
        validate_unsigned(LIT, i32::MAX as u128, false)
    }

    fn into_self() -> (made: Self) {
        LIT as i32
    }
}

impl<const LIT: u128> FromLiteralUnsigned<LIT> for i64 {
    open spec fn refusal() -> Option<LiteralError> {
        range_refusal(LIT as int, i64::MIN as int, i64::MAX as int, false)
    }

    open spec fn is_literal(&self) -> bool {
        *self == LIT
    }

    fn valid_literal() -> (validated: Result<u128, LiteralError>) {
        validate_unsigned(LIT, i64::MAX as u128, false)
    }

    fn into_self() -> (made: Self) {
        LIT as i64
    }
}

impl<const LIT: u128> FromLiteralUnsigned<LIT> for i128 {
    open spec fn refusal() -> Option<LiteralError> {
        range_refusal(LIT as int, i128::MIN as int, i128::MAX as int, false)
    }

    open spec fn is_literal(&self) -> bool {
        *self == LIT
    }

    fn valid_literal() -> (validated: Result<u128, LiteralError>) {
        validate_unsigned(LIT, i128::MAX as u128, false)
    }

    fn into_self() -> (made: Self) {
        LIT as i128
    }
}

impl<const LIT: u128> FromLiteralUnsigned<LIT> for isize {
    open spec fn refusal() -> Option<LiteralError> {
        range_refusal(LIT as int, isize::MIN as int, isize::MAX as int, false)
    }

    open spec fn is_literal(&self) -> bool {
        *self == LIT
    }

    fn valid_literal() -> (validated: Result<u128, LiteralError>) {
        validate_unsigned(LIT, isize::MAX as u128, false)
    }

    fn into_self() -> (made: Self) {
        LIT as isize
    }
}

impl<const NEG: bool, const MAG: u128> FromLiteralSigned<NEG, MAG> for u8 {
    open spec fn refusal() -> Option<LiteralError> {
        signed_refusal(signed_value(NEG, MAG), u8::MIN as int, u8::MAX as int, false)
    }

    open spec fn is_literal(&self) -> bool {
        *self == signed_value(NEG, MAG)
    }

    fn valid_literal() -> (validated: Result<i128, LiteralError>) {
        validate_signed(NEG, MAG, u8::MIN as i128, u8::MAX as u128, false)
    }

    fn into_self() -> (made: Self) {
        legal_signed_literal(NEG, MAG) as u8
    }
}

impl<const NEG: bool, const MAG: u128> FromLiteralSigned<NEG, MAG> for u16 {
    open spec fn refusal() -> Option<LiteralError> {
        signed_refusal(signed_value(NEG, MAG), u16::MIN as int, u16::MAX as int, false)
    }

    open spec fn is_literal(&self) -> bool {
        *self == signed_value(NEG, MAG)
    }

    fn valid_literal() -> (validated: Result<i128, LiteralError>) {
        validate_signed(NEG, MAG, u16::MIN as i128, u16::MAX as u128, false)
    }

    fn into_self() -> (made: Self) {
        legal_signed_literal(NEG, MAG) as u16
    }
}

impl<const NEG: bool, const MAG: u128> FromLiteralSigned<NEG, MAG> for u32 {
    open spec fn refusal() -> Option<LiteralError> {
        signed_refusal(signed_value(NEG, MAG), u32::MIN as int, u32::MAX as int, false)
    }

    open spec fn is_literal(&self) -> bool {
        *self == signed_value(NEG, MAG)
    }

    fn valid_literal() -> (validated: Result<i128, LiteralError>) {
        validate_signed(NEG, MAG, u32::MIN as i128, u32::MAX as u128, false)
    }

    fn into_self() -> (made: Self) {
        legal_signed_literal(NEG, MAG) as u32
    }
}

impl<const NEG: bool, const MAG: u128> FromLiteralSigned<NEG, MAG> for u64 {
    open spec fn refusal() -> Option<LiteralError> {
        signed_refusal(signed_value(NEG, MAG), u64::MIN as int, u64::MAX as int, false)
    }

    open spec fn is_literal(&self) -> bool {
        *self == signed_value(NEG, MAG)
    }

    fn valid_literal() -> (validated: Result<i128, LiteralError>) {
        validate_signed(NEG, MAG, u64::MIN as i128, u64::MAX as u128, false)
    }

    fn into_self() -> (made: Self) {
        legal_signed_literal(NEG, MAG) as u64
    }
}

impl<const NEG: bool, const MAG: u128> FromLiteralSigned<NEG, MAG> for u128 {
    open spec fn refusal() -> Option<LiteralError> {
        signed_refusal(signed_value(NEG, MAG), u128::MIN as int, u128::MAX as int, false)
    }

    open spec fn is_literal(&self) -> bool {
        *self == signed_value(NEG, MAG)
    }

    fn valid_literal() -> (validated: Result<i128, LiteralError>) {
        validate_signed(NEG, MAG, u128::MIN as i128, u128::MAX as u128, false)
    }

    fn into_self() -> (made: Self) {
        legal_signed_literal(NEG, MAG) as u128
    }
}

impl<const NEG: bool, const MAG: u128> FromLiteralSigned<NEG, MAG> for usize {
    open spec fn refusal() -> Option<LiteralError> {
        signed_refusal(signed_value(NEG, MAG), usize::MIN as int, usize::MAX as int, false)
    }

    open spec fn is_literal(&self) -> bool {
        *self == signed_value(NEG, MAG)
    }

    fn valid_literal() -> (validated: Result<i128, LiteralError>) {
        validate_signed(NEG, MAG, usize::MIN as i128, usize::MAX as u128, false)
    }

    fn into_self() -> (made: Self) {
        legal_signed_literal(NEG, MAG) as usize
    }
}

impl<const NEG: bool, const MAG: u128> FromLiteralSigned<NEG, MAG> for i8 {
    open spec fn refusal() -> Option<LiteralError> {
        signed_refusal(signed_value(NEG, MAG), i8::MIN as int, i8::MAX as int, false)
    }

    open spec fn is_literal(&self) -> bool {
        *self == signed_value(NEG, MAG)
    }

    fn valid_literal() -> (validated: Result<i128, LiteralError>) {
        validate_signed(NEG, MAG, i8::MIN as i128, i8::MAX as u128, false)
    }

    fn into_self() -> (made: Self) {
        legal_signed_literal(NEG, MAG) as i8
    }
}

impl<const NEG: bool, const MAG: u128> FromLiteralSigned<NEG, MAG> for i16 {
    open spec fn refusal() -> Option<LiteralError> {
        signed_refusal(signed_value(NEG, MAG), i16::MIN as int, i16::MAX as int, false)
    }

    open spec fn is_literal(&self) -> bool {
        *self == signed_value(NEG, MAG)
    }

    fn valid_literal() -> (validated: Result<i128, LiteralError>) {
        validate_signed(NEG, MAG, i16::MIN as i128, i16::MAX as u128, false)
    }

    fn into_self() -> (made: Self) {
        legal_signed_literal(NEG, MAG) as i16
    }
}

impl<const NEG: bool, const MAG: u128> FromLiteralSigned<NEG, MAG> for i32 {
    open spec fn refusal() -> Option<LiteralError> {
        signed_refusal(signed_value(NEG, MAG), i32::MIN as int, i32::MAX as int, false)
    }

    open spec fn is_literal(&self) -> bool {
        *self == signed_value(NEG, MAG)
    }

    fn valid_literal() -> (validated: Result<i128, LiteralError>) {
        validate_signed(NEG, MAG, i32::MIN as i128, i32::MAX as u128, false)
    }

    fn into_self() -> (made: Self) {
        legal_signed_literal(NEG, MAG) as i32
    }
}

impl<const NEG: bool, const MAG: u128> FromLiteralSigned<NEG, MAG> for i64 {
    open spec fn refusal() -> Option<LiteralError> {
        signed_refusal(signed_value(NEG, MAG), i64::MIN as int, i64::MAX as int, false)
    }

    open spec fn is_literal(&self) -> bool {
        *self == signed_value(NEG, MAG)
    }

    fn valid_literal() -> (validated: Result<i128, LiteralError>) {
        validate_signed(NEG, MAG, i64::MIN as i128, i64::MAX as u128, false)
    }

    fn into_self() -> (made: Self) {
        legal_signed_literal(NEG, MAG) as i64
    }
}

impl<const NEG: bool, const MAG: u128> FromLiteralSigned<NEG, MAG> for i128 {
    open spec fn refusal() -> Option<LiteralError> {
        signed_refusal(signed_value(NEG, MAG), i128::MIN as int, i128::MAX as int, false)
    }

    open spec fn is_literal(&self) -> bool {
        *self == signed_value(NEG, MAG)
    }

    fn valid_literal() -> (validated: Result<i128, LiteralError>) {
        validate_signed(NEG, MAG, i128::MIN as i128, i128::MAX as u128, false)
    }

    fn into_self() -> (made: Self) {
        legal_signed_literal(NEG, MAG) as i128
    }
}

impl<const NEG: bool, const MAG: u128> FromLiteralSigned<NEG, MAG> for isize {
    open spec fn refusal() -> Option<LiteralError> {
        signed_refusal(signed_value(NEG, MAG), isize::MIN as int, isize::MAX as int, false)
    }

    open spec fn is_literal(&self) -> bool {
        *self == signed_value(NEG, MAG)
    }

    fn valid_literal() -> (validated: Result<i128, LiteralError>) {
        validate_signed(NEG, MAG, isize::MIN as i128, isize::MAX as u128, false)
    }

    fn into_self() -> (made: Self) {
        legal_signed_literal(NEG, MAG) as isize
    }
}

} // verus!
