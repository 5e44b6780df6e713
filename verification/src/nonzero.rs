//! Integers that are never zero, as targets of integer literals.
//!
//! The legal literals of a non-zero integer are those of the integer type it
//! wraps, without the zero. A zero is refused as a zero, whatever the range.
use vstd::prelude::*;

use crate::error::LiteralError;
use crate::signed::{
    legal_signed_literal, signed_refusal, signed_value, validate_signed, FromLiteralSigned,
};
use crate::unsigned::{range_refusal, validate_unsigned, FromLiteralUnsigned};

verus! {

/// An integer of the type `T` that is known not to be zero.
#[derive(Debug)]
pub struct NonZero<T: Integer> {
    raw: T,
}

impl<T: Integer> Clone for NonZero<T> {
    fn clone(&self) -> (copy: Self)
        ensures
            copy@ == self@,
    {
        proof {
            use_type_invariant(self);
        }
        NonZero { raw: self.raw }
    }
}

impl<T: Integer> Copy for NonZero<T> {
}

impl<T: Integer> View for NonZero<T> {
    type V = int;

    /// The integer that the value holds.
    closed spec fn view(&self) -> int {
        self.raw as int
    }
}

impl<T: Integer> NonZero<T> {
    #[verifier::type_invariant]
    spec fn holds_no_zero(self) -> bool {
        self.raw as int != 0
    }

    /// The integer that the value holds, which is not zero.
    pub fn get(&self) -> (raw: T)
        ensures
            raw as int == self@,
            raw as int != 0,
    {
        proof {
            use_type_invariant(self);
        }
        self.raw
    }
}

/// A `u8` that is never zero.
pub type NonZeroU8 = NonZero<u8>;

impl NonZero<u8> {
    /// The non-zero integer that holds `raw`, or `None` where `raw` is zero.
    pub fn new(raw: u8) -> (made: Option<Self>)
        ensures
            made is Some <==> raw != 0,
            made matches Some(value) ==> value@ == raw,
    {
        if raw == 0 {
            None
        } else {
            Some(NonZero { raw })
        }
    }
}

/// A `u16` that is never zero.
pub type NonZeroU16 = NonZero<u16>;

impl NonZero<u16> {
    /// The non-zero integer that holds `raw`, or `None` where `raw` is zero.
    pub fn new(raw: u16) -> (made: Option<Self>)
        ensures
            made is Some <==> raw != 0,
            made matches Some(value) ==> value@ == raw,
    {
        if raw == 0 {
            None
        } else {
            Some(NonZero { raw })
        }
    }
}

/// A `u32` that is never zero.
pub type NonZeroU32 = NonZero<u32>;

impl NonZero<u32> {
    /// The non-zero integer that holds `raw`, or `None` where `raw` is zero.
    pub fn new(raw: u32) -> (made: Option<Self>)
        ensures
            made is Some <==> raw != 0,
            made matches Some(value) ==> value@ == raw,
    {
        if raw == 0 {
            None
        } else {
            Some(NonZero { raw })
        }
    }
}

/// A `u64` that is never zero.
pub type NonZeroU64 = NonZero<u64>;

impl NonZero<u64> {
    /// The non-zero integer that holds `raw`, or `None` where `raw` is zero.
    pub fn new(raw: u64) -> (made: Option<Self>)
        ensures
            made is Some <==> raw != 0,
            made matches Some(value) ==> value@ == raw,
    {
        if raw == 0 {
            None
        } else {
            Some(NonZero { raw })
        }
    }
}

/// A `u128` that is never zero.
pub type NonZeroU128 = NonZero<u128>;

impl NonZero<u128> {
    /// The non-zero integer that holds `raw`, or `None` where `raw` is zero.
    pub fn new(raw: u128) -> (made: Option<Self>)
        ensures
            made is Some <==> raw != 0,
            made matches Some(value) ==> value@ == raw,
    {
        if raw == 0 {
            None
        } else {
            Some(NonZero { raw })
        }
    }
}

/// A `usize` that is never zero.
pub type NonZeroUsize = NonZero<usize>;

impl NonZero<usize> {
    /// The non-zero integer that holds `raw`, or `None` where `raw` is zero.
    pub fn new(raw: usize) -> (made: Option<Self>)
        ensures
            made is Some <==> raw != 0,
            made matches Some(value) ==> value@ == raw,
    {
        if raw == 0 {
            None
        } else {
            Some(NonZero { raw })
        }
    }
}

/// A `i8` that is never zero.
pub type NonZeroI8 = NonZero<i8>;

impl NonZero<i8> {
    /// The non-zero integer that holds `raw`, or `None` where `raw` is zero.
    pub fn new(raw: i8) -> (made: Option<Self>)
        ensures
            made is Some <==> raw != 0,
            made matches Some(value) ==> value@ == raw,
    {
        if raw == 0 {
            None
        } else {
            Some(NonZero { raw })
        }
    }
}

/// A `i16` that is never zero.
pub type NonZeroI16 = NonZero<i16>;

impl NonZero<i16> {
    /// The non-zero integer that holds `raw`, or `None` where `raw` is zero.
    pub fn new(raw: i16) -> (made: Option<Self>)
        ensures
            made is Some <==> raw != 0,
            made matches Some(value) ==> value@ == raw,
    {
        if raw == 0 {
            None
        } else {
            Some(NonZero { raw })
        }
    }
}

/// A `i32` that is never zero.
pub type NonZeroI32 = NonZero<i32>;

impl NonZero<i32> {
    /// The non-zero integer that holds `raw`, or `None` where `raw` is zero.
    pub fn new(raw: i32) -> (made: Option<Self>)
        ensures
            made is Some <==> raw != 0,
            made matches Some(value) ==> value@ == raw,
    {
        if raw == 0 {
            None
        } else {
            Some(NonZero { raw })
        }
    }
}

/// A `i64` that is never zero.
pub type NonZeroI64 = NonZero<i64>;

impl NonZero<i64> {
    /// The non-zero integer that holds `raw`, or `None` where `raw` is zero.
    pub fn new(raw: i64) -> (made: Option<Self>)
        ensures
            made is Some <==> raw != 0,
            made matches Some(value) ==> value@ == raw,
    {
        if raw == 0 {
            None
        } else {
            Some(NonZero { raw })
        }
    }
}

/// A `i128` that is never zero.
pub type NonZeroI128 = NonZero<i128>;

impl NonZero<i128> {
    /// The non-zero integer that holds `raw`, or `None` where `raw` is zero.
    pub fn new(raw: i128) -> (made: Option<Self>)
        ensures
            made is Some <==> raw != 0,
            made matches Some(value) ==> value@ == raw,
    {
        if raw == 0 {
            None
        } else {
            Some(NonZero { raw })
        }
    }
}

/// A `isize` that is never zero.
pub type NonZeroIsize = NonZero<isize>;

impl NonZero<isize> {
    /// The non-zero integer that holds `raw`, or `None` where `raw` is zero.
    pub fn new(raw: isize) -> (made: Option<Self>)
        ensures
            made is Some <==> raw != 0,
            made matches Some(value) ==> value@ == raw,
    {
        if raw == 0 {
            None
        } else {
            Some(NonZero { raw })
        }
    }
}

impl<const LIT: u128> FromLiteralUnsigned<LIT> for NonZero<u8> {
    open spec fn refusal() -> Option<LiteralError> {
        range_refusal(LIT as int, u8::MIN as int, u8::MAX as int, true)
    }

    open spec fn is_literal(&self) -> bool {
        self@ == LIT
    }

    fn valid_literal() -> (validated: Result<u128, LiteralError>) {
        validate_unsigned(LIT, u8::MAX as u128, true)
    }

    fn into_self() -> (made: Self) {
        NonZero { raw: LIT as u8 }
    }
}

impl<const LIT: u128> FromLiteralUnsigned<LIT> for NonZero<u16> {
    open spec fn refusal() -> Option<LiteralError> {
        range_refusal(LIT as int, u16::MIN as int, u16::MAX as int, true)
    }

    open spec fn is_literal(&self) -> bool {
        self@ == LIT
    }

    fn valid_literal() -> (validated: Result<u128, LiteralError>) {
        validate_unsigned(LIT, u16::MAX as u128, true)
    }

    fn into_self() -> (made: Self) {
        NonZero { raw: LIT as u16 }
    }
}

impl<const LIT: u128> FromLiteralUnsigned<LIT> for NonZero<u32> {
    open spec fn refusal() -> Option<LiteralError> {
        range_refusal(LIT as int, u32::MIN as int, u32::MAX as int, true)
    }

    open spec fn is_literal(&self) -> bool {
        self@ == LIT
    }

    fn valid_literal() -> (validated: Result<u128, LiteralError>) {
        validate_unsigned(LIT, u32::MAX as u128, true)
    }

    fn into_self() -> (made: Self) {
        NonZero { raw: LIT as u32 }
    }
}

impl<const LIT: u128> FromLiteralUnsigned<LIT> for NonZero<u64> {
    open spec fn refusal() -> Option<LiteralError> {
        range_refusal(LIT as int, u64::MIN as int, u64::MAX as int, true)
    }

    open spec fn is_literal(&self) -> bool {
        self@ == LIT
    }

    fn valid_literal() -> (validated: Result<u128, LiteralError>) {
        validate_unsigned(LIT, u64::MAX as u128, true)
    }

    fn into_self() -> (made: Self) {
        NonZero { raw: LIT as u64 }
    }
}

impl<const LIT: u128> FromLiteralUnsigned<LIT> for NonZero<u128> {
    open spec fn refusal() -> Option<LiteralError> {
        range_refusal(LIT as int, u128::MIN as int, u128::MAX as int, true)
    }

    open spec fn is_literal(&self) -> bool {
        self@ == LIT
    }

    fn valid_literal() -> (validated: Result<u128, LiteralError>) {
        validate_unsigned(LIT, u128::MAX as u128, true)
    }

    fn into_self() -> (made: Self) {
        NonZero { raw: LIT as u128 }
    }
}

impl<const LIT: u128> FromLiteralUnsigned<LIT> for NonZero<usize> {
    open spec fn refusal() -> Option<LiteralError> {
        range_refusal(LIT as int, usize::MIN as int, usize::MAX as int, true)
    }

    open spec fn is_literal(&self) -> bool {
        self@ == LIT
    }

    fn valid_literal() -> (validated: Result<u128, LiteralError>) {
        validate_unsigned(LIT, usize::MAX as u128, true)
    }

    fn into_self() -> (made: Self) {
        NonZero { raw: LIT as usize }
    }
}

impl<const LIT: u128> FromLiteralUnsigned<LIT> for NonZero<i8> {
    open spec fn refusal() -> Option<LiteralError> {
        range_refusal(LIT as int, i8::MIN as int, i8::MAX as int, true)
    }

    open spec fn is_literal(&self) -> bool {
        self@ == LIT
    }

    fn valid_literal() -> (validated: Result<u128, LiteralError>) {
        validate_unsigned(LIT, i8::MAX as u128, true)
    }

    fn into_self() -> (made: Self) {
        NonZero { raw: LIT as i8 }
    }
}

impl<const LIT: u128> FromLiteralUnsigned<LIT> for NonZero<i16> {
    open spec fn refusal() -> Option<LiteralError> {
        range_refusal(LIT as int, i16::MIN as int, i16::MAX as int, true)
    }

    open spec fn is_literal(&self) -> bool {
        self@ == LIT
    }

    fn valid_literal() -> (validated: Result<u128, LiteralError>) {
        validate_unsigned(LIT, i16::MAX as u128, true)
    }

    fn into_self() -> (made: Self) {
        NonZero { raw: LIT as i16 }
    }
}

impl<const LIT: u128> FromLiteralUnsigned<LIT> for NonZero<i32> {
    open spec fn refusal() -> Option<LiteralError> {
        range_refusal(LIT as int, i32::MIN as int, i32::MAX as int, true)
    }

    open spec fn is_literal(&self) -> bool {
        self@ == LIT
    }

    fn valid_literal() -> (validated: Result<u128, LiteralError>) {
        validate_unsigned(LIT, i32::MAX as u128, true)
    }

    fn into_self() -> (made: Self) {
        NonZero { raw: LIT as i32 }
    }
}

impl<const LIT: u128> FromLiteralUnsigned<LIT> for NonZero<i64> {
    open spec fn refusal() -> Option<LiteralError> {
        range_refusal(LIT as int, i64::MIN as int, i64::MAX as int, true)
    }

    open spec fn is_literal(&self) -> bool {
        self@ == LIT
    }

    fn valid_literal() -> (validated: Result<u128, LiteralError>) {
        validate_unsigned(LIT, i64::MAX as u128, true)
    }

    fn into_self() -> (made: Self) {
        NonZero { raw: LIT as i64 }
    }
}

impl<const LIT: u128> FromLiteralUnsigned<LIT> for NonZero<i128> {
    open spec fn refusal() -> Option<LiteralError> {
        range_refusal(LIT as int, i128::MIN as int, i128::MAX as int, true)
    }

    open spec fn is_literal(&self) -> bool {
        self@ == LIT
    }

    fn valid_literal() -> (validated: Result<u128, LiteralError>) {
        validate_unsigned(LIT, i128::MAX as u128, true)
    }

    fn into_self() -> (made: Self) {
        NonZero { raw: LIT as i128 }
    }
}

impl<const LIT: u128> FromLiteralUnsigned<LIT> for NonZero<isize> {
    open spec fn refusal() -> Option<LiteralError> {
        range_refusal(LIT as int, isize::MIN as int, isize::MAX as int, true)
    }

    open spec fn is_literal(&self) -> bool {
        self@ == LIT
    }

    fn valid_literal() -> (validated: Result<u128, LiteralError>) {
        validate_unsigned(LIT, isize::MAX as u128, true)
    }

    fn into_self() -> (made: Self) {
        NonZero { raw: LIT as isize }
    }
}

impl<const NEG: bool, const MAG: u128> FromLiteralSigned<NEG, MAG> for NonZero<u8> {
    open spec fn refusal() -> Option<LiteralError> {
        signed_refusal(signed_value(NEG, MAG), u8::MIN as int, u8::MAX as int, true)
    }

    open spec fn is_literal(&self) -> bool {
        self@ == signed_value(NEG, MAG)
    }

    fn valid_literal() -> (validated: Result<i128, LiteralError>) {
        validate_signed(NEG, MAG, u8::MIN as i128, u8::MAX as u128, true)
    }

    fn into_self() -> (made: Self) {
        NonZero { raw: legal_signed_literal(NEG, MAG) as u8 }
    }
}

impl<const NEG: bool, const MAG: u128> FromLiteralSigned<NEG, MAG> for NonZero<u16> {
    open spec fn refusal() -> Option<LiteralError> {
        signed_refusal(signed_value(NEG, MAG), u16::MIN as int, u16::MAX as int, true)
    }

    open spec fn is_literal(&self) -> bool {
        self@ == signed_value(NEG, MAG)
    }

    fn valid_literal() -> (validated: Result<i128, LiteralError>) {
        validate_signed(NEG, MAG, u16::MIN as i128, u16::MAX as u128, true)
    }

    fn into_self() -> (made: Self) {
        NonZero { raw: legal_signed_literal(NEG, MAG) as u16 }
    }
}

impl<const NEG: bool, const MAG: u128> FromLiteralSigned<NEG, MAG> for NonZero<u32> {
    open spec fn refusal() -> Option<LiteralError> {
        signed_refusal(signed_value(NEG, MAG), u32::MIN as int, u32::MAX as int, true)
    }

    open spec fn is_literal(&self) -> bool {
        self@ == signed_value(NEG, MAG)
    }

    fn valid_literal() -> (validated: Result<i128, LiteralError>) {
        validate_signed(NEG, MAG, u32::MIN as i128, u32::MAX as u128, true)
    }

    fn into_self() -> (made: Self) {
        NonZero { raw: legal_signed_literal(NEG, MAG) as u32 }
    }
}

impl<const NEG: bool, const MAG: u128> FromLiteralSigned<NEG, MAG> for NonZero<u64> {
    open spec fn refusal() -> Option<LiteralError> {
        signed_refusal(signed_value(NEG, MAG), u64::MIN as int, u64::MAX as int, true)
    }

    open spec fn is_literal(&self) -> bool {
        self@ == signed_value(NEG, MAG)
    }

    fn valid_literal() -> (validated: Result<i128, LiteralError>) {
        validate_signed(NEG, MAG, u64::MIN as i128, u64::MAX as u128, true)
    }

    fn into_self() -> (made: Self) {
        NonZero { raw: legal_signed_literal(NEG, MAG) as u64 }
    }
}

impl<const NEG: bool, const MAG: u128> FromLiteralSigned<NEG, MAG> for NonZero<u128> {
    open spec fn refusal() -> Option<LiteralError> {
        signed_refusal(signed_value(NEG, MAG), u128::MIN as int, u128::MAX as int, true)
    }

    open spec fn is_literal(&self) -> bool {
        self@ == signed_value(NEG, MAG)
    }

    fn valid_literal() -> (validated: Result<i128, LiteralError>) {
        validate_signed(NEG, MAG, u128::MIN as i128, u128::MAX as u128, true)
    }

    fn into_self() -> (made: Self) {
        NonZero { raw: legal_signed_literal(NEG, MAG) as u128 }
    }
}

impl<const NEG: bool, const MAG: u128> FromLiteralSigned<NEG, MAG> for NonZero<usize> {
    open spec fn refusal() -> Option<LiteralError> {
        signed_refusal(signed_value(NEG, MAG), usize::MIN as int, usize::MAX as int, true)
    }

    open spec fn is_literal(&self) -> bool {
        self@ == signed_value(NEG, MAG)
    }

    fn valid_literal() -> (validated: Result<i128, LiteralError>) {
        validate_signed(NEG, MAG, usize::MIN as i128, usize::MAX as u128, true)
    }

    fn into_self() -> (made: Self) {
        NonZero { raw: legal_signed_literal(NEG, MAG) as usize }
    }
}

impl<const NEG: bool, const MAG: u128> FromLiteralSigned<NEG, MAG> for NonZero<i8> {
    open spec fn refusal() -> Option<LiteralError> {
        signed_refusal(signed_value(NEG, MAG), i8::MIN as int, i8::MAX as int, true)
    }

    open spec fn is_literal(&self) -> bool {
        self@ == signed_value(NEG, MAG)
    }

    fn valid_literal() -> (validated: Result<i128, LiteralError>) {
        validate_signed(NEG, MAG, i8::MIN as i128, i8::MAX as u128, true)
    }

    fn into_self() -> (made: Self) {
        NonZero { raw: legal_signed_literal(NEG, MAG) as i8 }
    }
}

impl<const NEG: bool, const MAG: u128> FromLiteralSigned<NEG, MAG> for NonZero<i16> {
    open spec fn refusal() -> Option<LiteralError> {
        signed_refusal(signed_value(NEG, MAG), i16::MIN as int, i16::MAX as int, true)
    }

    open spec fn is_literal(&self) -> bool {
        self@ == signed_value(NEG, MAG)
    }

    fn valid_literal() -> (validated: Result<i128, LiteralError>) {
        validate_signed(NEG, MAG, i16::MIN as i128, i16::MAX as u128, true)
    }

    fn into_self() -> (made: Self) {
        NonZero { raw: legal_signed_literal(NEG, MAG) as i16 }
    }
}

impl<const NEG: bool, const MAG: u128> FromLiteralSigned<NEG, MAG> for NonZero<i32> {
    open spec fn refusal() -> Option<LiteralError> {
        signed_refusal(signed_value(NEG, MAG), i32::MIN as int, i32::MAX as int, true)
    }

    open spec fn is_literal(&self) -> bool {
        self@ == signed_value(NEG, MAG)
    }

    fn valid_literal() -> (validated: Result<i128, LiteralError>) {
        validate_signed(NEG, MAG, i32::MIN as i128, i32::MAX as u128, true)
    }

    fn into_self() -> (made: Self) {
        NonZero { raw: legal_signed_literal(NEG, MAG) as i32 }
    }
}

impl<const NEG: bool, const MAG: u128> FromLiteralSigned<NEG, MAG> for NonZero<i64> {
    open spec fn refusal() -> Option<LiteralError> {
        signed_refusal(signed_value(NEG, MAG), i64::MIN as int, i64::MAX as int, true)
    }

    open spec fn is_literal(&self) -> bool {
        self@ == signed_value(NEG, MAG)
    }

    fn valid_literal() -> (validated: Result<i128, LiteralError>) {
        validate_signed(NEG, MAG, i64::MIN as i128, i64::MAX as u128, true)
    }

    fn into_self() -> (made: Self) {
        NonZero { raw: legal_signed_literal(NEG, MAG) as i64 }
    }
}

impl<const NEG: bool, const MAG: u128> FromLiteralSigned<NEG, MAG> for NonZero<i128> {
    open spec fn refusal() -> Option<LiteralError> {
        signed_refusal(signed_value(NEG, MAG), i128::MIN as int, i128::MAX as int, true)
    }

    open spec fn is_literal(&self) -> bool {
        self@ == signed_value(NEG, MAG)
    }

    fn valid_literal() -> (validated: Result<i128, LiteralError>) {
        validate_signed(NEG, MAG, i128::MIN as i128, i128::MAX as u128, true)
    }

    fn into_self() -> (made: Self) {
        NonZero { raw: legal_signed_literal(NEG, MAG) as i128 }
    }
}

impl<const NEG: bool, const MAG: u128> FromLiteralSigned<NEG, MAG> for NonZero<isize> {
    open spec fn refusal() -> Option<LiteralError> {
        signed_refusal(signed_value(NEG, MAG), isize::MIN as int, isize::MAX as int, true)
    }

    open spec fn is_literal(&self) -> bool {
        self@ == signed_value(NEG, MAG)
    }

    fn valid_literal() -> (validated: Result<i128, LiteralError>) {
        validate_signed(NEG, MAG, isize::MIN as i128, isize::MAX as u128, true)
    }

    fn into_self() -> (made: Self) {
        NonZero { raw: legal_signed_literal(NEG, MAG) as isize }
    }
}

} // verus!
