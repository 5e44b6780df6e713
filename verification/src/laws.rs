//! What holds of the contracts and of the conformances of this crate, for
//! every literal.
use vstd::arithmetic::power2::pow2;
use vstd::prelude::*;
use vstd::utf8::{decode_utf8, encode_utf8, valid_utf8};

use crate::error::LiteralError;
use crate::literal_str::{is_text_outcome, FromLiteralStr};
use crate::nonzero::NonZero;
use crate::signed::{is_signed_outcome, signed_value, FromLiteralSigned};
use crate::type_str::{Byte, TCons, TypeStr};
use crate::unsigned::{unsigned_outcome, FromLiteralUnsigned};

verus! {

/// Whether `value` is one of the integers that an unsigned integer type of
/// `bits` bits holds: those from 0 to 2^bits - 1.
pub open spec fn fits_unsigned(value: int, bits: nat) -> bool {
    0 <= value <= pow2(bits) - 1
}

/// Whether `value` is one of the integers that a signed integer type of
/// `bits` bits holds: those from -2^(bits-1) to 2^(bits-1) - 1.
pub open spec fn fits_signed(value: int, bits: nat) -> bool
    recommends
        bits >= 1,
{
    -pow2((bits - 1) as nat) <= value <= pow2((bits - 1) as nat) - 1
}

/// The limits of the integer types as powers of two.
pub proof fn lemma_integer_limits()
    ensures
        u8::MAX == pow2(8) - 1,
        u16::MAX == pow2(16) - 1,
        u32::MAX == pow2(32) - 1,
        u64::MAX == pow2(64) - 1,
        u128::MAX == pow2(128) - 1,
        usize::MAX == pow2(usize::BITS as nat) - 1,
        i8::MIN == -pow2(7) && i8::MAX == pow2(7) - 1,
        i16::MIN == -pow2(15) && i16::MAX == pow2(15) - 1,
        i32::MIN == -pow2(31) && i32::MAX == pow2(31) - 1,
        i64::MIN == -pow2(63) && i64::MAX == pow2(63) - 1,
        i128::MIN == -pow2(127) && i128::MAX == pow2(127) - 1,
        isize::MIN == -pow2((isize::BITS - 1) as nat),
        isize::MAX == pow2((isize::BITS - 1) as nat) - 1,
{
    vstd::layout::unsigned_int_max_values();
    vstd::arithmetic::power2::lemma2_to64();
    vstd::arithmetic::power2::lemma2_to64_rest();
    vstd::arithmetic::power2::lemma_pow2_adds(64, 63);
    assert(pow2(127) == 0x8000_0000_0000_0000_0000_0000_0000_0000) by {
        assert(0x1_0000_0000_0000_0000 * 0x8000_0000_0000_0000
            == 0x8000_0000_0000_0000_0000_0000_0000_0000int) by (nonlinear_arith);
    }
}

/// The reason for which the target type `T` refuses the unsigned literal
/// `LIT`, or `None` where `T` takes it.
pub open spec fn unsigned_refusal_of<const LIT: u128, T: FromLiteralUnsigned<LIT>>() -> Option<
    LiteralError,
> {
    T::refusal()
}

/// The reason for which the target type `T` refuses the signed literal with
/// the sign `NEG` and the magnitude `MAG`, or `None` where `T` takes it.
pub open spec fn signed_refusal_of<
    const NEG: bool,
    const MAG: u128,
    T: FromLiteralSigned<NEG, MAG>,
>() -> Option<LiteralError> {
    T::refusal()
}

/// An unsigned integer type of W bits takes the unsigned literal `LIT` exactly
/// where 0 <= LIT <= 2^W - 1. Its non-zero form takes the same literals but
/// the zero.
pub proof fn law_unsigned_literal_of_unsigned_target<const LIT: u128>()
    ensures
        unsigned_refusal_of::<LIT, u8>() is None <==> fits_unsigned(LIT as int, 8),
        unsigned_refusal_of::<LIT, NonZero<u8>>() is None <==> LIT != 0 && fits_unsigned(
            LIT as int,
            8,
        ),
        unsigned_refusal_of::<LIT, u16>() is None <==> fits_unsigned(LIT as int, 16),
        unsigned_refusal_of::<LIT, NonZero<u16>>() is None <==> LIT != 0 && fits_unsigned(
            LIT as int,
            16,
        ),
        unsigned_refusal_of::<LIT, u32>() is None <==> fits_unsigned(LIT as int, 32),
        unsigned_refusal_of::<LIT, NonZero<u32>>() is None <==> LIT != 0 && fits_unsigned(
            LIT as int,
            32,
        ),
        unsigned_refusal_of::<LIT, u64>() is None <==> fits_unsigned(LIT as int, 64),
        unsigned_refusal_of::<LIT, NonZero<u64>>() is None <==> LIT != 0 && fits_unsigned(
            LIT as int,
            64,
        ),
        unsigned_refusal_of::<LIT, u128>() is None <==> fits_unsigned(LIT as int, 128),
        unsigned_refusal_of::<LIT, NonZero<u128>>() is None <==> LIT != 0 && fits_unsigned(
            LIT as int,
            128,
        ),
        unsigned_refusal_of::<LIT, usize>() is None <==> fits_unsigned(
            LIT as int,
            usize::BITS as nat,
        ),
        unsigned_refusal_of::<LIT, NonZero<usize>>() is None <==> LIT != 0 && fits_unsigned(
            LIT as int,
            usize::BITS as nat,
        ),
{
    lemma_integer_limits();
}

/// A signed integer type of W bits takes the signed literal with the sign
/// `NEG` and the magnitude `MAG` exactly where -2^(W-1) <= literal <= 2^(W-1) - 1.
/// Its non-zero form takes the same literals but the zero.
pub proof fn law_signed_literal_of_signed_target<const NEG: bool, const MAG: u128>()
    ensures
        signed_refusal_of::<NEG, MAG, i8>() is None <==> fits_signed(signed_value(NEG, MAG), 8),
        signed_refusal_of::<NEG, MAG, NonZero<i8>>() is None <==> MAG != 0 && fits_signed(
            signed_value(NEG, MAG),
            8,
        ),
        signed_refusal_of::<NEG, MAG, i16>() is None <==> fits_signed(signed_value(NEG, MAG), 16),
        signed_refusal_of::<NEG, MAG, NonZero<i16>>() is None <==> MAG != 0 && fits_signed(
            signed_value(NEG, MAG),
            16,
        ),
        signed_refusal_of::<NEG, MAG, i32>() is None <==> fits_signed(signed_value(NEG, MAG), 32),
        signed_refusal_of::<NEG, MAG, NonZero<i32>>() is None <==> MAG != 0 && fits_signed(
            signed_value(NEG, MAG),
            32,
        ),
        signed_refusal_of::<NEG, MAG, i64>() is None <==> fits_signed(signed_value(NEG, MAG), 64),
        signed_refusal_of::<NEG, MAG, NonZero<i64>>() is None <==> MAG != 0 && fits_signed(
            signed_value(NEG, MAG),
            64,
        ),
        signed_refusal_of::<NEG, MAG, i128>() is None <==> fits_signed(signed_value(NEG, MAG), 128),
        signed_refusal_of::<NEG, MAG, NonZero<i128>>() is None <==> MAG != 0 && fits_signed(
            signed_value(NEG, MAG),
            128,
        ),
        signed_refusal_of::<NEG, MAG, isize>() is None <==> fits_signed(
            signed_value(NEG, MAG),
            isize::BITS as nat,
        ),
        signed_refusal_of::<NEG, MAG, NonZero<isize>>() is None <==> MAG != 0 && fits_signed(
            signed_value(NEG, MAG),
            isize::BITS as nat,
        ),
{
    lemma_integer_limits();
}

/// A signed integer type of W bits takes the unsigned literal `LIT` exactly
/// where LIT <= 2^(W-1) - 1: a literal without a sign is never below the
/// range. Its non-zero form takes the same literals but the zero.
pub proof fn law_unsigned_literal_of_signed_target<const LIT: u128>()
    ensures
        unsigned_refusal_of::<LIT, i8>() is None <==> fits_signed(LIT as int, 8),
        unsigned_refusal_of::<LIT, NonZero<i8>>() is None <==> LIT != 0 && fits_signed(
            LIT as int,
            8,
        ),
        unsigned_refusal_of::<LIT, i16>() is None <==> fits_signed(LIT as int, 16),
        unsigned_refusal_of::<LIT, NonZero<i16>>() is None <==> LIT != 0 && fits_signed(
            LIT as int,
            16,
        ),
        unsigned_refusal_of::<LIT, i32>() is None <==> fits_signed(LIT as int, 32),
        unsigned_refusal_of::<LIT, NonZero<i32>>() is None <==> LIT != 0 && fits_signed(
            LIT as int,
            32,
        ),
        unsigned_refusal_of::<LIT, i64>() is None <==> fits_signed(LIT as int, 64),
        unsigned_refusal_of::<LIT, NonZero<i64>>() is None <==> LIT != 0 && fits_signed(
            LIT as int,
            64,
        ),
        unsigned_refusal_of::<LIT, i128>() is None <==> fits_signed(LIT as int, 128),
        unsigned_refusal_of::<LIT, NonZero<i128>>() is None <==> LIT != 0 && fits_signed(
            LIT as int,
            128,
        ),
        unsigned_refusal_of::<LIT, isize>() is None <==> fits_signed(
            LIT as int,
            isize::BITS as nat,
        ),
        unsigned_refusal_of::<LIT, NonZero<isize>>() is None <==> LIT != 0 && fits_signed(
            LIT as int,
            isize::BITS as nat,
        ),
{
    lemma_integer_limits();
}

/// An unsigned integer type of W bits takes the signed literal with the sign
/// `NEG` and the magnitude `MAG` exactly where 0 <= literal <= 2^W - 1 and the
/// widest signed integer type holds the literal. No literal below zero is
/// taken, and the zero is taken however it is written. The non-zero form
/// takes the same literals but the zero.
pub proof fn law_signed_literal_of_unsigned_target<const NEG: bool, const MAG: u128>()
    ensures
        signed_refusal_of::<NEG, MAG, u8>() is None <==> fits_signed(signed_value(NEG, MAG), 128)
            && fits_unsigned(signed_value(NEG, MAG), 8),
        signed_refusal_of::<NEG, MAG, NonZero<u8>>() is None <==> MAG != 0 && fits_signed(
            signed_value(NEG, MAG),
            128,
        ) && fits_unsigned(signed_value(NEG, MAG), 8),
        signed_refusal_of::<NEG, MAG, u16>() is None <==> fits_signed(signed_value(NEG, MAG), 128)
            && fits_unsigned(signed_value(NEG, MAG), 16),
        signed_refusal_of::<NEG, MAG, NonZero<u16>>() is None <==> MAG != 0 && fits_signed(
            signed_value(NEG, MAG),
            128,
        ) && fits_unsigned(signed_value(NEG, MAG), 16),
        signed_refusal_of::<NEG, MAG, u32>() is None <==> fits_signed(signed_value(NEG, MAG), 128)
            && fits_unsigned(signed_value(NEG, MAG), 32),
        signed_refusal_of::<NEG, MAG, NonZero<u32>>() is None <==> MAG != 0 && fits_signed(
            signed_value(NEG, MAG),
            128,
        ) && fits_unsigned(signed_value(NEG, MAG), 32),
        signed_refusal_of::<NEG, MAG, u64>() is None <==> fits_signed(signed_value(NEG, MAG), 128)
            && fits_unsigned(signed_value(NEG, MAG), 64),
        signed_refusal_of::<NEG, MAG, NonZero<u64>>() is None <==> MAG != 0 && fits_signed(
            signed_value(NEG, MAG),
            128,
        ) && fits_unsigned(signed_value(NEG, MAG), 64),
        signed_refusal_of::<NEG, MAG, u128>() is None <==> fits_signed(signed_value(NEG, MAG), 128)
            && fits_unsigned(signed_value(NEG, MAG), 128),
        signed_refusal_of::<NEG, MAG, NonZero<u128>>() is None <==> MAG != 0 && fits_signed(
            signed_value(NEG, MAG),
            128,
        ) && fits_unsigned(signed_value(NEG, MAG), 128),
        signed_refusal_of::<NEG, MAG, usize>() is None <==> fits_signed(signed_value(NEG, MAG), 128)
            && fits_unsigned(signed_value(NEG, MAG), usize::BITS as nat),
        signed_refusal_of::<NEG, MAG, NonZero<usize>>() is None <==> MAG != 0 && fits_signed(
            signed_value(NEG, MAG),
            128,
        ) && fits_unsigned(signed_value(NEG, MAG), usize::BITS as nat),
{
    lemma_integer_limits();
}

/// The value that an integer type builds from a literal is the literal: no
/// other value of the type stands for it.
pub proof fn law_integer_built_is_the_literal<const LIT: u128, const NEG: bool, const MAG: u128>()
    ensures
        forall|made: u8| <u8 as FromLiteralUnsigned<LIT>>::is_literal(&made) <==> made == LIT,
        forall|made: u8|
            <u8 as FromLiteralSigned<NEG, MAG>>::is_literal(&made) <==> made == signed_value(
                NEG,
                MAG,
            ),
        forall|made: NonZero<u8>|
            <NonZero<u8> as FromLiteralUnsigned<LIT>>::is_literal(&made) <==> made@ == LIT,
        forall|made: NonZero<u8>|
            <NonZero<u8> as FromLiteralSigned<NEG, MAG>>::is_literal(&made) <==> made@
                == signed_value(NEG, MAG),
        forall|made: u16| <u16 as FromLiteralUnsigned<LIT>>::is_literal(&made) <==> made == LIT,
        forall|made: u16|
            <u16 as FromLiteralSigned<NEG, MAG>>::is_literal(&made) <==> made == signed_value(
                NEG,
                MAG,
            ),
        forall|made: NonZero<u16>|
            <NonZero<u16> as FromLiteralUnsigned<LIT>>::is_literal(&made) <==> made@ == LIT,
        forall|made: NonZero<u16>|
            <NonZero<u16> as FromLiteralSigned<NEG, MAG>>::is_literal(&made) <==> made@
                == signed_value(NEG, MAG),
        forall|made: u32| <u32 as FromLiteralUnsigned<LIT>>::is_literal(&made) <==> made == LIT,
        forall|made: u32|
            <u32 as FromLiteralSigned<NEG, MAG>>::is_literal(&made) <==> made == signed_value(
                NEG,
                MAG,
            ),
        forall|made: NonZero<u32>|
            <NonZero<u32> as FromLiteralUnsigned<LIT>>::is_literal(&made) <==> made@ == LIT,
        forall|made: NonZero<u32>|
            <NonZero<u32> as FromLiteralSigned<NEG, MAG>>::is_literal(&made) <==> made@
                == signed_value(NEG, MAG),
        forall|made: u64| <u64 as FromLiteralUnsigned<LIT>>::is_literal(&made) <==> made == LIT,
        forall|made: u64|
            <u64 as FromLiteralSigned<NEG, MAG>>::is_literal(&made) <==> made == signed_value(
                NEG,
                MAG,
            ),
        forall|made: NonZero<u64>|
            <NonZero<u64> as FromLiteralUnsigned<LIT>>::is_literal(&made) <==> made@ == LIT,
        forall|made: NonZero<u64>|
            <NonZero<u64> as FromLiteralSigned<NEG, MAG>>::is_literal(&made) <==> made@
                == signed_value(NEG, MAG),
        forall|made: u128| <u128 as FromLiteralUnsigned<LIT>>::is_literal(&made) <==> made == LIT,
        forall|made: u128|
            <u128 as FromLiteralSigned<NEG, MAG>>::is_literal(&made) <==> made == signed_value(
                NEG,
                MAG,
            ),
        forall|made: NonZero<u128>|
            <NonZero<u128> as FromLiteralUnsigned<LIT>>::is_literal(&made) <==> made@ == LIT,
        forall|made: NonZero<u128>|
            <NonZero<u128> as FromLiteralSigned<NEG, MAG>>::is_literal(&made) <==> made@
                == signed_value(NEG, MAG),
        forall|made: usize| <usize as FromLiteralUnsigned<LIT>>::is_literal(&made) <==> made == LIT,
        forall|made: usize|
            <usize as FromLiteralSigned<NEG, MAG>>::is_literal(&made) <==> made == signed_value(
                NEG,
                MAG,
            ),
        forall|made: NonZero<usize>|
            <NonZero<usize> as FromLiteralUnsigned<LIT>>::is_literal(&made) <==> made@ == LIT,
        forall|made: NonZero<usize>|
            <NonZero<usize> as FromLiteralSigned<NEG, MAG>>::is_literal(&made) <==> made@
                == signed_value(NEG, MAG),
        forall|made: i8| <i8 as FromLiteralUnsigned<LIT>>::is_literal(&made) <==> made == LIT,
        forall|made: i8|
            <i8 as FromLiteralSigned<NEG, MAG>>::is_literal(&made) <==> made == signed_value(
                NEG,
                MAG,
            ),
        forall|made: NonZero<i8>|
            <NonZero<i8> as FromLiteralUnsigned<LIT>>::is_literal(&made) <==> made@ == LIT,
        forall|made: NonZero<i8>|
            <NonZero<i8> as FromLiteralSigned<NEG, MAG>>::is_literal(&made) <==> made@
                == signed_value(NEG, MAG),
        forall|made: i16| <i16 as FromLiteralUnsigned<LIT>>::is_literal(&made) <==> made == LIT,
        forall|made: i16|
            <i16 as FromLiteralSigned<NEG, MAG>>::is_literal(&made) <==> made == signed_value(
                NEG,
                MAG,
            ),
        forall|made: NonZero<i16>|
            <NonZero<i16> as FromLiteralUnsigned<LIT>>::is_literal(&made) <==> made@ == LIT,
        forall|made: NonZero<i16>|
            <NonZero<i16> as FromLiteralSigned<NEG, MAG>>::is_literal(&made) <==> made@
                == signed_value(NEG, MAG),
        forall|made: i32| <i32 as FromLiteralUnsigned<LIT>>::is_literal(&made) <==> made == LIT,
        forall|made: i32|
            <i32 as FromLiteralSigned<NEG, MAG>>::is_literal(&made) <==> made == signed_value(
                NEG,
                MAG,
            ),
        forall|made: NonZero<i32>|
            <NonZero<i32> as FromLiteralUnsigned<LIT>>::is_literal(&made) <==> made@ == LIT,
        forall|made: NonZero<i32>|
            <NonZero<i32> as FromLiteralSigned<NEG, MAG>>::is_literal(&made) <==> made@
                == signed_value(NEG, MAG),
        forall|made: i64| <i64 as FromLiteralUnsigned<LIT>>::is_literal(&made) <==> made == LIT,
        forall|made: i64|
            <i64 as FromLiteralSigned<NEG, MAG>>::is_literal(&made) <==> made == signed_value(
                NEG,
                MAG,
            ),
        forall|made: NonZero<i64>|
            <NonZero<i64> as FromLiteralUnsigned<LIT>>::is_literal(&made) <==> made@ == LIT,
        forall|made: NonZero<i64>|
            <NonZero<i64> as FromLiteralSigned<NEG, MAG>>::is_literal(&made) <==> made@
                == signed_value(NEG, MAG),
        forall|made: i128| <i128 as FromLiteralUnsigned<LIT>>::is_literal(&made) <==> made == LIT,
        forall|made: i128|
            <i128 as FromLiteralSigned<NEG, MAG>>::is_literal(&made) <==> made == signed_value(
                NEG,
                MAG,
            ),
        forall|made: NonZero<i128>|
            <NonZero<i128> as FromLiteralUnsigned<LIT>>::is_literal(&made) <==> made@ == LIT,
        forall|made: NonZero<i128>|
            <NonZero<i128> as FromLiteralSigned<NEG, MAG>>::is_literal(&made) <==> made@
                == signed_value(NEG, MAG),
        forall|made: isize| <isize as FromLiteralUnsigned<LIT>>::is_literal(&made) <==> made == LIT,
        forall|made: isize|
            <isize as FromLiteralSigned<NEG, MAG>>::is_literal(&made) <==> made == signed_value(
                NEG,
                MAG,
            ),
        forall|made: NonZero<isize>|
            <NonZero<isize> as FromLiteralUnsigned<LIT>>::is_literal(&made) <==> made@ == LIT,
        forall|made: NonZero<isize>|
            <NonZero<isize> as FromLiteralSigned<NEG, MAG>>::is_literal(&made) <==> made@
                == signed_value(NEG, MAG),
{
}

/// The reason for which an integer type refuses an unsigned literal: the
/// plain types refuse for the range alone, their non-zero forms refuse the
/// zero as a zero and any other literal for the range.
pub proof fn law_reason_of_refused_unsigned_literal<const LIT: u128>()
    ensures
        unsigned_refusal_of::<LIT, u8>() is Some ==> unsigned_refusal_of::<LIT, u8>() == Some(
            LiteralError::OutOfRange,
        ),
        unsigned_refusal_of::<LIT, NonZero<u8>>() == Some(LiteralError::Zero) <==> LIT == 0,
        unsigned_refusal_of::<LIT, NonZero<u8>>() is Some && LIT != 0 ==> unsigned_refusal_of::<
            LIT,
            NonZero<u8>,
        >() == Some(LiteralError::OutOfRange),
        unsigned_refusal_of::<LIT, u16>() is Some ==> unsigned_refusal_of::<LIT, u16>() == Some(
            LiteralError::OutOfRange,
        ),
        unsigned_refusal_of::<LIT, NonZero<u16>>() == Some(LiteralError::Zero) <==> LIT == 0,
        unsigned_refusal_of::<LIT, NonZero<u16>>() is Some && LIT != 0 ==> unsigned_refusal_of::<
            LIT,
            NonZero<u16>,
        >() == Some(LiteralError::OutOfRange),
        unsigned_refusal_of::<LIT, u32>() is Some ==> unsigned_refusal_of::<LIT, u32>() == Some(
            LiteralError::OutOfRange,
        ),
        unsigned_refusal_of::<LIT, NonZero<u32>>() == Some(LiteralError::Zero) <==> LIT == 0,
        unsigned_refusal_of::<LIT, NonZero<u32>>() is Some && LIT != 0 ==> unsigned_refusal_of::<
            LIT,
            NonZero<u32>,
        >() == Some(LiteralError::OutOfRange),
        unsigned_refusal_of::<LIT, u64>() is Some ==> unsigned_refusal_of::<LIT, u64>() == Some(
            LiteralError::OutOfRange,
        ),
        unsigned_refusal_of::<LIT, NonZero<u64>>() == Some(LiteralError::Zero) <==> LIT == 0,
        unsigned_refusal_of::<LIT, NonZero<u64>>() is Some && LIT != 0 ==> unsigned_refusal_of::<
            LIT,
            NonZero<u64>,
        >() == Some(LiteralError::OutOfRange),
        unsigned_refusal_of::<LIT, u128>() is Some ==> unsigned_refusal_of::<LIT, u128>() == Some(
            LiteralError::OutOfRange,
        ),
        unsigned_refusal_of::<LIT, NonZero<u128>>() == Some(LiteralError::Zero) <==> LIT == 0,
        unsigned_refusal_of::<LIT, NonZero<u128>>() is Some && LIT != 0 ==> unsigned_refusal_of::<
            LIT,
            NonZero<u128>,
        >() == Some(LiteralError::OutOfRange),
        unsigned_refusal_of::<LIT, usize>() is Some ==> unsigned_refusal_of::<LIT, usize>() == Some(
            LiteralError::OutOfRange,
        ),
        unsigned_refusal_of::<LIT, NonZero<usize>>() == Some(LiteralError::Zero) <==> LIT == 0,
        unsigned_refusal_of::<LIT, NonZero<usize>>() is Some && LIT != 0 ==> unsigned_refusal_of::<
            LIT,
            NonZero<usize>,
        >() == Some(LiteralError::OutOfRange),
        unsigned_refusal_of::<LIT, i8>() is Some ==> unsigned_refusal_of::<LIT, i8>() == Some(
            LiteralError::OutOfRange,
        ),
        unsigned_refusal_of::<LIT, NonZero<i8>>() == Some(LiteralError::Zero) <==> LIT == 0,
        unsigned_refusal_of::<LIT, NonZero<i8>>() is Some && LIT != 0 ==> unsigned_refusal_of::<
            LIT,
            NonZero<i8>,
        >() == Some(LiteralError::OutOfRange),
        unsigned_refusal_of::<LIT, i16>() is Some ==> unsigned_refusal_of::<LIT, i16>() == Some(
            LiteralError::OutOfRange,
        ),
        unsigned_refusal_of::<LIT, NonZero<i16>>() == Some(LiteralError::Zero) <==> LIT == 0,
        unsigned_refusal_of::<LIT, NonZero<i16>>() is Some && LIT != 0 ==> unsigned_refusal_of::<
            LIT,
            NonZero<i16>,
        >() == Some(LiteralError::OutOfRange),
        unsigned_refusal_of::<LIT, i32>() is Some ==> unsigned_refusal_of::<LIT, i32>() == Some(
            LiteralError::OutOfRange,
        ),
        unsigned_refusal_of::<LIT, NonZero<i32>>() == Some(LiteralError::Zero) <==> LIT == 0,
        unsigned_refusal_of::<LIT, NonZero<i32>>() is Some && LIT != 0 ==> unsigned_refusal_of::<
            LIT,
            NonZero<i32>,
        >() == Some(LiteralError::OutOfRange),
        unsigned_refusal_of::<LIT, i64>() is Some ==> unsigned_refusal_of::<LIT, i64>() == Some(
            LiteralError::OutOfRange,
        ),
        unsigned_refusal_of::<LIT, NonZero<i64>>() == Some(LiteralError::Zero) <==> LIT == 0,
        unsigned_refusal_of::<LIT, NonZero<i64>>() is Some && LIT != 0 ==> unsigned_refusal_of::<
            LIT,
            NonZero<i64>,
        >() == Some(LiteralError::OutOfRange),
        unsigned_refusal_of::<LIT, i128>() is Some ==> unsigned_refusal_of::<LIT, i128>() == Some(
            LiteralError::OutOfRange,
        ),
        unsigned_refusal_of::<LIT, NonZero<i128>>() == Some(LiteralError::Zero) <==> LIT == 0,
        unsigned_refusal_of::<LIT, NonZero<i128>>() is Some && LIT != 0 ==> unsigned_refusal_of::<
            LIT,
            NonZero<i128>,
        >() == Some(LiteralError::OutOfRange),
        unsigned_refusal_of::<LIT, isize>() is Some ==> unsigned_refusal_of::<LIT, isize>() == Some(
            LiteralError::OutOfRange,
        ),
        unsigned_refusal_of::<LIT, NonZero<isize>>() == Some(LiteralError::Zero) <==> LIT == 0,
        unsigned_refusal_of::<LIT, NonZero<isize>>() is Some && LIT != 0 ==> unsigned_refusal_of::<
            LIT,
            NonZero<isize>,
        >() == Some(LiteralError::OutOfRange),
{
}

/// The reason for which an integer type refuses a signed literal: the plain
/// types refuse for the range alone, their non-zero forms refuse the zero as
/// a zero, however it is written, and any other literal for the range. A
/// literal below zero is out of the range of every unsigned type.
pub proof fn law_reason_of_refused_signed_literal<const NEG: bool, const MAG: u128>()
    ensures
        signed_refusal_of::<NEG, MAG, u8>() is Some ==> signed_refusal_of::<NEG, MAG, u8>()
            == Some(LiteralError::OutOfRange),
        signed_refusal_of::<NEG, MAG, NonZero<u8>>() == Some(LiteralError::Zero) <==> MAG == 0,
        signed_refusal_of::<NEG, MAG, NonZero<u8>>() is Some && MAG != 0 ==> signed_refusal_of::<
            NEG,
            MAG,
            NonZero<u8>,
        >() == Some(LiteralError::OutOfRange),
        signed_refusal_of::<NEG, MAG, u16>() is Some ==> signed_refusal_of::<NEG, MAG, u16>()
            == Some(LiteralError::OutOfRange),
        signed_refusal_of::<NEG, MAG, NonZero<u16>>() == Some(LiteralError::Zero) <==> MAG == 0,
        signed_refusal_of::<NEG, MAG, NonZero<u16>>() is Some && MAG != 0 ==> signed_refusal_of::<
            NEG,
            MAG,
            NonZero<u16>,
        >() == Some(LiteralError::OutOfRange),
        signed_refusal_of::<NEG, MAG, u32>() is Some ==> signed_refusal_of::<NEG, MAG, u32>()
            == Some(LiteralError::OutOfRange),
        signed_refusal_of::<NEG, MAG, NonZero<u32>>() == Some(LiteralError::Zero) <==> MAG == 0,
        signed_refusal_of::<NEG, MAG, NonZero<u32>>() is Some && MAG != 0 ==> signed_refusal_of::<
            NEG,
            MAG,
            NonZero<u32>,
        >() == Some(LiteralError::OutOfRange),
        signed_refusal_of::<NEG, MAG, u64>() is Some ==> signed_refusal_of::<NEG, MAG, u64>()
            == Some(LiteralError::OutOfRange),
        signed_refusal_of::<NEG, MAG, NonZero<u64>>() == Some(LiteralError::Zero) <==> MAG == 0,
        signed_refusal_of::<NEG, MAG, NonZero<u64>>() is Some && MAG != 0 ==> signed_refusal_of::<
            NEG,
            MAG,
            NonZero<u64>,
        >() == Some(LiteralError::OutOfRange),
        signed_refusal_of::<NEG, MAG, u128>() is Some ==> signed_refusal_of::<NEG, MAG, u128>()
            == Some(LiteralError::OutOfRange),
        signed_refusal_of::<NEG, MAG, NonZero<u128>>() == Some(LiteralError::Zero) <==> MAG == 0,
        signed_refusal_of::<NEG, MAG, NonZero<u128>>() is Some && MAG != 0 ==> signed_refusal_of::<
            NEG,
            MAG,
            NonZero<u128>,
        >() == Some(LiteralError::OutOfRange),
        signed_refusal_of::<NEG, MAG, usize>() is Some ==> signed_refusal_of::<NEG, MAG, usize>()
            == Some(LiteralError::OutOfRange),
        signed_refusal_of::<NEG, MAG, NonZero<usize>>() == Some(LiteralError::Zero) <==> MAG == 0,
        signed_refusal_of::<NEG, MAG, NonZero<usize>>() is Some && MAG != 0 ==> signed_refusal_of::<
            NEG,
            MAG,
            NonZero<usize>,
        >() == Some(LiteralError::OutOfRange),
        signed_refusal_of::<NEG, MAG, i8>() is Some ==> signed_refusal_of::<NEG, MAG, i8>()
            == Some(LiteralError::OutOfRange),
        signed_refusal_of::<NEG, MAG, NonZero<i8>>() == Some(LiteralError::Zero) <==> MAG == 0,
        signed_refusal_of::<NEG, MAG, NonZero<i8>>() is Some && MAG != 0 ==> signed_refusal_of::<
            NEG,
            MAG,
            NonZero<i8>,
        >() == Some(LiteralError::OutOfRange),
        signed_refusal_of::<NEG, MAG, i16>() is Some ==> signed_refusal_of::<NEG, MAG, i16>()
            == Some(LiteralError::OutOfRange),
        signed_refusal_of::<NEG, MAG, NonZero<i16>>() == Some(LiteralError::Zero) <==> MAG == 0,
        signed_refusal_of::<NEG, MAG, NonZero<i16>>() is Some && MAG != 0 ==> signed_refusal_of::<
            NEG,
            MAG,
            NonZero<i16>,
        >() == Some(LiteralError::OutOfRange),
        signed_refusal_of::<NEG, MAG, i32>() is Some ==> signed_refusal_of::<NEG, MAG, i32>()
            == Some(LiteralError::OutOfRange),
        signed_refusal_of::<NEG, MAG, NonZero<i32>>() == Some(LiteralError::Zero) <==> MAG == 0,
        signed_refusal_of::<NEG, MAG, NonZero<i32>>() is Some && MAG != 0 ==> signed_refusal_of::<
            NEG,
            MAG,
            NonZero<i32>,
        >() == Some(LiteralError::OutOfRange),
        signed_refusal_of::<NEG, MAG, i64>() is Some ==> signed_refusal_of::<NEG, MAG, i64>()
            == Some(LiteralError::OutOfRange),
        signed_refusal_of::<NEG, MAG, NonZero<i64>>() == Some(LiteralError::Zero) <==> MAG == 0,
        signed_refusal_of::<NEG, MAG, NonZero<i64>>() is Some && MAG != 0 ==> signed_refusal_of::<
            NEG,
            MAG,
            NonZero<i64>,
        >() == Some(LiteralError::OutOfRange),
        signed_refusal_of::<NEG, MAG, i128>() is Some ==> signed_refusal_of::<NEG, MAG, i128>()
            == Some(LiteralError::OutOfRange),
        signed_refusal_of::<NEG, MAG, NonZero<i128>>() == Some(LiteralError::Zero) <==> MAG == 0,
        signed_refusal_of::<NEG, MAG, NonZero<i128>>() is Some && MAG != 0 ==> signed_refusal_of::<
            NEG,
            MAG,
            NonZero<i128>,
        >() == Some(LiteralError::OutOfRange),
        signed_refusal_of::<NEG, MAG, isize>() is Some ==> signed_refusal_of::<NEG, MAG, isize>()
            == Some(LiteralError::OutOfRange),
        signed_refusal_of::<NEG, MAG, NonZero<isize>>() == Some(LiteralError::Zero) <==> MAG == 0,
        signed_refusal_of::<NEG, MAG, NonZero<isize>>() is Some && MAG != 0 ==> signed_refusal_of::<
            NEG,
            MAG,
            NonZero<isize>,
        >() == Some(LiteralError::OutOfRange),
        signed_value(NEG, MAG) < 0 ==> signed_refusal_of::<NEG, MAG, u8>() == Some(
            LiteralError::OutOfRange,
        ) && signed_refusal_of::<NEG, MAG, NonZero<u8>>() == Some(LiteralError::OutOfRange),
        signed_value(NEG, MAG) < 0 ==> signed_refusal_of::<NEG, MAG, u16>() == Some(
            LiteralError::OutOfRange,
        ) && signed_refusal_of::<NEG, MAG, NonZero<u16>>() == Some(LiteralError::OutOfRange),
        signed_value(NEG, MAG) < 0 ==> signed_refusal_of::<NEG, MAG, u32>() == Some(
            LiteralError::OutOfRange,
        ) && signed_refusal_of::<NEG, MAG, NonZero<u32>>() == Some(LiteralError::OutOfRange),
        signed_value(NEG, MAG) < 0 ==> signed_refusal_of::<NEG, MAG, u64>() == Some(
            LiteralError::OutOfRange,
        ) && signed_refusal_of::<NEG, MAG, NonZero<u64>>() == Some(LiteralError::OutOfRange),
        signed_value(NEG, MAG) < 0 ==> signed_refusal_of::<NEG, MAG, u128>() == Some(
            LiteralError::OutOfRange,
        ) && signed_refusal_of::<NEG, MAG, NonZero<u128>>() == Some(LiteralError::OutOfRange),
        signed_value(NEG, MAG) < 0 ==> signed_refusal_of::<NEG, MAG, usize>() == Some(
            LiteralError::OutOfRange,
        ) && signed_refusal_of::<NEG, MAG, NonZero<usize>>() == Some(LiteralError::OutOfRange),
{
}

/// The validation of an unsigned literal is a function of the literal and of the
/// target type: whatever it gives twice, it gives the same.
pub proof fn law_unsigned_validation_is_a_function<const LIT: u128, T: FromLiteralUnsigned<LIT>>(
    first: Result<u128, LiteralError>,
    second: Result<u128, LiteralError>,
)
    requires
        first == unsigned_outcome(LIT, T::refusal()),
        second == unsigned_outcome(LIT, T::refusal()),
    ensures
        first == second,
        first is Ok <==> T::refusal() is None,
        first matches Ok(lit) ==> lit == LIT,
{
}

/// The validation of a signed literal is a function of the literal and of the
/// target type: whatever it gives twice, it gives the same.
pub proof fn law_signed_validation_is_a_function<
    const NEG: bool,
    const MAG: u128,
    T: FromLiteralSigned<NEG, MAG>,
>(first: Result<i128, LiteralError>, second: Result<i128, LiteralError>)
    requires
        is_signed_outcome(signed_value(NEG, MAG), T::refusal(), first),
        is_signed_outcome(signed_value(NEG, MAG), T::refusal(), second),
    ensures
        first == second,
        first is Ok <==> T::refusal() is None,
        first matches Ok(lit) ==> lit == signed_value(NEG, MAG),
{
}

/// A signed literal that a type takes is one that the widest signed integer
/// type holds, whatever the target type.
pub proof fn law_legal_signed_literal_is_held<
    const NEG: bool,
    const MAG: u128,
    T: FromLiteralSigned<NEG, MAG>,
>(validated: Result<i128, LiteralError>)
    requires
        is_signed_outcome(signed_value(NEG, MAG), T::refusal(), validated),
        T::refusal() is None,
    ensures
        i128::MIN <= signed_value(NEG, MAG) <= i128::MAX,
{
}

/// The validation of a string literal is a function of the literal and of the
/// target type: it gives the same text twice, or the same reason twice.
pub proof fn law_text_validation_is_a_function<TStr: TypeStr, T: FromLiteralStr<TStr>>(
    first: Result<String, LiteralError>,
    second: Result<String, LiteralError>,
)
    requires
        is_text_outcome(TStr::bytes(), T::refusal(), first),
        is_text_outcome(TStr::bytes(), T::refusal(), second),
    ensures
        first is Ok <==> second is Ok,
        first is Ok <==> T::refusal() is None,
        first is Ok ==> first->Ok_0@ == second->Ok_0@,
        first is Err ==> first->Err_0 == second->Err_0,
{
}

/// A string literal that a type takes is a text: its bytes are a UTF-8
/// encoding, whatever the type.
pub proof fn law_legal_text_is_utf8<TStr: TypeStr, T: FromLiteralStr<TStr>>(
    validated: Result<String, LiteralError>,
)
    requires
        is_text_outcome(TStr::bytes(), T::refusal(), validated),
        T::refusal() is None,
    ensures
        valid_utf8(TStr::bytes()),
{
    vstd::utf8::encode_utf8_valid_utf8(validated->Ok_0@);
}

/// The empty list encodes the empty string.
pub proof fn law_empty_list_is_empty_string()
    ensures
        <tlist::TNil as TypeStr>::bytes() == Seq::<u8>::empty(),
        valid_utf8(<tlist::TNil as TypeStr>::bytes()),
        decode_utf8(<tlist::TNil as TypeStr>::bytes()) == Seq::<char>::empty(),
{
}

/// A list cell encodes its byte and then what its tail encodes: one byte
/// more, and the bytes of the tail unchanged behind it.
pub proof fn law_cell_puts_its_byte_in_front<const VAL: u8, T: TypeStr>()
    ensures
        <TCons<Byte<VAL>, T> as TypeStr>::bytes().len() == T::bytes().len() + 1,
        <TCons<Byte<VAL>, T> as TypeStr>::bytes()[0] == VAL,
        <TCons<Byte<VAL>, T> as TypeStr>::bytes().drop_first() == T::bytes(),
{
    assert(<TCons<Byte<VAL>, T> as TypeStr>::bytes().drop_first() =~= T::bytes());
}

/// A type that encodes the UTF-8 bytes of a text gives that text back: its
/// bytes are a UTF-8 encoding, and they decode to the text with no character
/// added and none dropped.
pub proof fn law_text_round_trip<T: TypeStr>(text: Seq<char>)
    requires
        T::bytes() == encode_utf8(text),
    ensures
        valid_utf8(T::bytes()),
        decode_utf8(T::bytes()) == text,
{
    vstd::utf8::encode_utf8_valid_utf8(text);
    vstd::utf8::encode_utf8_decode_utf8(text);
}

} // verus!
