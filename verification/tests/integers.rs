use overloaded_literals::nonzero::{
    NonZero, NonZeroI128, NonZeroI16, NonZeroI32, NonZeroI64, NonZeroI8, NonZeroIsize,
    NonZeroU128, NonZeroU16, NonZeroU32, NonZeroU64, NonZeroU8, NonZeroUsize,
};
use overloaded_literals::signed::{legal_signed_literal, signed_literal, validate_signed};
use overloaded_literals::unsigned::validate_unsigned;
use overloaded_literals::{FromLiteralSigned, FromLiteralUnsigned, LiteralError};

const OUT: LiteralError = LiteralError::OutOfRange;
const ZERO: LiteralError = LiteralError::Zero;

#[test]
fn unsigned_types_take_their_largest_value() {
    assert_eq!(<u8 as FromLiteralUnsigned<255>>::valid_literal(), Ok(255));
    assert_eq!(<u16 as FromLiteralUnsigned<65535>>::valid_literal(), Ok(65535));
    assert_eq!(<u32 as FromLiteralUnsigned<4294967295>>::valid_literal(), Ok(4294967295));
    assert_eq!(
        <u64 as FromLiteralUnsigned<18446744073709551615>>::valid_literal(),
        Ok(18446744073709551615)
    );
    assert_eq!(
        <u128 as FromLiteralUnsigned<340282366920938463463374607431768211455>>::valid_literal(),
        Ok(u128::MAX)
    );
    assert_eq!(
        <usize as FromLiteralUnsigned<{ usize::MAX as u128 }>>::valid_literal(),
        Ok(usize::MAX as u128)
    );
    let a: u8 = FromLiteralUnsigned::<255>::into_self();
    assert_eq!(a, 255);
    let b: u16 = FromLiteralUnsigned::<65535>::into_self();
    assert_eq!(b, 65535);
    let c: u32 = FromLiteralUnsigned::<4294967295>::into_self();
    assert_eq!(c, 4294967295);
    let d: u64 = FromLiteralUnsigned::<18446744073709551615>::into_self();
    assert_eq!(d, 18446744073709551615);
    let e: u128 = FromLiteralUnsigned::<340282366920938463463374607431768211455>::into_self();
    assert_eq!(e, u128::MAX);
    let f: usize = FromLiteralUnsigned::<{ usize::MAX as u128 }>::into_self();
    assert_eq!(f, usize::MAX);
}

#[test]
fn unsigned_types_refuse_the_value_above_their_largest() {
    assert_eq!(<u8 as FromLiteralUnsigned<256>>::valid_literal(), Err(OUT));
    assert_eq!(<u16 as FromLiteralUnsigned<65536>>::valid_literal(), Err(OUT));
    assert_eq!(<u32 as FromLiteralUnsigned<4294967296>>::valid_literal(), Err(OUT));
    assert_eq!(<u64 as FromLiteralUnsigned<18446744073709551616>>::valid_literal(), Err(OUT));
    assert_eq!(
        <usize as FromLiteralUnsigned<{ usize::MAX as u128 + 1 }>>::valid_literal(),
        Err(OUT)
    );
    assert_eq!(<u8 as FromLiteralUnsigned<1024>>::valid_literal(), Err(OUT));
    assert_eq!(
        <u8 as FromLiteralUnsigned<340282366920938463463374607431768211455>>::valid_literal(),
        Err(OUT)
    );
}

#[test]
fn unsigned_types_take_zero() {
    assert_eq!(<u8 as FromLiteralUnsigned<0>>::valid_literal(), Ok(0));
    assert_eq!(<u128 as FromLiteralUnsigned<0>>::valid_literal(), Ok(0));
    assert_eq!(<usize as FromLiteralUnsigned<0>>::valid_literal(), Ok(0));
    let a: u8 = FromLiteralUnsigned::<0>::into_self();
    assert_eq!(a, 0);
    let b: u64 = FromLiteralUnsigned::<123>::into_self();
    assert_eq!(b, 123);
}

#[test]
fn signed_types_take_their_limits() {
    assert_eq!(<i8 as FromLiteralSigned<true, 128>>::valid_literal(), Ok(-128));
    assert_eq!(<i8 as FromLiteralSigned<false, 127>>::valid_literal(), Ok(127));
    assert_eq!(<i16 as FromLiteralSigned<true, 32768>>::valid_literal(), Ok(-32768));
    assert_eq!(<i16 as FromLiteralSigned<false, 32767>>::valid_literal(), Ok(32767));
    assert_eq!(<i32 as FromLiteralSigned<true, 2147483648>>::valid_literal(), Ok(-2147483648));
    assert_eq!(<i32 as FromLiteralSigned<false, 2147483647>>::valid_literal(), Ok(2147483647));
    assert_eq!(
        <i64 as FromLiteralSigned<true, 9223372036854775808>>::valid_literal(),
        Ok(-9223372036854775808)
    );
    assert_eq!(
        <i64 as FromLiteralSigned<false, 9223372036854775807>>::valid_literal(),
        Ok(9223372036854775807)
    );
    assert_eq!(
        <i128 as FromLiteralSigned<true, 170141183460469231731687303715884105728>>::valid_literal(),
        Ok(i128::MIN)
    );
    assert_eq!(
        <i128 as FromLiteralSigned<false, 170141183460469231731687303715884105727>>::valid_literal(
        ),
        Ok(i128::MAX)
    );
    assert_eq!(
        <isize as FromLiteralSigned<true, { isize::MAX as u128 + 1 }>>::valid_literal(),
        Ok(isize::MIN as i128)
    );
    assert_eq!(
        <isize as FromLiteralSigned<false, { isize::MAX as u128 }>>::valid_literal(),
        Ok(isize::MAX as i128)
    );
    let a: i8 = FromLiteralSigned::<true, 128>::into_self();
    assert_eq!(a, -128);
    let b: i8 = FromLiteralSigned::<false, 127>::into_self();
    assert_eq!(b, 127);
    let c: i16 = FromLiteralSigned::<true, 32768>::into_self();
    assert_eq!(c, -32768);
    let d: i32 = FromLiteralSigned::<true, 2147483648>::into_self();
    assert_eq!(d, i32::MIN);
    let e: i64 = FromLiteralSigned::<true, 9223372036854775808>::into_self();
    assert_eq!(e, i64::MIN);
    let f: i128 = FromLiteralSigned::<true, 170141183460469231731687303715884105728>::into_self();
    assert_eq!(f, i128::MIN);
    let g: i128 = FromLiteralSigned::<false, 170141183460469231731687303715884105727>::into_self();
    assert_eq!(g, i128::MAX);
    let h: isize = FromLiteralSigned::<true, { isize::MAX as u128 + 1 }>::into_self();
    assert_eq!(h, isize::MIN);
    let i: isize = FromLiteralSigned::<true, 42>::into_self();
    assert_eq!(i, -42);
}

#[test]
fn signed_types_refuse_what_lies_beyond_their_limits() {
    assert_eq!(<i8 as FromLiteralSigned<true, 129>>::valid_literal(), Err(OUT));
    assert_eq!(<i8 as FromLiteralSigned<false, 128>>::valid_literal(), Err(OUT));
    assert_eq!(<i16 as FromLiteralSigned<true, 32769>>::valid_literal(), Err(OUT));
    assert_eq!(<i16 as FromLiteralSigned<false, 32768>>::valid_literal(), Err(OUT));
    assert_eq!(<i32 as FromLiteralSigned<true, 2147483649>>::valid_literal(), Err(OUT));
    assert_eq!(<i32 as FromLiteralSigned<false, 2147483648>>::valid_literal(), Err(OUT));
    assert_eq!(<i64 as FromLiteralSigned<true, 9223372036854775809>>::valid_literal(), Err(OUT));
    assert_eq!(<i64 as FromLiteralSigned<false, 9223372036854775808>>::valid_literal(), Err(OUT));
    assert_eq!(
        <i128 as FromLiteralSigned<true, 170141183460469231731687303715884105729>>::valid_literal(),
        Err(OUT)
    );
    assert_eq!(
        <i128 as FromLiteralSigned<false, 170141183460469231731687303715884105728>>::valid_literal(
        ),
        Err(OUT)
    );
    assert_eq!(
        <isize as FromLiteralSigned<true, { isize::MAX as u128 + 2 }>>::valid_literal(),
        Err(OUT)
    );
    assert_eq!(
        <isize as FromLiteralSigned<false, { isize::MAX as u128 + 1 }>>::valid_literal(),
        Err(OUT)
    );
}

#[test]
fn signed_types_take_literals_without_a_sign() {
    assert_eq!(<i8 as FromLiteralUnsigned<127>>::valid_literal(), Ok(127));
    assert_eq!(<i8 as FromLiteralUnsigned<128>>::valid_literal(), Err(OUT));
    assert_eq!(<i8 as FromLiteralUnsigned<0>>::valid_literal(), Ok(0));
    assert_eq!(<i16 as FromLiteralUnsigned<32767>>::valid_literal(), Ok(32767));
    assert_eq!(<i16 as FromLiteralUnsigned<32768>>::valid_literal(), Err(OUT));
    assert_eq!(<i32 as FromLiteralUnsigned<2147483647>>::valid_literal(), Ok(2147483647));
    assert_eq!(<i32 as FromLiteralUnsigned<2147483648>>::valid_literal(), Err(OUT));
    assert_eq!(
        <i64 as FromLiteralUnsigned<9223372036854775807>>::valid_literal(),
        Ok(9223372036854775807)
    );
    assert_eq!(<i64 as FromLiteralUnsigned<9223372036854775808>>::valid_literal(), Err(OUT));
    assert_eq!(
        <i128 as FromLiteralUnsigned<170141183460469231731687303715884105727>>::valid_literal(),
        Ok(170141183460469231731687303715884105727)
    );
    assert_eq!(
        <i128 as FromLiteralUnsigned<170141183460469231731687303715884105728>>::valid_literal(),
        Err(OUT)
    );
    assert_eq!(
        <isize as FromLiteralUnsigned<{ isize::MAX as u128 }>>::valid_literal(),
        Ok(isize::MAX as u128)
    );
    assert_eq!(
        <isize as FromLiteralUnsigned<{ isize::MAX as u128 + 1 }>>::valid_literal(),
        Err(OUT)
    );
    let a: i8 = FromLiteralUnsigned::<127>::into_self();
    assert_eq!(a, 127);
    let b: i64 = FromLiteralUnsigned::<9223372036854775807>::into_self();
    assert_eq!(b, i64::MAX);
    let c: i128 = FromLiteralUnsigned::<5>::into_self();
    assert_eq!(c, 5);
}

#[test]
fn unsigned_types_refuse_negative_literals() {
    assert_eq!(<u8 as FromLiteralSigned<true, 1>>::valid_literal(), Err(OUT));
    assert_eq!(<u16 as FromLiteralSigned<true, 1>>::valid_literal(), Err(OUT));
    assert_eq!(<u32 as FromLiteralSigned<true, 20>>::valid_literal(), Err(OUT));
    assert_eq!(<u64 as FromLiteralSigned<true, 9223372036854775808>>::valid_literal(), Err(OUT));
    assert_eq!(<u128 as FromLiteralSigned<true, 1>>::valid_literal(), Err(OUT));
    assert_eq!(<usize as FromLiteralSigned<true, 1>>::valid_literal(), Err(OUT));
    assert_eq!(<NonZeroU8 as FromLiteralSigned<true, 1>>::valid_literal(), Err(OUT));
    assert_eq!(<NonZeroUsize as FromLiteralSigned<true, 7>>::valid_literal(), Err(OUT));
}

#[test]
fn unsigned_types_take_signed_literals_that_are_not_negative() {
    assert_eq!(<u8 as FromLiteralSigned<true, 0>>::valid_literal(), Ok(0));
    assert_eq!(<u8 as FromLiteralSigned<false, 0>>::valid_literal(), Ok(0));
    assert_eq!(<u8 as FromLiteralSigned<false, 255>>::valid_literal(), Ok(255));
    assert_eq!(<u8 as FromLiteralSigned<false, 256>>::valid_literal(), Err(OUT));
    assert_eq!(<u16 as FromLiteralSigned<false, 65535>>::valid_literal(), Ok(65535));
    assert_eq!(<u16 as FromLiteralSigned<false, 65536>>::valid_literal(), Err(OUT));
    assert_eq!(<u32 as FromLiteralSigned<false, 4294967295>>::valid_literal(), Ok(4294967295));
    assert_eq!(<u32 as FromLiteralSigned<false, 4294967296>>::valid_literal(), Err(OUT));
    assert_eq!(
        <u64 as FromLiteralSigned<false, 18446744073709551615>>::valid_literal(),
        Ok(18446744073709551615)
    );
    assert_eq!(<u64 as FromLiteralSigned<false, 18446744073709551616>>::valid_literal(), Err(OUT));
    assert_eq!(
        <usize as FromLiteralSigned<false, { usize::MAX as u128 }>>::valid_literal(),
        Ok(usize::MAX as i128)
    );
    assert_eq!(
        <usize as FromLiteralSigned<false, { usize::MAX as u128 + 1 }>>::valid_literal(),
        Err(OUT)
    );
    let a: u8 = FromLiteralSigned::<true, 0>::into_self();
    assert_eq!(a, 0);
    let b: u8 = FromLiteralSigned::<false, 255>::into_self();
    assert_eq!(b, 255);
    let c: u64 = FromLiteralSigned::<false, 18446744073709551615>::into_self();
    assert_eq!(c, u64::MAX);
    let d: usize = FromLiteralSigned::<false, 77>::into_self();
    assert_eq!(d, 77);
}

#[test]
fn a_signed_literal_is_no_wider_than_the_widest_signed_integer() {
    assert_eq!(
        <u128 as FromLiteralSigned<false, 170141183460469231731687303715884105727>>::valid_literal(
        ),
        Ok(i128::MAX)
    );
    assert_eq!(
        <u128 as FromLiteralSigned<false, 170141183460469231731687303715884105728>>::valid_literal(
        ),
        Err(OUT)
    );
    assert_eq!(
        <u128 as FromLiteralSigned<false, 340282366920938463463374607431768211455>>::valid_literal(
        ),
        Err(OUT)
    );
    assert_eq!(
        <i128 as FromLiteralSigned<true, 340282366920938463463374607431768211455>>::valid_literal(),
        Err(OUT)
    );
    let a: u128 = FromLiteralSigned::<false, 170141183460469231731687303715884105727>::into_self();
    assert_eq!(a, i128::MAX as u128);
}

#[test]
fn non_zero_unsigned_types() {
    assert_eq!(<NonZeroU8 as FromLiteralUnsigned<0>>::valid_literal(), Err(ZERO));
    assert_eq!(<NonZeroU8 as FromLiteralUnsigned<1>>::valid_literal(), Ok(1));
    assert_eq!(<NonZeroU8 as FromLiteralUnsigned<255>>::valid_literal(), Ok(255));
    assert_eq!(<NonZeroU8 as FromLiteralUnsigned<256>>::valid_literal(), Err(OUT));
    assert_eq!(<NonZeroU16 as FromLiteralUnsigned<0>>::valid_literal(), Err(ZERO));
    assert_eq!(<NonZeroU16 as FromLiteralUnsigned<65535>>::valid_literal(), Ok(65535));
    assert_eq!(<NonZeroU16 as FromLiteralUnsigned<65536>>::valid_literal(), Err(OUT));
    assert_eq!(<NonZeroU32 as FromLiteralUnsigned<0>>::valid_literal(), Err(ZERO));
    assert_eq!(<NonZeroU32 as FromLiteralUnsigned<4294967295>>::valid_literal(), Ok(4294967295));
    assert_eq!(<NonZeroU32 as FromLiteralUnsigned<4294967296>>::valid_literal(), Err(OUT));
    assert_eq!(<NonZeroU64 as FromLiteralUnsigned<0>>::valid_literal(), Err(ZERO));
    assert_eq!(
        <NonZeroU64 as FromLiteralUnsigned<18446744073709551615>>::valid_literal(),
        Ok(18446744073709551615)
    );
    assert_eq!(
        <NonZeroU64 as FromLiteralUnsigned<18446744073709551616>>::valid_literal(),
        Err(OUT)
    );
    assert_eq!(<NonZeroU128 as FromLiteralUnsigned<0>>::valid_literal(), Err(ZERO));
    assert_eq!(
        <NonZeroU128 as FromLiteralUnsigned<340282366920938463463374607431768211455>>::valid_literal(
        ),
        Ok(u128::MAX)
    );
    assert_eq!(<NonZeroUsize as FromLiteralUnsigned<0>>::valid_literal(), Err(ZERO));
    assert_eq!(
        <NonZeroUsize as FromLiteralUnsigned<{ usize::MAX as u128 }>>::valid_literal(),
        Ok(usize::MAX as u128)
    );
    assert_eq!(
        <NonZeroUsize as FromLiteralUnsigned<{ usize::MAX as u128 + 1 }>>::valid_literal(),
        Err(OUT)
    );
    let a: NonZeroU8 = FromLiteralUnsigned::<10>::into_self();
    assert_eq!(a.get(), 10);
    let b: NonZeroU8 = FromLiteralUnsigned::<255>::into_self();
    assert_eq!(b.get(), 255);
    let c: NonZeroU16 = FromLiteralUnsigned::<65535>::into_self();
    assert_eq!(c.get(), 65535);
    let d: NonZeroU32 = FromLiteralUnsigned::<1>::into_self();
    assert_eq!(d.get(), 1);
    let e: NonZeroU64 = FromLiteralUnsigned::<18446744073709551615>::into_self();
    assert_eq!(e.get(), u64::MAX);
    let f: NonZeroU128 = FromLiteralUnsigned::<340282366920938463463374607431768211455>::into_self();
    assert_eq!(f.get(), u128::MAX);
    let g: NonZeroUsize = FromLiteralUnsigned::<{ usize::MAX as u128 }>::into_self();
    assert_eq!(g.get(), usize::MAX);
    let h: NonZeroU8 = FromLiteralSigned::<false, 9>::into_self();
    assert_eq!(h.get(), 9);
}

#[test]
fn non_zero_signed_types() {
    assert_eq!(<NonZeroI8 as FromLiteralSigned<false, 0>>::valid_literal(), Err(ZERO));
    assert_eq!(<NonZeroI8 as FromLiteralSigned<true, 0>>::valid_literal(), Err(ZERO));
    assert_eq!(<NonZeroI8 as FromLiteralSigned<true, 128>>::valid_literal(), Ok(-128));
    assert_eq!(<NonZeroI8 as FromLiteralSigned<true, 129>>::valid_literal(), Err(OUT));
    assert_eq!(<NonZeroI8 as FromLiteralSigned<false, 127>>::valid_literal(), Ok(127));
    assert_eq!(<NonZeroI8 as FromLiteralSigned<false, 128>>::valid_literal(), Err(OUT));
    assert_eq!(<NonZeroI16 as FromLiteralSigned<true, 32768>>::valid_literal(), Ok(-32768));
    assert_eq!(<NonZeroI16 as FromLiteralSigned<true, 32769>>::valid_literal(), Err(OUT));
    assert_eq!(<NonZeroI32 as FromLiteralSigned<false, 2147483647>>::valid_literal(), Ok(2147483647));
    assert_eq!(<NonZeroI32 as FromLiteralSigned<false, 2147483648>>::valid_literal(), Err(OUT));
    assert_eq!(
        <NonZeroI64 as FromLiteralSigned<true, 9223372036854775808>>::valid_literal(),
        Ok(i64::MIN as i128)
    );
    assert_eq!(
        <NonZeroI64 as FromLiteralSigned<true, 9223372036854775809>>::valid_literal(),
        Err(OUT)
    );
    assert_eq!(
        <NonZeroI128 as FromLiteralSigned<true, 170141183460469231731687303715884105728>>::valid_literal(
        ),
        Ok(i128::MIN)
    );
    assert_eq!(<NonZeroI128 as FromLiteralSigned<false, 0>>::valid_literal(), Err(ZERO));
    assert_eq!(<NonZeroIsize as FromLiteralSigned<true, 42>>::valid_literal(), Ok(-42));
    assert_eq!(<NonZeroIsize as FromLiteralSigned<true, 0>>::valid_literal(), Err(ZERO));
    assert_eq!(<NonZeroI8 as FromLiteralUnsigned<0>>::valid_literal(), Err(ZERO));
    assert_eq!(<NonZeroI8 as FromLiteralUnsigned<127>>::valid_literal(), Ok(127));
    assert_eq!(<NonZeroI8 as FromLiteralUnsigned<128>>::valid_literal(), Err(OUT));
    assert_eq!(<NonZeroI128 as FromLiteralUnsigned<0>>::valid_literal(), Err(ZERO));
    assert_eq!(
        <NonZeroIsize as FromLiteralUnsigned<{ isize::MAX as u128 + 1 }>>::valid_literal(),
        Err(OUT)
    );
    let a: NonZeroIsize = FromLiteralSigned::<true, 42>::into_self();
    assert_eq!(a.get(), -42);
    let b: NonZeroI8 = FromLiteralSigned::<true, 128>::into_self();
    assert_eq!(b.get(), -128);
    let c: NonZeroI16 = FromLiteralSigned::<false, 32767>::into_self();
    assert_eq!(c.get(), 32767);
    let d: NonZeroI32 = FromLiteralSigned::<true, 1>::into_self();
    assert_eq!(d.get(), -1);
    let e: NonZeroI64 = FromLiteralSigned::<true, 9223372036854775808>::into_self();
    assert_eq!(e.get(), i64::MIN);
    let f: NonZeroI128 =
        FromLiteralSigned::<true, 170141183460469231731687303715884105728>::into_self();
    assert_eq!(f.get(), i128::MIN);
    let g: NonZeroI8 = FromLiteralUnsigned::<127>::into_self();
    assert_eq!(g.get(), 127);
    let h: NonZeroI64 = FromLiteralUnsigned::<1>::into_self();
    assert_eq!(h.get(), 1);
}

#[test]
fn non_zero_values_are_made_from_all_but_zero() {
    assert!(NonZeroU8::new(0).is_none());
    assert!(NonZeroI8::new(0).is_none());
    assert!(NonZeroU128::new(0).is_none());
    assert!(NonZeroIsize::new(0).is_none());
    assert_eq!(NonZeroU8::new(7).map(|n| n.get()), Some(7));
    assert_eq!(NonZeroI8::new(-7).map(|n| n.get()), Some(-7));
    assert_eq!(NonZeroU16::new(u16::MAX).map(|n| n.get()), Some(u16::MAX));
    assert_eq!(NonZeroI16::new(i16::MIN).map(|n| n.get()), Some(i16::MIN));
    assert_eq!(NonZeroU32::new(1).map(|n| n.get()), Some(1));
    assert_eq!(NonZeroI32::new(-1).map(|n| n.get()), Some(-1));
    assert_eq!(NonZeroU64::new(u64::MAX).map(|n| n.get()), Some(u64::MAX));
    assert_eq!(NonZeroI64::new(i64::MIN).map(|n| n.get()), Some(i64::MIN));
    assert_eq!(NonZeroU128::new(u128::MAX).map(|n| n.get()), Some(u128::MAX));
    assert_eq!(NonZeroI128::new(i128::MIN).map(|n| n.get()), Some(i128::MIN));
    assert_eq!(NonZeroUsize::new(usize::MAX).map(|n| n.get()), Some(usize::MAX));
    assert_eq!(NonZeroIsize::new(isize::MIN).map(|n| n.get()), Some(isize::MIN));
    let first: NonZero<u8> = FromLiteralUnsigned::<3>::into_self();
    let second = first.clone();
    assert_eq!(second.get(), 3);
    assert_eq!(first.get(), 3);
}

#[test]
fn unsigned_validation_by_hand() {
    assert_eq!(validate_unsigned(0, 0, false), Ok(0));
    assert_eq!(validate_unsigned(0, 0, true), Err(ZERO));
    assert_eq!(validate_unsigned(0, 9, true), Err(ZERO));
    assert_eq!(validate_unsigned(9, 9, true), Ok(9));
    assert_eq!(validate_unsigned(10, 9, true), Err(OUT));
    assert_eq!(validate_unsigned(10, 9, false), Err(OUT));
    assert_eq!(validate_unsigned(u128::MAX, u128::MAX, false), Ok(u128::MAX));
}

#[test]
fn signed_literals_by_hand() {
    assert_eq!(signed_literal(false, 0), Some(0));
    assert_eq!(signed_literal(true, 0), Some(0));
    assert_eq!(signed_literal(false, 5), Some(5));
    assert_eq!(signed_literal(true, 5), Some(-5));
    assert_eq!(signed_literal(false, i128::MAX as u128), Some(i128::MAX));
    assert_eq!(signed_literal(false, i128::MAX as u128 + 1), None);
    assert_eq!(signed_literal(true, i128::MAX as u128), Some(-i128::MAX));
    assert_eq!(signed_literal(true, i128::MAX as u128 + 1), Some(i128::MIN));
    assert_eq!(signed_literal(true, i128::MAX as u128 + 2), None);
    assert_eq!(signed_literal(true, u128::MAX), None);
    assert_eq!(legal_signed_literal(false, 5), 5);
    assert_eq!(legal_signed_literal(true, 5), -5);
    assert_eq!(legal_signed_literal(true, i128::MAX as u128 + 1), i128::MIN);
    assert_eq!(legal_signed_literal(true, 0), 0);
}

#[test]
fn signed_validation_by_hand() {
    assert_eq!(validate_signed(true, 100, -100, 100, false), Ok(-100));
    assert_eq!(validate_signed(true, 101, -100, 100, false), Err(OUT));
    assert_eq!(validate_signed(false, 100, -100, 100, false), Ok(100));
    assert_eq!(validate_signed(false, 101, -100, 100, false), Err(OUT));
    assert_eq!(validate_signed(false, 0, -100, 100, false), Ok(0));
    assert_eq!(validate_signed(true, 0, -100, 100, true), Err(ZERO));
    assert_eq!(validate_signed(false, 0, 5, 100, true), Err(ZERO));
    assert_eq!(validate_signed(false, 0, 5, 100, false), Err(OUT));
    assert_eq!(validate_signed(false, 3, 0, u128::MAX, false), Ok(3));
    assert_eq!(validate_signed(false, u128::MAX, 0, u128::MAX, false), Err(OUT));
    assert_eq!(validate_signed(true, u128::MAX, i128::MIN, u128::MAX, true), Err(OUT));
}
