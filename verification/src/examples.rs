//! Literals as a rewrite of source text leaves them: each literal has become
//! a call of `into_self` on the contract of its kind, for the type that the
//! place of the literal asks for.
use vstd::prelude::*;

use crate::greeting::{lemma_keyword_bytes, Greeting};
use crate::literal_str::FromLiteralStr;
use crate::signed::FromLiteralSigned;
use crate::type_str::{Byte, TCons, TypeStr};
use crate::unsigned::FromLiteralUnsigned;

verus! {

/// The string `hello` as a type: its five bytes, in order.
type Hello = TCons<
    Byte<104>,
    TCons<Byte<101>, TCons<Byte<108>, TCons<Byte<108>, TCons<Byte<111>, tlist::TNil>>>>,
>;

/// The literal `-100` as an `i8`, next to the literal `123` as a `u8`.
pub fn example() -> (x: i8)
    ensures
        x == -100,
{
    let x: i8 = <i8 as FromLiteralSigned<true, 100>>::into_self();
    let _y: u8 = <u8 as FromLiteralUnsigned<123>>::into_self();
    x
}

/// The literal `"hello"` as a [`Greeting`].
pub fn str_example() -> (x: Greeting)
    ensures
        x == Greeting::Hello,
{
    proof {
        lemma_keyword_bytes();
        assert(<Hello as TypeStr>::bytes() =~= seq![104u8, 101u8, 108u8, 108u8, 111u8]);
    }
    let x: Greeting = <Greeting as FromLiteralStr<Hello>>::into_self();
    x
}

} // verus!
