//! The contract of the string literals, and the conformances of the plain
//! string types.
use vstd::prelude::*;
use vstd::string::StringSliceAdditionalSpecFns;
use vstd::utf8::{decode_utf8, encode_utf8, valid_utf8};

use crate::error::LiteralError;
use crate::type_str::{to_text, TypeStr};

verus! {

/// Two character sequences with the same UTF-8 encoding are the same sequence.
pub proof fn lemma_encoding_injective(a: Seq<char>, b: Seq<char>)
    requires
        encode_utf8(a) == encode_utf8(b),
    ensures
        a == b,
{
    vstd::utf8::encode_utf8_decode_utf8(a);
    vstd::utf8::encode_utf8_decode_utf8(b);
}

/// Byte-exact comparison of two string slices: the lengths first, then every
/// byte in order. Nothing is trimmed, folded or normalised.
pub fn const_str_eq(lhs: &str, rhs: &str) -> (same: bool)
    ensures
        same == (lhs.spec_bytes() == rhs.spec_bytes()),
        same == (lhs@ == rhs@),
{
    let lhs_bytes = lhs.as_bytes();
    let rhs_bytes = rhs.as_bytes();
    if lhs_bytes.len() != rhs_bytes.len() {
        return false;
    }
    let len: usize = lhs_bytes.len();
    let mut index: usize = 0;
    while index < len
        invariant
            index <= len,
            len == lhs_bytes@.len(),
            len == rhs_bytes@.len(),
            lhs_bytes@ == lhs.spec_bytes(),
            rhs_bytes@ == rhs.spec_bytes(),
            forall|i: int| 0 <= i < index ==> lhs_bytes@[i] == rhs_bytes@[i],
        decreases len - index,
    {
        if lhs_bytes[index] != rhs_bytes[index] {
            return false;
        }
        index += 1;
    }
    assert(lhs_bytes@ =~= rhs_bytes@);
    proof {
        lemma_encoding_injective(lhs@, rhs@);
    }
    true
}

/// Whether `validated` is what the validation of a string literal with the bytes
/// `bytes` gives: the text that the bytes encode, with nothing added and
/// nothing dropped, where nothing is held against the literal, else the reason
/// of the refusal.
pub open spec fn is_text_outcome(
    bytes: Seq<u8>,
    refusal: Option<LiteralError>,
    validated: Result<String, LiteralError>,
) -> bool {
    match refusal {
        None => validated matches Ok(text) && text@ == decode_utf8(bytes) && encode_utf8(text@)
            == bytes,
        Some(reason) => validated matches Err(given) && given == reason,
    }
}

/// A target type that can be built from the string literal that `TStr`
/// encodes.
pub trait FromLiteralStr<TStr: TypeStr>: Sized {
    /// The reason for which the literal is refused by this type, or `None`
    /// where it is a legal literal of it. A literal whose bytes are not a
    /// UTF-8 encoding is legal for no type.
    spec fn refusal() -> Option<LiteralError>;

    /// Whether `self` is the value that the literal stands for.
    spec fn is_literal(&self) -> bool;

    /// Validates the literal: its text, unchanged, where it is legal, else the
    /// reason of the refusal.
    fn valid_literal() -> (validated: Result<String, LiteralError>)
        ensures
            is_text_outcome(TStr::bytes(), Self::refusal(), validated),
    ;

    /// Builds the value that the legal literal stands for.
    fn into_self() -> (made: Self)
        requires
            Self::refusal() is None,
        ensures
            made.is_literal(),
    ;
}

/// The reason for which a plain string type refuses a literal with the bytes
/// `bytes`: none, but where the bytes are not a UTF-8 encoding.
pub open spec fn text_refusal(bytes: Seq<u8>) -> Option<LiteralError> {
    if valid_utf8(bytes) {
        None
    } else {
        Some(LiteralError::InvalidUtf8)
    }
}

/// Validates the literal that `TStr` encodes as a plain text.
pub fn validate_text<TStr: TypeStr>() -> (validated: Result<String, LiteralError>)
    ensures
        is_text_outcome(TStr::bytes(), text_refusal(TStr::bytes()), validated),
{
    match to_text::<TStr>() {
        Some(text) => Ok(text),
        None => Err(LiteralError::InvalidUtf8),
    }
}

/// `String::leak`: hands the text out as a slice that lives as long as the
/// program. The slice holds the text unchanged; its memory is never given
/// back.
#[verifier::external_body]
fn leak_text(text: String) -> (slice: &'static str)
    ensures
        slice@ == text@,
{
    text.leak()
}

/// An owned string takes every literal and holds a copy of its text.
impl<TStr: TypeStr> FromLiteralStr<TStr> for String {
    open spec fn refusal() -> Option<LiteralError> {
        text_refusal(TStr::bytes())
    }

    open spec fn is_literal(&self) -> bool {
        encode_utf8(self@) == TStr::bytes()
    }

    fn valid_literal() -> (validated: Result<String, LiteralError>) {
        validate_text::<TStr>()
    }

    fn into_self() -> (made: Self) {
        match to_text::<TStr>() {
            Some(text) => text,
            None => vstd::pervasive::unreached(),
        }
    }
}

/// A string slice takes every literal and views its text. Each value is a
/// slice of its own, which lives as long as the program.
impl<'a, TStr: TypeStr> FromLiteralStr<TStr> for &'a str {
    open spec fn refusal() -> Option<LiteralError> {
        text_refusal(TStr::bytes())
    }

    open spec fn is_literal(&self) -> bool {
        self.spec_bytes() == TStr::bytes()
    }

    fn valid_literal() -> (validated: Result<String, LiteralError>) {
        validate_text::<TStr>()
    }

    fn into_self() -> (made: Self) {
        match to_text::<TStr>() {
            Some(text) => leak_text(text),
            None => vstd::pervasive::unreached(),
        }
    }
}

/// Validates the string literal that `TStr` encodes for the target type `T`
/// and, where it is legal, builds the value that it stands for. Where it is
/// not, gives the reason of the refusal and builds nothing.
pub fn try_str<TStr: TypeStr, T: FromLiteralStr<TStr>>() -> (built: Result<T, LiteralError>)
    ensures
        match T::refusal() {
            None => built matches Ok(made) && made.is_literal(),
            Some(reason) => built matches Err(given) && given == reason,
        },
{
    match T::valid_literal() {
        Ok(_) => Ok(T::into_self()),
        Err(reason) => Err(reason),
    }
}

} // verus!
