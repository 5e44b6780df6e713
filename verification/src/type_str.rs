//! Strings encoded as types.
//!
//! A string literal is carried as a type: a list of [`Byte`] markers, one for
//! each byte of its UTF-8 encoding, closed by `tlist::TNil`. [`TypeStr`] gives
//! the bytes back, in contracts and at run time.
use vstd::prelude::*;
use vstd::utf8::{decode_utf8, encode_utf8, valid_utf8};

use crate::sealed::Sealed;

/// The empty list of byte markers, which encodes the empty string.
pub use tlist::TNil;

verus! {

/// `tlist::TNil`, the empty type-level list. It has no fields and no value
/// of it is ever inspected: it only closes a list of byte markers.
#[verifier::external_type_specification]
#[verifier::external_body]
pub struct ExTNil(tlist::TNil);

/// The marker of one byte: a distinct type for each value from 0 to 255.
pub struct Byte<const VAL: u8>;

/// A list cell: the element `H` in front of the list `T`.
pub struct TCons<H, T>(core::marker::PhantomData<(H, T)>);

/// A string fixed in a type.
pub trait TypeStr: Sealed {
    /// The bytes that the type encodes, in order.
    spec fn bytes() -> Seq<u8>;

    /// Appends the encoded bytes to `out`, in order.
    fn append_to(out: &mut Vec<u8>)
        ensures
            final(out)@ == old(out)@ + Self::bytes(),
    ;
}

impl TypeStr for tlist::TNil {
    open spec fn bytes() -> Seq<u8> {
        Seq::empty()
    }

    fn append_to(out: &mut Vec<u8>) {
    }
}

impl<const VAL: u8, T: TypeStr> TypeStr for TCons<Byte<VAL>, T> {
    open spec fn bytes() -> Seq<u8> {
        seq![VAL] + T::bytes()
    }

    fn append_to(out: &mut Vec<u8>) {
        out.push(VAL);
        T::append_to(out);
        assert(final(out)@ =~= old(out)@ + (seq![VAL] + T::bytes()));
    }
}

/// `String::from_utf8`: the text whose UTF-8 encoding is `bytes`, or `None`
/// where `bytes` is not a UTF-8 encoding. Nothing is added to the bytes and
/// nothing dropped.
#[verifier::external_body]
fn string_from_utf8(bytes: Vec<u8>) -> (text: Option<String>)
    ensures
        text is Some <==> valid_utf8(bytes@),
        text matches Some(s) ==> s@ == decode_utf8(bytes@),
{
    String::from_utf8(bytes).ok()
}

/// The bytes that `T` encodes, as a run-time value.
pub fn to_bytes<T: TypeStr>() -> (out: Vec<u8>)
    ensures
        out@ == T::bytes(),
{
    let mut out: Vec<u8> = Vec::new();
    T::append_to(&mut out);
    assert(out@ =~= T::bytes());
    out
}

/// The text that `T` encodes: its bytes read as UTF-8. There is a text
/// exactly where the bytes are a UTF-8 encoding, and its own encoding is then
/// those bytes again.
pub fn to_text<T: TypeStr>() -> (text: Option<String>)
    ensures
        text is Some <==> valid_utf8(T::bytes()),
        text matches Some(s) ==> s@ == decode_utf8(T::bytes()) && encode_utf8(s@) == T::bytes(),
{
    let bytes = to_bytes::<T>();
    proof {
        if valid_utf8(T::bytes()) {
            vstd::utf8::decode_utf8_encode_utf8(T::bytes());
        }
    }
    string_from_utf8(bytes)
}

} // verus!
