//! A greeting, as an example of a type that takes a few keywords as its
//! string literals.
use vstd::prelude::*;
use vstd::string::StringSliceAdditionalSpecFns;

use crate::error::LiteralError;
use crate::literal_str::{const_str_eq, FromLiteralStr};
use crate::type_str::{to_text, TypeStr};

verus! {

/// One of two greetings. Its literals are the keywords `hello` and `goodbye`,
/// byte for byte: no other case, nothing before or behind.
#[derive(Debug, Clone, PartialEq, Eq, Structural)]
pub enum Greeting {
    Hello,
    Goodbye,
}

impl Greeting {
    /// The bytes of the keyword that stands for the greeting.
    pub open spec fn keyword(self) -> Seq<u8> {
        match self {
            Greeting::Hello => "hello".spec_bytes(),
            Greeting::Goodbye => "goodbye".spec_bytes(),
        }
    }

    /// The greeting whose keyword is `bytes`, if there is one.
    pub open spec fn named_by(bytes: Seq<u8>) -> Option<Greeting> {
        if bytes == Greeting::Hello.keyword() {
            Some(Greeting::Hello)
        } else if bytes == Greeting::Goodbye.keyword() {
            Some(Greeting::Goodbye)
        } else {
            None
        }
    }

    /// The greeting whose keyword is `text`, if there is one.
    pub fn from_keyword(text: &str) -> (named: Option<Greeting>)
        ensures
            named == Greeting::named_by(text.spec_bytes()),
    {
        if const_str_eq(text, "hello") {
            Some(Greeting::Hello)
        } else if const_str_eq(text, "goodbye") {
            Some(Greeting::Goodbye)
        } else {
            None
        }
    }
}

/// The two keywords, byte by byte.
pub proof fn lemma_keyword_bytes()
    ensures
        Greeting::Hello.keyword() == seq![104u8, 101u8, 108u8, 108u8, 111u8],
        Greeting::Goodbye.keyword() == seq![103u8, 111u8, 111u8, 100u8, 98u8, 121u8, 101u8],
{
    reveal_strlit("hello");
    reveal_strlit("goodbye");
    vstd::string::is_ascii_spec_bytes("hello");
    vstd::string::is_ascii_spec_bytes("goodbye");
    assert("hello".spec_bytes() =~= seq![104u8, 101u8, 108u8, 108u8, 111u8]);
    assert("goodbye".spec_bytes() =~= seq![103u8, 111u8, 111u8, 100u8, 98u8, 121u8, 101u8]);
}

/// A keyword is a text: what is no UTF-8 encoding names no greeting.
pub proof fn lemma_named_is_text(bytes: Seq<u8>)
    requires
        Greeting::named_by(bytes) is Some,
    ensures
        vstd::utf8::valid_utf8(bytes),
{
    vstd::utf8::encode_utf8_valid_utf8("hello"@);
    vstd::utf8::encode_utf8_valid_utf8("goodbye"@);
}

impl<TStr: TypeStr> FromLiteralStr<TStr> for Greeting {
    open spec fn refusal() -> Option<LiteralError> {
        if Greeting::named_by(TStr::bytes()) is Some {
            None
        } else {
            Some(LiteralError::NoMatch)
        }
    }

    open spec fn is_literal(&self) -> bool {
        Greeting::named_by(TStr::bytes()) == Some(*self)
    }

    fn valid_literal() -> (validated: Result<String, LiteralError>) {
        proof {
            if Greeting::named_by(TStr::bytes()) is Some {
                lemma_named_is_text(TStr::bytes());
            }
        }
        match to_text::<TStr>() {
            None => Err(LiteralError::NoMatch),
            Some(text) => {
                if const_str_eq(text.as_str(), "hello") || const_str_eq(text.as_str(), "goodbye") {
                    Ok(text)
                } else {
                    Err(LiteralError::NoMatch)
                }
            },
        }
    }

    fn into_self() -> (made: Self) {
        proof {
            lemma_named_is_text(TStr::bytes());
        }
        match to_text::<TStr>() {
            None => vstd::pervasive::unreached(),
            Some(text) => match Greeting::from_keyword(text.as_str()) {
                Some(named) => named,
                None => vstd::pervasive::unreached(),
            },
        }
    }
}

} // verus!
