use vstd::prelude::*;

verus! {

/// The reason for which a literal is refused by a target type.
#[derive(Debug, Clone, Copy, PartialEq, Eq, Structural)]
pub enum LiteralError {
    /// The literal lies outside the legal range of the target type.
    OutOfRange,
    /// The literal is zero and the target type has no zero.
    Zero,
    /// The literal is none of the keywords that the target type knows.
    NoMatch,
    /// The bytes of the literal are not the UTF-8 encoding of any text.
    InvalidUtf8,
}

impl LiteralError {
    /// The wording of each reason.
    pub open spec fn wording(self) -> Seq<char> {
        match self {
            LiteralError::OutOfRange => "out of range"@,
            LiteralError::Zero => "must be nonzero"@,
            LiteralError::NoMatch => "no matching keyword"@,
            LiteralError::InvalidUtf8 => "not valid UTF-8"@,
        }
    }

    /// A short description of the reason, for a human reader.
    pub fn reason(&self) -> (text: &'static str)
        ensures
            text@ == self.wording(),
    {
        match self {
            LiteralError::OutOfRange => "out of range",
            LiteralError::Zero => "must be nonzero",
            LiteralError::NoMatch => "no matching keyword",
            LiteralError::InvalidUtf8 => "not valid UTF-8",
        }
    }
}

} // verus!
