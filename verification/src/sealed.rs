use vstd::prelude::*;

use crate::type_str::{Byte, TCons};

verus! {

/// Closes the set of types that make up a type-level string: only the byte
/// markers, the empty list and the list cell carry it, and no other crate can
/// add to them.
pub trait Sealed {
}

impl<const VAL: u8> Sealed for Byte<VAL> {
}

impl Sealed for tlist::TNil {
}

impl<H: Sealed, T: Sealed> Sealed for TCons<H, T> {
}

} // verus!
