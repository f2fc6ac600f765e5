//! What keeps the rules of the parent module to the nodes of this library.

use vstd::prelude::*;
use crate::token::Ident;

verus! {

/// A node of this library that may have more rules.
pub trait Sealed {

}

impl Sealed for Ident {

}

} // verus!
