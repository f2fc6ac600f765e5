//! More rules for nodes of this library, for grammars that need them.

use vstd::prelude::*;
use crate::buffer::{first_span, Cursor};
use crate::error::{parse_error, Error, PResult};
use crate::parse::ParseBuffer;
use crate::rules::{any_ident, steps_first};
use crate::token::{Ident, Span};

mod private;

verus! {

/// Rules for an identifier that may be a reserved word, for a language of
/// its own inside the tokens. Only [`Ident`] has them.
pub trait IdentExt: Sized + private::Sealed {
    /// Parses any identifier, reserved words too.
    fn parse_any<'a>(input: Cursor<'a>) -> (r: PResult<'a, Self>);

    /// Parses any identifier, reserved words too, from a running parse.
    fn parse_any2<'a>(input: &mut ParseBuffer<'a>) -> (r: Result<Self, Error>);
}

impl IdentExt for Ident {
    fn parse_any<'a>(input: Cursor<'a>) -> (r: PResult<'a, Self>)
        ensures
            if input@.len() > 0 && input@[0] is Ident {
                r matches Ok((ident, rest)) && ident@ == input@[0] && rest@ == input@.skip(1)
            } else {
                r matches Err(e) && e.says(Span::call_site(), "parse error"@)
            },
    {
        match input.ident() {
            Some(found) => Ok(found),
            None => parse_error(),
        }
    }

    fn parse_any2<'a>(input: &mut ParseBuffer<'a>) -> (r: Result<Self, Error>)
        ensures
            steps_first(
                *old(input),
                *final(input),
                old(input).cursor@.len() > 0 && old(input).cursor@[0] is Ident,
                "expected ident"@,
                r,
            ),
    {
        input.step_cursor(any_ident)
    }
}

} // verus!
