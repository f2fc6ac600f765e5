//! The result of a rule: a value and the rest of the input, or a diagnostic.

use vstd::prelude::*;
use crate::buffer::Cursor;
use crate::token::Span;

verus! {

/// A diagnostic: what was wrong, and where.
#[derive(Debug, PartialEq, Eq)]
pub struct Error {
    pub span: Span,
    pub message: String,
}

/// What a rule returns: the node it parsed with the cursor just past it, or
/// the reason why it did not match.
pub type PResult<'a, T> = Result<(T, Cursor<'a>), Error>;

impl Error {
    /// Whether this diagnostic says `message` at `span`.
    pub open spec fn says(self, span: Span, message: Seq<char>) -> bool {
        self.span == span && self.message@ == message
    }

    pub fn new(span: Span, message: &str) -> (e: Error)
        ensures
            e.says(span, message@),
    {
        Error { span, message: message.to_owned() }
    }

    /// The position that the diagnostic points at.
    pub fn span(&self) -> (s: Span)
        ensures
            s == self.span,
    {
        self.span
    }

    /// The message, as text.
    pub fn to_string(&self) -> (s: String)
        ensures
            s@ == self.message@,
    {
        self.message.clone()
    }
}

impl Clone for Error {
    fn clone(&self) -> (e: Error)
        ensures
            e == *self,
    {
        Error { span: self.span, message: self.message.clone() }
    }
}

/// The failure of a rule that has nothing more to say.
pub fn parse_error<'a, T>() -> (r: PResult<'a, T>)
    ensures
        r matches Err(e) && e.says(Span::call_site(), "parse error"@),
{
    Err(Error::new(Span::call_site(), "parse error"))
}

} // verus!
