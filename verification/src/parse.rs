//! The state of one parse: a cursor that moves as rules succeed, and the
//! furthest token that a rule found where it did not expect it.

use vstd::prelude::*;
use crate::buffer::{first_span, is_suffix, Cursor};
use crate::error::{Error, PResult};
use crate::token::Span;

verus! {

/// The span to keep when `candidate` is found unexpected and `seen` is what
/// was recorded before: the candidate, unless one recorded earlier reaches as
/// far into the input.
pub open spec fn furthest(seen: Option<Span>, candidate: Span) -> Span {
    match seen {
        Some(span) => if candidate.further_than(span) {
            candidate
        } else {
            span
        },
        None => candidate,
    }
}

/// Whether what is recorded in `after` reaches at least as far into the
/// input as what was recorded in `before`.
pub open spec fn keeps_furthest(before: Option<Span>, after: Option<Span>) -> bool {
    before matches Some(old_span) ==> after matches Some(new_span) && new_span.lo >= old_span.lo
}

/// What a parse has recorded once it takes over what a nested parse
/// recorded.
pub open spec fn merged(outer: Option<Span>, inner: Option<Span>) -> Option<Span> {
    match inner {
        Some(span) => Some(furthest(outer, span)),
        None => outer,
    }
}

/// The span that is kept is the candidate or the one recorded before, and
/// neither of the two starts further into the input than it.
pub proof fn lemma_furthest_wins(seen: Option<Span>, candidate: Span)
    ensures
        furthest(seen, candidate) == candidate || seen == Some(furthest(seen, candidate)),
        !candidate.further_than(furthest(seen, candidate)),
        seen matches Some(span) ==> !span.further_than(furthest(seen, candidate)),
        keeps_furthest(seen, Some(furthest(seen, candidate))),
{
}

/// A cursor with the bookkeeping of one top-level parse.
#[derive(Debug)]
pub struct ParseBuffer<'a> {
    /// Where a diagnostic points when no token is left to point at.
    pub scope: Span,
    /// What is left to parse.
    pub cursor: Cursor<'a>,
    /// The furthest token recorded as unexpected so far.
    pub unexpected: Option<Span>,
}

impl<'a> ParseBuffer<'a> {
    pub fn new(scope: Span, cursor: Cursor<'a>, unexpected: Option<Span>) -> (b: ParseBuffer<'a>)
        ensures
            b.scope == scope,
            b.cursor == cursor,
            b.unexpected == unexpected,
    {
        ParseBuffer { scope, cursor, unexpected }
    }

    /// A state for the rules that parse what a group holds: at `cursor`,
    /// with `scope` for the end of the group, and with what this parse has
    /// recorded so far.
    pub fn nested(&self, scope: Span, cursor: Cursor<'a>) -> (b: ParseBuffer<'a>)
        ensures
            b.scope == scope,
            b.cursor == cursor,
            b.unexpected == self.unexpected,
    {
        ParseBuffer { scope, cursor, unexpected: self.unexpected }
    }

    /// Takes over what the rules of a nested state recorded as unexpected.
    pub fn absorb(&mut self, nested: &ParseBuffer<'a>)
        ensures
            final(self).unexpected == merged(old(self).unexpected, nested.unexpected),
            keeps_furthest(old(self).unexpected, final(self).unexpected),
            final(self).scope == old(self).scope,
            final(self).cursor == old(self).cursor,
    {
        match nested.unexpected {
            Some(span) => self.unexpected(span),
            None => {},
        }
    }

    /// The position that the next rule starts from.
    pub fn cursor(&self) -> (c: Cursor<'a>)
        ensures
            c == self.cursor,
    {
        self.cursor
    }

    /// Whether no token is left at this nesting level.
    pub fn is_empty(&self) -> (b: bool)
        ensures
            b == (self.cursor@.len() == 0),
    {
        self.cursor.eof()
    }

    /// The span that a diagnostic about the next token has: that of the
    /// token, or the scope of the parse where no token is left.
    pub open spec fn anchor(self) -> Span {
        if self.cursor@.len() > 0 {
            first_span(self.cursor@)
        } else {
            self.scope
        }
    }

    /// A diagnostic with `message`, anchored at the next token, or at the
    /// scope of the parse where no token is left.
    pub fn error(&self, message: &str) -> (e: Error)
        ensures
            e.says(self.anchor(), message@),
    {
        if self.cursor.eof() {
            Error::new(self.scope, message)
        } else {
            self.cursor.error(message)
        }
    }

    /// Runs the rule `f` on the cursor. Where it succeeds the cursor moves to
    /// where the rule stopped; where it fails nothing changes.
    pub fn step_cursor<F, T>(&mut self, f: F) -> (r: Result<T, Error>) where
        F: FnOnce(Cursor<'a>) -> PResult<'a, T>,

        requires
            call_requires(f, (old(self).cursor,)),
        ensures
            final(self).scope == old(self).scope,
            final(self).unexpected == old(self).unexpected,
            match r {
                Ok(node) => call_ensures(f, (old(self).cursor,), Ok((node, final(self).cursor))),
                Err(e) => call_ensures(f, (old(self).cursor,), Err(e)) && final(self).cursor == old(
                    self,
                ).cursor,
            },
    {
        match f(self.cursor) {
            Ok((node, rest)) => {
                self.cursor = rest;
                Ok(node)
            },
            Err(e) => Err(e),
        }
    }

    /// Records that the token at `span` was not expected there. Of all that
    /// is recorded during a parse, the one furthest into the input is kept.
    pub fn unexpected(&mut self, span: Span)
        ensures
            final(self).unexpected == Some(furthest(old(self).unexpected, span)),
            keeps_furthest(old(self).unexpected, final(self).unexpected),
            final(self).scope == old(self).scope,
            final(self).cursor == old(self).cursor,
    {
        let keep = match self.unexpected {
            Some(seen) => if span.lo > seen.lo {
                span
            } else {
                seen
            },
            None => span,
        };
        self.unexpected = Some(keep);
    }

    /// Fails with the token recorded as unexpected, where there is one.
    pub fn check_unexpected(&self) -> (r: Result<(), Error>)
        ensures
            match self.unexpected {
                Some(span) => r matches Err(e) && e.says(span, "unexpected token"@),
                None => r is Ok,
            },
    {
        match self.unexpected {
            Some(span) => Err(Error::new(span, "unexpected token")),
            None => Ok(()),
        }
    }
}

/// A node with a rule that parses it out of a running parse.
pub trait Parse: Sized {
    /// What the rule may do: `after` and `r` are a state and a result that it
    /// may leave when it starts from `before`.
    spec fn parses(before: ParseBuffer, after: ParseBuffer, r: Result<Self, Error>) -> bool;

    /// Parses one node. A rule that fails leaves the cursor where it was; one
    /// that succeeds leaves it at a later place of the same input.
    fn parse<'a>(input: &mut ParseBuffer<'a>) -> (r: Result<Self, Error>)
        ensures
            Self::parses(*old(input), *final(input), r),
            final(input).scope == old(input).scope,
            keeps_furthest(old(input).unexpected, final(input).unexpected),
            r is Err ==> final(input).cursor == old(input).cursor,
            r is Ok ==> is_suffix(final(input).cursor@, old(input).cursor@),
    ;
}

} // verus!
