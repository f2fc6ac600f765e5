//! The two ways into a parse: a node's own rule, run on a cursor, and any
//! rule, run on a whole input.

use vstd::prelude::*;
use crate::buffer::{first_span, is_suffix, Cursor, TokenBuffer};
use crate::error::{Error, PResult};
use crate::lexer::{lex, lexed, placed};
use crate::parse::{Parse, ParseBuffer};
use crate::token::{Span, Tokens, Tree};

verus! {

/// The state that a top-level parse starts in: at `cursor`, with the call
/// site for its scope and nothing recorded as unexpected.
pub open spec fn fresh(cursor: Cursor) -> ParseBuffer {
    ParseBuffer { scope: Span::call_site(), cursor, unexpected: None }
}

/// What the parse of a node returns when its rule returned `outcome` and left
/// `state`: the rule's failure; else the token recorded as unexpected; else
/// the node with the cursor that is left.
pub open spec fn settled<T>(outcome: Result<T, Error>, state: ParseBuffer, r: PResult<T>) -> bool {
    match outcome {
        Err(e) => r == Err::<(T, Cursor), Error>(e),
        Ok(node) => match state.unexpected {
            Some(span) => r matches Err(e) && e.says(span, "unexpected token"@),
            None => r == Ok::<(T, Cursor), Error>((node, state.cursor)),
        },
    }
}

/// What the parse of a whole input returns when its rule returned `outcome`
/// and left `state`: the rule's failure; else the token recorded as
/// unexpected; else the first token that the rule left unparsed; else the
/// node.
pub open spec fn concluded<T>(outcome: Result<T, Error>, state: ParseBuffer, r: Result<T, Error>) -> bool {
    match outcome {
        Err(e) => r == Err::<T, Error>(e),
        Ok(node) => match state.unexpected {
            Some(span) => r matches Err(e) && e.says(span, "unexpected token"@),
            None => if state.cursor@.len() == 0 {
                r == Ok::<T, Error>(node)
            } else {
                r matches Err(e) && e.says(first_span(state.cursor@), "unexpected token"@)
            },
        },
    }
}

/// The parse of a whole input succeeds where its rule succeeded, nothing
/// was recorded as unexpected and no token is left, and only there; a token
/// that the rule left unparsed is then the failure, at that token.
pub proof fn lemma_conclusion<T>(outcome: Result<T, Error>, state: ParseBuffer, r: Result<T, Error>)
    requires
        concluded(outcome, state, r),
    ensures
        r is Ok <==> outcome is Ok && state.unexpected is None && state.cursor@.len() == 0,
        r is Ok ==> r == outcome,
        outcome is Ok && state.unexpected is None && state.cursor@.len() > 0 ==> (r matches Err(e)
            && e.says(state.cursor@[0].span(), "unexpected token"@)),
{
}

/// Ends the parse of a node: see [`settled`].
pub fn settle<'a, T>(outcome: Result<T, Error>, state: &ParseBuffer<'a>) -> (r: PResult<'a, T>)
    ensures
        settled(outcome, *state, r),
{
    match outcome {
        Err(e) => Err(e),
        Ok(node) => match state.check_unexpected() {
            Err(e) => Err(e),
            Ok(_) => Ok((node, state.cursor())),
        },
    }
}

/// Ends the parse of a whole input: see [`concluded`].
pub fn conclude<'a, T>(outcome: Result<T, Error>, state: &ParseBuffer<'a>) -> (r: Result<T, Error>)
    ensures
        concluded(outcome, *state, r),
{
    match outcome {
        Err(e) => Err(e),
        Ok(node) => match state.check_unexpected() {
            Err(e) => Err(e),
            Ok(_) => if state.is_empty() {
                Ok(node)
            } else {
                Err(state.cursor().error("unexpected token"))
            },
        },
    }
}

/// A node that is parsed in one way whatever stands around it.
pub trait Synom: Sized {
    /// Whether `r` is a result that the parse of a node from `input` may
    /// have.
    spec fn parsed(input: Cursor, r: PResult<Self>) -> bool;

    /// Parses one node from `input`. What is left is a later place of the
    /// same input.
    fn parse<'a>(input: Cursor<'a>) -> (r: PResult<'a, Self>)
        ensures
            Self::parsed(input, r),
            r matches Ok((_, rest)) ==> is_suffix(rest@, input@),
    ;

    /// A short name of the node for messages: no line break, no full stop.
    /// A node that gives itself none has none.
    fn description() -> (name: Option<&'static str>)
        default_ensures
            name is None,
    {
        None
    }
}

impl<T: Parse> Synom for T {
    open spec fn parsed(input: Cursor, r: PResult<Self>) -> bool {
        exists|after: ParseBuffer, outcome: Result<T, Error>|
            #[trigger] T::parses(fresh(input), after, outcome) && settled(outcome, after, r)
    }

    /// Runs the rule of `T` in a fresh state and settles what it returns.
    fn parse<'a>(input: Cursor<'a>) -> (r: PResult<'a, Self>) {
        let mut state = ParseBuffer::new(Span::call_site(), input, None);
        let outcome = <T as Parse>::parse(&mut state);
        settle(outcome, &state)
    }
}

/// A rule that can be run on a whole input.
pub trait Parser: Sized {
    type Output;

    /// Whether the rule may be run on `input`.
    spec fn accepts(self, input: Seq<Tree>) -> bool;

    /// Whether `r` is a result that the parse of `input` may have.
    spec fn yields(self, input: Seq<Tree>, r: Result<Self::Output, Error>) -> bool;

    /// Parses all of `tokens`.
    fn parse2(self, tokens: Tokens) -> (r: Result<Self::Output, Error>)
        requires
            self.accepts(tokens@),
        ensures
            self.yields(tokens@, r),
    ;

    /// Lexes `s` and parses all of its tokens. A text that is no sequence of
    /// tokens gives the lexer's diagnostic, whatever the rule is.
    fn parse_str(self, s: &str) -> (r: Result<Self::Output, Error>)
        requires
            forall|input: Seq<Tree>| self.accepts(input),
        ensures
            match lexed(s@) {
                Some(trees) => self.yields(placed(trees), r),
                None => r matches Err(e) && e.says(
                    Span::call_site(),
                    "error while lexing input string"@,
                ),
            },
    {
        match lex(s) {
            Ok(tokens) => self.parse2(tokens),
            Err(e) => Err(e),
        }
    }
}

/// Whether `state` is a fresh state over `input`.
pub open spec fn starts(state: ParseBuffer, input: Seq<Tree>) -> bool {
    state.scope == Span::call_site() && state.cursor@ == input && state.unexpected is None
}

/// Whether the function `rule` may be run on a fresh state over `input`.
pub open spec fn permits<F, T>(rule: F, input: Seq<Tree>) -> bool where
    F: for <'a>FnOnce(ParseBuffer<'a>) -> (ParseBuffer<'a>, Result<T, Error>),
 {
    forall|state: ParseBuffer| starts(state, input) ==> call_requires(rule, (state,))
}

/// Whether `r` may be what the parse of `input` by the function `rule`
/// returns: what concludes a run of `rule` from a fresh state over `input`.
pub open spec fn produces<F, T>(rule: F, input: Seq<Tree>, r: Result<T, Error>) -> bool where
    F: for <'a>FnOnce(ParseBuffer<'a>) -> (ParseBuffer<'a>, Result<T, Error>),
 {
    exists|state: ParseBuffer, after: ParseBuffer, outcome: Result<T, Error>|
        starts(state, input) && #[trigger] call_ensures(rule, (state,), (after, outcome))
            && concluded(outcome, after, r)
}

/// Runs `rule` in a fresh state over `tokens` and concludes what it returns.
pub fn parse_tokens<F, T>(rule: F, tokens: Tokens) -> (r: Result<T, Error>) where
    F: for <'a>FnOnce(ParseBuffer<'a>) -> (ParseBuffer<'a>, Result<T, Error>),

    requires
        permits(rule, tokens@),
    ensures
        produces(rule, tokens@, r),
{
    let buf = TokenBuffer::new2(tokens);
    let state = ParseBuffer::new(Span::call_site(), buf.begin(), None);
    assert(starts(state, tokens@));
    let (after, outcome) = rule(state);
    conclude(outcome, &after)
}

/// Lexes `s` and runs `rule` on all of its tokens. A text that is no
/// sequence of tokens gives the lexer's diagnostic, whatever the rule is.
pub fn parse_text<F, T>(rule: F, s: &str) -> (r: Result<T, Error>) where
    F: for <'a>FnOnce(ParseBuffer<'a>) -> (ParseBuffer<'a>, Result<T, Error>),

    requires
        forall|input: Seq<Tree>| permits(rule, input),
    ensures
        match lexed(s@) {
            Some(trees) => produces(rule, placed(trees), r),
            None => r matches Err(e) && e.says(Span::call_site(), "error while lexing input string"@),
        },
{
    match lex(s) {
        Ok(tokens) => parse_tokens(rule, tokens),
        Err(e) => Err(e),
    }
}

/// A rule as a function: from the state of a parse to the state that it
/// leaves and what it parsed.
impl<F, T> Parser for F where F: for <'a>FnOnce(ParseBuffer<'a>) -> (ParseBuffer<'a>, Result<T, Error>) {
    type Output = T;

    open spec fn accepts(self, input: Seq<Tree>) -> bool {
        permits(self, input)
    }

    open spec fn yields(self, input: Seq<Tree>, r: Result<T, Error>) -> bool {
        produces(self, input, r)
    }

    fn parse2(self, tokens: Tokens) -> (r: Result<T, Error>) {
        parse_tokens(self, tokens)
    }
}

/// The rule of the node `T`, as a function.
pub fn node<'a, T: Parse>(input: ParseBuffer<'a>) -> (r: (ParseBuffer<'a>, Result<T, Error>))
    ensures
        T::parses(input, r.0, r.1),
        r.0.scope == input.scope,
        r.1 is Err ==> r.0.cursor == input.cursor,
        r.1 is Ok ==> is_suffix(r.0.cursor@, input.cursor@),
{
    let mut state = input;
    let outcome = <T as Parse>::parse(&mut state);
    (state, outcome)
}

} // verus!
