//! The rules for the tokens themselves: what every grammar is made of.

use vstd::prelude::*;
use crate::buffer::{first_span, is_suffix, Cursor};
use crate::error::{Error, PResult};
use crate::keyword::{is_reserved, reserved};
use crate::parse::{Parse, ParseBuffer};
use crate::token::{Delimiter, Group, Ident, Literal, Punct, Token, Tokens, Tree};

verus! {

/// The contract of a rule that takes the first tree of `input` where it is
/// `wanted`, and fails with `message` at that tree where it is not.
pub open spec fn takes_first<T: View<V = Tree>>(
    input: Seq<Tree>,
    wanted: bool,
    message: Seq<char>,
    r: PResult<T>,
) -> bool {
    if input.len() > 0 && wanted {
        r matches Ok((node, rest)) && node@ == input[0] && rest@ == input.skip(1)
    } else {
        r matches Err(e) && e.says(first_span(input), message)
    }
}

/// [`takes_first`], for a rule that runs on the cursor of a parse.
pub open spec fn steps_first<T: View<V = Tree>>(
    before: ParseBuffer,
    after: ParseBuffer,
    wanted: bool,
    message: Seq<char>,
    r: Result<T, Error>,
) -> bool {
    &&& after.scope == before.scope
    &&& after.unexpected == before.unexpected
    &&& if before.cursor@.len() > 0 && wanted {
        r matches Ok(node) && node@ == before.cursor@[0] && after.cursor@
            == before.cursor@.skip(1)
    } else {
        r matches Err(e) && e.says(first_span(before.cursor@), message) && after.cursor
            == before.cursor
    }
}

/// Whether `tree` is a group in parentheses, braces or brackets.
pub open spec fn is_bracketed(tree: Tree) -> bool {
    tree matches Tree::Group { delimiter, .. } && delimiter != Delimiter::Invisible
}

/// A rule for the first tree that fails leaves the cursor of the parse
/// where it was, and one that succeeds leaves it at a later place of the
/// same input.
pub proof fn lemma_step_rolls_back_or_advances<T: View<V = Tree>>(
    before: ParseBuffer,
    after: ParseBuffer,
    wanted: bool,
    message: Seq<char>,
    r: Result<T, Error>,
)
    requires
        steps_first(before, after, wanted, message, r),
    ensures
        r is Err ==> after.cursor == before.cursor,
        r is Ok ==> is_suffix(after.cursor@, before.cursor@),
        r is Ok <==> before.cursor@.len() > 0 && wanted,
{
    if r is Ok {
        lemma_skip_one_is_suffix(before.cursor@);
    }
}

/// A rule for the first tree that succeeds leaves a later place of its
/// input, and succeeds where that tree is there and is wanted.
pub proof fn lemma_first_leaves_suffix<T: View<V = Tree>>(
    input: Seq<Tree>,
    wanted: bool,
    message: Seq<char>,
    r: PResult<T>,
)
    requires
        takes_first(input, wanted, message, r),
    ensures
        r matches Ok((_, rest)) ==> is_suffix(rest@, input),
        r is Ok <==> input.len() > 0 && wanted,
{
    if r is Ok {
        lemma_skip_one_is_suffix(input);
    }
}

/// What is left after the first tree of `whole` is left of `whole`.
pub proof fn lemma_skip_one_is_suffix(whole: Seq<Tree>)
    requires
        whole.len() > 0,
    ensures
        is_suffix(whole.skip(1), whole),
{
}

/// Everything that is left, as it stands. Never fails.
pub fn token_stream<'a>(cursor: Cursor<'a>) -> (r: PResult<'a, Tokens>)
    ensures
        r matches Ok((stream, rest)) && stream@ == cursor@ && rest@.len() == 0 && is_suffix(
            rest@,
            cursor@,
        ),
{
    Ok((cursor.token_stream(), cursor.exhausted()))
}

/// One token tree of whatever kind.
pub fn token_tree<'a>(cursor: Cursor<'a>) -> (r: PResult<'a, Token>)
    ensures
        takes_first(cursor@, true, "expected token tree"@, r),
{
    match cursor.token_tree() {
        Some((tree, rest)) => Ok((tree, rest)),
        None => Err(cursor.error("expected token tree")),
    }
}

/// One group: in parentheses, in braces or in brackets, tried in that order.
pub fn group<'a>(cursor: Cursor<'a>) -> (r: PResult<'a, Group>)
    ensures
        takes_first(cursor@, cursor@.len() > 0 && is_bracketed(cursor@[0]), "expected group token"@, r),
{
    let order = [Delimiter::Parenthesis, Delimiter::Brace, Delimiter::Bracket];
    let mut i: usize = 0;
    while i < 3
        invariant
            i <= 3,
            order@ == seq![Delimiter::Parenthesis, Delimiter::Brace, Delimiter::Bracket],
            forall|k: int|
                0 <= k < i ==> !(cursor@.len() > 0 && cursor@[0] is Group && cursor@[0]->delimiter
                    == order@[k]),
        decreases 3 - i,
    {
        let delimiter = order[i];
        if let Some((inside, span, rest)) = cursor.group(delimiter) {
            let found = Group { delimiter, stream: inside.token_stream(), span };
            return Ok((found, rest));
        }
        i = i + 1;
    }
    proof {
        if cursor@.len() > 0 && is_bracketed(cursor@[0]) {
            let d = cursor@[0]->delimiter;
            assert(d == order@[0] || d == order@[1] || d == order@[2]);
        }
    }
    Err(cursor.error("expected group token"))
}

/// One punctuation character.
pub fn punct<'a>(cursor: Cursor<'a>) -> (r: PResult<'a, Punct>)
    ensures
        takes_first(cursor@, cursor@.len() > 0 && cursor@[0] is Punct, "expected punctuation token"@, r),
{
    match cursor.punct() {
        Some((found, rest)) => Ok((found, rest)),
        None => Err(cursor.error("expected punctuation token")),
    }
}

/// One literal.
pub fn literal<'a>(cursor: Cursor<'a>) -> (r: PResult<'a, Literal>)
    ensures
        takes_first(cursor@, cursor@.len() > 0 && cursor@[0] is Literal, "expected literal token"@, r),
{
    match cursor.literal() {
        Some((found, rest)) => Ok((found, rest)),
        None => Err(cursor.error("expected literal token")),
    }
}

/// One identifier, a reserved word or not.
pub fn any_ident<'a>(cursor: Cursor<'a>) -> (r: PResult<'a, Ident>)
    ensures
        takes_first(cursor@, cursor@.len() > 0 && cursor@[0] is Ident, "expected ident"@, r),
{
    match cursor.ident() {
        Some((found, rest)) => Ok((found, rest)),
        None => Err(cursor.error("expected ident")),
    }
}

/// One identifier that is no reserved word.
pub fn ident<'a>(cursor: Cursor<'a>) -> (r: PResult<'a, Ident>)
    ensures
        takes_first(cursor@, is_plain_ident(cursor@), "expected identifier"@, r),
{
    match cursor.ident() {
        Some((found, rest)) => if reserved(found.text.as_str()) {
            Err(cursor.error("expected identifier"))
        } else {
            Ok((found, rest))
        },
        None => Err(cursor.error("expected identifier")),
    }
}

/// Whether `input` starts with an identifier that is no reserved word.
pub open spec fn is_plain_ident(input: Seq<Tree>) -> bool {
    input.len() > 0 && (input[0] matches Tree::Ident { text, .. } && !is_reserved(text))
}

/// A group that stands first in braces is parsed as that group, in braces.
pub proof fn lemma_group_keeps_delimiter(input: Seq<Tree>, r: PResult<Group>)
    requires
        input.len() > 0,
        input[0] is Group,
        input[0]->delimiter == Delimiter::Brace,
        takes_first(input, is_bracketed(input[0]), "expected group token"@, r),
    ensures
        r matches Ok((found, rest)) && found.delimiter == Delimiter::Brace && found@ == input[0]
            && rest@ == input.skip(1),
{
}

impl Parse for Ident {
    open spec fn parses(before: ParseBuffer, after: ParseBuffer, r: Result<Self, Error>) -> bool {
        steps_first(before, after, is_plain_ident(before.cursor@), "expected identifier"@, r)
    }

    fn parse<'a>(input: &mut ParseBuffer<'a>) -> (r: Result<Self, Error>) {
        proof {
            if input.cursor@.len() > 0 {
                lemma_skip_one_is_suffix(input.cursor@);
            }
        }
        input.step_cursor(ident)
    }
}

impl Parse for Tokens {
    open spec fn parses(before: ParseBuffer, after: ParseBuffer, r: Result<Self, Error>) -> bool {
        &&& after.scope == before.scope
        &&& after.unexpected == before.unexpected
        &&& r matches Ok(stream)
        &&& stream@ == before.cursor@
        &&& after.cursor@.len() == 0
    }

    fn parse<'a>(input: &mut ParseBuffer<'a>) -> (r: Result<Self, Error>) {
        input.step_cursor(token_stream)
    }
}

impl Parse for Token {
    open spec fn parses(before: ParseBuffer, after: ParseBuffer, r: Result<Self, Error>) -> bool {
        steps_first(before, after, true, "expected token tree"@, r)
    }

    fn parse<'a>(input: &mut ParseBuffer<'a>) -> (r: Result<Self, Error>) {
        proof {
            if input.cursor@.len() > 0 {
                lemma_skip_one_is_suffix(input.cursor@);
            }
        }
        input.step_cursor(token_tree)
    }
}

impl Parse for Group {
    open spec fn parses(before: ParseBuffer, after: ParseBuffer, r: Result<Self, Error>) -> bool {
        steps_first(
            before,
            after,
            before.cursor@.len() > 0 && is_bracketed(before.cursor@[0]),
            "expected group token"@,
            r,
        )
    }

    fn parse<'a>(input: &mut ParseBuffer<'a>) -> (r: Result<Self, Error>) {
        proof {
            if input.cursor@.len() > 0 {
                lemma_skip_one_is_suffix(input.cursor@);
            }
        }
        input.step_cursor(group)
    }
}

impl Parse for Punct {
    open spec fn parses(before: ParseBuffer, after: ParseBuffer, r: Result<Self, Error>) -> bool {
        steps_first(
            before,
            after,
            before.cursor@.len() > 0 && before.cursor@[0] is Punct,
            "expected punctuation token"@,
            r,
        )
    }

    fn parse<'a>(input: &mut ParseBuffer<'a>) -> (r: Result<Self, Error>) {
        proof {
            if input.cursor@.len() > 0 {
                lemma_skip_one_is_suffix(input.cursor@);
            }
        }
        input.step_cursor(punct)
    }
}

impl Parse for Literal {
    open spec fn parses(before: ParseBuffer, after: ParseBuffer, r: Result<Self, Error>) -> bool {
        steps_first(
            before,
            after,
            before.cursor@.len() > 0 && before.cursor@[0] is Literal,
            "expected literal token"@,
            r,
        )
    }

    fn parse<'a>(input: &mut ParseBuffer<'a>) -> (r: Result<Self, Error>) {
        proof {
            if input.cursor@.len() > 0 {
                lemma_skip_one_is_suffix(input.cursor@);
            }
        }
        input.step_cursor(literal)
    }
}

} // verus!
