//! A cursor over a token tree: a position that is copied, never moved.

use vstd::prelude::*;
use crate::error::Error;
use crate::token::{
    clone_tree, clone_trees, trees_view, Delimiter, Ident, Literal, Punct, Span, Tokens,
    Token, Tree,
};

verus! {

/// Whether `rest` is what is left of `whole` after some of its first trees.
pub open spec fn is_suffix(rest: Seq<Tree>, whole: Seq<Tree>) -> bool {
    rest.len() <= whole.len() && rest == whole.skip(whole.len() - rest.len())
}

/// The span of the first tree of `s`, or the call site where there is none.
pub open spec fn first_span(s: Seq<Tree>) -> Span {
    if s.len() > 0 {
        s[0].span()
    } else {
        Span::call_site()
    }
}

/// The tokens that cursors walk over.
#[derive(Debug)]
pub struct TokenBuffer {
    stream: Tokens,
}

impl View for TokenBuffer {
    type V = Seq<Tree>;

    closed spec fn view(&self) -> Seq<Tree> {
        self.stream@
    }
}

impl TokenBuffer {
    /// A buffer of the trees of `stream`.
    pub fn new2(stream: Tokens) -> (b: TokenBuffer)
        ensures
            b@ == stream@,
    {
        TokenBuffer { stream }
    }

    /// A cursor before the first tree.
    pub fn begin(&self) -> (c: Cursor<'_>)
        ensures
            c@ == self@,
    {
        let c = Cursor { trees: &self.stream.trees, pos: 0 };
        assert(c@ =~= self@);
        c
    }
}

/// A position in a sequence of token trees. Its view is what lies ahead of
/// it at its own nesting level.
#[derive(Clone, Copy, Debug)]
pub struct Cursor<'a> {
    trees: &'a Vec<Token>,
    pos: usize,
}

impl<'a> View for Cursor<'a> {
    type V = Seq<Tree>;

    closed spec fn view(&self) -> Seq<Tree> {
        trees_view(self.trees@).skip(self.pos as int)
    }
}

impl<'a> Cursor<'a> {
    #[verifier::type_invariant]
    spec fn in_bounds(self) -> bool {
        self.pos <= self.trees@.len()
    }

    /// A cursor before the first tree of `stream`.
    pub fn new(stream: &'a Tokens) -> (c: Cursor<'a>)
        ensures
            c@ == stream@,
    {
        let c = Cursor { trees: &stream.trees, pos: 0 };
        assert(c@ =~= stream@);
        c
    }

    /// Whether no tree is left at this nesting level.
    pub fn eof(self) -> (b: bool)
        ensures
            b == (self@.len() == 0),
    {
        proof {
            use_type_invariant(&self);
        }
        self.pos == self.trees.len()
    }

    /// The cursor past every tree that is left.
    pub fn exhausted(self) -> (c: Cursor<'a>)
        ensures
            c@ == Seq::<Tree>::empty(),
            is_suffix(c@, self@),
    {
        proof {
            use_type_invariant(&self);
        }
        let c = Cursor { trees: self.trees, pos: self.trees.len() };
        assert(c@ =~= Seq::<Tree>::empty());
        assert(c@ =~= self@.skip(self@.len() - c@.len()));
        c
    }

    /// The next tree, where there is one.
    fn peek(self) -> (r: Option<&'a Token>)
        ensures
            r is Some <==> self@.len() > 0,
            r matches Some(t) ==> t@ == self@[0],
    {
        proof {
            use_type_invariant(&self);
        }
        if self.pos < self.trees.len() {
            Some(&self.trees[self.pos])
        } else {
            None
        }
    }

    /// The cursor past the next tree.
    fn bump(self) -> (c: Cursor<'a>)
        requires
            self@.len() > 0,
        ensures
            c@ == self@.skip(1),
    {
        proof {
            use_type_invariant(&self);
            assert(trees_view(self.trees@).len() == self.trees@.len());
            assert(self@.len() == self.trees@.len() - self.pos);
            assert(self.pos < self.trees.len());
        }
        let c = Cursor { trees: self.trees, pos: self.pos + 1 };
        assert(c@ =~= self@.skip(1));
        c
    }

    /// Where a diagnostic about the next tree points: at that tree, or at
    /// the call site when nothing is left.
    pub fn span(self) -> (s: Span)
        ensures
            s == first_span(self@),
    {
        match self.peek() {
            Some(Token::Group(g)) => g.span,
            Some(Token::Ident(i)) => i.span,
            Some(Token::Punct(p)) => p.span,
            Some(Token::Literal(l)) => l.span,
            None => Span::call_site(),
        }
    }

    /// A diagnostic with `message`, anchored at the next tree.
    pub fn error(self, message: &str) -> (e: Error)
        ensures
            e.says(first_span(self@), message@),
    {
        Error::new(self.span(), message)
    }

    /// The next tree, if it is an identifier, and the cursor past it.
    pub fn ident(self) -> (r: Option<(Ident, Cursor<'a>)>)
        ensures
            r is Some <==> self@.len() > 0 && self@[0] is Ident,
            r matches Some((i, rest)) ==> i@ == self@[0] && rest@ == self@.skip(1),
    {
        match self.peek() {
            Some(Token::Ident(i)) => Some((i.clone(), self.bump())),
            _ => None,
        }
    }

    /// The next tree, if it is a punctuation character, and the cursor past
    /// it.
    pub fn punct(self) -> (r: Option<(Punct, Cursor<'a>)>)
        ensures
            r is Some <==> self@.len() > 0 && self@[0] is Punct,
            r matches Some((p, rest)) ==> p@ == self@[0] && rest@ == self@.skip(1),
    {
        match self.peek() {
            Some(Token::Punct(p)) => Some((*p, self.bump())),
            _ => None,
        }
    }

    /// The next tree, if it is a literal, and the cursor past it.
    pub fn literal(self) -> (r: Option<(Literal, Cursor<'a>)>)
        ensures
            r is Some <==> self@.len() > 0 && self@[0] is Literal,
            r matches Some((l, rest)) ==> l@ == self@[0] && rest@ == self@.skip(1),
    {
        match self.peek() {
            Some(Token::Literal(l)) => Some((l.clone(), self.bump())),
            _ => None,
        }
    }

    /// The next tree, if it is a group that `delimiter` delimits: a cursor
    /// over what the group holds, the group's span, and the cursor past the
    /// group.
    pub fn group(self, delimiter: Delimiter) -> (r: Option<(Cursor<'a>, Span, Cursor<'a>)>)
        ensures
            r is Some <==> self@.len() > 0 && self@[0] is Group && self@[0]->delimiter
                == delimiter,
            r matches Some((inside, span, rest)) ==> {
                &&& inside@ == self@[0]->inner
                &&& span == self@[0].span()
                &&& rest@ == self@.skip(1)
            },
    {
        match self.peek() {
            Some(Token::Group(g)) => {
                if same_delimiter(g.delimiter, delimiter) {
                    let inside = Cursor { trees: &g.stream.trees, pos: 0 };
                    assert(inside@ =~= self@[0]->inner);
                    Some((inside, g.span, self.bump()))
                } else {
                    None
                }
            },
            _ => None,
        }
    }

    /// The next tree of whatever kind, and the cursor past it.
    pub fn token_tree(self) -> (r: Option<(Token, Cursor<'a>)>)
        ensures
            r is Some <==> self@.len() > 0,
            r matches Some((t, rest)) ==> t@ == self@[0] && rest@ == self@.skip(1),
    {
        match self.peek() {
            Some(t) => Some((clone_tree(t), self.bump())),
            None => None,
        }
    }

    /// A copy of every tree that is left at this nesting level.
    pub fn token_stream(self) -> (s: Tokens)
        ensures
            s@ == self@,
    {
        proof {
            use_type_invariant(&self);
        }
        Tokens { trees: clone_trees(self.trees, self.pos) }
    }
}

/// Whether `a` and `b` are the same kind of bracket.
pub fn same_delimiter(a: Delimiter, b: Delimiter) -> (r: bool)
    ensures
        r == (a == b),
{
    match (a, b) {
        (Delimiter::Parenthesis, Delimiter::Parenthesis) => true,
        (Delimiter::Brace, Delimiter::Brace) => true,
        (Delimiter::Bracket, Delimiter::Bracket) => true,
        (Delimiter::Invisible, Delimiter::Invisible) => true,
        _ => false,
    }
}

} // verus!
