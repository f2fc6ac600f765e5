//! Tokens, token trees and their mathematical model.

use vstd::prelude::*;

verus! {

/// A region of the input, as a half-open range of token offsets.
#[derive(Clone, Copy, Debug, PartialEq, Eq, Structural)]
pub struct Span {
    pub lo: usize,
    pub hi: usize,
}

impl Span {
    /// The span of a diagnostic that no token anchors.
    pub open spec fn spec_call_site() -> Span {
        Span { lo: 0, hi: 0 }
    }

    #[verifier::when_used_as_spec(spec_call_site)]
    pub fn call_site() -> (s: Span)
        ensures
            s == Span::spec_call_site(),
    {
        Span { lo: 0, hi: 0 }
    }

    /// Whether `self` starts strictly further into the input than `other`.
    pub open spec fn further_than(self, other: Span) -> bool {
        self.lo > other.lo
    }
}

/// The kind of bracket around a group.
#[derive(Clone, Copy, Debug, PartialEq, Eq, Structural)]
pub enum Delimiter {
    Parenthesis,
    Brace,
    Bracket,
    /// A group that no bracket delimits in the source.
    Invisible,
}

/// The model of one token tree: what the contracts speak of.
pub enum Tree {
    Group { delimiter: Delimiter, inner: Seq<Tree>, span: Span },
    Ident { text: Seq<char>, span: Span },
    Punct { ch: char, joint: bool, span: Span },
    Literal { text: Seq<char>, span: Span },
}

impl Tree {
    pub open spec fn span(self) -> Span {
        match self {
            Tree::Group { span, .. } => span,
            Tree::Ident { span, .. } => span,
            Tree::Punct { span, .. } => span,
            Tree::Literal { span, .. } => span,
        }
    }
}

/// A word.
#[derive(Debug, PartialEq, Eq)]
pub struct Ident {
    pub text: String,
    pub span: Span,
}

/// A single punctuation character; `joint` when another punctuation
/// character follows it at once.
#[derive(Clone, Copy, Debug, PartialEq, Eq)]
pub struct Punct {
    pub ch: char,
    pub joint: bool,
    pub span: Span,
}

/// A literal, by its source text.
#[derive(Debug, PartialEq, Eq)]
pub struct Literal {
    pub text: String,
    pub span: Span,
}

/// A delimited sequence of token trees.
#[derive(Debug, PartialEq, Eq)]
pub struct Group {
    pub delimiter: Delimiter,
    pub stream: Tokens,
    pub span: Span,
}

/// One token, or one delimited group with all that it holds.
#[derive(Debug, PartialEq, Eq)]
pub enum Token {
    Group(Group),
    Ident(Ident),
    Punct(Punct),
    Literal(Literal),
}

/// A sequence of token trees.
#[derive(Debug, PartialEq, Eq)]
pub struct Tokens {
    pub trees: Vec<Token>,
}

/// The model of each tree of `v`, in order.
pub open spec fn trees_view(v: Seq<Token>) -> Seq<Tree>
    decreases v,
{
    Seq::new(v.len(), |i: int| if 0 <= i < v.len() { tree_view(v[i]) } else { arbitrary() })
}

/// The model of `t`.
pub open spec fn tree_view(t: Token) -> Tree
    decreases t,
{
    match t {
        Token::Group(g) => Tree::Group {
            delimiter: g.delimiter,
            inner: trees_view(g.stream.trees@),
            span: g.span,
        },
        Token::Ident(i) => Tree::Ident { text: i.text@, span: i.span },
        Token::Punct(p) => Tree::Punct { ch: p.ch, joint: p.joint, span: p.span },
        Token::Literal(l) => Tree::Literal { text: l.text@, span: l.span },
    }
}

impl View for Ident {
    type V = Tree;

    open spec fn view(&self) -> Tree {
        Tree::Ident { text: self.text@, span: self.span }
    }
}

impl View for Punct {
    type V = Tree;

    open spec fn view(&self) -> Tree {
        Tree::Punct { ch: self.ch, joint: self.joint, span: self.span }
    }
}

impl View for Literal {
    type V = Tree;

    open spec fn view(&self) -> Tree {
        Tree::Literal { text: self.text@, span: self.span }
    }
}

impl View for Group {
    type V = Tree;

    open spec fn view(&self) -> Tree {
        Tree::Group {
            delimiter: self.delimiter,
            inner: trees_view(self.stream.trees@),
            span: self.span,
        }
    }
}

impl View for Token {
    type V = Tree;

    open spec fn view(&self) -> Tree {
        tree_view(*self)
    }
}

impl View for Tokens {
    type V = Seq<Tree>;

    open spec fn view(&self) -> Seq<Tree> {
        trees_view(self.trees@)
    }
}

impl Clone for Ident {
    fn clone(&self) -> (r: Ident)
        ensures
            r == *self,
    {
        Ident { text: self.text.clone(), span: self.span }
    }
}

impl Clone for Literal {
    fn clone(&self) -> (r: Literal)
        ensures
            r == *self,
    {
        Literal { text: self.text.clone(), span: self.span }
    }
}

/// A copy of the trees of `v` from `from` on.
pub fn clone_trees(v: &Vec<Token>, from: usize) -> (r: Vec<Token>)
    requires
        from <= v.len(),
    ensures
        trees_view(r@) == trees_view(v@).skip(from as int),
    decreases v@, 0nat,
{
    let mut out: Vec<Token> = Vec::new();
    let mut i: usize = from;
    while i < v.len()
        invariant
            from <= i <= v.len(),
            out.len() == i - from,
            forall|k: int| 0 <= k < out.len() ==> tree_view(out@[k]) == tree_view(v@[from + k]),
        decreases v.len() - i,
    {
        let t = clone_tree(&v[i]);
        out.push(t);
        i = i + 1;
    }
    assert(trees_view(out@) =~= trees_view(v@).skip(from as int));
    out
}

/// A copy of `t`.
pub fn clone_tree(t: &Token) -> (r: Token)
    ensures
        r@ == t@,
    decreases *t, 1nat,
{
    match t {
        Token::Group(g) => {
            let trees = clone_trees(&g.stream.trees, 0);
            assert(trees_view(g.stream.trees@).skip(0) =~= trees_view(g.stream.trees@));
            Token::Group(
                Group { delimiter: g.delimiter, stream: Tokens { trees }, span: g.span },
            )
        },
        Token::Ident(i) => Token::Ident(i.clone()),
        Token::Punct(p) => Token::Punct(*p),
        Token::Literal(l) => Token::Literal(l.clone()),
    }
}

impl Clone for Tokens {
    fn clone(&self) -> (r: Tokens)
        ensures
            r@ == self@,
    {
        Tokens { trees: clone_trees(&self.trees, 0) }
    }
}

impl Clone for Group {
    fn clone(&self) -> (r: Group)
        ensures
            r@ == self@,
    {
        Group { delimiter: self.delimiter, stream: self.stream.clone(), span: self.span }
    }
}

impl Clone for Token {
    fn clone(&self) -> (r: Token)
        ensures
            r@ == self@,
    {
        clone_tree(self)
    }
}

} // verus!
