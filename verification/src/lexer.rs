//! From source text to token trees. The text is lexed by `proc_macro2`; what
//! it returns is walked here and rebuilt as token trees of this library, each
//! with the span of the place that it takes in the input.

use vstd::prelude::*;
use std::str::FromStr;
use crate::error::Error;
use crate::token::{
    trees_view, Delimiter, Group, Ident, Literal, Punct, Span, Token, Tokens, Tree,
};

verus! {

#[verifier::external_type_specification]
#[verifier::external_body]
pub struct ExStream(proc_macro2::TokenStream);

#[verifier::external_type_specification]
#[verifier::external_body]
pub struct ExTree(proc_macro2::TokenTree);

#[verifier::external_type_specification]
#[verifier::external_body]
pub struct ExLexError(proc_macro2::LexError);

/// The token trees that `proc_macro2` lexes `text` into, or `None` where it
/// rejects the text. Their spans say nothing: see [`placed`].
pub uninterp spec fn lexed(text: Seq<char>) -> Option<Seq<Tree>>;

/// The token trees that a `proc_macro2` stream holds, in order.
pub uninterp spec fn stream_trees(stream: proc_macro2::TokenStream) -> Seq<Tree>;

/// The token tree that a `proc_macro2` token tree stands for: its kind with
/// what `proc_macro2` tells of it, its text being the text that it prints.
pub uninterp spec fn tree_shape(tree: proc_macro2::TokenTree) -> Tree;

/// The four kinds of token tree.
#[derive(Clone, Copy, Debug, PartialEq, Eq, Structural)]
pub enum Kind {
    Group,
    Ident,
    Punct,
    Literal,
}

/// The kind of `tree`.
pub open spec fn kind_of(tree: Tree) -> Kind {
    match tree {
        Tree::Group { .. } => Kind::Group,
        Tree::Ident { .. } => Kind::Ident,
        Tree::Punct { .. } => Kind::Punct,
        Tree::Literal { .. } => Kind::Literal,
    }
}

/// `proc_macro2::TokenStream::from_str`: lexes `text`. The contract names
/// what it returns: the stream holds `lexed(text)`, and it fails where that
/// is `None`. The lexer that this crate builds `proc_macro2` with reads the
/// text alone, and returns on every text.
#[verifier::external_body]
fn lex_text(text: &str) -> (r: Result<proc_macro2::TokenStream, proc_macro2::LexError>)
    ensures
        match r {
            Ok(stream) => lexed(text@) == Some(stream_trees(stream)),
            Err(_) => lexed(text@) is None,
        },
{
    proc_macro2::TokenStream::from_str(text)
}

/// `proc_macro2::TokenStream::into_iter`: hands out the token trees of
/// `stream` one by one, in order and without going into groups.
#[verifier::external_body]
fn stream_into_trees(stream: proc_macro2::TokenStream) -> (r: Vec<proc_macro2::TokenTree>)
    ensures
        r@.len() == stream_trees(stream).len(),
        forall|i: int|
            0 <= i < r@.len() ==> tree_shape(#[trigger] r@[i]) == stream_trees(stream)[i],
{
    stream.into_iter().collect()
}

/// The variants of `proc_macro2::TokenTree`: which of the four kinds `tree`
/// is.
#[verifier::external_body]
fn read_kind(tree: &proc_macro2::TokenTree) -> (r: Kind)
    ensures
        r == kind_of(tree_shape(*tree)),
{
    match tree {
        proc_macro2::TokenTree::Group(_) => Kind::Group,
        proc_macro2::TokenTree::Ident(_) => Kind::Ident,
        proc_macro2::TokenTree::Punct(_) => Kind::Punct,
        proc_macro2::TokenTree::Literal(_) => Kind::Literal,
    }
}

/// `proc_macro2::Group::delimiter`: the kind of bracket around a group;
/// `None` for a tree that is no group.
#[verifier::external_body]
fn read_delimiter(tree: &proc_macro2::TokenTree) -> (r: Option<Delimiter>)
    ensures
        match tree_shape(*tree) {
            Tree::Group { delimiter, .. } => r == Some(delimiter),
            _ => r is None,
        },
{
    match tree {
        proc_macro2::TokenTree::Group(group) => Some(match group.delimiter() {
            proc_macro2::Delimiter::Parenthesis => Delimiter::Parenthesis,
            proc_macro2::Delimiter::Brace => Delimiter::Brace,
            proc_macro2::Delimiter::Bracket => Delimiter::Bracket,
            proc_macro2::Delimiter::None => Delimiter::Invisible,
        }),
        proc_macro2::TokenTree::Ident(_) => None,
        proc_macro2::TokenTree::Punct(_) => None,
        proc_macro2::TokenTree::Literal(_) => None,
    }
}

/// `proc_macro2::Group::stream`: the stream between the delimiters of a
/// group; `None` for a tree that is no group.
#[verifier::external_body]
fn read_stream(tree: &proc_macro2::TokenTree) -> (r: Option<proc_macro2::TokenStream>)
    ensures
        match tree_shape(*tree) {
            Tree::Group { inner, .. } => r matches Some(stream) && stream_trees(stream) == inner,
            _ => r is None,
        },
{
    match tree {
        proc_macro2::TokenTree::Group(group) => Some(group.stream()),
        proc_macro2::TokenTree::Ident(_) => None,
        proc_macro2::TokenTree::Punct(_) => None,
        proc_macro2::TokenTree::Literal(_) => None,
    }
}

/// `to_string` of `proc_macro2::TokenTree`: the tree as it is written. For
/// an identifier or a literal that is its text.
#[verifier::external_body]
fn read_text(tree: &proc_macro2::TokenTree) -> (r: String)
    ensures
        match tree_shape(*tree) {
            Tree::Ident { text, .. } => r@ == text,
            Tree::Literal { text, .. } => r@ == text,
            _ => true,
        },
{
    tree.to_string()
}

/// `proc_macro2::Punct::as_char`: the character of a punctuation token;
/// `None` for a tree that is none.
#[verifier::external_body]
fn read_char(tree: &proc_macro2::TokenTree) -> (r: Option<char>)
    ensures
        match tree_shape(*tree) {
            Tree::Punct { ch, .. } => r == Some(ch),
            _ => r is None,
        },
{
    match tree {
        proc_macro2::TokenTree::Punct(punct) => Some(punct.as_char()),
        proc_macro2::TokenTree::Group(_) => None,
        proc_macro2::TokenTree::Ident(_) => None,
        proc_macro2::TokenTree::Literal(_) => None,
    }
}

/// `proc_macro2::Punct::spacing`: whether a punctuation token is joined to
/// a punctuation character that follows it at once; `None` for a tree that
/// is no punctuation token.
#[verifier::external_body]
fn read_joint(tree: &proc_macro2::TokenTree) -> (r: Option<bool>)
    ensures
        match tree_shape(*tree) {
            Tree::Punct { joint, .. } => r == Some(joint),
            _ => r is None,
        },
{
    match tree {
        proc_macro2::TokenTree::Punct(punct) => Some(match punct.spacing() {
            proc_macro2::Spacing::Joint => true,
            proc_macro2::Spacing::Alone => false,
        }),
        proc_macro2::TokenTree::Group(_) => None,
        proc_macro2::TokenTree::Ident(_) => None,
        proc_macro2::TokenTree::Literal(_) => None,
    }
}

/// The offset after `at`; offsets stop at the largest that there is.
pub open spec fn after(at: usize) -> usize {
    if at < usize::MAX {
        (at + 1) as usize
    } else {
        at
    }
}

/// `tree` with the spans of its place in the input, when it starts at offset
/// `at`, and the offset after it. A token takes one offset; a group takes
/// one for each of its two delimiters, with what it holds between them.
pub open spec fn placed_tree(tree: Tree, at: usize) -> (Tree, usize)
    decreases tree, 0nat,
{
    match tree {
        Tree::Group { delimiter, inner, span } => {
            let (trees, close) = placed_prefix(inner, inner.len(), after(at));
            (
                Tree::Group { delimiter, inner: trees, span: Span { lo: at, hi: after(close) } },
                after(close),
            )
        },
        Tree::Ident { text, span } => (
            Tree::Ident { text, span: Span { lo: at, hi: after(at) } },
            after(at),
        ),
        Tree::Punct { ch, joint, span } => (
            Tree::Punct { ch, joint, span: Span { lo: at, hi: after(at) } },
            after(at),
        ),
        Tree::Literal { text, span } => (
            Tree::Literal { text, span: Span { lo: at, hi: after(at) } },
            after(at),
        ),
    }
}

/// The first `n` trees of `trees`, placed one after the other from offset
/// `at` on, and the offset after the last of them.
pub open spec fn placed_prefix(trees: Seq<Tree>, n: nat, at: usize) -> (Seq<Tree>, usize)
    decreases trees, n,
{
    if n == 0 || n > trees.len() {
        (Seq::empty(), at)
    } else {
        let (init, next) = placed_prefix(trees, (n - 1) as nat, at);
        let (tree, end) = placed_tree(trees[n - 1], next);
        (init.push(tree), end)
    }
}

/// `trees` with the spans of their places in an input that they make up.
pub open spec fn placed(trees: Seq<Tree>) -> Seq<Tree> {
    placed_prefix(trees, trees.len(), 0).0
}

/// The offset after `at`.
fn step(at: usize) -> (r: usize)
    ensures
        r == after(at),
{
    if at < usize::MAX {
        at + 1
    } else {
        at
    }
}

/// The token trees of `stream`, placed from offset `at` on, and the offset
/// after them.
fn place_stream(stream: proc_macro2::TokenStream, at: usize) -> (r: (Vec<Token>, usize))
    ensures
        trees_view(r.0@) == placed_prefix(stream_trees(stream), stream_trees(stream).len(), at).0,
        r.1 == placed_prefix(stream_trees(stream), stream_trees(stream).len(), at).1,
    decreases stream_trees(stream), 1nat,
{
    let ghost model = stream_trees(stream);
    let pieces = stream_into_trees(stream);
    let mut out: Vec<Token> = Vec::new();
    let mut next: usize = at;
    let mut i: usize = 0;
    while i < pieces.len()
        invariant
            i <= pieces.len(),
            model == stream_trees(stream),
            pieces@.len() == model.len(),
            forall|k: int| 0 <= k < pieces@.len() ==> tree_shape(#[trigger] pieces@[k]) == model[k],
            trees_view(out@) == placed_prefix(model, i as nat, at).0,
            next == placed_prefix(model, i as nat, at).1,
        decreases pieces.len() - i,
    {
        let (tree, end) = place_tree(&pieces[i], next, Ghost(model), Ghost(i as int));
        proof {
            let before = out@;
            assert(trees_view(before.push(tree)) =~= trees_view(before).push(tree@));
        }
        out.push(tree);
        next = end;
        i = i + 1;
    }
    (out, next)
}

/// `tree`, placed at offset `at`, and the offset after it. `tree` is the
/// tree at `index` of `within`, which bounds how deep the walk goes.
fn place_tree(
    tree: &proc_macro2::TokenTree,
    at: usize,
    Ghost(within): Ghost<Seq<Tree>>,
    Ghost(index): Ghost<int>,
) -> (r: (Token, usize))
    requires
        0 <= index < within.len(),
        tree_shape(*tree) == within[index],
    ensures
        r.0@ == placed_tree(tree_shape(*tree), at).0,
        r.1 == placed_tree(tree_shape(*tree), at).1,
    decreases within, 0nat,
{
    let hi = step(at);
    match read_kind(tree) {
        Kind::Group => {
            let delimiter = read_delimiter(tree).unwrap();
            let inner = read_stream(tree).unwrap();
            let (trees, close) = place_stream(inner, hi);
            let end = step(close);
            (
                Token::Group(
                    Group { delimiter, stream: Tokens { trees }, span: Span { lo: at, hi: end } },
                ),
                end,
            )
        },
        Kind::Ident => (
            Token::Ident(Ident { text: read_text(tree), span: Span { lo: at, hi } }),
            hi,
        ),
        Kind::Punct => {
            let ch = read_char(tree).unwrap();
            let joint = read_joint(tree).unwrap();
            (Token::Punct(Punct { ch, joint, span: Span { lo: at, hi } }), hi)
        },
        Kind::Literal => (
            Token::Literal(Literal { text: read_text(tree), span: Span { lo: at, hi } }),
            hi,
        ),
    }
}

/// The token trees of `text`, each with the span of its place, or the
/// diagnostic of a text that is no sequence of tokens.
pub fn lex(text: &str) -> (r: Result<Tokens, Error>)
    ensures
        match lexed(text@) {
            Some(trees) => r matches Ok(stream) && stream@ == placed(trees),
            None => r matches Err(e) && e.says(
                Span::call_site(),
                "error while lexing input string"@,
            ),
        },
{
    match lex_text(text) {
        Ok(stream) => {
            let (trees, _) = place_stream(stream, 0);
            Ok(Tokens { trees })
        },
        Err(_) => Err(Error::new(Span::call_site(), "error while lexing input string")),
    }
}

} // verus!
