//! The words that the language keeps for itself.

use vstd::prelude::*;

verus! {

/// Whether `text` is a reserved word: one that no plain identifier may be.
pub open spec fn is_reserved(text: Seq<char>) -> bool {
    ||| text == "_"@
    ||| text == "abstract"@
    ||| text == "as"@
    ||| text == "become"@
    ||| text == "box"@
    ||| text == "break"@
    ||| text == "const"@
    ||| text == "continue"@
    ||| text == "crate"@
    ||| text == "do"@
    ||| text == "else"@
    ||| text == "enum"@
    ||| text == "extern"@
    ||| text == "false"@
    ||| text == "final"@
    ||| text == "fn"@
    ||| text == "for"@
    ||| text == "if"@
    ||| text == "impl"@
    ||| text == "in"@
    ||| text == "let"@
    ||| text == "loop"@
    ||| text == "macro"@
    ||| text == "match"@
    ||| text == "mod"@
    ||| text == "move"@
    ||| text == "mut"@
    ||| text == "override"@
    ||| text == "priv"@
    ||| text == "proc"@
    ||| text == "pub"@
    ||| text == "ref"@
    ||| text == "return"@
    ||| text == "Self"@
    ||| text == "self"@
    ||| text == "static"@
    ||| text == "struct"@
    ||| text == "super"@
    ||| text == "trait"@
    ||| text == "true"@
    ||| text == "type"@
    ||| text == "typeof"@
    ||| text == "unsafe"@
    ||| text == "unsized"@
    ||| text == "use"@
    ||| text == "virtual"@
    ||| text == "where"@
    ||| text == "while"@
    ||| text == "yield"@
}

/// Whether `a` and `b` are the same text.
pub fn same_text(a: &str, b: &str) -> (r: bool)
    ensures
        r == (a@ == b@),
{
    let left = a.to_owned();
    let right = b.to_owned();
    left == right
}

/// Whether `text` is a reserved word.
pub fn reserved(text: &str) -> (r: bool)
    ensures
        r == is_reserved(text@),
{
    same_text(text, "_") || same_text(text, "abstract") || same_text(text, "as") || same_text(
        text,
        "become",
    ) || same_text(text, "box") || same_text(text, "break") || same_text(text, "const")
        || same_text(text, "continue") || same_text(text, "crate") || same_text(text, "do")
        || same_text(text, "else") || same_text(text, "enum") || same_text(text, "extern")
        || same_text(text, "false") || same_text(text, "final") || same_text(text, "fn")
        || same_text(text, "for") || same_text(text, "if") || same_text(text, "impl")
        || same_text(text, "in") || same_text(text, "let") || same_text(text, "loop")
        || same_text(text, "macro") || same_text(text, "match") || same_text(text, "mod")
        || same_text(text, "move") || same_text(text, "mut") || same_text(text, "override")
        || same_text(text, "priv") || same_text(text, "proc") || same_text(text, "pub")
        || same_text(text, "ref") || same_text(text, "return") || same_text(text, "Self")
        || same_text(text, "self") || same_text(text, "static") || same_text(text, "struct")
        || same_text(text, "super") || same_text(text, "trait") || same_text(text, "true")
        || same_text(text, "type") || same_text(text, "typeof") || same_text(text, "unsafe")
        || same_text(text, "unsized") || same_text(text, "use") || same_text(text, "virtual")
        || same_text(text, "where") || same_text(text, "while") || same_text(text, "yield")
}

} // verus!
