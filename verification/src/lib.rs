//! A recursive-descent parsing engine over token trees.
//!
//! Grammar rules are functions over a [`buffer::Cursor`], an immutable
//! position in a token tree, or over a [`parse::ParseBuffer`], which threads
//! a cursor through a chain of rules and remembers the furthest unexpected
//! token. The contracts are stated over [`token::Tree`], the mathematical
//! model of a token.

pub mod buffer;
pub mod combine;
pub mod error;
pub mod ext;
pub mod keyword;
pub mod lexer;
pub mod parse;
pub mod rules;
pub mod synom;
pub mod token;
