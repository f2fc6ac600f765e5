use synom::buffer::{same_delimiter, Cursor, TokenBuffer};
use synom::error::{parse_error, Error, PResult};
use synom::keyword::{reserved, same_text};
use synom::lexer::lex;
use synom::token::{
    clone_tree, clone_trees, Delimiter, Group, Ident, Literal, Punct, Span, Token, Tokens,
};

fn at(lo: usize) -> Span {
    Span { lo, hi: lo + 1 }
}

fn ident(text: &str, lo: usize) -> Token {
    Token::Ident(Ident { text: text.to_string(), span: at(lo) })
}

fn punct(ch: char, joint: bool, lo: usize) -> Token {
    Token::Punct(Punct { ch, joint, span: at(lo) })
}

fn literal(text: &str, lo: usize) -> Token {
    Token::Literal(Literal { text: text.to_string(), span: at(lo) })
}

fn group(delimiter: Delimiter, trees: Vec<Token>, lo: usize, hi: usize) -> Token {
    Token::Group(Group { delimiter, stream: Tokens { trees }, span: Span { lo, hi } })
}

fn list() -> Tokens {
    Tokens {
        trees: vec![group(
            Delimiter::Parenthesis,
            vec![ident("a", 1), punct(',', false, 2), ident("b", 3), punct(',', false, 4)],
            0,
            6,
        )],
    }
}

#[test]
fn lex_places_each_token() {
    assert_eq!(lex("( a , b , )"), Ok(list()));
}

#[test]
fn lex_of_nothing_is_empty() {
    assert_eq!(lex(""), Ok(Tokens { trees: vec![] }));
    assert_eq!(lex("  \n "), Ok(Tokens { trees: vec![] }));
}

#[test]
fn lex_tells_the_kinds_apart() {
    let expected = Tokens {
        trees: vec![
            ident("x", 0),
            punct('+', true, 1),
            punct('=', false, 2),
            literal("12u8", 3),
            literal("\"s\"", 4),
            punct(';', false, 5),
        ],
    };
    assert_eq!(lex("x += 12u8 \"s\";"), Ok(expected));
}

#[test]
fn lex_keeps_the_delimiters() {
    let expected = Tokens {
        trees: vec![
            group(Delimiter::Brace, vec![ident("a", 1)], 0, 3),
            group(Delimiter::Bracket, vec![], 3, 5),
            group(
                Delimiter::Parenthesis,
                vec![group(Delimiter::Bracket, vec![literal("1", 7)], 6, 9), ident("z", 9)],
                5,
                11,
            ),
            ident("end", 11),
        ],
    };
    assert_eq!(lex("{a} [] ([1] z) end"), Ok(expected));
}

#[test]
fn lex_keeps_raw_identifiers_as_written() {
    assert_eq!(lex("r#fn"), Ok(Tokens { trees: vec![ident("r#fn", 0)] }));
}

#[test]
fn lex_rejects_an_unterminated_string() {
    let e = lex("\"abc").unwrap_err();
    assert_eq!(e.to_string(), "error while lexing input string");
    assert_eq!(e.span(), Span::call_site());
}

#[test]
fn lex_rejects_unbalanced_delimiters() {
    assert_eq!(
        lex("( a"),
        Err(Error { span: Span::call_site(), message: "error while lexing input string".to_string() })
    );
    assert!(lex("a )").is_err());
    assert!(lex("( a ]").is_err());
}

#[test]
fn call_site_is_the_origin() {
    assert_eq!(Span::call_site(), Span { lo: 0, hi: 0 });
}

#[test]
fn clones_are_equal_to_what_they_copy() {
    let stream = list();
    assert_eq!(stream.clone(), stream);
    assert_eq!(clone_tree(&stream.trees[0]), stream.trees[0]);
    let Token::Group(g) = &stream.trees[0] else { panic!("a group was built") };
    assert_eq!(clone_trees(&g.stream.trees, 0), g.stream.trees);
    assert_eq!(clone_trees(&g.stream.trees, 2), vec![ident("b", 3), punct(',', false, 4)]);
    assert_eq!(clone_trees(&g.stream.trees, 4), vec![]);
    assert_eq!(g.clone(), *g);
}

#[test]
fn error_holds_its_span_and_message() {
    let e = Error::new(at(3), "expected thing");
    assert_eq!(e.span(), at(3));
    assert_eq!(e.to_string(), "expected thing");
    assert_eq!(e.clone(), e);
}

#[test]
fn parse_error_is_anchored_at_the_call_site() {
    let r: PResult<u8> = parse_error();
    let e = r.err().unwrap();
    assert_eq!(e, Error { span: Span::call_site(), message: "parse error".to_string() });
}

#[test]
fn cursor_reports_the_end() {
    let empty = Tokens { trees: vec![] };
    assert!(Cursor::new(&empty).eof());
    let one = Tokens { trees: vec![ident("a", 0)] };
    let c = Cursor::new(&one);
    assert!(!c.eof());
    assert!(c.exhausted().eof());
    let (_, rest) = c.ident().unwrap();
    assert!(rest.eof());
}

#[test]
fn cursor_span_is_that_of_the_next_token() {
    let stream = Tokens { trees: vec![ident("a", 4), punct(',', false, 5)] };
    let c = Cursor::new(&stream);
    assert_eq!(c.span(), at(4));
    let (_, rest) = c.ident().unwrap();
    assert_eq!(rest.span(), at(5));
    assert_eq!(rest.exhausted().span(), Span::call_site());
    assert_eq!(rest.error("here"), Error { span: at(5), message: "here".to_string() });
}

#[test]
fn cursor_takes_only_the_kind_asked_for() {
    let stream = Tokens {
        trees: vec![ident("a", 0), punct('+', false, 1), literal("1", 2)],
    };
    let c = Cursor::new(&stream);
    assert!(c.punct().is_none());
    assert!(c.literal().is_none());
    assert!(c.group(Delimiter::Parenthesis).is_none());
    let (i, c1) = c.ident().unwrap();
    assert_eq!(i, Ident { text: "a".to_string(), span: at(0) });
    assert!(c1.ident().is_none());
    let (p, c2) = c1.punct().unwrap();
    assert_eq!(p, Punct { ch: '+', joint: false, span: at(1) });
    assert!(c2.punct().is_none());
    let (l, c3) = c2.literal().unwrap();
    assert_eq!(l, Literal { text: "1".to_string(), span: at(2) });
    assert!(c3.eof());
    assert!(c3.token_tree().is_none());
    assert!(c3.ident().is_none());
}

#[test]
fn cursor_is_a_value() {
    let stream = Tokens { trees: vec![ident("a", 0), ident("b", 1)] };
    let c = Cursor::new(&stream);
    let _ = c.ident().unwrap();
    let _ = c.token_tree().unwrap();
    assert_eq!(c.token_stream(), stream);
}

#[test]
fn cursor_enters_a_group_of_the_delimiter_asked_for() {
    let stream = list();
    let c = Cursor::new(&stream);
    assert!(c.group(Delimiter::Brace).is_none());
    assert!(c.group(Delimiter::Bracket).is_none());
    assert!(c.group(Delimiter::Invisible).is_none());
    let (inside, span, rest) = c.group(Delimiter::Parenthesis).unwrap();
    assert_eq!(span, Span { lo: 0, hi: 6 });
    assert!(rest.eof());
    assert_eq!(inside.token_stream().trees.len(), 4);
    let (first, _) = inside.ident().unwrap();
    assert_eq!(first.text, "a");
}

#[test]
fn cursor_copies_what_is_left() {
    let stream = Tokens { trees: vec![ident("a", 0), ident("b", 1), ident("c", 2)] };
    let c = Cursor::new(&stream);
    let (t, rest) = c.token_tree().unwrap();
    assert_eq!(t, ident("a", 0));
    assert_eq!(rest.token_stream(), Tokens { trees: vec![ident("b", 1), ident("c", 2)] });
    assert_eq!(rest.exhausted().token_stream(), Tokens { trees: vec![] });
}

#[test]
fn buffer_begins_before_the_first_token() {
    let buf = TokenBuffer::new2(list());
    assert_eq!(buf.begin().token_stream(), list());
}

#[test]
fn delimiters_compare_by_kind() {
    assert!(same_delimiter(Delimiter::Brace, Delimiter::Brace));
    assert!(same_delimiter(Delimiter::Invisible, Delimiter::Invisible));
    assert!(!same_delimiter(Delimiter::Brace, Delimiter::Bracket));
    assert!(!same_delimiter(Delimiter::Parenthesis, Delimiter::Invisible));
}

#[test]
fn reserved_words_are_told_from_names() {
    assert!(reserved("impl"));
    assert!(reserved("_"));
    assert!(reserved("Self"));
    assert!(reserved("yield"));
    assert!(!reserved("implement"));
    assert!(!reserved("Impl"));
    assert!(!reserved(""));
    assert!(same_text("ab", "ab"));
    assert!(!same_text("ab", "abc"));
}

#[test]
fn lex_reads_a_lifetime_as_a_joint_quote_and_a_name() {
    assert_eq!(lex("'x"), Ok(Tokens { trees: vec![punct('\'', true, 0), ident("x", 1)] }));
}
